//! Composition of the alert message sent when the fire condition holds.

use vstd::prelude::*;
use vstd::string::*;
use crate::clock;
use crate::config::Settings;

verus! {

/// The fixed subject line of every alert.
pub open spec fn alert_subject_spec() -> Seq<char> {
    "Bot: ERROR Occurred!!"@
}

/// The alert body for a given log identifier and timestamp text.
pub open spec fn alert_body_spec(log_id: Seq<char>, timestamp: Seq<char>) -> Seq<char> {
    "Multiple error occurred on "@ + log_id + " at "@ + timestamp
}

/// A composed alert, ready for the transport.
pub struct AlertMessage {
    pub subject: String,
    pub body: String,
}

/// The fixed subject line of every alert.
pub fn alert_subject() -> (r: &'static str)
    ensures
        r@ == alert_subject_spec(),
{
    "Bot: ERROR Occurred!!"
}

/// Composes the alert body naming the log and the given timestamp text.
pub fn compose_alert_body(log_id: &str, timestamp: &str) -> (r: String)
    ensures
        r@ == alert_body_spec(log_id@, timestamp@),
{
    let mut body = String::from_str("Multiple error occurred on ");
    body.append(log_id);
    body.append(" at ");
    body.append(timestamp);
    proof {
        assert(body@ =~= alert_body_spec(log_id@, timestamp@));
    }
    body
}

/// Composes the alert for these settings at the current time: the fixed
/// subject, and a body naming the monitored log and whatever timestamp
/// text the clock gave.
pub fn alert_message(settings: &Settings) -> (m: AlertMessage)
    ensures
        m.subject@ == alert_subject_spec(),
        exists|ts: Seq<char>| m.body@ == alert_body_spec(settings.log_id@, ts),
{
    let timestamp = clock::now_text();
    let body = compose_alert_body(settings.log_id.as_str(), timestamp.as_str());
    let subject = String::from_str(alert_subject());
    proof {
        assert(body@ == alert_body_spec(settings.log_id@, timestamp@));
    }
    AlertMessage { subject, body }
}

} // verus!
