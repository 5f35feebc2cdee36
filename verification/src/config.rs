//! Settings for the monitor: what to watch, how to alert, and the
//! thresholds that decide when an alert fires.

use vstd::prelude::*;

verus! {

/// Why a settings value was rejected.
#[derive(Clone, Copy, Debug, PartialEq, Eq, Structural)]
pub enum ConfigError {
    /// The count threshold is below 1.
    InvalidCountThreshold,
    /// The time-window threshold is negative.
    InvalidTimeThreshold,
}

/// The two thresholds of the fire condition.
#[derive(Clone, Copy, Debug, PartialEq, Eq, Structural)]
pub struct Thresholds {
    /// Number of counted events needed before an alert may fire; at
    /// least 1.
    pub count_threshold: i32,
    /// Minimum milliseconds between alerts; 0 means no minimum interval.
    pub time_threshold: i64,
}

impl Thresholds {
    /// Both thresholds are in range: the count threshold is at least 1
    /// and the time window is non-negative.
    pub open spec fn wf(self) -> bool {
        self.count_threshold >= 1 && self.time_threshold >= 0
    }

    /// Builds a threshold pair, rejecting out-of-range values.
    pub fn new(count_threshold: i32, time_threshold: i64) -> (r: Result<Thresholds, ConfigError>)
        ensures
            r is Ok <==> count_threshold >= 1 && time_threshold >= 0,
            r matches Ok(t) ==> t == (Thresholds { count_threshold, time_threshold }) && t.wf(),
            count_threshold < 1 ==> (r matches Err(e) && e == ConfigError::InvalidCountThreshold),
            count_threshold >= 1 && time_threshold < 0 ==> (r matches Err(e) && e
                == ConfigError::InvalidTimeThreshold),
    {
        if count_threshold < 1 {
            Err(ConfigError::InvalidCountThreshold)
        } else if time_threshold < 0 {
            Err(ConfigError::InvalidTimeThreshold)
        } else {
            Ok(Thresholds { count_threshold, time_threshold })
        }
    }
}

/// Everything the monitor needs: the watched log, the mail endpoint and
/// credentials, and the alert thresholds.
pub struct Settings {
    /// Human-readable identifier of the monitored log, used in the alert
    /// body.
    pub log_id: String,
    /// Path of the watched file.
    pub log_path: String,
    /// Mail account user name; also the sender address.
    pub username: String,
    /// Mail account password.
    pub password: String,
    /// SMTP endpoint the alert is sent through.
    pub smtp: String,
    /// Recipient of the alert.
    pub target: String,
    /// When an alert fires.
    pub thresholds: Thresholds,
}

impl Settings {
    /// The thresholds are in range.
    pub open spec fn wf(self) -> bool {
        self.thresholds.wf()
    }

    /// Builds validated settings from plain configuration values,
    /// rejecting out-of-range thresholds.
    pub fn new(
        log_id: String,
        log_path: String,
        username: String,
        password: String,
        smtp: String,
        target: String,
        count_threshold: i32,
        time_threshold: i64,
    ) -> (r: Result<Settings, ConfigError>)
        ensures
            r is Ok <==> count_threshold >= 1 && time_threshold >= 0,
            r matches Ok(s) ==> s.wf() && s.log_id@ == log_id@ && s.log_path@ == log_path@
                && s.username@ == username@ && s.password@ == password@ && s.smtp@ == smtp@
                && s.target@ == target@ && s.thresholds == (Thresholds {
                count_threshold,
                time_threshold,
            }),
            count_threshold < 1 ==> (r matches Err(e) && e == ConfigError::InvalidCountThreshold),
            count_threshold >= 1 && time_threshold < 0 ==> (r matches Err(e) && e
                == ConfigError::InvalidTimeThreshold),
    {
        let thresholds = match Thresholds::new(count_threshold, time_threshold) {
            Ok(t) => t,
            Err(e) => {
                return Err(e);
            },
        };
        Ok(Settings { log_id, log_path, username, password, smtp, target, thresholds })
    }
}

} // verus!
