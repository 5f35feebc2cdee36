//! Change events delivered for the watched file, and the re-arm decision
//! each class of event calls for.

use vstd::prelude::*;

verus! {

/// Milliseconds waited before re-arming the watch after the watched file
/// is deleted, so that a rotate-and-recreate pattern has time to put the
/// new file in place.
pub const GRACE_DELAY_MS: u64 = 1000;

/// The three classes of filesystem change the monitor reacts to.
#[derive(Clone, Copy, Debug, PartialEq, Eq, Structural)]
pub enum EventKind {
    /// The file's contents changed.
    Modified,
    /// The file's metadata changed; the inode may be new, so the watch
    /// must be re-armed.
    AttributeChanged,
    /// The file itself was deleted; the watch must be re-armed after the
    /// grace delay.
    Deleted,
}

/// One change event: its class and the name reported by the notification
/// source, if any.
pub struct ChangeEvent {
    pub kind: EventKind,
    pub name: Option<String>,
}

/// What the caller must do to the watch after an event is applied.
#[derive(Clone, Copy, Debug, PartialEq, Eq, Structural)]
pub enum RearmAction {
    /// The existing watch stays valid.
    Keep,
    /// Release the old watch and register a fresh one at once.
    RearmNow,
    /// Wait `GRACE_DELAY_MS`, then release the old watch and register a
    /// fresh one.
    RearmAfterGrace,
}

/// Whether an event of this class increments the alert counter.
pub open spec fn increments_counter(k: EventKind) -> bool {
    k is Modified || k is AttributeChanged
}

/// The re-arm decision for each class of event.
pub open spec fn rearm_action_for(k: EventKind) -> RearmAction {
    match k {
        EventKind::Modified => RearmAction::Keep,
        EventKind::AttributeChanged => RearmAction::RearmNow,
        EventKind::Deleted => RearmAction::RearmAfterGrace,
    }
}

} // verus!
