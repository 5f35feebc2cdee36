//! A single-file change monitor with threshold-based email alerting.
//!
//! The library holds the verified core: classifying filesystem change
//! events, maintaining the alert counter, deciding when the watch must be
//! re-armed, evaluating the fire condition, and composing the alert
//! message. The surrounding process (configuration loading, the inotify
//! event loop, and the SMTP transport) lives outside and drives these
//! functions with plain values.

pub mod alert;
pub mod config;
pub mod event;
pub mod monitor;
mod clock;
