use log_alert::alert::{alert_message, alert_subject, compose_alert_body};
use log_alert::config::Settings;

fn sample_settings() -> Settings {
    Settings::new(
        String::from("syslog"),
        String::from("/var/log/syslog"),
        String::from("bot@example.com"),
        String::from("example-password"),
        String::from("smtp.example.com"),
        String::from("ops@example.com"),
        3,
        5000,
    )
    .expect("valid settings")
}

#[test]
fn subject_is_fixed() {
    assert_eq!(alert_subject(), "Bot: ERROR Occurred!!");
}

#[test]
fn body_names_log_and_timestamp() {
    let body = compose_alert_body("syslog", "2020-01-02 03:04:05");
    assert_eq!(body, "Multiple error occurred on syslog at 2020-01-02 03:04:05");
}

#[test]
fn body_with_empty_parts() {
    assert_eq!(compose_alert_body("", ""), "Multiple error occurred on  at ");
}

#[test]
fn message_carries_subject_and_log_id() {
    let m = alert_message(&sample_settings());
    assert_eq!(m.subject, "Bot: ERROR Occurred!!");
    assert!(m.body.starts_with("Multiple error occurred on syslog at "));
    assert!(m.body.len() > "Multiple error occurred on syslog at ".len());
}
