use log_alert::config::{ConfigError, Settings, Thresholds};

#[test]
fn thresholds_in_range_are_accepted() {
    let th = Thresholds::new(3, 5000).expect("in range");
    assert_eq!(th.count_threshold, 3);
    assert_eq!(th.time_threshold, 5000);
}

#[test]
fn count_threshold_below_one_is_rejected() {
    assert_eq!(Thresholds::new(0, 5000), Err(ConfigError::InvalidCountThreshold));
    assert_eq!(Thresholds::new(-4, 5000), Err(ConfigError::InvalidCountThreshold));
}

#[test]
fn negative_time_threshold_is_rejected() {
    assert_eq!(Thresholds::new(3, -1), Err(ConfigError::InvalidTimeThreshold));
}

#[test]
fn zero_time_threshold_is_accepted() {
    let th = Thresholds::new(1, 0).expect("in range");
    assert_eq!(th.time_threshold, 0);
}

#[test]
fn bad_count_is_reported_before_bad_time() {
    assert_eq!(Thresholds::new(0, -1), Err(ConfigError::InvalidCountThreshold));
}

#[test]
fn settings_carry_all_fields() {
    let s = Settings::new(
        String::from("syslog"),
        String::from("/var/log/syslog"),
        String::from("bot@example.com"),
        String::from("example-password"),
        String::from("smtp.example.com"),
        String::from("ops@example.com"),
        3,
        5000,
    )
    .expect("valid settings");
    assert_eq!(s.log_id, "syslog");
    assert_eq!(s.log_path, "/var/log/syslog");
    assert_eq!(s.username, "bot@example.com");
    assert_eq!(s.password, "example-password");
    assert_eq!(s.smtp, "smtp.example.com");
    assert_eq!(s.target, "ops@example.com");
    assert_eq!(s.thresholds.count_threshold, 3);
    assert_eq!(s.thresholds.time_threshold, 5000);
}

#[test]
fn settings_reject_out_of_range_thresholds() {
    let r = Settings::new(
        String::from("syslog"),
        String::from("/var/log/syslog"),
        String::from("bot@example.com"),
        String::from("pw"),
        String::from("smtp.example.com"),
        String::from("ops@example.com"),
        0,
        5000,
    );
    assert_eq!(r.err(), Some(ConfigError::InvalidCountThreshold));
    let r = Settings::new(
        String::from("syslog"),
        String::from("/var/log/syslog"),
        String::from("bot@example.com"),
        String::from("pw"),
        String::from("smtp.example.com"),
        String::from("ops@example.com"),
        3,
        -2,
    );
    assert_eq!(r.err(), Some(ConfigError::InvalidTimeThreshold));
}
