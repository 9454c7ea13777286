use sleep_on_lan::config::{config_path, settle_config, LogLevel};

#[test]
fn config_path_defaults() {
    assert_eq!(config_path(None), "/etc/sleep-on-lan.conf");
    assert_eq!(config_path(Some("/tmp/x.conf".to_string())), "/tmp/x.conf");
}

#[test]
fn settle_config_applies_defaults() {
    let c = settle_config("/etc/s.conf".to_string(), false, false, None, None, None);
    assert_eq!(c.log_level, LogLevel::Info);
    assert_eq!(c.config_path, "/etc/s.conf");
    assert_eq!(c.interface, "eth0");
    assert_eq!(c.port, 9);
    assert_eq!(c.sleep_cmd, "systemctl hibernate");
    assert!(!c.dry_run);
}

#[test]
fn settle_config_keeps_given_values() {
    let c = settle_config(
        "a".to_string(),
        true,
        false,
        Some("wlan0".to_string()),
        Some(7000),
        Some("pm-suspend".to_string()),
    );
    assert_eq!(c.log_level, LogLevel::Debug);
    assert_eq!(c.interface, "wlan0");
    assert_eq!(c.port, 7000);
    assert_eq!(c.sleep_cmd, "pm-suspend");
}

#[test]
fn dry_run_replaces_sleep_command() {
    let c = settle_config("a".to_string(), false, true, None, None, Some("pm-suspend".to_string()));
    assert_eq!(c.sleep_cmd, "echo '[DRY RUN] Shutting down...'");
    assert!(c.dry_run);
}

#[test]
fn wide_port_keeps_low_bits() {
    let c = settle_config("a".to_string(), false, false, None, Some(65536 + 9), None);
    assert_eq!(c.port, 9);
    let s = c.into_server();
    assert_eq!(s.port, 9);
    assert_eq!(s.interface, "eth0");
}
