use chrono::{DateTime, Utc};
use rustup_tuf::config::{TufConfig, TufEnvVars, TufMode, join_path, parse_mode};
use rustup_tuf::time::{parse_date_time, UtcInstant};

fn config(vars: &[(&str, &str)]) -> TufConfig {
    let mut env = TufEnvVars::new();
    for (k, v) in vars {
        env.set(k, v.to_string());
    }
    TufConfig::from_env("/rustup", env)
}

fn instant(dt: DateTime<Utc>) -> UtcInstant {
    UtcInstant { secs: dt.timestamp(), nanos: dt.timestamp_subsec_nanos() }
}

#[test]
fn defaults() {
    assert_eq!(
        config(&[]),
        TufConfig {
            dist_server: None,
            update_server: None,
            root: None,
            home: "/rustup/tuf".to_string(),
            mode: TufMode::Off,
            ignore_failures: false,
            ignore_expiry_after: None,
        }
    );
}

#[test]
fn all_set() {
    let cfg = config(&[
        ("RUSTUP_TUF_DIST_SERVER", "https://tuf.example.com/dist"),
        ("RUSTUP_TUF_UPDATE_SERVER", "https://tuf.example.com/rustup"),
        ("RUSTUP_TUF_ROOT", "/etc/rustup/root.json"),
        ("RUSTUP_TUF_HOME", "/var/lib/rustup-tuf"),
        ("RUSTUP_TUF_ENABLE", "warn"),
        ("RUSTUP_TUF_IGNORE", "1"),
        ("RUSTUP_TUF_IGNOREDATE", "2026-09-16T12:34:56Z"),
    ]);
    assert_eq!(
        cfg,
        TufConfig {
            dist_server: Some("https://tuf.example.com/dist".to_owned()),
            update_server: Some("https://tuf.example.com/rustup".to_owned()),
            root: Some("/etc/rustup/root.json".to_owned()),
            home: "/var/lib/rustup-tuf".to_string(),
            mode: TufMode::Warn,
            ignore_failures: true,
            ignore_expiry_after: "2026-09-16T12:34:56Z".parse::<DateTime<Utc>>().ok().map(instant),
        }
    );
}

#[test]
fn mode_is_case_insensitive_and_lenient() {
    assert_eq!(config(&[("RUSTUP_TUF_ENABLE", "on")]).mode, TufMode::On);
    assert_eq!(config(&[("RUSTUP_TUF_ENABLE", "ON")]).mode, TufMode::On);
    assert_eq!(config(&[("RUSTUP_TUF_ENABLE", "true")]).mode, TufMode::On);
    assert_eq!(config(&[("RUSTUP_TUF_ENABLE", "1")]).mode, TufMode::On);
    assert_eq!(config(&[("RUSTUP_TUF_ENABLE", "Warn")]).mode, TufMode::Warn);
    assert_eq!(config(&[("RUSTUP_TUF_ENABLE", "false")]).mode, TufMode::Off);
    assert_eq!(config(&[("RUSTUP_TUF_ENABLE", "off")]).mode, TufMode::Off);
    assert_eq!(config(&[("RUSTUP_TUF_ENABLE", "maybe")]).mode, TufMode::Off);
    assert_eq!(config(&[("RUSTUP_TUF_ENABLE", "")]).mode, TufMode::Off);
}

#[test]
fn ignore_flag_is_only_one() {
    assert!(config(&[("RUSTUP_TUF_IGNORE", "1")]).ignore_failures);
    for other in ["0", "", "true", "yes", "2"] {
        assert!(
            !config(&[("RUSTUP_TUF_IGNORE", other)]).ignore_failures,
            "{other:?}"
        );
    }
}

#[test]
fn date_parsing() {
    let midnight = instant("2026-09-16T00:00:00Z".parse::<DateTime<Utc>>().unwrap());
    assert_eq!(parse_date_time("2026-09-16"), Some(midnight));
    assert_eq!(parse_date_time("2026-09-16T02:00:00+02:00"), Some(midnight));
    assert_eq!(parse_date_time("yesterday"), None);
    assert_eq!(parse_date_time("2026-13-01"), None);
    assert_eq!(
        config(&[("RUSTUP_TUF_IGNOREDATE", "yesterday")]).ignore_expiry_after,
        None
    );
}

#[test]
fn date_parsing_keeps_fractions_and_epoch() {
    assert_eq!(
        parse_date_time("1970-01-01T00:00:01.5Z"),
        Some(UtcInstant { secs: 1, nanos: 500_000_000 })
    );
    assert_eq!(parse_date_time("1970-01-02"), Some(UtcInstant { secs: 86_400, nanos: 0 }));
    assert_eq!(parse_date_time(""), None);
}

#[test]
fn mode_names_read_back() {
    for mode in [TufMode::Off, TufMode::On, TufMode::Warn] {
        assert_eq!(parse_mode(Some(mode.as_str())), mode);
    }
    assert_eq!(TufMode::On.as_str(), "on");
    assert_eq!(TufMode::Warn.as_str(), "warn");
    assert_eq!(TufMode::Off.as_str(), "off");
    assert_eq!(TufMode::default(), TufMode::Off);
    assert_eq!(parse_mode(None), TufMode::Off);
    assert_eq!(parse_mode(Some("TRUE")), parse_mode(Some("true")));
    assert_eq!(parse_mode(Some("wArN")), TufMode::Warn);
    assert_eq!(parse_mode(Some(" on")), TufMode::Off);
}

#[test]
fn enabled_unless_off() {
    assert!(!config(&[]).enabled());
    assert!(config(&[("RUSTUP_TUF_ENABLE", "on")]).enabled());
    assert!(config(&[("RUSTUP_TUF_ENABLE", "warn")]).enabled());
}

#[test]
fn unknown_variables_are_ignored() {
    let mut env = TufEnvVars::new();
    env.set("RUSTUP_TUF_ENABLED", "on".to_string());
    env.set("PATH", "/usr/bin".to_string());
    assert_eq!(env, TufEnvVars::new());
    env.set("RUSTUP_TUF_IGNOREDATE", "2026-09-16".to_string());
    assert_eq!(env.ignore_date.as_deref(), Some("2026-09-16"));
    assert_eq!(env.ignore, None);
    let names = TufEnvVars::variable_names();
    assert_eq!(names.len(), 7);
    assert_eq!(names[4], "RUSTUP_TUF_ENABLE");
}

#[test]
fn home_joins_rustup_dir() {
    assert_eq!(join_path("/rustup", "tuf"), "/rustup/tuf");
    assert_eq!(join_path("/rustup/", "tuf"), "/rustup/tuf");
    assert_eq!(join_path("", "tuf"), "tuf");
    let cfg = TufConfig::from_env("relative/home", TufEnvVars::new());
    assert_eq!(cfg.home, "relative/home/tuf");
}
