use rustup_tuf::config::{TufConfig, TufEnvVars};
use rustup_tuf::manifest::{
    channel_manifest, partial_manifest_hash, tuf_location, Channel, ChannelManifest, ManifestError,
    ToolchainDesc,
};

fn desc(channel: Channel, date: Option<&str>) -> ToolchainDesc {
    ToolchainDesc { channel, date: date.map(|d| d.to_string()) }
}

fn version(name: &str, pre_release: bool) -> Channel {
    Channel::Version { name: name.to_string(), pre_release }
}

/// Every toolchain with a manifest in the test repository, and that manifest.
#[test]
fn verify_manifest_paths() {
    let toolchains = [
        (desc(Channel::Stable, None), "channels/current/stable.toml"),
        (desc(Channel::Beta, None), "channels/current/beta.toml"),
        (desc(Channel::Nightly, None), "channels/current/nightly.toml"),
        (desc(version("1.98.1", false), None), "channels/stable/1.98.1.toml"),
        (desc(Channel::Nightly, Some("2026-06-01")), "channels/nightly/2026/06-01/nightly.toml"),
        (desc(Channel::Nightly, Some("2026-09-16")), "channels/nightly/2026/09-16/nightly.toml"),
        (desc(Channel::Stable, Some("2026-09-03")), "channels/nightly/2026/09-03/stable.toml"),
        (desc(Channel::Beta, Some("2026-09-11")), "channels/nightly/2026/09-11/beta.toml"),
    ];
    let mut generated = std::collections::BTreeSet::new();
    for (toolchain, expected) in &toolchains {
        let target = toolchain.manifest_target(false).unwrap();
        assert_eq!(&target, expected);
        generated.insert(target);
    }
    assert_eq!(generated.len(), toolchains.len());
}

#[test]
fn manifest_urls_under_dist_root() {
    let root = "https://static.rust-lang.org/dist";
    assert_eq!(
        desc(Channel::Stable, None).manifest_v3_url(root, false).unwrap(),
        "https://static.rust-lang.org/dist/channels/current/stable.toml"
    );
    assert_eq!(
        desc(version("1.99.0-beta.2", true), None).manifest_v3_url(root, false).unwrap(),
        "https://static.rust-lang.org/dist/channels/beta/1.99.0-beta.2.toml"
    );
    assert_eq!(
        desc(version("1.98.1", false), None).manifest_v3_url(root, true).unwrap(),
        "https://static.rust-lang.org/dist/channels/staging/1.98.1.toml"
    );
    assert_eq!(
        desc(Channel::Nightly, None).manifest_v3_url("", true).unwrap(),
        "/channels/staging/nightly.toml"
    );
    assert_eq!(
        desc(Channel::Nightly, Some("2026-1-5")).manifest_v3_url("", false).unwrap(),
        "/channels/nightly/2026/01-05/nightly.toml"
    );
}

#[test]
fn invalid_dates_are_reported() {
    let cause = |d: &str| chrono::NaiveDate::parse_from_str(d, "%Y-%m-%d").unwrap_err().to_string();
    let err = desc(Channel::Nightly, Some("2026-02-30")).manifest_v3_url("", false).unwrap_err();
    assert_eq!(
        err,
        ManifestError::InvalidDate { date: "2026-02-30".to_string(), cause: cause("2026-02-30") }
    );
    assert_eq!(cause("2026-02-30"), "input is out of range");
    assert_eq!(err.message(), "invalid date '2026-02-30', expected yyyy-mm-dd");
    let err = desc(Channel::Beta, Some("tomorrow")).manifest_target(false).unwrap_err();
    assert_eq!(
        err,
        ManifestError::InvalidDate { date: "tomorrow".to_string(), cause: cause("tomorrow") }
    );
    assert_eq!(cause("tomorrow"), "input contains invalid characters");
}

#[test]
fn channel_names() {
    assert_eq!(Channel::Stable.name(), "stable");
    assert_eq!(Channel::Beta.name(), "beta");
    assert_eq!(Channel::Nightly.name(), "nightly");
    assert_eq!(version("1.2.3", false).name(), "1.2.3");
}

#[test]
fn location_prefers_dist_server() {
    let cfg = TufConfig::from_env("/rustup", TufEnvVars::new());
    assert_eq!(tuf_location(&cfg, "https://static.rust-lang.org/dist"), "https://static.rust-lang.org/dist");
    let mut env = TufEnvVars::new();
    env.set("RUSTUP_TUF_DIST_SERVER", "/srv/tuf".to_string());
    let cfg = TufConfig::from_env("/rustup", env);
    assert_eq!(tuf_location(&cfg, "https://static.rust-lang.org/dist"), "/srv/tuf");
}

#[test]
fn update_hash_is_first_twenty_hex_digits_of_sha256() {
    assert_eq!(partial_manifest_hash(b""), "e3b0c44298fc1c149afb");
    assert_eq!(partial_manifest_hash(b"abc"), "ba7816bf8f01cfea4141");
    assert_eq!(partial_manifest_hash(b"manifest-version = \"2\"\n").len(), 20);
}

#[test]
fn unchanged_manifest_is_skipped() {
    let bytes = b"abc".to_vec();
    assert_eq!(channel_manifest(bytes.clone(), "t", Some("ba7816bf8f01cfea4141")), Ok(None));
    assert_eq!(
        channel_manifest(bytes.clone(), "t", Some("ba7816bf8f01cfea4141\n")),
        Ok(Some(ChannelManifest { text: "abc".to_string(), hash: "ba7816bf8f01cfea4141".to_string() }))
    );
    assert_eq!(
        channel_manifest(bytes, "t", None),
        Ok(Some(ChannelManifest { text: "abc".to_string(), hash: "ba7816bf8f01cfea4141".to_string() }))
    );
    let fetched = channel_manifest(b"[pkg]\n".to_vec(), "t", Some("")).unwrap().unwrap();
    assert_eq!(fetched.hash.len(), 20);
}

#[test]
fn manifest_must_be_utf8() {
    let err = channel_manifest(vec![0xff, 0xfe], "channels/current/stable.toml", None).unwrap_err();
    assert_eq!(err, ManifestError::NotUtf8 { target: "channels/current/stable.toml".to_string() });
    assert_eq!(err.message(), "channel manifest 'channels/current/stable.toml' is not valid UTF-8");
}
