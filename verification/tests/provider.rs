use rustup_tuf::config::{TufConfig, TufEnvVars, TufMode};
use rustup_tuf::provider::{
    is_not_found, next_candidate, unverified_candidates, DownloadError, FetchOutcome, FetchStep, HttpRepository,
    Remote, TufError, TufRepository, Verification, VerificationFailure, VerifyStep,
};
use rustup_tuf::time::UtcInstant;

fn config(vars: &[(&str, &str)]) -> TufConfig {
    let mut env = TufEnvVars::new();
    for (k, v) in vars {
        env.set(k, v.to_string());
    }
    TufConfig::from_env("/rustup", env)
}

fn failure(expired: &[i64]) -> VerificationFailure {
    VerificationFailure {
        message: "expired timestamp metadata".to_string(),
        expired: expired.iter().map(|&secs| UtcInstant { secs, nanos: 0 }).collect(),
    }
}

#[test]
fn lenient_modes_tolerate_failures() {
    for vars in [&[][..], &[("RUSTUP_TUF_ENABLE", "warn")][..], &[("RUSTUP_TUF_ENABLE", "on"), ("RUSTUP_TUF_IGNORE", "1")][..]] {
        let repo = TufRepository::new(config(vars));
        assert_eq!(repo.tolerate(failure(&[])), Ok(Verification::Skipped));
    }
}

#[test]
fn strict_mode_failure_is_fatal() {
    let repo = TufRepository::new(config(&[("RUSTUP_TUF_ENABLE", "on")]));
    assert_eq!(repo.tolerate(failure(&[100])), Err(failure(&[100])));
}

#[test]
fn expiry_after_ignore_date_is_tolerated() {
    // 1970-01-02T00:00:00Z is 86400.
    let repo = TufRepository::new(config(&[("RUSTUP_TUF_ENABLE", "on"), ("RUSTUP_TUF_IGNOREDATE", "1970-01-02")]));
    assert!(repo.expiry_ignored(&failure(&[86_401])));
    assert!(!repo.expiry_ignored(&failure(&[86_400])));
    assert!(!repo.expiry_ignored(&failure(&[])));
    assert!(repo.expiry_ignored(&failure(&[10, 90_000])));
    assert_eq!(repo.tolerate(failure(&[86_401])), Ok(Verification::Skipped));
    assert_eq!(repo.tolerate(failure(&[86_000])), Err(failure(&[86_000])));
    let later_nanos = VerificationFailure {
        message: String::new(),
        expired: vec![UtcInstant { secs: 86_400, nanos: 1 }],
    };
    assert!(repo.expiry_ignored(&later_nanos));
}

#[test]
fn verify_steps() {
    let off = TufRepository::new(config(&[]));
    assert_eq!(off.verify_start(), VerifyStep::Done(Verification::Skipped));
    let on = TufRepository::new(config(&[("RUSTUP_TUF_ENABLE", "on")]));
    assert_eq!(on.verify_start(), VerifyStep::UpdateMetadata);
    assert_eq!(on.verify_finish(Ok(true)), Ok(Verification::Verified));
    assert_eq!(on.verify_finish(Ok(false)), Ok(Verification::Verified));
    assert_eq!(on.verify_finish(Err(failure(&[]))), Err(failure(&[])));
    let warn = TufRepository::new(config(&[("RUSTUP_TUF_ENABLE", "warn")]));
    assert_eq!(warn.verify_finish(Err(failure(&[]))), Ok(Verification::Skipped));
    assert_eq!(warn.config().mode, TufMode::Warn);
}

#[test]
fn fetch_steps() {
    let off = TufRepository::new(config(&[]));
    assert_eq!(off.fetch_start("channels/current/stable.toml"), Ok(FetchStep::ReadUnverified(Verification::Skipped)));
    let on = TufRepository::new(config(&[("RUSTUP_TUF_ENABLE", "on")]));
    assert_eq!(on.fetch_start("channels/current/stable.toml"), Ok(FetchStep::ReadVerified));
    assert_eq!(
        on.fetch_start("/etc/passwd"),
        Err(TufError::InvalidTargetPath {
            target: "/etc/passwd".to_string(),
            reason: "Cannot start with '/'".to_string(),
        })
    );
    assert_eq!(
        on.fetch_start("/etc/passwd").unwrap_err().message(),
        tuf::metadata::TargetPath::new("/etc/passwd".to_string()).unwrap_err().to_string()
    );
    assert!(on.fetch_start("../secret").is_err());
    assert!(on.fetch_start("").is_err());
    assert_eq!(on.fetch_after_verified_read(Ok(vec![1, 2])), Ok(FetchOutcome::Done(vec![1, 2])));
    assert_eq!(on.fetch_after_verified_read(Err(failure(&[]))), Err(failure(&[])));
    let warn = TufRepository::new(config(&[("RUSTUP_TUF_ENABLE", "warn")]));
    assert_eq!(
        warn.fetch_after_verified_read(Err(failure(&[]))),
        Ok(FetchOutcome::ReadUnverified(Verification::Skipped))
    );
}

#[test]
fn candidates_put_hash_prefixed_paths_first() {
    let digests = vec![vec![0xab, 0xcd], vec![0x01]];
    let c = unverified_candidates("channels/current/stable.toml", true, Some(&digests)).unwrap();
    assert_eq!(
        c,
        vec![
            "channels/current/abcd.stable.toml".to_string(),
            "channels/current/01.stable.toml".to_string(),
            "channels/current/stable.toml".to_string(),
        ]
    );
    let c = unverified_candidates("stable.toml", false, Some(&digests)).unwrap();
    assert_eq!(c, vec!["stable.toml".to_string()]);
    let c = unverified_candidates("stable.toml", true, None).unwrap();
    assert_eq!(c, vec!["stable.toml".to_string()]);
    let c = unverified_candidates("stable.toml", true, Some(&digests)).unwrap();
    assert_eq!(c[0], "abcd.stable.toml");
    assert_eq!(
        unverified_candidates("", true, Some(&digests)),
        Err(TufError::InvalidTargetPath {
            target: String::new(),
            reason: "Path cannot be empty".to_string(),
        })
    );
    let digests = vec![vec![0x01], vec![0x02]];
    assert_eq!(
        unverified_candidates("a/..", true, Some(&digests)),
        Err(TufError::InvalidTargetPath {
            target: "a/..".to_string(),
            reason: "Path cannot have component \"..\"".to_string(),
        })
    );
}

#[test]
fn remote_from_location() {
    let cfg = config(&[("RUSTUP_TUF_HOME", "/var/tuf")]);
    assert_eq!(
        Remote::from_location("./repo", true, &cfg),
        Ok(Remote::FileSystem { path: "./repo".to_string() })
    );
    assert_eq!(
        Remote::from_location("https://example.com/dist", false, &cfg),
        Ok(Remote::Http(HttpRepository::new(
            "https://example.com/dist".to_string(),
            "/var/tuf/tmp".to_string()
        )))
    );
    assert_eq!(
        Remote::from_location("HTTP://Example.com", false, &cfg),
        Ok(Remote::Http(HttpRepository::new("http://example.com/".to_string(), "/var/tuf/tmp".to_string())))
    );
    assert_eq!(
        Remote::from_location("file:///srv/tuf", false, &cfg),
        Ok(Remote::FileUrl { url: "file:///srv/tuf".to_string() })
    );
    assert_eq!(
        Remote::file_url_path(Some(std::path::PathBuf::from("/srv/tuf")), "file:///srv/tuf"),
        Ok(std::path::PathBuf::from("/srv/tuf"))
    );
    let err = Remote::from_location("ftp://example.com/tuf", false, &cfg).unwrap_err();
    assert_eq!(
        err,
        TufError::UnsupportedScheme { scheme: "ftp".to_string(), url: "ftp://example.com/tuf".to_string() }
    );
    assert_eq!(err.message(), "unsupported TUF repository scheme 'ftp' in 'ftp://example.com/tuf'");
    let err = Remote::from_location("not a url", false, &cfg).unwrap_err();
    assert_eq!(err, TufError::InvalidUrl { url: "not a url".to_string() });
    assert_eq!(err.message(), "failed to parse url: not a url");
    assert_eq!(
        Remote::from_location("file://remote-host/tuf", false, &cfg),
        Ok(Remote::FileUrl { url: "file://remote-host/tuf".to_string() })
    );
    let err = Remote::file_url_path::<String>(None, "file://remote-host/tuf").unwrap_err();
    assert_eq!(err, TufError::InvalidFileUrl { url: "file://remote-host/tuf".to_string() });
    assert_eq!(err.message(), "invalid TUF file url 'file://remote-host/tuf'");
}

#[test]
fn http_urls_append_segments() {
    let repo = HttpRepository::new("https://example.com/dist/".to_string(), "/tmp".to_string());
    let components = vec!["1.root.json".to_string()];
    assert_eq!(repo.url("metadata", &components).unwrap(), "https://example.com/dist/metadata/1.root.json");
    let repo = HttpRepository::new("https://example.com/dist".to_string(), "/tmp".to_string());
    let components = vec!["channels".to_string(), "current".to_string(), "stable.toml".to_string()];
    assert_eq!(
        repo.url("targets", &components).unwrap(),
        "https://example.com/dist/targets/channels/current/stable.toml"
    );
    let repo = HttpRepository::new("mailto:someone@example.com".to_string(), "/tmp".to_string());
    let err = repo.url("targets", &components).unwrap_err();
    assert_eq!(err, TufError::NotABaseUrl { url: "mailto:someone@example.com".to_string() });
    assert_eq!(err.message(), "cannot be a base url: mailto:someone@example.com");
}

#[test]
fn not_found_downloads() {
    assert!(is_not_found(&DownloadError::NotExists { url: "https://example.com/x".to_string() }));
    assert!(!is_not_found(&DownloadError::Other { message: "timeout".to_string() }));
}

#[test]
fn target_path_error_message() {
    let err = TufError::InvalidTargetPath { target: "/x".to_string(), reason: "Cannot start with '/'".to_string() };
    assert_eq!(err.message(), "illegal argument: Cannot start with '/'");
}

#[test]
fn unverified_reads_fall_through_to_the_last_failure() {
    assert_eq!(next_candidate(0, 3, "first"), Ok(1));
    assert_eq!(next_candidate(1, 3, "second"), Ok(2));
    assert_eq!(next_candidate(2, 3, "last"), Err("last"));
    assert_eq!(next_candidate(0, 1, "only"), Err("only"));
}

#[test]
fn earlier_ignore_date_ignores_more() {
    let earlier = TufRepository::new(config(&[("RUSTUP_TUF_ENABLE", "on"), ("RUSTUP_TUF_IGNOREDATE", "1970-01-02")]));
    let later = TufRepository::new(config(&[("RUSTUP_TUF_ENABLE", "on"), ("RUSTUP_TUF_IGNOREDATE", "1970-01-03")]));
    let f = failure(&[100_000]);
    assert!(earlier.expiry_ignored(&f));
    assert!(!later.expiry_ignored(&f));
    assert_eq!(later.tolerate(f.clone()), Err(f));
}
