use controlay::updater::{evaluate_release, is_rate_limited, strip_v_prefix, UpdateError};

#[test]
fn tag_prefix_is_stripped() {
    assert_eq!(strip_v_prefix("v1.2.3"), "1.2.3");
    assert_eq!(strip_v_prefix("vv1.2.3"), "1.2.3");
    assert_eq!(strip_v_prefix("1.2.3"), "1.2.3");
    assert_eq!(strip_v_prefix("v"), "");
    assert_eq!(strip_v_prefix("1.0.0-v2"), "1.0.0-v2");
}

#[test]
fn newer_release_is_offered() {
    let r = evaluate_release("0.1.0", "v0.2.0", "https://example.invalid/r".to_string());
    let info = r.unwrap().unwrap();
    assert_eq!(info.version, "0.2.0");
    assert_eq!(info.url, "https://example.invalid/r");
}

#[test]
fn same_or_older_release_is_not_offered() {
    assert!(evaluate_release("0.2.0", "v0.2.0", String::new()).unwrap().is_none());
    assert!(evaluate_release("0.2.0", "v0.1.9", String::new()).unwrap().is_none());
    // A pre-release is older than its release.
    assert!(evaluate_release("1.0.0", "v1.0.0-rc.1", String::new()).unwrap().is_none());
    assert!(evaluate_release("1.0.0-rc.1", "1.0.0", String::new()).unwrap().is_some());
}

#[test]
fn invalid_versions_are_errors() {
    assert!(matches!(
        evaluate_release("0.1.0", "latest", String::new()),
        Err(UpdateError::InvalidVersion(_))
    ));
    assert!(matches!(
        evaluate_release("not-a-version", "v1.0.0", String::new()),
        Err(UpdateError::InvalidVersion(_))
    ));
}

#[test]
fn rate_limit_status_is_quiet() {
    assert!(is_rate_limited(403));
    assert!(!is_rate_limited(404));
    assert!(!is_rate_limited(200));
}
