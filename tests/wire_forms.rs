use schema_export::records::{
    ActionLog, InputLog, LaunchLocalResult, LaunchLocalResultError, LaunchResult,
    LaunchResultError, LocalMessage, Status, Timestamp, MAX_TIMESTAMP_SECONDS, MIN_TIMESTAMP_SECONDS,
};

#[test]
fn status_names_are_lowercase() {
    assert_eq!(Status::Processing.name(), "processing");
    assert_eq!(Status::Success.name(), "success");
    assert_eq!(Status::Failure.name(), "failure");
}

#[test]
fn status_reads_exactly_the_lowercase_names() {
    assert_eq!(Status::from_name("processing"), Some(Status::Processing));
    assert_eq!(Status::from_name("success"), Some(Status::Success));
    assert_eq!(Status::from_name("failure"), Some(Status::Failure));
    assert_eq!(Status::from_name("Processing"), None);
    assert_eq!(Status::from_name("Success"), None);
    assert_eq!(Status::from_name("FAILURE"), None);
    assert_eq!(Status::from_name(""), None);
    assert_eq!(Status::from_name("done"), None);
    assert_eq!(Status::from_name("success "), None);
}

#[test]
fn status_round_trips_through_its_name() {
    for s in [Status::Processing, Status::Success, Status::Failure] {
        assert_eq!(Status::from_name(s.name()), Some(s));
    }
}

#[test]
fn no_stdout_needs_no_payload() {
    let e = LaunchLocalResultError::from_fields("NoStdout", None).unwrap();
    assert!(matches!(e, LaunchLocalResultError::NoStdout));
    assert_eq!(e.kind(), "NoStdout");
    assert_eq!(e.payload(), None);
}

#[test]
fn no_stdout_ignores_a_payload() {
    let e = LaunchLocalResultError::from_fields("NoStdout", Some("x".to_string())).unwrap();
    assert!(matches!(e, LaunchLocalResultError::NoStdout));
    assert_eq!(e.payload(), None);
}

#[test]
fn spawn_failed_without_payload_is_refused() {
    assert!(LaunchLocalResultError::from_fields("SpawnFailed", None).is_none());
    assert!(LaunchLocalResultError::from_fields("LineCorrupted", None).is_none());
}

#[test]
fn unknown_kind_is_refused() {
    assert!(LaunchLocalResultError::from_fields("spawnfailed", Some("a".to_string())).is_none());
    assert!(LaunchLocalResultError::from_fields("", None).is_none());
    assert!(LaunchLocalResultError::from_fields("Other", Some("a".to_string())).is_none());
}

#[test]
fn payload_variants_round_trip() {
    let e = LaunchLocalResultError::from_fields("SpawnFailed", Some("no such file".to_string()))
        .unwrap();
    match &e {
        LaunchLocalResultError::SpawnFailed(p) => assert_eq!(p, "no such file"),
        _ => panic!("wrong variant"),
    }
    assert_eq!(e.kind(), "SpawnFailed");
    assert_eq!(e.payload(), Some("no such file".to_string()));

    let e = LaunchLocalResultError::LineCorrupted("bad line".to_string());
    let back = LaunchLocalResultError::from_fields(e.kind(), e.payload()).unwrap();
    match back {
        LaunchLocalResultError::LineCorrupted(p) => assert_eq!(p, "bad line"),
        _ => panic!("wrong variant"),
    }
}

#[test]
fn records_hold_their_fields() {
    let t = Timestamp { seconds: 1_700_000_000, nanoseconds: 5 };
    let a = ActionLog { action: "spawn".to_string(), status: Status::Success, timestamp: t };
    let log = InputLog {
        input: "run".to_string(),
        status: Status::Processing,
        timestamp: t,
        actions: vec![a.clone(), a],
    };
    assert_eq!(log.actions.len(), 2);
    assert_eq!(log.actions[1].action, "spawn");
    assert_eq!(log.timestamp, t);
    let m = LocalMessage { message: "hello".to_string() };
    assert_eq!(m.message, "hello");
    let ok: LaunchResult = Ok(());
    let err: LaunchResult = Err(LaunchResultError::ClientExited("code 1".to_string()));
    assert!(ok.is_ok());
    assert!(matches!(err, Err(LaunchResultError::ClientExited(_))));
    let local: LaunchLocalResult = Err(LaunchLocalResultError::NoStdout);
    assert!(local.is_err());
}

#[test]
fn timestamp_range_edges() {
    assert!(Timestamp { seconds: 0, nanoseconds: 0 }.is_valid());
    assert!(Timestamp { seconds: MIN_TIMESTAMP_SECONDS, nanoseconds: 0 }.is_valid());
    assert!(Timestamp { seconds: MAX_TIMESTAMP_SECONDS, nanoseconds: 999_999_999 }.is_valid());
    assert!(!Timestamp { seconds: MIN_TIMESTAMP_SECONDS - 1, nanoseconds: 0 }.is_valid());
    assert!(!Timestamp { seconds: MAX_TIMESTAMP_SECONDS + 1, nanoseconds: 0 }.is_valid());
}

#[test]
fn timestamp_leap_second_nanos() {
    assert!(Timestamp { seconds: 59, nanoseconds: 1_500_000_000 }.is_valid());
    assert!(Timestamp { seconds: -1, nanoseconds: 1_500_000_000 }.is_valid());
    assert!(!Timestamp { seconds: 58, nanoseconds: 1_000_000_000 }.is_valid());
    assert!(!Timestamp { seconds: -2, nanoseconds: 1_000_000_000 }.is_valid());
    assert!(!Timestamp { seconds: 59, nanoseconds: 2_000_000_000 }.is_valid());
}

#[test]
fn timestamp_validity_matches_chrono() {
    let cases = [
        (0i64, 0u32),
        (MIN_TIMESTAMP_SECONDS, 0),
        (MIN_TIMESTAMP_SECONDS - 1, 0),
        (MAX_TIMESTAMP_SECONDS, 999_999_999),
        (MAX_TIMESTAMP_SECONDS + 1, 0),
        (59, 1_999_999_999),
        (-61, 1_000_000_000),
        (-60, 1_000_000_000),
        (1_700_000_000, 2_000_000_000),
    ];
    for (s, n) in cases {
        let ours = Timestamp { seconds: s, nanoseconds: n }.is_valid();
        let theirs = chrono::DateTime::from_timestamp(s, n).is_some();
        assert_eq!(ours, theirs, "seconds {} nanoseconds {}", s, n);
    }
}
