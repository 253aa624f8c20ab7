use sundae::cache::{CacheStep, FetchOutcome, TrackCache, TrackError};

fn id(s: &str) -> String {
    s.to_string()
}

#[test]
fn miss_then_download_then_hit() {
    let mut c = TrackCache::new();
    assert!(matches!(c.open_step(&id("t1"), false), CacheStep::Download));
    assert!(c.download_finished(&id("t1"), FetchOutcome::Written).is_ok());
    assert!(c.contains(&id("t1")));
    assert!(matches!(c.open_step(&id("t1"), false), CacheStep::ReadLocal));
    assert!(matches!(c.open_step(&id("t1"), true), CacheStep::ReadLocal));
    assert!(matches!(c.open_step(&id("t2"), false), CacheStep::Download));
}

#[test]
fn file_on_disk_is_a_hit() {
    let c = TrackCache::new();
    assert!(matches!(c.open_step(&id("t1"), true), CacheStep::ReadLocal));
}

#[test]
fn lost_create_race_is_benign() {
    let mut c = TrackCache::new();
    assert!(c.download_finished(&id("t1"), FetchOutcome::AlreadyExists).is_ok());
    assert!(matches!(c.open_step(&id("t1"), false), CacheStep::ReadLocal));
}

#[test]
fn recording_twice_keeps_the_entry() {
    let mut c = TrackCache::new();
    assert!(c.download_finished(&id("t1"), FetchOutcome::Written).is_ok());
    assert!(c.download_finished(&id("t1"), FetchOutcome::AlreadyExists).is_ok());
    assert!(c.contains(&id("t1")));
    assert!(!c.contains(&id("t")));
}

#[test]
fn failures_map_to_errors_and_are_retried() {
    let mut c = TrackCache::new();
    let cases = [
        (FetchOutcome::ConnectionFailure, TrackError::ConnectionFailure),
        (FetchOutcome::AuthFailure, TrackError::AuthFailure),
        (FetchOutcome::ProtocolMismatch, TrackError::ProtocolMismatch),
        (FetchOutcome::WriteFailure, TrackError::CacheWriteFailure),
    ];
    for (outcome, expected) in cases {
        let r = c.download_finished(&id("t1"), outcome);
        assert!(r == Err(expected));
        assert!(!c.contains(&id("t1")));
        assert!(matches!(c.open_step(&id("t1"), false), CacheStep::Download));
    }
}
