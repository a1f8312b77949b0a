use content_store::db::file::FileState;
use content_store::routes::upload::{SessionError, UploadStatus, UploadStatusMap};

#[test]
fn begin_tracks_an_upload_awaiting_data() {
    let mut tracker = UploadStatusMap::new();
    assert_eq!(tracker.begin("h", 1000), Ok(()));
    assert_eq!(
        tracker.get("h"),
        Some(UploadStatus { state: FileState::AwaitingData, total_bytes: 1000, uploaded_bytes: 0 })
    );
    assert_eq!(tracker.get("other"), None);
}

#[test]
fn begin_twice_is_a_conflict() {
    let mut tracker = UploadStatusMap::new();
    tracker.begin("h", 1000).unwrap();
    tracker.add_progress("h", 5);
    assert_eq!(tracker.begin("h", 7), Err(SessionError::Conflict));
    let status = tracker.get("h").unwrap();
    assert_eq!(status.total_bytes, 1000);
    assert_eq!(status.uploaded_bytes, 5);
}

#[test]
fn try_start_lets_exactly_one_in() {
    let mut tracker = UploadStatusMap::new();
    tracker.begin("h", 10).unwrap();
    assert!(tracker.try_start("h"));
    assert!(!tracker.try_start("h"));
    assert_eq!(tracker.get("h").unwrap().state, FileState::Uploading);
}

#[test]
fn try_start_resets_the_progress() {
    let mut tracker = UploadStatusMap::new();
    tracker.begin("h", 10).unwrap();
    tracker.add_progress("h", 4);
    assert!(tracker.try_start("h"));
    assert_eq!(
        tracker.get("h"),
        Some(UploadStatus { state: FileState::Uploading, total_bytes: 10, uploaded_bytes: 0 })
    );
}

#[test]
fn try_start_of_an_unknown_handle_fails() {
    let mut tracker = UploadStatusMap::new();
    assert!(!tracker.try_start("h"));
    assert_eq!(tracker.get("h"), None);
}

#[test]
fn try_start_fails_in_every_later_state() {
    for state in [
        FileState::Uploading,
        FileState::Finishing,
        FileState::Error,
        FileState::UploadCancelled,
    ] {
        let mut tracker = UploadStatusMap::new();
        tracker.begin("h", 10).unwrap();
        tracker.set_state("h", state);
        tracker.add_progress("h", 3);
        assert!(!tracker.try_start("h"));
        assert_eq!(
            tracker.get("h"),
            Some(UploadStatus { state, total_bytes: 10, uploaded_bytes: 3 })
        );
    }
}

#[test]
fn progress_adds_up() {
    let mut tracker = UploadStatusMap::new();
    tracker.begin("h", 100).unwrap();
    tracker.add_progress("h", 30);
    tracker.add_progress("h", 0);
    tracker.add_progress("h", 12);
    assert_eq!(tracker.get("h").unwrap().uploaded_bytes, 42);
}

#[test]
fn progress_stops_at_the_largest_count() {
    let mut tracker = UploadStatusMap::new();
    tracker.begin("h", 100).unwrap();
    tracker.add_progress("h", u64::MAX - 1);
    tracker.add_progress("h", 1);
    assert_eq!(tracker.get("h").unwrap().uploaded_bytes, u64::MAX);
    tracker.add_progress("h", 10);
    assert_eq!(tracker.get("h").unwrap().uploaded_bytes, u64::MAX);
}

#[test]
fn progress_of_an_unknown_handle_is_dropped() {
    let mut tracker = UploadStatusMap::new();
    tracker.add_progress("h", 30);
    tracker.set_state("h", FileState::Finishing);
    assert_eq!(tracker.get("h"), None);
}

#[test]
fn remove_says_whether_the_upload_was_there() {
    let mut tracker = UploadStatusMap::new();
    tracker.begin("h", 100).unwrap();
    tracker.begin("g", 200).unwrap();
    assert!(tracker.remove("h"));
    assert!(!tracker.remove("h"));
    assert_eq!(tracker.get("h"), None);
    assert_eq!(tracker.get("g").unwrap().total_bytes, 200);
}
