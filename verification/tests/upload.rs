use content_store::background_worker::run_cleanups;
use content_store::config::Config;
use content_store::db::file::FileState;
use content_store::db::user::User;
use content_store::routes::upload::{
    abort_upload, begin_upload, finish_upload, get_upload_status, register_upload, request_upload,
    upload_file, TransferFault, UploadError, UploadErrorKind, UploadRequest, UploadStatus,
};
use content_store::state::State;

const HELLO_WORLD: &str = "b94d27b9934d3e08a52e52d7da7dabfac484efe37a5380ee9088f7ace2efcde9";
const EMPTY: &str = "e3b0c44298fc1c149afbf4c8996fb92427ae41e4649b934ca495991b7852b855";

fn fresh_state() -> State {
    State::new(Config::default(), "./config.json".to_string())
}

fn account(kind: u8) -> User {
    User { id: 1, name: "someone".to_string(), kind, token: "secret".to_string() }
}

fn request(size: u64, name: &str, hash: &str, expires_at: u64) -> UploadRequest {
    UploadRequest {
        file_size: size,
        file_name: name.to_string(),
        file_hash: hash.to_string(),
        expires_at,
    }
}

fn is_uuid_text(text: &str) -> bool {
    text.len() == 36
        && text.chars().enumerate().all(|(at, c)| match at {
            8 | 13 | 18 | 23 => c == '-',
            _ => c.is_ascii_digit() || ('a'..='f').contains(&c),
        })
}

#[test]
fn oversized_request_is_refused() {
    let mut state = fresh_state();
    let max = state.config.upload.max_size_bytes as u64;
    let error = request_upload(&mut state, &account(0), request(max + 1, "big", "aa", 0))
        .err()
        .unwrap();
    assert_eq!(error.kind, UploadErrorKind::FileTooLarge);
    assert_eq!(error.status, 413);
    assert_eq!(error.uuid, None);
    assert_eq!(error.message.as_deref(), Some("File is too large. Max size is 104857600"));
    assert!(state.file_db.get_paths().is_empty());
}

#[test]
fn request_at_the_limit_is_approved() {
    let mut state = fresh_state();
    let max = state.config.upload.max_size_bytes as u64;
    let answer = request_upload(&mut state, &account(0), request(max, "big", "aa", 0)).ok().unwrap();
    assert!(answer.approved);
}

#[test]
fn negative_limit_refuses_everything() {
    let mut state = fresh_state();
    state.config.upload.max_size_bytes = -5;
    let error =
        request_upload(&mut state, &account(0), request(0, "empty", "aa", 0)).err().unwrap();
    assert_eq!(error.kind, UploadErrorKind::FileTooLarge);
    assert_eq!(error.message.as_deref(), Some("File is too large. Max size is -5"));
}

#[test]
fn request_without_permission_is_refused() {
    let mut state = fresh_state();
    for kind in [2u8, 3, 77] {
        let error =
            request_upload(&mut state, &account(kind), request(10, "a", "aa", 0)).err().unwrap();
        assert_eq!(error.kind, UploadErrorKind::NoPermissions);
        assert_eq!(error.status, 403);
        assert_eq!(error.uuid, None);
        assert_eq!(error.message, None);
    }
    assert!(state.file_db.get_paths().is_empty());
}

#[test]
fn approved_request_makes_a_record_and_a_tracked_upload() {
    let mut state = fresh_state();
    let answer =
        request_upload(&mut state, &account(4), request(1000, "a.txt", "deadbeef", 0)).ok().unwrap();
    assert!(answer.approved);
    assert!(is_uuid_text(&answer.upload_id));
    let record = state.file_db.get_by_uuid(&answer.upload_id).unwrap();
    assert_eq!(record.hash, "-");
    assert_eq!(record.name, "a.txt");
    assert_eq!(record.size, 1000);
    assert_eq!(record.expires_at, 0);
    assert_eq!(record.access_count, 0);
    assert_eq!(record.path, format!("./files/{}", answer.upload_id));
    assert_eq!(
        get_upload_status(&state, &answer.upload_id),
        Some(UploadStatus { state: FileState::AwaitingData, total_bytes: 1000, uploaded_bytes: 0 })
    );
}

#[test]
fn handles_differ_from_request_to_request() {
    let mut state = fresh_state();
    let first = request_upload(&mut state, &account(0), request(1, "a", "h1", 0)).ok().unwrap();
    let second = request_upload(&mut state, &account(0), request(1, "a", "h1", 0)).ok().unwrap();
    assert!(first.approved && second.approved);
    assert_ne!(first.upload_id, second.upload_id);
}

#[test]
fn known_content_is_not_uploaded_again() {
    let mut state = fresh_state();
    let user = account(1);
    let first = request_upload(&mut state, &user, request(11, "a.txt", "x", 0)).ok().unwrap();
    upload_file(&mut state, &user, &first.upload_id, b"hello world").ok().unwrap();
    let again = request_upload(&mut state, &user, request(11, "b.txt", HELLO_WORLD, 0))
        .ok()
        .unwrap();
    assert!(!again.approved);
    assert_eq!(again.upload_id, first.upload_id);
    assert_eq!(state.file_db.get_paths().len(), 1);
    assert_eq!(get_upload_status(&state, &first.upload_id), None);
}

#[test]
fn announced_hash_of_an_unfinished_upload_is_unknown() {
    let mut state = fresh_state();
    let user = account(1);
    let first = request_upload(&mut state, &user, request(11, "a.txt", "-", 0)).ok().unwrap();
    let second = request_upload(&mut state, &user, request(11, "a.txt", "-", 0)).ok().unwrap();
    assert!(first.approved && second.approved);
    assert_eq!(state.file_db.get_paths().len(), 2);
}

#[test]
fn handle_in_use_fails_the_request() {
    let mut state = fresh_state();
    let user = account(0);
    register_upload(&mut state, &user, request(5, "a", "h", 0), "taken".to_string(), 7)
        .ok()
        .unwrap();
    let error =
        register_upload(&mut state, &user, request(6, "b", "g", 0), "taken".to_string(), 8)
            .err()
            .unwrap();
    assert_eq!(error.kind, UploadErrorKind::ServerIssue);
    assert_eq!(error.status, 500);
    assert_eq!(error.uuid, None);
    assert_eq!(error.message.as_deref(), Some("Failed to add file to DB"));
    assert_eq!(state.file_db.get_paths(), vec!["./files/taken"]);
    assert_eq!(state.file_db.get_by_uuid("taken").unwrap().size, 5);
    assert_eq!(get_upload_status(&state, "taken").unwrap().total_bytes, 5);
}

#[test]
fn handle_of_a_tracked_upload_without_record_fails_the_request() {
    let mut state = fresh_state();
    state.upload_status.begin("taken", 1).unwrap();
    let error =
        register_upload(&mut state, &account(0), request(6, "b", "g", 0), "taken".to_string(), 8)
            .err()
            .unwrap();
    assert_eq!(error.kind, UploadErrorKind::ServerIssue);
    assert!(state.file_db.get_paths().is_empty());
}

#[test]
fn record_is_stamped_with_the_time_given() {
    let mut state = fresh_state();
    register_upload(&mut state, &account(0), request(5, "a", "h", 99), "id".to_string(), 1234)
        .ok()
        .unwrap();
    let record = state.file_db.get_by_uuid("id").unwrap();
    assert_eq!(record.created, 1234);
    assert_eq!(record.expires_at, 99);
}

#[test]
fn upload_scenario_from_request_to_finished_record() {
    let mut state = fresh_state();
    let user = account(0);
    let answer =
        request_upload(&mut state, &user, request(1000, "a.txt", "deadbeef", 0)).ok().unwrap();
    assert!(answer.approved);
    let handle = answer.upload_id;
    assert_eq!(
        get_upload_status(&state, &handle),
        Some(UploadStatus { state: FileState::AwaitingData, total_bytes: 1000, uploaded_bytes: 0 })
    );

    let bytes: Vec<u8> = (0..1000u32).map(|i| (i % 251) as u8).collect();
    let mut stream = begin_upload(&mut state, &user, &handle).ok().unwrap();
    assert_eq!(stream.path(), format!("./files/{}", handle));
    assert_eq!(
        get_upload_status(&state, &handle),
        Some(UploadStatus { state: FileState::Uploading, total_bytes: 1000, uploaded_bytes: 0 })
    );
    stream.write(&mut state, &bytes[..400]);
    assert_eq!(
        get_upload_status(&state, &handle),
        Some(UploadStatus { state: FileState::Uploading, total_bytes: 1000, uploaded_bytes: 400 })
    );
    stream.write(&mut state, &bytes[400..]);
    assert_eq!(get_upload_status(&state, &handle).unwrap().uploaded_bytes, 1000);

    let response = finish_upload(&mut state, stream).ok().unwrap();
    assert_eq!(response.uuid, handle);
    assert_eq!(response.size, 1000);
    assert_eq!(response.hash.len(), 64);
    assert_ne!(response.hash, "deadbeef");
    assert_eq!(get_upload_status(&state, &handle), None);

    let record = state.file_db.get_by_uuid(&handle).unwrap();
    assert_eq!(record.hash, response.hash);
    assert_eq!(record.size, 1000);
    assert_eq!(record.name, "a.txt");
}

#[test]
fn hash_is_that_of_the_bytes_received() {
    let mut state = fresh_state();
    let user = account(0);
    let answer = request_upload(&mut state, &user, request(3, "a.txt", "deadbeef", 0)).ok().unwrap();
    let response = upload_file(&mut state, &user, &answer.upload_id, b"hello world").ok().unwrap();
    assert_eq!(response.hash, HELLO_WORLD);
    assert_eq!(response.size, 11);
    assert_eq!(response.uuid, answer.upload_id);
    let record = state.file_db.get_by_uuid(&answer.upload_id).unwrap();
    assert_eq!(record.hash, HELLO_WORLD);
    assert_eq!(record.size, 11);
}

#[test]
fn empty_upload_has_the_hash_of_nothing() {
    let mut state = fresh_state();
    let user = account(0);
    let answer = request_upload(&mut state, &user, request(0, "nil", "x", 0)).ok().unwrap();
    let response = upload_file(&mut state, &user, &answer.upload_id, b"").ok().unwrap();
    assert_eq!(response.hash, EMPTY);
    assert_eq!(response.size, 0);
}

#[test]
fn chunking_does_not_change_the_hash() {
    let bytes: Vec<u8> = (0..20000u32).map(|i| (i * 7 % 256) as u8).collect();
    let user = account(0);

    let mut whole = fresh_state();
    let first = request_upload(&mut whole, &user, request(20000, "a", "x", 0)).ok().unwrap();
    let at_once = upload_file(&mut whole, &user, &first.upload_id, &bytes).ok().unwrap();

    let mut pieces = fresh_state();
    let second = request_upload(&mut pieces, &user, request(20000, "a", "x", 0)).ok().unwrap();
    let mut stream = begin_upload(&mut pieces, &user, &second.upload_id).ok().unwrap();
    for chunk in bytes.chunks(777) {
        stream.write(&mut pieces, chunk);
    }
    let in_pieces = finish_upload(&mut pieces, stream).ok().unwrap();

    assert_eq!(at_once.hash, in_pieces.hash);
    assert_eq!(at_once.size, 20000);
    assert_eq!(in_pieces.size, 20000);
}

#[test]
fn second_transfer_is_already_in_progress() {
    let mut state = fresh_state();
    let user = account(0);
    let answer = request_upload(&mut state, &user, request(3, "a.txt", "x", 0)).ok().unwrap();
    let _stream = begin_upload(&mut state, &user, &answer.upload_id).ok().unwrap();
    let error = begin_upload(&mut state, &user, &answer.upload_id).err().unwrap();
    assert_eq!(error.kind, UploadErrorKind::AlreadyInProgress);
    assert_eq!(error.status, 400);
    assert_eq!(error.uuid, None);
    assert_eq!(error.message, None);
    assert_eq!(get_upload_status(&state, &answer.upload_id).unwrap().state, FileState::Uploading);
}

#[test]
fn transfer_for_an_unknown_handle_is_invalid() {
    let mut state = fresh_state();
    let error = upload_file(&mut state, &account(0), "nothing-here", b"abc").err().unwrap();
    assert_eq!(error.kind, UploadErrorKind::InvalidUuid);
    assert_eq!(error.status, 400);
    assert_eq!(error.uuid.as_deref(), Some("nothing-here"));
}

#[test]
fn transfer_without_a_record_is_invalid() {
    let mut state = fresh_state();
    state.upload_status.begin("h", 3).unwrap();
    let error = upload_file(&mut state, &account(0), "h", b"abc").err().unwrap();
    assert_eq!(error.kind, UploadErrorKind::InvalidUuid);
    assert_eq!(get_upload_status(&state, "h").unwrap().state, FileState::Uploading);
}

#[test]
fn transfer_without_permission_is_refused() {
    let mut state = fresh_state();
    let answer = request_upload(&mut state, &account(0), request(3, "a", "x", 0)).ok().unwrap();
    let error = upload_file(&mut state, &account(2), &answer.upload_id, b"abc").err().unwrap();
    assert_eq!(error.kind, UploadErrorKind::NoPermissions);
    assert_eq!(error.status, 403);
    assert_eq!(error.uuid, None);
    assert_eq!(error.message, None);
    assert_eq!(
        get_upload_status(&state, &answer.upload_id).unwrap().state,
        FileState::AwaitingData
    );
}

#[test]
fn refused_account_can_delete_and_cancel_nothing() {
    let mut state = fresh_state();
    let owner = account(0);
    let done = request_upload(&mut state, &owner, request(3, "done", "x", 0)).ok().unwrap();
    upload_file(&mut state, &owner, &done.upload_id, b"abc").ok().unwrap();
    let waiting = request_upload(&mut state, &owner, request(3, "wait", "y", 0)).ok().unwrap();
    let running = request_upload(&mut state, &owner, request(3, "run", "z", 0)).ok().unwrap();
    let mut stream = begin_upload(&mut state, &owner, &running.upload_id).ok().unwrap();
    stream.write(&mut state, b"ab");

    for kind in [2u8, 3, 200] {
        for handle in [&done.upload_id, &waiting.upload_id, &running.upload_id] {
            let error = upload_file(&mut state, &account(kind), handle, b"zzz").err().unwrap();
            assert_eq!(error.kind, UploadErrorKind::NoPermissions);
            error.respond_to(&mut state);
            assert!(run_cleanups(&mut state).is_empty());
        }
    }

    assert_eq!(state.file_db.get_paths().len(), 3);
    assert_eq!(state.file_db.get_by_uuid(&done.upload_id).unwrap().hash.len(), 64);
    assert_eq!(get_upload_status(&state, &done.upload_id), None);
    assert_eq!(
        get_upload_status(&state, &waiting.upload_id),
        Some(UploadStatus { state: FileState::AwaitingData, total_bytes: 3, uploaded_bytes: 0 })
    );
    assert_eq!(
        get_upload_status(&state, &running.upload_id),
        Some(UploadStatus { state: FileState::Uploading, total_bytes: 3, uploaded_bytes: 2 })
    );
    stream.write(&mut state, b"c");
    let response = finish_upload(&mut state, stream).ok().unwrap();
    assert_eq!(response.size, 3);
}

#[test]
fn second_transfer_leaves_the_first_to_finish() {
    let mut state = fresh_state();
    let user = account(0);
    let answer = request_upload(&mut state, &user, request(11, "a.txt", "x", 0)).ok().unwrap();
    let mut stream = begin_upload(&mut state, &user, &answer.upload_id).ok().unwrap();
    stream.write(&mut state, b"hello ");

    let error = upload_file(&mut state, &user, &answer.upload_id, b"other").err().unwrap();
    assert_eq!(error.kind, UploadErrorKind::AlreadyInProgress);
    error.respond_to(&mut state);
    assert!(run_cleanups(&mut state).is_empty());
    assert_eq!(
        get_upload_status(&state, &answer.upload_id),
        Some(UploadStatus { state: FileState::Uploading, total_bytes: 11, uploaded_bytes: 6 })
    );
    assert!(state.file_db.get_by_uuid(&answer.upload_id).is_some());

    stream.write(&mut state, b"world");
    let response = finish_upload(&mut state, stream).ok().unwrap();
    assert_eq!(response.hash, HELLO_WORLD);
    assert_eq!(state.file_db.get_by_uuid(&answer.upload_id).unwrap().hash, HELLO_WORLD);
}

#[test]
fn failure_that_names_a_handle_is_cleaned_up_after_whatever_its_kind() {
    let kinds = [
        UploadErrorKind::Unknown,
        UploadErrorKind::InvalidUuid,
        UploadErrorKind::InvalidDataSupplied,
        UploadErrorKind::UploadCanceled,
        UploadErrorKind::AlreadyInProgress,
        UploadErrorKind::FileTooLarge,
        UploadErrorKind::FileMissing,
        UploadErrorKind::ServerIssue,
        UploadErrorKind::NoPermissions,
    ];
    for kind in kinds {
        let mut state = fresh_state();
        state.file_db.add_from_request("h", "n".to_string(), 1, 0, 1, "./files/").unwrap();
        state.file_db.add_from_request("other", "n".to_string(), 1, 0, 1, "./files/").unwrap();
        state.upload_status.begin("h", 1).unwrap();
        state.upload_status.begin("other", 1).unwrap();
        let error = UploadError { uuid: Some("h".to_string()), kind, status: 500, message: None };
        error.respond_to(&mut state);
        assert!(state.file_db.get_by_uuid("h").is_some());
        assert_eq!(run_cleanups(&mut state), vec!["h"]);
        assert!(state.file_db.get_by_uuid("h").is_none());
        assert!(get_upload_status(&state, "h").is_none());
        assert!(state.file_db.get_by_uuid("other").is_some());
        assert!(get_upload_status(&state, "other").is_some());
    }
}

#[test]
fn failure_that_names_no_handle_is_not_cleaned_up_after() {
    for kind in [UploadErrorKind::ServerIssue, UploadErrorKind::InvalidUuid] {
        let mut state = fresh_state();
        state.file_db.add_from_request("h", "n".to_string(), 1, 0, 1, "./files/").unwrap();
        state.upload_status.begin("h", 1).unwrap();
        let error = UploadError { uuid: None, kind, status: 500, message: None };
        error.respond_to(&mut state);
        assert!(run_cleanups(&mut state).is_empty());
        assert!(state.file_db.get_by_uuid("h").is_some());
        assert!(get_upload_status(&state, "h").is_some());
    }
}

#[test]
fn unknown_handle_with_a_record_is_cleaned_up_after() {
    let mut state = fresh_state();
    let user = account(0);
    let answer = request_upload(&mut state, &user, request(3, "a", "x", 0)).ok().unwrap();
    upload_file(&mut state, &user, &answer.upload_id, b"abc").ok().unwrap();
    let error = upload_file(&mut state, &user, &answer.upload_id, b"abc").err().unwrap();
    assert_eq!(error.kind, UploadErrorKind::InvalidUuid);
    assert_eq!(error.uuid.as_deref(), Some(answer.upload_id.as_str()));
    error.respond_to(&mut state);
    assert_eq!(run_cleanups(&mut state), vec![answer.upload_id.clone()]);
    assert!(state.file_db.get_by_uuid(&answer.upload_id).is_none());
}

#[test]
fn broken_stream_cancels_the_upload() {
    let mut state = fresh_state();
    let user = account(0);
    let answer = request_upload(&mut state, &user, request(3, "a", "x", 0)).ok().unwrap();
    let mut stream = begin_upload(&mut state, &user, &answer.upload_id).ok().unwrap();
    stream.write(&mut state, b"ab");
    let error = abort_upload(&mut state, stream, TransferFault::Stream);
    assert_eq!(error.kind, UploadErrorKind::UploadCanceled);
    assert_eq!(error.status, 400);
    assert_eq!(error.uuid.as_deref(), Some(answer.upload_id.as_str()));
    assert_eq!(error.message, None);
    assert_eq!(
        get_upload_status(&state, &answer.upload_id),
        Some(UploadStatus { state: FileState::UploadCancelled, total_bytes: 3, uploaded_bytes: 2 })
    );
}

#[test]
fn failing_disk_fails_the_upload() {
    let mut state = fresh_state();
    let user = account(0);
    let answer = request_upload(&mut state, &user, request(3, "a", "x", 0)).ok().unwrap();
    let stream = begin_upload(&mut state, &user, &answer.upload_id).ok().unwrap();
    let error = abort_upload(&mut state, stream, TransferFault::Disk("disk full".to_string()));
    assert_eq!(error.kind, UploadErrorKind::ServerIssue);
    assert_eq!(error.status, 500);
    assert_eq!(error.message.as_deref(), Some("disk full"));
    assert_eq!(get_upload_status(&state, &answer.upload_id).unwrap().state, FileState::Error);
}

#[test]
fn finish_without_a_record_is_a_server_issue() {
    let mut state = fresh_state();
    let user = account(0);
    let answer = request_upload(&mut state, &user, request(3, "a", "x", 0)).ok().unwrap();
    let mut stream = begin_upload(&mut state, &user, &answer.upload_id).ok().unwrap();
    stream.write(&mut state, b"abc");
    state.file_db.remove_by_uuid(&answer.upload_id);
    let error = finish_upload(&mut state, stream).err().unwrap();
    assert_eq!(error.kind, UploadErrorKind::ServerIssue);
    assert_eq!(error.status, 500);
    assert_eq!(error.message.as_deref(), Some("Failed to update file in DB"));
    assert_eq!(get_upload_status(&state, &answer.upload_id), None);
    assert!(state.file_db.get_paths().is_empty());
}

#[test]
fn finished_upload_cannot_be_sent_again() {
    let mut state = fresh_state();
    let user = account(0);
    let answer = request_upload(&mut state, &user, request(3, "a", "x", 0)).ok().unwrap();
    upload_file(&mut state, &user, &answer.upload_id, b"abc").ok().unwrap();
    let error = upload_file(&mut state, &user, &answer.upload_id, b"abc").err().unwrap();
    assert_eq!(error.kind, UploadErrorKind::InvalidUuid);
}

#[test]
fn answering_a_failure_schedules_its_cleanup() {
    let mut state = fresh_state();
    let user = account(0);
    let kept = request_upload(&mut state, &user, request(3, "keep", "x", 0)).ok().unwrap();
    let lost = request_upload(&mut state, &user, request(3, "lose", "y", 0)).ok().unwrap();
    let stream = begin_upload(&mut state, &user, &lost.upload_id).ok().unwrap();
    let error = abort_upload(&mut state, stream, TransferFault::Stream);
    error.respond_to(&mut state);
    assert!(state.file_db.get_by_uuid(&lost.upload_id).is_some());
    assert_eq!(run_cleanups(&mut state), vec![lost.upload_id.clone()]);
    assert!(state.file_db.get_by_uuid(&lost.upload_id).is_none());
    assert_eq!(get_upload_status(&state, &lost.upload_id), None);
    assert!(state.file_db.get_by_uuid(&kept.upload_id).is_some());
    assert!(get_upload_status(&state, &kept.upload_id).is_some());
    assert!(run_cleanups(&mut state).is_empty());
    assert_eq!(state.file_db.get_paths().len(), 1);
}

#[test]
fn failure_without_a_handle_schedules_nothing() {
    let mut state = fresh_state();
    let user = account(0);
    let kept = request_upload(&mut state, &user, request(3, "keep", "x", 0)).ok().unwrap();
    let error = request_upload(&mut state, &account(2), request(3, "no", "z", 0)).err().unwrap();
    error.respond_to(&mut state);
    assert!(run_cleanups(&mut state).is_empty());
    assert!(state.file_db.get_by_uuid(&kept.upload_id).is_some());
    assert!(get_upload_status(&state, &kept.upload_id).is_some());
}

#[test]
fn status_of_an_unknown_upload_is_none() {
    let state = fresh_state();
    assert_eq!(get_upload_status(&state, "h"), None);
}
