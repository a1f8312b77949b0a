use content_store::config::Config;
use content_store::db::user::User;
use content_store::routes::download::{download_file, download_path, DownloadResponse};
use content_store::routes::upload::{begin_upload, request_upload, upload_file, UploadRequest};
use content_store::state::State;

fn fresh_state() -> State {
    State::new(Config::default(), "./config.json".to_string())
}

fn admin() -> User {
    User { id: 1, name: "root".to_string(), kind: 0, token: "t".to_string() }
}

fn request(size: u64, name: &str) -> UploadRequest {
    UploadRequest {
        file_size: size,
        file_name: name.to_string(),
        file_hash: "announced".to_string(),
        expires_at: 0,
    }
}

#[test]
fn default_response_is_not_found() {
    let response = DownloadResponse::default();
    assert!(!response.found);
    assert!(!response.finished);
    assert_eq!(response.filename, "");
    assert!(response.data.is_empty());
}

#[test]
fn download_of_an_unknown_handle_is_not_found() {
    let mut state = fresh_state();
    assert_eq!(download_path(&state, "h"), None);
    let response = download_file(&mut state, "h", Some(vec![1, 2, 3]));
    assert!(!response.found);
    assert!(!response.finished);
    assert!(response.data.is_empty());
}

#[test]
fn upload_in_flight_is_unfinished() {
    let mut state = fresh_state();
    let answer = request_upload(&mut state, &admin(), request(3, "a.txt")).ok().unwrap();
    assert_eq!(download_path(&state, &answer.upload_id), None);
    let waiting = download_file(&mut state, &answer.upload_id, Some(vec![1]));
    assert!(waiting.found);
    assert!(!waiting.finished);
    assert_eq!(waiting.filename, "");
    assert!(waiting.data.is_empty());

    let _stream = begin_upload(&mut state, &admin(), &answer.upload_id).ok().unwrap();
    let moving = download_file(&mut state, &answer.upload_id, Some(vec![1]));
    assert!(moving.found);
    assert!(!moving.finished);
    assert_eq!(state.file_db.get_by_uuid(&answer.upload_id).unwrap().access_count, 0);
}

#[test]
fn finished_upload_comes_back_as_it_went_in() {
    let mut state = fresh_state();
    let bytes = b"what goes in comes out".to_vec();
    let answer = request_upload(&mut state, &admin(), request(3, "a.txt")).ok().unwrap();
    let record_path = state.file_db.get_by_uuid(&answer.upload_id).unwrap().path;
    upload_file(&mut state, &admin(), &answer.upload_id, &bytes).ok().unwrap();

    assert_eq!(download_path(&state, &answer.upload_id), Some(record_path));
    let response = download_file(&mut state, &answer.upload_id, Some(bytes.clone()));
    assert!(response.found);
    assert!(response.finished);
    assert_eq!(response.filename, "a.txt");
    assert_eq!(response.data, bytes);
}

#[test]
fn each_download_counts_one_read() {
    let mut state = fresh_state();
    let answer = request_upload(&mut state, &admin(), request(3, "a.txt")).ok().unwrap();
    upload_file(&mut state, &admin(), &answer.upload_id, b"abc").ok().unwrap();
    download_file(&mut state, &answer.upload_id, Some(b"abc".to_vec()));
    download_file(&mut state, &answer.upload_id, Some(b"abc".to_vec()));
    assert_eq!(state.file_db.get_by_uuid(&answer.upload_id).unwrap().access_count, 2);
}

#[test]
fn unreadable_file_is_not_found_and_not_counted() {
    let mut state = fresh_state();
    let answer = request_upload(&mut state, &admin(), request(3, "a.txt")).ok().unwrap();
    upload_file(&mut state, &admin(), &answer.upload_id, b"abc").ok().unwrap();
    let response = download_file(&mut state, &answer.upload_id, None);
    assert!(!response.found);
    assert!(!response.finished);
    assert_eq!(response.filename, "");
    assert_eq!(state.file_db.get_by_uuid(&answer.upload_id).unwrap().access_count, 0);
}
