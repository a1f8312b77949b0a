use content_store::config::Config;
use content_store::db::user::UserKind;
use content_store::routes::api::{authorize, check_auth, AuthorizeRequest};
use content_store::routes::catchers::{not_found, unauthorized, ContentKind};
use content_store::routes::{
    AuthError, BaseRateLimitGuard, RateLimitGuard, StrictRateLimitGuard, TokenAuth,
};
use content_store::state::State;
use content_store::utils::{get_file_with_extension, DirEntry};

fn state_with_accounts() -> State {
    let mut state = State::new(Config::default(), "c".to_string());
    state.user_db.insert("ann", UserKind::Admin, "token-ann").unwrap();
    state.user_db.insert("bob", UserKind::YtOnly, "token-bob").unwrap();
    state
}

#[test]
fn token_finds_its_account() {
    let state = state_with_accounts();
    let bob = check_auth(&state, "token-bob").ok().unwrap();
    assert_eq!((bob.id, bob.name.as_str(), bob.kind), (2, "bob", 3));
    assert_eq!(check_auth(&state, "token-cid").err(), Some(401));
    assert_eq!(check_auth(&state, "").err(), Some(401));
}

#[test]
fn authorize_tells_the_role() {
    let state = state_with_accounts();
    let known = authorize(&state, &AuthorizeRequest { token: "token-bob".to_string() });
    assert_eq!(known.ok().unwrap().role, 3);
    let unknown = authorize(&state, &AuthorizeRequest { token: "guess".to_string() });
    assert_eq!(unknown.err(), Some(401));
}

#[test]
fn request_is_told_by_its_token() {
    let state = state_with_accounts();
    let ann = TokenAuth::from_request(&state, Some("token-ann")).ok().unwrap();
    assert_eq!(ann.0.name, "ann");
    assert_eq!(
        TokenAuth::from_request(&state, Some("wrong")).err(),
        Some((401, AuthError::Invalid))
    );
    assert_eq!(TokenAuth::from_request(&state, None).err(), Some((401, AuthError::Missing)));
}

#[test]
fn limits_per_minute() {
    assert_eq!(BaseRateLimitGuard::quota(), 70);
    assert_eq!(RateLimitGuard::quota(), 10);
    assert_eq!(StrictRateLimitGuard::quota(), 2);
}

#[test]
fn interface_gets_a_document_where_nothing_is_found() {
    let body = not_found(Some("api"), Some("<html>page</html>".to_string()));
    assert_eq!(body, (ContentKind::Json, "{\"status\": 404, \"error\": \"Not found\"}".to_string()));
    let body = unauthorized(Some("api"), None);
    assert_eq!(
        body,
        (ContentKind::Json, "{\"status\": 401, \"error\": \"Unauthorized\"}".to_string())
    );
}

#[test]
fn everyone_else_gets_the_page_where_nothing_is_found() {
    for segment in [None, Some("f"), Some("API"), Some("")] {
        let body = not_found(segment, Some("<html>404</html>".to_string()));
        assert_eq!(body, (ContentKind::Html, "<html>404</html>".to_string()));
        let body = unauthorized(segment, Some("<html>401</html>".to_string()));
        assert_eq!(body, (ContentKind::Html, "<html>401</html>".to_string()));
    }
}

#[test]
fn plain_line_stands_in_for_a_page_that_is_not_to_be_had() {
    assert_eq!(not_found(None, None), (ContentKind::Html, "404 Not Found".to_string()));
    assert_eq!(unauthorized(Some("f"), None), (ContentKind::Html, "401 Unauthorized".to_string()));
}

fn entry(path: &str, is_file: bool) -> DirEntry {
    DirEntry { path: path.to_string(), is_file }
}

#[test]
fn file_with_extension_is_the_first_file_that_begins_alike() {
    let entries = vec![
        entry("./files/other.mp4", true),
        entry("./files/h-id", false),
        entry("./files/h-id.webm", true),
        entry("./files/h-id.mp4", true),
    ];
    assert_eq!(
        get_file_with_extension("./files/h-id", &entries),
        Some("./files/h-id.webm".to_string())
    );
    assert_eq!(
        get_file_with_extension("/elsewhere/other", &entries),
        Some("./files/other.mp4".to_string())
    );
    assert_eq!(get_file_with_extension("./files/none", &entries), None);
    assert_eq!(get_file_with_extension("./files/h-id", &Vec::new()), None);
}

#[test]
fn path_without_file_name_stands_for_no_file() {
    let entries = vec![entry("./files/a", true)];
    assert_eq!(get_file_with_extension("/", &entries), None);
    assert_eq!(get_file_with_extension("..", &entries), None);
}
