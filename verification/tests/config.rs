use content_store::config::Config;
use content_store::db::user::UserKind;
use content_store::json::Json;

fn parse(text: &str) -> Json {
    Json::parse(text).unwrap()
}

#[test]
fn empty_document_changes_nothing() {
    let mut config = Config::default();
    let document = parse("{}");
    assert!(Config::is_mergeable(&document));
    config.merge(&document);
    assert_eq!(config.database.file_db_path, "db/files.db");
    assert_eq!(config.server.port, 3003);
    assert_eq!(config.accounts.user.len(), 1);
    assert_eq!(config.upload.max_size_bytes, 104857600);
    assert_eq!(config.yt_dlp.dpl_exec_path, "yt-dlp");
}

#[test]
fn whole_document_is_taken_over() {
    let mut config = Config::default();
    let document = parse(
        r#"{
            "database": {"file_db_path": "a.db", "user_db_path": "b.db", "video_db_path": "c.db"},
            "server": {"host": "127.0.0.1", "port": 8080},
            "accounts": [
                {"name": "ann", "kind": "admin", "token": "t1"},
                {"name": "bob", "kind": "file_only", "token": "t2"}
            ],
            "upload": {"max_size_bytes": 5000, "upload_location": "/srv/files/"},
            "yt_dlp": {"enabled": true, "dpl_exec_path": "/usr/bin/yt-dlp", "dpl_args": ["-q", "--no-warnings"]},
            "unknown": 17
        }"#,
    );
    assert!(Config::is_mergeable(&document));
    config.merge(&document);
    assert_eq!(config.database.file_db_path, "a.db");
    assert_eq!(config.database.user_db_path, "b.db");
    assert_eq!(config.database.video_db_path, "c.db");
    assert_eq!(config.server.host, "127.0.0.1");
    assert_eq!(config.server.port, 8080);
    assert_eq!(config.accounts.user.len(), 2);
    assert_eq!(config.accounts.user[0].name, "ann");
    assert_eq!(config.accounts.user[0].kind, UserKind::Admin);
    assert_eq!(config.accounts.user[0].token, "t1");
    assert_eq!(config.accounts.user[1].name, "bob");
    assert_eq!(config.accounts.user[1].kind, UserKind::FileOnly);
    assert_eq!(config.upload.max_size_bytes, 5000);
    assert_eq!(config.upload.upload_location, "/srv/files/");
    assert!(config.yt_dlp.enabled);
    assert_eq!(config.yt_dlp.dpl_exec_path, "/usr/bin/yt-dlp");
    assert_eq!(config.yt_dlp.dpl_args, vec!["-q", "--no-warnings"]);
}

#[test]
fn settings_of_the_wrong_kind_read_as_empty() {
    let mut config = Config::default();
    let document = parse(
        r#"{
            "database": {"file_db_path": 1, "user_db_path": null, "video_db_path": []},
            "server": {"host": false, "port": "80"},
            "upload": {"max_size_bytes": "many", "upload_location": 3},
            "yt_dlp": {"enabled": "yes", "dpl_exec_path": {}, "dpl_args": "one"}
        }"#,
    );
    assert!(Config::is_mergeable(&document));
    config.merge(&document);
    assert_eq!(config.database.file_db_path, "");
    assert_eq!(config.database.user_db_path, "");
    assert_eq!(config.database.video_db_path, "");
    assert_eq!(config.server.host, "");
    assert_eq!(config.server.port, 0);
    assert_eq!(config.upload.max_size_bytes, 0);
    assert_eq!(config.upload.upload_location, "");
    assert!(!config.yt_dlp.enabled);
    assert_eq!(config.yt_dlp.dpl_exec_path, "");
    assert!(config.yt_dlp.dpl_args.is_empty());
    assert_eq!(config.accounts.user.len(), 1);
}

#[test]
fn port_beyond_sixteen_bits_is_cut() {
    let mut config = Config::default();
    config.merge(&parse(r#"{"server": {"host": "h", "port": 65536}}"#));
    assert_eq!(config.server.port, 0);
    config.merge(&parse(r#"{"server": {"host": "h", "port": 73539}}"#));
    assert_eq!(config.server.port, 8003);
    config.merge(&parse(r#"{"server": {"host": "h", "port": -1}}"#));
    assert_eq!(config.server.port, 0);
}

#[test]
fn negative_size_limit_is_taken_as_it_is() {
    let mut config = Config::default();
    config.merge(&parse(r#"{"upload": {"max_size_bytes": -12, "upload_location": "x"}}"#));
    assert_eq!(config.upload.max_size_bytes, -12);
}

#[test]
fn sections_that_are_no_objects_are_passed_over() {
    let mut config = Config::default();
    let document = parse(
        r#"{"database": "db", "server": 1, "upload": null, "yt_dlp": [], "accounts": {"user": []}}"#,
    );
    assert!(Config::is_mergeable(&document));
    config.merge(&document);
    assert_eq!(config.database.file_db_path, "db/files.db");
    assert_eq!(config.server.host, "0.0.0.0");
    assert_eq!(config.upload.upload_location, "./files/");
    assert_eq!(config.yt_dlp.dpl_exec_path, "yt-dlp");
    assert_eq!(config.accounts.user.len(), 1);
    assert_eq!(config.accounts.user[0].name, "CHANGE_ME");
}

#[test]
fn accounts_replace_those_there_were() {
    let mut config = Config::default();
    config.merge(&parse(r#"{"accounts": []}"#));
    assert!(config.accounts.user.is_empty());
}

#[test]
fn account_items_that_are_no_objects_are_passed_over() {
    let mut config = Config::default();
    let document = parse(
        r#"{"accounts": [1, {"name": "ann", "kind": 5, "token": null}, "x", {"name": 2, "kind": "root", "token": "t"}]}"#,
    );
    assert!(Config::is_mergeable(&document));
    config.merge(&document);
    assert_eq!(config.accounts.user.len(), 2);
    assert_eq!(config.accounts.user[0].name, "ann");
    assert_eq!(config.accounts.user[0].kind, UserKind::Guest);
    assert_eq!(config.accounts.user[0].token, "");
    assert_eq!(config.accounts.user[1].name, "");
    assert_eq!(config.accounts.user[1].kind, UserKind::Guest);
    assert_eq!(config.accounts.user[1].token, "t");
}

#[test]
fn arguments_that_are_no_texts_read_as_empty() {
    let mut config = Config::default();
    config.merge(&parse(
        r#"{"yt_dlp": {"enabled": true, "dpl_exec_path": "y", "dpl_args": ["a", 1, null, "b"]}}"#,
    ));
    assert_eq!(config.yt_dlp.dpl_args, vec!["a", "", "", "b"]);
}

#[test]
fn documents_with_holes_cannot_be_merged() {
    for text in [
        "[]",
        "3",
        r#"{"database": {"file_db_path": "a", "user_db_path": "b"}}"#,
        r#"{"server": {"host": "h"}}"#,
        r#"{"server": {"port": 1}}"#,
        r#"{"upload": {"max_size_bytes": 1}}"#,
        r#"{"yt_dlp": {"enabled": true, "dpl_exec_path": "y"}}"#,
        r#"{"accounts": [{"name": "n", "kind": "admin"}]}"#,
        r#"{"accounts": [{"name": "n", "kind": "admin", "token": "t"}, {}]}"#,
    ] {
        assert!(!Config::is_mergeable(&parse(text)), "{}", text);
    }
}
