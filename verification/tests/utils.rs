use content_store::config::Config;
use content_store::utils::{
    get_current_timestamp, get_directory_from_path, get_extension_from_path,
    get_filename_from_path, timestamp_of,
};

#[test]
fn file_name_is_the_last_component() {
    assert_eq!(get_filename_from_path("./files/abc"), Some("abc".to_string()));
    assert_eq!(get_filename_from_path("/usr/bin/"), Some("bin".to_string()));
    assert_eq!(get_filename_from_path("tmp/foo.txt"), Some("foo.txt".to_string()));
    assert_eq!(get_filename_from_path("foo.txt/."), Some("foo.txt".to_string()));
    assert_eq!(get_filename_from_path("plain"), Some("plain".to_string()));
}

#[test]
fn some_paths_have_no_file_name() {
    assert_eq!(get_filename_from_path("foo.txt/.."), None);
    assert_eq!(get_filename_from_path("/"), None);
    assert_eq!(get_filename_from_path(""), None);
}

#[test]
fn directory_is_the_path_without_the_last_component() {
    assert_eq!(get_directory_from_path("db/files.db"), Some("db".to_string()));
    assert_eq!(get_directory_from_path("/a/b/c"), Some("/a/b".to_string()));
    assert_eq!(get_directory_from_path("files.db"), Some("".to_string()));
    assert_eq!(get_directory_from_path("/"), None);
    assert_eq!(get_directory_from_path(""), None);
}

#[test]
fn extension_follows_the_last_dot() {
    assert_eq!(get_extension_from_path("clip.mp4"), Some("mp4".to_string()));
    assert_eq!(get_extension_from_path("a.b.c"), Some("c".to_string()));
    assert_eq!(get_extension_from_path("./files/id-clip.webm"), Some("webm".to_string()));
    assert_eq!(get_extension_from_path("trailing."), Some("".to_string()));
    assert_eq!(get_extension_from_path(".hidden"), Some("hidden".to_string()));
}

#[test]
fn path_without_a_dot_is_its_own_extension() {
    assert_eq!(get_extension_from_path("noext"), Some("noext".to_string()));
    assert_eq!(get_extension_from_path(""), Some("".to_string()));
}

#[test]
fn extension_of_a_path_with_wide_characters() {
    assert_eq!(get_extension_from_path("é.ü"), Some("ü".to_string()));
    assert_eq!(get_extension_from_path("日本語.テキスト"), Some("テキスト".to_string()));
}

#[test]
fn reading_of_the_clock_is_taken_as_it_is() {
    assert_eq!(timestamp_of(Some(0)), 0);
    assert_eq!(timestamp_of(Some(1_700_000_000)), 1_700_000_000);
    assert_eq!(timestamp_of(Some(u64::MAX)), u64::MAX);
}

#[test]
fn clock_before_the_epoch_reads_as_zero() {
    assert_eq!(timestamp_of(None), 0);
}

#[test]
fn the_clock_stands_after_the_year_2020() {
    assert!(get_current_timestamp() > 1_577_836_800);
}

#[test]
fn default_config_is_that_of_a_fresh_installation() {
    let config = Config::default();
    assert_eq!(config.database.file_db_path, "db/files.db");
    assert_eq!(config.database.user_db_path, "db/users.db");
    assert_eq!(config.database.video_db_path, "db/videos.db");
    assert_eq!(config.server.host, "0.0.0.0");
    assert_eq!(config.server.port, 3003);
    assert_eq!(config.accounts.user.len(), 1);
    assert_eq!(config.accounts.user[0].name, "CHANGE_ME");
    assert_eq!(config.accounts.user[0].token, "admin");
    assert_eq!(config.upload.max_size_bytes, 100 * 1024 * 1024);
    assert_eq!(config.upload.upload_location, "./files/");
    assert!(!config.yt_dlp.enabled);
    assert_eq!(config.yt_dlp.dpl_exec_path, "yt-dlp");
    assert!(config.yt_dlp.dpl_args.is_empty());
}
