use content_store::config::{Config, UserConfig};
use content_store::db::table::StoreError;
use content_store::db::user::{PermissionKind, User, UserDB, UserKind};

const ALL_KINDS: [UserKind; 5] =
    [UserKind::Admin, UserKind::User, UserKind::Guest, UserKind::YtOnly, UserKind::FileOnly];

const ALL_PERMISSIONS: [PermissionKind; 4] = [
    PermissionKind::FileUpload,
    PermissionKind::FileRemove,
    PermissionKind::YoutubeDownload,
    PermissionKind::MedalDownload,
];

fn account(kind: UserKind) -> User {
    User { id: 1, name: "n".to_string(), kind: kind.as_u8(), token: "t".to_string() }
}

#[test]
fn user_kind_codes_round_trip() {
    for (code, kind) in ALL_KINDS.iter().enumerate() {
        assert_eq!(kind.as_u8() as usize, code);
        assert_eq!(UserKind::from_u8(code as u8), *kind);
    }
}

#[test]
fn unknown_user_kind_is_a_guest() {
    assert_eq!(UserKind::from_u8(5), UserKind::Guest);
    assert_eq!(UserKind::from_u8(200), UserKind::Guest);
    assert_eq!(UserKind::from_str("root"), UserKind::Guest);
    assert_eq!(UserKind::from_str(""), UserKind::Guest);
    assert_eq!(UserKind::from_str("Admin"), UserKind::Guest);
}

#[test]
fn user_kind_names_are_read() {
    assert_eq!(UserKind::from_str("admin"), UserKind::Admin);
    assert_eq!(UserKind::from_str("user"), UserKind::User);
    assert_eq!(UserKind::from_str("guest"), UserKind::Guest);
    assert_eq!(UserKind::from_str("yt_only"), UserKind::YtOnly);
    assert_eq!(UserKind::from_str("file_only"), UserKind::FileOnly);
}

#[test]
fn admin_may_do_everything_and_guest_nothing() {
    for permission in ALL_PERMISSIONS {
        assert!(account(UserKind::Admin).has_permissions_to(permission));
        assert!(!account(UserKind::Guest).has_permissions_to(permission));
    }
}

#[test]
fn user_may_do_everything_but_remove_files() {
    let user = account(UserKind::User);
    assert!(user.has_permissions_to(PermissionKind::FileUpload));
    assert!(!user.has_permissions_to(PermissionKind::FileRemove));
    assert!(user.has_permissions_to(PermissionKind::YoutubeDownload));
    assert!(user.has_permissions_to(PermissionKind::MedalDownload));
}

#[test]
fn narrow_roles_keep_to_their_trade() {
    let videos = account(UserKind::YtOnly);
    assert!(!videos.has_permissions_to(PermissionKind::FileUpload));
    assert!(!videos.has_permissions_to(PermissionKind::FileRemove));
    assert!(videos.has_permissions_to(PermissionKind::YoutubeDownload));
    assert!(videos.has_permissions_to(PermissionKind::MedalDownload));
    let files = account(UserKind::FileOnly);
    assert!(files.has_permissions_to(PermissionKind::FileUpload));
    assert!(!files.has_permissions_to(PermissionKind::FileRemove));
    assert!(!files.has_permissions_to(PermissionKind::YoutubeDownload));
    assert!(!files.has_permissions_to(PermissionKind::MedalDownload));
}

#[test]
fn stored_kind_decides_the_role() {
    let strange = User { id: 9, name: "n".to_string(), kind: 42, token: "t".to_string() };
    assert_eq!(strange.kind(), UserKind::Guest);
    assert_eq!(account(UserKind::YtOnly).kind(), UserKind::YtOnly);
}

#[test]
fn accounts_are_numbered_from_one() {
    let mut db = UserDB::new();
    assert_eq!(db.insert("ann", UserKind::Admin, "t-ann"), Ok(()));
    assert_eq!(db.insert("bob", UserKind::FileOnly, "t-bob"), Ok(()));
    let ann = db.get("t-ann").unwrap();
    assert_eq!((ann.id, ann.name.as_str(), ann.kind), (1, "ann", 0));
    let bob = db.get("t-bob").unwrap();
    assert_eq!((bob.id, bob.name.as_str(), bob.kind), (2, "bob", 4));
    assert!(db.get("t-cid").is_none());
}

#[test]
fn taken_name_is_a_conflict() {
    let mut db = UserDB::new();
    db.insert("ann", UserKind::Admin, "one").unwrap();
    assert_eq!(db.insert("ann", UserKind::Guest, "two"), Err(StoreError::Conflict));
    assert!(db.get("two").is_none());
    assert_eq!(db.get("one").unwrap().kind, 0);
}

#[test]
fn shared_token_finds_the_oldest_account() {
    let mut db = UserDB::new();
    db.insert("ann", UserKind::Admin, "same").unwrap();
    db.insert("bob", UserKind::Guest, "same").unwrap();
    assert_eq!(db.get("same").unwrap().name, "ann");
}

#[test]
fn sync_takes_the_configured_accounts_in_order() {
    let mut config = Config::default();
    config.accounts.user.push(UserConfig {
        name: "second".to_string(),
        kind: UserKind::YtOnly,
        token: "t2".to_string(),
    });
    let mut db = UserDB::new();
    assert_eq!(db.sync_with_config(&config), Ok(()));
    let first = db.get("admin").unwrap();
    assert_eq!((first.id, first.name.as_str(), first.kind), (1, "CHANGE_ME", 0));
    let second = db.get("t2").unwrap();
    assert_eq!((second.id, second.name.as_str(), second.kind), (2, "second", 3));
}

#[test]
fn sync_stops_at_the_first_account_not_taken() {
    let mut config = Config::default();
    for (name, token) in [("twin", "a"), ("twin", "b"), ("late", "c")] {
        config.accounts.user.push(UserConfig {
            name: name.to_string(),
            kind: UserKind::User,
            token: token.to_string(),
        });
    }
    let mut db = UserDB::new();
    assert_eq!(db.sync_with_config(&config), Err(StoreError::Conflict));
    assert!(db.get("admin").is_some());
    assert!(db.get("a").is_some());
    assert!(db.get("b").is_none());
    assert!(db.get("c").is_none());
}

#[test]
fn table_is_full_after_the_last_row_number() {
    let mut db = UserDB::new();
    for at in 0..65535usize {
        let name = format!("{}{}", at, "-".repeat(at % 128));
        db.insert(&name, UserKind::Guest, "t").unwrap();
    }
    assert_eq!(db.insert("last", UserKind::Guest, "final"), Err(StoreError::Full));
    assert!(db.get("final").is_none());
    assert_eq!(db.insert("0", UserKind::Guest, "final"), Err(StoreError::Conflict));
}
