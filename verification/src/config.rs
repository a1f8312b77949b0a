//! The settings the service runs with.

use crate::db::user::UserKind;
use crate::json::{lemma_trees, trees, Json, Tree};
use crate::lists::texts;
use vstd::prelude::*;
use vstd::string::StringExecFns;

verus! {

pub struct Config {
    pub database: DatabaseConfig,
    pub server: ServerConfig,
    pub accounts: AccountsConfig,
    pub upload: UploadConfig,
    pub yt_dlp: YtDlpConfig,
}

pub struct DatabaseConfig {
    pub file_db_path: String,
    pub user_db_path: String,
    pub video_db_path: String,
}

pub struct UploadConfig {
    pub max_size_bytes: i64,
    pub upload_location: String,
}

pub struct YtDlpConfig {
    pub enabled: bool,
    pub dpl_exec_path: String,
    pub dpl_args: Vec<String>,
}

pub struct ServerConfig {
    pub host: String,
    pub port: u16,
}

pub struct AccountsConfig {
    pub user: Vec<UserConfig>,
}

pub struct UserConfig {
    pub name: String,
    pub kind: UserKind,
    pub token: String,
}

/// What a [`UserConfig`] says, as mathematical values.
pub struct UserConfigView {
    pub name: Seq<char>,
    pub kind: UserKind,
    pub token: Seq<char>,
}

impl View for UserConfig {
    type V = UserConfigView;

    open spec fn view(&self) -> UserConfigView {
        UserConfigView { name: self.name@, kind: self.kind, token: self.token@ }
    }
}

/// The accounts that a list of configured users stands for.
pub open spec fn user_configs(users: Seq<UserConfig>) -> Seq<UserConfigView> {
    users.map_values(|user: UserConfig| user@)
}

/// The largest upload accepted unless configured otherwise: 100 MiB.
pub const DEFAULT_MAX_SIZE_BYTES: i64 = 104857600;

impl Config {
    /// The settings of a fresh installation: one admin account to be
    /// renamed, uploads of up to 100 MiB under `./files/`, the video tool
    /// switched off.
    pub fn default() -> (config: Config)
        ensures
            config.database.file_db_path@ == "db/files.db"@,
            config.database.user_db_path@ == "db/users.db"@,
            config.database.video_db_path@ == "db/videos.db"@,
            config.server.host@ == "0.0.0.0"@,
            config.server.port == 3003,
            user_configs(config.accounts.user@) == seq![
                UserConfigView { name: "CHANGE_ME"@, kind: UserKind::Admin, token: "admin"@ },
            ],
            config.upload.max_size_bytes == DEFAULT_MAX_SIZE_BYTES,
            config.upload.upload_location@ == "./files/"@,
            !config.yt_dlp.enabled,
            config.yt_dlp.dpl_exec_path@ == "yt-dlp"@,
            config.yt_dlp.dpl_args@.len() == 0,
    {
        let mut user: Vec<UserConfig> = Vec::new();
        user.push(
            UserConfig {
                name: String::from_str("CHANGE_ME"),
                kind: UserKind::Admin,
                token: String::from_str("admin"),
            },
        );
        let config = Config {
            database: DatabaseConfig {
                file_db_path: String::from_str("db/files.db"),
                user_db_path: String::from_str("db/users.db"),
                video_db_path: String::from_str("db/videos.db"),
            },
            server: ServerConfig { host: String::from_str("0.0.0.0"), port: 3003 },
            accounts: AccountsConfig { user },
            upload: UploadConfig {
                max_size_bytes: DEFAULT_MAX_SIZE_BYTES,
                upload_location: String::from_str("./files/"),
            },
            yt_dlp: YtDlpConfig {
                enabled: false,
                dpl_exec_path: String::from_str("yt-dlp"),
                dpl_args: Vec::new(),
            },
        };
        proof {
            assert(user_configs(config.accounts.user@) =~= seq![
                UserConfigView { name: "CHANGE_ME"@, kind: UserKind::Admin, token: "admin"@ },
            ]);
        }
        config
    }
}

/// The member of a document under a key where that member is an object.
pub open spec fn section(tree: Tree, key: Seq<char>) -> Option<Tree> {
    match tree.member(key) {
        Some(member) => if member is Object {
            Some(member)
        } else {
            None
        },
        None => None,
    }
}

/// The member of a document under a key where that member is an array.
pub open spec fn list(tree: Tree, key: Seq<char>) -> Option<Seq<Tree>> {
    match tree.member(key) {
        Some(member) => member.items(),
        None => None,
    }
}

/// The characters of a text; nothing for what is no text.
pub open spec fn text_or_empty(tree: Tree) -> Seq<char> {
    match tree.text() {
        Some(text) => text,
        None => Seq::empty(),
    }
}

/// The role that a document names; a guest's for what is no text.
pub open spec fn kind_or_guest(tree: Tree) -> UserKind {
    match tree.text() {
        Some(text) => UserKind::parse(text),
        None => UserKind::Guest,
    }
}

/// The account that an object describes by its name, kind and token.
pub open spec fn account_of(item: Tree) -> UserConfigView {
    UserConfigView {
        name: text_or_empty(item.member("name"@)->0),
        kind: kind_or_guest(item.member("kind"@)->0),
        token: text_or_empty(item.member("token"@)->0),
    }
}

/// Whether an item of the accounts can be read: what is no object is
/// passed over, and an object must have a name, a kind and a token.
pub open spec fn account_readable(item: Tree) -> bool {
    item is Object ==> item.member("name"@) is Some && item.member("kind"@) is Some && item.member(
        "token"@,
    ) is Some
}

/// The accounts that the objects among some items describe, in order.
pub open spec fn accounts_of(items: Seq<Tree>) -> Seq<UserConfigView>
    decreases items.len(),
{
    if items.len() == 0 {
        Seq::empty()
    } else if items.last() is Object {
        accounts_of(items.drop_last()).push(account_of(items.last()))
    } else {
        accounts_of(items.drop_last())
    }
}

/// The arguments that some items name: each text as it is, anything else
/// as an empty argument.
pub open spec fn args_of(items: Seq<Tree>) -> Seq<Seq<char>> {
    items.map_values(|item: Tree| text_or_empty(item))
}

/// The arguments that a document lists; none for what is no array.
pub open spec fn args_or_none(tree: Tree) -> Seq<Seq<char>> {
    match tree.items() {
        Some(items) => args_of(items),
        None => Seq::empty(),
    }
}

/// Whether a document can be merged into the settings: it is an object,
/// and each of the sections `database`, `server`, `upload` and `yt_dlp`
/// that it has as an object holds every setting of that section, and each
/// object in an `accounts` array holds a name, a kind and a token.
pub open spec fn mergeable(tree: Tree) -> bool {
    &&& tree is Object
    &&& section(tree, "database"@) matches Some(database) ==> {
        &&& database.member("file_db_path"@) is Some
        &&& database.member("user_db_path"@) is Some
        &&& database.member("video_db_path"@) is Some
    }
    &&& section(tree, "server"@) matches Some(server) ==> {
        &&& server.member("host"@) is Some
        &&& server.member("port"@) is Some
    }
    &&& list(tree, "accounts"@) matches Some(accounts) ==> forall|i: int|
        0 <= i < accounts.len() ==> account_readable(#[trigger] accounts[i])
    &&& section(tree, "upload"@) matches Some(upload) ==> {
        &&& upload.member("max_size_bytes"@) is Some
        &&& upload.member("upload_location"@) is Some
    }
    &&& section(tree, "yt_dlp"@) matches Some(yt_dlp) ==> {
        &&& yt_dlp.member("enabled"@) is Some
        &&& yt_dlp.member("dpl_exec_path"@) is Some
        &&& yt_dlp.member("dpl_args"@) is Some
    }
}

/// The member of a document under a key where that member is an object.
fn get_section<'a>(json: &'a Json, key: &str) -> (found: Option<&'a Json>)
    ensures
        found is Some == section(json@, key@) is Some,
        found is Some ==> found->0@ == section(json@, key@)->0,
{
    match json.get(key) {
        Some(member) => match member {
            Json::Object(_) => Some(member),
            _ => None,
        },
        None => None,
    }
}

/// The characters of a text, copied; nothing for what is no text.
fn string_or_empty(json: &Json) -> (text: String)
    ensures
        text@ == text_or_empty(json@),
{
    match json.as_str() {
        Some(text) => text.to_owned(),
        None => String::new(),
    }
}

/// Whether an object holds a member under every one of up to three keys.
fn has_members(json: &Json, first: &str, second: &str, third: &str) -> (complete: bool)
    ensures
        complete == (json@.member(first@) is Some && json@.member(second@) is Some
            && json@.member(third@) is Some),
{
    json.get(first).is_some() && json.get(second).is_some() && json.get(third).is_some()
}

impl Config {
    /// Whether a document can be merged into the settings.
    pub fn is_mergeable(other: &Json) -> (ok: bool)
        ensures
            ok == mergeable(other@),
    {
        match other {
            Json::Object(_) => {},
            _ => {
                return false;
            },
        }
        match get_section(other, "database") {
            Some(database) => {
                if !has_members(database, "file_db_path", "user_db_path", "video_db_path") {
                    return false;
                }
            },
            None => {},
        }
        match get_section(other, "server") {
            Some(server) => {
                if !has_members(server, "host", "port", "port") {
                    return false;
                }
            },
            None => {},
        }
        match get_section(other, "upload") {
            Some(upload) => {
                if !has_members(upload, "max_size_bytes", "upload_location", "upload_location") {
                    return false;
                }
            },
            None => {},
        }
        match get_section(other, "yt_dlp") {
            Some(yt_dlp) => {
                if !has_members(yt_dlp, "enabled", "dpl_exec_path", "dpl_args") {
                    return false;
                }
            },
            None => {},
        }
        let accounts = match other.get("accounts") {
            Some(member) => member.as_array(),
            None => None,
        };
        match accounts {
            Some(items) => {
                let ghost listed = list(other@, "accounts"@)->0;
                let mut at: usize = 0;
                proof {
                    lemma_trees(items@);
                }
                while at < items.len()
                    invariant
                        at <= items@.len(),
                        listed == trees(items@),
                        list(other@, "accounts"@) == Some(listed),
                        listed.len() == items@.len(),
                        forall|i: int|
                            0 <= i < items@.len() ==> (#[trigger] listed[i]) == items@[i]@,
                        forall|i: int| 0 <= i < at ==> account_readable(#[trigger] listed[i]),
                    decreases items@.len() - at,
                {
                    let item = &items[at];
                    let readable = match item {
                        Json::Object(_) => has_members(item, "name", "kind", "token"),
                        _ => true,
                    };
                    assert(readable == account_readable(listed[at as int]));
                    if !readable {
                        proof {
                            let accounts = list(other@, "accounts"@)->0;
                            assert(0 <= at < accounts.len() && !account_readable(accounts[at as int]));
                        }
                        return false;
                    }
                    at = at + 1;
                }
            },
            None => {},
        }
        true
    }

    /// Takes over what a document says of the settings.
    ///
    /// Of the members of the document, `database`, `server`, `upload` and
    /// `yt_dlp` count where they are objects, and `accounts` where it is an
    /// array; every other member is passed over, and a section that the
    /// document lacks stays as it is. A section that counts is taken over
    /// whole: a text that is none reads as empty, a number or a switch
    /// that is none as 0 or off, a port beyond 16 bits is cut to them.
    /// The accounts become those of the objects in the array.
    pub fn merge(&mut self, other: &Json)
        requires
            mergeable(other@),
        ensures
            match section(other@, "database"@) {
                Some(database) => {
                    &&& final(self).database.file_db_path@ == text_or_empty(
                        database.member("file_db_path"@)->0,
                    )
                    &&& final(self).database.user_db_path@ == text_or_empty(
                        database.member("user_db_path"@)->0,
                    )
                    &&& final(self).database.video_db_path@ == text_or_empty(
                        database.member("video_db_path"@)->0,
                    )
                },
                None => final(self).database == old(self).database,
            },
            match section(other@, "server"@) {
                Some(server) => {
                    &&& final(self).server.host@ == text_or_empty(server.member("host"@)->0)
                    &&& final(self).server.port == match server.member("port"@)->0.unsigned() {
                        Some(port) => port as u16,
                        None => 0,
                    }
                },
                None => final(self).server == old(self).server,
            },
            match list(other@, "accounts"@) {
                Some(accounts) => user_configs(final(self).accounts.user@) == accounts_of(
                    accounts,
                ),
                None => final(self).accounts == old(self).accounts,
            },
            match section(other@, "upload"@) {
                Some(upload) => {
                    &&& final(self).upload.max_size_bytes == match upload.member(
                        "max_size_bytes"@,
                    )->0.signed() {
                        Some(max) => max,
                        None => 0,
                    }
                    &&& final(self).upload.upload_location@ == text_or_empty(
                        upload.member("upload_location"@)->0,
                    )
                },
                None => final(self).upload == old(self).upload,
            },
            match section(other@, "yt_dlp"@) {
                Some(yt_dlp) => {
                    &&& final(self).yt_dlp.enabled == match yt_dlp.member(
                        "enabled"@,
                    )->0.boolean() {
                        Some(enabled) => enabled,
                        None => false,
                    }
                    &&& final(self).yt_dlp.dpl_exec_path@ == text_or_empty(
                        yt_dlp.member("dpl_exec_path"@)->0,
                    )
                    &&& texts(final(self).yt_dlp.dpl_args@) == args_or_none(
                        yt_dlp.member("dpl_args"@)->0,
                    )
                },
                None => final(self).yt_dlp == old(self).yt_dlp,
            },
    {
        match get_section(other, "database") {
            Some(database) => {
                self.database.file_db_path = string_or_empty(
                    database.get("file_db_path").unwrap(),
                );
                self.database.user_db_path = string_or_empty(
                    database.get("user_db_path").unwrap(),
                );
                self.database.video_db_path = string_or_empty(
                    database.get("video_db_path").unwrap(),
                );
            },
            None => {},
        }
        match get_section(other, "server") {
            Some(server) => {
                self.server.host = string_or_empty(server.get("host").unwrap());
                self.server.port = match server.get("port").unwrap().as_u64() {
                    Some(port) => #[verifier::truncate]
                    (port as u16),
                    None => 0,
                };
            },
            None => {},
        }
        let accounts = match other.get("accounts") {
            Some(member) => member.as_array(),
            None => None,
        };
        match accounts {
            Some(items) => {
                proof {
                    lemma_trees(items@);
                    assert(list(other@, "accounts"@) == Some(trees(items@)));
                }
                self.accounts.user = read_accounts(items);
            },
            None => {},
        }
        match get_section(other, "upload") {
            Some(upload) => {
                self.upload.max_size_bytes = match upload.get("max_size_bytes").unwrap().as_i64() {
                    Some(max) => max,
                    None => 0,
                };
                self.upload.upload_location = string_or_empty(
                    upload.get("upload_location").unwrap(),
                );
            },
            None => {},
        }
        match get_section(other, "yt_dlp") {
            Some(yt_dlp) => {
                self.yt_dlp.enabled = match yt_dlp.get("enabled").unwrap().as_bool() {
                    Some(enabled) => enabled,
                    None => false,
                };
                self.yt_dlp.dpl_exec_path = string_or_empty(yt_dlp.get("dpl_exec_path").unwrap());
                self.yt_dlp.dpl_args = match yt_dlp.get("dpl_args").unwrap().as_array() {
                    Some(items) => read_args(items),
                    None => Vec::new(),
                };
            },
            None => {},
        }
    }
}

/// The accounts that the objects among some items describe.
fn read_accounts(items: &Vec<Json>) -> (users: Vec<UserConfig>)
    requires
        forall|i: int| 0 <= i < items@.len() ==> account_readable(#[trigger] trees(items@)[i]),
    ensures
        user_configs(users@) == accounts_of(trees(items@)),
{
    let mut users: Vec<UserConfig> = Vec::new();
    let mut at: usize = 0;
    let ghost listed = trees(items@);
    proof {
        lemma_trees(items@);
        assert(listed.take(0) == Seq::<Tree>::empty());
        assert(user_configs(users@) == Seq::<UserConfigView>::empty());
    }
    while at < items.len()
        invariant
            at <= items@.len(),
            listed == trees(items@),
            listed.len() == items@.len(),
            forall|i: int| 0 <= i < items@.len() ==> (#[trigger] listed[i]) == items@[i]@,
            forall|i: int| 0 <= i < items@.len() ==> account_readable(#[trigger] listed[i]),
            user_configs(users@) == accounts_of(listed.take(at as int)),
        decreases items@.len() - at,
    {
        let item = &items[at];
        proof {
            assert(listed.take(at + 1).drop_last() == listed.take(at as int));
            assert(listed.take(at + 1).last() == item@);
            assert(account_readable(listed[at as int]));
        }
        match item {
            Json::Object(_) => {
                let kind = match item.get("kind").unwrap().as_str() {
                    Some(kind) => UserKind::from_str(kind),
                    None => UserKind::Guest,
                };
                let user = UserConfig {
                    name: string_or_empty(item.get("name").unwrap()),
                    kind,
                    token: string_or_empty(item.get("token").unwrap()),
                };
                let ghost before = user_configs(users@);
                users.push(user);
                proof {
                    assert(user_configs(users@) == before.push(account_of(item@)));
                }
            },
            _ => {},
        }
        at = at + 1;
    }
    proof {
        assert(listed.take(at as int) == listed);
    }
    users
}

/// The arguments that some items name.
fn read_args(items: &Vec<Json>) -> (args: Vec<String>)
    ensures
        texts(args@) == args_of(trees(items@)),
{
    let mut args: Vec<String> = Vec::new();
    let mut at: usize = 0;
    let ghost listed = trees(items@);
    proof {
        lemma_trees(items@);
    }
    while at < items.len()
        invariant
            at <= items@.len(),
            listed == trees(items@),
            listed.len() == items@.len(),
            forall|i: int| 0 <= i < items@.len() ==> (#[trigger] listed[i]) == items@[i]@,
            texts(args@) == args_of(listed).take(at as int),
        decreases items@.len() - at,
    {
        let ghost before = texts(args@);
        let arg = string_or_empty(&items[at]);
        args.push(arg);
        proof {
            assert(texts(args@) == before.push(arg@));
            assert(args_of(listed).take(at + 1) == args_of(listed).take(at as int).push(
                args_of(listed)[at as int],
            ));
        }
        at = at + 1;
    }
    proof {
        assert(args_of(listed).take(at as int) == args_of(listed));
    }
    args
}

} // verus!
