//! Accounts, their roles and what each role may do.

use crate::config::{user_configs, Config, UserConfigView};
use crate::db::table::StoreError;
use crate::lists::{distinct, lemma_position, lemma_position_is, position};
use crate::utils::str_eq;
use vstd::prelude::*;

verus! {

/// The role of an account.
#[derive(Clone, Copy, Debug, PartialEq, Eq, Structural)]
pub enum UserKind {
    Admin,
    User,
    Guest,
    YtOnly,
    FileOnly,
}

impl UserKind {
    /// The number a role is stored as.
    pub open spec fn code(self) -> u8 {
        match self {
            UserKind::Admin => 0,
            UserKind::User => 1,
            UserKind::Guest => 2,
            UserKind::YtOnly => 3,
            UserKind::FileOnly => 4,
        }
    }

    /// The role a stored number stands for; a number that stands for none
    /// reads as `Guest`.
    pub open spec fn decode(kind: u8) -> UserKind {
        if kind == 0 {
            UserKind::Admin
        } else if kind == 1 {
            UserKind::User
        } else if kind == 3 {
            UserKind::YtOnly
        } else if kind == 4 {
            UserKind::FileOnly
        } else {
            UserKind::Guest
        }
    }

    /// The role a configured name stands for; a name that stands for none
    /// reads as `Guest`.
    pub open spec fn parse(kind: Seq<char>) -> UserKind {
        if kind == "admin"@ {
            UserKind::Admin
        } else if kind == "user"@ {
            UserKind::User
        } else if kind == "yt_only"@ {
            UserKind::YtOnly
        } else if kind == "file_only"@ {
            UserKind::FileOnly
        } else {
            UserKind::Guest
        }
    }

    pub fn as_u8(&self) -> (code: u8)
        ensures
            code == self.code(),
    {
        match self {
            UserKind::Admin => 0,
            UserKind::User => 1,
            UserKind::Guest => 2,
            UserKind::YtOnly => 3,
            UserKind::FileOnly => 4,
        }
    }

    pub fn from_u8(kind: u8) -> (decoded: UserKind)
        ensures
            decoded == UserKind::decode(kind),
    {
        match kind {
            0 => UserKind::Admin,
            1 => UserKind::User,
            2 => UserKind::Guest,
            3 => UserKind::YtOnly,
            4 => UserKind::FileOnly,
            _ => UserKind::Guest,
        }
    }

    pub fn from_str(kind: &str) -> (parsed: UserKind)
        ensures
            parsed == UserKind::parse(kind@),
    {
        if str_eq(kind, "admin") {
            UserKind::Admin
        } else if str_eq(kind, "user") {
            UserKind::User
        } else if str_eq(kind, "yt_only") {
            UserKind::YtOnly
        } else if str_eq(kind, "file_only") {
            UserKind::FileOnly
        } else {
            UserKind::Guest
        }
    }
}

/// Something an account may ask to do.
#[derive(Clone, Copy, Debug, PartialEq, Eq, Structural)]
pub enum PermissionKind {
    FileUpload,
    FileRemove,
    YoutubeDownload,
    MedalDownload,
}

/// Whether a role may do a thing: an admin everything, a user everything
/// but removing files, a guest nothing, the two narrow roles their own
/// trade only.
pub open spec fn permits(role: UserKind, action: PermissionKind) -> bool {
    match role {
        UserKind::Admin => true,
        UserKind::User => action != PermissionKind::FileRemove,
        UserKind::Guest => false,
        UserKind::YtOnly => action == PermissionKind::YoutubeDownload || action
            == PermissionKind::MedalDownload,
        UserKind::FileOnly => action == PermissionKind::FileUpload,
    }
}

/// The stored form of one account.
pub struct User {
    pub id: u16,
    pub name: String,
    pub kind: u8,
    pub token: String,
}

/// What a [`User`] says, as mathematical values.
pub struct UserRecord {
    pub id: u16,
    pub name: Seq<char>,
    pub kind: u8,
    pub token: Seq<char>,
}

impl View for User {
    type V = UserRecord;

    open spec fn view(&self) -> UserRecord {
        UserRecord { id: self.id, name: self.name@, kind: self.kind, token: self.token@ }
    }
}

impl Clone for User {
    fn clone(&self) -> (copy: User)
        ensures
            copy@ == self@,
    {
        User { id: self.id, name: self.name.clone(), kind: self.kind, token: self.token.clone() }
    }
}

impl User {
    /// The role of the account.
    pub fn kind(&self) -> (role: UserKind)
        ensures
            role == UserKind::decode(self.kind),
    {
        UserKind::from_u8(self.kind)
    }

    /// Whether the account may do a thing.
    pub fn has_permissions_to(&self, kind: PermissionKind) -> (allowed: bool)
        ensures
            allowed == permits(UserKind::decode(self.kind), kind),
    {
        match self.kind() {
            UserKind::Admin => true,
            UserKind::User => kind != PermissionKind::FileRemove,
            UserKind::Guest => false,
            UserKind::YtOnly => kind == PermissionKind::YoutubeDownload || kind
                == PermissionKind::MedalDownload,
            UserKind::FileOnly => kind == PermissionKind::FileUpload,
        }
    }
}

/// The accounts that a list of users stands for.
pub open spec fn user_records(users: Seq<User>) -> Seq<UserRecord> {
    users.map_values(|user: User| user@)
}

/// The names of a table of accounts, row by row.
pub open spec fn names(rows: Seq<UserRecord>) -> Seq<Seq<char>> {
    rows.map_values(|row: UserRecord| row.name)
}

/// The tokens of a table of accounts, row by row.
pub open spec fn tokens(rows: Seq<UserRecord>) -> Seq<Seq<char>> {
    rows.map_values(|row: UserRecord| row.token)
}

/// Row numbers count up from 1 in the order the rows came.
pub open spec fn numbered(rows: Seq<UserRecord>) -> bool {
    forall|i: int| 0 <= i < rows.len() ==> (#[trigger] rows[i]).id == i + 1
}

/// Whether a table takes one more account under a name: the name is free
/// and a row number is left.
pub open spec fn accepts(rows: Seq<UserRecord>, name: Seq<char>) -> bool {
    !names(rows).contains(name) && rows.len() < u16::MAX
}

/// A table after an account was offered to it. An account that the table
/// does not accept leaves it as it was.
pub open spec fn offered(
    rows: Seq<UserRecord>,
    name: Seq<char>,
    kind: UserKind,
    token: Seq<char>,
) -> Seq<UserRecord> {
    if accepts(rows, name) {
        rows.push(UserRecord { id: (rows.len() + 1) as u16, name, kind: kind.code(), token })
    } else {
        rows
    }
}

/// A table after the configured accounts were offered to it one by one,
/// up to and without the first that it does not accept.
pub open spec fn synced(rows: Seq<UserRecord>, users: Seq<UserConfigView>) -> Seq<UserRecord>
    decreases users.len(),
{
    if users.len() == 0 {
        rows
    } else if accepts(rows, users[0].name) {
        synced(
            offered(rows, users[0].name, users[0].kind, users[0].token),
            users.drop_first(),
        )
    } else {
        rows
    }
}

/// Whether a table accepts every one of the configured accounts when they
/// are offered to it one by one.
pub open spec fn sync_succeeds(rows: Seq<UserRecord>, users: Seq<UserConfigView>) -> bool
    decreases users.len(),
{
    if users.len() == 0 {
        true
    } else {
        accepts(rows, users[0].name) && sync_succeeds(
            offered(rows, users[0].name, users[0].kind, users[0].token),
            users.drop_first(),
        )
    }
}

/// The first account with a token, if the table holds one.
pub open spec fn find_by_token(rows: Seq<UserRecord>, token: Seq<char>) -> Option<UserRecord> {
    let at = position(tokens(rows), token);
    if at < rows.len() {
        Some(rows[at])
    } else {
        None
    }
}

/// The table of accounts, oldest row first.
pub struct UserDB {
    rows: Vec<User>,
}

impl View for UserDB {
    type V = Seq<UserRecord>;

    closed spec fn view(&self) -> Seq<UserRecord> {
        user_records(self.rows@)
    }
}

impl UserDB {
    /// No two accounts share a name, and the rows are numbered from 1.
    pub open spec fn wf(&self) -> bool {
        distinct(names(self@)) && numbered(self@)
    }

    /// An empty table.
    pub fn new() -> (db: UserDB)
        ensures
            db@ == Seq::<UserRecord>::empty(),
            db.wf(),
    {
        UserDB { rows: Vec::new() }
    }

    /// Adds an account under the next row number. A name that is taken is
    /// turned down with `Conflict`, and a table with no row number left
    /// answers `Full`; either way nothing changes.
    pub fn insert(&mut self, name: &str, kind: UserKind, token: &str) -> (added: Result<
        (),
        StoreError,
    >)
        requires
            old(self).wf(),
        ensures
            final(self).wf(),
            final(self)@ == offered(old(self)@, name@, kind, token@),
            added == if names(old(self)@).contains(name@) {
                Err::<(), StoreError>(StoreError::Conflict)
            } else if old(self)@.len() >= u16::MAX {
                Err::<(), StoreError>(StoreError::Full)
            } else {
                Ok::<(), StoreError>(())
            },
    {
        let key = name.to_owned();
        let mut at: usize = 0;
        while at < self.rows.len() && self.rows[at].name != key
            invariant
                at <= self.rows@.len(),
                key@ == name@,
                forall|j: int| 0 <= j < at ==> names(self@)[j] != name@,
            decreases self.rows@.len() - at,
        {
            at = at + 1;
        }
        proof {
            lemma_position_is(names(self@), name@, at as int);
            lemma_position(names(self@), name@);
        }
        if at < self.rows.len() {
            return Err(StoreError::Conflict);
        }
        if self.rows.len() >= 65535 {
            return Err(StoreError::Full);
        }
        let row = User {
            id: (self.rows.len() + 1) as u16,
            name: name.to_owned(),
            kind: kind.as_u8(),
            token: token.to_owned(),
        };
        let ghost before = self@;
        let ghost appended = row@;
        self.rows.push(row);
        proof {
            assert(self@ == before.push(appended));
            assert(names(self@) == names(before).push(name@));
        }
        Ok(())
    }

    /// Offers the configured accounts to the table one by one and stops at
    /// the first that it does not accept, with the reason.
    pub fn sync_with_config(&mut self, config: &Config) -> (done: Result<(), StoreError>)
        requires
            old(self).wf(),
        ensures
            final(self).wf(),
            final(self)@ == synced(old(self)@, user_configs(config.accounts.user@)),
            done.is_ok() == sync_succeeds(old(self)@, user_configs(config.accounts.user@)),
    {
        let ghost users = user_configs(config.accounts.user@);
        let mut at: usize = 0;
        proof {
            assert(users.skip(0) == users);
        }
        while at < config.accounts.user.len()
            invariant
                self.wf(),
                at <= config.accounts.user@.len(),
                users == user_configs(config.accounts.user@),
                synced(old(self)@, users) == synced(self@, users.skip(at as int)),
                sync_succeeds(old(self)@, users) == sync_succeeds(self@, users.skip(at as int)),
            decreases config.accounts.user@.len() - at,
        {
            let user = &config.accounts.user[at];
            proof {
                assert(users.skip(at as int)[0] == user@);
                assert(users.skip(at as int).drop_first() == users.skip(at + 1));
            }
            match self.insert(user.name.as_str(), user.kind, user.token.as_str()) {
                Ok(()) => {},
                Err(reason) => {
                    return Err(reason);
                },
            }
            at = at + 1;
        }
        proof {
            assert(users.skip(at as int).len() == 0);
        }
        Ok(())
    }

    /// The first account with a token, if there is one.
    pub fn get(&self, token: &str) -> (found: Option<User>)
        ensures
            found.is_some() == find_by_token(self@, token@).is_some(),
            found.is_some() ==> found.unwrap()@ == find_by_token(self@, token@).unwrap(),
    {
        let key = token.to_owned();
        let mut at: usize = 0;
        while at < self.rows.len() && self.rows[at].token != key
            invariant
                at <= self.rows@.len(),
                key@ == token@,
                forall|j: int| 0 <= j < at ==> tokens(self@)[j] != token@,
            decreases self.rows@.len() - at,
        {
            at = at + 1;
        }
        proof {
            lemma_position_is(tokens(self@), token@, at as int);
        }
        if at < self.rows.len() {
            Some(self.rows[at].clone())
        } else {
            None
        }
    }
}

} // verus!
