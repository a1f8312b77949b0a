//! Records of uploaded files and the transient state of an upload.

use crate::db::table;
use crate::db::table::{Kept, StoreError, Stored};
use crate::lists::{
    distinct, lemma_filter_refine, lemma_position, lemma_position_is, position, texts,
};
use crate::utils::str_eq;
use vstd::prelude::*;
use vstd::string::StringExecFns;

verus! {

/// The stored form of one uploaded file.
pub struct File {
    pub hash: String,
    pub path: String,
    pub uuid: String,
    pub name: String,
    pub size: u64,
    pub created: u64,
    pub expires_at: u64,
    pub access_count: u64,
}

/// What a [`File`] says, as mathematical values.
pub struct Record {
    pub hash: Seq<char>,
    pub path: Seq<char>,
    pub uuid: Seq<char>,
    pub name: Seq<char>,
    pub size: u64,
    pub created: u64,
    pub expires_at: u64,
    pub access_count: u64,
}

impl View for File {
    type V = Record;

    open spec fn view(&self) -> Record {
        Record {
            hash: self.hash@,
            path: self.path@,
            uuid: self.uuid@,
            name: self.name@,
            size: self.size,
            created: self.created,
            expires_at: self.expires_at,
            access_count: self.access_count,
        }
    }
}

impl Clone for File {
    fn clone(&self) -> (copy: File)
        ensures
            copy@ == self@,
    {
        File {
            hash: self.hash.clone(),
            path: self.path.clone(),
            uuid: self.uuid.clone(),
            name: self.name.clone(),
            size: self.size,
            created: self.created,
            expires_at: self.expires_at,
            access_count: self.access_count,
        }
    }
}

impl Stored for File {
    type Record = Record;

    open spec fn record(&self) -> Record {
        self@
    }

    fn has_handle(&self, uuid: &String) -> (has: bool) {
        assert(self@.handle() == self.uuid@);
        self.uuid == *uuid
    }

    fn handle(&self) -> (text: &str) {
        assert(self@.handle() == self.uuid@);
        self.uuid.as_str()
    }

    fn location(&self) -> (text: &str) {
        assert(self@.location() == self.path@);
        self.path.as_str()
    }

    fn expiry(&self) -> (at: u64) {
        assert(self@.expiry() == self.expires_at);
        self.expires_at
    }

    fn copy(&self) -> (copy: File) {
        self.clone()
    }
}

/// The hash of a record whose content has not been hashed yet.
pub open spec fn pending_hash() -> Seq<char> {
    seq!['-']
}

/// The record a fresh upload starts with: its content is still unhashed,
/// its size is the declared one, and nobody has read it.
pub open spec fn placeholder(
    uuid: Seq<char>,
    name: Seq<char>,
    size: u64,
    expires_at: u64,
    now: u64,
    upload_location: Seq<char>,
) -> Record {
    Record {
        hash: pending_hash(),
        path: upload_location + uuid,
        uuid,
        name,
        size,
        created: now,
        expires_at,
        access_count: 0,
    }
}

impl Kept for Record {
    open spec fn handle(self) -> Seq<char> {
        self.uuid
    }

    open spec fn location(self) -> Seq<char> {
        self.path
    }

    open spec fn expiry(self) -> u64 {
        self.expires_at
    }
}

/// The handles of a table, row by row.
pub open spec fn handles(rows: Seq<Record>) -> Seq<Seq<char>> {
    table::handles(rows)
}

/// The hashes of a table, row by row.
pub open spec fn hashes(rows: Seq<Record>) -> Seq<Seq<char>> {
    rows.map_values(|row: Record| row.hash)
}

/// The storage paths of a table, row by row.
pub open spec fn paths(rows: Seq<Record>) -> Seq<Seq<char>> {
    table::paths(rows)
}

/// The row with a handle, if the table holds one.
pub open spec fn find_by_handle(rows: Seq<Record>, uuid: Seq<char>) -> Option<Record> {
    table::find_by_handle(rows, uuid)
}

/// The oldest row with a hash, if the table holds one. The hash of an
/// unhashed record finds nothing.
pub open spec fn find_by_hash(rows: Seq<Record>, hash: Seq<char>) -> Option<Record> {
    let at = position(hashes(rows), hash);
    if hash != pending_hash() && at < rows.len() {
        Some(rows[at])
    } else {
        None
    }
}

/// A record's time has run out: it expires at all, and did so before `now`.
pub open spec fn is_expired(row: Record, now: u64) -> bool {
    table::is_expired(row, now)
}

/// The test "has expired by `now`".
pub open spec fn expired_by(now: u64) -> spec_fn(Record) -> bool {
    table::expired_by(now)
}

/// The test "has another handle than `uuid`".
pub open spec fn other_than(uuid: Seq<char>) -> spec_fn(Record) -> bool {
    table::other_than(uuid)
}

/// The test "has not expired by `now`".
pub open spec fn unexpired_by(now: u64) -> spec_fn(Record) -> bool {
    table::unexpired_by(now)
}

/// The test "has none of the handles `uuids`".
pub open spec fn not_among(uuids: Seq<Seq<char>>) -> spec_fn(Record) -> bool {
    table::not_among(uuids)
}

/// A row after its data columns were overwritten: everything but the
/// handle comes from `data`.
pub open spec fn overwritten(row: Record, data: Record) -> Record {
    Record { uuid: row.uuid, ..data }
}

/// A row after one more read.
pub open spec fn read_once(row: Record) -> Record {
    Record {
        access_count: if row.access_count < u64::MAX {
            (row.access_count + 1) as u64
        } else {
            row.access_count
        },
        ..row
    }
}

/// The records that a list of files stands for.
pub open spec fn records(files: Seq<File>) -> Seq<Record> {
    table::records_of(files)
}

/// The table of file records, oldest row first.
pub struct FileDB {
    rows: Vec<File>,
}

impl View for FileDB {
    type V = Seq<Record>;

    closed spec fn view(&self) -> Seq<Record> {
        records(self.rows@)
    }
}

impl FileDB {
    /// No two rows share a handle.
    pub open spec fn wf(&self) -> bool {
        distinct(handles(self@))
    }

    /// An empty table.
    pub fn new() -> (db: FileDB)
        ensures
            db@ == Seq::<Record>::empty(),
            db.wf(),
    {
        FileDB { rows: Vec::new() }
    }

    /// The position of the first row with a handle, or the number of rows.
    fn index_of_uuid(&self, uuid: &str) -> (at: usize)
        ensures
            at == position(handles(self@), uuid@),
            at <= self@.len(),
            self@.len() == self.rows@.len(),
    {
        table::index_of(&self.rows, uuid)
    }

    /// The position of the first row with a hash, or the number of rows.
    fn index_of_hash(&self, hash: &str) -> (at: usize)
        ensures
            at == position(hashes(self@), hash@),
            at <= self@.len(),
            self@.len() == self.rows@.len(),
    {
        let key = hash.to_owned();
        let mut at: usize = 0;
        while at < self.rows.len() && self.rows[at].hash != key
            invariant
                at <= self.rows@.len(),
                key@ == hash@,
                forall|j: int| 0 <= j < at ==> hashes(self@)[j] != hash@,
            decreases self.rows@.len() - at,
        {
            at = at + 1;
        }
        proof {
            lemma_position_is(hashes(self@), hash@, at as int);
        }
        at
    }

    /// Registers a fresh upload: a new row with the handle `uuid`, stored
    /// under `upload_location` followed by the handle, unhashed and unread.
    /// A handle that is taken is turned down and changes nothing.
    pub fn add_from_request(
        &mut self,
        uuid: &str,
        file_name: String,
        file_size: u64,
        expires_at: u64,
        now: u64,
        upload_location: &str,
    ) -> (added: Result<(), StoreError>)
        requires
            old(self).wf(),
        ensures
            final(self).wf(),
            handles(old(self)@).contains(uuid@) ==> added == Err::<(), StoreError>(
                StoreError::Conflict,
            ) && final(self)@ == old(self)@,
            !handles(old(self)@).contains(uuid@) ==> added.is_ok() && final(self)@ == old(
                self,
            )@.push(placeholder(uuid@, file_name@, file_size, expires_at, now, upload_location@)),
    {
        let mut path = upload_location.to_owned();
        path.append(uuid);
        let row = File {
            hash: String::from_str("-"),
            path,
            uuid: uuid.to_owned(),
            name: file_name,
            size: file_size,
            created: now,
            expires_at,
            access_count: 0,
        };
        proof {
            reveal_strlit("-");
            assert("-"@ == pending_hash());
            assert(row@.handle() == uuid@);
        }
        table::insert(&mut self.rows, row)
    }

    /// Adds a row that says what `file` says. A handle that is taken is
    /// turned down and changes nothing.
    pub fn add(&mut self, file: &File) -> (added: Result<(), StoreError>)
        requires
            old(self).wf(),
        ensures
            final(self).wf(),
            handles(old(self)@).contains(file.uuid@) ==> added == Err::<(), StoreError>(
                StoreError::Conflict,
            ) && final(self)@ == old(self)@,
            !handles(old(self)@).contains(file.uuid@) ==> added.is_ok() && final(self)@ == old(
                self,
            )@.push(file@),
    {
        proof {
            assert(file@.handle() == file.uuid@);
        }
        table::insert(&mut self.rows, file.clone())
    }

    /// The row with a handle, if there is one.
    pub fn get_by_uuid(&self, uuid: &str) -> (found: Option<File>)
        ensures
            found.is_some() == find_by_handle(self@, uuid@).is_some(),
            found.is_some() ==> found.unwrap()@ == find_by_handle(self@, uuid@).unwrap(),
    {
        table::find(&self.rows, uuid)
    }

    /// The oldest row with a content hash, if there is one. Asking for the
    /// hash of an unhashed record finds nothing.
    pub fn get_by_hash(&self, hash: &str) -> (found: Option<File>)
        ensures
            found.is_some() == find_by_hash(self@, hash@).is_some(),
            found.is_some() ==> found.unwrap()@ == find_by_hash(self@, hash@).unwrap(),
    {
        proof {
            reveal_strlit("-");
            assert("-"@ == pending_hash());
        }
        if str_eq(hash, "-") {
            return None;
        }
        let at = self.index_of_hash(hash);
        if at < self.rows.len() {
            Some(self.rows[at].clone())
        } else {
            None
        }
    }

    /// Overwrites the data of the row with the handle `uuid` by that of
    /// `file`; the row keeps its handle and its place. Without such a row
    /// nothing changes and the answer is `NotFound`.
    pub fn update_data(&mut self, uuid: &str, file: File) -> (updated: Result<(), StoreError>)
        requires
            old(self).wf(),
        ensures
            final(self).wf(),
            updated == if handles(old(self)@).contains(uuid@) {
                Ok::<(), StoreError>(())
            } else {
                Err::<(), StoreError>(StoreError::NotFound)
            },
            final(self)@ == if handles(old(self)@).contains(uuid@) {
                let at = position(handles(old(self)@), uuid@);
                old(self)@.update(at, overwritten(old(self)@[at], file@))
            } else {
                old(self)@
            },
    {
        let at = self.index_of_uuid(uuid);
        proof {
            lemma_position(handles(self@), uuid@);
        }
        if at >= self.rows.len() {
            return Err(StoreError::NotFound);
        }
        let row = File {
            hash: file.hash,
            path: file.path,
            uuid: uuid.to_owned(),
            name: file.name,
            size: file.size,
            created: file.created,
            expires_at: file.expires_at,
            access_count: file.access_count,
        };
        proof {
            assert(row@.handle() == uuid@);
            assert(handles(self@)[at as int] == self.rows@[at as int]@.handle());
        }
        table::put(&mut self.rows, at, row);
        Ok(())
    }

    /// Counts one more read of the row with the handle `uuid`. Without such
    /// a row nothing changes. A count at the largest value stays there.
    pub fn increment_access_count(&mut self, uuid: &str)
        requires
            old(self).wf(),
        ensures
            final(self).wf(),
            final(self)@ == if handles(old(self)@).contains(uuid@) {
                let at = position(handles(old(self)@), uuid@);
                old(self)@.update(at, read_once(old(self)@[at]))
            } else {
                old(self)@
            },
    {
        let at = self.index_of_uuid(uuid);
        proof {
            lemma_position(handles(self@), uuid@);
        }
        if at < self.rows.len() {
            let mut row = self.rows[at].clone();
            if row.access_count < u64::MAX {
                row.access_count = row.access_count + 1;
            }
            proof {
                assert(row@.handle() == self.rows@[at as int]@.handle());
            }
            table::put(&mut self.rows, at, row);
        }
    }

    /// Deletes the row with the handle `uuid`. Without such a row nothing
    /// changes: deleting twice is deleting once.
    pub fn remove_by_uuid(&mut self, uuid: &str)
        requires
            old(self).wf(),
        ensures
            final(self).wf(),
            final(self)@ == old(self)@.filter(other_than(uuid@)),
    {
        table::remove(&mut self.rows, uuid)
    }

    /// Deletes the rows whose time has run out by `now`, and says where
    /// their files are, oldest row first. A row that expires at 0 never
    /// does.
    pub fn remove_expired(&mut self, now: u64) -> (artifacts: Vec<String>)
        requires
            old(self).wf(),
        ensures
            final(self).wf(),
            final(self)@ == old(self)@.filter(unexpired_by(now)),
            texts(artifacts@) == paths(old(self)@.filter(expired_by(now))),
    {
        table::remove_expired(&mut self.rows, now)
    }

    /// The rows whose time has run out by `now`, oldest first. A row that
    /// expires at 0 never does.
    pub fn get_expired_files(&self, now: u64) -> (found: Vec<File>)
        ensures
            records(found@) == self@.filter(expired_by(now)),
    {
        table::expired(&self.rows, now)
    }

    /// The storage path of every row, oldest first.
    pub fn get_paths(&self) -> (found: Vec<String>)
        ensures
            texts(found@) == paths(self@),
    {
        table::locations(&self.rows)
    }
}

/// Where an upload in flight stands.
#[derive(Clone, Copy, Debug, PartialEq, Eq, Structural)]
pub enum FileState {
    AwaitingData,
    Uploading,
    Finishing,
    Error,
    UploadCancelled,
}

impl FileState {
    /// The number a state is stored as.
    pub open spec fn code(self) -> u8 {
        match self {
            FileState::AwaitingData => 0,
            FileState::Uploading => 1,
            FileState::Finishing => 2,
            FileState::Error => 3,
            FileState::UploadCancelled => 4,
        }
    }

    /// The state a stored number stands for; a number that stands for none
    /// reads as `AwaitingData`.
    pub open spec fn decode(state: u8) -> FileState {
        if state == 1 {
            FileState::Uploading
        } else if state == 2 {
            FileState::Finishing
        } else if state == 3 {
            FileState::Error
        } else if state == 4 {
            FileState::UploadCancelled
        } else {
            FileState::AwaitingData
        }
    }

    pub fn as_u8(&self) -> (code: u8)
        ensures
            code == self.code(),
    {
        match self {
            FileState::AwaitingData => 0,
            FileState::Uploading => 1,
            FileState::Finishing => 2,
            FileState::Error => 3,
            FileState::UploadCancelled => 4,
        }
    }

    pub fn from_u8(state: u8) -> (decoded: FileState)
        ensures
            decoded == FileState::decode(state),
    {
        match state {
            0 => FileState::AwaitingData,
            1 => FileState::Uploading,
            2 => FileState::Finishing,
            3 => FileState::Error,
            4 => FileState::UploadCancelled,
            _ => FileState::AwaitingData,
        }
    }
}

/// Deleting the rows with some handles and then the row with one more is
/// deleting the rows with all of them.
pub proof fn lemma_delete_next(rows: Seq<Record>, done: Seq<Seq<char>>, uuid: Seq<char>)
    ensures
        rows.filter(not_among(done)).filter(other_than(uuid)) == rows.filter(
            not_among(done.push(uuid)),
        ),
{
    table::lemma_delete_next(rows, done, uuid);
}

/// Deleting no row changes nothing.
pub proof fn lemma_delete_none(rows: Seq<Record>)
    ensures
        rows.filter(not_among(Seq::<Seq<char>>::empty())) == rows,
{
    table::lemma_delete_none(rows);
}

/// In a table without a repeated handle, deleting the rows that have the
/// handle of an expired row leaves exactly the rows that have not expired.
pub proof fn lemma_delete_expired(rows: Seq<Record>, now: u64)
    requires
        distinct(handles(rows)),
    ensures
        rows.filter(not_among(handles(rows.filter(expired_by(now))))) == rows.filter(
            unexpired_by(now),
        ),
{
    table::lemma_delete_expired(rows, now);
}

/// To delete the row with a handle twice is to delete it once.
pub proof fn lemma_remove_twice(rows: Seq<Record>, uuid: Seq<char>)
    ensures
        rows.filter(other_than(uuid)).filter(other_than(uuid)) == rows.filter(other_than(uuid)),
        !handles(rows.filter(other_than(uuid))).contains(uuid),
{
    lemma_filter_refine(rows, other_than(uuid), other_than(uuid), other_than(uuid));
    let left = rows.filter(other_than(uuid));
    if handles(left).contains(uuid) {
        let j = choose|j: int| 0 <= j < left.len() && handles(left)[j] == uuid;
        rows.lemma_filter_pred(other_than(uuid), j);
    }
}

/// Rows picked from a table without a repeated handle repeat none either.
pub proof fn lemma_filter_keeps_distinct(rows: Seq<Record>, pred: spec_fn(Record) -> bool)
    requires
        distinct(handles(rows)),
    ensures
        distinct(handles(rows.filter(pred))),
    decreases rows.len(),
{
    reveal(Seq::filter);
    if rows.len() > 0 {
        let front = rows.drop_last();
        let kept = front.filter(pred);
        assert forall|i: int, j: int| 0 <= i < j < front.len() implies handles(front)[i]
            != handles(front)[j] by {
            assert(handles(front)[i] == handles(rows)[i]);
            assert(handles(front)[j] == handles(rows)[j]);
        }
        lemma_filter_keeps_distinct(front, pred);
        if pred(rows.last()) {
            assert forall|i: int| 0 <= i < kept.len() implies (#[trigger] kept[i]).uuid
                != rows.last().uuid by {
                assert(kept.contains(kept[i]));
                front.lemma_filter_contains_rev(pred, kept[i]);
                let k = choose|k: int| 0 <= k < front.len() && front[k] == kept[i];
                assert(handles(rows)[k] != handles(rows)[rows.len() - 1]);
            }
            assert forall|i: int, j: int| 0 <= i < j < kept.len() + 1 implies handles(
                kept.push(rows.last()),
            )[i] != handles(kept.push(rows.last()))[j] by {
                if j < kept.len() {
                    assert(handles(kept)[i] != handles(kept)[j]);
                }
            }
        }
    }
}

/// In a table without a repeated handle, a row that passes a test is the
/// row found under its handle among the rows that pass, and a row that
/// fails it is not found there.
pub proof fn lemma_find_in_filter(rows: Seq<Record>, pred: spec_fn(Record) -> bool, at: int)
    requires
        distinct(handles(rows)),
        0 <= at < rows.len(),
    ensures
        find_by_handle(rows.filter(pred), rows[at].uuid) == if pred(rows[at]) {
            Some(rows[at])
        } else {
            None
        },
{
    let kept = rows.filter(pred);
    let uuid = rows[at].uuid;
    lemma_position(handles(kept), uuid);
    let first = position(handles(kept), uuid);
    if pred(rows[at]) {
        rows.lemma_filter_contains(pred, at);
        let j = choose|j: int| 0 <= j < kept.len() && kept[j] == rows[at];
        assert(handles(kept)[j] == uuid);
    }
    if first < kept.len() {
        assert(handles(kept)[first] == uuid);
        assert(kept.contains(kept[first]));
        rows.lemma_filter_contains_rev(pred, kept[first]);
        rows.lemma_filter_pred(pred, first);
        let k = choose|k: int| 0 <= k < rows.len() && rows[k] == kept[first];
        assert(handles(rows)[k] == handles(rows)[at]);
    }
}

/// The file records left by sweeps at the given times, one after another.
pub open spec fn swept(rows: Seq<Record>, times: Seq<u64>) -> Seq<Record>
    decreases times.len(),
{
    if times.len() == 0 {
        rows
    } else {
        swept(rows.filter(unexpired_by(times[0])), times.drop_first())
    }
}

/// A sweep leaves no record whose time has run out, such as one that
/// expired the second before: nothing is found under its handle. A
/// record that has not expired stays, found under its handle as it was.
pub proof fn lemma_sweep_takes_the_expired(rows: Seq<Record>, now: u64, at: int)
    requires
        distinct(handles(rows)),
        0 <= at < rows.len(),
    ensures
        is_expired(rows[at], now) ==> find_by_handle(
            rows.filter(unexpired_by(now)),
            rows[at].uuid,
        ) is None,
        !is_expired(rows[at], now) ==> find_by_handle(
            rows.filter(unexpired_by(now)),
            rows[at].uuid,
        ) == Some(rows[at]),
        rows[at].expires_at != 0 && rows[at].expires_at + 1 == now ==> is_expired(rows[at], now),
{
    lemma_find_in_filter(rows, unexpired_by(now), at);
}

/// A record that expires at 0 outlasts any number of sweeps, whenever they
/// come: it is found under its handle as it was.
pub proof fn lemma_no_expiry_outlasts_sweeps(rows: Seq<Record>, times: Seq<u64>, at: int)
    requires
        distinct(handles(rows)),
        0 <= at < rows.len(),
        rows[at].expires_at == 0,
    ensures
        find_by_handle(swept(rows, times), rows[at].uuid) == Some(rows[at]),
        distinct(handles(swept(rows, times))),
    decreases times.len(),
{
    if times.len() == 0 {
        lemma_position(handles(rows), rows[at].uuid);
        let first = position(handles(rows), rows[at].uuid);
        if first != at {
            assert(handles(rows)[first] == handles(rows)[at]);
        }
    } else {
        let kept = rows.filter(unexpired_by(times[0]));
        lemma_filter_keeps_distinct(rows, unexpired_by(times[0]));
        rows.lemma_filter_contains(unexpired_by(times[0]), at);
        let j = choose|j: int| 0 <= j < kept.len() && kept[j] == rows[at];
        lemma_no_expiry_outlasts_sweeps(kept, times.drop_first(), j);
    }
}

/// A read of a record counts one: below the largest count, the count of
/// reads grows by exactly one, and nothing else of the record changes.
pub proof fn lemma_read_counts_one(row: Record)
    requires
        row.access_count < u64::MAX,
    ensures
        read_once(row).access_count == row.access_count + 1,
        read_once(row) == (Record { access_count: read_once(row).access_count, ..row }),
{
}

} // verus!
