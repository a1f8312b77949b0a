//! Handing a stored file back.

use crate::db::file::{find_by_handle, handles, read_once, Record};
use crate::db::user::UserKind;
use crate::digest::content_hash;
use crate::lists::{distinct, lemma_position, position};
use crate::routes::upload::{admission, finalized, UploadStatus};
use crate::state::State;
use vstd::prelude::*;

verus! {

/// The answer to a request for a file: whether the handle is known,
/// whether its upload has finished, and, where both hold, the name and the
/// bytes of the file.
pub struct DownloadResponse {
    pub found: bool,
    pub finished: bool,
    pub filename: String,
    pub data: Vec<u8>,
}

impl DownloadResponse {
    /// The answer for a handle that is not known.
    pub fn default() -> (response: DownloadResponse)
        ensures
            response.is_not_found(),
    {
        DownloadResponse {
            found: false,
            finished: false,
            filename: String::new(),
            data: Vec::new(),
        }
    }

    /// The answer for a handle that is not known.
    pub open spec fn is_not_found(&self) -> bool {
        &&& !self.found
        &&& !self.finished
        &&& self.filename@ == Seq::<char>::empty()
        &&& self.data@ == Seq::<u8>::empty()
    }

    /// The answer for a handle whose upload is still in flight.
    pub open spec fn is_unfinished(&self) -> bool {
        &&& self.found
        &&& !self.finished
        &&& self.filename@ == Seq::<char>::empty()
        &&& self.data@ == Seq::<u8>::empty()
    }

    /// The answer that hands a file back.
    pub open spec fn serves(&self, name: Seq<char>, content: Seq<u8>) -> bool {
        &&& self.found
        &&& self.finished
        &&& self.filename@ == name
        &&& self.data@ == content
    }
}

/// Where a request for a file stands before any byte is read.
pub enum Located {
    /// Nothing is known under the handle.
    Missing,
    /// An upload under the handle is still in flight.
    Unfinished,
    /// A finished record is stored under the handle.
    Stored(Record),
}

/// Where a request for a file stands: an upload in flight hides whatever
/// record there is; else the record under the handle decides.
pub open spec fn locate(
    files: Seq<Record>,
    sessions: Map<Seq<char>, UploadStatus>,
    uuid: Seq<char>,
) -> Located {
    if sessions.contains_key(uuid) {
        Located::Unfinished
    } else {
        match find_by_handle(files, uuid) {
            Some(record) => Located::Stored(record),
            None => Located::Missing,
        }
    }
}

/// The path to read a file from, where a finished record is stored under
/// the handle.
pub fn download_path(state: &State, u: &str) -> (path: Option<String>)
    ensures
        match locate(state.file_db@, state.upload_status@, u@) {
            Located::Stored(record) => path is Some && path->0@ == record.path,
            _ => path is None,
        },
{
    if state.upload_status.get(u).is_some() {
        return None;
    }
    match state.file_db.get_by_uuid(u) {
        Some(file) => Some(file.path),
        None => None,
    }
}

/// Answers a request for the file under a handle, given what reading its
/// path gave: the bytes, or `None` where it could not be read.
///
/// A handle with an upload in flight is answered as unfinished. A handle
/// without a record, or whose file could not be read, is answered as not
/// found. Else the record counts one more read, and the answer carries the
/// file's name and exactly the bytes that were read. Only that count
/// changes.
pub fn download_file(state: &mut State, u: &str, content: Option<Vec<u8>>) -> (response:
    DownloadResponse)
    requires
        old(state).wf(),
    ensures
        final(state).wf(),
        final(state).same_surroundings(*old(state)),
        final(state).upload_status == old(state).upload_status,
        final(state).cleanup == old(state).cleanup,
        match locate(old(state).file_db@, old(state).upload_status@, u@) {
            Located::Unfinished => {
                &&& response.is_unfinished()
                &&& final(state).file_db@ == old(state).file_db@
            },
            Located::Missing => {
                &&& response.is_not_found()
                &&& final(state).file_db@ == old(state).file_db@
            },
            Located::Stored(record) => match content {
                None => {
                    &&& response.is_not_found()
                    &&& final(state).file_db@ == old(state).file_db@
                },
                Some(bytes) => {
                    &&& response.serves(record.name, bytes@)
                    &&& final(state).file_db@ == old(state).file_db@.update(
                        position(handles(old(state).file_db@), u@),
                        read_once(record),
                    )
                },
            },
        },
{
    if state.upload_status.get(u).is_some() {
        return DownloadResponse {
            found: true,
            finished: false,
            filename: String::new(),
            data: Vec::new(),
        };
    }
    let file = match state.file_db.get_by_uuid(u) {
        Some(file) => file,
        None => {
            return DownloadResponse::default();
        },
    };
    let data = match content {
        Some(data) => data,
        None => {
            return DownloadResponse::default();
        },
    };
    proof {
        lemma_position(handles(state.file_db@), u@);
    }
    state.file_db.increment_access_count(u);
    DownloadResponse { found: true, finished: true, filename: file.name, data }
}

/// An upload that was let in and has finished can be fetched: under its
/// handle stands the record it began with, at the path it began with, and
/// its hash and size are those of the bytes that came, whatever hash and
/// size were announced. No upload under the handle is in flight any more.
pub proof fn lemma_upload_then_download(
    files: Seq<Record>,
    sessions: Map<Seq<char>, UploadStatus>,
    role: UserKind,
    uuid: Seq<char>,
    data: Seq<u8>,
)
    requires
        distinct(handles(files)),
        admission(files, sessions, role, uuid) is Ok,
    ensures
        ({
            let record = admission(files, sessions, role, uuid)->Ok_0;
            let stored = finalized(record, data);
            let files_after = files.update(position(handles(files), uuid), stored);
            &&& locate(files_after, sessions.remove(uuid), uuid) == Located::Stored(stored)
            &&& stored.hash == content_hash(data)
            &&& stored.size == data.len() as u64
            &&& stored.path == record.path
            &&& stored.uuid == uuid
        }),
{
    let at = position(handles(files), uuid);
    lemma_position(handles(files), uuid);
    let record = admission(files, sessions, role, uuid)->Ok_0;
    let stored = finalized(record, data);
    let files_after = files.update(at, stored);
    assert(handles(files)[at] == uuid);
    assert(handles(files_after) == handles(files));
}

} // verus!
