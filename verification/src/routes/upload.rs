//! The life of an upload: from the request to store a file, through the
//! transfer of its bytes, to the finished record.

use crate::background_worker::forgetting;
use crate::db::file::{
    find_by_handle, find_by_hash, handles, hashes, not_among, overwritten, pending_hash,
    placeholder, File, FileState, Record,
};
use crate::db::user::{permits, PermissionKind, User, UserKind};
use crate::digest::{absorbed, content_hash, hex_encode, Hasher};
use crate::lists::{lemma_position, position};
use crate::routes::{BAD_REQUEST, FORBIDDEN, INTERNAL_SERVER_ERROR, PAYLOAD_TOO_LARGE};
use crate::state::State;
use crate::utils::{decimal, get_current_timestamp, i64_to_string, is_uuid_text, new_uuid};
use vstd::hash_map::StringHashMap;
use vstd::prelude::*;
use vstd::slice::slice_subrange;
use vstd::string::StringExecFns;

verus! {

/// Progress of one upload in flight.
#[derive(Clone, Copy, Debug, PartialEq, Eq, Structural)]
pub struct UploadStatus {
    pub state: FileState,
    pub total_bytes: u64,
    pub uploaded_bytes: u64,
}

/// The status an upload is tracked with from the moment it is approved.
pub open spec fn awaiting(total_bytes: u64) -> UploadStatus {
    UploadStatus { state: FileState::AwaitingData, total_bytes, uploaded_bytes: 0 }
}

/// Whether the upload with a handle may start its transfer: it is tracked
/// and no transfer has started yet.
pub open spec fn can_start(sessions: Map<Seq<char>, UploadStatus>, uuid: Seq<char>) -> bool {
    sessions.contains_key(uuid) && sessions[uuid].state == FileState::AwaitingData
}

/// The tracked uploads after a transfer asked to start: where it may, the
/// upload is now uploading and has moved no byte; where it may not, nothing
/// changes.
pub open spec fn after_try_start(
    sessions: Map<Seq<char>, UploadStatus>,
    uuid: Seq<char>,
) -> Map<Seq<char>, UploadStatus> {
    if can_start(sessions, uuid) {
        sessions.insert(
            uuid,
            UploadStatus { state: FileState::Uploading, uploaded_bytes: 0, ..sessions[uuid] },
        )
    } else {
        sessions
    }
}

/// A byte count after `n` more bytes: their sum, or the largest count
/// where the sum is beyond it.
pub open spec fn advanced(count: u64, n: u64) -> u64 {
    if count + n <= u64::MAX {
        (count + n) as u64
    } else {
        u64::MAX
    }
}

/// The tracked uploads after `n` more bytes came in for a handle. An upload
/// that is not tracked stays so.
pub open spec fn after_progress(
    sessions: Map<Seq<char>, UploadStatus>,
    uuid: Seq<char>,
    n: u64,
) -> Map<Seq<char>, UploadStatus> {
    if sessions.contains_key(uuid) {
        sessions.insert(
            uuid,
            UploadStatus {
                uploaded_bytes: advanced(sessions[uuid].uploaded_bytes, n),
                ..sessions[uuid]
            },
        )
    } else {
        sessions
    }
}

/// The tracked uploads after the upload with a handle moved to a state. An
/// upload that is not tracked stays so.
pub open spec fn after_state(
    sessions: Map<Seq<char>, UploadStatus>,
    uuid: Seq<char>,
    state: FileState,
) -> Map<Seq<char>, UploadStatus> {
    if sessions.contains_key(uuid) {
        sessions.insert(uuid, UploadStatus { state, ..sessions[uuid] })
    } else {
        sessions
    }
}

/// Why the tracker turned a request down.
#[derive(Clone, Copy, Debug, PartialEq, Eq, Structural)]
pub enum SessionError {
    /// An upload with this handle is tracked already.
    Conflict,
}

/// The uploads in flight, by handle. There is at most one per handle.
pub struct UploadStatusMap {
    sessions: StringHashMap<UploadStatus>,
}

impl View for UploadStatusMap {
    type V = Map<Seq<char>, UploadStatus>;

    closed spec fn view(&self) -> Map<Seq<char>, UploadStatus> {
        self.sessions@
    }
}

impl UploadStatusMap {
    /// A tracker that tracks nothing.
    pub fn new() -> (tracker: UploadStatusMap)
        ensures
            tracker@ == Map::<Seq<char>, UploadStatus>::empty(),
    {
        UploadStatusMap { sessions: StringHashMap::new() }
    }

    /// Starts to track an upload of `total_bytes` that awaits its data. A
    /// handle that is tracked already is turned down and changes nothing.
    pub fn begin(&mut self, uuid: &str, total_bytes: u64) -> (begun: Result<(), SessionError>)
        ensures
            begun.is_ok() == !old(self)@.contains_key(uuid@),
            final(self)@ == if old(self)@.contains_key(uuid@) {
                old(self)@
            } else {
                old(self)@.insert(uuid@, awaiting(total_bytes))
            },
    {
        if self.sessions.contains_key(uuid) {
            return Err(SessionError::Conflict);
        }
        self.sessions.insert(
            uuid.to_owned(),
            UploadStatus { state: FileState::AwaitingData, total_bytes, uploaded_bytes: 0 },
        );
        Ok(())
    }

    /// Lets the transfer of an upload start if none has started yet, and
    /// says whether it did. A second transfer for the same handle is kept
    /// out by this.
    pub fn try_start(&mut self, uuid: &str) -> (started: bool)
        ensures
            started == can_start(old(self)@, uuid@),
            final(self)@ == after_try_start(old(self)@, uuid@),
    {
        let status = match self.sessions.get(uuid) {
            Some(status) => *status,
            None => {
                return false;
            },
        };
        if status.state != FileState::AwaitingData {
            return false;
        }
        self.sessions.insert(
            uuid.to_owned(),
            UploadStatus {
                state: FileState::Uploading,
                total_bytes: status.total_bytes,
                uploaded_bytes: 0,
            },
        );
        true
    }

    /// Counts `n` more bytes for an upload. An upload that is not tracked
    /// stays so.
    pub fn add_progress(&mut self, uuid: &str, n: u64)
        ensures
            final(self)@ == after_progress(old(self)@, uuid@, n),
    {
        let status = match self.sessions.get(uuid) {
            Some(status) => *status,
            None => {
                return ;
            },
        };
        let uploaded_bytes = if status.uploaded_bytes <= u64::MAX - n {
            status.uploaded_bytes + n
        } else {
            u64::MAX
        };
        self.sessions.insert(
            uuid.to_owned(),
            UploadStatus { state: status.state, total_bytes: status.total_bytes, uploaded_bytes },
        );
    }

    /// Moves an upload to a state. An upload that is not tracked stays so.
    pub fn set_state(&mut self, uuid: &str, state: FileState)
        ensures
            final(self)@ == after_state(old(self)@, uuid@, state),
    {
        let status = match self.sessions.get(uuid) {
            Some(status) => *status,
            None => {
                return ;
            },
        };
        self.sessions.insert(
            uuid.to_owned(),
            UploadStatus {
                state,
                total_bytes: status.total_bytes,
                uploaded_bytes: status.uploaded_bytes,
            },
        );
    }

    /// Stops tracking an upload and says whether it was tracked.
    pub fn remove(&mut self, uuid: &str) -> (present: bool)
        ensures
            present == old(self)@.contains_key(uuid@),
            final(self)@ == old(self)@.remove(uuid@),
    {
        let present = self.sessions.contains_key(uuid);
        self.sessions.remove(uuid);
        present
    }

    /// The status of an upload, if it is tracked.
    pub fn get(&self, uuid: &str) -> (status: Option<UploadStatus>)
        ensures
            status == if self@.contains_key(uuid@) {
                Some(self@[uuid@])
            } else {
                None
            },
    {
        match self.sessions.get(uuid) {
            Some(status) => Some(*status),
            None => None,
        }
    }
}

/// A request to store a file.
pub struct UploadRequest {
    pub file_size: u64,
    pub file_name: String,
    pub file_hash: String,
    pub expires_at: u64,
}

/// The answer to a request to store a file: whether bytes are to be sent,
/// and the handle under which the file is or will be found.
pub struct UploadRequestResponse {
    pub approved: bool,
    pub upload_id: String,
}

/// The answer to a finished transfer.
pub struct UploadResponse {
    pub uuid: String,
    pub hash: String,
    pub size: u64,
}

/// What went wrong with an upload.
#[derive(Clone, Copy, Debug, PartialEq, Eq, Structural)]
pub enum UploadErrorKind {
    Unknown,
    InvalidUuid,
    InvalidDataSupplied,
    UploadCanceled,
    AlreadyInProgress,
    FileTooLarge,
    FileMissing,
    ServerIssue,
    NoPermissions,
}

/// A failed request: what went wrong, the status to answer with, the
/// handle whose traces are to be cleaned up, and a word for the client.
pub struct UploadError {
    pub uuid: Option<String>,
    pub kind: UploadErrorKind,
    pub status: u16,
    pub message: Option<String>,
}

/// What an [`UploadError`] says, as mathematical values.
pub struct Failure {
    pub uuid: Option<Seq<char>>,
    pub kind: UploadErrorKind,
    pub status: u16,
    pub message: Option<Seq<char>>,
}

/// What an optional string says.
pub open spec fn optional_text(text: Option<String>) -> Option<Seq<char>> {
    match text {
        Some(text) => Some(text@),
        None => None,
    }
}

impl View for UploadError {
    type V = Failure;

    open spec fn view(&self) -> Failure {
        Failure {
            uuid: optional_text(self.uuid),
            kind: self.kind,
            status: self.status,
            message: optional_text(self.message),
        }
    }
}

/// The failure of a request from an account without the permission. It
/// names no handle: such a request leaves nothing to clean up.
pub open spec fn no_permissions() -> Failure {
    Failure {
        uuid: None,
        kind: UploadErrorKind::NoPermissions,
        status: FORBIDDEN,
        message: None,
    }
}

/// The failure of a request that announces more than `max` bytes.
pub open spec fn too_large(max: i64) -> Failure {
    Failure {
        uuid: None,
        kind: UploadErrorKind::FileTooLarge,
        status: PAYLOAD_TOO_LARGE,
        message: Some("File is too large. Max size is "@ + decimal(max as int)),
    }
}

/// The failure of a request whose new record the store did not take.
pub open spec fn not_registered() -> Failure {
    Failure {
        uuid: None,
        kind: UploadErrorKind::ServerIssue,
        status: INTERNAL_SERVER_ERROR,
        message: Some("Failed to add file to DB"@),
    }
}

/// What becomes of a request to store a file.
pub enum Intent {
    /// It is turned down.
    Refused(Failure),
    /// A finished record has the announced hash: the client is pointed to
    /// it and sends nothing.
    Known(Seq<char>),
    /// A new record and a new tracked upload are made under the offered
    /// handle, and the client is asked for the bytes.
    Fresh,
}

/// What becomes of a request to store a file: from the rights of the
/// account, the size limit, the announced size and hash, the records and
/// tracked uploads there are, and the handle on offer.
pub open spec fn intent(
    files: Seq<Record>,
    sessions: Map<Seq<char>, UploadStatus>,
    role: UserKind,
    max_size_bytes: i64,
    file_size: u64,
    file_hash: Seq<char>,
    upload_id: Seq<char>,
) -> Intent {
    if !permits(role, PermissionKind::FileUpload) {
        Intent::Refused(no_permissions())
    } else if file_size > max_size_bytes {
        Intent::Refused(too_large(max_size_bytes))
    } else if find_by_hash(files, file_hash) is Some {
        Intent::Known(find_by_hash(files, file_hash).unwrap().uuid)
    } else if handles(files).contains(upload_id) || sessions.contains_key(upload_id) {
        Intent::Refused(not_registered())
    } else {
        Intent::Fresh
    }
}

/// The file records after a request to store a file was answered: only a
/// fresh upload adds one, the placeholder for it.
pub open spec fn registered(files: Seq<Record>, outcome: Intent, fresh: Record) -> Seq<Record> {
    if outcome is Fresh {
        files.push(fresh)
    } else {
        files
    }
}

/// The tracked uploads after a request to store a file was answered: only
/// a fresh upload adds one, awaiting its data.
pub open spec fn tracking(
    sessions: Map<Seq<char>, UploadStatus>,
    outcome: Intent,
    upload_id: Seq<char>,
    file_size: u64,
) -> Map<Seq<char>, UploadStatus> {
    if outcome is Fresh {
        sessions.insert(upload_id, awaiting(file_size))
    } else {
        sessions
    }
}

/// Whether a request to store a file was answered as it is for the handle
/// `upload_id` on offer and the time `now`: the answer is what [`intent`]
/// says, and the records and tracked uploads are those before the request,
/// with the placeholder and the tracked upload of a fresh one added.
pub open spec fn answered_as(
    before: State,
    after: State,
    auth: User,
    data: UploadRequest,
    answer: Result<UploadRequestResponse, UploadError>,
    upload_id: Seq<char>,
    now: u64,
) -> bool {
    let outcome = intent(
        before.file_db@,
        before.upload_status@,
        UserKind::decode(auth.kind),
        before.config.upload.max_size_bytes,
        data.file_size,
        data.file_hash@,
        upload_id,
    );
    &&& after.file_db@ == registered(
        before.file_db@,
        outcome,
        placeholder(
            upload_id,
            data.file_name@,
            data.file_size,
            data.expires_at,
            now,
            before.config.upload.upload_location@,
        ),
    )
    &&& after.upload_status@ == tracking(
        before.upload_status@,
        outcome,
        upload_id,
        data.file_size,
    )
    &&& match outcome {
        Intent::Refused(failure) => answer is Err && answer->Err_0@ == failure,
        Intent::Known(existing) => {
            &&& answer is Ok
            &&& !answer->Ok_0.approved
            &&& answer->Ok_0.upload_id@ == existing
        },
        Intent::Fresh => {
            &&& answer is Ok
            &&& answer->Ok_0.approved
            &&& answer->Ok_0.upload_id@ == upload_id
        },
    }
}

/// Answers a request to store a file, with `upload_id` as the handle to
/// give out if a new upload begins, at the time `now`.
///
/// An account without the right to upload is turned down, then a file
/// larger than the configured limit. A file whose announced hash a finished
/// record has is not uploaded again: the answer names that record. Else a
/// record with the announced size and a tracked upload awaiting data are
/// made under `upload_id`; should that handle be in use, the request fails
/// and nothing is made. Only a fresh upload changes anything.
pub fn register_upload(
    state: &mut State,
    auth: &User,
    data: UploadRequest,
    upload_id: String,
    now: u64,
) -> (answer: Result<UploadRequestResponse, UploadError>)
    requires
        old(state).wf(),
    ensures
        final(state).wf(),
        final(state).same_surroundings(*old(state)),
        final(state).cleanup == old(state).cleanup,
        answered_as(*old(state), *final(state), *auth, data, answer, upload_id@, now),
{
    if !auth.has_permissions_to(PermissionKind::FileUpload) {
        return Err(
            UploadError {
                uuid: None,
                kind: UploadErrorKind::NoPermissions,
                status: FORBIDDEN,
                message: None,
            },
        );
    }
    let max = state.config.upload.max_size_bytes;
    if max < 0 || data.file_size > max as u64 {
        let mut message = String::from_str("File is too large. Max size is ");
        message.append(i64_to_string(max).as_str());
        return Err(
            UploadError {
                uuid: None,
                kind: UploadErrorKind::FileTooLarge,
                status: PAYLOAD_TOO_LARGE,
                message: Some(message),
            },
        );
    }
    match state.file_db.get_by_hash(data.file_hash.as_str()) {
        Some(existing) => {
            return Ok(UploadRequestResponse { approved: false, upload_id: existing.uuid });
        },
        None => {},
    }
    if state.upload_status.get(upload_id.as_str()).is_some() {
        return Err(
            UploadError {
                uuid: None,
                kind: UploadErrorKind::ServerIssue,
                status: INTERNAL_SERVER_ERROR,
                message: Some(String::from_str("Failed to add file to DB")),
            },
        );
    }
    match state.file_db.add_from_request(
        upload_id.as_str(),
        data.file_name,
        data.file_size,
        data.expires_at,
        now,
        state.config.upload.upload_location.as_str(),
    ) {
        Ok(()) => {},
        Err(_) => {
            return Err(
                UploadError {
                    uuid: None,
                    kind: UploadErrorKind::ServerIssue,
                    status: INTERNAL_SERVER_ERROR,
                    message: Some(String::from_str("Failed to add file to DB")),
                },
            );
        },
    }
    let _ = state.upload_status.begin(upload_id.as_str(), data.file_size);
    Ok(UploadRequestResponse { approved: true, upload_id })
}

/// Whether no handle of the written form of an identifier is in use, for a
/// record or for a tracked upload. A handle drawn at random is then free.
pub open spec fn no_identifier_in_use(
    files: Seq<Record>,
    sessions: Map<Seq<char>, UploadStatus>,
) -> bool {
    forall|handle: Seq<char>| #[trigger]
        is_uuid_text(handle) ==> !handles(files).contains(handle) && !sessions.contains_key(
            handle,
        )
}

/// Answers a request to store a file. The handle of a new upload is a
/// random identifier, and the record is stamped with the current time;
/// what happens for a given handle and time is what [`register_upload`]
/// says. Which handle and which time it was is not known beforehand, so
/// the request is answered as it is for some identifier and some time; what
/// does not hang on them is spelled out.
pub fn request_upload(state: &mut State, auth: &User, data: UploadRequest) -> (answer: Result<
    UploadRequestResponse,
    UploadError,
>)
    requires
        old(state).wf(),
    ensures
        final(state).wf(),
        final(state).same_surroundings(*old(state)),
        final(state).cleanup == old(state).cleanup,
        exists|upload_id: Seq<char>, now: u64|
            is_uuid_text(upload_id) && #[trigger] answered_as(
                *old(state),
                *final(state),
                *auth,
                data,
                answer,
                upload_id,
                now,
            ),
        !permits(UserKind::decode(auth.kind), PermissionKind::FileUpload) ==> answer is Err
            && answer->Err_0@ == no_permissions(),
        permits(UserKind::decode(auth.kind), PermissionKind::FileUpload) && data.file_size > old(
            state,
        ).config.upload.max_size_bytes ==> answer is Err && answer->Err_0@ == too_large(
            old(state).config.upload.max_size_bytes,
        ),
        permits(UserKind::decode(auth.kind), PermissionKind::FileUpload) && data.file_size <= old(
            state,
        ).config.upload.max_size_bytes && find_by_hash(old(state).file_db@, data.file_hash@)
            is Some ==> answer is Ok && !answer->Ok_0.approved && answer->Ok_0.upload_id@
            == find_by_hash(old(state).file_db@, data.file_hash@).unwrap().uuid,
        permits(UserKind::decode(auth.kind), PermissionKind::FileUpload) && data.file_size <= old(
            state,
        ).config.upload.max_size_bytes && find_by_hash(old(state).file_db@, data.file_hash@)
            is None && no_identifier_in_use(old(state).file_db@, old(state).upload_status@)
            ==> answer is Ok && answer->Ok_0.approved,
        answer is Err || !answer->Ok_0.approved ==> final(state).file_db@ == old(state).file_db@
            && final(state).upload_status@ == old(state).upload_status@,
        answer is Ok && answer->Ok_0.approved ==> {
            &&& is_uuid_text(answer->Ok_0.upload_id@)
            &&& permits(UserKind::decode(auth.kind), PermissionKind::FileUpload)
            &&& data.file_size <= old(state).config.upload.max_size_bytes
            &&& find_by_hash(old(state).file_db@, data.file_hash@) is None
            &&& !handles(old(state).file_db@).contains(answer->Ok_0.upload_id@)
            &&& !old(state).upload_status@.contains_key(answer->Ok_0.upload_id@)
            &&& final(state).upload_status@ == old(state).upload_status@.insert(
                answer->Ok_0.upload_id@,
                awaiting(data.file_size),
            )
            &&& final(state).file_db@.len() == old(state).file_db@.len() + 1
            &&& final(state).file_db@.drop_last() == old(state).file_db@
            &&& final(state).file_db@.last().uuid == answer->Ok_0.upload_id@
            &&& final(state).file_db@.last().hash == pending_hash()
            &&& final(state).file_db@.last().path == old(state).config.upload.upload_location@
                + answer->Ok_0.upload_id@
            &&& final(state).file_db@.last().name == data.file_name@
            &&& final(state).file_db@.last().size == data.file_size
            &&& final(state).file_db@.last().expires_at == data.expires_at
            &&& final(state).file_db@.last().access_count == 0
        },
{
    let upload_id = new_uuid();
    let now = get_current_timestamp();
    let ghost handle = upload_id@;
    let ghost request = data;
    let answer = register_upload(state, auth, data, upload_id, now);
    proof {
        assert(answered_as(*old(state), *state, *auth, request, answer, handle, now));
    }
    answer
}

/// The failure of a transfer for a handle that names no upload.
pub open spec fn invalid_uuid(uuid: Seq<char>) -> Failure {
    Failure {
        uuid: Some(uuid),
        kind: UploadErrorKind::InvalidUuid,
        status: BAD_REQUEST,
        message: None,
    }
}

/// The failure of a transfer for an upload whose transfer began before.
/// It names no handle: the transfer that runs is not to be cleaned up
/// after on account of one that was turned down.
pub open spec fn already_in_progress() -> Failure {
    Failure {
        uuid: None,
        kind: UploadErrorKind::AlreadyInProgress,
        status: BAD_REQUEST,
        message: None,
    }
}

/// The failure of a transfer whose stream of bytes broke off.
pub open spec fn canceled(uuid: Seq<char>) -> Failure {
    Failure {
        uuid: Some(uuid),
        kind: UploadErrorKind::UploadCanceled,
        status: BAD_REQUEST,
        message: None,
    }
}

/// The failure of a transfer whose bytes could not be kept, with the
/// reason as the disk gave it.
pub open spec fn not_kept(uuid: Seq<char>, reason: Seq<char>) -> Failure {
    Failure {
        uuid: Some(uuid),
        kind: UploadErrorKind::ServerIssue,
        status: INTERNAL_SERVER_ERROR,
        message: Some(reason),
    }
}

/// The failure of a transfer whose record was gone when it finished.
pub open spec fn not_finalized(uuid: Seq<char>) -> Failure {
    Failure {
        uuid: Some(uuid),
        kind: UploadErrorKind::ServerIssue,
        status: INTERNAL_SERVER_ERROR,
        message: Some("Failed to update file in DB"@),
    }
}

/// Whether a transfer for a handle is let in, and with which record: the
/// account must have the right to upload, the upload must be tracked and
/// still await its data, and its record must exist.
pub open spec fn admission(
    files: Seq<Record>,
    sessions: Map<Seq<char>, UploadStatus>,
    role: UserKind,
    uuid: Seq<char>,
) -> Result<Record, Failure> {
    if !permits(role, PermissionKind::FileUpload) {
        Err(no_permissions())
    } else if !sessions.contains_key(uuid) {
        Err(invalid_uuid(uuid))
    } else if sessions[uuid].state != FileState::AwaitingData {
        Err(already_in_progress())
    } else if find_by_handle(files, uuid) is None {
        Err(invalid_uuid(uuid))
    } else {
        Ok(find_by_handle(files, uuid).unwrap())
    }
}

/// The tracked uploads after a transfer for a handle asked to be let in:
/// an account with the right to upload has tried to start it.
pub open spec fn after_admission(
    sessions: Map<Seq<char>, UploadStatus>,
    role: UserKind,
    uuid: Seq<char>,
) -> Map<Seq<char>, UploadStatus> {
    if permits(role, PermissionKind::FileUpload) {
        after_try_start(sessions, uuid)
    } else {
        sessions
    }
}

/// A record once its content is known: the hash and the size are those of
/// the bytes received.
pub open spec fn finalized(record: Record, content: Seq<u8>) -> Record {
    Record { hash: content_hash(content), size: content.len() as u64, ..record }
}

/// The most bytes taken from a transfer at a time.
pub const CHUNK_SIZE: usize = 8192;

/// Why a transfer broke off.
pub enum TransferFault {
    /// The stream of bytes from the client failed.
    Stream,
    /// The bytes could not be kept on disk; the reason is the disk's.
    Disk(String),
}

/// A transfer in progress: the working copy of the upload's record, the
/// hash of the bytes so far, and their number.
pub struct UploadStream {
    uuid: String,
    db_file: File,
    hasher: Hasher,
    file_size: u64,
}

impl UploadStream {
    /// The handle of the upload.
    pub closed spec fn handle(&self) -> Seq<char> {
        self.uuid@
    }

    /// The record of the upload as it stood when the transfer began.
    pub closed spec fn record(&self) -> Record {
        self.db_file@
    }

    /// The bytes received so far, in order.
    pub closed spec fn received(&self) -> Seq<u8> {
        absorbed(self.hasher)
    }

    /// The byte count is that of the bytes received.
    pub closed spec fn wf(&self) -> bool {
        self.file_size == absorbed(self.hasher).len()
    }

    /// The handle of the upload.
    pub fn uuid(&self) -> (uuid: &str)
        ensures
            uuid@ == self.handle(),
    {
        self.uuid.as_str()
    }

    /// The number of bytes received so far.
    pub fn file_size(&self) -> (file_size: u64)
        requires
            self.wf(),
        ensures
            file_size == self.received().len(),
    {
        self.file_size
    }

    /// Where the bytes of the upload are to be kept.
    pub fn path(&self) -> (path: &str)
        ensures
            path@ == self.record().path,
    {
        self.db_file.path.as_str()
    }

    /// Takes the next bytes of the transfer: they enter the hash and the
    /// count, and the tracked progress of the upload advances by their
    /// number.
    pub fn write(&mut self, state: &mut State, chunk: &[u8])
        requires
            old(self).wf(),
            old(self).received().len() + chunk@.len() <= u64::MAX,
        ensures
            final(self).wf(),
            final(self).handle() == old(self).handle(),
            final(self).record() == old(self).record(),
            final(self).received() == old(self).received() + chunk@,
            final(state).upload_status@ == after_progress(
                old(state).upload_status@,
                old(self).handle(),
                chunk@.len() as u64,
            ),
            final(state).file_db == old(state).file_db,
            final(state).cleanup == old(state).cleanup,
            final(state).same_surroundings(*old(state)),
    {
        let n = chunk.len() as u64;
        self.hasher.update(chunk);
        self.file_size = self.file_size + n;
        state.upload_status.add_progress(self.uuid.as_str(), n);
    }
}

/// Lets a transfer for the upload with a handle in, or turns it down.
///
/// The account must have the right to upload. The upload must be tracked
/// and still await its data: it is then marked as uploading, with no byte
/// moved, so that no second transfer gets in. Its record must exist. No
/// record is touched.
pub fn begin_upload(state: &mut State, auth: &User, uuid_raw: &str) -> (answer: Result<
    UploadStream,
    UploadError,
>)
    requires
        old(state).wf(),
    ensures
        final(state).wf(),
        final(state).same_surroundings(*old(state)),
        final(state).cleanup == old(state).cleanup,
        final(state).file_db == old(state).file_db,
        final(state).upload_status@ == after_admission(
            old(state).upload_status@,
            UserKind::decode(auth.kind),
            uuid_raw@,
        ),
        match admission(
            old(state).file_db@,
            old(state).upload_status@,
            UserKind::decode(auth.kind),
            uuid_raw@,
        ) {
            Err(failure) => answer is Err && answer->Err_0@ == failure,
            Ok(record) => {
                &&& answer is Ok
                &&& answer->Ok_0.wf()
                &&& answer->Ok_0.handle() == uuid_raw@
                &&& answer->Ok_0.record() == record
                &&& answer->Ok_0.received() == Seq::<u8>::empty()
            },
        },
{
    if !auth.has_permissions_to(PermissionKind::FileUpload) {
        return Err(
            UploadError {
                uuid: None,
                kind: UploadErrorKind::NoPermissions,
                status: FORBIDDEN,
                message: None,
            },
        );
    }
    let status = state.upload_status.get(uuid_raw);
    if !state.upload_status.try_start(uuid_raw) {
        return Err(
            match status {
                Some(_) => UploadError {
                    uuid: None,
                    kind: UploadErrorKind::AlreadyInProgress,
                    status: BAD_REQUEST,
                    message: None,
                },
                None => UploadError {
                    uuid: Some(uuid_raw.to_owned()),
                    kind: UploadErrorKind::InvalidUuid,
                    status: BAD_REQUEST,
                    message: None,
                },
            },
        );
    }
    let db_file = match state.file_db.get_by_uuid(uuid_raw) {
        Some(file) => file,
        None => {
            return Err(
                UploadError {
                    uuid: Some(uuid_raw.to_owned()),
                    kind: UploadErrorKind::InvalidUuid,
                    status: BAD_REQUEST,
                    message: None,
                },
            );
        },
    };
    Ok(UploadStream { uuid: uuid_raw.to_owned(), db_file, hasher: Hasher::new(), file_size: 0 })
}

/// Ends a transfer whose stream came to its end: the upload is marked as
/// finishing, the hash of the bytes received is worked out, and the working
/// copy of the record, with that hash and the number of bytes, is written
/// back. The upload is tracked no longer, whether or not the record was
/// still there to take the data.
pub fn finish_upload(state: &mut State, stream: UploadStream) -> (answer: Result<
    UploadResponse,
    UploadError,
>)
    requires
        old(state).wf(),
        stream.wf(),
    ensures
        final(state).wf(),
        final(state).same_surroundings(*old(state)),
        final(state).cleanup == old(state).cleanup,
        final(state).upload_status@ == old(state).upload_status@.remove(stream.handle()),
        handles(old(state).file_db@).contains(stream.handle()) ==> {
            let at = position(handles(old(state).file_db@), stream.handle());
            &&& answer is Ok
            &&& answer->Ok_0.uuid@ == stream.handle()
            &&& answer->Ok_0.hash@ == content_hash(stream.received())
            &&& answer->Ok_0.hash@.len() == 64
            &&& answer->Ok_0.size == stream.received().len()
            &&& final(state).file_db@ == old(state).file_db@.update(
                at,
                overwritten(
                    old(state).file_db@[at],
                    finalized(stream.record(), stream.received()),
                ),
            )
        },
        !handles(old(state).file_db@).contains(stream.handle()) ==> {
            &&& answer is Err
            &&& answer->Err_0@ == not_finalized(stream.handle())
            &&& final(state).file_db@ == old(state).file_db@
        },
{
    let UploadStream { uuid, db_file, hasher, file_size } = stream;
    state.upload_status.set_state(uuid.as_str(), FileState::Finishing);
    let digest = hasher.finalize();
    let hash = hex_encode(digest.as_slice());
    let finished = File {
        hash: hash.clone(),
        path: db_file.path,
        uuid: db_file.uuid,
        name: db_file.name,
        size: file_size,
        created: db_file.created,
        expires_at: db_file.expires_at,
        access_count: db_file.access_count,
    };
    let updated = state.file_db.update_data(uuid.as_str(), finished);
    state.upload_status.remove(uuid.as_str());
    match updated {
        Ok(()) => Ok(UploadResponse { uuid, hash, size: file_size }),
        Err(_) => Err(
            UploadError {
                uuid: Some(uuid),
                kind: UploadErrorKind::ServerIssue,
                status: INTERNAL_SERVER_ERROR,
                message: Some(String::from_str("Failed to update file in DB")),
            },
        ),
    }
}

/// Ends a transfer that broke off, and gives the failure to answer with.
/// The upload is marked as cancelled where the client's stream failed, and
/// as failed where the disk did. No record is touched here: the failure
/// names the handle, and answering it queues the cleanup.
pub fn abort_upload(state: &mut State, stream: UploadStream, fault: TransferFault) -> (error:
    UploadError)
    ensures
        final(state).same_surroundings(*old(state)),
        final(state).cleanup == old(state).cleanup,
        final(state).file_db == old(state).file_db,
        match fault {
            TransferFault::Stream => {
                &&& error@ == canceled(stream.handle())
                &&& final(state).upload_status@ == after_state(
                    old(state).upload_status@,
                    stream.handle(),
                    FileState::UploadCancelled,
                )
            },
            TransferFault::Disk(reason) => {
                &&& error@ == not_kept(stream.handle(), reason@)
                &&& final(state).upload_status@ == after_state(
                    old(state).upload_status@,
                    stream.handle(),
                    FileState::Error,
                )
            },
        },
{
    match fault {
        TransferFault::Stream => {
            state.upload_status.set_state(stream.uuid.as_str(), FileState::UploadCancelled);
            UploadError {
                uuid: Some(stream.uuid),
                kind: UploadErrorKind::UploadCanceled,
                status: BAD_REQUEST,
                message: None,
            }
        },
        TransferFault::Disk(reason) => {
            state.upload_status.set_state(stream.uuid.as_str(), FileState::Error);
            UploadError {
                uuid: Some(stream.uuid),
                kind: UploadErrorKind::ServerIssue,
                status: INTERNAL_SERVER_ERROR,
                message: Some(reason),
            }
        },
    }
}

/// Takes a whole upload whose bytes are at hand: lets the transfer in,
/// takes the bytes chunk by chunk, and finishes.
///
/// A transfer that is not let in fails as [`admission`] says. One that is
/// let in succeeds: the record of the upload gets the hash and the size of
/// the bytes as they were received, whatever hash and size were announced,
/// and the upload is tracked no longer.
pub fn upload_file(state: &mut State, auth: &User, uuid_raw: &str, data: &[u8]) -> (answer: Result<
    UploadResponse,
    UploadError,
>)
    requires
        old(state).wf(),
    ensures
        final(state).wf(),
        final(state).same_surroundings(*old(state)),
        final(state).cleanup == old(state).cleanup,
        match admission(
            old(state).file_db@,
            old(state).upload_status@,
            UserKind::decode(auth.kind),
            uuid_raw@,
        ) {
            Err(failure) => {
                &&& answer is Err
                &&& answer->Err_0@ == failure
                &&& final(state).file_db@ == old(state).file_db@
                &&& final(state).upload_status@ == after_admission(
                    old(state).upload_status@,
                    UserKind::decode(auth.kind),
                    uuid_raw@,
                )
            },
            Ok(record) => {
                &&& answer is Ok
                &&& answer->Ok_0.uuid@ == uuid_raw@
                &&& answer->Ok_0.hash@ == content_hash(data@)
                &&& answer->Ok_0.size == data@.len()
                &&& final(state).file_db@ == old(state).file_db@.update(
                    position(handles(old(state).file_db@), uuid_raw@),
                    finalized(record, data@),
                )
                &&& final(state).upload_status@ == old(state).upload_status@.remove(uuid_raw@)
            },
        },
{
    let mut stream = match begin_upload(state, auth, uuid_raw) {
        Ok(stream) => stream,
        Err(error) => {
            return Err(error);
        },
    };
    let ghost files = state.file_db@;
    let ghost sessions = old(state).upload_status@;
    let ghost record = stream.record();
    let mut offset: usize = 0;
    proof {
        lemma_position(handles(files), uuid_raw@);
        assert(data@.take(0) == Seq::<u8>::empty());
        assert(state.upload_status@.remove(uuid_raw@) == sessions.remove(uuid_raw@));
    }
    while offset < data.len()
        invariant
            state.wf(),
            state.same_surroundings(*old(state)),
            state.cleanup == old(state).cleanup,
            state.file_db@ == files,
            state.upload_status@.remove(uuid_raw@) == sessions.remove(uuid_raw@),
            stream.wf(),
            stream.handle() == uuid_raw@,
            stream.record() == record,
            stream.received() == data@.take(offset as int),
            offset <= data@.len(),
        decreases data@.len() - offset,
    {
        let end = if data.len() - offset > CHUNK_SIZE {
            offset + CHUNK_SIZE
        } else {
            data.len()
        };
        let chunk = slice_subrange(data, offset, end);
        let ghost before = state.upload_status@;
        stream.write(state, chunk);
        proof {
            assert(data@.take(offset as int) + chunk@ == data@.take(end as int));
            assert(state.upload_status@.remove(uuid_raw@) == before.remove(uuid_raw@));
        }
        offset = end;
    }
    proof {
        assert(data@.take(offset as int) == data@);
    }
    finish_upload(state, stream)
}

/// The progress of an upload, if it is in flight.
pub fn get_upload_status(state: &State, upload_id: &str) -> (status: Option<UploadStatus>)
    ensures
        status == if state.upload_status@.contains_key(upload_id@) {
            Some(state.upload_status@[upload_id@])
        } else {
            None
        },
{
    state.upload_status.get(upload_id)
}

/// The queue of cleanups once a failure was answered: the handle that the
/// failure names, if it names one, is put at its end, whatever the kind of
/// the failure.
pub open spec fn queued(cleanup: Seq<Seq<char>>, failure: Failure) -> Seq<Seq<char>> {
    match failure.uuid {
        Some(uuid) => cleanup.push(uuid),
        None => cleanup,
    }
}

impl UploadError {
    /// Answers a failed request. A failure that names a handle, of any
    /// kind, has the handle put in the queue of cleanups, so that the
    /// tracked upload and the record under it are removed behind the
    /// answer. A failure that names none leaves the queue as it is.
    /// Nothing else changes.
    pub fn respond_to(&self, state: &mut State)
        ensures
            final(state).cleanup@ == match self@.uuid {
                Some(uuid) => old(state).cleanup@.push(uuid),
                None => old(state).cleanup@,
            },
            final(state).file_db == old(state).file_db,
            final(state).upload_status == old(state).upload_status,
            final(state).same_surroundings(*old(state)),
    {
        match &self.uuid {
            Some(uuid) => {
                state.cleanup.enqueue(uuid.clone());
            },
            None => {},
        }
    }
}

/// An account without the right to upload can delete and cancel nothing by
/// asking for a transfer, whatever handle it names: it is refused, no
/// tracked upload changes, and the answer to the refusal puts nothing in
/// the queue of cleanups.
pub proof fn lemma_refused_transfer_touches_nothing(
    files: Seq<Record>,
    sessions: Map<Seq<char>, UploadStatus>,
    role: UserKind,
    uuid: Seq<char>,
    cleanup: Seq<Seq<char>>,
)
    requires
        !permits(role, PermissionKind::FileUpload),
    ensures
        admission(files, sessions, role, uuid) == Err::<Record, Failure>(no_permissions()),
        after_admission(sessions, role, uuid) == sessions,
        queued(cleanup, no_permissions()) == cleanup,
{
}

/// A transfer that asks to start for an upload whose transfer began before
/// is turned down without a trace: no tracked upload changes, and the
/// refusal names no handle, so that its answer puts nothing in the queue of
/// cleanups and the transfer that runs can finish.
pub proof fn lemma_second_transfer_touches_nothing(
    files: Seq<Record>,
    sessions: Map<Seq<char>, UploadStatus>,
    role: UserKind,
    uuid: Seq<char>,
    cleanup: Seq<Seq<char>>,
)
    requires
        permits(role, PermissionKind::FileUpload),
        sessions.contains_key(uuid),
        sessions[uuid].state != FileState::AwaitingData,
    ensures
        admission(files, sessions, role, uuid) == Err::<Record, Failure>(already_in_progress()),
        after_admission(sessions, role, uuid) == sessions,
        queued(cleanup, already_in_progress()) == cleanup,
{
}

/// A failure that names a handle is cleaned up after, whatever its kind:
/// its answer puts the handle in the queue, and once the cleanups have
/// run, no upload is tracked and no record is found under the handle. A
/// failure that names none leaves the queue as it is.
pub proof fn lemma_named_failure_is_cleaned_up_after(
    files: Seq<Record>,
    sessions: Map<Seq<char>, UploadStatus>,
    cleanup: Seq<Seq<char>>,
    failure: Failure,
)
    ensures
        failure.uuid is None ==> queued(cleanup, failure) == cleanup,
        failure.uuid matches Some(uuid) ==> {
            &&& queued(cleanup, failure) == cleanup.push(uuid)
            &&& !forgetting(sessions, queued(cleanup, failure)).contains_key(uuid)
            &&& find_by_handle(files.filter(not_among(queued(cleanup, failure))), uuid) is None
        },
{
    if failure.uuid is Some {
        let handle = failure.uuid->0;
        let queue = cleanup.push(handle);
        assert(queue[cleanup.len() as int] == handle);
        let left = files.filter(not_among(queue));
        lemma_position(handles(left), handle);
        let at = position(handles(left), handle);
        if at < left.len() {
            files.lemma_filter_pred(not_among(queue), at);
            assert(handles(left)[at] == handle);
        }
    }
}

/// A request to store a file is approved where nothing stands against it:
/// the account has the right to upload, the announced size is within the
/// limit, no finished record has the announced hash, and the handle on
/// offer is in use nowhere. The records gain exactly the placeholder, and
/// the tracked uploads exactly one under the handle, awaiting the
/// announced number of bytes with none moved.
pub proof fn lemma_fresh_upload_is_approved(
    files: Seq<Record>,
    sessions: Map<Seq<char>, UploadStatus>,
    role: UserKind,
    max_size_bytes: i64,
    file_size: u64,
    file_hash: Seq<char>,
    upload_id: Seq<char>,
    fresh: Record,
)
    requires
        permits(role, PermissionKind::FileUpload),
        file_size <= max_size_bytes,
        find_by_hash(files, file_hash) is None,
        !handles(files).contains(upload_id),
        !sessions.contains_key(upload_id),
    ensures
        ({
            let outcome = intent(
                files,
                sessions,
                role,
                max_size_bytes,
                file_size,
                file_hash,
                upload_id,
            );
            &&& outcome == Intent::Fresh
            &&& registered(files, outcome, fresh) == files.push(fresh)
            &&& tracking(sessions, outcome, upload_id, file_size) == sessions.insert(
                upload_id,
                UploadStatus {
                    state: FileState::AwaitingData,
                    total_bytes: file_size,
                    uploaded_bytes: 0,
                },
            )
        }),
{
}

/// A request that announces more bytes than the limit allows is refused as
/// too large, whatever hash it announces and whatever is stored, and it
/// leaves the records and the tracked uploads as they were. The account
/// must have the right to upload: without it the request is refused for
/// that.
pub proof fn lemma_too_large_is_refused(
    files: Seq<Record>,
    sessions: Map<Seq<char>, UploadStatus>,
    role: UserKind,
    max_size_bytes: i64,
    file_size: u64,
    file_hash: Seq<char>,
    upload_id: Seq<char>,
    fresh: Record,
)
    requires
        permits(role, PermissionKind::FileUpload),
        file_size > max_size_bytes,
    ensures
        ({
            let outcome = intent(
                files,
                sessions,
                role,
                max_size_bytes,
                file_size,
                file_hash,
                upload_id,
            );
            &&& outcome == Intent::Refused(too_large(max_size_bytes))
            &&& too_large(max_size_bytes).kind == UploadErrorKind::FileTooLarge
            &&& registered(files, outcome, fresh) == files
            &&& tracking(sessions, outcome, upload_id, file_size) == sessions
        }),
{
}

/// A request that announces the hash of a finished record is not taken
/// again: the answer names the oldest record with that hash, which is one
/// of the records there are, and the records and the tracked uploads stay
/// as they were. The account must have the right to upload and the
/// announced size must be within the limit: a request that fails on either
/// is refused before the hash is looked at.
pub proof fn lemma_known_content_is_not_taken_again(
    files: Seq<Record>,
    sessions: Map<Seq<char>, UploadStatus>,
    role: UserKind,
    max_size_bytes: i64,
    file_size: u64,
    file_hash: Seq<char>,
    upload_id: Seq<char>,
    fresh: Record,
    at: int,
)
    requires
        permits(role, PermissionKind::FileUpload),
        file_size <= max_size_bytes,
        0 <= at < files.len(),
        files[at].hash == file_hash,
        file_hash != pending_hash(),
    ensures
        ({
            let outcome = intent(
                files,
                sessions,
                role,
                max_size_bytes,
                file_size,
                file_hash,
                upload_id,
            );
            let first = position(hashes(files), file_hash);
            &&& 0 <= first <= at
            &&& files[first].hash == file_hash
            &&& outcome == Intent::Known(files[first].uuid)
            &&& registered(files, outcome, fresh) == files
            &&& tracking(sessions, outcome, upload_id, file_size) == sessions
        }),
{
    let keys = hashes(files);
    lemma_position(keys, file_hash);
    assert(keys[at] == file_hash);
}

/// To stop tracking an upload twice is to stop tracking it once.
pub proof fn lemma_untrack_twice(sessions: Map<Seq<char>, UploadStatus>, uuid: Seq<char>)
    ensures
        sessions.remove(uuid).remove(uuid) == sessions.remove(uuid),
        !sessions.remove(uuid).contains_key(uuid),
{
}

/// Of two transfers that ask to start for the same handle, one after the
/// other, exactly one is let in: once the first has started, the upload can
/// start no more.
pub proof fn lemma_try_start_exclusive(sessions: Map<Seq<char>, UploadStatus>, uuid: Seq<char>)
    requires
        can_start(sessions, uuid),
    ensures
        !can_start(after_try_start(sessions, uuid), uuid),
        after_try_start(after_try_start(sessions, uuid), uuid) == after_try_start(sessions, uuid),
{
}

} // verus!
