//! Fetching videos with the video tool: what is asked of the tool, and
//! what becomes of its answers.

use crate::db::user::{permits, PermissionKind, User, UserKind};
use crate::db::video::{
    described_video, describes_video, find_by_handle, handles, overwritten, Video, VideoRecord,
    YoutubeKind, YoutubeQuality, VIDEO_LIFETIME,
};
use crate::json::{parsed_json, Json, Tree};
use crate::lists::{position, texts};
use crate::routes::{BAD_REQUEST, FORBIDDEN, INTERNAL_SERVER_ERROR, NOT_FOUND};
use crate::state::State;
use crate::utils::{
    byte_len, extension_of, get_current_timestamp, get_extension_from_path, is_uuid_text,
    new_uuid, starts_with, trim, trimmed,
};
use vstd::prelude::*;
use vstd::string::StringExecFns;

verus! {

/// What a request for a video asks for.
pub struct YoutubeRequest {
    pub kind: YoutubeKind,
    pub quality: YoutubeQuality,
}

/// The answer to a request for a video that went well: the handle under
/// which the video can be fetched.
pub struct YoutubeRequestResponse {
    pub found: bool,
    pub uuid: String,
}

/// What went wrong with a video.
#[derive(Clone, Copy, Debug, PartialEq, Eq, Structural)]
pub enum YoutubeErrorKind {
    Unknown,
    InvalidUuid,
    InvalidDataSupplied,
    OperationCanceled,
    VideoNotFound,
    AlreadyInProgress,
    ServerIssue,
    InvalidUser,
    NoPermissions,
}

/// A failed request: what went wrong, the status to answer with, and a
/// word for the client.
pub struct YoutubeError {
    pub kind: YoutubeErrorKind,
    pub status: u16,
    pub message: String,
}

/// What a [`YoutubeError`] says, as mathematical values.
pub struct Refusal {
    pub kind: YoutubeErrorKind,
    pub status: u16,
    pub message: Seq<char>,
}

impl View for YoutubeError {
    type V = Refusal;

    open spec fn view(&self) -> Refusal {
        Refusal { kind: self.kind, status: self.status, message: self.message@ }
    }
}

/// The answer to a request for a video.
pub enum YoutubeResponseKind {
    Good(YoutubeRequestResponse),
    Bad(YoutubeError),
}

impl YoutubeResponseKind {
    /// The answer that nothing was found.
    pub fn default() -> (response: YoutubeResponseKind)
        ensures
            response is Good,
            !response->Good_0.found,
            response->Good_0.uuid@ == Seq::<char>::empty(),
    {
        YoutubeResponseKind::Good(YoutubeRequestResponse { found: false, uuid: String::new() })
    }
}

/// A fetched video, ready to be handed out.
pub struct YoutubeOutput {
    pub uuid: String,
    pub name: String,
    pub path: String,
    pub kind: YoutubeKind,
}

impl YoutubeOutput {
    /// The file name the video is handed out under: its name, a dot, and
    /// what follows the last dot of its path.
    pub open spec fn named(name: Seq<char>, path: Seq<char>) -> Seq<char> {
        name + seq!['.'] + extension_of(path)
    }

    /// The file name the video is handed out under.
    pub fn file_name(&self) -> (file_name: String)
        ensures
            file_name@ == Self::named(self.name@, self.path@),
    {
        let mut file_name = self.name.clone();
        proof {
            reveal_strlit(".");
            assert("."@ == seq!['.']);
        }
        file_name.append(".");
        file_name.append(get_extension_from_path(self.path.as_str()).unwrap().as_str());
        file_name
    }
}

/// The answer to an account that may not fetch videos.
pub open spec fn no_permissions() -> Refusal {
    Refusal {
        kind: YoutubeErrorKind::NoPermissions,
        status: FORBIDDEN,
        message: "No permissions"@,
    }
}

/// The answer to a request whose address cannot be that of a video.
pub open spec fn invalid_url() -> Refusal {
    Refusal {
        kind: YoutubeErrorKind::InvalidDataSupplied,
        status: BAD_REQUEST,
        message: "Invalid data supplied, url is empty, incorrect or too short"@,
    }
}

/// The answer where the video tool is switched off or not named.
pub open spec fn tool_disabled() -> Refusal {
    Refusal {
        kind: YoutubeErrorKind::ServerIssue,
        status: INTERNAL_SERVER_ERROR,
        message: "yt-dlp is not enabled"@,
    }
}

/// The answer where the video tool found no video or did not run.
pub open spec fn tool_failed() -> Refusal {
    Refusal {
        kind: YoutubeErrorKind::VideoNotFound,
        status: NOT_FOUND,
        message: "Failed to find video, or server failed to execute yt-dlp"@,
    }
}

/// The answer where what the video tool printed cannot be read.
pub open spec fn unreadable(output: Seq<char>) -> Refusal {
    Refusal {
        kind: YoutubeErrorKind::ServerIssue,
        status: INTERNAL_SERVER_ERROR,
        message: "Failed to parse yt-dlp output: "@ + output,
    }
}

/// The answer where the record of the video could not be kept.
pub open spec fn not_kept() -> Refusal {
    Refusal {
        kind: YoutubeErrorKind::ServerIssue,
        status: INTERNAL_SERVER_ERROR,
        message: "Failed to add video to DB"@,
    }
}

/// The answer for a handle that names no video.
pub open spec fn video_not_found() -> Refusal {
    Refusal {
        kind: YoutubeErrorKind::VideoNotFound,
        status: NOT_FOUND,
        message: "Video not found"@,
    }
}

/// The answer to an account that asks for the video of another.
pub open spec fn not_the_owner() -> Refusal {
    Refusal {
        kind: YoutubeErrorKind::InvalidUser,
        status: FORBIDDEN,
        message: "You can only download from your own requests"@,
    }
}

/// Whether an address can be that of a video: it is longer than 20 bytes
/// and begins with `http`.
pub open spec fn plausible_url(url: Seq<char>) -> bool {
    byte_len(url) > 20 && "http"@.is_prefix_of(url)
}

/// Why a request for a video is turned down before the tool is asked, if
/// it is: the account may not fetch videos, the address is implausible, or
/// the tool is switched off or not named.
pub open spec fn request_refusal(
    role: UserKind,
    url: Seq<char>,
    enabled: bool,
    exec_path: Seq<char>,
) -> Option<Refusal> {
    if !permits(role, PermissionKind::YoutubeDownload) {
        Some(no_permissions())
    } else if !plausible_url(url) {
        Some(invalid_url())
    } else if !enabled || exec_path.len() == 0 {
        Some(tool_disabled())
    } else {
        None
    }
}

/// What the tool is told to describe a video without fetching it.
pub open spec fn probe_args(url: Seq<char>) -> Seq<Seq<char>> {
    seq!["--simulate"@, "-j"@, url]
}

/// Puts an argument at the end of a command line.
fn push_arg(args: &mut Vec<String>, arg: &str)
    ensures
        texts(final(args)@) == texts(old(args)@).push(arg@),
{
    let ghost before = texts(args@);
    args.push(arg.to_owned());
    proof {
        assert(texts(args@) == before.push(arg@));
    }
}

/// Looks at a request for a video and, unless it is turned down, says what
/// to tell the tool so that it describes the video.
pub fn youtube_request(state: &State, auth: &User, url: &str) -> (answer: Result<
    Vec<String>,
    YoutubeError,
>)
    ensures
        match request_refusal(
            UserKind::decode(auth.kind),
            url@,
            state.config.yt_dlp.enabled,
            state.config.yt_dlp.dpl_exec_path@,
        ) {
            Some(refusal) => answer is Err && answer->Err_0@ == refusal,
            None => answer is Ok && texts(answer->Ok_0@) == probe_args(url@),
        },
{
    if !auth.has_permissions_to(PermissionKind::YoutubeDownload) {
        return Err(
            YoutubeError {
                kind: YoutubeErrorKind::NoPermissions,
                status: FORBIDDEN,
                message: String::from_str("No permissions"),
            },
        );
    }
    if url.as_bytes().len() <= 20 || !starts_with(url, "http") {
        return Err(
            YoutubeError {
                kind: YoutubeErrorKind::InvalidDataSupplied,
                status: BAD_REQUEST,
                message: String::from_str(
                    "Invalid data supplied, url is empty, incorrect or too short",
                ),
            },
        );
    }
    if !state.config.yt_dlp.enabled || state.config.yt_dlp.dpl_exec_path.as_str().is_empty() {
        return Err(
            YoutubeError {
                kind: YoutubeErrorKind::ServerIssue,
                status: INTERNAL_SERVER_ERROR,
                message: String::from_str("yt-dlp is not enabled"),
            },
        );
    }
    let mut args: Vec<String> = Vec::new();
    assert(texts(args@) == Seq::<Seq<char>>::empty());
    push_arg(&mut args, "--simulate");
    push_arg(&mut args, "-j");
    push_arg(&mut args, url);
    Ok(args)
}

/// The record of a video that was asked for, from what the tool said of
/// it: described at the time `now`, under the handle `uuid`, owned by the
/// account that asked, in the format and quality asked for.
pub open spec fn requested_video(
    info: Tree,
    now: u64,
    uuid: Seq<char>,
    user: u16,
    kind: YoutubeKind,
    quality: YoutubeQuality,
) -> VideoRecord {
    VideoRecord {
        uuid,
        user,
        quality: quality.code(),
        format: kind.code(),
        ..described_video(info, now)
    }
}

/// What becomes of a request for a video once the tool has answered.
pub enum Registration {
    /// The request fails.
    Refused(Refusal),
    /// The video gets a record.
    Kept(VideoRecord),
}

/// What becomes of a request for a video once the tool has answered, given
/// what it printed (`None` where it failed): the output must be readable
/// as the description of a video, the time must leave room for the
/// video's lifetime, and the handle on offer must be free.
pub open spec fn registration(
    videos: Seq<VideoRecord>,
    output: Option<Seq<char>>,
    now: u64,
    uuid: Seq<char>,
    user: u16,
    kind: YoutubeKind,
    quality: YoutubeQuality,
) -> Registration {
    match output {
        None => Registration::Refused(tool_failed()),
        Some(output) => match parsed_json(trimmed(output)) {
            None => Registration::Refused(unreadable(trimmed(output))),
            Some(info) => if !describes_video(info) || now + VIDEO_LIFETIME > u64::MAX {
                Registration::Refused(unreadable(trimmed(output)))
            } else if handles(videos).contains(uuid) {
                Registration::Refused(not_kept())
            } else {
                Registration::Kept(requested_video(info, now, uuid, user, kind, quality))
            },
        },
    }
}

/// What an optional text says.
pub open spec fn shown(text: Option<&str>) -> Option<Seq<char>> {
    match text {
        Some(text) => Some(text@),
        None => None,
    }
}

/// Whether the tool's answer to a request for a video was taken as it is
/// for the handle `uuid` on offer and the time `now`: the response is what
/// [`registration`] says, and the video records are those before, with the
/// record of a video that is kept added.
pub open spec fn registered_as(
    before: Seq<VideoRecord>,
    after: Seq<VideoRecord>,
    response: YoutubeResponseKind,
    output: Option<Seq<char>>,
    now: u64,
    uuid: Seq<char>,
    user: u16,
    data: YoutubeRequest,
) -> bool {
    match registration(before, output, now, uuid, user, data.kind, data.quality) {
        Registration::Refused(refusal) => {
            &&& response is Bad
            &&& response->Bad_0@ == refusal
            &&& after == before
        },
        Registration::Kept(record) => {
            &&& response is Good
            &&& response->Good_0.found
            &&& response->Good_0.uuid@ == uuid
            &&& after == before.push(record)
        },
    }
}

/// Takes the tool's answer to a request for a video, with `uuid` as the
/// handle to give out and `now` as the time. Where the tool described a
/// video, the video gets a record and the answer names its handle; else
/// the request fails and no record is made.
pub fn register_video_as(
    state: &mut State,
    auth: &User,
    data: &YoutubeRequest,
    output: Option<&str>,
    uuid: String,
    now: u64,
) -> (response: YoutubeResponseKind)
    requires
        old(state).wf(),
    ensures
        final(state).wf(),
        final(state).file_db == old(state).file_db,
        final(state).user_db == old(state).user_db,
        final(state).config == old(state).config,
        final(state).config_path == old(state).config_path,
        final(state).upload_status == old(state).upload_status,
        final(state).cleanup == old(state).cleanup,
        registered_as(
            old(state).video_db@,
            final(state).video_db@,
            response,
            shown(output),
            now,
            uuid@,
            auth.id,
            *data,
        ),
{
    let output = match output {
        Some(output) => trim(output),
        None => {
            return YoutubeResponseKind::Bad(
                YoutubeError {
                    kind: YoutubeErrorKind::VideoNotFound,
                    status: NOT_FOUND,
                    message: String::from_str(
                        "Failed to find video, or server failed to execute yt-dlp",
                    ),
                },
            );
        },
    };
    let info = match Json::parse(output.as_str()) {
        Some(info) => if Video::is_yt_json(&info) && now <= u64::MAX - VIDEO_LIFETIME {
            Some(info)
        } else {
            None
        },
        None => None,
    };
    let info = match info {
        Some(info) => info,
        None => {
            let mut message = String::from_str("Failed to parse yt-dlp output: ");
            message.append(output.as_str());
            return YoutubeResponseKind::Bad(
                YoutubeError {
                    kind: YoutubeErrorKind::ServerIssue,
                    status: INTERNAL_SERVER_ERROR,
                    message,
                },
            );
        },
    };
    let mut video = Video::from_yt_json(&info, now);
    video.uuid = uuid.clone();
    video.user = auth.id;
    video.quality = data.quality.to_u8();
    video.format = data.kind.to_u8();
    match state.video_db.add(&video) {
        Ok(()) => YoutubeResponseKind::Good(YoutubeRequestResponse { found: true, uuid }),
        Err(_) => YoutubeResponseKind::Bad(
            YoutubeError {
                kind: YoutubeErrorKind::ServerIssue,
                status: INTERNAL_SERVER_ERROR,
                message: String::from_str("Failed to add video to DB"),
            },
        ),
    }
}

/// Takes the tool's answer to a request for a video. The handle is a
/// random identifier and the time is the current one; what happens for a
/// given handle and time is what [`register_video_as`] says. Which handle
/// and which time it was is not known beforehand, so the answer is taken
/// as it is for some identifier and some time; what does not hang on them
/// is spelled out.
pub fn register_video(
    state: &mut State,
    auth: &User,
    data: &YoutubeRequest,
    output: Option<&str>,
) -> (response: YoutubeResponseKind)
    requires
        old(state).wf(),
    ensures
        final(state).wf(),
        final(state).file_db == old(state).file_db,
        final(state).user_db == old(state).user_db,
        final(state).config == old(state).config,
        final(state).config_path == old(state).config_path,
        final(state).upload_status == old(state).upload_status,
        final(state).cleanup == old(state).cleanup,
        exists|uuid: Seq<char>, now: u64|
            is_uuid_text(uuid) && #[trigger] registered_as(
                old(state).video_db@,
                final(state).video_db@,
                response,
                shown(output),
                now,
                uuid,
                auth.id,
                *data,
            ),
        output is None ==> response is Bad && response->Bad_0@ == tool_failed(),
        response is Bad ==> final(state).video_db@ == old(state).video_db@,
        response is Good ==> {
            &&& output is Some
            &&& parsed_json(trimmed(output->0@)) is Some
            &&& describes_video(parsed_json(trimmed(output->0@))->0)
            &&& response->Good_0.found
            &&& is_uuid_text(response->Good_0.uuid@)
            &&& !handles(old(state).video_db@).contains(response->Good_0.uuid@)
            &&& final(state).video_db@.len() == old(state).video_db@.len() + 1
            &&& final(state).video_db@.drop_last() == old(state).video_db@
            &&& final(state).video_db@.last().uuid == response->Good_0.uuid@
            &&& final(state).video_db@.last().user == auth.id
            &&& final(state).video_db@.last().format == data.kind.code()
            &&& final(state).video_db@.last().quality == data.quality.code()
            &&& final(state).video_db@.last().vid_id == parsed_json(
                trimmed(output->0@),
            )->0.text_at("id"@)->0
            &&& final(state).video_db@.last().name == parsed_json(
                trimmed(output->0@),
            )->0.text_at("title"@)->0
        },
{
    let uuid = new_uuid();
    let now = get_current_timestamp();
    let ghost handle = uuid@;
    let response = register_video_as(state, auth, data, output, uuid, now);
    proof {
        assert(registered_as(
            old(state).video_db@,
            state.video_db@,
            response,
            shown(output),
            now,
            handle,
            auth.id,
            *data,
        ));
    }
    response
}

/// The address of a video with an id.
pub open spec fn watch_url(vid_id: Seq<char>) -> Seq<char> {
    "https://www.youtube.com/watch?v="@ + vid_id
}

/// Where the tool is told to put a video: under the upload location, named
/// by the handle, a hyphen and the id. The tool adds the extension.
pub open spec fn fetch_path(upload_location: Seq<char>, uuid: Seq<char>, vid_id: Seq<char>) -> Seq<
    char,
> {
    upload_location + uuid + seq!['-'] + vid_id
}

/// What the tool is told to fetch a video: where to put it; for sound,
/// to extract it in the format asked for; the quality, as a sort order
/// where it is one, else as a format, for sound with the sound quality
/// before it; and the address.
pub open spec fn fetch_args(
    path: Seq<char>,
    kind: YoutubeKind,
    quality: YoutubeQuality,
    url: Seq<char>,
) -> Seq<Seq<char>> {
    let output = seq!["-o"@, path];
    let extract = if kind.audio() {
        seq!["--extract-audio"@, "--audio-format"@, kind.extension()]
    } else {
        Seq::empty()
    };
    let select = if quality.sorts() {
        seq![
            "-S"@,
            if kind.audio() {
                quality.audio_selector()
            } else {
                quality.video_selector()
            },
        ]
    } else if kind.audio() {
        seq![
            "--audio-quality"@,
            quality.audio_selector(),
            "--format"@,
            quality.video_selector(),
        ]
    } else {
        seq!["--format"@, quality.video_selector()]
    };
    output + extract + select + seq![url]
}

/// A fetch that is about to run: the record of the video, where the tool
/// puts it, and what the tool is told.
pub struct FetchJob {
    pub video: Video,
    pub path: String,
    pub args: Vec<String>,
    pub kind: YoutubeKind,
}

/// Whether an account may fetch the video under a handle, and which video
/// that is: the account must have the right to fetch videos, the video
/// must have a record, and the account must be the one that asked for it.
pub open spec fn fetchable(videos: Seq<VideoRecord>, role: UserKind, user: u16, uuid: Seq<char>)
    -> Result<VideoRecord, Refusal> {
    if !permits(role, PermissionKind::YoutubeDownload) {
        Err(no_permissions())
    } else {
        match find_by_handle(videos, uuid) {
            None => Err(video_not_found()),
            Some(video) => if video.user != user {
                Err(not_the_owner())
            } else {
                Ok(video)
            },
        }
    }
}

/// Looks at a request to fetch the video under a handle and, unless it is
/// turned down, says where the tool is to put the video and what it is
/// told.
pub fn youtube_download(state: &State, auth: &User, uuid: &str) -> (answer: Result<
    FetchJob,
    YoutubeError,
>)
    ensures
        match fetchable(state.video_db@, UserKind::decode(auth.kind), auth.id, uuid@) {
            Err(refusal) => answer is Err && answer->Err_0@ == refusal,
            Ok(video) => {
                let path = fetch_path(
                    state.config.upload.upload_location@,
                    video.uuid,
                    video.vid_id,
                );
                &&& answer is Ok
                &&& answer->Ok_0.video@ == video
                &&& answer->Ok_0.kind == YoutubeKind::decode(video.format)
                &&& answer->Ok_0.path@ == path
                &&& texts(answer->Ok_0.args@) == fetch_args(
                    path,
                    YoutubeKind::decode(video.format),
                    YoutubeQuality::decode(video.quality),
                    watch_url(video.vid_id),
                )
            },
        },
{
    if !auth.has_permissions_to(PermissionKind::YoutubeDownload) {
        return Err(
            YoutubeError {
                kind: YoutubeErrorKind::NoPermissions,
                status: FORBIDDEN,
                message: String::from_str("No permissions"),
            },
        );
    }
    let video = match state.video_db.get_by_uuid(uuid) {
        Some(video) => video,
        None => {
            return Err(
                YoutubeError {
                    kind: YoutubeErrorKind::VideoNotFound,
                    status: NOT_FOUND,
                    message: String::from_str("Video not found"),
                },
            );
        },
    };
    if video.user != auth.id {
        return Err(
            YoutubeError {
                kind: YoutubeErrorKind::InvalidUser,
                status: FORBIDDEN,
                message: String::from_str("You can only download from your own requests"),
            },
        );
    }
    let mut url = String::from_str("https://www.youtube.com/watch?v=");
    url.append(video.vid_id.as_str());
    let mut path = state.config.upload.upload_location.clone();
    proof {
        reveal_strlit("-");
        assert("-"@ == seq!['-']);
    }
    path.append(video.uuid.as_str());
    path.append("-");
    path.append(video.vid_id.as_str());
    let quality = YoutubeQuality::from_u8(video.quality);
    let kind = YoutubeKind::from_u8(video.format);

    let mut args: Vec<String> = Vec::new();
    assert(texts(args@) == Seq::<Seq<char>>::empty());
    push_arg(&mut args, "-o");
    push_arg(&mut args, path.as_str());
    if kind.is_audio() {
        push_arg(&mut args, "--extract-audio");
        push_arg(&mut args, "--audio-format");
        push_arg(&mut args, kind.as_str());
    }
    if quality.use_selection() {
        push_arg(&mut args, "-S");
        if kind.is_audio() {
            push_arg(&mut args, quality.as_str_audio());
        } else {
            push_arg(&mut args, quality.as_str_vid());
        }
    } else {
        if kind.is_audio() {
            push_arg(&mut args, "--audio-quality");
            push_arg(&mut args, quality.as_str_audio());
        }
        push_arg(&mut args, "--format");
        push_arg(&mut args, quality.as_str_vid());
    }
    push_arg(&mut args, url.as_str());
    proof {
        assert(texts(args@) =~= fetch_args(path@, kind, quality, url@));
    }
    Ok(FetchJob { video, path, args, kind })
}

/// Ends a fetch that went well: the record of the video gets the path
/// under which the tool left the file, and the video is ready to be
/// handed out from there. Where the record is gone in the meantime, no
/// record changes.
pub fn finish_download(state: &mut State, job: FetchJob, complete_path: String) -> (output:
    YoutubeOutput)
    requires
        old(state).wf(),
    ensures
        final(state).wf(),
        final(state).file_db == old(state).file_db,
        final(state).user_db == old(state).user_db,
        final(state).config == old(state).config,
        final(state).config_path == old(state).config_path,
        final(state).upload_status == old(state).upload_status,
        final(state).cleanup == old(state).cleanup,
        output.uuid@ == job.video@.uuid,
        output.name@ == job.video@.name,
        output.path@ == complete_path@,
        output.kind == job.kind,
        final(state).video_db@ == if handles(old(state).video_db@).contains(job.video@.uuid) {
            let at = position(handles(old(state).video_db@), job.video@.uuid);
            old(state).video_db@.update(
                at,
                overwritten(
                    old(state).video_db@[at],
                    VideoRecord { path: complete_path@, ..job.video@ },
                ),
            )
        } else {
            old(state).video_db@
        },
{
    let mut video = job.video;
    video.path = complete_path.clone();
    state.video_db.update_data(video.uuid.as_str(), &video);
    YoutubeOutput { path: complete_path, uuid: video.uuid, name: video.name, kind: job.kind }
}

} // verus!
