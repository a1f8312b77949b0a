//! Fetching clips from the clip site: what is asked of the site, and what
//! becomes of its answers.

use crate::db::table::StoreError;
use crate::db::user::{permits, PermissionKind, User, UserKind};
use crate::db::video::{handles, Video, VideoRecord, VIDEO_LIFETIME};
use crate::json::{lemma_named_trees, parsed_json, Json, Tree};
use crate::routes::{FORBIDDEN, INTERNAL_SERVER_ERROR, NOT_FOUND};
use crate::state::State;
use crate::utils::{
    byte_len, capture_first_group, first_group, get_current_timestamp, is_uuid_text, new_uuid,
    replace, replaced, starts_with,
};
use vstd::prelude::*;
use vstd::string::StringExecFns;

verus! {

/// A fetched clip, ready to be handed out.
pub struct MedalOutput {
    pub uuid: String,
    pub name: String,
    pub path: String,
}

/// What went wrong with a clip.
#[derive(Clone, Copy, Debug, PartialEq, Eq, Structural)]
pub enum MedalErrorKind {
    Unknown,
    MedalIgnoredRequest,
    MedalReturnedError,
    MedalNoBody,
    NoDataFound,
    MedalInvalidData,
    NoClipsFound,
    MissingClipContent,
    DownloadFailed,
    ServerIssue,
    NoPermissions,
}

/// A failed request: what went wrong, the status to answer with, and a
/// word for the client.
pub struct MedalError {
    pub kind: MedalErrorKind,
    pub status: u16,
    pub message: String,
}

/// What a [`MedalError`] says, as mathematical values.
pub struct Refusal {
    pub kind: MedalErrorKind,
    pub status: u16,
    pub message: Seq<char>,
}

impl View for MedalError {
    type V = Refusal;

    open spec fn view(&self) -> Refusal {
        Refusal { kind: self.kind, status: self.status, message: self.message@ }
    }
}

/// The answer to a request for a clip.
pub enum MedalResponse {
    Output(MedalOutput),
    Error(MedalError),
}

/// Where the work with the clip site broke down.
#[derive(Clone, Copy, Debug, PartialEq, Eq, Structural)]
pub enum MedalFault {
    /// The request to the site could not be made up.
    NoRequest,
    /// The site did not answer.
    Ignored,
    /// The site answered with a failure.
    Returned,
    /// The answer of the site could not be read.
    NoBody,
    /// The clip could not be fetched or kept.
    Download,
}

impl MedalFault {
    /// What is said of a breakdown.
    pub open spec fn kind(self) -> MedalErrorKind {
        match self {
            MedalFault::NoRequest => MedalErrorKind::ServerIssue,
            MedalFault::Ignored => MedalErrorKind::MedalIgnoredRequest,
            MedalFault::Returned => MedalErrorKind::MedalReturnedError,
            MedalFault::NoBody => MedalErrorKind::MedalNoBody,
            MedalFault::Download => MedalErrorKind::DownloadFailed,
        }
    }

    /// The status a breakdown is answered with: that the clip was not
    /// found where the site refused or the clip did not come, else that
    /// the service failed.
    pub open spec fn status(self) -> u16 {
        match self {
            MedalFault::Returned | MedalFault::Download => NOT_FOUND,
            _ => INTERNAL_SERVER_ERROR,
        }
    }
}

impl MedalError {
    /// The failure to answer a breakdown with, with the reason as it was
    /// given.
    pub fn of(fault: MedalFault, message: String) -> (error: MedalError)
        ensures
            error@ == (Refusal { kind: fault.kind(), status: fault.status(), message: message@ }),
    {
        let (kind, status) = match fault {
            MedalFault::NoRequest => (MedalErrorKind::ServerIssue, INTERNAL_SERVER_ERROR),
            MedalFault::Ignored => (MedalErrorKind::MedalIgnoredRequest, INTERNAL_SERVER_ERROR),
            MedalFault::Returned => (MedalErrorKind::MedalReturnedError, NOT_FOUND),
            MedalFault::NoBody => (MedalErrorKind::MedalNoBody, INTERNAL_SERVER_ERROR),
            MedalFault::Download => (MedalErrorKind::DownloadFailed, NOT_FOUND),
        };
        MedalError { kind, status, message }
    }
}

impl MedalOutput {
    /// The file name the clip is handed out under: its name and `.mp4`.
    pub fn file_name(&self) -> (file_name: String)
        ensures
            file_name@ == self.name@ + ".mp4"@,
    {
        let mut file_name = self.name.clone();
        file_name.append(".mp4");
        file_name
    }
}

/// How a quality is written in the site's data: by its number of lines,
/// with nothing for the quality of the recording itself. Where none is
/// asked for, or one that is not known, it is 720 lines.
pub open spec fn quality_text(quality: Option<u8>) -> Seq<char> {
    match quality {
        Some(quality) => if quality == 0 {
            "144p"@
        } else if quality == 1 {
            "360p"@
        } else if quality == 3 {
            "1080p"@
        } else if quality == 4 {
            ""@
        } else {
            "720p"@
        },
        None => "720p"@,
    }
}

/// How a quality is written in the site's data.
pub fn medal_quality(quality: Option<u8>) -> (text: &'static str)
    ensures
        text@ == quality_text(quality),
{
    match quality {
        Some(0) => "144p",
        Some(1) => "360p",
        Some(2) => "720p",
        Some(3) => "1080p",
        Some(4) => "",
        Some(_) => "720p",
        None => "720p",
    }
}

/// A failure that says a clip or its data was not found.
pub open spec fn missing(kind: MedalErrorKind, message: Seq<char>) -> Refusal {
    Refusal { kind, status: NOT_FOUND, message }
}

/// The answer to an account that may not fetch clips.
pub open spec fn no_permissions() -> Refusal {
    Refusal {
        kind: MedalErrorKind::NoPermissions,
        status: FORBIDDEN,
        message: "You do not have permission to download medal clips"@,
    }
}

/// Whether an address can be that of a clip: it is at least 20 bytes long
/// and begins with the address of the site.
pub open spec fn plausible_url(url: Seq<char>) -> bool {
    byte_len(url) >= 20 && "https://medal.tv"@.is_prefix_of(url)
}

/// Why a request for a clip is turned down before the site is asked, if
/// it is.
pub open spec fn request_refusal(role: UserKind, url: Seq<char>) -> Option<Refusal> {
    if !permits(role, PermissionKind::MedalDownload) {
        Some(no_permissions())
    } else if !plausible_url(url) {
        Some(missing(MedalErrorKind::NoDataFound, "Invalid URL supplied"@))
    } else {
        None
    }
}

/// Looks at a request for a clip and says whether the site is to be asked
/// for its page.
pub fn download_medal_clip(auth: &User, url: &str) -> (answer: Result<(), MedalError>)
    ensures
        match request_refusal(UserKind::decode(auth.kind), url@) {
            Some(refusal) => answer is Err && answer->Err_0@ == refusal,
            None => answer is Ok,
        },
{
    if !auth.has_permissions_to(PermissionKind::MedalDownload) {
        return Err(
            MedalError {
                kind: MedalErrorKind::NoPermissions,
                status: FORBIDDEN,
                message: String::from_str("You do not have permission to download medal clips"),
            },
        );
    }
    if url.as_bytes().len() < 20 || !starts_with(url, "https://medal.tv") {
        return Err(
            MedalError {
                kind: MedalErrorKind::NoDataFound,
                status: NOT_FOUND,
                message: String::from_str("Invalid URL supplied"),
            },
        );
    }
    Ok(())
}

/// The place in a page of the data that the site hands to its own scripts:
/// a statement that sets `hydrationData`, with the data from its first
/// brace to the last brace of the line.
pub open spec fn hydration_pattern() -> Seq<char> {
    "var hydrationData=(\\{.*\\})"@
}

/// A clip that is about to be fetched.
pub struct MedalPlan {
    pub video: Video,
    pub content_url: String,
    pub title: String,
}

/// What a [`MedalPlan`] says, as mathematical values.
pub struct Plan {
    pub video: VideoRecord,
    pub content_url: Seq<char>,
    pub title: Seq<char>,
}

impl View for MedalPlan {
    type V = Plan;

    open spec fn view(&self) -> Plan {
        Plan { video: self.video@, content_url: self.content_url@, title: self.title@ }
    }
}

/// The key of the first member of an object; `None` for an object
/// without members and for what is no object.
pub open spec fn first_key(tree: Tree) -> Option<Seq<char>> {
    match tree {
        Tree::Object(members) => if members.len() > 0 {
            Some(members[0].0)
        } else {
            None
        },
        _ => None,
    }
}

/// The member of a document under a key, or nothing.
pub open spec fn below(tree: Option<Tree>, key: Seq<char>) -> Option<Tree> {
    match tree {
        Some(tree) => tree.member(key),
        None => None,
    }
}

/// The text that is a document, or nothing.
pub open spec fn text_of(tree: Option<Tree>) -> Option<Seq<char>> {
    match tree {
        Some(tree) => tree.text(),
        None => None,
    }
}

/// What is made of the page of a clip: the plan to fetch the clip under
/// the handle `uuid` at the time `now`, or the failure to answer with.
///
/// The page must hold the site's data, readable as a document with an
/// object of clips. The first clip of that object is the one: it must have
/// a title and an address for the quality asked for. The address to fetch
/// is that address with every `144` replaced by the quality. The clip is
/// to be kept under the upload location, named by the handle, a hyphen and
/// the id of the clip, for [`VIDEO_LIFETIME`].
pub open spec fn plan(
    page: Seq<char>,
    quality: Option<u8>,
    upload_location: Seq<char>,
    user: u16,
    uuid: Seq<char>,
    now: u64,
) -> Result<Plan, Refusal> {
    let data = match first_group(hydration_pattern(), page) {
        Some(text) => parsed_json(text),
        None => None,
    };
    let clips = below(data, "clips"@);
    let id = match clips {
        Some(clips) => first_key(clips),
        None => None,
    };
    let clip = match id {
        Some(id) => below(clips, id),
        None => None,
    };
    if first_group(hydration_pattern(), page) is None {
        Err(missing(MedalErrorKind::NoDataFound, "Could not find hydration data in response"@))
    } else if data is None {
        Err(missing(MedalErrorKind::MedalInvalidData, "Failed to parse hydration data"@))
    } else if clips is None || !(clips->0 is Object) {
        Err(
            missing(
                MedalErrorKind::NoClipsFound,
                "Could not find any clip objects in hydration data"@,
            ),
        )
    } else if id is None {
        Err(missing(MedalErrorKind::NoClipsFound, "Could not find any clips in hydration data"@))
    } else if text_of(below(clip, "contentTitle"@)) is None {
        Err(missing(MedalErrorKind::MedalInvalidData, "Could not find title in hydration data"@))
    } else if text_of(below(clip, "contentUrl"@ + quality_text(quality))) is None {
        Err(
            missing(
                MedalErrorKind::MissingClipContent,
                "Could not find contentUrl in hydration data"@,
            ),
        )
    } else if now + VIDEO_LIFETIME > u64::MAX {
        Err(
            Refusal {
                kind: MedalErrorKind::ServerIssue,
                status: INTERNAL_SERVER_ERROR,
                message: "Failed to get state"@,
            },
        )
    } else {
        let title = text_of(below(clip, "contentTitle"@))->0;
        Ok(
            Plan {
                video: VideoRecord {
                    uuid,
                    vid_id: id->0,
                    name: title,
                    format: 0,
                    quality: match quality {
                        Some(quality) => quality,
                        None => 12,
                    },
                    path: upload_location + uuid + seq!['-'] + id->0,
                    created: now,
                    expires_at: (now + VIDEO_LIFETIME) as u64,
                    user,
                },
                content_url: replaced(
                    text_of(below(clip, "contentUrl"@ + quality_text(quality)))->0,
                    "144"@,
                    quality_text(quality),
                ),
                title,
            },
        )
    }
}

/// A failure that says a clip or its data was not found.
fn not_found(kind: MedalErrorKind, message: &str) -> (error: MedalError)
    ensures
        error@ == missing(kind, message@),
{
    MedalError { kind, status: NOT_FOUND, message: String::from_str(message) }
}

/// Makes of the page of a clip the plan to fetch it, under the handle
/// `uuid` at the time `now`; what comes of a page is what [`plan`] says.
pub fn plan_medal_clip_as(
    state: &State,
    auth: &User,
    quality: Option<u8>,
    page: &str,
    uuid: String,
    now: u64,
) -> (answer: Result<MedalPlan, MedalError>)
    ensures
        match plan(page@, quality, state.config.upload.upload_location@, auth.id, uuid@, now) {
            Ok(plan) => answer is Ok && answer->Ok_0@ == plan,
            Err(refusal) => answer is Err && answer->Err_0@ == refusal,
        },
{
    let quality_str = medal_quality(quality);
    let script = match capture_first_group("var hydrationData=(\\{.*\\})", page) {
        Some(script) => script,
        None => {
            return Err(
                not_found(
                    MedalErrorKind::NoDataFound,
                    "Could not find hydration data in response",
                ),
            );
        },
    };
    let data = match Json::parse(script.as_str()) {
        Some(data) => data,
        None => {
            return Err(
                not_found(MedalErrorKind::MedalInvalidData, "Failed to parse hydration data"),
            );
        },
    };
    let clips = match data.get("clips") {
        Some(clips) => match clips.as_object() {
            Some(_) => Some(clips),
            None => None,
        },
        None => None,
    };
    let clips = match clips {
        Some(clips) => clips,
        None => {
            return Err(
                not_found(
                    MedalErrorKind::NoClipsFound,
                    "Could not find any clip objects in hydration data",
                ),
            );
        },
    };
    let members = clips.as_object().unwrap();
    if members.len() == 0 {
        return Err(
            not_found(
                MedalErrorKind::NoClipsFound,
                "Could not find any clips in hydration data",
            ),
        );
    }
    proof {
        lemma_named_trees(members@);
    }
    let first_clip_id = members[0].0.as_str();
    assert(first_key(clips@) == Some(first_clip_id@));
    let clip = clips.get(first_clip_id);
    let title = match clip {
        Some(clip) => match clip.get("contentTitle") {
            Some(title) => title.as_str(),
            None => None,
        },
        None => None,
    };
    let title = match title {
        Some(title) => title,
        None => {
            return Err(
                not_found(
                    MedalErrorKind::MedalInvalidData,
                    "Could not find title in hydration data",
                ),
            );
        },
    };
    let mut content_key = String::from_str("contentUrl");
    content_key.append(quality_str);
    let found_url = match clip {
        Some(clip) => match clip.get(content_key.as_str()) {
            Some(url) => url.as_str(),
            None => None,
        },
        None => None,
    };
    let content_url = match found_url {
        Some(url) => replace(url, "144", quality_str),
        None => {
            return Err(
                not_found(
                    MedalErrorKind::MissingClipContent,
                    "Could not find contentUrl in hydration data",
                ),
            );
        },
    };
    if now > u64::MAX - VIDEO_LIFETIME {
        return Err(
            MedalError {
                kind: MedalErrorKind::ServerIssue,
                status: INTERNAL_SERVER_ERROR,
                message: String::from_str("Failed to get state"),
            },
        );
    }
    let mut output_path = state.config.upload.upload_location.clone();
    proof {
        reveal_strlit("-");
        assert("-"@ == seq!['-']);
    }
    output_path.append(uuid.as_str());
    output_path.append("-");
    output_path.append(first_clip_id);
    let video = Video {
        uuid,
        user: auth.id,
        quality: match quality {
            Some(quality) => quality,
            None => 12,
        },
        format: 0,
        vid_id: first_clip_id.to_owned(),
        name: title.to_owned(),
        path: output_path,
        created: now,
        expires_at: now + VIDEO_LIFETIME,
    };
    Ok(MedalPlan { video, content_url, title: title.to_owned() })
}

/// Makes of the page of a clip the plan to fetch it. The handle is a
/// random identifier and the time is the current one; what comes of a page
/// for a given handle and time is what [`plan_medal_clip_as`] says, and
/// the answer is that for some identifier and some time.
pub fn plan_medal_clip(state: &State, auth: &User, quality: Option<u8>, page: &str) -> (answer:
    Result<MedalPlan, MedalError>)
    ensures
        answer is Ok ==> exists|uuid: Seq<char>, now: u64|
            is_uuid_text(uuid) && #[trigger] plan(
                page@,
                quality,
                state.config.upload.upload_location@,
                auth.id,
                uuid,
                now,
            ) == Ok::<Plan, Refusal>(answer->Ok_0@),
        answer is Err ==> exists|uuid: Seq<char>, now: u64|
            is_uuid_text(uuid) && #[trigger] plan(
                page@,
                quality,
                state.config.upload.upload_location@,
                auth.id,
                uuid,
                now,
            ) == Err::<Plan, Refusal>(answer->Err_0@),
{
    let uuid = new_uuid();
    let now = get_current_timestamp();
    let ghost handle = uuid@;
    let answer = plan_medal_clip_as(state, auth, quality, page, uuid, now);
    proof {
        let planned = plan(
            page@,
            quality,
            state.config.upload.upload_location@,
            auth.id,
            handle,
            now,
        );
        if answer is Ok {
            assert(planned == Ok::<Plan, Refusal>(answer->Ok_0@));
        } else {
            assert(planned == Err::<Plan, Refusal>(answer->Err_0@));
        }
    }
    answer
}

/// Ends the fetch of a clip that went well: the clip gets its record, if
/// its handle is free, and is ready to be handed out. A handle that is
/// taken leaves the records as they are; the clip is handed out all the
/// same.
pub fn finish_medal_clip(state: &mut State, plan: MedalPlan) -> (output: MedalOutput)
    requires
        old(state).wf(),
    ensures
        final(state).wf(),
        final(state).file_db == old(state).file_db,
        final(state).user_db == old(state).user_db,
        final(state).config == old(state).config,
        final(state).config_path == old(state).config_path,
        final(state).upload_status == old(state).upload_status,
        final(state).cleanup == old(state).cleanup,
        output.uuid@ == plan@.video.uuid,
        output.path@ == plan@.video.path,
        output.name@ == plan@.title,
        final(state).video_db@ == if handles(old(state).video_db@).contains(plan@.video.uuid) {
            old(state).video_db@
        } else {
            old(state).video_db@.push(plan@.video)
        },
{
    let added: Result<(), StoreError> = state.video_db.add(&plan.video);
    MedalOutput { uuid: plan.video.uuid, path: plan.video.path, name: plan.title }
}

} // verus!
