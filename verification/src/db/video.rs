//! Records of fetched videos, and the formats and qualities a fetch can ask
//! for.

use crate::db::table;
use crate::db::table::{Kept, StoreError, Stored};
use crate::json::{Json, Tree};
use crate::lists::{distinct, lemma_position, position, texts};
use vstd::prelude::*;

verus! {

/// The stored form of one fetched video.
pub struct Video {
    pub uuid: String,
    pub vid_id: String,
    pub name: String,
    pub format: u8,
    pub quality: u8,
    pub path: String,
    pub created: u64,
    pub expires_at: u64,
    pub user: u16,
}

/// What a [`Video`] says, as mathematical values.
pub struct VideoRecord {
    pub uuid: Seq<char>,
    pub vid_id: Seq<char>,
    pub name: Seq<char>,
    pub format: u8,
    pub quality: u8,
    pub path: Seq<char>,
    pub created: u64,
    pub expires_at: u64,
    pub user: u16,
}

impl View for Video {
    type V = VideoRecord;

    open spec fn view(&self) -> VideoRecord {
        VideoRecord {
            uuid: self.uuid@,
            vid_id: self.vid_id@,
            name: self.name@,
            format: self.format,
            quality: self.quality,
            path: self.path@,
            created: self.created,
            expires_at: self.expires_at,
            user: self.user,
        }
    }
}

impl Clone for Video {
    fn clone(&self) -> (copy: Video)
        ensures
            copy@ == self@,
    {
        Video {
            uuid: self.uuid.clone(),
            vid_id: self.vid_id.clone(),
            name: self.name.clone(),
            format: self.format,
            quality: self.quality,
            path: self.path.clone(),
            created: self.created,
            expires_at: self.expires_at,
            user: self.user,
        }
    }
}

impl Stored for Video {
    type Record = VideoRecord;

    open spec fn record(&self) -> VideoRecord {
        self@
    }

    fn has_handle(&self, uuid: &String) -> (has: bool) {
        assert(self@.handle() == self.uuid@);
        self.uuid == *uuid
    }

    fn handle(&self) -> (text: &str) {
        assert(self@.handle() == self.uuid@);
        self.uuid.as_str()
    }

    fn location(&self) -> (text: &str) {
        assert(self@.location() == self.path@);
        self.path.as_str()
    }

    fn expiry(&self) -> (at: u64) {
        assert(self@.expiry() == self.expires_at);
        self.expires_at
    }

    fn copy(&self) -> (copy: Video) {
        self.clone()
    }
}

/// How long a fetched video is kept, in seconds.
pub const VIDEO_LIFETIME: u64 = 65321;

/// Whether the description that the fetch tool gives of a video can be
/// read: it names the video's id and its title, both as text.
pub open spec fn describes_video(info: Tree) -> bool {
    info.text_at("id"@) is Some && info.text_at("title"@) is Some
}

/// The record of a video just described, made at the time `now`: it has
/// the id and the title of the description and expires after
/// [`VIDEO_LIFETIME`]; handle, owner, format, quality and path are still
/// to be filled in.
pub open spec fn described_video(info: Tree, now: u64) -> VideoRecord {
    VideoRecord {
        uuid: Seq::empty(),
        vid_id: info.text_at("id"@)->0,
        name: info.text_at("title"@)->0,
        format: 0,
        quality: 0,
        path: Seq::empty(),
        created: now,
        expires_at: (now + VIDEO_LIFETIME) as u64,
        user: 0,
    }
}

impl Video {
    /// Whether the description that the fetch tool gives of a video can
    /// be read.
    pub fn is_yt_json(json: &Json) -> (readable: bool)
        ensures
            readable == describes_video(json@),
    {
        let id = match json.get("id") {
            Some(id) => id.as_str().is_some(),
            None => false,
        };
        let title = match json.get("title") {
            Some(title) => title.as_str().is_some(),
            None => false,
        };
        id && title
    }

    /// The record of a video from the description that the fetch tool
    /// gives of it, made at the time `now`.
    pub fn from_yt_json(json: &Json, now: u64) -> (video: Video)
        requires
            describes_video(json@),
            now + VIDEO_LIFETIME <= u64::MAX,
        ensures
            video@ == described_video(json@, now),
    {
        let vid_id = json.get("id").unwrap().as_str().unwrap().to_owned();
        let name = json.get("title").unwrap().as_str().unwrap().to_owned();
        Video {
            uuid: String::new(),
            vid_id,
            name,
            format: 0,
            quality: 0,
            path: String::new(),
            created: now,
            expires_at: now + VIDEO_LIFETIME,
            user: 0,
        }
    }
}

/// What a fetch produces.
#[derive(Clone, Copy, Debug, PartialEq, Eq, Structural)]
pub enum YoutubeKind {
    Video,
    AudioWav,
    AudioMp3,
}

impl YoutubeKind {
    /// The file extension of the format.
    pub open spec fn extension(self) -> Seq<char> {
        match self {
            YoutubeKind::Video => "mp4"@,
            YoutubeKind::AudioWav => "wav"@,
            YoutubeKind::AudioMp3 => "mp3"@,
        }
    }

    /// The number a format is stored as.
    pub open spec fn code(self) -> u8 {
        match self {
            YoutubeKind::Video => 0,
            YoutubeKind::AudioWav => 1,
            YoutubeKind::AudioMp3 => 2,
        }
    }

    /// The format a stored number stands for; a number that stands for
    /// none reads as `Video`.
    pub open spec fn decode(value: u8) -> YoutubeKind {
        if value == 1 {
            YoutubeKind::AudioWav
        } else if value == 2 {
            YoutubeKind::AudioMp3
        } else {
            YoutubeKind::Video
        }
    }

    /// Whether the format holds sound only.
    pub open spec fn audio(self) -> bool {
        self != YoutubeKind::Video
    }

    pub fn as_str(&self) -> (text: &'static str)
        ensures
            text@ == self.extension(),
    {
        match self {
            YoutubeKind::Video => "mp4",
            YoutubeKind::AudioWav => "wav",
            YoutubeKind::AudioMp3 => "mp3",
        }
    }

    pub fn to_u8(&self) -> (code: u8)
        ensures
            code == self.code(),
    {
        match self {
            YoutubeKind::Video => 0,
            YoutubeKind::AudioWav => 1,
            YoutubeKind::AudioMp3 => 2,
        }
    }

    pub fn from_u8(value: u8) -> (decoded: YoutubeKind)
        ensures
            decoded == YoutubeKind::decode(value),
    {
        match value {
            0 => YoutubeKind::Video,
            1 => YoutubeKind::AudioWav,
            2 => YoutubeKind::AudioMp3,
            _ => YoutubeKind::Video,
        }
    }

    pub fn is_audio(&self) -> (audio: bool)
        ensures
            audio == self.audio(),
    {
        match self {
            YoutubeKind::AudioWav => true,
            YoutubeKind::AudioMp3 => true,
            _ => false,
        }
    }
}

/// How good a fetch should be.
#[derive(Clone, Copy, Debug, PartialEq, Eq, Structural)]
pub enum YoutubeQuality {
    Best,
    High,
    Medium,
    Worst,
}

impl YoutubeQuality {
    /// What the fetch tool is told when a picture is wanted.
    pub open spec fn video_selector(self) -> Seq<char> {
        match self {
            YoutubeQuality::Best => "bv+ba/b"@,
            YoutubeQuality::High => "bv*[height<=720]+ba/b[height<=720] / wv*+ba/w"@,
            YoutubeQuality::Medium => "bv*[height<=480]+ba/b[height<=480] / wv*+ba/w"@,
            YoutubeQuality::Worst => "+size,+br"@,
        }
    }

    /// What the fetch tool is told when sound is wanted.
    pub open spec fn audio_selector(self) -> Seq<char> {
        match self {
            YoutubeQuality::Best => "ba/b"@,
            YoutubeQuality::High => "ba/w"@,
            YoutubeQuality::Medium => "ba/w"@,
            YoutubeQuality::Worst => "+size,+br"@,
        }
    }

    /// The number a quality is stored as.
    pub open spec fn code(self) -> u8 {
        match self {
            YoutubeQuality::Best => 0,
            YoutubeQuality::High => 1,
            YoutubeQuality::Medium => 2,
            YoutubeQuality::Worst => 3,
        }
    }

    /// The quality a stored number stands for; a number that stands for
    /// none reads as `Best`.
    pub open spec fn decode(value: u8) -> YoutubeQuality {
        if value == 1 {
            YoutubeQuality::High
        } else if value == 2 {
            YoutubeQuality::Medium
        } else if value == 3 {
            YoutubeQuality::Worst
        } else {
            YoutubeQuality::Best
        }
    }

    /// Whether the quality is asked for as a sort order rather than as a
    /// format: only the worst is.
    pub open spec fn sorts(self) -> bool {
        self == YoutubeQuality::Worst
    }

    pub fn as_str_vid(&self) -> (text: &'static str)
        ensures
            text@ == self.video_selector(),
    {
        match self {
            YoutubeQuality::Best => "bv+ba/b",
            YoutubeQuality::High => "bv*[height<=720]+ba/b[height<=720] / wv*+ba/w",
            YoutubeQuality::Medium => "bv*[height<=480]+ba/b[height<=480] / wv*+ba/w",
            YoutubeQuality::Worst => "+size,+br",
        }
    }

    pub fn as_str_audio(&self) -> (text: &'static str)
        ensures
            text@ == self.audio_selector(),
    {
        match self {
            YoutubeQuality::Best => "ba/b",
            YoutubeQuality::High => "ba/w",
            YoutubeQuality::Medium => "ba/w",
            YoutubeQuality::Worst => "+size,+br",
        }
    }

    pub fn to_u8(&self) -> (code: u8)
        ensures
            code == self.code(),
    {
        match self {
            YoutubeQuality::Best => 0,
            YoutubeQuality::High => 1,
            YoutubeQuality::Medium => 2,
            YoutubeQuality::Worst => 3,
        }
    }

    pub fn from_u8(value: u8) -> (decoded: YoutubeQuality)
        ensures
            decoded == YoutubeQuality::decode(value),
    {
        match value {
            0 => YoutubeQuality::Best,
            1 => YoutubeQuality::High,
            2 => YoutubeQuality::Medium,
            3 => YoutubeQuality::Worst,
            _ => YoutubeQuality::Best,
        }
    }

    pub fn use_selection(&self) -> (sorts: bool)
        ensures
            sorts == self.sorts(),
    {
        match self {
            YoutubeQuality::Best => false,
            YoutubeQuality::High => false,
            YoutubeQuality::Medium => false,
            YoutubeQuality::Worst => true,
        }
    }
}

/// The records that a list of videos stands for.
pub open spec fn video_records(videos: Seq<Video>) -> Seq<VideoRecord> {
    table::records_of(videos)
}

impl Kept for VideoRecord {
    open spec fn handle(self) -> Seq<char> {
        self.uuid
    }

    open spec fn location(self) -> Seq<char> {
        self.path
    }

    open spec fn expiry(self) -> u64 {
        self.expires_at
    }
}

/// The handles of a table, row by row.
pub open spec fn handles(rows: Seq<VideoRecord>) -> Seq<Seq<char>> {
    table::handles(rows)
}

/// The storage paths of a table, row by row.
pub open spec fn paths(rows: Seq<VideoRecord>) -> Seq<Seq<char>> {
    table::paths(rows)
}

/// The row with a handle, if the table holds one.
pub open spec fn find_by_handle(rows: Seq<VideoRecord>, uuid: Seq<char>) -> Option<VideoRecord> {
    table::find_by_handle(rows, uuid)
}

/// A record's time has run out: it expires at all, and did so before `now`.
pub open spec fn is_expired(row: VideoRecord, now: u64) -> bool {
    table::is_expired(row, now)
}

/// The test "has expired by `now`".
pub open spec fn expired_by(now: u64) -> spec_fn(VideoRecord) -> bool {
    table::expired_by(now)
}

/// The test "has another handle than `uuid`".
pub open spec fn other_than(uuid: Seq<char>) -> spec_fn(VideoRecord) -> bool {
    table::other_than(uuid)
}

/// The test "has not expired by `now`".
pub open spec fn unexpired_by(now: u64) -> spec_fn(VideoRecord) -> bool {
    table::unexpired_by(now)
}

/// The test "has none of the handles `uuids`".
pub open spec fn not_among(uuids: Seq<Seq<char>>) -> spec_fn(VideoRecord) -> bool {
    table::not_among(uuids)
}

/// A row after its data columns were overwritten: everything but the
/// handle comes from `data`.
pub open spec fn overwritten(row: VideoRecord, data: VideoRecord) -> VideoRecord {
    VideoRecord { uuid: row.uuid, ..data }
}

/// The table of video records, oldest row first.
pub struct VideoDB {
    rows: Vec<Video>,
}

impl View for VideoDB {
    type V = Seq<VideoRecord>;

    closed spec fn view(&self) -> Seq<VideoRecord> {
        video_records(self.rows@)
    }
}

impl VideoDB {
    /// No two rows share a handle.
    pub open spec fn wf(&self) -> bool {
        distinct(handles(self@))
    }

    /// An empty table.
    pub fn new() -> (db: VideoDB)
        ensures
            db@ == Seq::<VideoRecord>::empty(),
            db.wf(),
    {
        VideoDB { rows: Vec::new() }
    }

    /// The position of the first row with a handle, or the number of rows.
    fn index_of_uuid(&self, uuid: &str) -> (at: usize)
        ensures
            at == position(handles(self@), uuid@),
            at <= self@.len(),
            self@.len() == self.rows@.len(),
    {
        table::index_of(&self.rows, uuid)
    }

    /// Adds a row that says what `video` says. A handle that is taken is
    /// turned down and changes nothing.
    pub fn add(&mut self, video: &Video) -> (added: Result<(), StoreError>)
        requires
            old(self).wf(),
        ensures
            final(self).wf(),
            handles(old(self)@).contains(video.uuid@) ==> added == Err::<(), StoreError>(
                StoreError::Conflict,
            ) && final(self)@ == old(self)@,
            !handles(old(self)@).contains(video.uuid@) ==> added.is_ok() && final(self)@ == old(
                self,
            )@.push(video@),
    {
        proof {
            assert(video@.handle() == video.uuid@);
        }
        table::insert(&mut self.rows, video.clone())
    }

    /// The row with a handle, if there is one.
    pub fn get_by_uuid(&self, uuid: &str) -> (found: Option<Video>)
        ensures
            found.is_some() == find_by_handle(self@, uuid@).is_some(),
            found.is_some() ==> found.unwrap()@ == find_by_handle(self@, uuid@).unwrap(),
    {
        table::find(&self.rows, uuid)
    }

    /// The rows whose time has run out by `now`, oldest first. A row that
    /// expires at 0 never does.
    pub fn get_expired_videos(&self, now: u64) -> (found: Vec<Video>)
        ensures
            video_records(found@) == self@.filter(expired_by(now)),
    {
        table::expired(&self.rows, now)
    }

    /// Deletes the row with the handle `uuid`. Without such a row nothing
    /// changes: deleting twice is deleting once.
    pub fn remove_by_uuid(&mut self, uuid: &str)
        requires
            old(self).wf(),
        ensures
            final(self).wf(),
            final(self)@ == old(self)@.filter(other_than(uuid@)),
    {
        table::remove(&mut self.rows, uuid)
    }

    /// Deletes the rows whose time has run out by `now`, and says where
    /// their files are, oldest row first. A row that expires at 0 never
    /// does.
    pub fn remove_expired(&mut self, now: u64) -> (artifacts: Vec<String>)
        requires
            old(self).wf(),
        ensures
            final(self).wf(),
            final(self)@ == old(self)@.filter(unexpired_by(now)),
            texts(artifacts@) == paths(old(self)@.filter(expired_by(now))),
    {
        table::remove_expired(&mut self.rows, now)
    }

    /// The storage path of every row, oldest first.
    pub fn get_paths(&self) -> (found: Vec<String>)
        ensures
            texts(found@) == paths(self@),
    {
        table::locations(&self.rows)
    }

    /// Overwrites the data of the row with the handle `uuid` by that of
    /// `video`; the row keeps its handle and its place. Without such a row
    /// nothing changes.
    pub fn update_data(&mut self, uuid: &str, video: &Video)
        requires
            old(self).wf(),
        ensures
            final(self).wf(),
            final(self)@ == if handles(old(self)@).contains(uuid@) {
                let at = position(handles(old(self)@), uuid@);
                old(self)@.update(at, overwritten(old(self)@[at], video@))
            } else {
                old(self)@
            },
    {
        let at = self.index_of_uuid(uuid);
        proof {
            lemma_position(handles(self@), uuid@);
        }
        if at < self.rows.len() {
            let mut row = video.clone();
            row.uuid = uuid.to_owned();
            proof {
                assert(row@.handle() == uuid@);
                assert(handles(self@)[at as int] == self.rows@[at as int]@.handle());
            }
            table::put(&mut self.rows, at, row);
        }
    }
}

/// Deleting the rows with some handles and then the row with one more is
/// deleting the rows with all of them.
pub proof fn lemma_delete_next(rows: Seq<VideoRecord>, done: Seq<Seq<char>>, uuid: Seq<char>)
    ensures
        rows.filter(not_among(done)).filter(other_than(uuid)) == rows.filter(
            not_among(done.push(uuid)),
        ),
{
    table::lemma_delete_next(rows, done, uuid);
}

/// Deleting no row changes nothing.
pub proof fn lemma_delete_none(rows: Seq<VideoRecord>)
    ensures
        rows.filter(not_among(Seq::<Seq<char>>::empty())) == rows,
{
    table::lemma_delete_none(rows);
}

/// In a table without a repeated handle, deleting the rows that have the
/// handle of an expired row leaves exactly the rows that have not expired.
pub proof fn lemma_delete_expired(rows: Seq<VideoRecord>, now: u64)
    requires
        distinct(handles(rows)),
    ensures
        rows.filter(not_among(handles(rows.filter(expired_by(now))))) == rows.filter(
            unexpired_by(now),
        ),
{
    table::lemma_delete_expired(rows, now);
}

} // verus!
