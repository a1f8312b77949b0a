//! The work done behind the requests: cleaning up after failed uploads and
//! sweeping out what has expired or lost its record.

use crate::db::file;
use crate::db::video;
use crate::lists::{lemma_contains_push, texts};
use crate::routes::upload::UploadStatus;
use crate::state::State;
use crate::utils::{
    byte_len, get_filename_from_path, listing, path_file_name, DirEntry, Listed,
};
use vstd::prelude::*;

verus! {

/// The handles of failed uploads whose traces are still to be removed,
/// in the order the failures were answered.
pub struct CleanupQueue {
    waiting: Vec<String>,
}

impl View for CleanupQueue {
    type V = Seq<Seq<char>>;

    closed spec fn view(&self) -> Seq<Seq<char>> {
        texts(self.waiting@)
    }
}

impl CleanupQueue {
    /// A queue in which nothing waits.
    pub fn new() -> (queue: CleanupQueue)
        ensures
            queue@ == Seq::<Seq<char>>::empty(),
    {
        CleanupQueue { waiting: Vec::new() }
    }

    /// Puts a handle at the end of the queue.
    pub fn enqueue(&mut self, uuid: String)
        ensures
            final(self)@ == old(self)@.push(uuid@),
    {
        let ghost before = self@;
        self.waiting.push(uuid);
        proof {
            assert(self@ == before.push(uuid@));
        }
    }

    /// Hands out everything that waits and leaves the queue empty.
    pub fn take_all(&mut self) -> (waiting: Vec<String>)
        ensures
            texts(waiting@) == old(self)@,
            final(self)@ == Seq::<Seq<char>>::empty(),
    {
        let mut waiting: Vec<String> = Vec::new();
        std::mem::swap(&mut waiting, &mut self.waiting);
        waiting
    }
}

/// The tracked uploads without those that have one of some handles.
pub open spec fn forgetting(
    sessions: Map<Seq<char>, UploadStatus>,
    uuids: Seq<Seq<char>>,
) -> Map<Seq<char>, UploadStatus> {
    Map::new(
        |uuid: Seq<char>| sessions.contains_key(uuid) && !uuids.contains(uuid),
        |uuid: Seq<char>| sessions[uuid],
    )
}

/// Cleans up after the failed uploads that wait in the queue: each is
/// tracked no longer, and its record is deleted. Nothing waits afterwards.
/// The answer names the handles that were cleaned up after, in the order
/// they waited.
pub fn run_cleanups(state: &mut State) -> (cleaned: Vec<String>)
    requires
        old(state).wf(),
    ensures
        final(state).wf(),
        final(state).same_surroundings(*old(state)),
        final(state).cleanup@ == Seq::<Seq<char>>::empty(),
        final(state).upload_status@ == forgetting(old(state).upload_status@, old(state).cleanup@),
        final(state).file_db@ == old(state).file_db@.filter(file::not_among(old(state).cleanup@)),
        texts(cleaned@) == old(state).cleanup@,
{
    let waiting = state.cleanup.take_all();
    let ghost rows = state.file_db@;
    let ghost sessions = state.upload_status@;
    let ghost uuids = texts(waiting@);
    let mut at: usize = 0;
    proof {
        file::lemma_delete_none(rows);
        assert(uuids.take(0) == Seq::<Seq<char>>::empty());
        assert(state.upload_status@ == forgetting(sessions, uuids.take(0)));
    }
    while at < waiting.len()
        invariant
            state.wf(),
            state.same_surroundings(*old(state)),
            state.cleanup@ == Seq::<Seq<char>>::empty(),
            uuids == texts(waiting@),
            at <= waiting@.len(),
            state.upload_status@ == forgetting(sessions, uuids.take(at as int)),
            state.file_db@ == rows.filter(file::not_among(uuids.take(at as int))),
        decreases waiting@.len() - at,
    {
        let uuid = waiting[at].as_str();
        let ghost done = uuids.take(at as int);
        state.remove_upload_status(uuid);
        state.file_db.remove_by_uuid(uuid);
        proof {
            assert(done.push(uuid@) == uuids.take(at + 1));
            file::lemma_delete_next(rows, done, uuid@);
            assert forall|key: Seq<char>| #[trigger]
                done.push(uuid@).contains(key) <==> done.contains(key) || key == uuid@ by {
                lemma_contains_push(done, uuid@, key);
            }
            assert(state.upload_status@ == forgetting(sessions, done.push(uuid@)));
        }
        at = at + 1;
    }
    proof {
        assert(uuids.take(at as int) == uuids);
    }
    waiting
}

/// The longest file name, in bytes, that the sweep deletes. A longer name
/// is taken for a working file of the video tool and left alone.
pub const MAX_SWEPT_NAME_LEN: usize = 54;

/// The file name of a listed entry; empty where its path has none.
pub open spec fn entry_name(entry: Listed) -> Seq<char> {
    match path_file_name(entry.path) {
        Some(name) => name,
        None => Seq::empty(),
    }
}

/// Whether a file name is that of one of some paths.
pub open spec fn referenced(paths: Seq<Seq<char>>, name: Seq<char>) -> bool {
    exists|i: int| 0 <= i < paths.len() && path_file_name(#[trigger] paths[i]) == Some(name)
}

/// Whether the sweep deletes a listed entry, given the paths that records
/// know: it is a file, its name is short enough, and no record path has
/// that name.
pub open spec fn orphaned(paths: Seq<Seq<char>>, entry: Listed) -> bool {
    &&& entry.is_file
    &&& byte_len(entry_name(entry)) <= MAX_SWEPT_NAME_LEN
    &&& !referenced(paths, entry_name(entry))
}

/// The test "the sweep deletes it".
pub open spec fn orphaned_among(paths: Seq<Seq<char>>) -> spec_fn(Listed) -> bool {
    |entry: Listed| orphaned(paths, entry)
}

/// The paths that the sweep deletes from a listing, in the order of the
/// listing.
pub open spec fn orphans(paths: Seq<Seq<char>>, entries: Seq<Listed>) -> Seq<Seq<char>> {
    entries.filter(orphaned_among(paths)).map_values(|entry: Listed| entry.path)
}

/// A name is that of one of some paths and one more exactly if it is the
/// name of that one or of one of the others.
proof fn lemma_referenced_push(paths: Seq<Seq<char>>, last: Seq<char>, name: Seq<char>)
    ensures
        referenced(paths.push(last), name) <==> referenced(paths, name) || path_file_name(last)
            == Some(name),
{
    let longer = paths.push(last);
    if referenced(paths, name) {
        let i = choose|i: int|
            0 <= i < paths.len() && path_file_name(#[trigger] paths[i]) == Some(name);
        assert(longer[i] == paths[i]);
    }
    if path_file_name(last) == Some(name) {
        assert(longer[paths.len() as int] == last);
    }
    if referenced(longer, name) {
        let i = choose|i: int|
            0 <= i < longer.len() && path_file_name(#[trigger] longer[i]) == Some(name);
        if i < paths.len() {
            assert(paths[i] == longer[i]);
        }
    }
}

/// The file names of some paths. A path without a file name gives none.
fn file_names(paths: &Vec<String>) -> (names: Vec<String>)
    ensures
        forall|name: Seq<char>| #[trigger]
            texts(names@).contains(name) <==> referenced(texts(paths@), name),
{
    let mut names: Vec<String> = Vec::new();
    let mut at: usize = 0;
    let ghost all = texts(paths@);
    while at < paths.len()
        invariant
            at <= paths@.len(),
            all == texts(paths@),
            forall|name: Seq<char>| #[trigger]
                texts(names@).contains(name) <==> referenced(all.take(at as int), name),
        decreases paths@.len() - at,
    {
        let ghost before = texts(names@);
        let ghost seen = all.take(at as int);
        let found = get_filename_from_path(paths[at].as_str());
        match found {
            Some(name) => {
                names.push(name);
                proof {
                    assert(texts(names@) == before.push(name@));
                }
            },
            None => {},
        }
        proof {
            assert(all.take(at + 1) == seen.push(all[at as int]));
            assert forall|name: Seq<char>| #[trigger]
                texts(names@).contains(name) <==> referenced(all.take(at + 1), name) by {
                lemma_referenced_push(seen, all[at as int], name);
                if found is Some {
                    lemma_contains_push(before, found.unwrap()@, name);
                }
            }
        }
        at = at + 1;
    }
    proof {
        assert(all.take(at as int) == all);
    }
    names
}

/// Whether a list of names holds a name.
fn is_listed(names: &Vec<String>, name: &str) -> (listed: bool)
    ensures
        listed == texts(names@).contains(name@),
{
    let key = name.to_owned();
    let mut at: usize = 0;
    while at < names.len() && names[at] != key
        invariant
            at <= names@.len(),
            key@ == name@,
            forall|j: int| 0 <= j < at ==> texts(names@)[j] != name@,
        decreases names@.len() - at,
    {
        at = at + 1;
    }
    proof {
        if at < names.len() {
            assert(texts(names@)[at as int] == name@);
        }
    }
    at < names.len()
}

/// Picks from a directory listing what no record accounts for: every file
/// whose name is not that of a record path, unless the name is longer than
/// [`MAX_SWEPT_NAME_LEN`] bytes. The paths come out in the order of the
/// listing.
pub fn find_orphans(paths: &Vec<String>, entries: &Vec<DirEntry>) -> (doomed: Vec<String>)
    ensures
        texts(doomed@) == orphans(texts(paths@), listing(entries@)),
{
    let names = file_names(paths);
    let mut doomed: Vec<String> = Vec::new();
    let mut at: usize = 0;
    let ghost known = texts(paths@);
    let ghost listed = listing(entries@);
    let ghost path_of = |entry: Listed| entry.path;
    proof {
        reveal(Seq::filter);
        assert(listed.take(0) == Seq::<Listed>::empty());
        assert(texts(doomed@) == Seq::<Listed>::empty().map_values(path_of));
    }
    while at < entries.len()
        invariant
            at <= entries@.len(),
            known == texts(paths@),
            listed == listing(entries@),
            path_of == |entry: Listed| entry.path,
            forall|name: Seq<char>| #[trigger]
                texts(names@).contains(name) <==> referenced(known, name),
            texts(doomed@) == listed.take(at as int).filter(orphaned_among(known)).map_values(
                path_of,
            ),
        decreases entries@.len() - at,
    {
        let entry = &entries[at];
        let ghost kept = listed.take(at as int).filter(orphaned_among(known));
        proof {
            reveal(Seq::filter);
            assert(listed.take(at + 1).drop_last() == listed.take(at as int));
            assert(listed.take(at + 1).last() == entry@);
        }
        let mut orphan = false;
        if entry.is_file {
            let name = match get_filename_from_path(entry.path.as_str()) {
                Some(name) => name,
                None => String::new(),
            };
            assert(name@ == entry_name(entry@));
            if name.as_str().as_bytes().len() <= MAX_SWEPT_NAME_LEN {
                orphan = !is_listed(&names, name.as_str());
            }
        }
        assert(orphan == orphaned(known, entry@));
        if orphan {
            let ghost before = texts(doomed@);
            doomed.push(entry.path.clone());
            proof {
                assert(texts(doomed@) == before.push(entry.path@));
                assert(kept.push(entry@).map_values(path_of) == kept.map_values(path_of).push(
                    entry.path@,
                ));
            }
        }
        at = at + 1;
    }
    proof {
        assert(listed.take(at as int) == listed);
    }
    doomed
}

/// Puts some texts behind others.
fn append_all(texts_so_far: &mut Vec<String>, more: &Vec<String>)
    ensures
        texts(final(texts_so_far)@) == texts(old(texts_so_far)@) + texts(more@),
{
    let ghost first = texts(texts_so_far@);
    let mut at: usize = 0;
    while at < more.len()
        invariant
            at <= more@.len(),
            texts(texts_so_far@) == first + texts(more@).take(at as int),
        decreases more@.len() - at,
    {
        let ghost before = texts(texts_so_far@);
        texts_so_far.push(more[at].clone());
        proof {
            assert(texts(texts_so_far@) == before.push(more@[at as int]@));
            assert(texts(more@).take(at + 1) == texts(more@).take(at as int).push(
                more@[at as int]@,
            ));
        }
        at = at + 1;
    }
    proof {
        assert(texts(more@).take(at as int) == texts(more@));
    }
}

/// The paths where the files of expired records are: of the file records
/// first, then of the videos, each in the order of its table.
pub open spec fn expired_artifacts(
    files: Seq<file::Record>,
    videos: Seq<video::VideoRecord>,
    now: u64,
) -> Seq<Seq<char>> {
    file::paths(files.filter(file::expired_by(now))) + video::paths(
        videos.filter(video::expired_by(now)),
    )
}

/// The first half of a sweep at the time `now`: every record that has
/// expired is deleted, of files and of videos alike, and the answer names
/// the files of those records, which are to be deleted with them. A
/// record that expires at 0 never has. Uploads in flight are not touched.
pub fn remove_expired(state: &mut State, now: u64) -> (artifacts: Vec<String>)
    requires
        old(state).wf(),
    ensures
        final(state).wf(),
        final(state).user_db == old(state).user_db,
        final(state).config == old(state).config,
        final(state).config_path == old(state).config_path,
        final(state).upload_status == old(state).upload_status,
        final(state).cleanup == old(state).cleanup,
        final(state).file_db@ == old(state).file_db@.filter(file::unexpired_by(now)),
        final(state).video_db@ == old(state).video_db@.filter(video::unexpired_by(now)),
        texts(artifacts@) == expired_artifacts(old(state).file_db@, old(state).video_db@, now),
{
    let mut artifacts = state.file_db.remove_expired(now);
    let more = state.video_db.remove_expired(now);
    append_all(&mut artifacts, &more);
    artifacts
}

/// The second half of a sweep, over a listing of the upload directory: the
/// answer names the files in it that no record accounts for, which are the
/// orphans of [`find_orphans`] for the paths of all records, of files and
/// of videos. Nothing changes.
pub fn reconcile(state: &State, entries: &Vec<DirEntry>) -> (doomed: Vec<String>)
    ensures
        texts(doomed@) == orphans(
            file::paths(state.file_db@) + video::paths(state.video_db@),
            listing(entries@),
        ),
{
    let mut paths = state.file_db.get_paths();
    let video_paths = state.video_db.get_paths();
    append_all(&mut paths, &video_paths);
    find_orphans(&paths, entries)
}

/// What a sweep leaves to be deleted from disk.
pub struct Sweep {
    /// The files of the records that the sweep deleted.
    pub expired: Vec<String>,
    /// The files of the listing that no record accounts for.
    pub orphans: Vec<String>,
}

/// One sweep at the time `now`, over a listing of the upload directory.
///
/// First every record that has expired is deleted, as [`remove_expired`]
/// says. Then the listing is held against the records that are left, as
/// [`reconcile`] says. A file of a deleted record that the listing still
/// holds is named on both counts, unless its name is too long for an
/// orphan or another record has it too.
pub fn iteration(state: &mut State, now: u64, entries: &Vec<DirEntry>) -> (sweep: Sweep)
    requires
        old(state).wf(),
    ensures
        final(state).wf(),
        final(state).user_db == old(state).user_db,
        final(state).config == old(state).config,
        final(state).config_path == old(state).config_path,
        final(state).upload_status == old(state).upload_status,
        final(state).cleanup == old(state).cleanup,
        final(state).file_db@ == old(state).file_db@.filter(file::unexpired_by(now)),
        final(state).video_db@ == old(state).video_db@.filter(video::unexpired_by(now)),
        texts(sweep.expired@) == expired_artifacts(
            old(state).file_db@,
            old(state).video_db@,
            now,
        ),
        texts(sweep.orphans@) == orphans(
            file::paths(final(state).file_db@) + video::paths(final(state).video_db@),
            listing(entries@),
        ),
{
    let expired = remove_expired(state, now);
    let orphans = reconcile(state, entries);
    Sweep { expired, orphans }
}

/// The file of a record that has expired is among the files that a sweep
/// deletes, wherever it lies and whatever it is called.
pub proof fn lemma_sweep_deletes_expired_files(
    files: Seq<file::Record>,
    videos: Seq<video::VideoRecord>,
    now: u64,
    at: int,
)
    requires
        0 <= at < files.len(),
        file::is_expired(files[at], now),
    ensures
        expired_artifacts(files, videos, now).contains(files[at].path),
{
    let lost = files.filter(file::expired_by(now));
    files.lemma_filter_contains(file::expired_by(now), at);
    let j = choose|j: int| 0 <= j < lost.len() && lost[j] == files[at];
    let artifacts = expired_artifacts(files, videos, now);
    assert(artifacts[j] == file::paths(lost)[j]);
}

/// What a sweep deletes from a listing is exactly what is orphaned in it.
/// So a file with a short name that no record has is deleted; and whatever
/// is deleted is a file whose name no record has and which is no longer
/// than [`MAX_SWEPT_NAME_LEN`] bytes, so that a file with a longer name
/// stays, with or without a record.
pub proof fn lemma_sweep_deletes_orphans(paths: Seq<Seq<char>>, entries: Seq<Listed>)
    ensures
        forall|i: int|
            0 <= i < entries.len() && orphaned(paths, #[trigger] entries[i]) ==> orphans(
                paths,
                entries,
            ).contains(entries[i].path),
        forall|path: Seq<char>| #[trigger]
            orphans(paths, entries).contains(path) ==> exists|i: int|
                0 <= i < entries.len() && (#[trigger] entries[i]).path == path && orphaned(
                    paths,
                    entries[i],
                ),
{
    let picked = entries.filter(orphaned_among(paths));
    let doomed = orphans(paths, entries);
    assert forall|i: int| 0 <= i < entries.len() && orphaned(
        paths,
        #[trigger] entries[i],
    ) implies doomed.contains(entries[i].path) by {
        entries.lemma_filter_contains(orphaned_among(paths), i);
        let j = choose|j: int| 0 <= j < picked.len() && picked[j] == entries[i];
        assert(doomed[j] == entries[i].path);
    }
    assert forall|path: Seq<char>| #[trigger] doomed.contains(path) implies exists|i: int|
        0 <= i < entries.len() && (#[trigger] entries[i]).path == path && orphaned(
            paths,
            entries[i],
        ) by {
        let j = choose|j: int| 0 <= j < doomed.len() && doomed[j] == path;
        entries.lemma_filter_pred(orphaned_among(paths), j);
        assert(picked.contains(picked[j]));
        entries.lemma_filter_contains_rev(orphaned_among(paths), picked[j]);
        let i = choose|i: int| 0 <= i < entries.len() && entries[i] == picked[j];
        assert(entries[i].path == path && orphaned(paths, entries[i]));
    }
}

/// The files that a sweep names with the records it deletes are files of
/// records that have expired, and of no others: behind each of them stands
/// a file record or a video record with that path whose time has run out.
pub proof fn lemma_only_expired_files_are_named(
    files: Seq<file::Record>,
    videos: Seq<video::VideoRecord>,
    now: u64,
    path: Seq<char>,
)
    requires
        expired_artifacts(files, videos, now).contains(path),
    ensures
        (exists|i: int|
            0 <= i < files.len() && (#[trigger] files[i]).path == path && file::is_expired(
                files[i],
                now,
            )) || (exists|j: int|
            0 <= j < videos.len() && (#[trigger] videos[j]).path == path && video::is_expired(
                videos[j],
                now,
            )),
{
    let lost_files = files.filter(file::expired_by(now));
    let lost_videos = videos.filter(video::expired_by(now));
    let artifacts = expired_artifacts(files, videos, now);
    let k = choose|k: int| 0 <= k < artifacts.len() && artifacts[k] == path;
    if k < lost_files.len() {
        assert(artifacts[k] == file::paths(lost_files)[k]);
        files.lemma_filter_pred(file::expired_by(now), k);
        assert(lost_files.contains(lost_files[k]));
        files.lemma_filter_contains_rev(file::expired_by(now), lost_files[k]);
        let i = choose|i: int| 0 <= i < files.len() && files[i] == lost_files[k];
        assert(files[i].path == path && file::is_expired(files[i], now));
    } else {
        let m = k - lost_files.len();
        assert(artifacts[k] == video::paths(lost_videos)[m]);
        videos.lemma_filter_pred(video::expired_by(now), m);
        assert(lost_videos.contains(lost_videos[m]));
        videos.lemma_filter_contains_rev(video::expired_by(now), lost_videos[m]);
        let j = choose|j: int| 0 <= j < videos.len() && videos[j] == lost_videos[m];
        assert(videos[j].path == path && video::is_expired(videos[j], now));
    }
}

/// The file of a record that a sweep leaves is no orphan: whatever the
/// listing holds under the file name of that record's path, the sweep does
/// not name it among the orphans.
pub proof fn lemma_kept_record_keeps_its_file(
    files: Seq<file::Record>,
    videos: Seq<video::VideoRecord>,
    now: u64,
    entries: Seq<Listed>,
    at: int,
    entry: int,
)
    requires
        0 <= at < files.len(),
        !file::is_expired(files[at], now),
        0 <= entry < entries.len(),
        path_file_name(files[at].path) is Some,
        path_file_name(entries[entry].path) == path_file_name(files[at].path),
    ensures
        !orphaned(
            file::paths(files.filter(file::unexpired_by(now))) + video::paths(
                videos.filter(video::unexpired_by(now)),
            ),
            entries[entry],
        ),
{
    let kept = files.filter(file::unexpired_by(now));
    let known = file::paths(kept) + video::paths(videos.filter(video::unexpired_by(now)));
    files.lemma_filter_contains(file::unexpired_by(now), at);
    let j = choose|j: int| 0 <= j < kept.len() && kept[j] == files[at];
    assert(known[j] == file::paths(kept)[j]);
    assert(path_file_name(known[j]) == Some(entry_name(entries[entry])));
}

} // verus!
