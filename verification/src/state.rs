//! Everything the service knows while it runs, in one place: the tables,
//! the settings and the uploads in flight.

use crate::background_worker::CleanupQueue;
use crate::config::Config;
use crate::db::file::FileDB;
use crate::db::user::UserDB;
use crate::db::video::VideoDB;
use crate::routes::upload::{UploadStatus, UploadStatusMap};
use vstd::prelude::*;

verus! {

pub struct State {
    pub file_db: FileDB,
    pub user_db: UserDB,
    pub video_db: VideoDB,
    pub config: Config,
    pub config_path: String,
    pub upload_status: UploadStatusMap,
    pub cleanup: CleanupQueue,
}

impl State {
    /// Every table is well formed.
    pub open spec fn wf(&self) -> bool {
        self.file_db.wf() && self.user_db.wf() && self.video_db.wf()
    }

    /// Whether this state differs from `before` at most in the file
    /// records, the uploads in flight and the cleanups that wait.
    pub open spec fn same_surroundings(&self, before: State) -> bool {
        &&& self.user_db == before.user_db
        &&& self.video_db == before.video_db
        &&& self.config == before.config
        &&& self.config_path == before.config_path
    }

    /// The state of a service that starts with the given settings: empty
    /// tables, no upload in flight, no cleanup waiting.
    pub fn new(config: Config, config_path: String) -> (state: State)
        ensures
            state.wf(),
            state.file_db@.len() == 0,
            state.user_db@.len() == 0,
            state.video_db@.len() == 0,
            state.upload_status@ == Map::<Seq<char>, UploadStatus>::empty(),
            state.cleanup@.len() == 0,
            state.config == config,
            state.config_path == config_path,
    {
        State {
            file_db: FileDB::new(),
            user_db: UserDB::new(),
            video_db: VideoDB::new(),
            config,
            config_path,
            upload_status: UploadStatusMap::new(),
            cleanup: CleanupQueue::new(),
        }
    }

    /// Stops tracking the upload with a handle.
    pub fn remove_upload_status(&mut self, uuid: &str)
        ensures
            final(self).upload_status@ == old(self).upload_status@.remove(uuid@),
            final(self).file_db == old(self).file_db,
            final(self).cleanup == old(self).cleanup,
            final(self).same_surroundings(*old(self)),
    {
        self.upload_status.remove(uuid);
    }
}

} // verus!
