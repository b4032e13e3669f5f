//! Starting playback.

use crate::actions::track_manager::{TrackAction, TrackActionError};
use crate::ipc::{issued_request_id, issues, IPCData};
use crate::protocol::{fresh_request_id, is_request_id};
use crate::session::PlayerObject;
use vstd::prelude::*;

verus! {

/// Starting the playback of a track.
pub trait Player {
    /// Plays the audio behind a direct link.
    fn play_from_http(&self, url: String) -> Result<IPCData, TrackActionError>;

    /// Plays the audio of a YouTube page.
    fn play_from_youtube(&self, url: String) -> Result<IPCData, TrackActionError>;
}

impl Player for PlayerObject {
    /// As [`PlayerObject::track_command`], with a request id made here.
    fn play_from_http(&self, url: String) -> (r: Result<IPCData, TrackActionError>)
        ensures
            issues(r, self@.track_command(TrackAction::PlayFromHttp(url), issued_request_id(r))),
            r is Ok ==> is_request_id(issued_request_id(r)),
    {
        self.track_command(TrackAction::PlayFromHttp(url), fresh_request_id())
    }

    /// As [`PlayerObject::track_command`], with a request id made here.
    fn play_from_youtube(&self, url: String) -> (r: Result<IPCData, TrackActionError>)
        ensures
            issues(r, self@.track_command(TrackAction::PlayFromYoutube(url), issued_request_id(r))),
            r is Ok ==> is_request_id(issued_request_id(r)),
    {
        self.track_command(TrackAction::PlayFromYoutube(url), fresh_request_id())
    }
}

} // verus!
