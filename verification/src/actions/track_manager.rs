//! Control of the track that a joined player plays.

use crate::ipc::{issued_request_id, issues, IPCData};
use crate::protocol::{fresh_request_id, is_request_id, opt_view};
use crate::session::PlayerObject;
use hearth_interconnect::errors::ErrorReport;
use hearth_interconnect::worker_communication::DWCActionType;
use vstd::prelude::*;

verus! {

/// Why a command of a joined player could not be issued or completed.
#[derive(Debug)]
pub enum TrackActionError {
    /// The guild has no player.
    UnknownSession,
    /// The player is not `Joined`.
    SessionNotJoined,
    /// The player already waits for a reply.
    ReplyPending,
    /// A metadata request was to be completed, but none is pending.
    NoMetadataPending,
    /// The wait for the metadata ended before any reply arrived.
    TimedOutWaitingForMetadataResult,
    /// The worker answered with an error report.
    RemoteError(ErrorReport),
    /// The reply on the route is not an answer to a metadata request.
    UnexpectedReply,
}

/// A command that needs no answer, with what it carries.
#[derive(Debug)]
pub enum TrackAction {
    /// Play the audio behind a direct link.
    PlayFromHttp(String),
    /// Play the audio of a YouTube page.
    PlayFromYoutube(String),
    /// Change the volume. The level is a fractional number, which this
    /// crate does not hold: the caller attaches it to the command.
    SetPlaybackVolume,
    /// Stop looping.
    ForceStopLoop,
    /// Loop until told otherwise.
    LoopIndefinitely,
    /// Loop this many times.
    LoopXTimes(usize),
    /// Move to this position, in milliseconds from the start.
    SeekToPosition(u64),
    /// Resume playback.
    ResumePlayback,
    /// Pause playback.
    PausePlayback,
}

impl TrackAction {
    /// The action type that the worker is sent.
    pub open spec fn action_type(self) -> DWCActionType {
        match self {
            TrackAction::PlayFromHttp(_) => DWCActionType::PlayDirectLink,
            TrackAction::PlayFromYoutube(_) => DWCActionType::PlayFromYoutube,
            TrackAction::SetPlaybackVolume => DWCActionType::SetPlaybackVolume,
            TrackAction::ForceStopLoop => DWCActionType::ForceStopLoop,
            TrackAction::LoopIndefinitely => DWCActionType::LoopForever,
            TrackAction::LoopXTimes(_) => DWCActionType::LoopXTimes,
            TrackAction::SeekToPosition(_) => DWCActionType::SeekToPosition,
            TrackAction::ResumePlayback => DWCActionType::ResumePlayback,
            TrackAction::PausePlayback => DWCActionType::PausePlayback,
        }
    }

    /// The address of the audio, for the two actions that start a track.
    pub open spec fn play_audio_url(self) -> Option<Seq<char>> {
        match self {
            TrackAction::PlayFromHttp(url) => Some(url@),
            TrackAction::PlayFromYoutube(url) => Some(url@),
            _ => None,
        }
    }

    /// The position to seek to, if the action is a seek.
    pub open spec fn seek_position(self) -> Option<u64> {
        match self {
            TrackAction::SeekToPosition(position) => Some(position),
            _ => None,
        }
    }

    /// The number of repetitions, if the action sets one.
    pub open spec fn loop_times(self) -> Option<usize> {
        match self {
            TrackAction::LoopXTimes(times) => Some(times),
            _ => None,
        }
    }

    /// Takes the action apart into what the command to the worker holds:
    /// the action type, the address of the audio, the position to seek to,
    /// and the number of repetitions.
    pub fn into_parts(self) -> (parts: (DWCActionType, Option<String>, Option<u64>, Option<usize>))
        ensures
            parts.0 == self.action_type(),
            opt_view(parts.1) == self.play_audio_url(),
            parts.2 == self.seek_position(),
            parts.3 == self.loop_times(),
    {
        match self {
            TrackAction::PlayFromHttp(url) => (DWCActionType::PlayDirectLink, Some(url), None, None),
            TrackAction::PlayFromYoutube(url) => (
                DWCActionType::PlayFromYoutube,
                Some(url),
                None,
                None,
            ),
            TrackAction::SetPlaybackVolume => (DWCActionType::SetPlaybackVolume, None, None, None),
            TrackAction::ForceStopLoop => (DWCActionType::ForceStopLoop, None, None, None),
            TrackAction::LoopIndefinitely => (DWCActionType::LoopForever, None, None, None),
            TrackAction::LoopXTimes(times) => (DWCActionType::LoopXTimes, None, None, Some(times)),
            TrackAction::SeekToPosition(position) => (
                DWCActionType::SeekToPosition,
                None,
                Some(position),
                None,
            ),
            TrackAction::ResumePlayback => (DWCActionType::ResumePlayback, None, None, None),
            TrackAction::PausePlayback => (DWCActionType::PausePlayback, None, None, None),
        }
    }
}

/// What can be done to a track once it plays: looping, seeking, pausing,
/// resuming, and asking what it is.
pub trait TrackManager {
    /// Changes the volume. The command carries no level: the caller attaches
    /// it before the command is sent.
    fn set_playback_volume(&self) -> Result<IPCData, TrackActionError>;

    /// Stops looping.
    fn force_stop_loop(&self) -> Result<IPCData, TrackActionError>;

    /// Loops until told otherwise.
    fn loop_indefinitely(&self) -> Result<IPCData, TrackActionError>;

    /// Loops `times` times.
    fn loop_x_times(&self, times: usize) -> Result<IPCData, TrackActionError>;

    /// Moves to `position`, in milliseconds from the start of the track.
    fn seek_to_position(&self, position: u64) -> Result<IPCData, TrackActionError>;

    /// Resumes playback.
    fn resume_playback(&self) -> Result<IPCData, TrackActionError>;

    /// Pauses playback.
    fn pause_playback(&self) -> Result<IPCData, TrackActionError>;

    /// Asks for the metadata of the current track; the answer is awaited.
    fn get_metadata(&mut self) -> Result<IPCData, TrackActionError>;
}

impl TrackManager for PlayerObject {
    /// As [`PlayerObject::track_command`], with a request id made here.
    fn set_playback_volume(&self) -> (r: Result<IPCData, TrackActionError>)
        ensures
            issues(r, self@.track_command(TrackAction::SetPlaybackVolume, issued_request_id(r))),
            r is Ok ==> is_request_id(issued_request_id(r)),
    {
        self.track_command(TrackAction::SetPlaybackVolume, fresh_request_id())
    }

    /// As [`PlayerObject::track_command`], with a request id made here.
    fn force_stop_loop(&self) -> (r: Result<IPCData, TrackActionError>)
        ensures
            issues(r, self@.track_command(TrackAction::ForceStopLoop, issued_request_id(r))),
            r is Ok ==> is_request_id(issued_request_id(r)),
    {
        self.track_command(TrackAction::ForceStopLoop, fresh_request_id())
    }

    /// As [`PlayerObject::track_command`], with a request id made here.
    fn loop_indefinitely(&self) -> (r: Result<IPCData, TrackActionError>)
        ensures
            issues(r, self@.track_command(TrackAction::LoopIndefinitely, issued_request_id(r))),
            r is Ok ==> is_request_id(issued_request_id(r)),
    {
        self.track_command(TrackAction::LoopIndefinitely, fresh_request_id())
    }

    /// As [`PlayerObject::track_command`], with a request id made here.
    fn loop_x_times(&self, times: usize) -> (r: Result<IPCData, TrackActionError>)
        ensures
            issues(r, self@.track_command(TrackAction::LoopXTimes(times), issued_request_id(r))),
            r is Ok ==> is_request_id(issued_request_id(r)),
    {
        self.track_command(TrackAction::LoopXTimes(times), fresh_request_id())
    }

    /// As [`PlayerObject::track_command`], with a request id made here.
    fn seek_to_position(&self, position: u64) -> (r: Result<IPCData, TrackActionError>)
        ensures
            issues(r, self@.track_command(TrackAction::SeekToPosition(position), issued_request_id(r))),
            r is Ok ==> is_request_id(issued_request_id(r)),
    {
        self.track_command(TrackAction::SeekToPosition(position), fresh_request_id())
    }

    /// As [`PlayerObject::track_command`], with a request id made here.
    fn resume_playback(&self) -> (r: Result<IPCData, TrackActionError>)
        ensures
            issues(r, self@.track_command(TrackAction::ResumePlayback, issued_request_id(r))),
            r is Ok ==> is_request_id(issued_request_id(r)),
    {
        self.track_command(TrackAction::ResumePlayback, fresh_request_id())
    }

    /// As [`PlayerObject::track_command`], with a request id made here.
    fn pause_playback(&self) -> (r: Result<IPCData, TrackActionError>)
        ensures
            issues(r, self@.track_command(TrackAction::PausePlayback, issued_request_id(r))),
            r is Ok ==> is_request_id(issued_request_id(r)),
    {
        self.track_command(TrackAction::PausePlayback, fresh_request_id())
    }

    /// As [`PlayerObject::request_metadata`], with a request id made here.
    fn get_metadata(&mut self) -> (r: Result<IPCData, TrackActionError>)
        ensures
            final(self)@ == old(self)@.request_metadata(issued_request_id(r)).0,
            issues(r, old(self)@.request_metadata(issued_request_id(r)).1),
            r is Ok ==> is_request_id(issued_request_id(r)),
    {
        self.request_metadata(fresh_request_id())
    }
}

} // verus!
