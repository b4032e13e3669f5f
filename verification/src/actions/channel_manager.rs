//! Joining and leaving a voice channel.

use crate::actions::track_manager::TrackActionError;
use crate::ipc::{issued_request_id, issues, IPCData};
use crate::protocol::{fresh_request_id, is_request_id};
use crate::session::PlayerObject;
use hearth_interconnect::errors::ErrorReport;
use vstd::prelude::*;

verus! {

/// Why a player could not be created or could not join.
#[derive(Debug)]
pub enum CreateJobError {
    /// The guild already has a player.
    DuplicateSession,
    /// The guild has no player.
    UnknownSession,
    /// A join was asked of a player that is not `Unjoined`.
    AlreadyJoining,
    /// A join was to be completed, but none is pending.
    NoJoinPending,
    /// The wait for the job ended before any reply arrived.
    TimedOutWaitingForJob,
    /// The worker answered the join with an error report.
    RemoteError(ErrorReport),
    /// The reply on the route is not an answer to a join.
    UnexpectedReply,
}

/// Joining a voice channel and leaving it again.
pub trait ChannelManager {
    /// Asks to join a voice channel. The command that comes back requests a
    /// job; the answer to it is awaited.
    fn join_channel(&mut self, voice_channel_id: String) -> Result<IPCData, CreateJobError>;

    /// Asks to leave the channel. Nothing is awaited.
    fn exit_channel(&mut self) -> Result<IPCData, TrackActionError>;
}

impl ChannelManager for PlayerObject {
    /// As [`PlayerObject::request_join`], with a request id made here.
    fn join_channel(&mut self, voice_channel_id: String) -> (r: Result<IPCData, CreateJobError>)
        ensures
            final(self)@ == old(self)@.request_join(voice_channel_id@, issued_request_id(r)).0,
            issues(r, old(self)@.request_join(voice_channel_id@, issued_request_id(r)).1),
            r is Ok ==> is_request_id(issued_request_id(r)),
    {
        self.request_join(voice_channel_id, fresh_request_id())
    }

    /// As [`PlayerObject::request_exit`].
    fn exit_channel(&mut self) -> (r: Result<IPCData, TrackActionError>)
        ensures
            final(self)@ == old(self)@.request_exit().0,
            issues(r, old(self)@.request_exit().1),
    {
        self.request_exit()
    }
}

} // verus!
