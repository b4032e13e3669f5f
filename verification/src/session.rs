//! The player of one guild: its phase, the ids its worker gave it, and the
//! single route on which an awaited reply reaches it.
//!
//! [`PlayerView`] is the mathematical model. Every method of
//! [`PlayerObject`] states its effect as the model function of the same
//! name.

use crate::actions::channel_manager::CreateJobError;
use crate::actions::track_manager::{TrackAction, TrackActionError};
use crate::ipc::{command_view, issues, CommandView, FromBackgroundData, IPCData};
use crate::protocol::{opt_view, JobRequestView, OutboundView, WorkerCommandView};
use hearth_interconnect::messages::{JobRequest, Message, Metadata};
use hearth_interconnect::worker_communication::{DWCActionType, DirectWorkerCommunication};
use vstd::prelude::*;

verus! {

/// Where a player stands in its life.
#[derive(Clone, Copy, Debug, PartialEq, Eq, Structural)]
pub enum Phase {
    /// Created, no join asked yet.
    Unjoined,
    /// A job was requested; the answer is awaited.
    Joining,
    /// A worker runs the job; track commands are accepted.
    Joined,
    /// The player asked to leave. Nothing more is accepted.
    Exiting,
}

/// The request whose reply a player waits for.
#[derive(Clone, Copy, Debug, PartialEq, Eq, Structural)]
pub enum Awaited {
    Join,
    Metadata,
}

/// The state of a player's reply route.
pub enum ReplyRoute {
    /// Not registered with the background processor: replies are dropped.
    Closed,
    /// Registered and empty: the next reply is taken.
    Open,
    /// Holds a reply that the player has not consumed yet.
    Filled(IPCData),
}

/// What became of a reply handed to a player.
#[derive(Clone, Copy, Debug, PartialEq, Eq, Structural)]
pub enum Delivery {
    /// The route was open and now holds the reply.
    Delivered,
    /// The route was closed; the reply is dropped.
    NoRoute,
    /// The route already held a reply; the new one is dropped.
    RouteFilled,
}

/// The model of a player.
pub struct PlayerView {
    pub guild_id: Seq<char>,
    pub worker_id: Option<Seq<char>>,
    pub job_id: Option<Seq<char>>,
    pub voice_channel_id: Option<Seq<char>>,
    pub phase: Phase,
    pub awaiting: Option<Awaited>,
    pub reply_route: ReplyRoute,
}

impl PlayerView {
    /// A player as it is created.
    pub open spec fn fresh(guild_id: Seq<char>) -> PlayerView {
        PlayerView {
            guild_id,
            worker_id: None,
            job_id: None,
            voice_channel_id: None,
            phase: Phase::Unjoined,
            awaiting: None,
            reply_route: ReplyRoute::Closed,
        }
    }

    /// What holds of every player: the ids are bound exactly while
    /// `Joined`, a voice channel is known exactly while `Joining` or
    /// `Joined`, and a join is awaited exactly while `Joining`.
    pub open spec fn wf(self) -> bool {
        match self.phase {
            Phase::Unjoined => {
                &&& self.worker_id is None
                &&& self.job_id is None
                &&& self.voice_channel_id is None
                &&& self.awaiting is None
            },
            Phase::Joining => {
                &&& self.worker_id is None
                &&& self.job_id is None
                &&& self.voice_channel_id is Some
                &&& self.awaiting == Some(Awaited::Join)
            },
            Phase::Joined => {
                &&& self.worker_id is Some
                &&& self.job_id is Some
                &&& self.voice_channel_id is Some
                &&& self.awaiting != Some(Awaited::Join)
            },
            Phase::Exiting => {
                &&& self.worker_id is None
                &&& self.job_id is None
                &&& self.voice_channel_id is None
                &&& self.awaiting != Some(Awaited::Join)
            },
        }
    }

    /// The request for a job that starts a join.
    pub open spec fn job_request(self, request_id: Seq<char>) -> CommandView {
        CommandView {
            message: OutboundView::QueueJob(
                JobRequestView { request_id, guild_id: self.guild_id },
            ),
            awaits_reply: true,
            guild_id: self.guild_id,
        }
    }

    /// A command to this player's worker. Meaningful once the ids are bound.
    pub open spec fn worker_command(
        self,
        action_type: DWCActionType,
        request_id: Option<Seq<char>>,
        voice_channel_id: Option<Seq<char>>,
        play_audio_url: Option<Seq<char>>,
        seek_position: Option<u64>,
        loop_times: Option<usize>,
        awaits_reply: bool,
    ) -> CommandView
        recommends
            self.job_id is Some,
            self.worker_id is Some,
    {
        CommandView {
            message: OutboundView::Worker(
                WorkerCommandView {
                    job_id: self.job_id->0,
                    guild_id: self.guild_id,
                    voice_channel_id,
                    play_audio_url,
                    action_type,
                    request_id,
                    has_volume: false,
                    seek_position,
                    loop_times,
                    worker_id: self.worker_id->0,
                },
            ),
            awaits_reply,
            guild_id: self.guild_id,
        }
    }

    /// Asking to join: accepted only while `Unjoined`. The player then is
    /// `Joining`, remembers the channel, waits on a fresh route, and issues
    /// a request for a job.
    pub open spec fn request_join(self, voice_channel_id: Seq<char>, request_id: Seq<char>) -> (
        PlayerView,
        Result<CommandView, CreateJobError>,
    ) {
        if self.phase == Phase::Unjoined {
            (
                PlayerView {
                    voice_channel_id: Some(voice_channel_id),
                    phase: Phase::Joining,
                    awaiting: Some(Awaited::Join),
                    reply_route: ReplyRoute::Closed,
                    ..self
                },
                Ok(self.job_request(request_id)),
            )
        } else {
            (self, Err(CreateJobError::AlreadyJoining))
        }
    }

    /// The player once a worker has granted it a job.
    pub open spec fn joined(self, worker_id: Seq<char>, job_id: Seq<char>) -> PlayerView {
        PlayerView {
            worker_id: Some(worker_id),
            job_id: Some(job_id),
            phase: Phase::Joined,
            awaiting: None,
            reply_route: ReplyRoute::Closed,
            ..self
        }
    }

    /// The end of the wait for a job. A granted job binds the ids, makes the
    /// player `Joined` and issues the command that sends the worker into
    /// the channel. An error report, a reply of another kind, or no reply at
    /// all (the wait timed out) send the player back to `Unjoined`. In each
    /// case the route is released.
    pub open spec fn complete_join(self) -> (PlayerView, Result<CommandView, CreateJobError>) {
        if self.awaiting != Some(Awaited::Join) {
            (self, Err(CreateJobError::NoJoinPending))
        } else {
            match self.reply_route {
                ReplyRoute::Filled(
                    IPCData::FromBackground(
                        FromBackgroundData { message: Message::ExternalQueueJobResponse(r) },
                    ),
                ) => {
                    let joined = self.joined(r.worker_id@, r.job_id@);
                    (
                        joined,
                        Ok(
                            joined.worker_command(
                                DWCActionType::JoinChannel,
                                None,
                                self.voice_channel_id,
                                None,
                                None,
                                None,
                                false,
                            ),
                        ),
                    )
                },
                ReplyRoute::Filled(IPCData::ErrorReport(e)) => (
                    PlayerView::fresh(self.guild_id),
                    Err(CreateJobError::RemoteError(e)),
                ),
                ReplyRoute::Filled(_) => (
                    PlayerView::fresh(self.guild_id),
                    Err(CreateJobError::UnexpectedReply),
                ),
                _ => (PlayerView::fresh(self.guild_id), Err(CreateJobError::TimedOutWaitingForJob)),
            }
        }
    }

    /// A command that needs no answer: accepted only while `Joined`, and
    /// without any change to the player.
    pub open spec fn track_command(self, action: TrackAction, request_id: Seq<char>) -> Result<
        CommandView,
        TrackActionError,
    > {
        if self.phase == Phase::Joined {
            Ok(
                self.worker_command(
                    action.action_type(),
                    Some(request_id),
                    None,
                    action.play_audio_url(),
                    action.seek_position(),
                    action.loop_times(),
                    false,
                ),
            )
        } else {
            Err(TrackActionError::SessionNotJoined)
        }
    }

    /// Asking for the metadata of the current track: accepted only while
    /// `Joined` and while no other reply is awaited. The player then waits
    /// on a fresh route.
    pub open spec fn request_metadata(self, request_id: Seq<char>) -> (
        PlayerView,
        Result<CommandView, TrackActionError>,
    ) {
        if self.phase != Phase::Joined {
            (self, Err(TrackActionError::SessionNotJoined))
        } else if self.awaiting is Some {
            (self, Err(TrackActionError::ReplyPending))
        } else {
            (
                PlayerView {
                    awaiting: Some(Awaited::Metadata),
                    reply_route: ReplyRoute::Closed,
                    ..self
                },
                Ok(
                    self.worker_command(
                        DWCActionType::GetMetaData,
                        Some(request_id),
                        None,
                        None,
                        None,
                        None,
                        true,
                    ),
                ),
            )
        }
    }

    /// The end of the wait for metadata: the reply on the route decides the
    /// result, no reply means that the wait timed out, and in each case the
    /// route is released and nothing is awaited any more.
    pub open spec fn complete_metadata(self) -> (PlayerView, Result<Metadata, TrackActionError>) {
        if self.awaiting != Some(Awaited::Metadata) {
            (self, Err(TrackActionError::NoMetadataPending))
        } else {
            (
                PlayerView { awaiting: None, reply_route: ReplyRoute::Closed, ..self },
                match self.reply_route {
                    ReplyRoute::Filled(IPCData::MetadataResult(m)) => Ok(m),
                    ReplyRoute::Filled(IPCData::ErrorReport(e)) => Err(
                        TrackActionError::RemoteError(e),
                    ),
                    ReplyRoute::Filled(_) => Err(TrackActionError::UnexpectedReply),
                    _ => Err(TrackActionError::TimedOutWaitingForMetadataResult),
                },
            )
        }
    }

    /// Asking to leave: accepted only while `Joined`. The player then is
    /// `Exiting`, forgets its ids and its channel, and issues the command
    /// that takes the worker out of the channel; no reply is awaited. A
    /// wait for metadata that was under way goes on.
    pub open spec fn request_exit(self) -> (PlayerView, Result<CommandView, TrackActionError>) {
        if self.phase == Phase::Joined {
            (
                PlayerView {
                    worker_id: None,
                    job_id: None,
                    voice_channel_id: None,
                    phase: Phase::Exiting,
                    ..self
                },
                Ok(
                    self.worker_command(
                        DWCActionType::LeaveChannel,
                        None,
                        None,
                        None,
                        None,
                        None,
                        false,
                    ),
                ),
            )
        } else {
            (self, Err(TrackActionError::SessionNotJoined))
        }
    }

    /// Registering the route with the background processor: the route is
    /// open and empty afterwards, whatever it held.
    pub open spec fn open_route(self) -> PlayerView {
        PlayerView { reply_route: ReplyRoute::Open, ..self }
    }

    /// A reply arrives: an open route takes it, any other route drops it.
    pub open spec fn deliver(self, reply: IPCData) -> (PlayerView, Delivery) {
        match self.reply_route {
            ReplyRoute::Open => (
                PlayerView { reply_route: ReplyRoute::Filled(reply), ..self },
                Delivery::Delivered,
            ),
            ReplyRoute::Closed => (self, Delivery::NoRoute),
            ReplyRoute::Filled(_) => (self, Delivery::RouteFilled),
        }
    }
}

/// Whatever is done to a well-formed player leaves it well formed.
pub proof fn lemma_transitions_keep_wf(
    player: PlayerView,
    voice_channel_id: Seq<char>,
    request_id: Seq<char>,
    reply: IPCData,
)
    requires
        player.wf(),
    ensures
        PlayerView::fresh(player.guild_id).wf(),
        player.request_join(voice_channel_id, request_id).0.wf(),
        player.complete_join().0.wf(),
        player.request_metadata(request_id).0.wf(),
        player.complete_metadata().0.wf(),
        player.request_exit().0.wf(),
        player.open_route().wf(),
        player.deliver(reply).0.wf(),
{
}

/// A player waits for at most one reply: while it waits, it refuses every
/// request that would need a reply of its own.
pub proof fn lemma_one_awaited_reply(
    player: PlayerView,
    voice_channel_id: Seq<char>,
    request_id: Seq<char>,
)
    requires
        player.wf(),
        player.awaiting is Some,
    ensures
        player.request_join(voice_channel_id, request_id) == (
            player,
            Err::<CommandView, CreateJobError>(CreateJobError::AlreadyJoining),
        ),
        player.request_metadata(request_id).0 == player,
        player.request_metadata(request_id).1 is Err,
{
}

/// The caller that waits gets the reply that was delivered, and the route
/// is free for the next request: after a delivery onto an open route, the
/// end of the wait hands out that reply and leaves the route closed.
pub proof fn lemma_delivered_reply_is_consumed(player: PlayerView, reply: IPCData)
    requires
        player.wf(),
        player.reply_route is Open,
    ensures
        player.deliver(reply).1 == Delivery::Delivered,
        player.awaiting == Some(Awaited::Metadata) && reply is MetadataResult
            ==> player.deliver(reply).0.complete_metadata().1 == Ok::<Metadata, TrackActionError>(
            reply->MetadataResult_0,
        ),
        player.awaiting == Some(Awaited::Metadata) ==> player.deliver(
            reply,
        ).0.complete_metadata().0.reply_route == ReplyRoute::Closed,
        player.awaiting == Some(Awaited::Join) ==> player.deliver(
            reply,
        ).0.complete_join().0.reply_route == ReplyRoute::Closed,
        reply matches IPCData::FromBackground(
            FromBackgroundData { message: Message::ExternalQueueJobResponse(granted) },
        ) ==> (player.awaiting == Some(Awaited::Join) ==> player.deliver(
            reply,
        ).0.complete_join().0 == player.joined(granted.worker_id@, granted.job_id@)),
{
}

/// What a player holds in each phase.
enum Stage {
    Unjoined,
    Joining { voice_channel_id: String },
    Joined { voice_channel_id: String, worker_id: String, job_id: String, awaits_metadata: bool },
    Exiting { awaits_metadata: bool },
}

impl Stage {
    spec fn phase(self) -> Phase {
        match self {
            Stage::Unjoined => Phase::Unjoined,
            Stage::Joining { .. } => Phase::Joining,
            Stage::Joined { .. } => Phase::Joined,
            Stage::Exiting { .. } => Phase::Exiting,
        }
    }

    spec fn voice_channel_id(self) -> Option<Seq<char>> {
        match self {
            Stage::Unjoined => None,
            Stage::Joining { voice_channel_id } => Some(voice_channel_id@),
            Stage::Joined { voice_channel_id, .. } => Some(voice_channel_id@),
            Stage::Exiting { .. } => None,
        }
    }

    spec fn worker_id(self) -> Option<Seq<char>> {
        match self {
            Stage::Joined { worker_id, .. } => Some(worker_id@),
            _ => None,
        }
    }

    spec fn job_id(self) -> Option<Seq<char>> {
        match self {
            Stage::Joined { job_id, .. } => Some(job_id@),
            _ => None,
        }
    }

    spec fn awaiting(self) -> Option<Awaited> {
        match self {
            Stage::Unjoined => None,
            Stage::Joining { .. } => Some(Awaited::Join),
            Stage::Joined { awaits_metadata, .. } => if awaits_metadata {
                Some(Awaited::Metadata)
            } else {
                None
            },
            Stage::Exiting { awaits_metadata, .. } => if awaits_metadata {
                Some(Awaited::Metadata)
            } else {
                None
            },
        }
    }
}

/// The player of one guild.
pub struct PlayerObject {
    guild_id: String,
    stage: Stage,
    route_open: bool,
    reply: Option<IPCData>,
}

impl View for PlayerObject {
    type V = PlayerView;

    closed spec fn view(&self) -> PlayerView {
        PlayerView {
            guild_id: self.guild_id@,
            worker_id: self.stage.worker_id(),
            job_id: self.stage.job_id(),
            voice_channel_id: self.stage.voice_channel_id(),
            phase: self.stage.phase(),
            awaiting: self.stage.awaiting(),
            reply_route: match self.reply {
                Some(reply) => ReplyRoute::Filled(reply),
                None => if self.route_open {
                    ReplyRoute::Open
                } else {
                    ReplyRoute::Closed
                },
            },
        }
    }
}

/// The optional string behind an optional reference.
pub open spec fn opt_ref_view(o: Option<&String>) -> Option<Seq<char>> {
    match o {
        Some(s) => Some(s@),
        None => None,
    }
}

impl PlayerObject {
    /// Every player is well formed, whatever was done to it.
    pub proof fn lemma_wf(self)
        ensures
            self@.wf(),
    {
    }

    /// Creates the player of `guild_id`: `Unjoined`, with no ids and a
    /// closed route. This never fails.
    pub fn new(guild_id: String) -> (r: Result<PlayerObject, CreateJobError>)
        ensures
            r matches Ok(player) && player@ == PlayerView::fresh(guild_id@),
    {
        Ok(PlayerObject { guild_id, stage: Stage::Unjoined, route_open: false, reply: None })
    }

    /// The guild this player belongs to.
    pub fn guild_id(&self) -> (r: &String)
        ensures
            r@ == self@.guild_id,
    {
        &self.guild_id
    }

    /// The worker that runs this player's job, once joined.
    pub fn worker_id(&self) -> (r: Option<&String>)
        ensures
            opt_ref_view(r) == self@.worker_id,
    {
        match &self.stage {
            Stage::Joined { worker_id, .. } => Some(worker_id),
            _ => None,
        }
    }

    /// The job that the worker runs for this player, once joined.
    pub fn job_id(&self) -> (r: Option<&String>)
        ensures
            opt_ref_view(r) == self@.job_id,
    {
        match &self.stage {
            Stage::Joined { job_id, .. } => Some(job_id),
            _ => None,
        }
    }

    /// The voice channel this player joins or has joined.
    pub fn voice_channel_id(&self) -> (r: Option<&String>)
        ensures
            opt_ref_view(r) == self@.voice_channel_id,
    {
        match &self.stage {
            Stage::Unjoined => None,
            Stage::Joining { voice_channel_id } => Some(voice_channel_id),
            Stage::Joined { voice_channel_id, .. } => Some(voice_channel_id),
            Stage::Exiting { .. } => None,
        }
    }

    /// The phase of this player.
    pub fn phase(&self) -> (r: Phase)
        ensures
            r == self@.phase,
    {
        match &self.stage {
            Stage::Unjoined => Phase::Unjoined,
            Stage::Joining { .. } => Phase::Joining,
            Stage::Joined { .. } => Phase::Joined,
            Stage::Exiting { .. } => Phase::Exiting,
        }
    }

    /// The request whose reply this player waits for, if any.
    pub fn awaiting(&self) -> (r: Option<Awaited>)
        ensures
            r == self@.awaiting,
    {
        match &self.stage {
            Stage::Unjoined => None,
            Stage::Joining { .. } => Some(Awaited::Join),
            Stage::Joined { awaits_metadata, .. } => if *awaits_metadata {
                Some(Awaited::Metadata)
            } else {
                None
            },
            Stage::Exiting { awaits_metadata, .. } => if *awaits_metadata {
                Some(Awaited::Metadata)
            } else {
                None
            },
        }
    }

    /// Whether a reply lies on the route.
    pub fn has_reply(&self) -> (r: bool)
        ensures
            r == (self@.reply_route is Filled),
    {
        self.reply.is_some()
    }

    /// Whether the route is registered with the background processor and
    /// still empty.
    pub fn route_is_open(&self) -> (r: bool)
        ensures
            r == (self@.reply_route is Open),
    {
        self.reply.is_none() && self.route_open
    }

    /// The command for `action_type` to the worker of a joined player.
    fn worker_command(
        &self,
        worker_id: &String,
        job_id: &String,
        action_type: DWCActionType,
        request_id: Option<String>,
        voice_channel_id: Option<String>,
        play_audio_url: Option<String>,
        seek_position: Option<u64>,
        loop_times: Option<usize>,
        awaits_reply: bool,
    ) -> (data: IPCData)
        requires
            self@.job_id == Some(job_id@),
            self@.worker_id == Some(worker_id@),
        ensures
            command_view(data) == Some(
                self@.worker_command(
                    action_type,
                    opt_view(request_id),
                    opt_view(voice_channel_id),
                    opt_view(play_audio_url),
                    seek_position,
                    loop_times,
                    awaits_reply,
                ),
            ),
    {
        let message = Message::DirectWorkerCommunication(
            DirectWorkerCommunication {
                job_id: job_id.clone(),
                guild_id: self.guild_id.clone(),
                voice_channel_id,
                play_audio_url,
                action_type,
                request_id,
                new_volume: None,
                seek_position,
                loop_times,
                worker_id: worker_id.clone(),
            },
        );
        IPCData::new_from_main(message, awaits_reply, self.guild_id.clone())
    }

    /// Asks to join `voice_channel_id`, with `request_id` as the id of the
    /// request for a job.
    pub fn request_join(&mut self, voice_channel_id: String, request_id: String) -> (r: Result<
        IPCData,
        CreateJobError,
    >)
        ensures
            final(self)@ == old(self)@.request_join(voice_channel_id@, request_id@).0,
            issues(r, old(self)@.request_join(voice_channel_id@, request_id@).1),
    {
        match &self.stage {
            Stage::Unjoined => {
                let message = Message::ExternalQueueJob(
                    JobRequest { request_id, guild_id: self.guild_id.clone() },
                );
                let command = IPCData::new_from_main(message, true, self.guild_id.clone());
                self.stage = Stage::Joining { voice_channel_id };
                self.route_open = false;
                self.reply = None;
                Ok(command)
            },
            _ => Err(CreateJobError::AlreadyJoining),
        }
    }

    /// Sends the player back to where it was created.
    fn reset(&mut self)
        ensures
            final(self)@ == PlayerView::fresh(old(self)@.guild_id),
    {
        self.stage = Stage::Unjoined;
        self.route_open = false;
        self.reply = None;
    }

    /// Ends the wait for a job: call it when a reply was delivered or when
    /// the caller gave up waiting.
    pub fn complete_join(&mut self) -> (r: Result<IPCData, CreateJobError>)
        ensures
            final(self)@ == old(self)@.complete_join().0,
            issues(r, old(self)@.complete_join().1),
    {
        let voice_channel_id = match &self.stage {
            Stage::Joining { voice_channel_id } => voice_channel_id.clone(),
            _ => {
                return Err(CreateJobError::NoJoinPending);
            },
        };
        let reply = self.reply.take();
        match reply {
            Some(
                IPCData::FromBackground(
                    FromBackgroundData { message: Message::ExternalQueueJobResponse(granted) },
                ),
            ) => {
                self.stage = Stage::Joined {
                    voice_channel_id: voice_channel_id.clone(),
                    worker_id: granted.worker_id.clone(),
                    job_id: granted.job_id.clone(),
                    awaits_metadata: false,
                };
                self.route_open = false;
                Ok(
                    self.worker_command(
                        &granted.worker_id,
                        &granted.job_id,
                        DWCActionType::JoinChannel,
                        None,
                        Some(voice_channel_id),
                        None,
                        None,
                        None,
                        false,
                    ),
                )
            },
            Some(IPCData::ErrorReport(report)) => {
                self.reset();
                Err(CreateJobError::RemoteError(report))
            },
            Some(_) => {
                self.reset();
                Err(CreateJobError::UnexpectedReply)
            },
            None => {
                self.reset();
                Err(CreateJobError::TimedOutWaitingForJob)
            },
        }
    }

    /// Builds the command for `action`, with `request_id` as its id.
    pub fn track_command(&self, action: TrackAction, request_id: String) -> (r: Result<
        IPCData,
        TrackActionError,
    >)
        ensures
            issues(r, self@.track_command(action, request_id@)),
    {
        let (worker_id, job_id) = match &self.stage {
            Stage::Joined { worker_id, job_id, .. } => (worker_id, job_id),
            _ => {
                return Err(TrackActionError::SessionNotJoined);
            },
        };
        let (action_type, play_audio_url, seek_position, loop_times) = action.into_parts();
        let command = self.worker_command(
            worker_id,
            job_id,
            action_type,
            Some(request_id),
            None,
            play_audio_url,
            seek_position,
            loop_times,
            false,
        );
        Ok(command)
    }

    /// Asks for the metadata of the current track, with `request_id` as the
    /// id of the request.
    pub fn request_metadata(&mut self, request_id: String) -> (r: Result<IPCData, TrackActionError>)
        ensures
            final(self)@ == old(self)@.request_metadata(request_id@).0,
            issues(r, old(self)@.request_metadata(request_id@).1),
    {
        let (voice_channel_id, worker_id, job_id) = match &self.stage {
            Stage::Joined { voice_channel_id, worker_id, job_id, awaits_metadata } => {
                if *awaits_metadata {
                    return Err(TrackActionError::ReplyPending);
                }
                (voice_channel_id.clone(), worker_id.clone(), job_id.clone())
            },
            _ => {
                return Err(TrackActionError::SessionNotJoined);
            },
        };
        let command = self.worker_command(
            &worker_id,
            &job_id,
            DWCActionType::GetMetaData,
            Some(request_id),
            None,
            None,
            None,
            None,
            true,
        );
        self.stage = Stage::Joined { voice_channel_id, worker_id, job_id, awaits_metadata: true };
        self.route_open = false;
        self.reply = None;
        Ok(command)
    }

    /// Ends the wait for metadata: call it when a reply was delivered or
    /// when the caller gave up waiting.
    pub fn complete_metadata(&mut self) -> (r: Result<Metadata, TrackActionError>)
        ensures
            final(self)@ == old(self)@.complete_metadata().0,
            r == old(self)@.complete_metadata().1,
    {
        let stage = match &self.stage {
            Stage::Joined { voice_channel_id, worker_id, job_id, awaits_metadata } => {
                if !*awaits_metadata {
                    return Err(TrackActionError::NoMetadataPending);
                }
                Stage::Joined {
                    voice_channel_id: voice_channel_id.clone(),
                    worker_id: worker_id.clone(),
                    job_id: job_id.clone(),
                    awaits_metadata: false,
                }
            },
            Stage::Exiting { awaits_metadata } => {
                if !*awaits_metadata {
                    return Err(TrackActionError::NoMetadataPending);
                }
                Stage::Exiting { awaits_metadata: false }
            },
            _ => {
                return Err(TrackActionError::NoMetadataPending);
            },
        };
        let reply = self.reply.take();
        self.stage = stage;
        self.route_open = false;
        match reply {
            Some(IPCData::MetadataResult(metadata)) => Ok(metadata),
            Some(IPCData::ErrorReport(report)) => Err(TrackActionError::RemoteError(report)),
            Some(_) => Err(TrackActionError::UnexpectedReply),
            None => Err(TrackActionError::TimedOutWaitingForMetadataResult),
        }
    }

    /// Asks to leave the channel.
    pub fn request_exit(&mut self) -> (r: Result<IPCData, TrackActionError>)
        ensures
            final(self)@ == old(self)@.request_exit().0,
            issues(r, old(self)@.request_exit().1),
    {
        let (command, awaits_metadata) = match &self.stage {
            Stage::Joined { worker_id, job_id, awaits_metadata, .. } => (
                self.leave_command(worker_id, job_id),
                *awaits_metadata,
            ),
            _ => {
                return Err(TrackActionError::SessionNotJoined);
            },
        };
        self.stage = Stage::Exiting { awaits_metadata };
        Ok(command)
    }

    /// The command that takes the worker out of the channel.
    fn leave_command(&self, worker_id: &String, job_id: &String) -> (data: IPCData)
        requires
            self@.job_id == Some(job_id@),
            self@.worker_id == Some(worker_id@),
        ensures
            command_view(data) == Some(
                self@.worker_command(
                    DWCActionType::LeaveChannel,
                    None,
                    None,
                    None,
                    None,
                    None,
                    false,
                ),
            ),
    {
        self.worker_command(
            worker_id,
            job_id,
            DWCActionType::LeaveChannel,
            None,
            None,
            None,
            None,
            None,
            false,
        )
    }

    /// Registers the route with the background processor. Tells whether a
    /// reply that nobody consumed was thrown away.
    pub fn open_route(&mut self) -> (overwritten: bool)
        ensures
            final(self)@ == old(self)@.open_route(),
            overwritten == (old(self)@.reply_route is Filled),
    {
        let overwritten = self.reply.is_some();
        self.reply = None;
        self.route_open = true;
        overwritten
    }

    /// Hands a reply to the player.
    pub fn deliver(&mut self, reply: IPCData) -> (r: Delivery)
        ensures
            final(self)@ == old(self)@.deliver(reply).0,
            r == old(self)@.deliver(reply).1,
    {
        if self.reply.is_some() {
            Delivery::RouteFilled
        } else if self.route_open {
            self.reply = Some(reply);
            Delivery::Delivered
        } else {
            Delivery::NoRoute
        }
    }
}

} // verus!
