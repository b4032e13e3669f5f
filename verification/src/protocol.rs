//! The messages exchanged with the workers, their encoding, and request ids.
//!
//! The message types are those of `hearth_interconnect`; this module makes
//! them known to the verifier, gives the outgoing ones a mathematical view,
//! and wraps the three outside functions the crate relies on.

use hearth_interconnect::errors::ErrorReport;
use hearth_interconnect::messages::{
    Analytics, ExternalQueueJobResponse, JobExpired, JobRequest, Message, Metadata,
    PingPongResponse, ShutdownAlert,
};
use hearth_interconnect::worker_communication::{DWCActionType, DirectWorkerCommunication, Job};
use vstd::prelude::*;

verus! {

// The types of `hearth_interconnect` that this crate builds and takes apart.
// Each declaration hands the verifier the type as the outside crate defines
// it, variants and public fields included; nothing is claimed beyond that.
// `Analytics` has private fields and is declared without its contents: it is
// only carried along inside a `Message`.

#[verifier::external_type_specification]
pub struct ExErrorReport(ErrorReport);

#[verifier::external_type_specification]
pub struct ExExternalQueueJobResponse(ExternalQueueJobResponse);

#[verifier::external_type_specification]
pub struct ExMetadata(Metadata);

#[verifier::external_type_specification]
pub struct ExJobExpired(JobExpired);

#[verifier::external_type_specification]
pub struct ExShutdownAlert(ShutdownAlert);

#[verifier::external_type_specification]
pub struct ExJobRequest(JobRequest);

#[verifier::external_type_specification]
pub struct ExPingPongResponse(PingPongResponse);

#[verifier::external_type_specification]
pub struct ExJob(Job);

#[verifier::external_type_specification]
#[verifier::external_body]
pub struct ExAnalytics(Analytics);

#[verifier::external_type_specification]
pub struct ExDWCActionType(DWCActionType);

#[verifier::external_type_specification]
pub struct ExDirectWorkerCommunication(DirectWorkerCommunication);

#[verifier::external_type_specification]
pub struct ExMessage(Message);

/// The characters of an optional string.
pub open spec fn opt_view(o: Option<String>) -> Option<Seq<char>> {
    match o {
        Some(s) => Some(s@),
        None => None,
    }
}

/// The characters of each string of a list, in order.
pub open spec fn strings_view(v: Seq<String>) -> Seq<Seq<char>> {
    Seq::new(v.len(), |i: int| v[i]@)
}

/// What a request for a job says.
pub struct JobRequestView {
    pub request_id: Seq<char>,
    pub guild_id: Seq<char>,
}

/// What a command to a worker says. `has_volume` tells whether a volume
/// level is attached; the level itself is a fractional number and is not
/// modelled.
pub struct WorkerCommandView {
    pub job_id: Seq<char>,
    pub guild_id: Seq<char>,
    pub voice_channel_id: Option<Seq<char>>,
    pub play_audio_url: Option<Seq<char>>,
    pub action_type: DWCActionType,
    pub request_id: Option<Seq<char>>,
    pub has_volume: bool,
    pub seek_position: Option<u64>,
    pub loop_times: Option<usize>,
    pub worker_id: Seq<char>,
}

/// The two kinds of message a client sends.
pub enum OutboundView {
    QueueJob(JobRequestView),
    Worker(WorkerCommandView),
}

/// The view of a message that a client may send; `None` for every other
/// message.
pub open spec fn outbound_view(message: Message) -> Option<OutboundView> {
    match message {
        Message::ExternalQueueJob(j) => Some(
            OutboundView::QueueJob(
                JobRequestView { request_id: j.request_id@, guild_id: j.guild_id@ },
            ),
        ),
        Message::DirectWorkerCommunication(d) => Some(
            OutboundView::Worker(
                WorkerCommandView {
                    job_id: d.job_id@,
                    guild_id: d.guild_id@,
                    voice_channel_id: opt_view(d.voice_channel_id),
                    play_audio_url: opt_view(d.play_audio_url),
                    action_type: d.action_type,
                    request_id: opt_view(d.request_id),
                    has_volume: d.new_volume is Some,
                    seek_position: d.seek_position,
                    loop_times: d.loop_times,
                    worker_id: d.worker_id@,
                },
            ),
        ),
        _ => None,
    }
}

/// The message that `serde_json::from_slice` reads from a payload, or `None`
/// where it reports an error.
pub uninterp spec fn decoded(payload: Seq<u8>) -> Option<Message>;

/// Calls `serde_json::from_slice` for a `Message`. The contract only names
/// the outcome: the same bytes always decode to the same message, and an
/// error of the parser becomes `None`.
#[verifier::external_body]
pub(crate) fn decode_message(payload: &[u8]) -> (r: Option<Message>)
    ensures
        r == decoded(payload@),
{
    serde_json::from_slice(payload).ok()
}

/// The JSON text that `serde_json::to_string` writes for a message, or
/// `None` where it reports an error.
pub uninterp spec fn encoded(message: Message) -> Option<Seq<char>>;

/// Calls `serde_json::to_string` on a `Message`. The contract only names the
/// outcome: the text is a function of the message, and an error of the
/// serializer becomes `None`.
#[verifier::external_body]
pub(crate) fn encode_message(message: &Message) -> (r: Option<String>)
    ensures
        opt_view(r) == encoded(*message),
{
    serde_json::to_string(message).ok()
}

/// One of the 64 characters that are safe in a URL: `_`, `-`, a digit or an
/// ASCII letter.
pub open spec fn is_url_safe(c: char) -> bool {
    ||| c == '_'
    ||| c == '-'
    ||| '0' <= c <= '9'
    ||| 'a' <= c <= 'z'
    ||| 'A' <= c <= 'Z'
}

/// The shape of a new request id: 21 URL-safe characters.
pub open spec fn is_request_id(id: Seq<char>) -> bool {
    &&& id.len() == 21
    &&& forall|i: int| 0 <= i < id.len() ==> is_url_safe(#[trigger] id[i])
}

/// Calls `nanoid::format` with the crate's default random source, its
/// `SAFE` alphabet and length 21, which is what `nanoid!()` expands to. The
/// id is random; the contract states only its shape, which holds of every
/// outcome: `format` pushes one character of the alphabet per random byte.
/// The random source panics if the operating system has no random bytes to
/// give.
#[verifier::external_body]
pub(crate) fn fresh_request_id() -> (id: String)
    ensures
        is_request_id(id@),
{
    nanoid::format(nanoid::rngs::default, &nanoid::alphabet::SAFE, 21)
}

/// A new request id: 21 random URL-safe characters.
pub fn new_request_id() -> (id: String)
    ensures
        is_request_id(id@),
{
    fresh_request_id()
}

} // verus!
