//! The values that travel between the callers, the background processor and
//! the eviction loop.

use crate::protocol::{outbound_view, OutboundView};
use hearth_interconnect::errors::ErrorReport;
use hearth_interconnect::messages::{Message, Metadata};
use vstd::prelude::*;

verus! {

/// A message that the background processor passes on as it came.
#[derive(Debug)]
pub struct FromBackgroundData {
    pub message: Message,
}

/// A command on its way to the workers.
#[derive(Debug)]
pub struct FromMainData {
    /// The message to publish.
    pub message: Message,
    /// Whether the issuing player waits for a reply, so that its reply
    /// route has to be opened before the message leaves.
    pub awaits_reply: bool,
    /// The guild whose player issued the command.
    pub guild_id: String,
}

/// Everything that crosses the boundary between foreground and background.
#[derive(Debug)]
pub enum IPCData {
    FromBackground(FromBackgroundData),
    FromMain(FromMainData),
    ErrorReport(ErrorReport),
    MetadataResult(Metadata),
}

/// What a command says: the view of its message, its guild, and whether a
/// reply is awaited.
pub struct CommandView {
    pub message: OutboundView,
    pub awaits_reply: bool,
    pub guild_id: Seq<char>,
}

/// The view of a well-formed command; `None` if `data` does not come from
/// the foreground or carries a message that clients do not send.
pub open spec fn command_view(data: IPCData) -> Option<CommandView> {
    match data {
        IPCData::FromMain(m) => match outbound_view(m.message) {
            Some(message) => Some(
                CommandView { message, awaits_reply: m.awaits_reply, guild_id: m.guild_id@ },
            ),
            None => None,
        },
        _ => None,
    }
}

/// Whether `result` carries the same error as `expected`, or a command
/// whose view is the one `expected` holds.
pub open spec fn issues<E>(result: Result<IPCData, E>, expected: Result<CommandView, E>) -> bool {
    match result {
        Ok(data) => expected is Ok && command_view(data) == Some(expected->Ok_0),
        Err(e) => expected == Err::<CommandView, E>(e),
    }
}

/// The request id that an issued command carries; the empty text where
/// `result` is an error or the command carries none.
pub open spec fn issued_request_id<E>(result: Result<IPCData, E>) -> Seq<char> {
    match result {
        Ok(data) => match command_view(data) {
            Some(CommandView { message: OutboundView::QueueJob(request), .. }) => request.request_id,
            Some(CommandView { message: OutboundView::Worker(command), .. }) => match command.request_id {
                Some(id) => id,
                None => Seq::empty(),
            },
            None => Seq::empty(),
        },
        Err(_) => Seq::empty(),
    }
}

impl IPCData {
    /// Wraps a command for the background processor.
    pub fn new_from_main(message: Message, awaits_reply: bool, guild_id: String) -> (data: IPCData)
        ensures
            data == IPCData::FromMain(FromMainData { message, awaits_reply, guild_id }),
    {
        IPCData::FromMain(FromMainData { message, awaits_reply, guild_id })
    }

    /// Wraps a message that the background processor passes on.
    pub fn new_from_background(message: Message) -> (data: IPCData)
        ensures
            data == IPCData::FromBackground(FromBackgroundData { message }),
    {
        IPCData::FromBackground(FromBackgroundData { message })
    }
}

} // verus!
