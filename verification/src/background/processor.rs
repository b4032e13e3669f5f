//! What the background processor decides: where a message from the bus
//! goes, and what leaves for the bus.
//!
//! The processor itself is a loop around a bus connection and lives with
//! the caller. Per round it hands each payload it polled to
//! [`process_payload`] and the commands that queued up to
//! [`drain_commands`], then publishes what came back, in that order.

use crate::ipc::{FromBackgroundData, IPCData};
use crate::protocol::{decode_message, decoded, encode_message, encoded};
use crate::registry::{deliver, open_route, Charcoal, Players};
use crate::session::{Delivery, ReplyRoute};
use crate::CharcoalConfig;
use hearth_interconnect::messages::Message;
use vstd::prelude::*;

verus! {

/// What became of a message from the bus.
#[derive(Clone, Copy, Debug, PartialEq, Eq, Structural)]
pub enum Routing {
    /// A reply went onto the route of its guild's player.
    Delivered,
    /// A lifecycle event was queued for the eviction loop.
    Queued,
    /// A reply was dropped: its guild has no player.
    NoSession,
    /// A reply was dropped: the route of its guild's player is closed.
    NoRoute,
    /// A reply was dropped: the route of its guild's player holds a reply
    /// that was not consumed yet.
    RouteFilled,
    /// The message is none that a client acts on.
    Ignored,
    /// The payload is no message at all.
    Malformed,
}

/// The guild that a reply is for, together with the form in which the reply
/// reaches the player; `None` for a message that is no reply.
pub open spec fn reply_of(message: Message) -> Option<(Seq<char>, IPCData)> {
    match message {
        Message::ErrorReport(report) => Some((report.guild_id@, IPCData::ErrorReport(report))),
        Message::ExternalQueueJobResponse(granted) => Some(
            (granted.guild_id@, IPCData::FromBackground(FromBackgroundData { message })),
        ),
        Message::ExternalMetadataResult(metadata) => Some(
            (metadata.guild_id@, IPCData::MetadataResult(metadata)),
        ),
        _ => None,
    }
}

/// Whether a message tells that players have lost their worker.
pub open spec fn is_lifecycle_event(message: Message) -> bool {
    message is ExternalJobExpired || message is WorkerShutdownAlert
}

/// How the outcome of a delivery is reported.
pub open spec fn routing_of(delivery: Option<Delivery>) -> Routing {
    match delivery {
        Some(Delivery::Delivered) => Routing::Delivered,
        Some(Delivery::NoRoute) => Routing::NoRoute,
        Some(Delivery::RouteFilled) => Routing::RouteFilled,
        None => Routing::NoSession,
    }
}

/// The routing of one message: the registry and the queue of lifecycle
/// events afterwards, and what became of the message. A reply is handed to
/// the player of its guild, and never touches the queue; a lifecycle event
/// is appended to the queue, and never touches the registry; anything
/// else is ignored.
pub open spec fn route(players: Players, events: Seq<IPCData>, message: Message) -> (
    Players,
    Seq<IPCData>,
    Routing,
) {
    match reply_of(message) {
        Some((guild_id, reply)) => {
            let (after, delivery) = deliver(players, guild_id, reply);
            (after, events, routing_of(delivery))
        },
        None => if is_lifecycle_event(message) {
            (
                players,
                events.push(IPCData::FromBackground(FromBackgroundData { message })),
                Routing::Queued,
            )
        } else {
            (players, events, Routing::Ignored)
        },
    }
}

/// The routing of one payload: that of the message it decodes to, and
/// nothing but the report `Malformed` where it decodes to none.
pub open spec fn route_payload(players: Players, events: Seq<IPCData>, payload: Seq<u8>) -> (
    Players,
    Seq<IPCData>,
    Routing,
) {
    match decoded(payload) {
        Some(message) => route(players, events, message),
        None => (players, events, Routing::Malformed),
    }
}

/// Something to publish on the bus.
#[derive(Debug)]
pub struct Publication {
    pub topic: String,
    pub payload: String,
}

/// The model of a [`Publication`].
pub struct PublicationView {
    pub topic: Seq<char>,
    pub payload: Seq<char>,
}

impl View for Publication {
    type V = PublicationView;

    open spec fn view(&self) -> PublicationView {
        PublicationView { topic: self.topic@, payload: self.payload@ }
    }
}

/// The models of a list of publications, in order.
pub open spec fn publications_view(publications: Seq<Publication>) -> Seq<PublicationView> {
    Seq::new(publications.len(), |i: int| publications[i]@)
}

/// What is published for a message on `topic`: its encoding, if it has one.
pub open spec fn publication(message: Message, topic: Seq<char>) -> Option<PublicationView> {
    match encoded(message) {
        Some(payload) => Some(PublicationView { topic, payload }),
        None => None,
    }
}

/// What is published for an item of the outbound queue: the message of a
/// command, and nothing for an item that is no command.
pub open spec fn command_publication(command: IPCData, topic: Seq<char>) -> Option<
    PublicationView,
> {
    match command {
        IPCData::FromMain(data) => publication(data.message, topic),
        _ => None,
    }
}

/// The registry after an item of the outbound queue was taken up: a command
/// that awaits a reply has the route of its guild registered, whether or
/// not the command can then be published.
pub open spec fn command_route(players: Players, command: IPCData) -> Players {
    match command {
        IPCData::FromMain(data) => if data.awaits_reply {
            open_route(players, data.guild_id@)
        } else {
            players
        },
        _ => players,
    }
}

/// What is published for a queue of commands: the publication of each
/// command that has one, in the order of the queue.
pub open spec fn publications(commands: Seq<IPCData>, topic: Seq<char>) -> Seq<PublicationView>
    decreases commands.len(),
{
    if commands.len() == 0 {
        Seq::empty()
    } else {
        let earlier = publications(commands.drop_last(), topic);
        match command_publication(commands.last(), topic) {
            Some(publication) => earlier.push(publication),
            None => earlier,
        }
    }
}

/// The registry after a queue of commands was taken up, one command after
/// the other.
pub open spec fn routes_after(players: Players, commands: Seq<IPCData>) -> Players
    decreases commands.len(),
{
    if commands.len() == 0 {
        players
    } else {
        command_route(routes_after(players, commands.drop_last()), commands.last())
    }
}

fn routing(delivery: Option<Delivery>) -> (r: Routing)
    ensures
        r == routing_of(delivery),
{
    match delivery {
        Some(Delivery::Delivered) => Routing::Delivered,
        Some(Delivery::NoRoute) => Routing::NoRoute,
        Some(Delivery::RouteFilled) => Routing::RouteFilled,
        None => Routing::NoSession,
    }
}

/// Routes one message from the bus: a reply goes to the player of its
/// guild, if the registry has one and its route is open; a lifecycle event
/// goes to the back of `from_bg`, the queue of the eviction loop; anything
/// else is ignored.
pub fn parse_message(message: Message, players: &mut Charcoal, from_bg: &mut Vec<IPCData>) -> (r:
    Routing)
    ensures
        (final(players)@, final(from_bg)@, r) == route(old(players)@, old(from_bg)@, message),
{
    match message {
        Message::ErrorReport(report) => {
            let guild_id = report.guild_id.clone();
            routing(players.deliver(&guild_id, IPCData::ErrorReport(report)))
        },
        Message::ExternalQueueJobResponse(granted) => {
            let guild_id = granted.guild_id.clone();
            let reply = IPCData::new_from_background(Message::ExternalQueueJobResponse(granted));
            routing(players.deliver(&guild_id, reply))
        },
        Message::ExternalMetadataResult(metadata) => {
            let guild_id = metadata.guild_id.clone();
            routing(players.deliver(&guild_id, IPCData::MetadataResult(metadata)))
        },
        Message::ExternalJobExpired(expired) => {
            from_bg.push(IPCData::new_from_background(Message::ExternalJobExpired(expired)));
            Routing::Queued
        },
        Message::WorkerShutdownAlert(alert) => {
            from_bg.push(IPCData::new_from_background(Message::WorkerShutdownAlert(alert)));
            Routing::Queued
        },
        _ => Routing::Ignored,
    }
}

/// Decodes one payload from the bus and routes the message. A payload that
/// does not decode changes nothing and is reported as `Malformed`.
pub fn process_payload(payload: &[u8], players: &mut Charcoal, from_bg: &mut Vec<IPCData>) -> (r:
    Routing)
    ensures
        (final(players)@, final(from_bg)@, r) == route_payload(
            old(players)@,
            old(from_bg)@,
            payload@,
        ),
{
    match decode_message(payload) {
        Some(message) => parse_message(message, players, from_bg),
        None => Routing::Malformed,
    }
}

/// Encodes a message for `topic`. `None` tells that the message has no
/// encoding; nothing is published then.
pub fn send_message(message: &Message, topic: &str) -> (r: Option<Publication>)
    ensures
        r is Some == publication(*message, topic@) is Some,
        r matches Some(p) ==> Some(p@) == publication(*message, topic@),
{
    match encode_message(message) {
        Some(payload) => Some(Publication { topic: topic.to_owned(), payload }),
        None => None,
    }
}

/// Takes up one item of the outbound queue. A command that awaits a reply
/// first has the route of its guild registered; then the command's message
/// is encoded for `topic`. An item that is no command is passed over.
pub fn process_command(command: &IPCData, topic: &str, players: &mut Charcoal) -> (r: Option<
    Publication,
>)
    ensures
        final(players)@ == command_route(old(players)@, *command),
        r is Some == command_publication(*command, topic@) is Some,
        r matches Some(p) ==> Some(p@) == command_publication(*command, topic@),
{
    match command {
        IPCData::FromMain(data) => {
            if data.awaits_reply {
                players.open_route(&data.guild_id);
            }
            send_message(&data.message, topic)
        },
        _ => None,
    }
}

/// Takes up the commands that queued up, first come first served, and
/// hands back what is to be published, in that order.
pub fn drain_commands(commands: &Vec<IPCData>, topic: &str, players: &mut Charcoal) -> (r: Vec<
    Publication,
>)
    ensures
        final(players)@ == routes_after(old(players)@, commands@),
        publications_view(r@) == publications(commands@, topic@),
{
    let mut out: Vec<Publication> = Vec::new();
    let mut i: usize = 0;
    while i < commands.len()
        invariant
            i <= commands@.len(),
            players@ == routes_after(old(players)@, commands@.take(i as int)),
            publications_view(out@) == publications(commands@.take(i as int), topic@),
        decreases commands@.len() - i,
    {
        assert(commands@.take(i as int + 1).drop_last() =~= commands@.take(i as int));
        match process_command(&commands[i], topic, players) {
            Some(publication) => {
                out.push(publication);
            },
            None => {},
        }
        i += 1;
    }
    assert(commands@.take(i as int) =~= commands@);
    out
}

/// The bytes of each payload of a list, in order.
pub open spec fn payloads_view(payloads: Seq<Vec<u8>>) -> Seq<Seq<u8>> {
    Seq::new(payloads.len(), |i: int| payloads[i]@)
}

/// The routing of a list of payloads, one after the other: the registry
/// and the queue of lifecycle events afterwards, and what became of each
/// payload.
pub open spec fn route_payloads(players: Players, events: Seq<IPCData>, payloads: Seq<Seq<u8>>) -> (
    Players,
    Seq<IPCData>,
    Seq<Routing>,
)
    decreases payloads.len(),
{
    if payloads.len() == 0 {
        (players, events, Seq::empty())
    } else {
        let (players1, events1, earlier) = route_payloads(players, events, payloads.drop_last());
        let (players2, events2, routing) = route_payload(players1, events1, payloads.last());
        (players2, events2, earlier.push(routing))
    }
}

/// Routes what one poll of the bus brought, payload by payload in the
/// order of arrival, and reports what became of each. No payload stops the
/// routing of those behind it.
pub fn process_payloads(
    payloads: &Vec<Vec<u8>>,
    players: &mut Charcoal,
    from_bg: &mut Vec<IPCData>,
) -> (r: Vec<Routing>)
    ensures
        (final(players)@, final(from_bg)@, r@) == route_payloads(
            old(players)@,
            old(from_bg)@,
            payloads_view(payloads@),
        ),
{
    let ghost all = payloads_view(payloads@);
    let mut out: Vec<Routing> = Vec::new();
    let mut i: usize = 0;
    while i < payloads.len()
        invariant
            i <= payloads@.len(),
            all == payloads_view(payloads@),
            (players@, from_bg@, out@) == route_payloads(
                old(players)@,
                old(from_bg)@,
                all.take(i as int),
            ),
        decreases payloads@.len() - i,
    {
        assert(all.take(i as int + 1).drop_last() =~= all.take(i as int));
        let routing = process_payload(payloads[i].as_slice(), players, from_bg);
        out.push(routing);
        i += 1;
    }
    assert(all.take(i as int) =~= all);
    out
}

/// What one round of the processor gives.
#[derive(Debug)]
pub struct Round {
    /// What became of each payload, in the order of arrival.
    pub routings: Vec<Routing>,
    /// What is to be published, in this order.
    pub publications: Vec<Publication>,
}

/// One round of the processor: first the payloads that a poll of the bus
/// brought are routed, then the commands that queued up are taken up, for
/// the topic that `config` names.
pub fn process_round(
    payloads: &Vec<Vec<u8>>,
    commands: &Vec<IPCData>,
    config: &CharcoalConfig,
    players: &mut Charcoal,
    from_bg: &mut Vec<IPCData>,
) -> (r: Round)
    ensures
        final(players)@ == routes_after(
            route_payloads(old(players)@, old(from_bg)@, payloads_view(payloads@)).0,
            commands@,
        ),
        final(from_bg)@ == route_payloads(
            old(players)@,
            old(from_bg)@,
            payloads_view(payloads@),
        ).1,
        r.routings@ == route_payloads(old(players)@, old(from_bg)@, payloads_view(payloads@)).2,
        publications_view(r.publications@) == publications(commands@, config.kafka_topic@),
{
    let routings = process_payloads(payloads, players, from_bg);
    let publications = drain_commands(commands, config.kafka_topic.as_str(), players);
    Round { routings, publications }
}

/// Whether a payload decodes to a reply for `guild_id`.
pub open spec fn is_reply_for(payload: Seq<u8>, guild_id: Seq<char>) -> bool {
    decoded(payload) matches Some(message) && reply_of(message) matches Some((guild, _)) && guild
        == guild_id
}

/// The form in which the reply in a payload reaches its player.
pub open spec fn reply_in(payload: Seq<u8>) -> IPCData
    recommends
        decoded(payload) is Some,
        reply_of(decoded(payload)->0) is Some,
{
    let addressed = reply_of(decoded(payload)->0)->0;
    addressed.1
}

/// Of the replies that arrive for a guild whose player waits on an open
/// route, the first is delivered and every later one is dropped: the route
/// holds the first reply, the rest of the registry and the queue of
/// lifecycle events are as before.
pub proof fn lemma_first_reply_wins(
    players: Players,
    events: Seq<IPCData>,
    guild_id: Seq<char>,
    payloads: Seq<Seq<u8>>,
)
    requires
        players.contains_key(guild_id),
        players[guild_id].reply_route is Open,
        payloads.len() > 0,
        forall|i: int| 0 <= i < payloads.len() ==> is_reply_for(#[trigger] payloads[i], guild_id),
    ensures
        route_payloads(players, events, payloads).0 == players.insert(
            guild_id,
            players[guild_id].deliver(reply_in(payloads[0])).0,
        ),
        players[guild_id].deliver(reply_in(payloads[0])).0.reply_route == ReplyRoute::Filled(
            reply_in(payloads[0]),
        ),
        route_payloads(players, events, payloads).1 == events,
        route_payloads(players, events, payloads).2.len() == payloads.len(),
        route_payloads(players, events, payloads).2[0] == Routing::Delivered,
        forall|i: int|
            0 < i < payloads.len() ==> #[trigger] route_payloads(players, events, payloads).2[i]
                == Routing::RouteFilled,
    decreases payloads.len(),
{
    let earlier = payloads.drop_last();
    if payloads.len() > 1 {
        lemma_first_reply_wins(players, events, guild_id, earlier);
    }
    let before = route_payloads(players, events, earlier);
    assert(before.0 == if payloads.len() > 1 {
        players.insert(guild_id, players[guild_id].deliver(reply_in(payloads[0])).0)
    } else {
        players
    });
    assert(is_reply_for(payloads.last(), guild_id));
}

/// A payload that is no message changes neither the registry nor the queue
/// of lifecycle events, and what follows it is routed as if it had not
/// come.
pub proof fn lemma_malformed_payload_is_skipped(
    players: Players,
    events: Seq<IPCData>,
    malformed: Seq<u8>,
    next: Seq<u8>,
)
    requires
        decoded(malformed) is None,
    ensures
        route_payload(players, events, malformed) == (players, events, Routing::Malformed),
        route_payloads(players, events, seq![malformed, next]).0 == route_payload(
            players,
            events,
            next,
        ).0,
        route_payloads(players, events, seq![malformed, next]).1 == route_payload(
            players,
            events,
            next,
        ).1,
        route_payloads(players, events, seq![malformed, next]).2 == seq![
            Routing::Malformed,
            route_payload(players, events, next).2,
        ],
{
    let both = seq![malformed, next];
    assert(both.drop_last() =~= seq![malformed]);
    assert(seq![malformed].drop_last() =~= Seq::<Seq<u8>>::empty());
    assert(route_payloads(players, events, Seq::<Seq<u8>>::empty()) == (
        players,
        events,
        Seq::<Routing>::empty(),
    ));
    assert(route_payloads(players, events, seq![malformed]).2 =~= seq![Routing::Malformed]);
}

/// How many publications the first `n` commands of a queue give.
pub open spec fn published_before(commands: Seq<IPCData>, topic: Seq<char>, n: int) -> int {
    publications(commands.take(n), topic).len() as int
}

/// What the first `n` commands of a queue give is the beginning of what
/// the whole queue gives.
proof fn lemma_publications_prefix(commands: Seq<IPCData>, topic: Seq<char>, n: int)
    requires
        0 <= n <= commands.len(),
    ensures
        publications(commands.take(n), topic).is_prefix_of(publications(commands, topic)),
    decreases commands.len() - n,
{
    if n < commands.len() {
        lemma_publications_prefix(commands, topic, n + 1);
        assert(commands.take(n + 1).drop_last() =~= commands.take(n));
    } else {
        assert(commands.take(n) =~= commands);
    }
}

/// Commands are published in the order in which they were queued: of two
/// commands that are published, the one queued first is published first.
/// This holds of any two commands, and so of two commands of one guild.
pub proof fn lemma_publication_order(commands: Seq<IPCData>, topic: Seq<char>, i: int, j: int)
    requires
        0 <= i < j < commands.len(),
        command_publication(commands[i], topic) is Some,
        command_publication(commands[j], topic) is Some,
    ensures
        0 <= published_before(commands, topic, i) < published_before(commands, topic, j)
            < publications(commands, topic).len(),
        publications(commands, topic)[published_before(commands, topic, i)] == command_publication(
            commands[i],
            topic,
        )->0,
        publications(commands, topic)[published_before(commands, topic, j)] == command_publication(
            commands[j],
            topic,
        )->0,
{
    let upto_i = publications(commands.take(i + 1), topic);
    let upto_j = publications(commands.take(j + 1), topic);
    lemma_publications_prefix(commands, topic, i + 1);
    lemma_publications_prefix(commands, topic, j + 1);
    lemma_publications_prefix(commands.take(j), topic, i + 1);
    assert(commands.take(j).take(i + 1) =~= commands.take(i + 1));
    assert(commands.take(i + 1).drop_last() =~= commands.take(i));
    assert(commands.take(j + 1).drop_last() =~= commands.take(j));
    let at_i = published_before(commands, topic, i);
    let at_j = published_before(commands, topic, j);
    assert(upto_i[at_i] == command_publication(commands[i], topic)->0);
    assert(upto_j[at_j] == command_publication(commands[j], topic)->0);
}

} // verus!
