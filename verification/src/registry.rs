//! The registry of players: at most one per guild.
//!
//! The model of a [`Charcoal`] is the map from guild ids to the models of
//! its players. The players of a registry are reached through it, by the id
//! of their guild, so that a player which was removed can no longer be
//! found by anyone. Every method states its effect as the model function of
//! the same name.

use crate::actions::channel_manager::CreateJobError;
use crate::actions::track_manager::{TrackAction, TrackActionError};
use crate::ipc::{issues, CommandView, FromBackgroundData, IPCData};
use crate::protocol::strings_view;
use crate::session::{Delivery, Phase, PlayerObject, PlayerView};
use hearth_interconnect::messages::{Message, Metadata};
use vstd::prelude::*;

verus! {

/// The model of a registry.
pub type Players = Map<Seq<char>, PlayerView>;

/// What holds of every registry: a guild is the key of none but its own
/// player, and every player is well formed.
pub open spec fn well_formed(players: Players) -> bool {
    forall|guild_id: Seq<char>| #[trigger]
        players.contains_key(guild_id) ==> players[guild_id].guild_id == guild_id
            && players[guild_id].wf()
}

/// The registry after a new player for `guild_id` was asked for: a guild
/// that has a player keeps it and the request fails.
pub open spec fn create_session(players: Players, guild_id: Seq<char>) -> (
    Players,
    Result<(), CreateJobError>,
) {
    if players.contains_key(guild_id) {
        (players, Err(CreateJobError::DuplicateSession))
    } else {
        (players.insert(guild_id, PlayerView::fresh(guild_id)), Ok(()))
    }
}

/// The registry after a reply for `guild_id` arrived, and what became of
/// the reply: `None` where the guild has no player.
pub open spec fn deliver(players: Players, guild_id: Seq<char>, reply: IPCData) -> (
    Players,
    Option<Delivery>,
) {
    if players.contains_key(guild_id) {
        let (player, delivery) = players[guild_id].deliver(reply);
        (players.insert(guild_id, player), Some(delivery))
    } else {
        (players, None)
    }
}

/// The registry after the reply route of `guild_id` was registered. A
/// guild without a player changes nothing.
pub open spec fn open_route(players: Players, guild_id: Seq<char>) -> Players {
    if players.contains_key(guild_id) {
        players.insert(guild_id, players[guild_id].open_route())
    } else {
        players
    }
}

/// The registry after the player of `guild_id` was asked to join, and what
/// the request gave. A guild without a player changes nothing.
pub open spec fn request_join(
    players: Players,
    guild_id: Seq<char>,
    voice_channel_id: Seq<char>,
    request_id: Seq<char>,
) -> (Players, Result<CommandView, CreateJobError>) {
    if players.contains_key(guild_id) {
        let (player, result) = players[guild_id].request_join(voice_channel_id, request_id);
        (players.insert(guild_id, player), result)
    } else {
        (players, Err(CreateJobError::UnknownSession))
    }
}

/// The registry after the wait of `guild_id` for a job ended, and how the
/// join ended.
pub open spec fn complete_join(players: Players, guild_id: Seq<char>) -> (
    Players,
    Result<CommandView, CreateJobError>,
) {
    if players.contains_key(guild_id) {
        let (player, result) = players[guild_id].complete_join();
        (players.insert(guild_id, player), result)
    } else {
        (players, Err(CreateJobError::UnknownSession))
    }
}

/// What a command that needs no answer gives for the player of `guild_id`.
pub open spec fn track_command(
    players: Players,
    guild_id: Seq<char>,
    action: TrackAction,
    request_id: Seq<char>,
) -> Result<CommandView, TrackActionError> {
    if players.contains_key(guild_id) {
        players[guild_id].track_command(action, request_id)
    } else {
        Err(TrackActionError::UnknownSession)
    }
}

/// The registry after the player of `guild_id` was asked for metadata, and
/// what the request gave.
pub open spec fn request_metadata(players: Players, guild_id: Seq<char>, request_id: Seq<char>) -> (
    Players,
    Result<CommandView, TrackActionError>,
) {
    if players.contains_key(guild_id) {
        let (player, result) = players[guild_id].request_metadata(request_id);
        (players.insert(guild_id, player), result)
    } else {
        (players, Err(TrackActionError::UnknownSession))
    }
}

/// The registry after the wait of `guild_id` for metadata ended, and what
/// the wait gave.
pub open spec fn complete_metadata(players: Players, guild_id: Seq<char>) -> (
    Players,
    Result<Metadata, TrackActionError>,
) {
    if players.contains_key(guild_id) {
        let (player, result) = players[guild_id].complete_metadata();
        (players.insert(guild_id, player), result)
    } else {
        (players, Err(TrackActionError::UnknownSession))
    }
}

/// The registry after the player of `guild_id` was asked to leave, and
/// what the request gave: a player that may leave is gone from the
/// registry, any other stays as it is.
pub open spec fn exit_channel(players: Players, guild_id: Seq<char>) -> (
    Players,
    Result<CommandView, TrackActionError>,
) {
    if players.contains_key(guild_id) {
        let result = players[guild_id].request_exit().1;
        if result is Ok {
            (players.remove(guild_id), result)
        } else {
            (players, result)
        }
    } else {
        (players, Err(TrackActionError::UnknownSession))
    }
}

/// The guilds whose players a lifecycle event evicts, in the order in which
/// the event names them: the guild of an expired job, the guilds that a
/// worker served when it shut down, and none for anything else.
pub open spec fn evicted_guilds(event: IPCData) -> Seq<Seq<char>> {
    match event {
        IPCData::FromBackground(data) => match data.message {
            Message::ExternalJobExpired(expired) => seq![expired.guild_id@],
            Message::WorkerShutdownAlert(alert) => strings_view(alert.affected_guild_ids@),
            _ => Seq::empty(),
        },
        _ => Seq::empty(),
    }
}

/// The registry without the players of `guilds`.
pub open spec fn without(players: Players, guilds: Seq<Seq<char>>) -> Players {
    players.remove_keys(guilds.to_set())
}

/// The guilds among `guilds` that lose a player when they are removed one
/// after the other: each guild that has a player, once.
pub open spec fn evictions(players: Players, guilds: Seq<Seq<char>>) -> Seq<Seq<char>>
    decreases guilds.len(),
{
    if guilds.len() == 0 {
        Seq::empty()
    } else {
        let first = guilds.first();
        let rest = evictions(players.remove(first), guilds.drop_first());
        if players.contains_key(first) {
            seq![first] + rest
        } else {
            rest
        }
    }
}

/// Why a player was evicted.
#[derive(Clone, Copy, Debug, PartialEq, Eq, Structural)]
pub enum EvictionCause {
    /// The job of the player expired.
    JobExpired,
    /// The worker of the player shut down.
    WorkerShutdown,
}

/// A player that was evicted: its guild, and why.
#[derive(Debug)]
pub struct Eviction {
    pub guild_id: String,
    pub cause: EvictionCause,
}

/// The model of an [`Eviction`].
pub struct EvictionView {
    pub guild_id: Seq<char>,
    pub cause: EvictionCause,
}

impl View for Eviction {
    type V = EvictionView;

    open spec fn view(&self) -> EvictionView {
        EvictionView { guild_id: self.guild_id@, cause: self.cause }
    }
}

/// The models of a list of evictions, in order.
pub open spec fn evictions_view(evictions: Seq<Eviction>) -> Seq<EvictionView> {
    Seq::new(evictions.len(), |i: int| evictions[i]@)
}

/// The cause that a lifecycle event gives for its evictions.
pub open spec fn eviction_cause(event: IPCData) -> EvictionCause {
    match event {
        IPCData::FromBackground(
            FromBackgroundData { message: Message::ExternalJobExpired(_) },
        ) => EvictionCause::JobExpired,
        _ => EvictionCause::WorkerShutdown,
    }
}

/// The evictions of `guilds`, all for one cause.
pub open spec fn evicted_for(guilds: Seq<Seq<char>>, cause: EvictionCause) -> Seq<EvictionView> {
    Seq::new(guilds.len(), |i: int| EvictionView { guild_id: guilds[i], cause })
}

/// What a lifecycle event does to a registry: the registry afterwards, and
/// the players that were evicted.
pub open spec fn evict(players: Players, event: IPCData) -> (Players, Seq<EvictionView>) {
    let guilds = evicted_guilds(event);
    (
        without(players, guilds),
        evicted_for(evictions(players, guilds), eviction_cause(event)),
    )
}

/// The registry after a queue of lifecycle events was worked off, one event
/// after the other, and the players that were evicted, in that order.
pub open spec fn evict_each(players: Players, events: Seq<IPCData>) -> (
    Players,
    Seq<EvictionView>,
)
    decreases events.len(),
{
    if events.len() == 0 {
        (players, Seq::empty())
    } else {
        let (before, evicted) = evict_each(players, events.drop_last());
        let (after, more) = evict(before, events.last());
        (after, evicted + more)
    }
}

/// Removing the player of a guild twice is the same as removing it once:
/// the guild has no player afterwards, and the second removal changes
/// nothing.
pub proof fn lemma_remove_twice(players: Players, guild_id: Seq<char>)
    ensures
        players.remove(guild_id).remove(guild_id) == players.remove(guild_id),
        !players.remove(guild_id).contains_key(guild_id),
{
}

/// Removing the players of some guilds twice is the same as removing them
/// once: the second removal changes nothing and evicts nobody.
pub proof fn lemma_removal_is_idempotent(players: Players, guilds: Seq<Seq<char>>)
    ensures
        without(without(players, guilds), guilds) == without(players, guilds),
        evictions(without(players, guilds), guilds) == Seq::<Seq<char>>::empty(),
        forall|guild_id: Seq<char>|
            guilds.contains(guild_id) ==> !without(players, guilds).contains_key(guild_id),
{
    lemma_no_evictions(without(players, guilds), guilds);
}

/// Acting twice on one lifecycle event is the same as acting on it once:
/// the second time the registry stays as it is and nobody is evicted.
pub proof fn lemma_eviction_is_idempotent(players: Players, event: IPCData)
    ensures
        evict(evict(players, event).0, event).0 == evict(players, event).0,
        evict(evict(players, event).0, event).1 == Seq::<EvictionView>::empty(),
{
    lemma_removal_is_idempotent(players, evicted_guilds(event));
}

/// Guilds without a player have nobody to evict.
proof fn lemma_no_evictions(players: Players, guilds: Seq<Seq<char>>)
    requires
        forall|i: int| 0 <= i < guilds.len() ==> !players.contains_key(#[trigger] guilds[i]),
    ensures
        evictions(players, guilds) == Seq::<Seq<char>>::empty(),
    decreases guilds.len(),
{
    if guilds.len() > 0 {
        let rest = guilds.drop_first();
        lemma_no_evictions(players.remove(guilds.first()), rest);
    }
}

/// An eviction touches none but the guilds it names: every other guild has
/// the player it had, or none as before.
pub proof fn lemma_eviction_spares_others(
    players: Players,
    guilds: Seq<Seq<char>>,
    guild_id: Seq<char>,
)
    requires
        !guilds.contains(guild_id),
    ensures
        without(players, guilds).contains_key(guild_id) == players.contains_key(guild_id),
        players.contains_key(guild_id) ==> without(players, guilds)[guild_id] == players[guild_id],
{
}

/// Once a player has left, a reply for its guild finds nobody: it is
/// dropped, and no player comes back into the registry.
pub proof fn lemma_reply_after_exit_is_dropped(
    players: Players,
    guild_id: Seq<char>,
    reply: IPCData,
)
    requires
        exit_channel(players, guild_id).1 is Ok,
    ensures
        !exit_channel(players, guild_id).0.contains_key(guild_id),
        deliver(exit_channel(players, guild_id).0, guild_id, reply) == (
            exit_channel(players, guild_id).0,
            None::<Delivery>,
        ),
{
}

/// The players of a list, by guild.
spec fn by_guild(players: Seq<PlayerObject>) -> Players {
    Map::new(
        |guild_id: Seq<char>| exists|i: int| holds(players, i, guild_id),
        |guild_id: Seq<char>| players[choose|i: int| holds(players, i, guild_id)]@,
    )
}

/// Whether position `i` of the list holds the player of `guild_id`.
spec fn holds(players: Seq<PlayerObject>, i: int, guild_id: Seq<char>) -> bool {
    0 <= i < players.len() && players[i]@.guild_id == guild_id
}

/// No two players of the list belong to one guild.
spec fn distinct(players: Seq<PlayerObject>) -> bool {
    forall|i: int, j: int|
        0 <= i < j < players.len() ==> #[trigger] players[i]@.guild_id
            != #[trigger] players[j]@.guild_id
}

/// In a list without duplicates, the player at a position is the one that
/// the map holds for its guild.
proof fn lemma_found(players: Seq<PlayerObject>, i: int)
    requires
        distinct(players),
        0 <= i < players.len(),
    ensures
        by_guild(players).contains_key(players[i]@.guild_id),
        by_guild(players)[players[i]@.guild_id] == players[i]@,
{
    assert(holds(players, i, players[i]@.guild_id));
}

/// A guild that no position holds has no player in the map.
proof fn lemma_absent(players: Seq<PlayerObject>, guild_id: Seq<char>)
    requires
        forall|i: int| 0 <= i < players.len() ==> #[trigger] players[i]@.guild_id != guild_id,
    ensures
        !by_guild(players).contains_key(guild_id),
{
}

/// Appending the player of a new guild inserts it into the map.
proof fn lemma_push(players: Seq<PlayerObject>, player: PlayerObject)
    requires
        distinct(players),
        !by_guild(players).contains_key(player@.guild_id),
    ensures
        distinct(players.push(player)),
        by_guild(players.push(player)) == by_guild(players).insert(player@.guild_id, player@),
{
    let after = players.push(player);
    assert forall|i: int| 0 <= i < players.len() implies #[trigger] players[i]@.guild_id
        != player@.guild_id by {
        assert(holds(players, i, players[i]@.guild_id));
    }
    let expected = by_guild(players).insert(player@.guild_id, player@);
    assert forall|guild_id: Seq<char>| by_guild(after).contains_key(guild_id) implies (
    #[trigger] expected.contains_key(guild_id)) && by_guild(after)[guild_id]
        == expected[guild_id] by {
        let i = choose|i: int| holds(after, i, guild_id);
        lemma_found(after, i);
        if i < players.len() {
            lemma_found(players, i);
        }
    }
    assert forall|guild_id: Seq<char>| #[trigger]
        expected.contains_key(guild_id) implies by_guild(after).contains_key(guild_id) by {
        if guild_id == player@.guild_id {
            assert(holds(after, players.len() as int, guild_id));
        } else {
            let i = choose|i: int| holds(players, i, guild_id);
            assert(holds(after, i, guild_id));
        }
    }
}

/// Deleting a position removes the guild of its player from the map.
proof fn lemma_remove(players: Seq<PlayerObject>, at: int)
    requires
        distinct(players),
        0 <= at < players.len(),
    ensures
        distinct(players.remove(at)),
        by_guild(players.remove(at)) == by_guild(players).remove(players[at]@.guild_id),
{
    let after = players.remove(at);
    let gone = players[at]@.guild_id;
    let expected = by_guild(players).remove(gone);
    assert forall|guild_id: Seq<char>| by_guild(after).contains_key(guild_id) implies (
    #[trigger] expected.contains_key(guild_id)) && by_guild(after)[guild_id]
        == expected[guild_id] by {
        let i = choose|i: int| holds(after, i, guild_id);
        lemma_found(after, i);
        let oi = if i < at {
            i
        } else {
            i + 1
        };
        lemma_found(players, oi);
    }
    assert forall|guild_id: Seq<char>| #[trigger]
        expected.contains_key(guild_id) implies by_guild(after).contains_key(guild_id) by {
        let i = choose|i: int| holds(players, i, guild_id);
        let ni = if i < at {
            i
        } else {
            i - 1
        };
        assert(holds(after, ni, guild_id));
    }
}

/// Replacing a player by one of the same guild replaces it in the map.
proof fn lemma_update(players: Seq<PlayerObject>, at: int, player: PlayerObject)
    requires
        distinct(players),
        0 <= at < players.len(),
        player@.guild_id == players[at]@.guild_id,
    ensures
        distinct(players.update(at, player)),
        by_guild(players.update(at, player)) == by_guild(players).insert(
            player@.guild_id,
            player@,
        ),
{
    let after = players.update(at, player);
    let expected = by_guild(players).insert(player@.guild_id, player@);
    assert forall|guild_id: Seq<char>| by_guild(after).contains_key(guild_id) implies (
    #[trigger] expected.contains_key(guild_id)) && by_guild(after)[guild_id]
        == expected[guild_id] by {
        let i = choose|i: int| holds(after, i, guild_id);
        lemma_found(after, i);
        lemma_found(players, i);
    }
    assert forall|guild_id: Seq<char>| #[trigger]
        expected.contains_key(guild_id) implies by_guild(after).contains_key(guild_id) by {
        if guild_id == player@.guild_id {
            assert(holds(after, at, guild_id));
        } else {
            let i = choose|i: int| holds(players, i, guild_id);
            assert(holds(after, i, guild_id));
        }
    }
}

/// A list without duplicates has as many players as its map has guilds.
proof fn lemma_count(players: Seq<PlayerObject>)
    requires
        distinct(players),
    ensures
        by_guild(players).dom().finite(),
        by_guild(players).dom().len() == players.len(),
    decreases players.len(),
{
    if players.len() == 0 {
        lemma_absent_everywhere(players);
        assert(by_guild(players).dom() =~= Set::<Seq<char>>::empty());
    } else {
        let earlier = players.drop_last();
        let last = players.last();
        lemma_count(earlier);
        lemma_absent(earlier, last@.guild_id);
        lemma_push(earlier, last);
        assert(earlier.push(last) =~= players);
    }
}

/// The map of the empty list is empty.
proof fn lemma_absent_everywhere(players: Seq<PlayerObject>)
    requires
        players.len() == 0,
    ensures
        forall|guild_id: Seq<char>| !by_guild(players).contains_key(guild_id),
{
}

/// Removing one more guild of a list removes it from what the guilds
/// before it left.
proof fn lemma_without_next(players: Players, guilds: Seq<Seq<char>>, i: int)
    requires
        0 <= i < guilds.len(),
    ensures
        without(players, guilds.take(i + 1)) == without(players, guilds.take(i)).remove(guilds[i]),
{
    let before = guilds.take(i);
    let after = guilds.take(i + 1);
    assert forall|guild_id: Seq<char>| after.to_set().contains(guild_id) <==> (
    before.to_set().contains(guild_id) || guild_id == guilds[i]) by {
        if guild_id == guilds[i] {
            assert(after[i] == guild_id);
        }
    }
}

/// The evictions of the guilds from position `i` on, by the first of them.
proof fn lemma_evictions_next(players: Players, guilds: Seq<Seq<char>>, i: int)
    requires
        0 <= i < guilds.len(),
    ensures
        evictions(players, guilds.skip(i)) == if players.contains_key(guilds[i]) {
            seq![guilds[i]] + evictions(players.remove(guilds[i]), guilds.skip(i + 1))
        } else {
            evictions(players.remove(guilds[i]), guilds.skip(i + 1))
        },
{
    assert(guilds.skip(i).drop_first() =~= guilds.skip(i + 1));
}

/// The registry of the players of one client.
pub struct Charcoal {
    players: Vec<PlayerObject>,
}

impl View for Charcoal {
    type V = Players;

    closed spec fn view(&self) -> Players {
        by_guild(self.players@)
    }
}

impl Charcoal {
    #[verifier::type_invariant]
    spec fn one_player_per_guild(self) -> bool {
        distinct(self.players@)
    }

    /// Every registry is well formed, whatever was done to it.
    pub proof fn lemma_well_formed(self)
        ensures
            well_formed(self@),
    {
        assert forall|guild_id: Seq<char>| #[trigger]
            self@.contains_key(guild_id) implies self@[guild_id].guild_id == guild_id
            && self@[guild_id].wf() by {
            let i = choose|i: int| holds(self.players@, i, guild_id);
            self.players@[i].lemma_wf();
        }
    }

    /// A registry without players.
    pub fn new() -> (r: Charcoal)
        ensures
            r@ == Players::empty(),
    {
        let r = Charcoal { players: Vec::new() };
        proof {
            lemma_absent_everywhere(r.players@);
        }
        r
    }

    /// Where the player of `guild_id` stands in the list.
    fn position(&self, guild_id: &String) -> (r: Option<usize>)
        ensures
            r is Some == self@.contains_key(guild_id@),
            r matches Some(i) ==> holds(self.players@, i as int, guild_id@) && self@[guild_id@]
                == self.players@[i as int]@,
    {
        proof {
            use_type_invariant(self);
        }
        let mut i: usize = 0;
        while i < self.players.len()
            invariant
                i <= self.players@.len(),
                distinct(self.players@),
                forall|j: int| 0 <= j < i ==> #[trigger] self.players@[j]@.guild_id != guild_id@,
            decreases self.players@.len() - i,
        {
            if *self.players[i].guild_id() == *guild_id {
                proof {
                    lemma_found(self.players@, i as int);
                }
                return Some(i);
            }
            i += 1;
        }
        proof {
            lemma_absent(self.players@, guild_id@);
        }
        None
    }

    /// Moves the list out, leaving none behind, so that it can be changed.
    fn take_players(&mut self) -> (players: Vec<PlayerObject>)
        ensures
            players@ == old(self).players@,
            distinct(players@),
    {
        proof {
            use_type_invariant(&*self);
        }
        let mut taken = Charcoal { players: Vec::new() };
        std::mem::swap(self, &mut taken);
        taken.players
    }

    /// The number of players.
    pub fn len(&self) -> (n: usize)
        ensures
            self@.dom().finite(),
            n == self@.dom().len(),
    {
        proof {
            use_type_invariant(self);
            lemma_count(self.players@);
        }
        self.players.len()
    }

    /// Whether the registry has no player.
    pub fn is_empty(&self) -> (r: bool)
        ensures
            r == (self@ == Players::empty()),
    {
        proof {
            use_type_invariant(self);
            lemma_count(self.players@);
            if self.players@.len() == 0 {
                lemma_absent_everywhere(self.players@);
                assert(self@ =~= Players::empty());
            }
        }
        self.players.len() == 0
    }

    /// Whether `guild_id` has a player.
    pub fn contains(&self, guild_id: &String) -> (r: bool)
        ensures
            r == self@.contains_key(guild_id@),
    {
        self.position(guild_id).is_some()
    }

    /// The player of `guild_id`, if it has one.
    pub fn get_player(&self, guild_id: &String) -> (r: Option<&PlayerObject>)
        ensures
            r is Some == self@.contains_key(guild_id@),
            r matches Some(player) ==> player@ == self@[guild_id@],
    {
        match self.position(guild_id) {
            Some(i) => Some(&self.players[i]),
            None => None,
        }
    }

    /// Creates an `Unjoined` player for `guild_id`, unless the guild has a
    /// player already.
    pub fn create_session(&mut self, guild_id: String) -> (r: Result<(), CreateJobError>)
        ensures
            final(self)@ == create_session(old(self)@, guild_id@).0,
            r == create_session(old(self)@, guild_id@).1,
    {
        if self.position(&guild_id).is_some() {
            return Err(CreateJobError::DuplicateSession);
        }
        match PlayerObject::new(guild_id) {
            Ok(player) => {
                let mut players = self.take_players();
                proof {
                    lemma_push(players@, player);
                }
                players.push(player);
                self.players = players;
                Ok(())
            },
            Err(e) => Err(e),
        }
    }

    /// Removes the player of `guild_id` and hands it back. A guild without
    /// a player changes nothing.
    pub fn remove(&mut self, guild_id: &String) -> (r: Option<PlayerObject>)
        ensures
            final(self)@ == old(self)@.remove(guild_id@),
            r is Some == old(self)@.contains_key(guild_id@),
            r matches Some(player) ==> player@ == old(self)@[guild_id@],
    {
        match self.position(guild_id) {
            Some(i) => {
                let mut players = self.take_players();
                proof {
                    lemma_remove(players@, i as int);
                }
                let player = players.remove(i);
                self.players = players;
                Some(player)
            },
            None => {
                None
            },
        }
    }

    /// Asks the player of `guild_id` to join `voice_channel_id`; see
    /// [`PlayerObject::request_join`].
    pub fn request_join(
        &mut self,
        guild_id: &String,
        voice_channel_id: String,
        request_id: String,
    ) -> (r: Result<IPCData, CreateJobError>)
        ensures
            final(self)@ == request_join(old(self)@, guild_id@, voice_channel_id@, request_id@).0,
            issues(r, request_join(old(self)@, guild_id@, voice_channel_id@, request_id@).1),
    {
        match self.position(guild_id) {
            Some(i) => {
                let mut players = self.take_players();
                let r = players[i].request_join(voice_channel_id, request_id);
                proof {
                    lemma_update(old(self).players@, i as int, players@[i as int]);
                }
                self.players = players;
                r
            },
            None => Err(CreateJobError::UnknownSession),
        }
    }

    /// Ends the wait of `guild_id` for a job; see
    /// [`PlayerObject::complete_join`].
    pub fn complete_join(&mut self, guild_id: &String) -> (r: Result<IPCData, CreateJobError>)
        ensures
            final(self)@ == complete_join(old(self)@, guild_id@).0,
            issues(r, complete_join(old(self)@, guild_id@).1),
    {
        match self.position(guild_id) {
            Some(i) => {
                let mut players = self.take_players();
                let r = players[i].complete_join();
                proof {
                    lemma_update(old(self).players@, i as int, players@[i as int]);
                }
                self.players = players;
                r
            },
            None => Err(CreateJobError::UnknownSession),
        }
    }

    /// Builds the command for `action` of the player of `guild_id`; see
    /// [`PlayerObject::track_command`].
    pub fn track_command(&self, guild_id: &String, action: TrackAction, request_id: String) -> (r:
        Result<IPCData, TrackActionError>)
        ensures
            issues(r, track_command(self@, guild_id@, action, request_id@)),
    {
        match self.get_player(guild_id) {
            Some(player) => player.track_command(action, request_id),
            None => Err(TrackActionError::UnknownSession),
        }
    }

    /// Asks the player of `guild_id` for the metadata of its track; see
    /// [`PlayerObject::request_metadata`].
    pub fn request_metadata(&mut self, guild_id: &String, request_id: String) -> (r: Result<IPCData, TrackActionError>)
        ensures
            final(self)@ == request_metadata(old(self)@, guild_id@, request_id@).0,
            issues(r, request_metadata(old(self)@, guild_id@, request_id@).1),
    {
        match self.position(guild_id) {
            Some(i) => {
                let mut players = self.take_players();
                let r = players[i].request_metadata(request_id);
                proof {
                    lemma_update(old(self).players@, i as int, players@[i as int]);
                }
                self.players = players;
                r
            },
            None => Err(TrackActionError::UnknownSession),
        }
    }

    /// Ends the wait of `guild_id` for metadata; see
    /// [`PlayerObject::complete_metadata`].
    pub fn complete_metadata(&mut self, guild_id: &String) -> (r: Result<Metadata, TrackActionError>)
        ensures
            final(self)@ == complete_metadata(old(self)@, guild_id@).0,
            r == complete_metadata(old(self)@, guild_id@).1,
    {
        match self.position(guild_id) {
            Some(i) => {
                let mut players = self.take_players();
                let r = players[i].complete_metadata();
                proof {
                    lemma_update(old(self).players@, i as int, players@[i as int]);
                }
                self.players = players;
                r
            },
            None => Err(TrackActionError::UnknownSession),
        }
    }

    /// Asks the player of `guild_id` to leave its channel. A player that
    /// may leave is removed at once: nothing reaches it any more.
    pub fn exit_channel(&mut self, guild_id: &String) -> (r: Result<IPCData, TrackActionError>)
        ensures
            final(self)@ == exit_channel(old(self)@, guild_id@).0,
            issues(r, exit_channel(old(self)@, guild_id@).1),
    {
        match self.position(guild_id) {
            Some(i) => {
                match self.players[i].phase() {
                    Phase::Joined => {},
                    _ => {
                        return Err(TrackActionError::SessionNotJoined);
                    },
                }
                let mut players = self.take_players();
                proof {
                    lemma_remove(players@, i as int);
                }
                let mut player = players.remove(i);
                self.players = players;
                player.request_exit()
            },
            None => Err(TrackActionError::UnknownSession),
        }
    }

    /// Registers the reply route of `guild_id` with the background
    /// processor; see [`PlayerObject::open_route`].
    pub fn open_route(&mut self, guild_id: &String)
        ensures
            final(self)@ == open_route(old(self)@, guild_id@),
    {
        match self.position(guild_id) {
            Some(i) => {
                let mut players = self.take_players();
                players[i].open_route();
                proof {
                    lemma_update(old(self).players@, i as int, players@[i as int]);
                }
                self.players = players;
            },
            None => {},
        }
    }

    /// Hands a reply to the player of `guild_id`; see
    /// [`PlayerObject::deliver`]. `None` tells that the guild has no
    /// player, so that the reply is dropped.
    pub fn deliver(&mut self, guild_id: &String, reply: IPCData) -> (r: Option<Delivery>)
        ensures
            final(self)@ == deliver(old(self)@, guild_id@, reply).0,
            r == deliver(old(self)@, guild_id@, reply).1,
    {
        match self.position(guild_id) {
            Some(i) => {
                let mut players = self.take_players();
                let r = players[i].deliver(reply);
                proof {
                    lemma_update(old(self).players@, i as int, players@[i as int]);
                }
                self.players = players;
                Some(r)
            },
            None => None,
        }
    }

    /// Removes the players of `guild_ids`, one guild after the other, and
    /// tells which guilds lost a player.
    pub fn remove_each(&mut self, guild_ids: &Vec<String>) -> (evicted: Vec<String>)
        ensures
            final(self)@ == without(old(self)@, strings_view(guild_ids@)),
            strings_view(evicted@) == evictions(old(self)@, strings_view(guild_ids@)),
    {
        let ghost guilds = strings_view(guild_ids@);
        let mut evicted: Vec<String> = Vec::new();
        let mut i: usize = 0;
        assert(guilds.skip(0) =~= guilds);
        while i < guild_ids.len()
            invariant
                i <= guild_ids@.len(),
                guilds == strings_view(guild_ids@),
                self@ == without(old(self)@, guilds.take(i as int)),
                evictions(old(self)@, guilds) == strings_view(evicted@) + evictions(
                    self@,
                    guilds.skip(i as int),
                ),
            decreases guild_ids@.len() - i,
        {
            proof {
                lemma_without_next(old(self)@, guilds, i as int);
                lemma_evictions_next(self@, guilds, i as int);
            }
            if self.remove(&guild_ids[i]).is_some() {
                evicted.push(guild_ids[i].clone());
            }
            i += 1;
        }
        evicted
    }

    /// Acts on a lifecycle event: an expired job evicts the player of its
    /// guild, the shutdown of a worker evicts the players of the guilds it
    /// served, and anything else evicts nobody. The players that were
    /// evicted are handed back, so that the caller can tell its users.
    pub fn evict(&mut self, event: &IPCData) -> (evicted: Vec<Eviction>)
        ensures
            final(self)@ == evict(old(self)@, *event).0,
            evictions_view(evicted@) == evict(old(self)@, *event).1,
    {
        let (removed, cause) = match event {
            IPCData::FromBackground(data) => match &data.message {
                Message::ExternalJobExpired(expired) => {
                    let mut guild_ids: Vec<String> = Vec::new();
                    guild_ids.push(expired.guild_id.clone());
                    assert(strings_view(guild_ids@) =~= seq![expired.guild_id@]);
                    (self.remove_each(&guild_ids), EvictionCause::JobExpired)
                },
                Message::WorkerShutdownAlert(alert) => (
                    self.remove_each(&alert.affected_guild_ids),
                    EvictionCause::WorkerShutdown,
                ),
                _ => (self.remove_each(&Vec::new()), EvictionCause::WorkerShutdown),
            },
            _ => (self.remove_each(&Vec::new()), EvictionCause::WorkerShutdown),
        };
        let mut evicted: Vec<Eviction> = Vec::new();
        let mut i: usize = 0;
        while i < removed.len()
            invariant
                i <= removed@.len(),
                evicted@.len() == i,
                forall|j: int|
                    0 <= j < i ==> (#[trigger] evicted@[j])@ == (EvictionView {
                        guild_id: removed@[j]@,
                        cause,
                    }),
            decreases removed@.len() - i,
        {
            evicted.push(Eviction { guild_id: removed[i].clone(), cause });
            i += 1;
        }
        evicted
    }

    /// One round of the eviction loop: works off the queue of lifecycle
    /// events, oldest first, and leaves it empty. An empty queue changes
    /// nothing. The players that were evicted are handed back.
    pub fn drain_events(&mut self, from_bg: &mut Vec<IPCData>) -> (evicted: Vec<Eviction>)
        ensures
            final(self)@ == evict_each(old(self)@, old(from_bg)@).0,
            evictions_view(evicted@) == evict_each(old(self)@, old(from_bg)@).1,
            final(from_bg)@ == Seq::<IPCData>::empty(),
    {
        let mut evicted: Vec<Eviction> = Vec::new();
        let mut i: usize = 0;
        while i < from_bg.len()
            invariant
                i <= from_bg@.len(),
                from_bg@ == old(from_bg)@,
                self@ == evict_each(old(self)@, from_bg@.take(i as int)).0,
                evictions_view(evicted@) == evict_each(old(self)@, from_bg@.take(i as int)).1,
            decreases from_bg@.len() - i,
        {
            assert(from_bg@.take(i as int + 1).drop_last() =~= from_bg@.take(i as int));
            let mut gone = self.evict(&from_bg[i]);
            evicted.append(&mut gone);
            i += 1;
        }
        assert(from_bg@.take(i as int) =~= from_bg@);
        from_bg.clear();
        evicted
    }
}

} // verus!
