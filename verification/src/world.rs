//! The parts of the game world that a proxy's commands read and change.
use rustc_hash::FxHashMap;
use vstd::prelude::*;

use crate::session::{
    session_after, step_for, ProxyEvent, SessionAction, SessionState, WorldCommand,
};
use crate::streams::{insert_stream, new_streams, remove_stream};

verus! {

/// Where a player is connected: the stream, and the proxy that the stream belongs to.
#[derive(Clone, Copy, Debug, PartialEq, Eq, Structural)]
pub struct ConnectionId {
    pub stream: u64,
    pub proxy_id: u64,
}

/// The player of each stream.
pub struct StreamLookup<E> {
    players: FxHashMap<u64, E>,
}

impl<E> StreamLookup<E> {
    /// The player of each stream.
    pub closed spec fn players(self) -> Map<u64, E> {
        self.players@
    }

    /// A lookup without players.
    pub fn new() -> (lookup: Self)
        ensures
            lookup.players() == Map::<u64, E>::empty(),
    {
        StreamLookup { players: new_streams() }
    }

    /// Remembers the player of a stream and hands back the one that it replaces.
    pub fn insert(&mut self, stream: u64, player: E) -> (previous: Option<E>)
        ensures
            final(self).players() == old(self).players().insert(stream, player),
            previous == (if old(self).players().dom().contains(stream) {
                Some(old(self).players()[stream])
            } else {
                None
            }),
    {
        insert_stream(&mut self.players, stream, player)
    }

    /// Forgets the player of a stream and hands it back.
    pub fn remove(&mut self, stream: u64) -> (player: Option<E>)
        ensures
            final(self).players() == old(self).players().remove(stream),
            player == (if old(self).players().dom().contains(stream) {
                Some(old(self).players()[stream])
            } else {
                None
            }),
    {
        remove_stream(&mut self.players, stream)
    }
}

/// The players that came through a proxy, in the order of the list.
pub open spec fn through_proxy<E>(players: Seq<(E, ConnectionId)>, proxy_id: u64) -> Seq<E>
    decreases players.len(),
{
    if players.len() == 0 {
        Seq::empty()
    } else if players.last().1.proxy_id == proxy_id {
        through_proxy(players.drop_last(), proxy_id).push(players.last().0)
    } else {
        through_proxy(players.drop_last(), proxy_id)
    }
}

/// Picks the players that came through a proxy: those to remove when the proxy is gone.
pub fn players_to_remove<E: Copy>(players: &[(E, ConnectionId)], proxy_id: u64) -> (removed: Vec<E>)
    ensures
        removed@ == through_proxy(players@, proxy_id),
{
    let mut removed: Vec<E> = Vec::new();
    let mut i: usize = 0;
    while i < players.len()
        invariant
            i <= players.len(),
            removed@ == through_proxy(players@.take(i as int), proxy_id),
        decreases players.len() - i,
    {
        assert(players@.take(i + 1).drop_last() =~= players@.take(i as int));
        if players[i].1.proxy_id == proxy_id {
            removed.push(players[i].0);
        }
        i = i + 1;
    }
    assert(players@.take(i as int) =~= players@);
    removed
}

/// The channels that are known, in the order of the list.
pub open spec fn known<E>(channels: Seq<Option<E>>) -> Seq<E>
    decreases channels.len(),
{
    if channels.len() == 0 {
        Seq::empty()
    } else {
        match channels.last() {
            Some(channel) => known(channels.drop_last()).push(channel),
            None => known(channels.drop_last()),
        }
    }
}

/// Picks the channels to raise subscription requests for: of the requested channels those
/// that exist. An id that names no channel is left out; the others are not affected.
pub fn channels_to_subscribe<E: Copy>(resolved: &[Option<E>]) -> (channels: Vec<E>)
    ensures
        channels@ == known(resolved@),
{
    let mut channels: Vec<E> = Vec::new();
    let mut i: usize = 0;
    while i < resolved.len()
        invariant
            i <= resolved.len(),
            channels@ == known(resolved@.take(i as int)),
        decreases resolved.len() - i,
    {
        assert(resolved@.take(i + 1).drop_last() =~= resolved@.take(i as int));
        if let Some(channel) = resolved[i] {
            channels.push(channel);
        }
        i = i + 1;
    }
    assert(resolved@.take(i as int) =~= resolved@);
    channels
}

/// A player is among those to remove exactly if it is in the list with the proxy's id.
pub proof fn removed_exactly_through_proxy<E>(
    players: Seq<(E, ConnectionId)>,
    proxy_id: u64,
    player: E,
)
    ensures
        through_proxy(players, proxy_id).contains(player) <==> exists|i: int|
            0 <= i < players.len() && #[trigger] players[i].0 == player && players[i].1.proxy_id
                == proxy_id,
    decreases players.len(),
{
    if players.len() > 0 {
        let rest = players.drop_last();
        let earlier = through_proxy(rest, proxy_id);
        removed_exactly_through_proxy(rest, proxy_id, player);
        if through_proxy(players, proxy_id).contains(player) {
            let all = through_proxy(players, proxy_id);
            let k = choose|k: int| 0 <= k < all.len() && all[k] == player;
            if k < earlier.len() {
                assert(earlier[k] == player);
                let i = choose|i: int|
                    0 <= i < rest.len() && #[trigger] rest[i].0 == player && rest[i].1.proxy_id
                        == proxy_id;
                assert(players[i].0 == player);
            } else {
                assert(players[players.len() - 1].0 == player);
            }
        }
        if exists|i: int|
            0 <= i < players.len() && #[trigger] players[i].0 == player && players[i].1.proxy_id
                == proxy_id {
            let i = choose|i: int|
                0 <= i < players.len() && #[trigger] players[i].0 == player
                    && players[i].1.proxy_id == proxy_id;
            if i < rest.len() {
                assert(rest[i].0 == player);
                let k = choose|k: int| 0 <= k < earlier.len() && earlier[k] == player;
                assert(through_proxy(players, proxy_id)[k] == player);
            } else {
                assert(through_proxy(players, proxy_id)[earlier.len() as int] == player);
            }
        }
    }
}

/// The player of each stream after what a session asks for was done, where `spawned` is the
/// player that is made if one is.
pub open spec fn players_after<E>(
    players: Map<u64, E>,
    action: SessionAction,
    spawned: E,
) -> Map<u64, E> {
    match action {
        SessionAction::Run(WorldCommand::SpawnPlayer { stream, .. }) => players.insert(
            stream,
            spawned,
        ),
        SessionAction::Run(WorldCommand::DespawnPlayer { stream }) => players.remove(stream),
        _ => players,
    }
}

/// As long as only one proxy's session changes the lookup, the streams that have a player are
/// exactly those that are connected. So the player of a stream is found when the stream
/// disconnects, unless the stream was not connected, which is reported.
pub proof fn connected_streams_have_their_players<S, E>(
    proxy_id: u64,
    state: SessionState<S>,
    players: Map<u64, E>,
    event: ProxyEvent<S>,
    spawned: E,
)
    requires
        state.senders.dom() == players.dom(),
    ensures
        session_after(state, event).senders.dom() == players_after(
            players,
            step_for(proxy_id, state, event).action,
            spawned,
        ).dom(),
        step_for(proxy_id, state, event).action matches SessionAction::Run(
            WorldCommand::DespawnPlayer { stream },
        ) ==> (step_for(proxy_id, state, event).report is None <==> players.dom().contains(stream)),
{
    assert(session_after(state, event).senders.dom() =~= players_after(
        players,
        step_for(proxy_id, state, event).action,
        spawned,
    ).dom());
}

/// The players to remove from two lists one after the other are those to remove from the first
/// and then those to remove from the second; of a list of one player it is that player, exactly
/// if it came through the proxy. So nobody is left out, made up, repeated or moved.
pub proof fn players_are_picked_one_by_one<E>(
    first: Seq<(E, ConnectionId)>,
    second: Seq<(E, ConnectionId)>,
    player: E,
    connection: ConnectionId,
    proxy_id: u64,
)
    ensures
        through_proxy(first + second, proxy_id) == through_proxy(first, proxy_id) + through_proxy(
            second,
            proxy_id,
        ),
        through_proxy(seq![(player, connection)], proxy_id) == if connection.proxy_id == proxy_id {
            seq![player]
        } else {
            seq![]
        },
        through_proxy(Seq::<(E, ConnectionId)>::empty(), proxy_id) == Seq::<E>::empty(),
    decreases second.len(),
{
    let one = seq![(player, connection)];
    assert(one.drop_last() =~= Seq::empty());
    assert(one.last() == (player, connection));
    assert(through_proxy(one.drop_last(), proxy_id) =~= Seq::empty());
    assert(through_proxy(one, proxy_id) =~= if connection.proxy_id == proxy_id {
        seq![player]
    } else {
        seq![]
    });
    if second.len() == 0 {
        assert(first + second =~= first);
        assert(through_proxy(first, proxy_id) + through_proxy(second, proxy_id) =~= through_proxy(
            first,
            proxy_id,
        ));
    } else {
        players_are_picked_one_by_one(first, second.drop_last(), player, connection, proxy_id);
        assert((first + second).drop_last() =~= first + second.drop_last());
        assert((first + second).last() == second.last());
        assert(through_proxy(first + second, proxy_id) =~= through_proxy(first, proxy_id)
            + through_proxy(second, proxy_id));
    }
}

/// The channels to subscribe to of two lists one after the other are those of the first and then
/// those of the second; of a list of one it is that channel, exactly if it exists. So no channel
/// that exists is left out, made up, repeated or moved.
pub proof fn channels_are_picked_one_by_one<E>(
    first: Seq<Option<E>>,
    second: Seq<Option<E>>,
    channel: E,
)
    ensures
        known(first + second) == known(first) + known(second),
        known(seq![Some(channel)]) == seq![channel],
        known(seq![None::<E>]) == Seq::<E>::empty(),
        known(Seq::<Option<E>>::empty()) == Seq::<E>::empty(),
    decreases second.len(),
{
    assert(seq![Some(channel)].drop_last() =~= Seq::empty());
    assert(seq![None::<E>].drop_last() =~= Seq::empty());
    assert(known(Seq::<Option<E>>::empty()) =~= Seq::empty());
    assert(seq![Some(channel)].last() == Some(channel));
    assert(known(seq![Some(channel)]) =~= seq![channel]);
    if second.len() == 0 {
        assert(first + second =~= first);
        assert(known(first) + known(second) =~= known(first));
    } else {
        channels_are_picked_one_by_one(first, second.drop_last(), channel);
        assert((first + second).drop_last() =~= first + second.drop_last());
        assert((first + second).last() == second.last());
        assert(known(first + second) =~= known(first) + known(second));
    }
}

/// Picking from two lists one after the other picks from the first and then from the second.
pub proof fn picking_goes_list_by_list<E: Copy>(
    first: &[(E, ConnectionId)],
    second: &[(E, ConnectionId)],
    both: &[(E, ConnectionId)],
    proxy_id: u64,
    from_first: Vec<E>,
    from_second: Vec<E>,
    from_both: Vec<E>,
)
    requires
        both@ == first@ + second@,
        call_ensures(players_to_remove::<E>, (first, proxy_id), from_first),
        call_ensures(players_to_remove::<E>, (second, proxy_id), from_second),
        call_ensures(players_to_remove::<E>, (both, proxy_id), from_both),
    ensures
        from_both@ == from_first@ + from_second@,
        second@.len() == 1 ==> from_second@ == if second@[0].1.proxy_id == proxy_id {
            seq![second@[0].0]
        } else {
            seq![]
        },
{
    let some = second@[0];
    players_are_picked_one_by_one(first@, second@, some.0, some.1, proxy_id);
    if second@.len() == 1 {
        assert(second@ =~= seq![(some.0, some.1)]);
    }
}

/// Choosing channels from two lists one after the other chooses from the first and then from the
/// second.
pub proof fn choosing_goes_list_by_list<E: Copy>(
    first: &[Option<E>],
    second: &[Option<E>],
    both: &[Option<E>],
    from_first: Vec<E>,
    from_second: Vec<E>,
    from_both: Vec<E>,
)
    requires
        both@ == first@ + second@,
        call_ensures(channels_to_subscribe::<E>, (first,), from_first),
        call_ensures(channels_to_subscribe::<E>, (second,), from_second),
        call_ensures(channels_to_subscribe::<E>, (both,), from_both),
    ensures
        from_both@ == from_first@ + from_second@,
        second@.len() == 1 ==> from_second@ == match second@[0] {
            Some(channel) => seq![channel],
            None => seq![],
        },
{
    let some = match second@[0] {
        Some(channel) => channel,
        None => arbitrary(),
    };
    channels_are_picked_one_by_one(first@, second@, some);
    if second@.len() == 1 {
        match second@[0] {
            Some(channel) => {
                assert(second@ =~= seq![Some(channel)]);
            },
            None => {
                assert(second@ =~= seq![None::<E>]);
            },
        }
    }
}

} // verus!
