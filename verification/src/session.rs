//! One proxy's session with the game server: what each message that the proxy sends makes
//! the server do.
//!
//! The session keeps, for each player stream that is connected, the sender that feeds the
//! player's packets to the game. Reading messages, sending packets and changing the game
//! world happen outside; [`ProxySession::handle`] says what is to be done next.
use rustc_hash::FxHashMap;
use vstd::prelude::*;

use crate::streams::{insert_stream, new_streams, remove_stream, stream_mut};

verus! {

/// The fragment size of the channel that carries one player's packets to the game.
pub const DEFAULT_FRAGMENT_SIZE: usize = 4096;

/// Why a player's packets were not taken by the player's channel.
#[derive(Clone, Copy, Debug, PartialEq, Eq, Structural)]
pub enum SendError {
    /// The player sent a packet without content.
    ZeroLengthPacket,
    /// The player sent a packet that is larger than the game accepts.
    TooLargePacket,
    /// The game has already closed the channel.
    AlreadyClosed,
}

/// What can happen to a session.
pub enum ProxyEvent<S> {
    /// The next message could not be read.
    ReadFailed,
    /// The proxy announced that it is ready.
    ProxyReady,
    /// A player connected; `sender` is the sending half of a fresh channel.
    PlayerConnect { stream: u64, sender: S },
    /// A player disconnected.
    PlayerDisconnect { stream: u64 },
    /// A player sent packets.
    PlayerPackets { stream: u64, data: Vec<u8> },
    /// The packets that were to be sent were sent, or not.
    PacketsSent { stream: u64, result: Result<(), SendError> },
    /// The proxy asks for the packets that subscribe to channels; `None` if the list of
    /// channels could not be decoded.
    RequestSubscribeChannelPackets { channels: Option<Vec<u32>> },
}

/// A change to the game world.
#[derive(Debug, PartialEq, Eq)]
pub enum WorldCommand {
    /// Make a player and remember it under its stream.
    SpawnPlayer { stream: u64, proxy_id: u64 },
    /// Forget the player of the stream and remove it.
    DespawnPlayer { stream: u64 },
    /// Tell the proxy to close the connection to the player.
    ShutdownPlayer { stream: u64, proxy_id: u64 },
    /// Raise a subscription request for each of the channels.
    SubscribeChannels { channels: Vec<u32> },
    /// Remove every player that came through the proxy.
    RemoveProxyPlayers { proxy_id: u64 },
}

/// What to do after an event.
#[derive(Debug, PartialEq, Eq)]
pub enum SessionAction {
    /// Read the next message.
    Continue,
    /// Queue the command, then read the next message.
    Run(WorldCommand),
    /// Send the packets with the stream's sender and report how that went.
    Send { stream: u64, data: Vec<u8> },
    /// Queue the command and end the session.
    Stop(WorldCommand),
    /// Nothing: the session has ended already.
    Ended,
}

/// Something about an event that an operator should see.
#[derive(Clone, Copy, Debug, PartialEq, Eq, Structural)]
pub enum SessionReport {
    /// A stream connected that was connected already.
    StreamAlreadyExists,
    /// A stream disconnected that was not connected.
    DisconnectOfUnknownStream,
    /// Packets came on a stream that is not connected.
    PacketsOfUnknownStream,
    /// A player sent a packet without content.
    ZeroLengthPacket,
    /// A player sent a packet that is too large.
    TooLargePacket,
    /// A list of channels could not be decoded.
    InvalidChannels,
}

/// What [`ProxySession::handle`] answers.
#[derive(Debug, PartialEq, Eq)]
pub struct SessionStep {
    /// What an operator should see, if anything.
    pub report: Option<SessionReport>,
    /// What to do.
    pub action: SessionAction,
}

/// The connected streams after an event in a session that has not ended: connecting and
/// disconnecting change the entry of the stream, and nothing else changes anything.
pub open spec fn senders_after<S>(senders: Map<u64, S>, event: ProxyEvent<S>) -> Map<u64, S> {
    match event {
        ProxyEvent::PlayerConnect { stream, sender } => senders.insert(stream, sender),
        ProxyEvent::PlayerDisconnect { stream } => senders.remove(stream),
        _ => senders,
    }
}

/// Whether a send error is the player's fault, so that the player is to be disconnected.
pub open spec fn needs_shutdown(error: SendError) -> bool {
    error is ZeroLengthPacket || error is TooLargePacket
}

/// What an operator should see of an event in a session that has not ended.
pub open spec fn report_for<S>(senders: Map<u64, S>, event: ProxyEvent<S>) -> Option<
    SessionReport,
> {
    match event {
        ProxyEvent::PlayerConnect { stream, .. } if senders.dom().contains(stream) => Some(
            SessionReport::StreamAlreadyExists,
        ),
        ProxyEvent::PlayerDisconnect { stream } if !senders.dom().contains(stream) => Some(
            SessionReport::DisconnectOfUnknownStream,
        ),
        ProxyEvent::PlayerPackets { stream, .. } if !senders.dom().contains(stream) => Some(
            SessionReport::PacketsOfUnknownStream,
        ),
        ProxyEvent::PacketsSent { result: Err(SendError::ZeroLengthPacket), .. } => Some(
            SessionReport::ZeroLengthPacket,
        ),
        ProxyEvent::PacketsSent { result: Err(SendError::TooLargePacket), .. } => Some(
            SessionReport::TooLargePacket,
        ),
        ProxyEvent::RequestSubscribeChannelPackets { channels: None } => Some(
            SessionReport::InvalidChannels,
        ),
        _ => None,
    }
}

/// What to do after an event in a session that has not ended.
pub open spec fn action_for<S>(
    proxy_id: u64,
    senders: Map<u64, S>,
    event: ProxyEvent<S>,
) -> SessionAction {
    match event {
        ProxyEvent::ReadFailed => SessionAction::Stop(
            WorldCommand::RemoveProxyPlayers { proxy_id },
        ),
        ProxyEvent::ProxyReady => SessionAction::Continue,
        ProxyEvent::PlayerConnect { stream, .. } => SessionAction::Run(
            WorldCommand::SpawnPlayer { stream, proxy_id },
        ),
        ProxyEvent::PlayerDisconnect { stream } => SessionAction::Run(
            WorldCommand::DespawnPlayer { stream },
        ),
        ProxyEvent::PlayerPackets { stream, data } => if senders.dom().contains(stream) {
            SessionAction::Send { stream, data }
        } else {
            SessionAction::Continue
        },
        ProxyEvent::PacketsSent { stream, result: Err(error) } => if needs_shutdown(error) {
            SessionAction::Run(WorldCommand::ShutdownPlayer { stream, proxy_id })
        } else {
            SessionAction::Continue
        },
        ProxyEvent::PacketsSent { result: Ok(_), .. } => SessionAction::Continue,
        ProxyEvent::RequestSubscribeChannelPackets { channels: Some(channels) } =>
            SessionAction::Run(WorldCommand::SubscribeChannels { channels }),
        ProxyEvent::RequestSubscribeChannelPackets { channels: None } => SessionAction::Continue,
    }
}

/// How far a session has come: the sender of each connected stream, and whether the session has
/// ended.
pub struct SessionState<S> {
    pub senders: Map<u64, S>,
    pub ended: bool,
}

/// The state that a session starts in.
pub open spec fn session_at_start<S>() -> SessionState<S> {
    SessionState { senders: Map::empty(), ended: false }
}

/// The state after an event: a failed read ends the session, and then nothing changes any more.
pub open spec fn session_after<S>(state: SessionState<S>, event: ProxyEvent<S>) -> SessionState<
    S,
> {
    if state.ended {
        state
    } else {
        SessionState {
            senders: senders_after(state.senders, event),
            ended: event is ReadFailed,
        }
    }
}

/// What the session answers to an event.
pub open spec fn step_for<S>(
    proxy_id: u64,
    state: SessionState<S>,
    event: ProxyEvent<S>,
) -> SessionStep {
    if state.ended {
        SessionStep { report: None, action: SessionAction::Ended }
    } else {
        SessionStep {
            report: report_for(state.senders, event),
            action: action_for(proxy_id, state.senders, event),
        }
    }
}

/// A session with one proxy. `S` is the sending half of a player's packet channel.
pub struct ProxySession<S> {
    proxy_id: u64,
    ended: bool,
    player_packet_sender: FxHashMap<u64, S>,
}

impl<S> ProxySession<S> {
    /// The proxy that the session is with.
    pub closed spec fn proxy(self) -> u64 {
        self.proxy_id
    }

    /// How far the session has come.
    pub closed spec fn state(self) -> SessionState<S> {
        SessionState { senders: self.player_packet_sender@, ended: self.ended }
    }

    /// Starts a session: no player is connected.
    pub fn new(proxy_id: u64) -> (session: Self)
        ensures
            session.proxy() == proxy_id,
            session.state() == session_at_start::<S>(),
    {
        ProxySession { proxy_id, ended: false, player_packet_sender: new_streams() }
    }

    /// Takes in an event and says what to do.
    pub fn handle(&mut self, event: ProxyEvent<S>) -> (step: SessionStep)
        ensures
            final(self).proxy() == old(self).proxy(),
            final(self).state() == session_after(old(self).state(), event),
            step == step_for(old(self).proxy(), old(self).state(), event),
    {
        if self.ended {
            return SessionStep { report: None, action: SessionAction::Ended };
        }
        let proxy_id: u64 = self.proxy_id;
        match event {
            ProxyEvent::ReadFailed => {
                self.ended = true;
                SessionStep {
                    report: None,
                    action: SessionAction::Stop(WorldCommand::RemoveProxyPlayers { proxy_id }),
                }
            },
            ProxyEvent::ProxyReady => {
                SessionStep { report: None, action: SessionAction::Continue }
            },
            ProxyEvent::PlayerConnect { stream, sender } => {
                let previous: Option<S> = insert_stream(
                    &mut self.player_packet_sender,
                    stream,
                    sender,
                );
                let report: Option<SessionReport> = if previous.is_some() {
                    Some(SessionReport::StreamAlreadyExists)
                } else {
                    None
                };
                SessionStep {
                    report,
                    action: SessionAction::Run(WorldCommand::SpawnPlayer { stream, proxy_id }),
                }
            },
            ProxyEvent::PlayerDisconnect { stream } => {
                let previous: Option<S> = remove_stream(&mut self.player_packet_sender, stream);
                let report: Option<SessionReport> = if previous.is_none() {
                    Some(SessionReport::DisconnectOfUnknownStream)
                } else {
                    None
                };
                SessionStep {
                    report,
                    action: SessionAction::Run(WorldCommand::DespawnPlayer { stream }),
                }
            },
            ProxyEvent::PlayerPackets { stream, data } => {
                if self.is_connected(stream) {
                    SessionStep { report: None, action: SessionAction::Send { stream, data } }
                } else {
                    SessionStep {
                        report: Some(SessionReport::PacketsOfUnknownStream),
                        action: SessionAction::Continue,
                    }
                }
            },
            ProxyEvent::PacketsSent { stream, result } => {
                let report: Option<SessionReport> = match result {
                    Err(SendError::ZeroLengthPacket) => Some(SessionReport::ZeroLengthPacket),
                    Err(SendError::TooLargePacket) => Some(SessionReport::TooLargePacket),
                    Err(SendError::AlreadyClosed) => None,
                    Ok(()) => None,
                };
                let action: SessionAction = if report.is_some() {
                    SessionAction::Run(WorldCommand::ShutdownPlayer { stream, proxy_id })
                } else {
                    SessionAction::Continue
                };
                SessionStep { report, action }
            },
            ProxyEvent::RequestSubscribeChannelPackets { channels } => {
                match channels {
                    Some(channels) => SessionStep {
                        report: None,
                        action: SessionAction::Run(WorldCommand::SubscribeChannels { channels }),
                    },
                    None => SessionStep {
                        report: Some(SessionReport::InvalidChannels),
                        action: SessionAction::Continue,
                    },
                }
            },
        }
    }

    /// Whether a stream is connected.
    fn is_connected(&mut self, stream: u64) -> (connected: bool)
        ensures
            connected == old(self).state().senders.dom().contains(stream),
            final(self).proxy() == old(self).proxy(),
            final(self).state() == old(self).state(),
    {
        let connected: bool = match stream_mut(&mut self.player_packet_sender, stream) {
            Some(_) => true,
            None => false,
        };
        assert(self.state().senders =~= old(self).state().senders);
        connected
    }

    /// The sender of a connected stream.
    pub fn sender_mut(&mut self, stream: u64) -> (sender: Option<&mut S>)
        ensures
            final(self).proxy() == old(self).proxy(),
            final(self).state().ended == old(self).state().ended,
            match sender {
                Some(value) => {
                    &&& old(self).state().senders.dom().contains(stream)
                    &&& *value == old(self).state().senders[stream]
                    &&& final(self).state().senders == old(self).state().senders.insert(
                        stream,
                        *final(value),
                    )
                },
                None => {
                    &&& !old(self).state().senders.dom().contains(stream)
                    &&& final(self).state().senders == old(self).state().senders
                },
            },
    {
        stream_mut(&mut self.player_packet_sender, stream)
    }
}

/// The state after a run of events, from the start.
pub open spec fn session_after_all<S>(events: Seq<ProxyEvent<S>>) -> SessionState<S>
    decreases events.len(),
{
    if events.len() == 0 {
        session_at_start()
    } else {
        session_after(session_after_all(events.drop_last()), events.last())
    }
}

/// The last event of a run that connected or disconnected a stream before the session ended:
/// `None` if there was none, `Some(None)` if it disconnected the stream.
pub open spec fn last_change<S>(events: Seq<ProxyEvent<S>>, stream: u64) -> Option<Option<S>>
    decreases events.len(),
{
    if events.len() == 0 {
        None
    } else if events.drop_last().any(|event: ProxyEvent<S>| event is ReadFailed) {
        last_change(events.drop_last(), stream)
    } else {
        match events.last() {
            ProxyEvent::PlayerConnect { stream: other, sender } if other == stream => Some(
                Some(sender),
            ),
            ProxyEvent::PlayerDisconnect { stream: other } if other == stream => Some(None),
            _ => last_change(events.drop_last(), stream),
        }
    }
}

/// The stream that an event connects or disconnects.
pub open spec fn changed_stream<S>(event: ProxyEvent<S>) -> Option<u64> {
    match event {
        ProxyEvent::PlayerConnect { stream, .. } => Some(stream),
        ProxyEvent::PlayerDisconnect { stream } => Some(stream),
        _ => None,
    }
}

/// A session has ended exactly if a read has failed.
pub proof fn ended_exactly_since_a_failed_read<S>(events: Seq<ProxyEvent<S>>)
    ensures
        session_after_all(events).ended <==> events.any(
            |event: ProxyEvent<S>| event is ReadFailed,
        ),
    decreases events.len(),
{
    let failed = |event: ProxyEvent<S>| event is ReadFailed;
    if events.len() > 0 {
        let earlier = events.drop_last();
        ended_exactly_since_a_failed_read(earlier);
        if earlier.any(failed) {
            let i = choose|i: int| 0 <= i < earlier.len() && failed(#[trigger] earlier[i]);
            assert(failed(events[i]));
        }
        if failed(events.last()) {
            assert(failed(events[events.len() - 1]));
        }
        if events.any(failed) {
            let i = choose|i: int| 0 <= i < events.len() && failed(#[trigger] events[i]);
            if i < earlier.len() {
                assert(failed(earlier[i]));
            }
        }
    }
}

/// Nothing follows the end of a session: the event that ends it is answered with `Stop`, and
/// every later one with nothing to do, nothing to report and no change.
pub proof fn nothing_follows_the_end<S>(
    proxy_id: u64,
    state: SessionState<S>,
    event: ProxyEvent<S>,
    later: ProxyEvent<S>,
)
    requires
        step_for(proxy_id, state, event).action is Stop || state.ended,
    ensures
        session_after(state, event).ended,
        session_after(session_after(state, event), later) == session_after(state, event),
        step_for(proxy_id, session_after(state, event), later).report is None,
        step_for(proxy_id, session_after(state, event), later).action is Ended,
{
}

/// After any run of events, a stream of a session is connected exactly if the last event
/// that connected or disconnected it connected it, and then it has that event's sender.
pub proof fn connected_exactly_since_last_connect<S>(events: Seq<ProxyEvent<S>>, stream: u64)
    ensures
        match last_change(events, stream) {
            Some(Some(sender)) => {
                let senders = session_after_all(events).senders;
                senders.dom().contains(stream) && senders[stream] == sender
            },
            _ => !session_after_all(events).senders.dom().contains(stream),
        },
    decreases events.len(),
{
    if events.len() > 0 {
        connected_exactly_since_last_connect(events.drop_last(), stream);
        ended_exactly_since_a_failed_read(events.drop_last());
    }
}

/// An event leaves every stream alone but the one that it connects or disconnects.
pub proof fn other_streams_are_untouched<S>(
    state: SessionState<S>,
    event: ProxyEvent<S>,
    stream: u64,
)
    requires
        changed_stream(event) != Some(stream),
    ensures
        session_after(state, event).senders.dom().contains(stream)
            == state.senders.dom().contains(stream),
        state.senders.dom().contains(stream) ==> session_after(state, event).senders[stream]
            == state.senders[stream],
{
}

/// Disconnecting a stream right after it connected brings back the state from before, unless
/// the stream was connected already.
pub proof fn disconnect_undoes_connect<S>(state: SessionState<S>, stream: u64, sender: S)
    requires
        !state.senders.dom().contains(stream),
    ensures
        session_after(
            session_after(state, ProxyEvent::PlayerConnect { stream, sender }),
            ProxyEvent::PlayerDisconnect { stream },
        ) == state,
{
    assert(state.senders.insert(stream, sender).remove(stream) =~= state.senders);
}

/// As long as a session has not ended, packets are passed on exactly if their stream is
/// connected: after a connect they are, and after a disconnect they are dropped and reported.
pub proof fn packets_follow_the_connection<S>(
    proxy_id: u64,
    state: SessionState<S>,
    stream: u64,
    sender: S,
    data: Vec<u8>,
)
    requires
        !state.ended,
    ensures
        ({
            let packets = ProxyEvent::<S>::PlayerPackets { stream, data };
            let connected = session_after(state, ProxyEvent::PlayerConnect { stream, sender });
            let disconnected = session_after(state, ProxyEvent::PlayerDisconnect { stream });
            &&& step_for(proxy_id, connected, packets).action == SessionAction::Send {
                stream,
                data,
            }
            &&& step_for(proxy_id, disconnected, packets).action == SessionAction::Continue
            &&& step_for(proxy_id, disconnected, packets).report == Some(
                SessionReport::PacketsOfUnknownStream,
            )
        }),
{
}

/// Every command that names a proxy names the proxy of the session, and the session stops
/// exactly at the first failed read.
pub proof fn commands_name_their_own_proxy<S>(
    proxy_id: u64,
    state: SessionState<S>,
    event: ProxyEvent<S>,
)
    ensures
        match step_for(proxy_id, state, event).action {
            SessionAction::Run(WorldCommand::SpawnPlayer { proxy_id: named, .. }) => named
                == proxy_id,
            SessionAction::Run(WorldCommand::ShutdownPlayer { proxy_id: named, .. }) => named
                == proxy_id,
            SessionAction::Stop(command) => command == (WorldCommand::RemoveProxyPlayers {
                proxy_id,
            }),
            _ => true,
        },
        step_for(proxy_id, state, event).action is Stop <==> event is ReadFailed && !state.ended,
{
}

/// Every list of channels that could be decoded is passed on whole, whatever its length, and
/// only a list that could not be decoded is dropped, which is reported. No stream is affected.
pub proof fn channel_requests_are_passed_on<S>(
    proxy_id: u64,
    state: SessionState<S>,
    channels: Vec<u32>,
)
    requires
        !state.ended,
    ensures
        ({
            let request = ProxyEvent::<S>::RequestSubscribeChannelPackets {
                channels: Some(channels),
            };
            let step = step_for(proxy_id, state, request);
            &&& step.action == SessionAction::Run(WorldCommand::SubscribeChannels { channels })
            &&& step.report is None
            &&& session_after(state, request) == state
        }),
        ({
            let undecoded = ProxyEvent::<S>::RequestSubscribeChannelPackets { channels: None };
            let step = step_for(proxy_id, state, undecoded);
            &&& step.action is Continue
            &&& step.report == Some(SessionReport::InvalidChannels)
            &&& session_after(state, undecoded) == state
        }),
{
}

/// Every connect makes a player for its stream and its proxy, and from then on the stream has
/// the sender that came with it. It is reported exactly if the stream was connected already.
pub proof fn every_connect_spawns_a_player<S>(
    proxy_id: u64,
    state: SessionState<S>,
    stream: u64,
    sender: S,
)
    requires
        !state.ended,
    ensures
        ({
            let connect = ProxyEvent::PlayerConnect { stream, sender };
            let step = step_for(proxy_id, state, connect);
            let after = session_after(state, connect);
            &&& step.action == SessionAction::Run(WorldCommand::SpawnPlayer { stream, proxy_id })
            &&& step.report == if state.senders.dom().contains(stream) {
                Some(SessionReport::StreamAlreadyExists)
            } else {
                None
            }
            &&& after.senders.dom().contains(stream)
            &&& after.senders[stream] == sender
            &&& !after.ended
        }),
{
}

/// Every disconnect removes the player of its stream, and from then on the stream is not
/// connected. It is reported exactly if the stream was not connected before.
pub proof fn every_disconnect_despawns_a_player<S>(
    proxy_id: u64,
    state: SessionState<S>,
    stream: u64,
)
    requires
        !state.ended,
    ensures
        ({
            let disconnect = ProxyEvent::<S>::PlayerDisconnect { stream };
            let step = step_for(proxy_id, state, disconnect);
            let after = session_after(state, disconnect);
            &&& step.action == SessionAction::Run(WorldCommand::DespawnPlayer { stream })
            &&& step.report == if state.senders.dom().contains(stream) {
                None
            } else {
                Some(SessionReport::DisconnectOfUnknownStream)
            }
            &&& !after.senders.dom().contains(stream)
            &&& !after.ended
        }),
{
}

/// Packets of a connected stream are sent on unchanged, whatever they are; those of any other
/// stream are dropped and reported. No stream is affected.
pub proof fn packets_are_sent_on_unchanged<S>(
    proxy_id: u64,
    state: SessionState<S>,
    stream: u64,
    data: Vec<u8>,
)
    requires
        !state.ended,
    ensures
        ({
            let packets = ProxyEvent::<S>::PlayerPackets { stream, data };
            let step = step_for(proxy_id, state, packets);
            &&& state.senders.dom().contains(stream) ==> step.action == (SessionAction::Send {
                stream,
                data,
            }) && step.report is None
            &&& !state.senders.dom().contains(stream) ==> step.action is Continue && step.report
                == Some(SessionReport::PacketsOfUnknownStream)
            &&& session_after(state, packets) == state
        }),
{
}

/// A player whose packets were refused for what they are is disconnected and reported, and
/// nobody else is: neither one whose packets were sent nor one whose channel the game has closed.
pub proof fn only_illegal_packets_disconnect<S>(
    proxy_id: u64,
    state: SessionState<S>,
    stream: u64,
    result: Result<(), SendError>,
)
    requires
        !state.ended,
    ensures
        ({
            let sent = ProxyEvent::<S>::PacketsSent { stream, result };
            let step = step_for(proxy_id, state, sent);
            &&& result == Err::<(), _>(SendError::ZeroLengthPacket) ==> step.report == Some(
                SessionReport::ZeroLengthPacket,
            )
            &&& result == Err::<(), _>(SendError::TooLargePacket) ==> step.report == Some(
                SessionReport::TooLargePacket,
            )
            &&& result is Ok || result == Err::<(), _>(SendError::AlreadyClosed) ==> step.report
                is None && step.action is Continue
            &&& step.report is Some ==> step.action == SessionAction::Run(
                WorldCommand::ShutdownPlayer { stream, proxy_id },
            )
            &&& session_after(state, sent) == state
        }),
{
}

/// That a proxy is ready changes nothing. A failed read ends the session, and the players of the
/// proxy are removed; neither is reported.
pub proof fn readiness_changes_nothing_and_failure_ends<S>(proxy_id: u64, state: SessionState<S>)
    requires
        !state.ended,
    ensures
        ({
            let ready = step_for(proxy_id, state, ProxyEvent::ProxyReady);
            let failed = step_for(proxy_id, state, ProxyEvent::ReadFailed);
            let after = session_after(state, ProxyEvent::ReadFailed);
            &&& ready.action is Continue
            &&& ready.report is None
            &&& session_after(state, ProxyEvent::ProxyReady) == state
            &&& failed.action == SessionAction::Stop(WorldCommand::RemoveProxyPlayers { proxy_id })
            &&& failed.report is None
            &&& after.ended
            &&& after.senders == state.senders
        }),
{
}

/// A session that has ended answers nothing that happens with anything to do or to report, and
/// stays as it is; one that starts has no stream and has not ended.
pub proof fn an_ended_session_stays_as_it_is<S>(
    proxy_id: u64,
    state: SessionState<S>,
    event: ProxyEvent<S>,
    stream: u64,
)
    ensures
        state.ended ==> step_for(proxy_id, state, event).action is Ended && step_for(
            proxy_id,
            state,
            event,
        ).report is None && session_after(state, event) == state,
        !session_at_start::<S>().ended,
        !session_at_start::<S>().senders.dom().contains(stream),
{
}

} // verus!
