//! The loops of the proxy: keeping a connection to the game server, reading from it, and
//! accepting players.
use vstd::prelude::*;

use crate::proxy_cli::ServerTransport;
use crate::text::join;

verus! {

/// How many messages may wait for one player. A player that falls further behind is
/// disconnected, so that slow players do not exhaust the memory.
pub const MAX_PLAYER_PENDING_MESSAGES: usize = 1024;

/// How many milliseconds lie between two attempts to reach the game server.
pub const SERVER_CONNECT_RETRY_DELAY_MILLIS: u64 = 100;

/// The id of the first player. Zero stands for no player.
pub const FIRST_PLAYER_ID: u64 = 1;

/// What a connection to the game server is to be shut down for.
#[derive(Clone, Copy, Debug, PartialEq, Eq, Structural)]
pub enum ShutdownType {
    /// To connect again.
    Reconnect,
    /// To end the proxy.
    Full,
}

/// The next thing to do about a connection to the game server.
#[derive(Debug, PartialEq, Eq)]
pub enum ConnectStep<T> {
    /// The connection stands.
    Connected(T),
    /// Wait this many milliseconds and try again.
    RetryAfterMillis(u64),
}

/// Decides what follows an attempt to connect: a failed one is repeated after a while, as
/// often as it takes.
pub fn connect<T>(attempt: Option<T>) -> (step: ConnectStep<T>)
    ensures
        step == match attempt {
            Some(stream) => ConnectStep::Connected(stream),
            None => ConnectStep::RetryAfterMillis(SERVER_CONNECT_RETRY_DELAY_MILLIS),
        },
{
    match attempt {
        Some(stream) => ConnectStep::Connected(stream),
        None => ConnectStep::RetryAfterMillis(SERVER_CONNECT_RETRY_DELAY_MILLIS),
    }
}

/// How far the loop that keeps a connection to the game server has come.
#[derive(Clone, Copy, Debug, PartialEq, Eq, Structural)]
pub enum ProxyStage {
    /// It is about to look at the shutdown request.
    Deciding,
    /// It serves a connection, or tries to make one.
    Serving,
    /// It has ended.
    Ended,
}

/// What can happen to the loop that keeps a connection to the game server.
#[derive(Clone, Copy, Debug, PartialEq, Eq, Structural)]
pub enum ProxyLoopEvent {
    /// The shutdown request was looked at: this is what it says.
    ShutdownRequest(Option<ShutdownType>),
    /// While a connection was served, the shutdown request came to be a full one.
    FullShutdown,
    /// The connection ended, or could not be made.
    ConnectionEnded,
}

/// What the loop that keeps a connection to the game server does next.
#[derive(Clone, Copy, Debug, PartialEq, Eq, Structural)]
pub enum ProxyLoopAction {
    /// Look at the shutdown request.
    LookAtShutdown,
    /// Withdraw the shutdown request, then connect and serve the connection.
    ClearShutdownAndServe,
    /// Keep serving the connection.
    KeepServing,
    /// End the proxy.
    Exit,
}

/// The loop that keeps a connection to the game server.
#[derive(Debug)]
pub struct ProxyLoop {
    stage: ProxyStage,
}

/// The stage after an event.
pub open spec fn proxy_stage_after(stage: ProxyStage, event: ProxyLoopEvent) -> ProxyStage {
    match (stage, event) {
        (ProxyStage::Deciding, ProxyLoopEvent::ShutdownRequest(Some(ShutdownType::Full))) =>
            ProxyStage::Ended,
        (ProxyStage::Deciding, ProxyLoopEvent::ShutdownRequest(_)) => ProxyStage::Serving,
        (ProxyStage::Serving, ProxyLoopEvent::FullShutdown) => ProxyStage::Ended,
        (ProxyStage::Serving, ProxyLoopEvent::ConnectionEnded) => ProxyStage::Deciding,
        _ => stage,
    }
}

/// What the loop does in a stage that it has just come to, or stays in.
pub open spec fn proxy_action(stage: ProxyStage, event: ProxyLoopEvent) -> ProxyLoopAction {
    match proxy_stage_after(stage, event) {
        ProxyStage::Deciding => ProxyLoopAction::LookAtShutdown,
        ProxyStage::Serving => if stage is Serving {
            ProxyLoopAction::KeepServing
        } else {
            ProxyLoopAction::ClearShutdownAndServe
        },
        ProxyStage::Ended => ProxyLoopAction::Exit,
    }
}

impl ProxyLoop {
    /// How far the loop has come.
    pub closed spec fn stage(self) -> ProxyStage {
        self.stage
    }

    /// A loop that is about to look at the shutdown request.
    pub fn new() -> (proxy_loop: Self)
        ensures
            proxy_loop.stage() is Deciding,
    {
        ProxyLoop { stage: ProxyStage::Deciding }
    }

    /// Takes in what happened and says what to do.
    pub fn step(&mut self, event: ProxyLoopEvent) -> (action: ProxyLoopAction)
        ensures
            final(self).stage() == proxy_stage_after(old(self).stage(), event),
            action == proxy_action(old(self).stage(), event),
    {
        match self.stage {
            ProxyStage::Deciding => match event {
                ProxyLoopEvent::ShutdownRequest(Some(ShutdownType::Full)) => {
                    self.stage = ProxyStage::Ended;
                    ProxyLoopAction::Exit
                },
                ProxyLoopEvent::ShutdownRequest(_) => {
                    self.stage = ProxyStage::Serving;
                    ProxyLoopAction::ClearShutdownAndServe
                },
                _ => ProxyLoopAction::LookAtShutdown,
            },
            ProxyStage::Serving => match event {
                ProxyLoopEvent::FullShutdown => {
                    self.stage = ProxyStage::Ended;
                    ProxyLoopAction::Exit
                },
                ProxyLoopEvent::ConnectionEnded => {
                    self.stage = ProxyStage::Deciding;
                    ProxyLoopAction::LookAtShutdown
                },
                ProxyLoopEvent::ShutdownRequest(_) => ProxyLoopAction::KeepServing,
            },
            ProxyStage::Ended => ProxyLoopAction::Exit,
        }
    }
}

/// The loop ends exactly where it sees a full shutdown, and once ended it stays so.
pub proof fn only_a_full_shutdown_ends_the_proxy(stage: ProxyStage, event: ProxyLoopEvent)
    ensures
        proxy_action(stage, event) is Exit <==> {
            ||| stage is Ended
            ||| stage is Deciding && event == ProxyLoopEvent::ShutdownRequest(
                Some(ShutdownType::Full),
            )
            ||| stage is Serving && event is FullShutdown
        },
        proxy_action(stage, event) is Exit <==> proxy_stage_after(stage, event) is Ended,
{
}

/// After a connection has ended, the loop connects again unless a full shutdown is asked for
/// by then.
pub proof fn a_lost_connection_is_made_again(request: Option<ShutdownType>)
    ensures
        ({
            let deciding = proxy_stage_after(ProxyStage::Serving, ProxyLoopEvent::ConnectionEnded);
            proxy_action(deciding, ProxyLoopEvent::ShutdownRequest(request)) == if request == Some(
                ShutdownType::Full,
            ) {
                ProxyLoopAction::Exit
            } else {
                ProxyLoopAction::ClearShutdownAndServe
            }
        }),
{
}

/// What can happen to the task that reads from the game server.
#[derive(Clone, Copy, Debug, PartialEq, Eq, Structural)]
pub enum ReaderEvent {
    /// A shutdown was asked for.
    ShutdownRequested,
    /// A packet was read and handled.
    PacketHandled,
    /// No packet could be read.
    PacketFailed,
}

/// What the task that reads from the game server does next.
#[derive(Clone, Copy, Debug, PartialEq, Eq, Structural)]
pub enum ReaderAction {
    /// Read the next packet.
    ReadNext,
    /// End, and ask for this shutdown.
    EndAndRequest(ShutdownType),
    /// End.
    End,
}

/// What the task that reads from the game server does after an event: it reads until a shutdown
/// is asked for, or until reading fails, which asks for a reconnect. Once it has ended, it does
/// nothing more.
pub open spec fn reader_action(ended: bool, event: ReaderEvent) -> ReaderAction {
    if ended {
        ReaderAction::End
    } else {
        match event {
            ReaderEvent::ShutdownRequested => ReaderAction::End,
            ReaderEvent::PacketHandled => ReaderAction::ReadNext,
            ReaderEvent::PacketFailed => ReaderAction::EndAndRequest(ShutdownType::Reconnect),
        }
    }
}

/// Whether the task that reads from the game server has ended after an event.
pub open spec fn reader_ended_after(ended: bool, event: ReaderEvent) -> bool {
    ended || event !is PacketHandled
}

/// The task that reads from the game server.
#[derive(Debug)]
pub struct ServerReader {
    ended: bool,
}

impl ServerReader {
    /// Whether the task has ended.
    pub closed spec fn ended(self) -> bool {
        self.ended
    }

    /// A task that reads.
    pub fn new() -> (reader: Self)
        ensures
            !reader.ended(),
    {
        ServerReader { ended: false }
    }

    /// Takes in what happened and says what to do.
    pub fn step(&mut self, event: ReaderEvent) -> (action: ReaderAction)
        ensures
            final(self).ended() == reader_ended_after(old(self).ended(), event),
            action == reader_action(old(self).ended(), event),
    {
        if self.ended {
            return ReaderAction::End;
        }
        match event {
            ReaderEvent::ShutdownRequested => {
                self.ended = true;
                ReaderAction::End
            },
            ReaderEvent::PacketHandled => ReaderAction::ReadNext,
            ReaderEvent::PacketFailed => {
                self.ended = true;
                ReaderAction::EndAndRequest(ShutdownType::Reconnect)
            },
        }
    }
}

/// The task that reads from the game server asks for a shutdown once at most: whatever it does
/// but reading on ends it, and then it only ends.
pub proof fn reader_asks_once_at_most(ended: bool, event: ReaderEvent, later: ReaderEvent)
    ensures
        reader_action(ended, event) is ReadNext <==> !reader_ended_after(ended, event),
        reader_ended_after(ended, event) ==> reader_action(
            reader_ended_after(ended, event),
            later,
        ) is End,
{
}

/// What can happen to the task that accepts players.
#[derive(Clone, Copy, Debug, PartialEq, Eq, Structural)]
pub enum AcceptEvent {
    /// A shutdown was asked for.
    ShutdownRequested,
    /// A player connected.
    PlayerAccepted,
    /// A player could not be accepted.
    AcceptFailed,
}

/// What the task that accepts players does next.
#[derive(Clone, Copy, Debug, PartialEq, Eq, Structural)]
pub enum AcceptAction {
    /// End without error.
    End,
    /// Register the player under this id, with room for this many waiting messages, serve
    /// the player, and accept the next one.
    Register { player_id: u64, pending_messages: usize },
    /// Accept nobody any more and wait for a shutdown.
    AwaitShutdown,
}

/// How far the task that accepts players has come.
#[derive(Clone, Copy, Debug, PartialEq, Eq, Structural)]
pub enum AcceptStage {
    /// It accepts players.
    Accepting,
    /// It accepts nobody any more and waits for a shutdown.
    AwaitingShutdown,
    /// It has ended.
    Ended,
}

/// The stage after an event.
pub open spec fn accept_stage_after(stage: AcceptStage, event: AcceptEvent) -> AcceptStage {
    match (stage, event) {
        (AcceptStage::Ended, _) => AcceptStage::Ended,
        (_, AcceptEvent::ShutdownRequested) => AcceptStage::Ended,
        (AcceptStage::Accepting, AcceptEvent::AcceptFailed) => AcceptStage::AwaitingShutdown,
        _ => stage,
    }
}

/// The id of the next player after an event, where `id` is the one before: only a player that
/// is accepted uses an id up.
pub open spec fn next_id(stage: AcceptStage, id: int, event: AcceptEvent) -> int {
    if stage is Accepting && event is PlayerAccepted {
        id + 1
    } else {
        id
    }
}

/// What the task does after an event, where `id` is the id of the next player.
pub open spec fn accept_action(stage: AcceptStage, id: u64, event: AcceptEvent) -> AcceptAction {
    match accept_stage_after(stage, event) {
        AcceptStage::Accepting => AcceptAction::Register {
            player_id: id,
            pending_messages: MAX_PLAYER_PENDING_MESSAGES,
        },
        AcceptStage::AwaitingShutdown => AcceptAction::AwaitShutdown,
        AcceptStage::Ended => AcceptAction::End,
    }
}

/// The task that accepts players.
#[derive(Debug)]
pub struct PlayerAcceptor {
    stage: AcceptStage,
    player_id_on: u64,
}

impl PlayerAcceptor {
    /// How far the task has come.
    pub closed spec fn stage(self) -> AcceptStage {
        self.stage
    }

    /// The id of the next player.
    pub closed spec fn next_player_id(self) -> u64 {
        self.player_id_on
    }

    /// No player has been accepted yet.
    pub fn new() -> (acceptor: Self)
        ensures
            acceptor.stage() is Accepting,
            acceptor.next_player_id() == FIRST_PLAYER_ID,
    {
        PlayerAcceptor { stage: AcceptStage::Accepting, player_id_on: FIRST_PLAYER_ID }
    }

    /// Whether players are accepted.
    pub fn is_accepting(&self) -> (accepting: bool)
        ensures
            accepting == (self.stage() is Accepting),
    {
        matches!(self.stage, AcceptStage::Accepting)
    }

    /// Whether another player can be given an id.
    pub fn has_next(&self) -> (more: bool)
        ensures
            more == (self.next_player_id() < u64::MAX),
    {
        self.player_id_on < u64::MAX
    }

    /// Takes in what happened and says what to do. Each player gets the id after the
    /// previous player's. Once accepting has failed or a shutdown was asked for, nobody is
    /// accepted any more.
    pub fn step(&mut self, event: AcceptEvent) -> (action: AcceptAction)
        requires
            old(self).stage() is Accepting && event is PlayerAccepted ==> old(
                self,
            ).next_player_id() < u64::MAX,
        ensures
            final(self).stage() == accept_stage_after(old(self).stage(), event),
            final(self).next_player_id() == next_id(
                old(self).stage(),
                old(self).next_player_id() as int,
                event,
            ),
            action == accept_action(old(self).stage(), old(self).next_player_id(), event),
    {
        match self.stage {
            AcceptStage::Accepting => match event {
                AcceptEvent::ShutdownRequested => {
                    self.stage = AcceptStage::Ended;
                    AcceptAction::End
                },
                AcceptEvent::PlayerAccepted => {
                    let player_id: u64 = self.player_id_on;
                    self.player_id_on = player_id + 1;
                    AcceptAction::Register {
                        player_id,
                        pending_messages: MAX_PLAYER_PENDING_MESSAGES,
                    }
                },
                AcceptEvent::AcceptFailed => {
                    self.stage = AcceptStage::AwaitingShutdown;
                    AcceptAction::AwaitShutdown
                },
            },
            AcceptStage::AwaitingShutdown => match event {
                AcceptEvent::ShutdownRequested => {
                    self.stage = AcceptStage::Ended;
                    AcceptAction::End
                },
                _ => AcceptAction::AwaitShutdown,
            },
            AcceptStage::Ended => AcceptAction::End,
        }
    }
}

/// The stage after a run of events, from the start.
pub open spec fn accept_stage_after_all(events: Seq<AcceptEvent>) -> AcceptStage
    decreases events.len(),
{
    if events.len() == 0 {
        AcceptStage::Accepting
    } else {
        accept_stage_after(accept_stage_after_all(events.drop_last()), events.last())
    }
}

/// The id that the next player gets after a run of events, from the start.
pub open spec fn next_id_after(events: Seq<AcceptEvent>) -> int
    decreases events.len(),
{
    if events.len() == 0 {
        FIRST_PLAYER_ID as int
    } else {
        next_id(
            accept_stage_after_all(events.drop_last()),
            next_id_after(events.drop_last()),
            events.last(),
        )
    }
}

/// Whether the event at a place of a run has a player registered.
pub open spec fn registers(events: Seq<AcceptEvent>, at: int) -> bool {
    accept_stage_after_all(events.take(at)) is Accepting && events[at] is PlayerAccepted
}

/// A player is registered exactly if one is accepted while the task accepts players; once it
/// does not, it never does again, so that nobody is registered whatever happens later.
pub proof fn nobody_is_registered_after_accepting(
    stage: AcceptStage,
    id: u64,
    event: AcceptEvent,
    later: AcceptEvent,
    later_id: u64,
)
    ensures
        accept_action(stage, id, event) is Register <==> stage is Accepting
            && event is PlayerAccepted,
        stage !is Accepting ==> accept_stage_after(stage, event) !is Accepting,
        accept_action(stage, id, event) !is Register ==> accept_action(
            accept_stage_after(stage, event),
            later_id,
            later,
        ) !is Register,
        accept_action(stage, id, event) is End ==> accept_action(
            accept_stage_after(stage, event),
            later_id,
            later,
        ) is End,
{
}

/// No player gets the id zero, and no two players that are registered get the same id: the one
/// that is registered later gets the larger one.
pub proof fn player_ids_are_distinct(events: Seq<AcceptEvent>, earlier: int, later: int)
    requires
        0 <= earlier < later < events.len(),
        registers(events, earlier),
        registers(events, later),
    ensures
        0 < next_id_after(events.take(earlier)) < next_id_after(events.take(later)),
{
    player_ids_are_positive(events.take(earlier));
    next_id_never_falls(events, earlier + 1, later);
    assert(events.take(earlier + 1).drop_last() =~= events.take(earlier));
    assert(events.take(earlier + 1).last() == events[earlier]);
}

/// No player gets the id zero.
pub proof fn player_ids_are_positive(events: Seq<AcceptEvent>)
    ensures
        next_id_after(events) > 0,
    decreases events.len(),
{
    if events.len() > 0 {
        player_ids_are_positive(events.drop_last());
    }
}

proof fn next_id_never_falls(events: Seq<AcceptEvent>, from: int, to: int)
    requires
        0 <= from <= to <= events.len(),
    ensures
        next_id_after(events.take(from)) <= next_id_after(events.take(to)),
    decreases to - from,
{
    if from < to {
        next_id_never_falls(events, from, to - 1);
        assert(events.take(to).drop_last() =~= events.take(to - 1));
    }
}

/// How far a proxy has come with its connection to the game server.
#[derive(Clone, Copy, Debug, PartialEq, Eq, Structural)]
pub enum LinkStage {
    /// It connects.
    Connecting,
    /// It opens a stream.
    OpeningStream,
    /// It announces that it is ready.
    Announcing,
    /// It serves players.
    Serving,
    /// It has given up.
    Failed,
}

/// What a proxy does about its connection to the game server.
#[derive(Debug, PartialEq, Eq)]
pub enum LinkAction {
    /// Open a stream.
    OpenStream,
    /// Send the message that the proxy is ready.
    SendReady,
    /// Serve players.
    Serve,
    /// Give up, with this explanation.
    GiveUp { explanation: String },
    /// Nothing: the proxy has given up already.
    Ended,
}

/// A proxy's connection to the game server while it is being made.
#[derive(Debug)]
pub struct ServerLink {
    transport: ServerTransport,
    stage: LinkStage,
}

/// The stage that follows when what a stage does has succeeded. Over TCP the connection is
/// the stream, and nothing is announced.
pub open spec fn next_link_stage(transport: ServerTransport, stage: LinkStage) -> LinkStage {
    match (transport, stage) {
        (ServerTransport::Tcp, LinkStage::Connecting) => LinkStage::Serving,
        (ServerTransport::Iroh, LinkStage::Connecting) => LinkStage::OpeningStream,
        (_, LinkStage::OpeningStream) => LinkStage::Announcing,
        (_, LinkStage::Announcing) => LinkStage::Serving,
        (_, LinkStage::Serving) => LinkStage::Serving,
        (_, LinkStage::Failed) => LinkStage::Failed,
    }
}

/// What is said when what a stage does has failed with `error`.
pub open spec fn link_failure(
    transport: ServerTransport,
    stage: LinkStage,
    error: Seq<char>,
) -> Seq<char> {
    match (transport, stage) {
        (ServerTransport::Tcp, LinkStage::Connecting) => "failed to connect to game server"@,
        (ServerTransport::Iroh, LinkStage::Connecting) =>
            "failed to connect to Iroh game server"@,
        (_, LinkStage::OpeningStream) => "failed to open Iroh proxy stream"@,
        (_, LinkStage::Announcing) => "failed to send proxy ready message: "@ + error,
        (_, LinkStage::Serving) => error,
        (_, LinkStage::Failed) => error,
    }
}

impl ServerLink {
    /// The way the proxy is connected.
    pub closed spec fn transport(self) -> ServerTransport {
        self.transport
    }

    /// How far the proxy has come.
    pub closed spec fn stage(self) -> LinkStage {
        self.stage
    }

    /// A connection that is to be made.
    pub fn new(transport: ServerTransport) -> (link: Self)
        ensures
            link.transport() == transport,
            link.stage() is Connecting,
    {
        ServerLink { transport, stage: LinkStage::Connecting }
    }

    /// Takes in that what the proxy was doing has succeeded, and says what to do next.
    pub fn succeeded(&mut self) -> (action: LinkAction)
        ensures
            final(self).transport() == old(self).transport(),
            final(self).stage() == next_link_stage(old(self).transport(), old(self).stage()),
            match final(self).stage() {
                LinkStage::Connecting => false,
                LinkStage::OpeningStream => action is OpenStream,
                LinkStage::Announcing => action is SendReady,
                LinkStage::Serving => action is Serve,
                LinkStage::Failed => action is Ended,
            },
    {
        match self.stage {
            LinkStage::Connecting => match self.transport {
                ServerTransport::Tcp => {
                    self.stage = LinkStage::Serving;
                    LinkAction::Serve
                },
                ServerTransport::Iroh => {
                    self.stage = LinkStage::OpeningStream;
                    LinkAction::OpenStream
                },
            },
            LinkStage::OpeningStream => {
                self.stage = LinkStage::Announcing;
                LinkAction::SendReady
            },
            LinkStage::Announcing => {
                self.stage = LinkStage::Serving;
                LinkAction::Serve
            },
            LinkStage::Serving => LinkAction::Serve,
            LinkStage::Failed => LinkAction::Ended,
        }
    }

    /// Takes in that what the proxy was doing has failed, and says what to do next.
    pub fn failed(&mut self, error: &str) -> (action: LinkAction)
        ensures
            final(self).transport() == old(self).transport(),
            final(self).stage() is Failed,
            action matches LinkAction::GiveUp { explanation } && explanation@ == link_failure(
                old(self).transport(),
                old(self).stage(),
                error@,
            ),
    {
        let explanation: String = match self.stage {
            LinkStage::Connecting => match self.transport {
                ServerTransport::Tcp => "failed to connect to game server".to_owned(),
                ServerTransport::Iroh => "failed to connect to Iroh game server".to_owned(),
            },
            LinkStage::OpeningStream => "failed to open Iroh proxy stream".to_owned(),
            LinkStage::Announcing => join("failed to send proxy ready message: ", error),
            LinkStage::Serving => error.to_owned(),
            LinkStage::Failed => error.to_owned(),
        };
        self.stage = LinkStage::Failed;
        LinkAction::GiveUp { explanation }
    }

    /// Takes in that the message that the proxy is ready cannot be written, so that there is
    /// nothing to send, and says what to do next.
    pub fn ready_not_encoded(&mut self) -> (action: LinkAction)
        ensures
            final(self).transport() == old(self).transport(),
            final(self).stage() is Failed,
            action matches LinkAction::GiveUp { explanation } && explanation@
                == "failed to encode proxy ready message"@,
    {
        self.stage = LinkStage::Failed;
        LinkAction::GiveUp { explanation: "failed to encode proxy ready message".to_owned() }
    }
}

/// The stage after a number of successes, from the start.
pub open spec fn link_stage_after(transport: ServerTransport, successes: nat) -> LinkStage
    decreases successes,
{
    if successes == 0 {
        LinkStage::Connecting
    } else {
        next_link_stage(transport, link_stage_after(transport, (successes - 1) as nat))
    }
}

/// Over Iroh players are served only after the message that the proxy is ready was sent;
/// over TCP they are served at once, and that message is never sent.
pub proof fn ready_is_announced_before_serving(successes: nat)
    ensures
        link_stage_after(ServerTransport::Iroh, successes) == if successes == 0 {
            LinkStage::Connecting
        } else if successes == 1 {
            LinkStage::OpeningStream
        } else if successes == 2 {
            LinkStage::Announcing
        } else {
            LinkStage::Serving
        },
        link_stage_after(ServerTransport::Tcp, successes) == if successes == 0 {
            LinkStage::Connecting
        } else {
            LinkStage::Serving
        },
    decreases successes,
{
    if successes > 0 {
        ready_is_announced_before_serving((successes - 1) as nat);
    }
}

/// What the task that accepts players does at one place of a run of events, from the start.
pub open spec fn accept_action_at(events: Seq<AcceptEvent>, at: int) -> AcceptAction {
    accept_action(
        accept_stage_after_all(events.take(at)),
        next_id_after(events.take(at)) as u64,
        events[at],
    )
}

proof fn accepting_counts_players(events: Seq<AcceptEvent>)
    ensures
        (forall|i: int| 0 <= i < events.len() ==> #[trigger] events[i] is PlayerAccepted) ==> {
            &&& accept_stage_after_all(events) is Accepting
            &&& next_id_after(events) == events.len() + 1
        },
        (exists|i: int| 0 <= i < events.len() && #[trigger] events[i] is ShutdownRequested)
            ==> accept_stage_after_all(events) is Ended,
        (exists|i: int| 0 <= i < events.len() && !(#[trigger] events[i] is PlayerAccepted)) && (
        forall|i: int| 0 <= i < events.len() ==> !(#[trigger] events[i] is ShutdownRequested))
            ==> accept_stage_after_all(events) is AwaitingShutdown,
    decreases events.len(),
{
    if events.len() > 0 {
        let earlier = events.drop_last();
        accepting_counts_players(earlier);
        assert forall|i: int| 0 <= i < earlier.len() implies #[trigger] earlier[i] == events[i] by {}
        if exists|i: int| 0 <= i < events.len() && #[trigger] events[i] is ShutdownRequested {
            let i = choose|i: int|
                0 <= i < events.len() && #[trigger] events[i] is ShutdownRequested;
            if i < earlier.len() {
                assert(earlier[i] is ShutdownRequested);
            }
        } else if exists|i: int| 0 <= i < events.len() && !(#[trigger] events[i] is PlayerAccepted) {
            let i = choose|i: int|
                0 <= i < events.len() && !(#[trigger] events[i] is PlayerAccepted);
            if i < earlier.len() {
                assert(!(earlier[i] is PlayerAccepted));
            } else if exists|k: int|
                0 <= k < earlier.len() && !(#[trigger] earlier[k] is PlayerAccepted) {
            } else {
                assert(accept_stage_after_all(earlier) is Accepting);
            }
        }
    }
}

/// As long as nothing but players comes, the players are registered under one, two, three and so
/// on, each with room for a thousand and twenty-four messages: the id in the registration is the
/// player's place in the order of arrival. So it is never zero, and no two are the same.
pub proof fn the_nth_player_gets_the_id_n(events: Seq<AcceptEvent>, at: int)
    requires
        0 <= at < events.len(),
        at < u64::MAX - 1,
        forall|i: int| 0 <= i <= at ==> #[trigger] events[i] is PlayerAccepted,
    ensures
        accept_action_at(events, at) matches AcceptAction::Register { player_id, pending_messages }
            && player_id == at + 1 && pending_messages == 1024,
{
    accepting_counts_players(events.take(at));
}

/// Two registrations of one run have different ids, the later one the larger, and neither is
/// zero, whatever else happens in the run.
pub proof fn registered_ids_are_distinct(events: Seq<AcceptEvent>, earlier: int, later: int)
    requires
        0 <= earlier < later < events.len(),
        later < u64::MAX - 1,
        accept_action_at(events, earlier) is Register,
        accept_action_at(events, later) is Register,
    ensures
        0 < accept_action_at(events, earlier)->player_id < accept_action_at(
            events,
            later,
        )->player_id,
{
    registered_only_among_players(events, earlier);
    registered_only_among_players(events, later);
    the_nth_player_gets_the_id_n(events, earlier);
    the_nth_player_gets_the_id_n(events, later);
}

/// A player is registered only if nothing but players came until then. After a failure to accept
/// the task waits, and after a request for a shutdown it has ended, whatever comes.
pub proof fn registered_only_among_players(events: Seq<AcceptEvent>, at: int)
    requires
        0 <= at < events.len(),
    ensures
        accept_action_at(events, at) is Register <==> (forall|i: int|
            0 <= i <= at ==> #[trigger] events[i] is PlayerAccepted),
        accept_action_at(events, at) is End <==> (exists|i: int|
            0 <= i <= at && #[trigger] events[i] is ShutdownRequested),
{
    let run = events.take(at + 1);
    assert(run.drop_last() =~= events.take(at));
    assert(run.last() == events[at]);
    accepting_counts_players(run);
    assert forall|i: int| 0 <= i <= at implies #[trigger] run[i] == events[i] by {}
    if forall|i: int| 0 <= i <= at ==> #[trigger] events[i] is PlayerAccepted {
        assert forall|i: int| 0 <= i < run.len() implies #[trigger] run[i] is PlayerAccepted by {
            assert(events[i] is PlayerAccepted);
        }
    } else {
        let k = choose|k: int| 0 <= k <= at && !(#[trigger] events[k] is PlayerAccepted);
        assert(!(run[k] is PlayerAccepted));
        if exists|i: int| 0 <= i <= at && #[trigger] events[i] is ShutdownRequested {
            let i = choose|i: int| 0 <= i <= at && #[trigger] events[i] is ShutdownRequested;
            assert(run[i] is ShutdownRequested);
        } else {
            assert forall|i: int| 0 <= i < run.len() implies !(
            #[trigger] run[i] is ShutdownRequested) by {
                assert(!(events[i] is ShutdownRequested));
            }
        }
    }
}

/// A proxy that is about to look at the shutdown request serves unless the request is a full
/// shutdown, and looks again at anything else. One that serves goes on at a look, looks at the
/// request when the connection has ended, and ends at a full shutdown. One that has ended does
/// not go on.
pub proof fn the_proxy_serves_unless_fully_shut_down(
    request: Option<ShutdownType>,
    event: ProxyLoopEvent,
)
    ensures
        request == Some(ShutdownType::Full) ==> proxy_action(
            ProxyStage::Deciding,
            ProxyLoopEvent::ShutdownRequest(request),
        ) is Exit,
        request != Some(ShutdownType::Full) ==> {
            &&& proxy_action(ProxyStage::Deciding, ProxyLoopEvent::ShutdownRequest(request))
                is ClearShutdownAndServe
            &&& proxy_stage_after(ProxyStage::Deciding, ProxyLoopEvent::ShutdownRequest(request))
                is Serving
        },
        event !is ShutdownRequest ==> proxy_action(ProxyStage::Deciding, event) is LookAtShutdown
            && proxy_stage_after(ProxyStage::Deciding, event) is Deciding,
        proxy_action(ProxyStage::Serving, ProxyLoopEvent::ShutdownRequest(request)) is KeepServing,
        proxy_stage_after(ProxyStage::Serving, ProxyLoopEvent::ShutdownRequest(request)) is Serving,
        proxy_action(ProxyStage::Serving, ProxyLoopEvent::ConnectionEnded) is LookAtShutdown,
        proxy_stage_after(ProxyStage::Serving, ProxyLoopEvent::ConnectionEnded) is Deciding,
        proxy_action(ProxyStage::Serving, ProxyLoopEvent::FullShutdown) is Exit,
        proxy_action(ProxyStage::Ended, event) is Exit,
        proxy_stage_after(ProxyStage::Ended, event) is Ended,
{
}

/// The reader reads on exactly after a packet that was handled, asks for a reconnect exactly
/// after one that failed, and ends silently at a shutdown.
pub proof fn only_a_failed_packet_asks_for_a_reconnect(event: ReaderEvent)
    ensures
        reader_action(false, event) is ReadNext <==> event is PacketHandled,
        reader_action(false, event) is End <==> event is ShutdownRequested,
        reader_action(false, event) == ReaderAction::EndAndRequest(ShutdownType::Reconnect)
            <==> event is PacketFailed,
        reader_action(true, event) is End,
        reader_ended_after(false, event) <==> event is PacketFailed || event is ShutdownRequested,
        reader_ended_after(true, event),
{
}

/// What failed is said by its stage: connecting and opening a stream by fixed texts, announcing
/// by one that ends with the error, whatever the error is; later the error speaks for itself.
pub proof fn failures_are_explained_by_their_stage(transport: ServerTransport, error: Seq<char>)
    ensures
        link_failure(ServerTransport::Tcp, LinkStage::Connecting, error)
            == "failed to connect to game server"@,
        link_failure(ServerTransport::Iroh, LinkStage::Connecting, error)
            == "failed to connect to Iroh game server"@,
        link_failure(transport, LinkStage::OpeningStream, error)
            == "failed to open Iroh proxy stream"@,
        link_failure(transport, LinkStage::Announcing, error)
            == "failed to send proxy ready message: "@ + error,
        link_failure(transport, LinkStage::Serving, error) == error,
        link_failure(transport, LinkStage::Failed, error) == error,
{
}

/// Whatever the transport, each stage leads to one that comes later, a link that serves goes on
/// serving, and one that has failed stays so.
pub proof fn links_only_go_forward(transport: ServerTransport)
    ensures
        next_link_stage(transport, LinkStage::OpeningStream) is Announcing,
        next_link_stage(transport, LinkStage::Announcing) is Serving,
        next_link_stage(transport, LinkStage::Serving) is Serving,
        next_link_stage(transport, LinkStage::Failed) is Failed,
        next_link_stage(ServerTransport::Tcp, LinkStage::Connecting) is Serving,
        next_link_stage(ServerTransport::Iroh, LinkStage::Connecting) is OpeningStream,
{
}

/// An attempt that succeeds gives its own connection, and one that fails is repeated.
pub proof fn only_failed_attempts_are_repeated<T>(attempt: Option<T>, step: ConnectStep<T>)
    requires
        call_ensures(connect::<T>, (attempt,), step),
    ensures
        step is Connected <==> attempt is Some,
        step matches ConnectStep::Connected(stream) ==> attempt == Some(stream),
        step matches ConnectStep::RetryAfterMillis(millis) ==> millis == 100,
{
}

} // verus!
