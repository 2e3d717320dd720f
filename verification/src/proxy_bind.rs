//! How a game server takes proxies in: over TCP, or over Iroh from the proxies it allows.
use vstd::prelude::*;

use crate::address::{AddressFamily, PublicKey, SecretKey, SocketAddress};
use crate::server_connection::IrohServerConnection;
use crate::text::hex;

verus! {

/// The protocol that proxy and game server name when they connect over Iroh: the bytes of
/// `hyperion/proxy/1`.
pub const IROH_PROXY_ALPN: [u8; 16] = [
    104, 121, 112, 101, 114, 105, 111, 110, 47, 112, 114, 111, 120, 121, 47, 49,
];

/// The code with which the connection of a rejected proxy is closed.
pub const IROH_PROXY_REJECTED_CLOSE_CODE: u32 = 1;

/// The reason that a rejected proxy is given.
pub const IROH_PROXY_REJECTED_REASON: &'static str = "unauthorized proxy";

/// How to take proxies in over Iroh.
pub struct IrohProxyBind {
    /// The game server's own key; a fresh one is made if there is none.
    pub secret_key: Option<SecretKey>,
    /// The game server's own address.
    pub bind_addr: Option<SocketAddress>,
    /// The proxies that may connect. If there are none, every proxy may.
    pub allowed_proxy_ids: Vec<PublicKey>,
}

impl Clone for IrohProxyBind {
    fn clone(&self) -> (copy: Self)
        ensures
            copy.secret_key == self.secret_key,
            copy.bind_addr == self.bind_addr,
            copy.allowed_proxy_ids@ == self.allowed_proxy_ids@,
    {
        let allowed_proxy_ids: Vec<PublicKey> = self.allowed_proxy_ids.clone();
        assert(allowed_proxy_ids@ =~= self.allowed_proxy_ids@);
        IrohProxyBind {
            secret_key: self.secret_key,
            bind_addr: self.bind_addr.clone(),
            allowed_proxy_ids,
        }
    }
}

impl Default for IrohProxyBind {
    /// A fresh key, any address, and every proxy allowed.
    fn default() -> (bind: Self)
        ensures
            bind.secret_key is None,
            bind.bind_addr is None,
            bind.allowed_proxy_ids@ == Seq::<PublicKey>::empty(),
    {
        IrohProxyBind { secret_key: None, bind_addr: None, allowed_proxy_ids: Vec::new() }
    }
}

/// How to take proxies in.
pub enum ProxyBind {
    /// Over TCP at this address.
    Tcp(SocketAddress),
    /// Over Iroh.
    Iroh(Box<IrohProxyBind>),
}

impl Clone for ProxyBind {
    fn clone(&self) -> (copy: Self)
        ensures
            match *self {
                ProxyBind::Tcp(_) => copy == *self,
                ProxyBind::Iroh(config) => copy matches ProxyBind::Iroh(same) && same.secret_key
                    == config.secret_key && same.bind_addr == config.bind_addr
                    && same.allowed_proxy_ids@ == config.allowed_proxy_ids@,
            },
    {
        match self {
            ProxyBind::Tcp(address) => ProxyBind::Tcp(address.clone()),
            ProxyBind::Iroh(config) => {
                let config: &IrohProxyBind = config;
                ProxyBind::Iroh(Box::new(config.clone()))
            },
        }
    }
}

impl From<SocketAddress> for ProxyBind {
    fn from(value: SocketAddress) -> (bind: Self) {
        ProxyBind::Tcp(value)
    }
}

impl vstd::std_specs::convert::FromSpecImpl<SocketAddress> for ProxyBind {
    open spec fn obeys_from_spec() -> bool {
        true
    }

    open spec fn from_spec(value: SocketAddress) -> Self {
        ProxyBind::Tcp(value)
    }
}

/// Whether a proxy may connect: it is listed, or nobody is.
pub open spec fn allows(allowed_proxy_ids: Seq<PublicKey>, proxy_id: PublicKey) -> bool {
    allowed_proxy_ids.len() == 0 || allowed_proxy_ids.contains(proxy_id)
}

/// Decides whether a proxy may connect.
pub fn proxy_id_is_allowed(allowed_proxy_ids: &[PublicKey], proxy_id: PublicKey) -> (allowed: bool)
    ensures
        allowed == allows(allowed_proxy_ids@, proxy_id),
        allowed == (allowed_proxy_ids@.len() == 0 || allowed_proxy_ids@.contains(proxy_id)),
{
    if allowed_proxy_ids.len() == 0 {
        return true;
    }
    let mut i: usize = 0;
    while i < allowed_proxy_ids.len()
        invariant
            i <= allowed_proxy_ids.len(),
            forall|j: int| 0 <= j < i ==> allowed_proxy_ids@[j] != proxy_id,
        decreases allowed_proxy_ids.len() - i,
    {
        if allowed_proxy_ids[i].same(&proxy_id) {
            return true;
        }
        i = i + 1;
    }
    false
}

/// Which way of taking proxies in to start. `C` is the material for TLS.
pub enum TransportStart<C> {
    /// TCP was asked for, but there is no material for TLS: nothing can be started.
    MissingCrypto,
    /// Listen on TCP.
    Tcp { socket: SocketAddress, crypto: C },
    /// Listen on Iroh.
    Iroh(Box<IrohProxyBind>),
}

/// Decides which way of taking proxies in to start. TCP needs material for TLS; Iroh does
/// not, and does not look at it.
pub fn init_proxy_transport_comms<C>(proxy_bind: ProxyBind, crypto: Option<C>) -> (start:
    TransportStart<C>)
    ensures
        start == match (proxy_bind, crypto) {
            (ProxyBind::Tcp(socket), Some(crypto)) => TransportStart::Tcp { socket, crypto },
            (ProxyBind::Tcp(_), None) => TransportStart::MissingCrypto,
            (ProxyBind::Iroh(config), _) => TransportStart::Iroh(config),
        },
{
    match proxy_bind {
        ProxyBind::Tcp(socket) => match crypto {
            Some(crypto) => TransportStart::Tcp { socket, crypto },
            None => TransportStart::MissingCrypto,
        },
        ProxyBind::Iroh(config) => TransportStart::Iroh(config),
    }
}

/// Takes proxies in over TCP.
pub fn init_proxy_comms<C>(socket: SocketAddress, crypto: C) -> (start: TransportStart<C>)
    ensures
        start == (TransportStart::Tcp { socket, crypto }),
{
    TransportStart::Tcp { socket, crypto }
}

/// Where an Iroh endpoint is bound.
#[derive(Debug, PartialEq, Eq)]
pub enum EndpointBind {
    /// Wherever the system likes.
    Anywhere,
    /// At this address of the fourth version.
    V4(SocketAddress),
    /// At this address of the sixth version.
    V6(SocketAddress),
}

/// How to set an Iroh endpoint up.
pub struct EndpointPlan {
    /// The protocols that the endpoint accepts.
    pub alpns: Vec<[u8; 16]>,
    /// The endpoint's key; a fresh one is made if there is none.
    pub secret_key: Option<SecretKey>,
    /// Where to bind it.
    pub bind: EndpointBind,
}

/// Where an endpoint is bound, given the address that was asked for.
pub open spec fn endpoint_bind(bind_addr: Option<SocketAddress>) -> EndpointBind {
    match bind_addr {
        None => EndpointBind::Anywhere,
        Some(address) => match address.family {
            AddressFamily::V4 => EndpointBind::V4(address),
            AddressFamily::V6 { .. } => EndpointBind::V6(address),
        },
    }
}

/// Decides where an endpoint is bound.
fn choose_bind(bind_addr: &Option<SocketAddress>) -> (bind: EndpointBind)
    ensures
        bind == endpoint_bind(*bind_addr),
{
    match bind_addr {
        None => EndpointBind::Anywhere,
        Some(address) => match address.family {
            AddressFamily::V4 => EndpointBind::V4(address.clone()),
            AddressFamily::V6 { .. } => EndpointBind::V6(address.clone()),
        },
    }
}

/// The endpoint of a game server: it accepts the proxy protocol.
pub fn server_endpoint_plan(config: &IrohProxyBind) -> (plan: EndpointPlan)
    ensures
        plan.alpns@ == seq![IROH_PROXY_ALPN],
        plan.secret_key == config.secret_key,
        plan.bind == endpoint_bind(config.bind_addr),
{
    let mut alpns: Vec<[u8; 16]> = Vec::new();
    alpns.push(IROH_PROXY_ALPN);
    EndpointPlan { alpns, secret_key: config.secret_key, bind: choose_bind(&config.bind_addr) }
}

/// The endpoint of a proxy: it only dials.
pub fn proxy_endpoint_plan(server: &IrohServerConnection) -> (plan: EndpointPlan)
    ensures
        plan.alpns@ == Seq::<[u8; 16]>::empty(),
        plan.secret_key == server.secret_key,
        plan.bind == endpoint_bind(server.bind_addr),
{
    EndpointPlan {
        alpns: Vec::new(),
        secret_key: server.secret_key,
        bind: choose_bind(&server.bind_addr),
    }
}

/// How far a proxy that connects over Iroh has come.
#[derive(Clone, Copy, Debug, PartialEq, Eq)]
pub enum HandshakeStage {
    /// The connection is being made.
    Connecting,
    /// The proxy may connect; its stream is awaited.
    AwaitingStream { remote_id: PublicKey },
    /// Nothing more is to be done here.
    Over,
}

/// What can happen while a proxy connects over Iroh.
#[derive(Clone, Copy, Debug, PartialEq, Eq)]
pub enum HandshakeEvent {
    /// The connection was not made.
    ConnectFailed,
    /// The connection was made, but the id of the proxy cannot be read.
    RemoteIdUnknown,
    /// The connection was made by this proxy.
    Connected { remote_id: PublicKey },
    /// The proxy opened no stream.
    StreamFailed,
    /// The proxy opened its stream.
    StreamAccepted,
}

/// What to do while a proxy connects over Iroh.
#[derive(Debug, PartialEq, Eq)]
pub enum HandshakeAction {
    /// Wait for what happens next.
    Await,
    /// Give the connection up.
    Abandon,
    /// Close the connection with this code and this reason.
    Reject { code: u32, reason: String },
    /// Wait for the proxy's stream.
    AcceptStream,
    /// Take the proxy in under this label.
    Register { peer_label: String },
}

/// A proxy that connects over Iroh.
pub struct IrohHandshake {
    allowed_proxy_ids: Vec<PublicKey>,
    stage: HandshakeStage,
}

/// The stage after an event. An event that does not belong to the stage changes nothing.
pub open spec fn stage_after(
    allowed_proxy_ids: Seq<PublicKey>,
    stage: HandshakeStage,
    event: HandshakeEvent,
) -> HandshakeStage {
    match (stage, event) {
        (HandshakeStage::Connecting, HandshakeEvent::ConnectFailed) => HandshakeStage::Over,
        (HandshakeStage::Connecting, HandshakeEvent::RemoteIdUnknown) => HandshakeStage::Over,
        (HandshakeStage::Connecting, HandshakeEvent::Connected { remote_id }) => if allows(
            allowed_proxy_ids,
            remote_id,
        ) {
            HandshakeStage::AwaitingStream { remote_id }
        } else {
            HandshakeStage::Over
        },
        (HandshakeStage::AwaitingStream { .. }, HandshakeEvent::StreamFailed) =>
            HandshakeStage::Over,
        (HandshakeStage::AwaitingStream { .. }, HandshakeEvent::StreamAccepted) =>
            HandshakeStage::Over,
        _ => stage,
    }
}

/// Whether an action is the one that an event asks for.
pub open spec fn answers(
    allowed_proxy_ids: Seq<PublicKey>,
    stage: HandshakeStage,
    event: HandshakeEvent,
    action: HandshakeAction,
) -> bool {
    match (stage, event) {
        (HandshakeStage::Connecting, HandshakeEvent::ConnectFailed) => action is Abandon,
        (HandshakeStage::Connecting, HandshakeEvent::RemoteIdUnknown) => action is Abandon,
        (HandshakeStage::Connecting, HandshakeEvent::Connected { remote_id }) => if allows(
            allowed_proxy_ids,
            remote_id,
        ) {
            action is AcceptStream
        } else {
            action matches HandshakeAction::Reject { code, reason } && code
                == IROH_PROXY_REJECTED_CLOSE_CODE && reason@ == IROH_PROXY_REJECTED_REASON@
        },
        (HandshakeStage::AwaitingStream { .. }, HandshakeEvent::StreamFailed) => action is Abandon,
        (HandshakeStage::AwaitingStream { remote_id }, HandshakeEvent::StreamAccepted) => action
            matches HandshakeAction::Register { peer_label } && peer_label@ == hex(
            remote_id.bytes@,
        ),
        _ => action is Await,
    }
}

impl IrohHandshake {
    /// The proxies that may connect.
    pub closed spec fn allowed(self) -> Seq<PublicKey> {
        self.allowed_proxy_ids@
    }

    /// How far the proxy has come.
    pub closed spec fn stage(self) -> HandshakeStage {
        self.stage
    }

    /// Starts with a connection that is being made.
    pub fn new(allowed_proxy_ids: Vec<PublicKey>) -> (handshake: Self)
        ensures
            handshake.allowed() == allowed_proxy_ids@,
            handshake.stage() is Connecting,
    {
        IrohHandshake { allowed_proxy_ids, stage: HandshakeStage::Connecting }
    }

    /// Takes in what happened and says what to do.
    pub fn step(&mut self, event: HandshakeEvent) -> (action: HandshakeAction)
        ensures
            final(self).allowed() == old(self).allowed(),
            final(self).stage() == stage_after(old(self).allowed(), old(self).stage(), event),
            answers(old(self).allowed(), old(self).stage(), event, action),
    {
        match self.stage {
            HandshakeStage::Connecting => match event {
                HandshakeEvent::ConnectFailed => {
                    self.stage = HandshakeStage::Over;
                    HandshakeAction::Abandon
                },
                HandshakeEvent::RemoteIdUnknown => {
                    self.stage = HandshakeStage::Over;
                    HandshakeAction::Abandon
                },
                HandshakeEvent::Connected { remote_id } => {
                    if proxy_id_is_allowed(self.allowed_proxy_ids.as_slice(), remote_id) {
                        self.stage = HandshakeStage::AwaitingStream { remote_id };
                        HandshakeAction::AcceptStream
                    } else {
                        self.stage = HandshakeStage::Over;
                        HandshakeAction::Reject {
                            code: IROH_PROXY_REJECTED_CLOSE_CODE,
                            reason: IROH_PROXY_REJECTED_REASON.to_owned(),
                        }
                    }
                },
                _ => HandshakeAction::Await,
            },
            HandshakeStage::AwaitingStream { remote_id } => match event {
                HandshakeEvent::StreamFailed => {
                    self.stage = HandshakeStage::Over;
                    HandshakeAction::Abandon
                },
                HandshakeEvent::StreamAccepted => {
                    self.stage = HandshakeStage::Over;
                    HandshakeAction::Register { peer_label: remote_id.to_text() }
                },
                _ => HandshakeAction::Await,
            },
            HandshakeStage::Over => HandshakeAction::Await,
        }
    }
}

/// The stage after a run of events, from the start.
pub open spec fn stage_after_all(
    allowed_proxy_ids: Seq<PublicKey>,
    events: Seq<HandshakeEvent>,
) -> HandshakeStage
    decreases events.len(),
{
    if events.len() == 0 {
        HandshakeStage::Connecting
    } else {
        stage_after(
            allowed_proxy_ids,
            stage_after_all(allowed_proxy_ids, events.drop_last()),
            events.last(),
        )
    }
}

/// Whatever happens, only a proxy that may connect gets as far as its stream.
pub proof fn only_allowed_proxies_are_awaited(
    allowed_proxy_ids: Seq<PublicKey>,
    events: Seq<HandshakeEvent>,
)
    ensures
        stage_after_all(allowed_proxy_ids, events) matches HandshakeStage::AwaitingStream {
            remote_id,
        } ==> allows(allowed_proxy_ids, remote_id),
    decreases events.len(),
{
    if events.len() > 0 {
        only_allowed_proxies_are_awaited(allowed_proxy_ids, events.drop_last());
    }
}

/// Whatever happens, a proxy is taken in only if it may connect, and under its own id.
pub proof fn only_allowed_proxies_are_registered(
    allowed_proxy_ids: Seq<PublicKey>,
    events: Seq<HandshakeEvent>,
    event: HandshakeEvent,
    action: HandshakeAction,
)
    requires
        answers(allowed_proxy_ids, stage_after_all(allowed_proxy_ids, events), event, action),
        action is Register,
    ensures
        stage_after_all(allowed_proxy_ids, events) matches HandshakeStage::AwaitingStream {
            remote_id,
        } && allows(allowed_proxy_ids, remote_id) && action->peer_label@ == hex(remote_id.bytes@),
{
    only_allowed_proxies_are_awaited(allowed_proxy_ids, events);
}

/// A proxy that is not on a list that has entries is rejected as soon as it has connected,
/// with the rejection's code and reason, and nothing more is done with it.
pub proof fn unlisted_proxy_is_rejected(
    allowed_proxy_ids: Seq<PublicKey>,
    remote_id: PublicKey,
    action: HandshakeAction,
    later: HandshakeEvent,
)
    requires
        allowed_proxy_ids.len() > 0,
        !allowed_proxy_ids.contains(remote_id),
        answers(
            allowed_proxy_ids,
            HandshakeStage::Connecting,
            HandshakeEvent::Connected { remote_id },
            action,
        ),
    ensures
        action matches HandshakeAction::Reject { code, reason } && code
            == IROH_PROXY_REJECTED_CLOSE_CODE && reason@ == IROH_PROXY_REJECTED_REASON@,
        ({
            let rejected = stage_after(
                allowed_proxy_ids,
                HandshakeStage::Connecting,
                HandshakeEvent::Connected { remote_id },
            );
            rejected is Over && stage_after(allowed_proxy_ids, rejected, later) is Over
        }),
{
}

/// A proxy that may connect, connects and opens its stream is taken in, under its own id.
pub proof fn allowed_proxy_is_registered(
    allowed_proxy_ids: Seq<PublicKey>,
    remote_id: PublicKey,
    first: HandshakeAction,
    second: HandshakeAction,
)
    requires
        allows(allowed_proxy_ids, remote_id),
        answers(
            allowed_proxy_ids,
            HandshakeStage::Connecting,
            HandshakeEvent::Connected { remote_id },
            first,
        ),
        answers(
            allowed_proxy_ids,
            stage_after(
                allowed_proxy_ids,
                HandshakeStage::Connecting,
                HandshakeEvent::Connected { remote_id },
            ),
            HandshakeEvent::StreamAccepted,
            second,
        ),
    ensures
        first is AcceptStream,
        second matches HandshakeAction::Register { peer_label } && peer_label@ == hex(
            remote_id.bytes@,
        ),
{
}

/// An empty list lets every proxy in.
pub proof fn empty_list_allows_every_proxy(proxy_id: PublicKey)
    ensures
        allows(Seq::<PublicKey>::empty(), proxy_id),
{
}

/// Why a proxy that connected over TCP is not taken in, or under which label it is.
#[derive(Debug, PartialEq, Eq)]
pub enum TcpAdmission {
    /// The address of the proxy cannot be read.
    PeerAddrUnknown,
    /// The proxy's address is this, but no TLS session came about with it.
    TlsFailed { addr: String },
    /// Take the proxy in under this label.
    Register { peer_label: String },
}

/// Decides about a proxy that connected over TCP: it is taken in, under its address, once
/// its address is known and its TLS session stands.
pub fn admit_tcp_proxy(peer_addr: Option<SocketAddress>, tls_accepted: bool) -> (admission:
    TcpAdmission)
    ensures
        match peer_addr {
            None => admission is PeerAddrUnknown,
            Some(address) => if tls_accepted {
                admission matches TcpAdmission::Register { peer_label } && peer_label@
                    == address.text()
            } else {
                admission matches TcpAdmission::TlsFailed { addr } && addr@ == address.text()
            },
        },
{
    match peer_addr {
        None => TcpAdmission::PeerAddrUnknown,
        Some(address) => {
            if tls_accepted {
                TcpAdmission::Register { peer_label: address.to_text() }
            } else {
                TcpAdmission::TlsFailed { addr: address.to_text() }
            }
        },
    }
}

/// Wherever a proxy stands on the list, it is accepted when it connects, and taken in under its
/// own id when it opens its stream.
pub proof fn every_listed_proxy_is_registered(
    allowed_proxy_ids: Seq<PublicKey>,
    place: int,
    first: HandshakeAction,
    second: HandshakeAction,
)
    requires
        0 <= place < allowed_proxy_ids.len(),
        ({
            let connected = HandshakeEvent::Connected { remote_id: allowed_proxy_ids[place] };
            let awaiting = stage_after(allowed_proxy_ids, HandshakeStage::Connecting, connected);
            &&& answers(allowed_proxy_ids, HandshakeStage::Connecting, connected, first)
            &&& answers(allowed_proxy_ids, awaiting, HandshakeEvent::StreamAccepted, second)
        }),
    ensures
        allows(allowed_proxy_ids, allowed_proxy_ids[place]),
        first is AcceptStream,
        second matches HandshakeAction::Register { peer_label } && peer_label@ == hex(
            allowed_proxy_ids[place].bytes@,
        ),
{
    assert(allowed_proxy_ids.contains(allowed_proxy_ids[place]));
}

/// A proxy may connect exactly if the list is empty or holds it.
pub proof fn allowed_exactly_if_listed_or_nobody_is(
    allowed_proxy_ids: Seq<PublicKey>,
    proxy_id: PublicKey,
)
    ensures
        allows(allowed_proxy_ids, proxy_id) <==> allowed_proxy_ids =~= Seq::<PublicKey>::empty()
            || (exists|place: int|
            0 <= place < allowed_proxy_ids.len() && #[trigger] allowed_proxy_ids[place]
                == proxy_id),
{
}

/// Neither the order of the list nor what stands on it twice matters, and listing another proxy
/// on a list that has entries shuts nobody out.
pub proof fn only_what_is_listed_matters(
    first: Seq<PublicKey>,
    second: Seq<PublicKey>,
    added: PublicKey,
    proxy_id: PublicKey,
)
    ensures
        first.to_set() == second.to_set() && first.len() > 0 && second.len() > 0 ==> allows(
            first,
            proxy_id,
        ) == allows(second, proxy_id),
        first.len() > 0 && allows(first, proxy_id) ==> allows(first.push(added), proxy_id),
        allows(first.push(added), added),
{
    if first.to_set() == second.to_set() {
        assert(first.to_set().contains(proxy_id) == second.to_set().contains(proxy_id));
    }
    if first.contains(proxy_id) {
        let place = choose|place: int| 0 <= place < first.len() && first[place] == proxy_id;
        assert(first.push(added)[place] == proxy_id);
    }
    assert(first.push(added)[first.len() as int] == added);
}

/// A handshake that fails at any point is given up, and nothing more is done; what does not
/// belong to a stage changes nothing and asks for nothing.
pub proof fn failed_handshakes_are_over(
    allowed_proxy_ids: Seq<PublicKey>,
    remote_id: PublicKey,
    event: HandshakeEvent,
    action: HandshakeAction,
)
    ensures
        ({
            let connecting = HandshakeStage::Connecting;
            let awaiting = HandshakeStage::AwaitingStream { remote_id };
            let over = HandshakeStage::Over;
            &&& event is ConnectFailed || event is RemoteIdUnknown ==> stage_after(
                allowed_proxy_ids,
                connecting,
                event,
            ) is Over && (answers(allowed_proxy_ids, connecting, event, action) <==> action
                is Abandon)
            &&& event is StreamFailed || event is StreamAccepted ==> stage_after(
                allowed_proxy_ids,
                connecting,
                event,
            ) is Connecting && (answers(allowed_proxy_ids, connecting, event, action) <==> action
                is Await)
            &&& event is StreamFailed ==> stage_after(allowed_proxy_ids, awaiting, event) is Over
                && (answers(allowed_proxy_ids, awaiting, event, action) <==> action is Abandon)
            &&& event is StreamAccepted ==> stage_after(allowed_proxy_ids, awaiting, event) is Over
            &&& event is ConnectFailed || event is RemoteIdUnknown || event is Connected
                ==> stage_after(allowed_proxy_ids, awaiting, event) == awaiting && (answers(
                allowed_proxy_ids,
                awaiting,
                event,
                action,
            ) <==> action is Await)
            &&& stage_after(allowed_proxy_ids, over, event) is Over
            &&& answers(allowed_proxy_ids, over, event, action) <==> action is Await
        }),
{
}

/// A proxy that awaits its stream is the one that connected, and it is registered under that id
/// whatever the list is.
pub proof fn a_stream_registers_the_proxy_that_connected(
    allowed_proxy_ids: Seq<PublicKey>,
    remote_id: PublicKey,
    action: HandshakeAction,
)
    ensures
        answers(
            allowed_proxy_ids,
            HandshakeStage::AwaitingStream { remote_id },
            HandshakeEvent::StreamAccepted,
            action,
        ) <==> (action matches HandshakeAction::Register { peer_label } && peer_label@ == hex(
            remote_id.bytes@,
        )),
        stage_after(
            allowed_proxy_ids,
            HandshakeStage::Connecting,
            HandshakeEvent::Connected { remote_id },
        ) == if allowed_proxy_ids.len() == 0 || allowed_proxy_ids.contains(remote_id) {
            HandshakeStage::AwaitingStream { remote_id }
        } else {
            HandshakeStage::Over
        },
{
}

/// An endpoint is bound at exactly the address that was asked for, as one of that address's
/// version, and anywhere only if none was.
pub proof fn endpoints_are_bound_where_asked(address: SocketAddress)
    ensures
        endpoint_bind(None) is Anywhere,
        address.family is V4 ==> endpoint_bind(Some(address)) == EndpointBind::V4(address),
        address.family is V6 ==> endpoint_bind(Some(address)) == EndpointBind::V6(address),
{
}

/// A proxy is let in exactly if it stands anywhere on the list, or nobody does.
pub proof fn every_place_on_the_list_counts(
    allowed_proxy_ids: &[PublicKey],
    proxy_id: PublicKey,
    allowed: bool,
    place: int,
)
    requires
        call_ensures(proxy_id_is_allowed, (allowed_proxy_ids, proxy_id), allowed),
    ensures
        0 <= place < allowed_proxy_ids@.len() && allowed_proxy_ids@[place] == proxy_id ==> allowed,
        allowed_proxy_ids@.len() == 0 ==> allowed,
        allowed && allowed_proxy_ids@.len() > 0 ==> allowed_proxy_ids@.contains(proxy_id),
{
}

/// A proxy that connected over TCP is taken in exactly if its address is known and its TLS
/// session stands, and then under its address; else it is said which of the two is missing.
pub proof fn tcp_proxies_are_taken_in_under_their_address(
    peer_addr: Option<SocketAddress>,
    tls_accepted: bool,
    admission: TcpAdmission,
)
    requires
        call_ensures(admit_tcp_proxy, (peer_addr, tls_accepted), admission),
    ensures
        admission is Register <==> peer_addr is Some && tls_accepted,
        admission is PeerAddrUnknown <==> peer_addr is None,
        admission is TlsFailed <==> peer_addr is Some && !tls_accepted,
        admission is Register ==> admission->peer_label@ == peer_addr->0.text(),
        admission is TlsFailed ==> admission->addr@ == peer_addr->0.text(),
{
}

/// The material for TLS decides over TCP alone: with it TCP starts, with the same address and
/// the same material, and without it nothing does. Iroh starts either way, with its own
/// configuration.
pub proof fn only_tcp_needs_the_material<C>(
    proxy_bind: ProxyBind,
    crypto: Option<C>,
    start: TransportStart<C>,
)
    requires
        call_ensures(init_proxy_transport_comms::<C>, (proxy_bind, crypto), start),
    ensures
        start is MissingCrypto <==> proxy_bind is Tcp && crypto is None,
        start is Tcp <==> proxy_bind is Tcp && crypto is Some,
        start is Tcp ==> start->socket == proxy_bind->Tcp_0 && start->crypto == crypto->0,
        start is Iroh <==> proxy_bind is Iroh,
        start is Iroh ==> start->Iroh_0 == proxy_bind->Iroh_0,
{
}

/// A game server's endpoint speaks the proxy protocol and a proxy's speaks none; each has the
/// key and the address that were asked for.
pub proof fn endpoints_have_what_was_asked_for(
    config: &IrohProxyBind,
    server: &IrohServerConnection,
    server_plan: EndpointPlan,
    proxy_plan: EndpointPlan,
)
    requires
        call_ensures(server_endpoint_plan, (config,), server_plan),
        call_ensures(proxy_endpoint_plan, (server,), proxy_plan),
    ensures
        server_plan.alpns@ == seq![IROH_PROXY_ALPN],
        proxy_plan.alpns@.len() == 0,
        server_plan.secret_key == config.secret_key,
        proxy_plan.secret_key == server.secret_key,
        server_plan.bind is Anywhere <==> config.bind_addr is None,
        proxy_plan.bind is Anywhere <==> server.bind_addr is None,
        config.bind_addr is Some ==> match server_plan.bind {
            EndpointBind::V4(address) | EndpointBind::V6(address) => config.bind_addr == Some(
                address,
            ) && (server_plan.bind is V4 <==> address.family is V4),
            EndpointBind::Anywhere => false,
        },
        server.bind_addr is Some ==> match proxy_plan.bind {
            EndpointBind::V4(address) | EndpointBind::V6(address) => server.bind_addr == Some(
                address,
            ) && (proxy_plan.bind is V4 <==> address.family is V4),
            EndpointBind::Anywhere => false,
        },
{
}

} // verus!
