//! The game server: how it takes proxies in, and what their messages make it do.
use hyperion::address::{AddressFamily, PublicKey, SecretKey, SocketAddress};
use hyperion::frame::{ProxyReader, DEFAULT_PROXY_READ_BUFFER_SIZE};
use hyperion::game::build_game_app_with_proxy;
use hyperion::process::{bind_failure_message, pid_from_output, pid_lookup_command, BindFailure};
use hyperion::proxy_bind::{
    admit_tcp_proxy, init_proxy_comms, init_proxy_transport_comms, proxy_id_is_allowed,
    server_endpoint_plan, EndpointBind, HandshakeAction, HandshakeEvent, IrohHandshake,
    IrohProxyBind, ProxyBind, TcpAdmission, TransportStart, IROH_PROXY_ALPN,
};
use hyperion::registration::{
    channel_announcements, registration_commands, ChannelAnnouncement, ExistingChannel, ProxyIds,
    ProxyWriter, RegistrationCommand, WriterAction, WriterEvent,
};
use hyperion::session::{
    ProxyEvent, ProxySession, SendError, SessionAction, SessionReport, SessionStep, WorldCommand,
};
use hyperion::world::{channels_to_subscribe, players_to_remove, ConnectionId, StreamLookup};

const IROH_SECRET_KEY_BYTES: usize = 32;
const ALLOWED_KEY_SEED: u8 = 1;
const UNKNOWN_KEY_SEED: u8 = 2;

fn public_key_from_seed(seed: u8) -> PublicKey {
    let secret = iroh_base::SecretKey::from([seed; IROH_SECRET_KEY_BYTES]);
    PublicKey { bytes: *secret.public().as_bytes() }
}

fn loopback(port: u16) -> SocketAddress {
    SocketAddress { family: AddressFamily::V4, host: "127.0.0.1".to_string(), port }
}

#[test]
fn empty_iroh_proxy_allowlist_accepts_any_peer() {
    let peer_id = public_key_from_seed(ALLOWED_KEY_SEED);

    assert!(proxy_id_is_allowed(&[], peer_id));
}

#[test]
fn populated_iroh_proxy_allowlist_rejects_unknown_peer() {
    let allowed_id = public_key_from_seed(ALLOWED_KEY_SEED);
    let unknown_id = public_key_from_seed(UNKNOWN_KEY_SEED);

    assert!(!proxy_id_is_allowed(&[allowed_id], unknown_id));
}

#[test]
fn populated_allowlist_accepts_its_peers() {
    let first = public_key_from_seed(ALLOWED_KEY_SEED);
    let second = public_key_from_seed(UNKNOWN_KEY_SEED);

    assert!(proxy_id_is_allowed(&[first, second], first));
    assert!(proxy_id_is_allowed(&[first, second], second));
}

#[test]
fn keys_that_differ_in_the_last_byte_differ() {
    let first = PublicKey { bytes: [5; 32] };
    let mut second = first;
    second.bytes[31] = 6;

    assert!(first.same(&PublicKey { bytes: [5; 32] }));
    assert!(!first.same(&second));
    assert!(!proxy_id_is_allowed(&[first], second));
}

#[test]
fn allowed_proxy_is_registered_under_its_id() {
    let id = iroh_base::SecretKey::from([ALLOWED_KEY_SEED; IROH_SECRET_KEY_BYTES]).public();
    let remote_id = PublicKey { bytes: *id.as_bytes() };
    let mut handshake = IrohHandshake::new(vec![remote_id]);

    assert_eq!(handshake.step(HandshakeEvent::StreamAccepted), HandshakeAction::Await);
    assert_eq!(
        handshake.step(HandshakeEvent::Connected { remote_id }),
        HandshakeAction::AcceptStream
    );
    assert_eq!(
        handshake.step(HandshakeEvent::StreamAccepted),
        HandshakeAction::Register { peer_label: id.to_string() }
    );
    assert_eq!(handshake.step(HandshakeEvent::StreamAccepted), HandshakeAction::Await);
}

#[test]
fn unknown_proxy_is_rejected_with_code_and_reason() {
    let remote_id = public_key_from_seed(UNKNOWN_KEY_SEED);
    let mut handshake = IrohHandshake::new(vec![public_key_from_seed(ALLOWED_KEY_SEED)]);

    assert_eq!(
        handshake.step(HandshakeEvent::Connected { remote_id }),
        HandshakeAction::Reject { code: 1, reason: "unauthorized proxy".to_string() }
    );
    assert_eq!(handshake.step(HandshakeEvent::StreamAccepted), HandshakeAction::Await);
    assert_eq!(
        handshake.step(HandshakeEvent::Connected {
            remote_id: public_key_from_seed(ALLOWED_KEY_SEED)
        }),
        HandshakeAction::Await
    );
}

const SERVER_KEY_SEED: u8 = 7;
const ALLOWED_PROXY_KEY_SEED: u8 = 8;
const UNKNOWN_PROXY_KEY_SEED: u8 = 9;

fn bedwars_iroh_bind() -> ProxyBind {
    ProxyBind::Iroh(Box::new(IrohProxyBind {
        secret_key: Some(SecretKey { bytes: [SERVER_KEY_SEED; IROH_SECRET_KEY_BYTES] }),
        bind_addr: Some(loopback(0)),
        allowed_proxy_ids: vec![public_key_from_seed(ALLOWED_PROXY_KEY_SEED)],
    }))
}

/// Whether the game takes in a proxy that connects and opens its stream.
fn registers_proxy(seed: u8) -> bool {
    let plan = build_game_app_with_proxy::<u8>(bedwars_iroh_bind(), None);
    let config = match init_proxy_transport_comms(plan.proxy_bind, plan.crypto) {
        TransportStart::Iroh(config) => config,
        _ => panic!("Iroh was not started"),
    };
    let mut handshake = IrohHandshake::new(config.allowed_proxy_ids);
    let remote_id = public_key_from_seed(seed);
    handshake.step(HandshakeEvent::Connected { remote_id });
    matches!(handshake.step(HandshakeEvent::StreamAccepted), HandshakeAction::Register { .. })
}

#[test]
fn bedwars_iroh_smoke_accepts_allowed_proxy_and_rejects_unknown_proxy() {
    assert!(registers_proxy(ALLOWED_PROXY_KEY_SEED));
    assert!(!registers_proxy(UNKNOWN_PROXY_KEY_SEED));
}

#[test]
fn copies_of_a_bind_hold_the_same() {
    match bedwars_iroh_bind().clone() {
        ProxyBind::Iroh(config) => {
            let config: IrohProxyBind = (*config).clone();
            assert!(config.secret_key == Some(SecretKey { bytes: [SERVER_KEY_SEED; 32] }));
            assert_eq!(config.bind_addr, Some(loopback(0)));
            assert_eq!(
                config.allowed_proxy_ids,
                vec![public_key_from_seed(ALLOWED_PROXY_KEY_SEED)]
            );
        }
        ProxyBind::Tcp(_) => panic!("another bind"),
    }
    let bind = ProxyBind::Tcp(loopback(3));
    assert!(matches!(bind.clone(), ProxyBind::Tcp(address) if address == loopback(3)));
}

#[test]
fn failed_handshakes_are_abandoned() {
    for event in [HandshakeEvent::ConnectFailed, HandshakeEvent::RemoteIdUnknown] {
        let mut handshake = IrohHandshake::new(Vec::new());
        assert_eq!(handshake.step(event), HandshakeAction::Abandon);
        assert_eq!(handshake.step(HandshakeEvent::StreamAccepted), HandshakeAction::Await);
    }
    let mut handshake = IrohHandshake::new(Vec::new());
    let remote_id = public_key_from_seed(UNKNOWN_KEY_SEED);
    handshake.step(HandshakeEvent::Connected { remote_id });
    assert_eq!(handshake.step(HandshakeEvent::StreamFailed), HandshakeAction::Abandon);
}

#[test]
fn tcp_proxy_is_registered_under_its_address() {
    assert_eq!(admit_tcp_proxy(None, true), TcpAdmission::PeerAddrUnknown);
    assert_eq!(
        admit_tcp_proxy(Some(loopback(4000)), false),
        TcpAdmission::TlsFailed { addr: "127.0.0.1:4000".to_string() }
    );
    let address =
        SocketAddress {
            family: AddressFamily::V6 { flow_info: 3 },
            host: "fe80::1%2".to_string(),
            port: 65535,
        };
    assert_eq!(
        admit_tcp_proxy(Some(address), true),
        TcpAdmission::Register { peer_label: "[fe80::1%2]:65535".to_string() }
    );
}

#[test]
fn tcp_needs_tls_material_and_iroh_does_not() {
    let start = init_proxy_transport_comms(ProxyBind::Tcp(loopback(1)), Some(5u8));
    match start {
        TransportStart::Tcp { socket, crypto } => {
            assert_eq!(socket, loopback(1));
            assert_eq!(crypto, 5);
        }
        _ => panic!("TCP was not started"),
    }
    let start = init_proxy_transport_comms::<u8>(ProxyBind::from(loopback(1)), None);
    assert!(matches!(start, TransportStart::MissingCrypto));
    let config = IrohProxyBind {
        secret_key: None,
        bind_addr: None,
        allowed_proxy_ids: vec![public_key_from_seed(ALLOWED_KEY_SEED)],
    };
    let start = init_proxy_transport_comms::<u8>(ProxyBind::Iroh(Box::new(config)), None);
    match start {
        TransportStart::Iroh(config) => {
            assert_eq!(
                config.allowed_proxy_ids,
                vec![public_key_from_seed(ALLOWED_KEY_SEED)]
            );
        }
        _ => panic!("Iroh was not started"),
    }
    assert!(matches!(
        init_proxy_comms(loopback(7), 3u8),
        TransportStart::Tcp { socket, crypto: 3 } if socket == loopback(7)
    ));
}

#[test]
fn server_endpoint_accepts_the_proxy_protocol() {
    assert_eq!(&IROH_PROXY_ALPN, b"hyperion/proxy/1");
    let plan = server_endpoint_plan(&IrohProxyBind::default());
    assert_eq!(plan.alpns, vec![*b"hyperion/proxy/1"]);
    assert!(plan.secret_key.is_none());
    assert_eq!(plan.bind, EndpointBind::Anywhere);
    let config = IrohProxyBind {
        secret_key: Some(SecretKey { bytes: [4; 32] }),
        bind_addr: Some(loopback(0)),
        allowed_proxy_ids: Vec::new(),
    };
    let plan = server_endpoint_plan(&config);
    assert!(plan.secret_key == Some(SecretKey { bytes: [4; 32] }));
    assert_eq!(plan.bind, EndpointBind::V4(loopback(0)));
}

#[test]
fn proxy_ids_count_up_from_zero() {
    let mut ids = ProxyIds::new();

    assert_eq!([ids.claim(), ids.claim(), ids.claim()], [0, 1, 2]);
}

#[test]
fn proxy_is_added_before_channels_are_announced() {
    assert_eq!(
        registration_commands(6),
        vec![
            RegistrationCommand::AddProxy { proxy_id: 6 },
            RegistrationCommand::AnnounceChannels { proxy_id: 6 },
        ]
    );
}

#[test]
fn each_channel_is_announced_with_its_entity() {
    let channel = |channel_id, minecraft_id| ExistingChannel { channel_id, minecraft_id };
    let announcement =
        |channel_id, destroyed_entity| ChannelAnnouncement { channel_id, destroyed_entity };
    assert_eq!(
        channel_announcements(&[channel(3, -4), channel(1, 2), channel(3, -4)]),
        vec![announcement(3, -4), announcement(1, 2), announcement(3, -4)]
    );
    assert_eq!(channel_announcements(&[]), Vec::new());
}

#[test]
fn writer_writes_until_it_fails_or_the_queue_closes() {
    let removed = || WriterAction::Finish(RegistrationCommand::RemoveProxy { proxy_id: 6 });
    let mut writer = ProxyWriter::new(6);
    assert_eq!(
        writer.step(WriterEvent::Queued(vec![1, 2])),
        WriterAction::Write(vec![1, 2])
    );
    assert_eq!(writer.step(WriterEvent::Written), WriterAction::Await);
    assert_eq!(writer.step(WriterEvent::WriteFailed), removed());
    assert_eq!(writer.step(WriterEvent::QueueClosed), WriterAction::Ended);
    assert_eq!(writer.step(WriterEvent::Queued(vec![1])), WriterAction::Ended);
    assert_eq!(ProxyWriter::new(6).step(WriterEvent::QueueClosed), removed());
}

fn step(report: Option<SessionReport>, action: SessionAction) -> SessionStep {
    SessionStep { report, action }
}

#[test]
fn players_are_spawned_and_despawned() {
    let mut session: ProxySession<&str> = ProxySession::new(4);
    let spawn = || SessionAction::Run(WorldCommand::SpawnPlayer { stream: 9, proxy_id: 4 });
    let despawn = || SessionAction::Run(WorldCommand::DespawnPlayer { stream: 9 });
    assert_eq!(
        session.handle(ProxyEvent::ProxyReady),
        step(None, SessionAction::Continue)
    );
    let connect = |sender| ProxyEvent::PlayerConnect { stream: 9, sender };
    assert_eq!(session.handle(connect("first")), step(None, spawn()));
    assert_eq!(
        session.handle(connect("second")),
        step(Some(SessionReport::StreamAlreadyExists), spawn())
    );
    assert_eq!(session.sender_mut(9), Some(&mut "second"));
    assert_eq!(session.sender_mut(8), None);
    let disconnect = || ProxyEvent::PlayerDisconnect { stream: 9 };
    assert_eq!(session.handle(disconnect()), step(None, despawn()));
    assert_eq!(session.sender_mut(9), None);
    assert_eq!(
        session.handle(disconnect()),
        step(Some(SessionReport::DisconnectOfUnknownStream), despawn())
    );
}

#[test]
fn packets_follow_the_connection_of_their_stream() {
    let mut session: ProxySession<u8> = ProxySession::new(4);
    session.handle(ProxyEvent::PlayerConnect { stream: 1, sender: 10 });
    session.handle(ProxyEvent::PlayerConnect { stream: 2, sender: 20 });
    session.handle(ProxyEvent::PlayerDisconnect { stream: 2 });
    let packets = |stream| ProxyEvent::PlayerPackets { stream, data: vec![5, 6] };
    assert_eq!(
        session.handle(packets(1)),
        step(None, SessionAction::Send { stream: 1, data: vec![5, 6] })
    );
    assert_eq!(
        session.handle(packets(2)),
        step(Some(SessionReport::PacketsOfUnknownStream), SessionAction::Continue)
    );
    *session.sender_mut(1).unwrap() = 11;
    assert_eq!(session.sender_mut(1), Some(&mut 11));
}

#[test]
fn illegal_packets_disconnect_the_player() {
    let mut session: ProxySession<u8> = ProxySession::new(4);
    session.handle(ProxyEvent::PlayerConnect { stream: 1, sender: 10 });
    let shutdown = || SessionAction::Run(WorldCommand::ShutdownPlayer { stream: 1, proxy_id: 4 });
    let mut sent = |result| session.handle(ProxyEvent::PacketsSent { stream: 1, result });
    assert_eq!(sent(Ok(())), step(None, SessionAction::Continue));
    assert_eq!(
        sent(Err(SendError::ZeroLengthPacket)),
        step(Some(SessionReport::ZeroLengthPacket), shutdown())
    );
    assert_eq!(
        sent(Err(SendError::TooLargePacket)),
        step(Some(SessionReport::TooLargePacket), shutdown())
    );
    assert_eq!(
        sent(Err(SendError::AlreadyClosed)),
        step(None, SessionAction::Continue)
    );
}

#[test]
fn channels_are_subscribed_to() {
    let mut session: ProxySession<u8> = ProxySession::new(4);
    let mut request = |channels| {
        session.handle(ProxyEvent::RequestSubscribeChannelPackets { channels })
    };
    assert_eq!(
        request(Some(vec![3, 1, 3])),
        step(
            None,
            SessionAction::Run(WorldCommand::SubscribeChannels { channels: vec![3, 1, 3] })
        )
    );
    assert_eq!(
        request(None),
        step(Some(SessionReport::InvalidChannels), SessionAction::Continue)
    );
}

#[test]
fn session_that_cannot_read_stops_and_removes_its_players() {
    let mut session: ProxySession<u8> = ProxySession::new(4);
    assert_eq!(
        session.handle(ProxyEvent::ReadFailed),
        step(
            None,
            SessionAction::Stop(WorldCommand::RemoveProxyPlayers { proxy_id: 4 })
        )
    );
    let ended = || step(None, SessionAction::Ended);
    assert_eq!(session.handle(ProxyEvent::PlayerConnect { stream: 1, sender: 5 }), ended());
    assert_eq!(session.sender_mut(1), None);
    assert_eq!(session.handle(ProxyEvent::PlayerDisconnect { stream: 1 }), ended());
    assert_eq!(session.handle(ProxyEvent::ReadFailed), ended());
}

#[test]
fn stream_lookup_gives_back_what_was_inserted() {
    let mut lookup = StreamLookup::new();
    assert_eq!(lookup.insert(7, 'a'), None);
    assert_eq!(lookup.insert(7, 'b'), Some('a'));
    assert_eq!(lookup.insert(8, 'c'), None);
    assert_eq!(lookup.remove(7), Some('b'));
    assert_eq!(lookup.remove(7), None);
    assert_eq!(lookup.remove(8), Some('c'));
}

#[test]
fn connected_streams_can_be_found_when_they_disconnect() {
    let mut session: ProxySession<u8> = ProxySession::new(4);
    let mut lookup = StreamLookup::new();
    let mut next = 100u32;
    let events = [
        ProxyEvent::PlayerConnect { stream: 1, sender: 0 },
        ProxyEvent::PlayerConnect { stream: 2, sender: 0 },
        ProxyEvent::PlayerConnect { stream: 1, sender: 0 },
        ProxyEvent::PlayerDisconnect { stream: 1 },
        ProxyEvent::PlayerDisconnect { stream: 2 },
        ProxyEvent::PlayerDisconnect { stream: 2 },
    ];
    let mut despawned = Vec::new();
    for event in events {
        let step = session.handle(event);
        match step.action {
            SessionAction::Run(WorldCommand::SpawnPlayer { stream, .. }) => {
                lookup.insert(stream, next);
                next += 1;
            }
            SessionAction::Run(WorldCommand::DespawnPlayer { stream }) => {
                let player = lookup.remove(stream);
                assert_eq!(player.is_some(), step.report.is_none());
                despawned.push(player);
            }
            _ => panic!("players come and go"),
        }
    }
    assert_eq!(despawned, vec![Some(102), Some(101), None]);
}

#[test]
fn only_players_of_the_proxy_are_removed() {
    let connection = |stream, proxy_id| ConnectionId { stream, proxy_id };
    let players =
        [('a', connection(1, 4)), ('b', connection(1, 5)), ('c', connection(2, 4))];
    assert_eq!(players_to_remove(&players, 4), vec!['a', 'c']);
    assert_eq!(players_to_remove(&players, 5), vec!['b']);
    assert_eq!(players_to_remove(&players, 6), Vec::<char>::new());
}

#[test]
fn unknown_channels_are_left_out() {
    assert_eq!(
        channels_to_subscribe(&[Some('x'), None, Some('y'), Some('x')]),
        vec!['x', 'y', 'x']
    );
    assert_eq!(channels_to_subscribe::<char>(&[]), Vec::<char>::new());
}

#[test]
fn reader_hands_out_as_many_bytes_as_the_frame_has() {
    let mut reader = ProxyReader::new();
    let room = reader.next_server_packet_buffer([0, 0, 0, 0, 0, 0, 0, 2]).unwrap();
    assert_eq!(room, [0, 0]);
    room.copy_from_slice(&[1, 2]);
    let longer = DEFAULT_PROXY_READ_BUFFER_SIZE + 1;
    let room = reader.next_server_packet_buffer((longer as u64).to_be_bytes()).unwrap();
    assert_eq!(room.len(), longer);
    assert_eq!(&room[..3], [1, 2, 0]);
    assert_eq!(room[longer - 1], 0);
}

#[test]
fn first_line_of_the_lookup_is_the_process() {
    assert_eq!(pid_from_output(b"4711\n4712\n"), Some(4711));
    assert_eq!(pid_from_output(b"4711\r\n"), Some(4711));
    assert_eq!(pid_from_output(b"4711"), Some(4711));
    assert_eq!(pid_from_output(b"+4711\n"), Some(4711));
    assert_eq!(pid_from_output(b"4294967295\n"), Some(u32::MAX));
    assert_eq!(pid_from_output(b"0\n"), Some(0));
    assert_eq!(pid_from_output(b"4294967296\n"), None);
    assert_eq!(pid_from_output(b"99999999999999999999999\n"), None);
    assert_eq!(pid_from_output(b"4711\r"), None);
    assert_eq!(pid_from_output(b" 4711\n"), None);
    assert_eq!(pid_from_output(b"-1\n"), None);
    assert_eq!(pid_from_output(b"+\n"), None);
    assert_eq!(pid_from_output(b"\n4711\n"), None);
    assert_eq!(pid_from_output(b""), None);
}

#[test]
fn process_is_looked_up_by_port() {
    assert_eq!(pid_lookup_command(35565, false), "lsof -i :35565 -t");
    assert_eq!(pid_lookup_command(0, true), "netstat -ano | findstr :0");
}

#[test]
fn bind_failures_in_words() {
    let socket = loopback(35565);
    let in_use = "Failed to bind to address 127.0.0.1:35565: Already in use. Is another process \
                  using this port?";
    let message = |failure| bind_failure_message(&socket, &failure);
    assert_eq!(
        message(BindFailure::AddrInUse { owner: Ok(Some(42)) }),
        format!("{in_use}\nAlready in use by process with PID 42")
    );
    assert_eq!(
        message(BindFailure::AddrInUse { owner: Ok(None) }),
        format!("{in_use} for port 35565")
    );
    assert_eq!(
        message(BindFailure::AddrInUse { owner: Err("no shell".to_string()) }),
        format!("{in_use}\nno shell")
    );
    assert_eq!(
        message(BindFailure::Other { error: "permission denied".to_string() }),
        "Failed to bind to address 127.0.0.1:35565: permission denied"
    );
}
