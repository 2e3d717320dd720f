//! The proxy: its command line, its game server, and its loops.
use std::path::PathBuf;

use hyperion::address::{AddressFamily, PublicKey, RelayUrl, SecretKey, SocketAddress};
use hyperion::cli::CliError;
use hyperion::frame::{admits_prefix, length_of_prefix, IngressHandler};
use hyperion::proxy_bind::EndpointBind;
use hyperion::proxy_cli::{
    default_proxy_addr, default_server, iroh_server_connection, params_source, required_path,
    server_target_from_params, ConfigSource, Params, ProxyAddress, ProxyAddressError, ServerTarget,
    ServerTransport,
};
use hyperion::proxy_loop::{
    connect, AcceptAction, AcceptEvent, ConnectStep, LinkAction, PlayerAcceptor,
    ProxyLoop, ProxyLoopAction, ProxyLoopEvent, ReaderAction, ReaderEvent, ServerLink,
    ServerReader, ShutdownType,
};
use hyperion::proxy_start::run_proxy_iroh;
use hyperion::server_connection::{
    validate_iroh_server_connection, IrohServerConnection, TooManyRelayUrls,
};

const IROH_SECRET_KEY_BYTES: usize = 32;
const SERVER_KEY_SEED: u8 = 1;
const FIRST_RELAY_URL: &str = "https://relay-one.example.com";
const SECOND_RELAY_URL: &str = "https://relay-two.example.com";

fn relay_url(value: &str) -> RelayUrl {
    let url: iroh_base::RelayUrl = value.parse().unwrap();
    RelayUrl { text: url.to_string() }
}

fn public_key_from_seed(seed: u8) -> PublicKey {
    let secret = iroh_base::SecretKey::from([seed; IROH_SECRET_KEY_BYTES]);
    PublicKey { bytes: *secret.public().as_bytes() }
}

fn ipv4(host: &str, port: u16) -> SocketAddress {
    SocketAddress { family: AddressFamily::V4, host: host.to_string(), port }
}

fn ipv6(host: &str, port: u16) -> SocketAddress {
    SocketAddress { family: AddressFamily::V6 { flow_info: 0 }, host: host.to_string(), port }
}

fn server_connection(relay_urls: Vec<RelayUrl>) -> IrohServerConnection {
    IrohServerConnection {
        server_id: public_key_from_seed(SERVER_KEY_SEED),
        direct_addrs: Vec::new(),
        relay_urls,
        secret_key: None,
        bind_addr: None,
    }
}

#[test]
fn iroh_server_connection_accepts_single_relay_url() {
    let server = server_connection(vec![relay_url(FIRST_RELAY_URL)]);

    assert!(validate_iroh_server_connection(&server).is_ok());
}

#[test]
fn iroh_server_connection_rejects_multiple_relay_urls() {
    let server = server_connection(vec![relay_url(FIRST_RELAY_URL), relay_url(SECOND_RELAY_URL)]);

    let err = validate_iroh_server_connection(&server).unwrap_err();

    assert!(err.message().contains("at most one relay URL"));
}

#[test]
fn server_without_relay_is_valid() {
    assert_eq!(validate_iroh_server_connection(&server_connection(Vec::new())), Ok(()));
}

#[test]
fn node_addr_takes_the_first_relay_and_each_address_once() {
    let mut server =
        server_connection(vec![relay_url(FIRST_RELAY_URL), relay_url(SECOND_RELAY_URL)]);
    server.direct_addrs = vec![
        ipv4("10.0.0.1", 1),
        ipv4("10.0.0.1", 2),
        ipv4("10.0.0.1", 1),
        ipv6("::1", 1),
    ];

    let addr = server.node_addr();

    assert_eq!(addr.node_id, public_key_from_seed(SERVER_KEY_SEED));
    assert_eq!(addr.relay_url, Some(relay_url(FIRST_RELAY_URL)));
    assert_eq!(addr.direct_addresses.len(), 3);
    for address in &server.direct_addrs {
        assert!(addr.direct_addresses.contains(address));
    }
}

#[test]
fn addresses_that_differ_in_their_flow_are_kept_apart() {
    let labelled = |flow_info| SocketAddress {
        family: AddressFamily::V6 { flow_info },
        host: "::1".to_string(),
        port: 1,
    };
    let mut server = server_connection(Vec::new());
    server.direct_addrs = vec![labelled(0), labelled(7), labelled(7)];
    server.bind_addr = Some(labelled(9));

    assert_eq!(server.node_addr().direct_addresses, vec![labelled(0), labelled(7)]);
    assert!(!labelled(0).same(&labelled(7)));
    assert_eq!(labelled(7).to_text(), "[::1]:1");
    let plan = run_proxy_iroh(&server).ok().unwrap();
    assert_eq!(plan.endpoint.bind, EndpointBind::V6(labelled(9)));
}

#[test]
fn copies_hold_the_same() {
    let mut server = server_connection(vec![relay_url(FIRST_RELAY_URL)]);
    server.direct_addrs = vec![ipv4("10.0.0.1", 1)];
    server.secret_key = Some(SecretKey { bytes: [3; 32] });
    server.bind_addr = Some(ipv6("::", 2));
    let same = |copy: &IrohServerConnection| {
        assert_eq!(copy.server_id, server.server_id);
        assert_eq!(copy.direct_addrs, server.direct_addrs);
        assert_eq!(copy.relay_urls, server.relay_urls);
        assert!(copy.secret_key == server.secret_key);
        assert_eq!(copy.bind_addr, server.bind_addr);
    };
    same(&server.clone());
    match ServerTarget::Iroh(server.clone()).clone() {
        ServerTarget::Iroh(copy) => same(&copy),
        ServerTarget::Tcp { .. } => panic!("another target"),
    }
    let target = ServerTarget::Tcp {
        server_addr: ipv4("10.0.0.1", 1),
        server_name: "name:1".to_string(),
        root_ca_cert: PathBuf::from("a"),
        cert: PathBuf::from("b"),
        private_key: PathBuf::from("c"),
    };
    match target.clone() {
        ServerTarget::Tcp { server_addr, server_name, root_ca_cert, cert, private_key } => {
            assert_eq!(server_addr, ipv4("10.0.0.1", 1));
            assert_eq!(server_name, "name:1");
            assert_eq!(root_ca_cert, PathBuf::from("a"));
            assert_eq!(cert, PathBuf::from("b"));
            assert_eq!(private_key, PathBuf::from("c"));
        }
        ServerTarget::Iroh(_) => panic!("another target"),
    }
}

#[test]
fn node_addr_agrees_with_iroh() {
    let mut server = server_connection(vec![relay_url(FIRST_RELAY_URL)]);
    server.direct_addrs = vec![ipv4("10.0.0.1", 1), ipv4("10.0.0.1", 1), ipv6("::1", 7)];
    let expected = iroh_base::NodeAddr::from_parts(
        iroh_base::SecretKey::from([SERVER_KEY_SEED; IROH_SECRET_KEY_BYTES]).public(),
        Some(FIRST_RELAY_URL.parse().unwrap()),
        server.direct_addrs.iter().map(|address| address.to_text().parse().unwrap()),
    );

    let addr = server.node_addr();

    assert_eq!(&addr.node_id.bytes, expected.node_id.as_bytes());
    assert_eq!(addr.node_id.to_text(), expected.node_id.to_string());
    assert_eq!(
        addr.relay_url.map(|url| url.text),
        expected.relay_url.map(|url| url.to_string())
    );
    let mut texts: Vec<String> = addr.direct_addresses.iter().map(SocketAddress::to_text).collect();
    let mut expected_texts: Vec<String> =
        expected.direct_addresses.iter().map(|address| address.to_string()).collect();
    texts.sort();
    expected_texts.sort();
    assert_eq!(texts, expected_texts);
}

#[test]
fn proxy_over_iroh_dials_with_its_own_key_and_address() {
    let mut server = server_connection(vec![relay_url(FIRST_RELAY_URL)]);
    server.secret_key = Some(SecretKey { bytes: [9; 32] });
    server.bind_addr = Some(ipv6("::", 4000));

    let plan = run_proxy_iroh(&server).ok().unwrap();

    assert!(plan.endpoint.alpns.is_empty());
    assert!(plan.endpoint.secret_key == Some(SecretKey { bytes: [9; 32] }));
    assert_eq!(plan.endpoint.bind, EndpointBind::V6(ipv6("::", 4000)));
    assert_eq!(plan.server_addr.relay_url, Some(relay_url(FIRST_RELAY_URL)));
}

#[test]
fn proxy_over_iroh_refuses_two_relays() {
    let server = server_connection(vec![relay_url(FIRST_RELAY_URL), relay_url(SECOND_RELAY_URL)]);

    assert!(matches!(run_proxy_iroh(&server), Err(TooManyRelayUrls)));
}

fn params_for_transport(server_transport: ServerTransport) -> Params {
    Params {
        proxy_addr: default_proxy_addr(),
        server: default_server(),
        server_transport,
        root_ca_cert: None,
        cert: None,
        private_key: None,
        iroh_server_id: None,
        iroh_server_addr: Vec::new(),
        iroh_server_relay: Vec::new(),
        iroh_secret_key: None,
        iroh_bind_addr: None,
    }
}

#[test]
fn tcp_transport_accepts_present_tls_paths() {
    let mut params = params_for_transport(ServerTransport::Tcp);
    params.root_ca_cert = Some(PathBuf::from("root_ca.crt"));
    params.cert = Some(PathBuf::from("proxy.crt"));
    params.private_key = Some(PathBuf::from("proxy_private_key.pem"));

    assert!(required_path(&params.root_ca_cert, "root-ca-cert").is_ok());
    assert!(required_path(&params.cert, "cert").is_ok());
    assert!(required_path(&params.private_key, "private-key").is_ok());
}

#[test]
fn tcp_transport_rejects_missing_tls_paths() {
    let params = params_for_transport(ServerTransport::Tcp);

    let err = required_path(&params.root_ca_cert, "root-ca-cert").unwrap_err();

    assert!(err.message().contains("--root-ca-cert"));
}

#[test]
fn iroh_transport_requires_server_id() {
    let params = params_for_transport(ServerTransport::Iroh);

    let err = match iroh_server_connection(&params) {
        Ok(_) => panic!("a connection without a server id"),
        Err(err) => err,
    };

    assert!(err.message().contains("--iroh-server-id"));
}

#[test]
fn iroh_transport_builds_server_connection() {
    let mut params = params_for_transport(ServerTransport::Iroh);
    params.iroh_server_id = Some(public_key_from_seed(SERVER_KEY_SEED));

    let connection = iroh_server_connection(&params).ok().unwrap();

    assert_eq!(connection.server_id, public_key_from_seed(SERVER_KEY_SEED));
}

#[test]
fn defaults_of_the_proxy() {
    assert_eq!(default_proxy_addr(), "0.0.0.0:25565");
    assert_eq!(default_server(), "127.0.0.1:35565");
    assert_eq!(ServerTransport::default(), ServerTransport::Tcp);
}

#[test]
fn required_path_hands_out_the_path() {
    let path = Some(PathBuf::from("proxy.crt"));

    assert_eq!(required_path(&path, "cert"), Ok(PathBuf::from("proxy.crt")));
    assert_eq!(required_path(&None, "cert"), Err(CliError::MissingPath { flag: "cert" }));
}

#[test]
fn tcp_target_holds_what_the_command_line_says() {
    let mut params = params_for_transport(ServerTransport::Tcp);
    params.server = "game.example.com:35565".to_string();
    params.root_ca_cert = Some(PathBuf::from("root_ca.crt"));
    params.cert = Some(PathBuf::from("proxy.crt"));
    params.private_key = Some(PathBuf::from("proxy_private_key.pem"));

    match server_target_from_params(&params, Ok(Some(ipv4("10.1.2.3", 35565)))) {
        Ok(ServerTarget::Tcp { server_addr, server_name, root_ca_cert, cert, private_key }) => {
            assert_eq!(server_addr, ipv4("10.1.2.3", 35565));
            assert_eq!(server_name, "game.example.com:35565");
            assert_eq!(root_ca_cert, PathBuf::from("root_ca.crt"));
            assert_eq!(cert, PathBuf::from("proxy.crt"));
            assert_eq!(private_key, PathBuf::from("proxy_private_key.pem"));
        }
        _ => panic!("no TCP target"),
    }
}

#[test]
fn tcp_target_errors() {
    let mut params = params_for_transport(ServerTransport::Tcp);
    let target = server_target_from_params(&params, Err("no network".to_string()));
    assert!(matches!(target, Err(CliError::LookupFailed { cause }) if cause == "no network"));
    let target = server_target_from_params(&params, Ok(None));
    match target {
        Err(error) => {
            assert_eq!(error.message(), "Could not resolve hostname: 127.0.0.1:35565");
        }
        Ok(_) => panic!("a target without an address"),
    }
    let found = || Ok(Some(ipv4("127.0.0.1", 35565)));
    let target = server_target_from_params(&params, found());
    assert!(matches!(target, Err(CliError::MissingPath { flag: "root-ca-cert" })));
    params.root_ca_cert = Some(PathBuf::from("a"));
    let target = server_target_from_params(&params, found());
    assert!(matches!(target, Err(CliError::MissingPath { flag: "cert" })));
    params.cert = Some(PathBuf::from("b"));
    let target = server_target_from_params(&params, found());
    assert!(matches!(target, Err(CliError::MissingPath { flag: "private-key" })));
}

#[test]
fn cli_errors_in_words() {
    let missing = CliError::MissingPath { flag: "cert" };
    assert_eq!(missing.message(), "TCP transport requires --cert");
    assert_eq!(
        CliError::MissingServerId.message(),
        "Iroh transport requires --iroh-server-id"
    );
    let failed = CliError::LookupFailed { cause: "no network".to_string() };
    assert_eq!(failed.message(), "failed to resolve TCP server host");
}

#[test]
fn iroh_target_does_not_look_the_server_up() {
    let mut params = params_for_transport(ServerTransport::Iroh);
    let lookup = || Err("no network".to_string());
    assert!(matches!(
        server_target_from_params(&params, lookup()),
        Err(CliError::MissingServerId)
    ));
    params.iroh_server_id = Some(public_key_from_seed(SERVER_KEY_SEED));
    params.iroh_server_addr = vec![ipv4("10.0.0.1", 1), ipv4("10.0.0.1", 1)];
    params.iroh_server_relay = vec![relay_url(FIRST_RELAY_URL)];
    params.iroh_secret_key = Some(SecretKey { bytes: [3; 32] });
    params.iroh_bind_addr = Some(ipv4("0.0.0.0", 0));
    match server_target_from_params(&params, lookup()) {
        Ok(ServerTarget::Iroh(server)) => {
            assert_eq!(server.direct_addrs, vec![ipv4("10.0.0.1", 1), ipv4("10.0.0.1", 1)]);
            assert_eq!(server.relay_urls, vec![relay_url(FIRST_RELAY_URL)]);
            assert!(server.secret_key == Some(SecretKey { bytes: [3; 32] }));
            assert_eq!(server.bind_addr, Some(ipv4("0.0.0.0", 0)));
        }
        _ => panic!("no Iroh target"),
    }
}

#[test]
fn environment_comes_before_the_command_line() {
    assert_eq!(params_source(true), ConfigSource::Environment);
    assert_eq!(params_source(false), ConfigSource::CommandLine);
}

#[test]
fn address_with_a_colon_is_a_tcp_address() {
    let socket = ipv4("127.0.0.1", 25565);
    let parsed = ProxyAddress::parse("127.0.0.1:25565", Ok(socket.clone()), true);
    assert_eq!(parsed, Ok(ProxyAddress::Tcp(socket)));
    let parsed =
        ProxyAddress::parse("host:x", Err("invalid socket address syntax".to_string()), true);
    let error = parsed.unwrap_err();
    assert_eq!(error.message(), "invalid socket address syntax");
}

#[test]
fn address_without_a_colon_is_a_path() {
    let no_address = || Err("invalid socket address syntax".to_string());
    let parsed = ProxyAddress::parse("/tmp/minecraft.sock", no_address(), true);
    assert_eq!(parsed, Ok(ProxyAddress::Unix("/tmp/minecraft.sock".to_string())));
    let parsed = ProxyAddress::parse("/tmp/minecraft.sock", no_address(), false);
    assert_eq!(parsed, Err(ProxyAddressError::UnixUnsupported));
    assert_eq!(
        ProxyAddressError::UnixUnsupported.message(),
        "Unix sockets are not supported on this platform"
    );
}

#[test]
fn proxy_addresses_as_text() {
    let tcp = ProxyAddress::Tcp(ipv4("0.0.0.0", 25565));
    assert_eq!(tcp.to_text(), "tcp://0.0.0.0:25565");
    let tcp = ProxyAddress::Tcp(ipv6("::1", 80));
    assert_eq!(tcp.to_text(), "tcp://[::1]:80");
    let unix = ProxyAddress::Unix("/tmp/minecraft.sock".to_string());
    assert_eq!(unix.to_text(), "unix:///tmp/minecraft.sock");
}

#[test]
fn failed_attempts_to_connect_are_repeated() {
    assert_eq!(connect(Some(5u8)), ConnectStep::Connected(5));
    assert_eq!(connect::<u8>(None), ConnectStep::RetryAfterMillis(100));
}

#[test]
fn lost_connection_is_made_again() {
    let mut proxy = ProxyLoop::new();
    let looked_at = |request| ProxyLoopEvent::ShutdownRequest(request);
    assert_eq!(proxy.step(looked_at(None)), ProxyLoopAction::ClearShutdownAndServe);
    assert_eq!(proxy.step(ProxyLoopEvent::ConnectionEnded), ProxyLoopAction::LookAtShutdown);
    assert_eq!(
        proxy.step(looked_at(Some(ShutdownType::Reconnect))),
        ProxyLoopAction::ClearShutdownAndServe
    );
    assert_eq!(proxy.step(looked_at(None)), ProxyLoopAction::KeepServing);
    assert_eq!(proxy.step(ProxyLoopEvent::ConnectionEnded), ProxyLoopAction::LookAtShutdown);
    assert_eq!(
        proxy.step(looked_at(Some(ShutdownType::Full))),
        ProxyLoopAction::Exit
    );
    assert_eq!(proxy.step(looked_at(None)), ProxyLoopAction::Exit);
}

#[test]
fn full_shutdown_ends_a_proxy_that_serves() {
    let mut proxy = ProxyLoop::new();
    proxy.step(ProxyLoopEvent::ShutdownRequest(None));
    assert_eq!(proxy.step(ProxyLoopEvent::FullShutdown), ProxyLoopAction::Exit);
    assert_eq!(proxy.step(ProxyLoopEvent::ConnectionEnded), ProxyLoopAction::Exit);
}

#[test]
fn reader_asks_for_a_reconnect_when_reading_fails() {
    let mut reader = ServerReader::new();
    assert_eq!(reader.step(ReaderEvent::PacketHandled), ReaderAction::ReadNext);
    assert_eq!(
        reader.step(ReaderEvent::PacketFailed),
        ReaderAction::EndAndRequest(ShutdownType::Reconnect)
    );
    assert_eq!(reader.step(ReaderEvent::PacketFailed), ReaderAction::End);
    assert_eq!(reader.step(ReaderEvent::PacketHandled), ReaderAction::End);
    let mut reader = ServerReader::new();
    assert_eq!(reader.step(ReaderEvent::ShutdownRequested), ReaderAction::End);
}

#[test]
fn players_get_distinct_ids_from_one_up() {
    let mut acceptor = PlayerAcceptor::new();
    for expected in 1..=3u64 {
        assert!(acceptor.has_next());
        assert_eq!(
            acceptor.step(AcceptEvent::PlayerAccepted),
            AcceptAction::Register { player_id: expected, pending_messages: 1024 }
        );
    }
}

#[test]
fn nobody_is_accepted_after_accepting_has_failed() {
    let mut acceptor = PlayerAcceptor::new();
    acceptor.step(AcceptEvent::PlayerAccepted);
    assert!(acceptor.is_accepting());
    assert_eq!(acceptor.step(AcceptEvent::AcceptFailed), AcceptAction::AwaitShutdown);
    assert!(!acceptor.is_accepting());
    assert_eq!(acceptor.step(AcceptEvent::PlayerAccepted), AcceptAction::AwaitShutdown);
    assert_eq!(acceptor.step(AcceptEvent::AcceptFailed), AcceptAction::AwaitShutdown);
    assert_eq!(acceptor.step(AcceptEvent::ShutdownRequested), AcceptAction::End);
    assert_eq!(acceptor.step(AcceptEvent::PlayerAccepted), AcceptAction::End);
}

#[test]
fn nobody_is_accepted_after_a_shutdown() {
    let mut acceptor = PlayerAcceptor::new();
    assert_eq!(acceptor.step(AcceptEvent::ShutdownRequested), AcceptAction::End);
    assert!(!acceptor.is_accepting());
    assert_eq!(acceptor.step(AcceptEvent::PlayerAccepted), AcceptAction::End);
    assert_eq!(acceptor.step(AcceptEvent::AcceptFailed), AcceptAction::End);
}

#[test]
fn proxy_over_iroh_announces_itself_before_it_serves() {
    let mut link = ServerLink::new(ServerTransport::Iroh);
    assert_eq!(link.succeeded(), LinkAction::OpenStream);
    assert_eq!(link.succeeded(), LinkAction::SendReady);
    assert_eq!(link.succeeded(), LinkAction::Serve);
    let mut link = ServerLink::new(ServerTransport::Tcp);
    assert_eq!(link.succeeded(), LinkAction::Serve);
    assert_eq!(link.succeeded(), LinkAction::Serve);
}

fn explanation_after(transport: ServerTransport, successes: usize) -> String {
    let mut link = ServerLink::new(transport);
    for _ in 0..successes {
        link.succeeded();
    }
    let action = link.failed("closed");
    assert_eq!(link.succeeded(), LinkAction::Ended);
    match action {
        LinkAction::GiveUp { explanation } => explanation,
        _ => panic!("a failure is not given up"),
    }
}

#[test]
fn failed_links_say_what_failed() {
    let tcp = |successes| explanation_after(ServerTransport::Tcp, successes);
    let iroh = |successes| explanation_after(ServerTransport::Iroh, successes);
    assert_eq!(tcp(0), "failed to connect to game server");
    assert_eq!(tcp(1), "closed");
    assert_eq!(iroh(0), "failed to connect to Iroh game server");
    assert_eq!(iroh(1), "failed to open Iroh proxy stream");
    assert_eq!(iroh(2), "failed to send proxy ready message: closed");
    assert_eq!(iroh(3), "closed");
    let mut link = ServerLink::new(ServerTransport::Iroh);
    link.succeeded();
    link.succeeded();
    assert_eq!(
        link.ready_not_encoded(),
        LinkAction::GiveUp { explanation: "failed to encode proxy ready message".to_string() }
    );
    assert_eq!(link.succeeded(), LinkAction::Ended);
}

#[test]
fn ingress_buffer_grows_and_keeps_what_lies_behind_a_frame() {
    let mut handler = IngressHandler::new();
    handler.handle_next([0, 0, 0, 0, 0, 0, 0, 3]).unwrap().copy_from_slice(&[7, 8, 9]);
    handler.handle_next([0, 0, 0, 0, 0, 0, 0, 1]).unwrap().copy_from_slice(&[1]);
    assert_eq!(
        handler.handle_next([0, 0, 0, 0, 0, 0, 0, 5]),
        Ok(&mut [1u8, 8, 9, 0, 0][..])
    );
    assert_eq!(handler.handle_next([0; 8]), Ok(&mut [][..]));
    assert_eq!(handler.handle_next([0, 0, 0, 0, 0, 0, 1, 2]).unwrap().len(), 258);
}

#[test]
fn frames_are_admitted_up_to_what_a_buffer_can_hold() {
    let prefix = |length: u64| length.to_be_bytes();
    assert_eq!(length_of_prefix([1, 2, 3, 4, 5, 6, 7, 8]), 0x0102_0304_0506_0708);
    assert!(admits_prefix(prefix(0)));
    assert!(admits_prefix(prefix(isize::MAX as u64)));
    assert!(!admits_prefix(prefix(isize::MAX as u64 + 1)));
    assert!(!admits_prefix(prefix(usize::MAX as u64)));
}
