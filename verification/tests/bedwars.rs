//! The Bedwars game: its command line, its teams, and how it is set up.
use std::path::PathBuf;

use hyperion::address::{AddressFamily, PublicKey, SecretKey, SocketAddress};
use hyperion::bedwars_cli::{
    args_from_config, bind_with_crypto, cli_args_present, default_ip, default_port, proxy_bind_from_args,
    proxy_bind_from_config, required_path, tcp_address_text, tcp_crypto, Args, ProxyTransport, DEFAULT_SERVER_PORT,
    PROCESS_NAME_ARG_COUNT,
};
use hyperion::cli::CliError;
use hyperion::game::{build_game_app_with_proxy, init_game, BedwarsPlugin};
use hyperion::proxy_bind::{IrohProxyBind, ProxyBind};
use hyperion::proxy_cli::ConfigSource;
use hyperion::team::Team;
use valence_text::{Color, IntoText, Text};

fn loopback(port: u16) -> SocketAddress {
    SocketAddress { family: AddressFamily::V4, host: "127.0.0.1".to_string(), port }
}

fn args_for_transport(proxy_transport: ProxyTransport) -> Args {
    Args {
        ip: default_ip(),
        port: default_port(),
        proxy_transport,
        root_ca_cert: None,
        cert: None,
        private_key: None,
        iroh_secret_key: None,
        iroh_bind_addr: None,
        iroh_allowed_proxy_id: Vec::new(),
    }
}

#[test]
fn cli_args_present_rejects_process_name_only() {
    assert!(!cli_args_present(PROCESS_NAME_ARG_COUNT));
}

#[test]
fn cli_args_present_accepts_extra_args() {
    assert!(cli_args_present(PROCESS_NAME_ARG_COUNT + 1));
}

#[test]
fn main_tcp_transport_accepts_present_tls_paths() {
    let mut args = args_for_transport(ProxyTransport::Tcp);
    args.root_ca_cert = Some(PathBuf::from("root_ca.crt"));
    args.cert = Some(PathBuf::from("server.crt"));
    args.private_key = Some(PathBuf::from("server_private_key.pem"));

    assert!(required_path(args.root_ca_cert.as_ref(), "root-ca-cert").is_ok());
    assert!(required_path(args.cert.as_ref(), "cert").is_ok());
    assert!(required_path(args.private_key.as_ref(), "private-key").is_ok());
}

#[test]
fn main_tcp_transport_rejects_missing_tls_paths() {
    let args = args_for_transport(ProxyTransport::Tcp);

    let err = required_path(args.root_ca_cert.as_ref(), "root-ca-cert").unwrap_err();

    assert!(err.message().contains("--root-ca-cert"));
}

#[test]
fn iroh_transport_builds_without_tls_paths() {
    let args = args_for_transport(ProxyTransport::Iroh);
    let tcp_address = loopback(DEFAULT_SERVER_PORT);
    let (proxy_bind, crypto) = proxy_bind_from_args(&args, tcp_address).ok().unwrap();

    assert!(matches!(proxy_bind, ProxyBind::Iroh(_)));
    assert!(crypto.is_none());
}

#[test]
fn defaults_of_the_game_server() {
    assert_eq!(default_ip(), "0.0.0.0");
    assert_eq!(default_port(), 35565);
    assert_eq!(ProxyTransport::default(), ProxyTransport::Tcp);
    assert_eq!(tcp_address_text(&default_ip(), default_port()), "0.0.0.0:35565");
    assert_eq!(tcp_address_text("10.0.0.1", 0), "10.0.0.1:0");
}

#[test]
fn iroh_bind_holds_what_the_command_line_says() {
    let mut args = args_for_transport(ProxyTransport::Iroh);
    args.iroh_secret_key = Some(SecretKey { bytes: [7; 32] });
    args.iroh_bind_addr = Some(loopback(0));
    args.iroh_allowed_proxy_id =
        vec![PublicKey { bytes: [8; 32] }, PublicKey { bytes: [9; 32] }];

    match proxy_bind_from_args(&args, loopback(1)) {
        Ok((ProxyBind::Iroh(config), None)) => {
            assert!(config.secret_key == Some(SecretKey { bytes: [7; 32] }));
            assert_eq!(config.bind_addr, Some(loopback(0)));
            assert_eq!(
                config.allowed_proxy_ids,
                vec![PublicKey { bytes: [8; 32] }, PublicKey { bytes: [9; 32] }]
            );
        }
        _ => panic!("no Iroh bind"),
    }
}

#[test]
fn tcp_needs_all_three_paths() {
    let mut args = args_for_transport(ProxyTransport::Tcp);
    let missing = |args: &Args| {
        assert!(proxy_bind_from_args(args, loopback(1)).is_err());
        tcp_crypto(args).unwrap_err()
    };
    assert_eq!(missing(&args), CliError::MissingPath { flag: "root-ca-cert" });
    args.root_ca_cert = Some(PathBuf::from("root_ca.crt"));
    assert_eq!(missing(&args), CliError::MissingPath { flag: "cert" });
    args.cert = Some(PathBuf::from("server.crt"));
    assert_eq!(missing(&args), CliError::MissingPath { flag: "private-key" });
    args.private_key = Some(PathBuf::from("server_private_key.pem"));
    match proxy_bind_from_args(&args, loopback(1)) {
        Ok((ProxyBind::Tcp(address), Some(paths))) => {
            assert_eq!(address, loopback(1));
            assert_eq!(paths.root_ca_cert, &PathBuf::from("root_ca.crt"));
            assert_eq!(paths.cert, &PathBuf::from("server.crt"));
            assert_eq!(paths.private_key, &PathBuf::from("server_private_key.pem"));
        }
        _ => panic!("no TCP bind"),
    }
}

#[test]
fn iroh_ignores_the_ip_address_and_the_port() {
    let invalid = || Err("invalid socket address syntax".to_string());
    let args = args_for_transport(ProxyTransport::Iroh);
    let bind = proxy_bind_from_config(&args, invalid());
    assert!(matches!(bind, Ok((ProxyBind::Iroh(_), None))));
    let mut args = args_for_transport(ProxyTransport::Tcp);
    match proxy_bind_from_config(&args, invalid()) {
        Err(error) => {
            assert_eq!(error.message(), "failed to parse TCP proxy address");
            let cause = "invalid socket address syntax".to_string();
            assert_eq!(error, CliError::InvalidTcpAddress { cause });
        }
        Ok(_) => panic!("a bind without an address"),
    }
    let bind = proxy_bind_from_config(&args, Ok(loopback(1)));
    assert!(matches!(bind, Err(CliError::MissingPath { flag: "root-ca-cert" })));
    args.root_ca_cert = Some(PathBuf::from("a"));
    args.cert = Some(PathBuf::from("b"));
    args.private_key = Some(PathBuf::from("c"));
    let bind = proxy_bind_from_config(&args, Ok(loopback(1)));
    assert!(matches!(bind, Ok((ProxyBind::Tcp(address), Some(_))) if address == loopback(1)));
}

#[test]
fn material_that_does_not_load_is_an_error() {
    let bind = || ProxyBind::Tcp(loopback(1));
    match bind_with_crypto(bind(), Some(Ok('m'))) {
        Ok((ProxyBind::Tcp(address), crypto)) => {
            assert_eq!(address, loopback(1));
            assert_eq!(crypto, Some('m'));
        }
        _ => panic!("the material was loaded"),
    }
    match bind_with_crypto::<char>(bind(), Some(Err("not found".to_string()))) {
        Err(error) => {
            assert_eq!(error.message(), "failed to load TCP mTLS material");
            assert_eq!(error, CliError::LoadFailed { cause: "not found".to_string() });
        }
        Ok(_) => panic!("a bind without its material"),
    }
    let iroh = ProxyBind::Iroh(Box::new(IrohProxyBind::default()));
    assert!(matches!(bind_with_crypto::<char>(iroh, None), Ok((ProxyBind::Iroh(_), None))));
}

#[test]
fn command_line_comes_before_the_environment() {
    assert_eq!(args_from_config(2, true), ConfigSource::CommandLine);
    assert_eq!(args_from_config(1, true), ConfigSource::Environment);
    assert_eq!(args_from_config(1, false), ConfigSource::CommandLine);
    assert_eq!(args_from_config(0, true), ConfigSource::Environment);
}

#[test]
fn tcp_address_is_announced() {
    let plan = init_game(loopback(35565), 5u8);
    assert!(matches!(plan.proxy_bind, ProxyBind::Tcp(address) if address == loopback(35565)));
    assert_eq!(plan.crypto, Some(5));
    assert_eq!(plan.announced_server, Some("127.0.0.1:35565".to_string()));
    let bind = ProxyBind::Iroh(Box::new(IrohProxyBind::default()));
    let plan = build_game_app_with_proxy::<u8>(bind, None);
    assert!(matches!(plan.proxy_bind, ProxyBind::Iroh(_)));
    assert_eq!(plan.crypto, None);
    assert_eq!(plan.announced_server, None);
}

#[test]
fn players_start_in_the_red_team() {
    assert_eq!(BedwarsPlugin.initial_team(), Team::Red);
}

const TEAMS: [(Team, &str, u8, u8, u8); 16] = [
    (Team::Black, "Black", 0x14, 0x15, 0x19),
    (Team::Blue, "Blue", 0x35, 0x39, 0x9D),
    (Team::Brown, "Brown", 0x72, 0x47, 0x28),
    (Team::Cyan, "Cyan", 0x15, 0x89, 0x91),
    (Team::Gray, "Gray", 0x3E, 0x44, 0x47),
    (Team::Green, "Green", 0x54, 0x6D, 0x1B),
    (Team::LightBlue, "Light Blue", 0x3A, 0xAF, 0xD9),
    (Team::LightGray, "Light Gray", 0x8E, 0x8E, 0x86),
    (Team::Lime, "Lime", 0x70, 0xB9, 0x19),
    (Team::Magenta, "Magenta", 0xBD, 0x44, 0xB3),
    (Team::Orange, "Orange", 0xF0, 0x76, 0x13),
    (Team::Pink, "Pink", 0xED, 0x8D, 0xAC),
    (Team::Purple, "Purple", 0x79, 0x2A, 0xAC),
    (Team::Red, "Red", 0xA1, 0x27, 0x22),
    (Team::White, "White", 0xE9, 0xEC, 0xEC),
    (Team::Yellow, "Yellow", 0xF8, 0xC6, 0x27),
];

#[test]
fn teams_have_their_names_and_colors() {
    for (team, name, r, g, b) in TEAMS {
        assert_eq!(team.name(), name);
        assert_eq!(team.color(), Color::rgb(r, g, b));
        let text: Text = team.text();
        assert_eq!(text, name.into_text().color(Color::rgb(r, g, b)));
        assert_ne!(text, name.into_text());
        assert_eq!(Color::from(team), Color::rgb(r, g, b));
        assert_eq!(Text::from(team), text);
        assert_eq!(name.into_text().color(team), text);
    }
}

#[test]
fn teams_are_sorted_and_distinct() {
    for pair in TEAMS.windows(2) {
        assert!(pair[0].0.name() < pair[1].0.name());
    }
    for (i, first) in TEAMS.iter().enumerate() {
        for second in &TEAMS[i + 1..] {
            assert_ne!(first.0.color(), second.0.color());
        }
    }
}
