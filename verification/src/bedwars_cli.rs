//! The command line of the Bedwars game server.
use std::path::PathBuf;
use vstd::prelude::*;

use crate::address::{PublicKey, SecretKey, SocketAddress};
use crate::cli::{CliError, CERT_FLAG, PRIVATE_KEY_FLAG, ROOT_CA_CERT_FLAG};
use crate::proxy_bind::{IrohProxyBind, ProxyBind};
use crate::proxy_cli::ConfigSource;
use crate::text::{decimal, decimal_text, decimals_are_told_apart, join};

verus! {

/// The IP address to listen at if nothing else is said.
pub const DEFAULT_SERVER_IP: &'static str = "0.0.0.0";

/// The port to listen at if nothing else is said.
pub const DEFAULT_SERVER_PORT: u16 = 35565;

/// How many arguments the name of the process makes.
pub const PROCESS_NAME_ARG_COUNT: usize = 1;

/// The way the game server takes proxies in.
#[derive(Clone, Copy, Debug, PartialEq, Eq, Structural)]
pub enum ProxyTransport {
    Tcp,
    Iroh,
}

impl Default for ProxyTransport {
    fn default() -> (transport: Self)
        ensures
            transport is Tcp,
    {
        ProxyTransport::Tcp
    }
}

/// The arguments to run the server.
pub struct Args {
    /// The IP address to listen at, for TCP.
    pub ip: String,
    /// The port to listen at, for TCP.
    pub port: u16,
    /// The way to take proxies in.
    pub proxy_transport: ProxyTransport,
    /// The certificate of the authority. Required for TCP.
    pub root_ca_cert: Option<PathBuf>,
    /// The certificate of the game server. Required for TCP.
    pub cert: Option<PathBuf>,
    /// The private key of the game server. Required for TCP.
    pub private_key: Option<PathBuf>,
    /// The key of the game server, for Iroh. A fresh one is made if there is none.
    pub iroh_secret_key: Option<SecretKey>,
    /// The game server's own address, for Iroh.
    pub iroh_bind_addr: Option<SocketAddress>,
    /// The proxies that may connect, for Iroh. If there are none, every proxy may.
    pub iroh_allowed_proxy_id: Vec<PublicKey>,
}

/// The IP address to listen at if nothing else is said.
pub fn default_ip() -> (ip: String)
    ensures
        ip@ == "0.0.0.0"@,
{
    DEFAULT_SERVER_IP.to_owned()
}

/// The port to listen at if nothing else is said.
pub fn default_port() -> (port: u16)
    ensures
        port == 35565,
{
    DEFAULT_SERVER_PORT
}

/// Takes a path that TCP needs, or says which flag is missing.
pub fn required_path<'a>(path: Option<&'a PathBuf>, flag: &'static str) -> (required: Result<
    &'a PathBuf,
    CliError,
>)
    ensures
        required == match path {
            Some(path) => Ok(path),
            None => Err(CliError::MissingPath { flag }),
        },
{
    match path {
        Some(path) => Ok(path),
        None => Err(CliError::MissingPath { flag }),
    }
}

/// The files that hold the material for TLS.
#[derive(Clone, Copy, Debug)]
pub struct CryptoPaths<'a> {
    pub root_ca_cert: &'a PathBuf,
    pub cert: &'a PathBuf,
    pub private_key: &'a PathBuf,
}

/// The first path that TCP needs and that is missing.
pub open spec fn missing_path(args: Args) -> Option<Seq<char>> {
    if args.root_ca_cert is None {
        Some("root-ca-cert"@)
    } else if args.cert is None {
        Some("cert"@)
    } else if args.private_key is None {
        Some("private-key"@)
    } else {
        None
    }
}

/// Finds the files that hold the material for TLS: all three are required.
pub fn tcp_crypto<'a>(args: &'a Args) -> (paths: Result<CryptoPaths<'a>, CliError>)
    ensures
        match missing_path(*args) {
            Some(missing) => paths matches Err(CliError::MissingPath { flag }) && flag@ == missing,
            None => paths matches Ok(paths) && Some(*paths.root_ca_cert) == args.root_ca_cert
                && Some(*paths.cert) == args.cert && Some(*paths.private_key) == args.private_key,
        },
{
    let root_ca_cert: &PathBuf = required_path(args.root_ca_cert.as_ref(), ROOT_CA_CERT_FLAG)?;
    let cert: &PathBuf = required_path(args.cert.as_ref(), CERT_FLAG)?;
    let private_key: &PathBuf = required_path(args.private_key.as_ref(), PRIVATE_KEY_FLAG)?;
    Ok(CryptoPaths { root_ca_cert, cert, private_key })
}

/// Decides how to take proxies in: over TCP at `tcp_address`, which needs the material for
/// TLS, or over Iroh, which does not.
pub fn proxy_bind_from_args<'a>(args: &'a Args, tcp_address: SocketAddress) -> (bind: Result<
    (ProxyBind, Option<CryptoPaths<'a>>),
    CliError,
>)
    ensures
        match args.proxy_transport {
            ProxyTransport::Tcp => match missing_path(*args) {
                Some(missing) => bind matches Err(CliError::MissingPath { flag }) && flag@
                    == missing,
                None => bind matches Ok((proxy_bind, Some(paths))) && proxy_bind == ProxyBind::Tcp(
                    tcp_address,
                ) && Some(*paths.root_ca_cert) == args.root_ca_cert && Some(*paths.cert)
                    == args.cert && Some(*paths.private_key) == args.private_key,
            },
            ProxyTransport::Iroh => bind matches Ok((ProxyBind::Iroh(config), None))
                && config.secret_key == args.iroh_secret_key && config.bind_addr
                == args.iroh_bind_addr && config.allowed_proxy_ids@ == args.iroh_allowed_proxy_id@,
        },
{
    match args.proxy_transport {
        ProxyTransport::Tcp => {
            let paths: CryptoPaths<'a> = tcp_crypto(args)?;
            Ok((ProxyBind::Tcp(tcp_address), Some(paths)))
        },
        ProxyTransport::Iroh => Ok((iroh_bind(args), None)),
    }
}

/// How to take proxies in over Iroh.
fn iroh_bind(args: &Args) -> (bind: ProxyBind)
    ensures
        bind matches ProxyBind::Iroh(config) && config.secret_key == args.iroh_secret_key
            && config.bind_addr == args.iroh_bind_addr && config.allowed_proxy_ids@
            == args.iroh_allowed_proxy_id@,
{
    let allowed_proxy_ids: Vec<PublicKey> = args.iroh_allowed_proxy_id.clone();
    assert(allowed_proxy_ids@ =~= args.iroh_allowed_proxy_id@);
    let config: IrohProxyBind = IrohProxyBind {
        secret_key: args.iroh_secret_key,
        bind_addr: args.iroh_bind_addr.clone(),
        allowed_proxy_ids,
    };
    ProxyBind::Iroh(Box::new(config))
}

/// Decides how to take proxies in, where `tcp_address` is what reading the IP address and the
/// port as a TCP address gave. Only TCP looks at it: Iroh ignores the IP address and the port.
pub fn proxy_bind_from_config<'a>(
    args: &'a Args,
    tcp_address: Result<SocketAddress, String>,
) -> (bind: Result<(ProxyBind, Option<CryptoPaths<'a>>), CliError>)
    ensures
        match args.proxy_transport {
            ProxyTransport::Tcp => match (tcp_address, missing_path(*args)) {
                (Err(cause), _) => bind == Err::<(ProxyBind, Option<CryptoPaths<'a>>), _>(
                    CliError::InvalidTcpAddress { cause },
                ),
                (Ok(_), Some(missing)) => bind matches Err(CliError::MissingPath { flag })
                    && flag@ == missing,
                (Ok(address), None) => bind matches Ok((proxy_bind, Some(paths))) && proxy_bind
                    == ProxyBind::Tcp(address) && Some(*paths.root_ca_cert) == args.root_ca_cert
                    && Some(*paths.cert) == args.cert && Some(*paths.private_key)
                    == args.private_key,
            },
            ProxyTransport::Iroh => bind matches Ok((ProxyBind::Iroh(config), None))
                && config.secret_key == args.iroh_secret_key && config.bind_addr
                == args.iroh_bind_addr && config.allowed_proxy_ids@ == args.iroh_allowed_proxy_id@,
        },
{
    match args.proxy_transport {
        ProxyTransport::Tcp => match tcp_address {
            Ok(address) => proxy_bind_from_args(args, address),
            Err(cause) => Err(CliError::InvalidTcpAddress { cause }),
        },
        ProxyTransport::Iroh => Ok((iroh_bind(args), None)),
    }
}

/// Takes in what loading the material for TLS gave, which is `None` where none is needed: proxies
/// can be taken in unless it had to be loaded and was not. `C` is the material.
pub fn bind_with_crypto<C>(proxy_bind: ProxyBind, loaded: Option<Result<C, String>>) -> (bind:
    Result<(ProxyBind, Option<C>), CliError>)
    ensures
        bind == match loaded {
            None => Ok((proxy_bind, None)),
            Some(Ok(crypto)) => Ok((proxy_bind, Some(crypto))),
            Some(Err(cause)) => Err(CliError::LoadFailed { cause }),
        },
{
    match loaded {
        None => Ok((proxy_bind, None)),
        Some(Ok(crypto)) => Ok((proxy_bind, Some(crypto))),
        Some(Err(cause)) => Err(CliError::LoadFailed { cause }),
    }
}

/// Whether there are arguments besides the name of the process.
pub fn cli_args_present(arg_count: usize) -> (present: bool)
    ensures
        present == (arg_count > 1),
{
    arg_count > PROCESS_NAME_ARG_COUNT
}

/// Decides where the server takes its arguments from: from the command line if there is
/// anything on it, else from the environment if they can be read there, else from the command
/// line after all.
pub fn args_from_config(arg_count: usize, environment_loaded: bool) -> (source: ConfigSource)
    ensures
        source is Environment <==> arg_count <= 1 && environment_loaded,
{
    if cli_args_present(arg_count) {
        return ConfigSource::CommandLine;
    }
    if environment_loaded {
        ConfigSource::Environment
    } else {
        ConfigSource::CommandLine
    }
}

/// The text of the TCP address to listen at.
pub fn tcp_address_text(ip: &str, port: u16) -> (address: String)
    ensures
        address@ == ip@ + ":"@ + decimal(port as nat),
{
    let mut address: String = join(ip, ":");
    let port: String = decimal_text(port as u64);
    address.append(port.as_str());
    address
}

/// Of the paths that TCP needs, the missing one that comes first is named, in the order of the
/// authority's certificate, the certificate and the key; none is named exactly if all are there.
pub proof fn the_first_missing_path_is_named(args: Args)
    ensures
        missing_path(args) is None <==> args.root_ca_cert is Some && args.cert is Some
            && args.private_key is Some,
        args.root_ca_cert is None ==> missing_path(args) == Some("root-ca-cert"@),
        args.root_ca_cert is Some && args.cert is None ==> missing_path(args) == Some("cert"@),
        args.root_ca_cert is Some && args.cert is Some && args.private_key is None ==> missing_path(
            args,
        ) == Some("private-key"@),
{
}

/// Over TCP proxies can be taken in exactly if the address can be read and all three paths are
/// given, and then at that address with those paths. Over Iroh they always can, with what the
/// arguments say of Iroh, whatever the address and the paths are.
pub proof fn only_tcp_needs_the_address_and_the_paths<'a>(
    args: &'a Args,
    tcp_address: Result<SocketAddress, String>,
    bind: Result<(ProxyBind, Option<CryptoPaths<'a>>), CliError>,
)
    requires
        call_ensures(proxy_bind_from_config, (args, tcp_address), bind),
    ensures
        bind is Ok <==> args.proxy_transport is Iroh || (tcp_address is Ok && args.root_ca_cert
            is Some && args.cert is Some && args.private_key is Some),
        bind is Ok && args.proxy_transport is Tcp ==> {
            &&& bind->Ok_0.0 matches ProxyBind::Tcp(address)
            &&& tcp_address == Ok::<_, String>(address)
            &&& bind->Ok_0.1 matches Some(paths)
            &&& Some(*paths.root_ca_cert) == args.root_ca_cert
            &&& Some(*paths.cert) == args.cert
            &&& Some(*paths.private_key) == args.private_key
        },
        bind is Ok && args.proxy_transport is Iroh ==> {
            &&& bind->Ok_0.0 matches ProxyBind::Iroh(config)
            &&& bind->Ok_0.1 is None
            &&& config.secret_key == args.iroh_secret_key
            &&& config.bind_addr == args.iroh_bind_addr
            &&& config.allowed_proxy_ids@ == args.iroh_allowed_proxy_id@
        },
{
}

/// The text of the address to listen at ends with the port in decimal and begins with all of the
/// IP address, so that it tells the port.
pub proof fn address_texts_tell_the_port(ip: &str, first: u16, second: u16, address: String)
    requires
        call_ensures(tcp_address_text, (ip, first), address),
        call_ensures(tcp_address_text, (ip, second), address),
    ensures
        first == second,
        address@ == ip@ + ":"@ + decimal(first as nat),
{
    let start = (ip@ + ":"@).len() as int;
    assert(address@.skip(start) =~= decimal(first as nat));
    assert(address@.skip(start) =~= decimal(second as nat));
    decimals_are_told_apart(first as nat, second as nat);
}

/// The arguments come from the environment exactly if nothing but the name of the process is on
/// the command line and they can be read there; and material that was to be loaded is used
/// exactly if it was.
pub proof fn the_command_line_comes_first<C>(
    arg_count: usize,
    loaded_arguments: bool,
    source: ConfigSource,
    proxy_bind: ProxyBind,
    loaded: Option<Result<C, String>>,
    bind: Result<(ProxyBind, Option<C>), CliError>,
)
    requires
        call_ensures(args_from_config, (arg_count, loaded_arguments), source),
        call_ensures(bind_with_crypto::<C>, (proxy_bind, loaded), bind),
    ensures
        arg_count > 1 ==> source is CommandLine,
        arg_count <= 1 ==> (source is Environment <==> loaded_arguments),
        bind is Err <==> loaded is Some && loaded->0 is Err,
        bind matches Err(error) ==> (error matches CliError::LoadFailed { cause } && loaded == Some(
            Err::<C, _>(cause),
        )),
        bind matches Ok((kept, crypto)) ==> kept == proxy_bind && (crypto is Some <==> loaded
            is Some) && (loaded is Some ==> loaded->0 == Ok::<C, String>(crypto->0)),
{
}

} // verus!
