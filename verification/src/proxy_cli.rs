//! The command line of the proxy.
use std::path::PathBuf;
use vstd::prelude::*;

use crate::address::{PublicKey, RelayUrl, SecretKey, SocketAddress};
use crate::cli::{CliError, CERT_FLAG, PRIVATE_KEY_FLAG, ROOT_CA_CERT_FLAG};
use crate::server_connection::IrohServerConnection;
use crate::text::{find_last, join, last_index_is_last};

verus! {

/// Where the proxy listens for players if nothing else is said.
pub const DEFAULT_PROXY_ADDR: &'static str = "0.0.0.0:25565";

/// Where the game server is if nothing else is said.
pub const DEFAULT_SERVER_ADDR: &'static str = "127.0.0.1:35565";

/// The way a proxy is connected to its game server.
#[derive(Clone, Copy, Debug, PartialEq, Eq, Structural)]
pub enum ServerTransport {
    Tcp,
    Iroh,
}

impl Default for ServerTransport {
    fn default() -> (transport: Self)
        ensures
            transport is Tcp,
    {
        ServerTransport::Tcp
    }
}

/// The game server that a proxy is to connect to.
pub enum ServerTarget {
    /// Over TCP.
    Tcp {
        server_addr: SocketAddress,
        server_name: String,
        root_ca_cert: PathBuf,
        cert: PathBuf,
        private_key: PathBuf,
    },
    /// Over Iroh.
    Iroh(IrohServerConnection),
}

impl Clone for ServerTarget {
    fn clone(&self) -> (copy: Self)
        ensures
            match *self {
                ServerTarget::Tcp { .. } => copy == *self,
                ServerTarget::Iroh(server) => copy matches ServerTarget::Iroh(same)
                    && same.server_id == server.server_id && same.direct_addrs@
                    == server.direct_addrs@ && same.relay_urls@ == server.relay_urls@
                    && same.secret_key == server.secret_key && same.bind_addr == server.bind_addr,
            },
    {
        match self {
            ServerTarget::Tcp { server_addr, server_name, root_ca_cert, cert, private_key } =>
                ServerTarget::Tcp {
                    server_addr: server_addr.clone(),
                    server_name: server_name.clone(),
                    root_ca_cert: root_ca_cert.clone(),
                    cert: cert.clone(),
                    private_key: private_key.clone(),
                },
            ServerTarget::Iroh(server) => ServerTarget::Iroh(server.clone()),
        }
    }
}

/// The parameters of a proxy.
pub struct Params {
    /// Where to listen for players: a TCP address or the path of a Unix domain socket.
    pub proxy_addr: String,
    /// The address of the game server, for TCP.
    pub server: String,
    /// The way to connect to the game server.
    pub server_transport: ServerTransport,
    /// The certificate of the authority. Required for TCP.
    pub root_ca_cert: Option<PathBuf>,
    /// The certificate of the proxy. Required for TCP.
    pub cert: Option<PathBuf>,
    /// The private key of the proxy. Required for TCP.
    pub private_key: Option<PathBuf>,
    /// The id of the game server. Required for Iroh.
    pub iroh_server_id: Option<PublicKey>,
    /// Addresses at which the game server may be reached directly, for Iroh.
    pub iroh_server_addr: Vec<SocketAddress>,
    /// Relays through which the game server may be reached, for Iroh.
    pub iroh_server_relay: Vec<RelayUrl>,
    /// The key of the proxy, for Iroh. A fresh one is made if there is none.
    pub iroh_secret_key: Option<SecretKey>,
    /// The proxy's own address, for Iroh.
    pub iroh_bind_addr: Option<SocketAddress>,
}

/// Where the proxy listens for players if nothing else is said.
pub fn default_proxy_addr() -> (addr: String)
    ensures
        addr@ == "0.0.0.0:25565"@,
{
    DEFAULT_PROXY_ADDR.to_owned()
}

/// Where the game server is if nothing else is said.
pub fn default_server() -> (addr: String)
    ensures
        addr@ == "127.0.0.1:35565"@,
{
    DEFAULT_SERVER_ADDR.to_owned()
}

/// Where the proxy listens for players.
#[derive(Debug, PartialEq, Eq)]
pub enum ProxyAddress {
    /// On TCP at this address.
    Tcp(SocketAddress),
    /// At the Unix domain socket of this path.
    Unix(String),
}

/// What is wrong with an address to listen at.
#[derive(Debug, PartialEq, Eq)]
pub enum ProxyAddressError {
    /// It is no TCP address; `error` says why not.
    InvalidSocketAddress { error: String },
    /// It is a path, but there are no Unix domain sockets here.
    UnixUnsupported,
}

impl ProxyAddressError {
    /// What is wrong, in words.
    pub open spec fn explanation(self) -> Seq<char> {
        match self {
            ProxyAddressError::InvalidSocketAddress { error } => error@,
            ProxyAddressError::UnixUnsupported =>
                "Unix sockets are not supported on this platform"@,
        }
    }

    /// Says what is wrong.
    pub fn message(&self) -> (message: String)
        ensures
            message@ == self.explanation(),
    {
        match self {
            ProxyAddressError::InvalidSocketAddress { error } => error.clone(),
            ProxyAddressError::UnixUnsupported =>
                "Unix sockets are not supported on this platform".to_owned(),
        }
    }
}

impl ProxyAddress {
    /// Whether a text is to be read as a TCP address: it holds a colon.
    pub fn is_tcp(addr: &str) -> (tcp: bool)
        ensures
            tcp == addr@.contains(':'),
    {
        proof {
            last_index_is_last(addr@, ':');
        }
        find_last(addr, ':').is_some()
    }

    /// Reads an address to listen at. `socket_addr` is what reading `addr` as a socket address
    /// gives, and `unix_sockets` says whether there are Unix domain sockets here.
    pub fn parse(
        addr: &str,
        socket_addr: Result<SocketAddress, String>,
        unix_sockets: bool,
    ) -> (parsed: Result<ProxyAddress, ProxyAddressError>)
        ensures
            addr@.contains(':') ==> parsed == match socket_addr {
                Ok(address) => Ok::<_, ProxyAddressError>(ProxyAddress::Tcp(address)),
                Err(error) => Err(ProxyAddressError::InvalidSocketAddress { error }),
            },
            !addr@.contains(':') && unix_sockets ==> (parsed matches Ok(ProxyAddress::Unix(path))
                && path@ == addr@),
            !addr@.contains(':') && !unix_sockets ==> parsed matches Err(
                ProxyAddressError::UnixUnsupported,
            ),
    {
        if ProxyAddress::is_tcp(addr) {
            match socket_addr {
                Ok(address) => Ok(ProxyAddress::Tcp(address)),
                Err(error) => Err(ProxyAddressError::InvalidSocketAddress { error }),
            }
        } else if unix_sockets {
            Ok(ProxyAddress::Unix(addr.to_owned()))
        } else {
            Err(ProxyAddressError::UnixUnsupported)
        }
    }

    /// The address as text.
    pub open spec fn text(self) -> Seq<char> {
        match self {
            ProxyAddress::Tcp(address) => "tcp://"@ + address.text(),
            ProxyAddress::Unix(path) => "unix://"@ + path@,
        }
    }

    /// Writes the address as text.
    pub fn to_text(&self) -> (text: String)
        ensures
            text@ == self.text(),
    {
        match self {
            ProxyAddress::Tcp(address) => {
                let address: String = address.to_text();
                join("tcp://", address.as_str())
            },
            ProxyAddress::Unix(path) => join("unix://", path.as_str()),
        }
    }
}

/// Takes a path that TCP needs, or says which flag is missing.
pub fn required_path(path: &Option<PathBuf>, flag: &'static str) -> (required: Result<
    PathBuf,
    CliError,
>)
    ensures
        required == match *path {
            Some(path) => Ok(path),
            None => Err(CliError::MissingPath { flag }),
        },
{
    match path {
        Some(path) => Ok(path.clone()),
        None => Err(CliError::MissingPath { flag }),
    }
}

/// How to reach the game server over Iroh: its id is required.
pub fn iroh_server_connection(params: &Params) -> (connection: Result<
    IrohServerConnection,
    CliError,
>)
    ensures
        match params.iroh_server_id {
            None => connection matches Err(CliError::MissingServerId),
            Some(server_id) => connection matches Ok(connection) && connection.server_id
                == server_id && connection.direct_addrs@ == params.iroh_server_addr@
                && connection.relay_urls@ == params.iroh_server_relay@ && connection.secret_key
                == params.iroh_secret_key && connection.bind_addr == params.iroh_bind_addr,
        },
{
    match params.iroh_server_id {
        None => Err(CliError::MissingServerId),
        Some(server_id) => {
            let direct_addrs: Vec<SocketAddress> = params.iroh_server_addr.clone();
            let relay_urls: Vec<RelayUrl> = params.iroh_server_relay.clone();
            assert(direct_addrs@ =~= params.iroh_server_addr@);
            assert(relay_urls@ =~= params.iroh_server_relay@);
            Ok(
                IrohServerConnection {
                    server_id,
                    direct_addrs,
                    relay_urls,
                    secret_key: params.iroh_secret_key,
                    bind_addr: params.iroh_bind_addr.clone(),
                },
            )
        },
    }
}

/// The first path that TCP needs and that is missing.
pub open spec fn missing_path(params: Params) -> Option<Seq<char>> {
    if params.root_ca_cert is None {
        Some("root-ca-cert"@)
    } else if params.cert is None {
        Some("cert"@)
    } else if params.private_key is None {
        Some("private-key"@)
    } else {
        None
    }
}

/// Decides which game server to connect to, and what for. `lookup` is what looking up the host
/// of the game server gives: its first address, if it has one. Only TCP looks at it. TCP also
/// needs all three paths.
pub fn server_target_from_params(
    params: &Params,
    lookup: Result<Option<SocketAddress>, String>,
) -> (target: Result<ServerTarget, CliError>)
    ensures
        match params.server_transport {
            ServerTransport::Tcp => match lookup {
                Err(error) => target matches Err(CliError::LookupFailed { cause }) && cause@
                    == error@,
                Ok(None) => target matches Err(CliError::Unresolved { server }) && server@
                    == params.server@,
                Ok(Some(address)) => match missing_path(*params) {
                    Some(missing) => target matches Err(CliError::MissingPath { flag }) && flag@
                        == missing,
                    None => target matches Ok(
                        ServerTarget::Tcp {
                            server_addr,
                            server_name,
                            root_ca_cert,
                            cert,
                            private_key,
                        },
                    ) && server_addr == address && server_name@ == params.server@ && Some(
                        root_ca_cert,
                    ) == params.root_ca_cert && Some(cert) == params.cert && Some(private_key)
                        == params.private_key,
                },
            },
            ServerTransport::Iroh => match params.iroh_server_id {
                None => target matches Err(CliError::MissingServerId),
                Some(server_id) => target matches Ok(ServerTarget::Iroh(connection))
                    && connection.server_id == server_id && connection.direct_addrs@
                    == params.iroh_server_addr@ && connection.relay_urls@
                    == params.iroh_server_relay@ && connection.secret_key
                    == params.iroh_secret_key && connection.bind_addr == params.iroh_bind_addr,
            },
        },
{
    match params.server_transport {
        ServerTransport::Tcp => {
            let server_addr: SocketAddress = match lookup {
                Err(cause) => {
                    return Err(CliError::LookupFailed { cause });
                },
                Ok(None) => {
                    return Err(CliError::Unresolved { server: params.server.clone() });
                },
                Ok(Some(address)) => address,
            };
            Ok(
                ServerTarget::Tcp {
                    server_addr,
                    server_name: params.server.clone(),
                    root_ca_cert: required_path(&params.root_ca_cert, ROOT_CA_CERT_FLAG)?,
                    cert: required_path(&params.cert, CERT_FLAG)?,
                    private_key: required_path(&params.private_key, PRIVATE_KEY_FLAG)?,
                },
            )
        },
        ServerTransport::Iroh => match iroh_server_connection(params) {
            Ok(connection) => Ok(ServerTarget::Iroh(connection)),
            Err(error) => Err(error),
        },
    }
}

/// Where a program takes its parameters from.
#[derive(Clone, Copy, Debug, PartialEq, Eq, Structural)]
pub enum ConfigSource {
    /// From the command line.
    CommandLine,
    /// From the environment.
    Environment,
}

/// Decides where the proxy takes its parameters from: from the environment if they can be
/// read there, else from the command line.
pub fn params_source(environment_loaded: bool) -> (source: ConfigSource)
    ensures
        source is Environment <==> environment_loaded,
{
    if environment_loaded {
        ConfigSource::Environment
    } else {
        ConfigSource::CommandLine
    }
}

/// Of the paths that TCP needs, the missing one that comes first is named, in the order of the
/// authority's certificate, the certificate and the key; none is named exactly if all are there.
pub proof fn the_first_missing_path_is_named(params: Params)
    ensures
        missing_path(params) is None <==> params.root_ca_cert is Some && params.cert is Some
            && params.private_key is Some,
        params.root_ca_cert is None ==> missing_path(params) == Some("root-ca-cert"@),
        params.root_ca_cert is Some && params.cert is None ==> missing_path(params) == Some(
            "cert"@,
        ),
        params.root_ca_cert is Some && params.cert is Some && params.private_key is None
            ==> missing_path(params) == Some("private-key"@),
{
}

/// The text of an address to listen at is a scheme and the whole address or path, whatever it
/// is; and the error of a text that is no address is passed on.
pub proof fn listening_addresses_are_written_whole(address: SocketAddress, path: String)
    ensures
        ProxyAddress::Tcp(address).text() == "tcp://"@ + address.text(),
        ProxyAddress::Unix(path).text() == "unix://"@ + path@,
        (ProxyAddressError::InvalidSocketAddress { error: path }).explanation() == path@,
{
}

/// What looking up the game server gives decides over TCP alone: over Iroh the target is the
/// same whatever it is, and there is one exactly if the server's id is given.
pub proof fn iroh_does_not_look_the_server_up(
    params: &Params,
    first: Result<Option<SocketAddress>, String>,
    second: Result<Option<SocketAddress>, String>,
    first_target: Result<ServerTarget, CliError>,
    second_target: Result<ServerTarget, CliError>,
)
    requires
        params.server_transport is Iroh,
        call_ensures(server_target_from_params, (params, first), first_target),
        call_ensures(server_target_from_params, (params, second), second_target),
    ensures
        first_target is Ok <==> params.iroh_server_id is Some,
        second_target is Ok <==> first_target is Ok,
        first_target is Err ==> first_target->Err_0 is MissingServerId,
        first_target is Ok ==> {
            &&& first_target->Ok_0 matches ServerTarget::Iroh(server)
            &&& second_target->Ok_0 matches ServerTarget::Iroh(other)
            &&& Some(server.server_id) == params.iroh_server_id
            &&& other.server_id == server.server_id
            &&& server.direct_addrs@ == params.iroh_server_addr@
            &&& other.direct_addrs@ == server.direct_addrs@
            &&& server.relay_urls@ == params.iroh_server_relay@
            &&& other.relay_urls@ == server.relay_urls@
            &&& server.secret_key == params.iroh_secret_key
            &&& server.bind_addr == params.iroh_bind_addr
        },
{
}

/// Over TCP there is a target exactly if the server was found and all three paths are given, and
/// it holds the address that was found, the server as it was named, and the paths.
pub proof fn tcp_targets_need_the_server_and_the_paths(
    params: &Params,
    lookup: Result<Option<SocketAddress>, String>,
    target: Result<ServerTarget, CliError>,
)
    requires
        params.server_transport is Tcp,
        call_ensures(server_target_from_params, (params, lookup), target),
    ensures
        target is Ok <==> lookup is Ok && lookup->Ok_0 is Some && params.root_ca_cert is Some
            && params.cert is Some && params.private_key is Some,
        target is Ok ==> {
            &&& target->Ok_0 matches ServerTarget::Tcp {
                server_addr,
                server_name,
                root_ca_cert,
                cert,
                private_key,
            }
            &&& Some(server_addr) == lookup->Ok_0
            &&& server_name@ == params.server@
            &&& Some(root_ca_cert) == params.root_ca_cert
            &&& Some(cert) == params.cert
            &&& Some(private_key) == params.private_key
        },
        target is Err && lookup is Err ==> target->Err_0 is LookupFailed,
        target is Err && lookup is Ok && lookup->Ok_0 is None ==> target->Err_0 is Unresolved,
        target is Err && lookup is Ok && lookup->Ok_0 is Some ==> target->Err_0 is MissingPath,
{
}

/// A text is read as a TCP address exactly if it holds a colon, and as a path, which is the text
/// itself, exactly if it does not and there are such sockets.
pub proof fn a_colon_makes_a_tcp_address(
    addr: &str,
    socket_addr: Result<SocketAddress, String>,
    unix_sockets: bool,
    parsed: Result<ProxyAddress, ProxyAddressError>,
)
    requires
        call_ensures(ProxyAddress::parse, (addr, socket_addr, unix_sockets), parsed),
    ensures
        parsed matches Ok(ProxyAddress::Tcp(address)) ==> addr@.contains(':') && socket_addr == Ok::<
            _,
            String,
        >(address),
        parsed matches Ok(ProxyAddress::Unix(path)) ==> !addr@.contains(':') && path@ == addr@,
        parsed is Err <==> (addr@.contains(':') && socket_addr is Err) || (!addr@.contains(':')
            && !unix_sockets),
{
}

} // verus!
