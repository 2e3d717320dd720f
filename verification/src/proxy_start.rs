//! What a proxy needs before it can connect to its game server, over TCP or over Iroh.
use vstd::prelude::*;

use crate::address::address_views;
use crate::proxy_bind::{endpoint_bind, proxy_endpoint_plan, EndpointPlan};
use crate::server_connection::{
    validate_iroh_server_connection, IrohServerConnection, NodeAddr, TooManyRelayUrls,
};
use crate::tls::{
    anchor_from_trusted_cert, anchor_of, material_with_anchor, port_comes_off, server_name_of,
    tls_server_name, without_port, ServerNameError, TlsMaterial, TrustAnchor, TrustAnchorError,
};

verus! {

/// What a proxy needs to connect to its game server over TCP. `K` is a private key.
pub struct TcpProxyPlan<K> {
    /// The name that the game server must prove.
    pub server_name: String,
    /// What to trust and what to present.
    pub material: TlsMaterial,
    /// The key of the certificate that is presented.
    pub private_key: K,
}

/// Why a proxy cannot connect over TCP.
#[derive(Debug, PartialEq, Eq)]
pub enum RunProxyError {
    /// The game server has no name to prove.
    ServerName(ServerNameError),
    /// The certificate of the authority cannot be loaded; `cause` says why not.
    RootCaCert { cause: String },
    /// The certificate of the proxy cannot be loaded; `cause` says why not.
    ProxyCert { cause: String },
    /// The certificate of the authority cannot be trusted.
    TrustAnchor(TrustAnchorError),
    /// The private key of the proxy cannot be loaded; `cause` says why not.
    PrivateKey { cause: String },
    /// The material makes no configuration for TLS; `cause` says why not.
    TlsConfig { cause: String },
}

impl RunProxyError {
    /// What is wrong, in words.
    pub open spec fn explanation(self) -> Seq<char> {
        match self {
            RunProxyError::ServerName(ServerNameError::MissingPort) =>
                "server name is missing port"@,
            RunProxyError::ServerName(ServerNameError::Invalid) => "failed to parse server name"@,
            RunProxyError::RootCaCert { .. } =>
                "failed to load root certificate authority certificate"@,
            RunProxyError::ProxyCert { .. } => "failed to load proxy certificate"@,
            RunProxyError::TrustAnchor(_) => "failed to create trust anchor"@,
            RunProxyError::PrivateKey { .. } => "failed to load proxy private key"@,
            RunProxyError::TlsConfig { .. } => "failed to create tls client config"@,
        }
    }

    /// Says what is wrong.
    pub fn message(&self) -> (message: String)
        ensures
            message@ == self.explanation(),
    {
        match self {
            RunProxyError::ServerName(error) => error.message(),
            RunProxyError::RootCaCert { .. } =>
                "failed to load root certificate authority certificate".to_owned(),
            RunProxyError::ProxyCert { .. } => "failed to load proxy certificate".to_owned(),
            RunProxyError::TrustAnchor(error) => error.message(),
            RunProxyError::PrivateKey { .. } => "failed to load proxy private key".to_owned(),
            RunProxyError::TlsConfig { .. } => "failed to create tls client config".to_owned(),
        }
    }
}

/// Plans how a proxy connects to its game server over TCP, given the name that the game server
/// must prove, what loading the files gave, and the authority that the root certificate names.
/// What is wrong first is reported: the name, the authority's certificate, the proxy's
/// certificate, the authority, the key.
pub fn tcp_proxy_plan<K>(
    server_name: Result<String, ServerNameError>,
    root_ca_cert: Result<Vec<u8>, String>,
    proxy_cert: Result<Vec<u8>, String>,
    anchor: Result<TrustAnchor, String>,
    private_key: Result<K, String>,
) -> (plan: Result<TcpProxyPlan<K>, RunProxyError>)
    ensures
        match (server_name, root_ca_cert, proxy_cert, anchor, private_key) {
            (Err(error), _, _, _, _) => plan == Err::<TcpProxyPlan<K>, _>(
                RunProxyError::ServerName(error),
            ),
            (Ok(_), Err(cause), _, _, _) => plan == Err::<TcpProxyPlan<K>, _>(
                RunProxyError::RootCaCert { cause },
            ),
            (Ok(_), Ok(_), Err(cause), _, _) => plan == Err::<TcpProxyPlan<K>, _>(
                RunProxyError::ProxyCert { cause },
            ),
            (Ok(_), Ok(_), Ok(_), Err(cause), _) => plan == Err::<TcpProxyPlan<K>, _>(
                RunProxyError::TrustAnchor(TrustAnchorError { cause }),
            ),
            (Ok(_), Ok(_), Ok(_), Ok(_), Err(cause)) => plan == Err::<TcpProxyPlan<K>, _>(
                RunProxyError::PrivateKey { cause },
            ),
            (Ok(name), Ok(root), Ok(cert), Ok(anchor), Ok(key)) => plan matches Ok(plan)
                && plan.server_name == name && plan.material.roots@ == seq![anchor]
                && plan.material.cert_chain@ == seq![cert, root] && plan.private_key == key,
        },
{
    let server_name: String = match server_name {
        Ok(name) => name,
        Err(error) => {
            return Err(RunProxyError::ServerName(error));
        },
    };
    let root_ca_cert: Vec<u8> = match root_ca_cert {
        Ok(certificate) => certificate,
        Err(cause) => {
            return Err(RunProxyError::RootCaCert { cause });
        },
    };
    let proxy_cert: Vec<u8> = match proxy_cert {
        Ok(certificate) => certificate,
        Err(cause) => {
            return Err(RunProxyError::ProxyCert { cause });
        },
    };
    let material: TlsMaterial = match material_with_anchor(anchor, root_ca_cert, proxy_cert) {
        Ok(material) => material,
        Err(error) => {
            return Err(RunProxyError::TrustAnchor(error));
        },
    };
    match private_key {
        Ok(private_key) => Ok(TcpProxyPlan { server_name, material, private_key }),
        Err(cause) => Err(RunProxyError::PrivateKey { cause }),
    }
}

/// Plans how a proxy connects to its game server over TCP. `server_name` is the address of the
/// game server with its port; the other arguments are what loading the files gave. What is
/// wrong first is reported: the name, the authority's certificate, the proxy's certificate, the
/// authority, the key.
pub fn run_proxy<K>(
    server_name: &str,
    root_ca_cert: Result<Vec<u8>, String>,
    proxy_cert: Result<Vec<u8>, String>,
    private_key: Result<K, String>,
) -> (plan: Result<TcpProxyPlan<K>, RunProxyError>)
    ensures
        match without_port(server_name@) {
            None => plan matches Err(RunProxyError::ServerName(ServerNameError::MissingPort)),
            Some(host) => match server_name_of(host) {
                None => plan matches Err(RunProxyError::ServerName(ServerNameError::Invalid)),
                Some(name) => match (root_ca_cert, proxy_cert) {
                    (Err(cause), _) => plan == Err::<TcpProxyPlan<K>, _>(
                        RunProxyError::RootCaCert { cause },
                    ),
                    (Ok(_), Err(cause)) => plan == Err::<TcpProxyPlan<K>, _>(
                        RunProxyError::ProxyCert { cause },
                    ),
                    (Ok(root), Ok(cert)) => match (anchor_of(root@), private_key) {
                        (Err(complaint), _) => plan matches Err(RunProxyError::TrustAnchor(error))
                            && error.cause@ == complaint,
                        (Ok(_), Err(cause)) => plan == Err::<TcpProxyPlan<K>, _>(
                            RunProxyError::PrivateKey { cause },
                        ),
                        (Ok(anchor), Ok(key)) => plan matches Ok(plan) && plan.server_name@ == name
                            && plan.material.roots@.len() == 1 && plan.material.roots@[0]@
                            == anchor && plan.material.cert_chain@ == seq![cert, root]
                            && plan.private_key == key,
                    },
                },
            },
        },
{
    let anchor: Result<TrustAnchor, String> = match &root_ca_cert {
        Ok(certificate) => anchor_from_trusted_cert(certificate.as_slice()),
        Err(_) => Err("there is no certificate".to_owned()),
    };
    let server_name: Result<String, ServerNameError> = tls_server_name(server_name);
    tcp_proxy_plan(server_name, root_ca_cert, proxy_cert, anchor, private_key)
}

/// What a proxy connects to its game server with over TCP. `C` is a configuration for TLS.
#[derive(Debug, PartialEq, Eq)]
pub struct TcpProxySetup<C> {
    /// The name that the game server must prove.
    pub server_name: String,
    /// The configuration for TLS.
    pub config: C,
}

/// Takes in what making the configuration for TLS out of a plan gave: the proxy can connect
/// exactly if there is one.
pub fn tcp_proxy_setup<C>(server_name: String, config: Result<C, String>) -> (setup: Result<
    TcpProxySetup<C>,
    RunProxyError,
>)
    ensures
        setup == match config {
            Ok(config) => Ok(TcpProxySetup { server_name, config }),
            Err(cause) => Err(RunProxyError::TlsConfig { cause }),
        },
{
    match config {
        Ok(config) => Ok(TcpProxySetup { server_name, config }),
        Err(cause) => Err(RunProxyError::TlsConfig { cause }),
    }
}

/// What a proxy needs to dial its game server over Iroh.
pub struct IrohProxyPlan {
    /// The proxy's own endpoint.
    pub endpoint: EndpointPlan,
    /// The address of the game server.
    pub server_addr: NodeAddr,
}

/// Plans how a proxy dials its game server over Iroh. A connection that names more relays than
/// an address can have is refused.
pub fn run_proxy_iroh(server: &IrohServerConnection) -> (plan: Result<
    IrohProxyPlan,
    TooManyRelayUrls,
>)
    ensures
        plan is Ok <==> server.relay_urls@.len() <= 1,
        plan matches Ok(plan) ==> {
            &&& plan.endpoint.alpns@ == Seq::<[u8; 16]>::empty()
            &&& plan.endpoint.secret_key == server.secret_key
            &&& plan.endpoint.bind == endpoint_bind(server.bind_addr)
            &&& plan.server_addr.node_id == server.server_id
            &&& match plan.server_addr.relay_url {
                Some(relay) => server.relay_urls@ == seq![relay],
                None => server.relay_urls@.len() == 0,
            }
            &&& address_views(plan.server_addr.direct_addresses@).no_duplicates()
            &&& address_views(plan.server_addr.direct_addresses@).to_set() == address_views(
                server.direct_addrs@,
            ).to_set()
        },
{
    match validate_iroh_server_connection(server) {
        Ok(()) => Ok(
            IrohProxyPlan { endpoint: proxy_endpoint_plan(server), server_addr: server.node_addr() },
        ),
        Err(error) => Err(error),
    }
}

/// A proxy can connect over TCP exactly if its game server has a name to prove, all three files
/// were loaded and the root certificate names an authority; it then proves with its own
/// certificate, and trusts that authority alone. If something is wrong, what comes first in this
/// order is reported.
pub proof fn a_proxy_connects_with_all_it_needs<K>(
    server_name: &str,
    host: Seq<char>,
    port: Seq<char>,
    root_ca_cert: Result<Vec<u8>, String>,
    proxy_cert: Result<Vec<u8>, String>,
    private_key: Result<K, String>,
    plan: Result<TcpProxyPlan<K>, RunProxyError>,
)
    requires
        server_name@ == host + seq![':'] + port,
        !port.contains(':'),
        call_ensures(run_proxy::<K>, (server_name, root_ca_cert, proxy_cert, private_key), plan),
    ensures
        plan is Ok <==> server_name_of(host) is Some && root_ca_cert is Ok && proxy_cert is Ok
            && anchor_of(root_ca_cert->Ok_0@) is Ok && private_key is Ok,
        plan matches Ok(plan) ==> {
            &&& Some(plan.server_name@) == server_name_of(host)
            &&& plan.material.roots@.len() == 1
            &&& plan.material.roots@[0]@ == anchor_of(root_ca_cert->Ok_0@)->Ok_0
            &&& plan.material.cert_chain@ == seq![proxy_cert->Ok_0, root_ca_cert->Ok_0]
            &&& plan.private_key == private_key->Ok_0
        },
        plan is Err ==> match plan->Err_0 {
            RunProxyError::ServerName(_) => server_name_of(host) is None,
            RunProxyError::RootCaCert { cause } => root_ca_cert == Err::<Vec<u8>, _>(cause),
            RunProxyError::ProxyCert { cause } => root_ca_cert is Ok && proxy_cert == Err::<
                Vec<u8>,
                _,
            >(cause),
            RunProxyError::TrustAnchor(error) => root_ca_cert is Ok && proxy_cert is Ok
                && anchor_of(root_ca_cert->Ok_0@) is Err && error.cause@ == anchor_of(
                root_ca_cert->Ok_0@,
            )->Err_0,
            RunProxyError::PrivateKey { cause } => root_ca_cert is Ok && proxy_cert is Ok
                && anchor_of(root_ca_cert->Ok_0@) is Ok && private_key == Err::<K, _>(cause),
            RunProxyError::TlsConfig { .. } => false,
        },
{
    port_comes_off(host, port);
}

/// A proxy dials its game server over Iroh exactly if at most one relay is named, and then that
/// one, the server's id, and every direct address.
pub proof fn a_proxy_dials_what_is_named(
    server: &IrohServerConnection,
    plan: Result<IrohProxyPlan, TooManyRelayUrls>,
    i: int,
)
    requires
        call_ensures(run_proxy_iroh, (server,), plan),
    ensures
        plan is Err <==> server.relay_urls@.len() >= 2,
        plan matches Ok(plan) ==> {
            &&& plan.server_addr.node_id == server.server_id
            &&& plan.server_addr.relay_url is Some <==> server.relay_urls@.len() == 1
            &&& server.relay_urls@.len() == 1 ==> plan.server_addr.relay_url
                == Some(server.relay_urls@[0])
            &&& plan.endpoint.secret_key == server.secret_key
            &&& plan.endpoint.alpns@.len() == 0
            &&& 0 <= i < server.direct_addrs@.len() ==> address_views(
                plan.server_addr.direct_addresses@,
            ).contains(server.direct_addrs@[i]@)
        },
{
    if let Ok(plan) = plan {
        if 0 <= i < server.direct_addrs@.len() {
            let given = address_views(server.direct_addrs@);
            assert(given[i] == server.direct_addrs@[i]@);
            assert(given.to_set().contains(given[i]));
            assert(address_views(plan.server_addr.direct_addresses@).to_set().contains(given[i]));
        }
    }
}

} // verus!
