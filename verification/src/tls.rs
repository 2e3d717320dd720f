//! What proxy and game server need to trust each other over TCP: the name that the game
//! server must prove, the authority that both trust, and the certificates to present.
use vstd::prelude::*;

use crate::text::{find_last, last_index, last_index_is_last};

verus! {

/// The address of a server without its port: what stands before the last colon.
pub open spec fn without_port(address: Seq<char>) -> Option<Seq<char>> {
    match last_index(address, ':') {
        Some(at) => Some(address.take(at)),
        None => None,
    }
}

/// The text of the server name that `rustls_pki_types` reads from a text, or `None` if the text
/// is no server name.
pub uninterp spec fn server_name_of(text: Seq<char>) -> Option<Seq<char>>;

/// `rustls_pki_types::InvalidDnsNameError`, the error of a text that is no server name.
#[verifier::external_type_specification]
#[verifier::external_body]
pub struct ExInvalidDnsNameError(rustls_pki_types::InvalidDnsNameError);

/// `ServerName::try_from`, and `ServerName::to_str` on what it gives: whether a text is a
/// server name, and how that name is written, depends on the text alone.
#[verifier::external_body]
fn parse_server_name(text: &str) -> (parsed: Result<String, rustls_pki_types::InvalidDnsNameError>)
    ensures
        match parsed {
            Ok(name) => server_name_of(text@) == Some(name@),
            Err(_) => server_name_of(text@) is None,
        },
{
    match rustls_pki_types::ServerName::try_from(text) {
        Ok(name) => Ok(name.to_str().into_owned()),
        Err(error) => Err(error),
    }
}

/// What is wrong with the address of a game server.
#[derive(Clone, Copy, Debug, PartialEq, Eq, Structural)]
pub enum ServerNameError {
    /// It has no port.
    MissingPort,
    /// What stands before the port is no server name.
    Invalid,
}

impl ServerNameError {
    /// What is wrong, in words.
    pub fn message(&self) -> (message: String)
        ensures
            message@ == match *self {
                ServerNameError::MissingPort => "server name is missing port"@,
                ServerNameError::Invalid => "failed to parse server name"@,
            },
    {
        match self {
            ServerNameError::MissingPort => "server name is missing port".to_owned(),
            ServerNameError::Invalid => "failed to parse server name".to_owned(),
        }
    }
}

/// Takes the port off the address of a server.
pub fn strip_port(address: &str) -> (host: Option<String>)
    ensures
        match host {
            Some(host) => without_port(address@) == Some(host@),
            None => without_port(address@) is None,
        },
{
    match find_last(address, ':') {
        Some(at) => {
            proof {
                last_index_is_last(address@, ':');
            }
            Some(address.substring_char(0, at).to_owned())
        },
        None => None,
    }
}

/// Takes the name that a game server must prove from what reading its address gave: `None` if
/// the address has no port, `Some(None)` if what stands before the port is no server name.
pub fn server_name_from(read: Option<Option<String>>) -> (name: Result<String, ServerNameError>)
    ensures
        name == match read {
            None => Err(ServerNameError::MissingPort),
            Some(None) => Err(ServerNameError::Invalid),
            Some(Some(name)) => Ok(name),
        },
{
    match read {
        None => Err(ServerNameError::MissingPort),
        Some(None) => Err(ServerNameError::Invalid),
        Some(Some(name)) => Ok(name),
    }
}

/// Reads the name that a game server must prove from the server's address.
pub fn tls_server_name(address: &str) -> (name: Result<String, ServerNameError>)
    ensures
        match without_port(address@) {
            None => name matches Err(ServerNameError::MissingPort),
            Some(host) => match server_name_of(host) {
                Some(text) => name matches Ok(name) && name@ == text,
                None => name matches Err(ServerNameError::Invalid),
            },
        },
{
    let read: Option<Option<String>> = match strip_port(address) {
        None => None,
        Some(host) => match parse_server_name(host.as_str()) {
            Ok(name) => Some(Some(name)),
            Err(_) => Some(None),
        },
    };
    server_name_from(read)
}

/// Taking the port off gives the host back, whatever the host is, as long as the port holds
/// no colon.
pub proof fn port_comes_off(host: Seq<char>, port: Seq<char>)
    requires
        !port.contains(':'),
    ensures
        without_port(host + seq![':'] + port) == Some(host),
{
    let address = host + seq![':'] + port;
    last_index_is_last(address, ':');
    assert(address[host.len() as int] == ':');
    assert(address.contains(':'));
    let at = last_index(address, ':')->0;
    assert(at == host.len()) by {
        if at > host.len() {
            assert(port[at - host.len() - 1] == ':');
        }
    }
    assert(address.take(at) =~= host);
}

/// An authority that certificates can be traced back to.
#[derive(Debug, PartialEq, Eq)]
pub struct TrustAnchor {
    /// The name of the authority, in DER.
    pub subject: Vec<u8>,
    /// The public key of the authority, in DER.
    pub subject_public_key_info: Vec<u8>,
    /// The names that the authority may vouch for, in DER, if they are limited.
    pub name_constraints: Option<Vec<u8>>,
}

/// What makes a trust anchor: its name, its key, and the names it may vouch for.
pub type TrustAnchorView = (Seq<u8>, Seq<u8>, Option<Seq<u8>>);

impl View for TrustAnchor {
    type V = TrustAnchorView;

    open spec fn view(&self) -> TrustAnchorView {
        (
            self.subject@,
            self.subject_public_key_info@,
            match self.name_constraints {
                Some(constraints) => Some(constraints@),
                None => None,
            },
        )
    }
}

/// The trust anchor that `webpki` reads from a certificate in DER, or its complaint about it.
pub uninterp spec fn anchor_of(certificate: Seq<u8>) -> Result<
    (Seq<u8>, Seq<u8>, Option<Seq<u8>>),
    Seq<char>,
>;

/// `webpki::anchor_from_trusted_cert`: whether bytes are a certificate, and which authority
/// it names, depends on the bytes alone. Of an error the message is kept.
#[verifier::external_body]
pub(crate) fn anchor_from_trusted_cert(certificate: &[u8]) -> (anchor: Result<TrustAnchor, String>)
    ensures
        match anchor {
            Ok(anchor) => anchor_of(certificate@) == Ok::<_, Seq<char>>(anchor@),
            Err(complaint) => anchor_of(certificate@) == Err::<TrustAnchorView, _>(complaint@),
        },
{
    match webpki::anchor_from_trusted_cert(&rustls_pki_types::CertificateDer::from(certificate)) {
        Ok(anchor) => Ok(
            TrustAnchor {
                subject: anchor.subject.to_vec(),
                subject_public_key_info: anchor.subject_public_key_info.to_vec(),
                name_constraints: anchor.name_constraints.map(|names| names.to_vec()),
            },
        ),
        Err(error) => Err(error.to_string()),
    }
}

/// What one side of a mutual TLS connection trusts and presents.
#[derive(Debug, PartialEq, Eq)]
pub struct TlsMaterial {
    /// The authorities to trust.
    pub roots: Vec<TrustAnchor>,
    /// The certificates to present, one's own first, each followed by its issuer's.
    pub cert_chain: Vec<Vec<u8>>,
}

/// The certificate of the authority cannot be trusted; `cause` says why not.
#[derive(Debug, PartialEq, Eq)]
pub struct TrustAnchorError {
    pub cause: String,
}

impl TrustAnchorError {
    /// What is wrong, in words.
    pub fn message(&self) -> (message: String)
        ensures
            message@ == "failed to create trust anchor"@,
    {
        "failed to create trust anchor".to_owned()
    }
}

/// Puts together what to trust and what to present, where `anchor` is the authority that the
/// root certificate names: trusted is that one authority, and presented is one's own
/// certificate and then the authority's.
pub fn material_with_anchor(
    anchor: Result<TrustAnchor, String>,
    root_ca_cert: Vec<u8>,
    cert: Vec<u8>,
) -> (material: Result<TlsMaterial, TrustAnchorError>)
    ensures
        match anchor {
            Ok(anchor) => material matches Ok(material) && material.roots@ == seq![anchor]
                && material.cert_chain@ == seq![cert, root_ca_cert],
            Err(cause) => material == Err::<TlsMaterial, _>(TrustAnchorError { cause }),
        },
{
    match anchor {
        Ok(anchor) => {
            let mut roots: Vec<TrustAnchor> = Vec::new();
            roots.push(anchor);
            let mut cert_chain: Vec<Vec<u8>> = Vec::new();
            cert_chain.push(cert);
            cert_chain.push(root_ca_cert);
            Ok(TlsMaterial { roots, cert_chain })
        },
        Err(cause) => Err(TrustAnchorError { cause }),
    }
}

/// Reads the authority from the root certificate and puts together what to trust and what to
/// present.
pub fn tls_material(root_ca_cert: Vec<u8>, cert: Vec<u8>) -> (material: Result<
    TlsMaterial,
    TrustAnchorError,
>)
    ensures
        match anchor_of(root_ca_cert@) {
            Ok(anchor) => material matches Ok(material) && material.roots@.len() == 1
                && material.roots@[0]@ == anchor && material.cert_chain@ == seq![
                cert,
                root_ca_cert,
            ],
            Err(complaint) => material matches Err(error) && error.cause@ == complaint,
        },
{
    let anchor: Result<TrustAnchor, String> = anchor_from_trusted_cert(root_ca_cert.as_slice());
    material_with_anchor(anchor, root_ca_cert, cert)
}

/// An address without a colon has no port to take off; from any other the shortest end that
/// begins with a colon comes off, and what is left is the beginning of the address.
pub proof fn only_the_last_colon_counts(address: Seq<char>)
    ensures
        without_port(address) is None <==> !address.contains(':'),
        without_port(address) matches Some(host) ==> {
            &&& host.len() < address.len()
            &&& host == address.take(host.len() as int)
            &&& address[host.len() as int] == ':'
            &&& !address.skip(host.len() as int + 1).contains(':')
        },
{
    last_index_is_last(address, ':');
    if let Some(at) = last_index(address, ':') {
        assert(address[at] == ':');
        let rest = address.skip(at + 1);
        if rest.contains(':') {
            let j = choose|j: int| 0 <= j < rest.len() && rest[j] == ':';
            assert(address[at + 1 + j] == ':');
        }
    }
}

/// Two anchors count as the same exactly if they have the same name, the same key and the same
/// limits on names.
pub proof fn anchors_are_the_same_in_every_part(first: TrustAnchor, second: TrustAnchor)
    ensures
        first@ == second@ ==> {
            &&& first.subject@ == second.subject@
            &&& first.subject_public_key_info@ == second.subject_public_key_info@
            &&& first.name_constraints is Some <==> second.name_constraints is Some
            &&& first.name_constraints is Some ==> first.name_constraints->0@
                == second.name_constraints->0@
        },
{
}

/// The name that a server must prove does not depend on its port: two addresses of one host give
/// the same name, which is the one that the host stands for, or both give none.
pub proof fn the_name_does_not_depend_on_the_port(
    first: &str,
    second: &str,
    host: Seq<char>,
    first_port: Seq<char>,
    second_port: Seq<char>,
    first_name: Result<String, ServerNameError>,
    second_name: Result<String, ServerNameError>,
)
    requires
        first@ == host + seq![':'] + first_port,
        second@ == host + seq![':'] + second_port,
        !first_port.contains(':'),
        !second_port.contains(':'),
        call_ensures(tls_server_name, (first,), first_name),
        call_ensures(tls_server_name, (second,), second_name),
    ensures
        first_name is Ok <==> server_name_of(host) is Some,
        second_name is Ok <==> first_name is Ok,
        first_name is Ok ==> Some(first_name->Ok_0@) == server_name_of(host) && first_name->Ok_0@
            == second_name->Ok_0@,
        first_name is Err ==> first_name->Err_0 is Invalid && second_name->Err_0 is Invalid,
{
    port_comes_off(host, first_port);
    port_comes_off(host, second_port);
}

/// One authority is trusted, the one that the root certificate names, and two certificates are
/// presented, one's own before the root's, exactly if the root names an authority.
pub proof fn the_root_is_trusted_and_presented_last(
    root_ca_cert: Vec<u8>,
    cert: Vec<u8>,
    material: Result<TlsMaterial, TrustAnchorError>,
)
    requires
        call_ensures(tls_material, (root_ca_cert, cert), material),
    ensures
        material is Ok <==> anchor_of(root_ca_cert@) is Ok,
        material matches Ok(material) ==> {
            &&& material.roots@.len() == 1
            &&& material.roots@[0]@ == anchor_of(root_ca_cert@)->Ok_0
            &&& material.cert_chain@.len() == 2
            &&& material.cert_chain@[0] == cert
            &&& material.cert_chain@[1] == root_ca_cert
        },
        material matches Err(error) ==> error.cause@ == anchor_of(root_ca_cert@)->Err_0,
{
}

} // verus!
