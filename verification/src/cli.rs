//! What the command lines of the proxy and of the game server have in common.
use std::path::PathBuf;
use vstd::prelude::*;

use crate::text::join;

verus! {

/// `std::path::PathBuf`, the path of a file. It is carried through as it is.
#[verifier::external_type_specification]
#[verifier::external_body]
pub struct ExPathBuf(PathBuf);

/// `PathBuf::clone`: a copy is the same path.
pub assume_specification[ <PathBuf as Clone>::clone ](path: &PathBuf) -> (copy: PathBuf)
    ensures
        copy == *path,
;

/// What is wrong with a command line.
#[derive(Debug, PartialEq, Eq)]
pub enum CliError {
    /// A path that TCP needs is missing; this is its flag.
    MissingPath { flag: &'static str },
    /// The id of the game server, which Iroh needs, is missing.
    MissingServerId,
    /// The host of the game server cannot be looked up; `cause` says why not.
    LookupFailed { cause: String },
    /// The host of the game server has no address.
    Unresolved { server: String },
    /// The IP address and the port to listen at are no TCP address; `cause` says why not.
    InvalidTcpAddress { cause: String },
    /// The files that hold the material for TLS cannot be loaded; `cause` says why not.
    LoadFailed { cause: String },
}

impl CliError {
    /// What is wrong, in words.
    pub open spec fn explanation(self) -> Seq<char> {
        match self {
            CliError::MissingPath { flag } => "TCP transport requires --"@ + flag@,
            CliError::MissingServerId => "Iroh transport requires --iroh-server-id"@,
            CliError::LookupFailed { .. } => "failed to resolve TCP server host"@,
            CliError::Unresolved { server } => "Could not resolve hostname: "@ + server@,
            CliError::InvalidTcpAddress { .. } => "failed to parse TCP proxy address"@,
            CliError::LoadFailed { .. } => "failed to load TCP mTLS material"@,
        }
    }

    /// Says what is wrong.
    pub fn message(&self) -> (message: String)
        ensures
            message@ == self.explanation(),
    {
        match self {
            CliError::MissingPath { flag } => join("TCP transport requires --", flag),
            CliError::MissingServerId => "Iroh transport requires --iroh-server-id".to_owned(),
            CliError::LookupFailed { .. } => "failed to resolve TCP server host".to_owned(),
            CliError::Unresolved { server } => join(
                "Could not resolve hostname: ",
                server.as_str(),
            ),
            CliError::InvalidTcpAddress { .. } => "failed to parse TCP proxy address".to_owned(),
            CliError::LoadFailed { .. } => "failed to load TCP mTLS material".to_owned(),
        }
    }
}

/// The flag of the path to the authority's certificate.
pub const ROOT_CA_CERT_FLAG: &'static str = "root-ca-cert";

/// The flag of the path to one's own certificate.
pub const CERT_FLAG: &'static str = "cert";

/// The flag of the path to one's own private key.
pub const PRIVATE_KEY_FLAG: &'static str = "private-key";

/// What is wrong is said with the flag or the server that it is about, whatever it is.
pub proof fn explanations_name_what_is_wrong(flag: &'static str, server: String, cause: String)
    ensures
        (CliError::MissingPath { flag }).explanation() == "TCP transport requires --"@ + flag@,
        (CliError::Unresolved { server }).explanation() == "Could not resolve hostname: "@
            + server@,
        (CliError::LookupFailed { cause }).explanation() == "failed to resolve TCP server host"@,
        (CliError::InvalidTcpAddress { cause }).explanation()
            == "failed to parse TCP proxy address"@,
        (CliError::LoadFailed { cause }).explanation() == "failed to load TCP mTLS material"@,
{
}

} // verus!
