//! The proxy's view of a game server that it reaches over Iroh.
use vstd::prelude::*;

use crate::address::{address_views, PublicKey, RelayUrl, SecretKey, SocketAddress};

verus! {

/// How many relays an address of a game server can have.
pub const MAX_SUPPORTED_IROH_RELAY_URLS: usize = 1;

/// How to reach a game server, and how to present oneself to it.
pub struct IrohServerConnection {
    /// The id of the game server.
    pub server_id: PublicKey,
    /// Addresses at which the game server may be reached directly.
    pub direct_addrs: Vec<SocketAddress>,
    /// Relays through which the game server may be reached.
    pub relay_urls: Vec<RelayUrl>,
    /// The proxy's own key; a fresh one is made if there is none.
    pub secret_key: Option<SecretKey>,
    /// The proxy's own address.
    pub bind_addr: Option<SocketAddress>,
}

impl Clone for IrohServerConnection {
    fn clone(&self) -> (copy: Self)
        ensures
            copy.server_id == self.server_id,
            copy.direct_addrs@ == self.direct_addrs@,
            copy.relay_urls@ == self.relay_urls@,
            copy.secret_key == self.secret_key,
            copy.bind_addr == self.bind_addr,
    {
        let direct_addrs: Vec<SocketAddress> = self.direct_addrs.clone();
        let relay_urls: Vec<RelayUrl> = self.relay_urls.clone();
        assert(direct_addrs@ =~= self.direct_addrs@);
        assert(relay_urls@ =~= self.relay_urls@);
        IrohServerConnection {
            server_id: self.server_id,
            direct_addrs,
            relay_urls,
            secret_key: self.secret_key,
            bind_addr: self.bind_addr.clone(),
        }
    }
}

/// What it takes to dial an Iroh endpoint.
#[derive(Debug, PartialEq, Eq)]
pub struct NodeAddr {
    pub node_id: PublicKey,
    pub relay_url: Option<RelayUrl>,
    /// A set: no address occurs twice, and the order means nothing.
    pub direct_addresses: Vec<SocketAddress>,
}

/// The connection names more relays than an address can have.
#[derive(Clone, Copy, Debug, PartialEq, Eq, Structural)]
pub struct TooManyRelayUrls;

impl TooManyRelayUrls {
    /// What went wrong, in words.
    pub fn message(&self) -> (message: String)
        ensures
            message@ == "Iroh 0.35 supports at most one relay URL per server address"@,
    {
        "Iroh 0.35 supports at most one relay URL per server address".to_owned()
    }
}

impl IrohServerConnection {
    /// The address to dial: the server's id, the first relay if there is one, and the set of
    /// the direct addresses.
    pub fn node_addr(&self) -> (addr: NodeAddr)
        ensures
            addr.node_id == self.server_id,
            match addr.relay_url {
                Some(relay) => self.relay_urls@.len() > 0 && relay == self.relay_urls@[0],
                None => self.relay_urls@.len() == 0,
            },
            address_views(addr.direct_addresses@).no_duplicates(),
            address_views(addr.direct_addresses@).to_set() == address_views(
                self.direct_addrs@,
            ).to_set(),
    {
        let relay_url: Option<RelayUrl> = if self.relay_urls.len() > 0 {
            Some(self.relay_urls[0].clone())
        } else {
            None
        };
        NodeAddr {
            node_id: self.server_id,
            relay_url,
            direct_addresses: without_repetitions(&self.direct_addrs),
        }
    }
}

/// Whether an address occurs in a list.
fn contains_address(addresses: &Vec<SocketAddress>, wanted: &SocketAddress) -> (found: bool)
    ensures
        found == address_views(addresses@).contains(wanted@),
{
    let mut i: usize = 0;
    while i < addresses.len()
        invariant
            i <= addresses.len(),
            forall|j: int| 0 <= j < i ==> address_views(addresses@)[j] != wanted@,
        decreases addresses.len() - i,
    {
        if addresses[i].same(wanted) {
            assert(address_views(addresses@)[i as int] == wanted@);
            return true;
        }
        i = i + 1;
    }
    false
}

/// The addresses of a list, each once.
fn without_repetitions(addresses: &Vec<SocketAddress>) -> (distinct: Vec<SocketAddress>)
    ensures
        address_views(distinct@).no_duplicates(),
        address_views(distinct@).to_set() == address_views(addresses@).to_set(),
{
    let mut distinct: Vec<SocketAddress> = Vec::new();
    let mut i: usize = 0;
    assert(address_views(distinct@).to_set() =~= address_views(addresses@).take(0).to_set());
    while i < addresses.len()
        invariant
            i <= addresses.len(),
            address_views(distinct@).no_duplicates(),
            address_views(distinct@).to_set() == address_views(addresses@).take(
                i as int,
            ).to_set(),
        decreases addresses.len() - i,
    {
        let ghost before = address_views(distinct@);
        let ghost seen = address_views(addresses@).take(i as int);
        let ghost next = addresses@[i as int]@;
        let repeated: bool = contains_address(&distinct, &addresses[i]);
        proof {
            assert(address_views(addresses@).take(i + 1) =~= seen.push(next));
            assert(seen.push(next).to_set() =~= seen.to_set().insert(next)) by {
                broadcast use vstd::seq_lib::group_seq_properties;

            }
            if repeated {
                assert(before.to_set().contains(next));
                assert(seen.to_set().insert(next) =~= seen.to_set());
            } else {
                assert(before.push(next).to_set() =~= before.to_set().insert(next)) by {
                    broadcast use vstd::seq_lib::group_seq_properties;

                }
            }
        }
        if !repeated {
            distinct.push(addresses[i].clone());
            assert(address_views(distinct@) =~= before.push(next));
        }
        i = i + 1;
    }
    assert(address_views(addresses@).take(i as int) =~= address_views(addresses@));
    distinct
}

/// Checks that a connection can be expressed as an address: it names one relay at most.
pub fn validate_iroh_server_connection(server: &IrohServerConnection) -> (valid: Result<
    (),
    TooManyRelayUrls,
>)
    ensures
        valid is Ok <==> server.relay_urls@.len() <= MAX_SUPPORTED_IROH_RELAY_URLS,
{
    if server.relay_urls.len() <= MAX_SUPPORTED_IROH_RELAY_URLS {
        Ok(())
    } else {
        Err(TooManyRelayUrls)
    }
}

/// The address to dial has the server's id and its first relay, and every direct address once:
/// neither the order in which they are given nor repetitions matter.
pub proof fn direct_addresses_are_a_set(
    first: &IrohServerConnection,
    second: &IrohServerConnection,
    first_addr: NodeAddr,
    second_addr: NodeAddr,
    address: SocketAddress,
)
    requires
        call_ensures(IrohServerConnection::node_addr, (first,), first_addr),
        call_ensures(IrohServerConnection::node_addr, (second,), second_addr),
        address_views(first.direct_addrs@).to_set() == address_views(second.direct_addrs@).to_set(),
    ensures
        address_views(first_addr.direct_addresses@).to_set() == address_views(
            second_addr.direct_addresses@,
        ).to_set(),
        first_addr.direct_addresses@.len() == second_addr.direct_addresses@.len(),
        first.direct_addrs@.contains(address) ==> address_views(
            first_addr.direct_addresses@,
        ).contains(address@),
        first_addr.node_id == first.server_id,
        first_addr.relay_url is Some <==> first.relay_urls@.len() > 0,
        first_addr.relay_url is Some ==> first_addr.relay_url->0 == first.relay_urls@[0],
{
    let views = address_views(first_addr.direct_addresses@);
    let others = address_views(second_addr.direct_addresses@);
    views.unique_seq_to_set();
    others.unique_seq_to_set();
    if first.direct_addrs@.contains(address) {
        let given = address_views(first.direct_addrs@);
        let i = choose|i: int|
            0 <= i < first.direct_addrs@.len() && first.direct_addrs@[i] == address;
        assert(given[i] == address@);
        assert(given.to_set().contains(address@));
        assert(views.to_set().contains(address@));
    }
}

/// A server is refused exactly if it names two relays or more.
pub proof fn two_relays_are_refused(
    server: &IrohServerConnection,
    valid: Result<(), TooManyRelayUrls>,
)
    requires
        call_ensures(validate_iroh_server_connection, (server,), valid),
    ensures
        valid is Err <==> server.relay_urls@.len() >= 2,
{
}

} // verus!
