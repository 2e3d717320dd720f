//! Addresses and keys of peers.
use vstd::prelude::*;

use crate::text::{
    decimal, decimal_digits_have_their_places, decimal_text, decimals_are_told_apart, hex, hex_text,
    last_index, last_index_is_last,
};

verus! {

/// The kind of an IP address.
#[derive(Clone, Copy, Debug, PartialEq, Eq, Structural)]
pub enum AddressFamily {
    V4,
    /// `flow_info` is the flow label and the traffic class of an address of the sixth version.
    V6 { flow_info: u32 },
}

/// An IP address and a port.
#[derive(Debug, PartialEq, Eq)]
pub struct SocketAddress {
    pub family: AddressFamily,
    /// The IP address as text in its usual form, for example `127.0.0.1` or `::1`, together with the zone of
    /// an address that has one, for example `fe80::1%2`.
    pub host: String,
    pub port: u16,
}

/// What makes a socket address: its family, its host and its port.
pub type SocketAddressView = (AddressFamily, Seq<char>, u16);

impl View for SocketAddress {
    type V = SocketAddressView;

    open spec fn view(&self) -> SocketAddressView {
        (self.family, self.host@, self.port)
    }
}

/// The views of a list of addresses.
pub open spec fn address_views(addresses: Seq<SocketAddress>) -> Seq<SocketAddressView> {
    addresses.map_values(|address: SocketAddress| address@)
}

impl SocketAddress {
    /// Compares two addresses.
    pub fn same(&self, other: &SocketAddress) -> (same: bool)
        ensures
            same == (self@ == other@),
    {
        self.family == other.family && self.port == other.port && self.host == other.host
    }

    /// The address as text: `host:port`, with brackets round the host of the sixth version. The
    /// flow information is not written.
    pub open spec fn text(self) -> Seq<char> {
        match self.family {
            AddressFamily::V4 => self.host@ + ":"@ + decimal(self.port as nat),
            AddressFamily::V6 { .. } => "["@ + self.host@ + "]:"@ + decimal(self.port as nat),
        }
    }

    /// Writes the address as text.
    pub fn to_text(&self) -> (text: String)
        ensures
            text@ == self.text(),
    {
        let mut text: String = String::new();
        match self.family {
            AddressFamily::V4 => {
                text.append(self.host.as_str());
                text.append(":");
            },
            AddressFamily::V6 { .. } => {
                text.append("[");
                text.append(self.host.as_str());
                text.append("]:");
            },
        }
        let port: String = decimal_text(self.port as u64);
        text.append(port.as_str());
        assert(text@ =~= self.text());
        text
    }
}

impl Clone for SocketAddress {
    fn clone(&self) -> (copy: Self)
        ensures
            copy == *self,
    {
        SocketAddress { family: self.family, host: self.host.clone(), port: self.port }
    }
}

/// The public key of an Iroh endpoint, which is also the id of the endpoint.
#[derive(Clone, Copy, Debug, PartialEq, Eq)]
pub struct PublicKey {
    pub bytes: [u8; 32],
}

impl PublicKey {
    /// Compares two keys.
    pub fn same(&self, other: &PublicKey) -> (same: bool)
        ensures
            same == (*self == *other),
    {
        let mut i: usize = 0;
        while i < 32
            invariant
                i <= 32,
                forall|j: int| 0 <= j < i ==> self.bytes@[j] == other.bytes@[j],
            decreases 32 - i,
        {
            if self.bytes[i] != other.bytes[i] {
                return false;
            }
            i = i + 1;
        }
        assert(self.bytes =~= other.bytes);
        true
    }

    /// Writes the key in hexadecimal.
    pub fn to_text(&self) -> (text: String)
        ensures
            text@ == hex(self.bytes@),
    {
        hex_text(self.bytes.as_slice())
    }
}

/// The secret key of an Iroh endpoint.
#[derive(Clone, Copy, PartialEq, Eq)]
pub struct SecretKey {
    pub bytes: [u8; 32],
}

/// The address of an Iroh relay.
#[derive(Debug, PartialEq, Eq)]
pub struct RelayUrl {
    pub text: String,
}

impl Clone for RelayUrl {
    fn clone(&self) -> (copy: Self)
        ensures
            copy == *self,
    {
        RelayUrl { text: self.text.clone() }
    }
}

/// Two addresses count as the same exactly if they have the same version, with the same flow
/// information, the same host and the same port.
pub proof fn the_same_in_every_part(first: SocketAddress, second: SocketAddress)
    ensures
        first@ == second@ <==> first.family == second.family && first.host@ == second.host@
            && first.port == second.port,
{
}

/// A list of addresses is seen as the list of the views of its addresses, in their order.
pub proof fn addresses_are_seen_one_by_one(addresses: Seq<SocketAddress>, i: int)
    requires
        0 <= i < addresses.len(),
    ensures
        address_views(addresses).len() == addresses.len(),
        address_views(addresses)[i] == addresses[i]@,
{
}

/// The text of an address is its host, in brackets for the sixth version, a colon, and its port
/// in decimal: what stands behind the last colon is the port.
pub proof fn address_text_ends_with_the_port(address: SocketAddress)
    ensures
        ({
            let port = decimal(address.port as nat);
            let host = if address.family is V4 {
                address.host@
            } else {
                seq!['['] + address.host@ + seq![']']
            };
            &&& address.text() == host + seq![':'] + port
            &&& last_index(address.text(), ':') == Some(host.len() as int)
        }),
{
    reveal_strlit(":");
    reveal_strlit("[");
    reveal_strlit("]:");
    let port = decimal(address.port as nat);
    let host = if address.family is V4 {
        address.host@
    } else {
        seq!['['] + address.host@ + seq![']']
    };
    let text = address.text();
    assert(text =~= host + seq![':'] + port);
    last_index_is_last(text, ':');
    assert(text[host.len() as int] == ':');
    assert(text.contains(':'));
    let at = last_index(text, ':')->0;
    if at > host.len() {
        let place = (text.len() - 1 - at) as nat;
        decimal_digits_have_their_places(address.port as nat, place);
        assert(text[at] == port[port.len() - 1 - place]);
    }
}

/// Two addresses of one version with the same text have the same host and the same port.
pub proof fn address_texts_are_told_apart(first: SocketAddress, second: SocketAddress)
    requires
        first.text() == second.text(),
        first.family is V4 <==> second.family is V4,
    ensures
        first.host@ == second.host@,
        first.port == second.port,
{
    address_text_ends_with_the_port(first);
    address_text_ends_with_the_port(second);
    let at = last_index(first.text(), ':')->0;
    assert(first.text().skip(at + 1) =~= decimal(first.port as nat));
    assert(second.text().skip(at + 1) =~= decimal(second.port as nat));
    decimals_are_told_apart(first.port as nat, second.port as nat);
    if first.family is V4 {
        assert(first.text().take(at) =~= first.host@);
        assert(second.text().take(at) =~= second.host@);
    } else {
        assert(first.text().subrange(1, at - 1) =~= first.host@);
        assert(second.text().subrange(1, at - 1) =~= second.host@);
    }
}

} // verus!
