//! Where the proxy accepts its players from.
use vstd::prelude::*;

verus! {

/// A source of player connections that the proxy can accept from: what it hands out
/// can be moved to another task, and its addresses can be printed.
pub trait HyperionListener: 'static {
    /// The stream of bytes to and from one player.
    type Io: Send;

    /// The address of one player.
    type Addr: core::fmt::Debug;
}

} // verus!
