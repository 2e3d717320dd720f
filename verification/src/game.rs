//! Setting a Bedwars game up.
use vstd::prelude::*;

use crate::address::SocketAddress;
use crate::proxy_bind::ProxyBind;
use crate::team::Team;

verus! {

/// The plugin that makes a game Bedwars.
#[derive(Clone, Copy, Debug)]
pub struct BedwarsPlugin;

impl BedwarsPlugin {
    /// The team that a player starts in.
    pub fn initial_team(&self) -> (team: Team)
        ensures
            team is Red,
    {
        Team::Red
    }
}

/// What a game is made of. `C` is the material for TLS.
pub struct GamePlan<C> {
    /// How the game takes proxies in.
    pub proxy_bind: ProxyBind,
    /// The material for TLS, if there is any.
    pub crypto: Option<C>,
    /// The address that players are told the game server is at, if there is one to tell.
    pub announced_server: Option<String>,
}

/// Plans a game. Over TCP its address is announced; over Iroh there is none to announce.
pub fn build_game_app_with_proxy<C>(proxy_bind: ProxyBind, crypto: Option<C>) -> (plan: GamePlan<C>)
    ensures
        plan.proxy_bind == proxy_bind,
        plan.crypto == crypto,
        match proxy_bind {
            ProxyBind::Tcp(address) => plan.announced_server matches Some(server) && server@
                == address.text(),
            ProxyBind::Iroh(_) => plan.announced_server is None,
        },
{
    let announced_server: Option<String> = match &proxy_bind {
        ProxyBind::Tcp(address) => Some(address.to_text()),
        ProxyBind::Iroh(_) => None,
    };
    GamePlan { proxy_bind, crypto, announced_server }
}

/// Plans a game that takes proxies in over TCP.
pub fn init_game<C>(address: SocketAddress, crypto: C) -> (plan: GamePlan<C>)
    ensures
        plan.proxy_bind == ProxyBind::Tcp(address),
        plan.crypto == Some(crypto),
        plan.announced_server matches Some(server) && server@ == address.text(),
{
    build_game_app_with_proxy(ProxyBind::Tcp(address), Some(crypto))
}

/// A game keeps the bind and the material that it is given, and its address is announced exactly
/// if it takes proxies in over TCP.
pub proof fn tcp_addresses_are_announced<C>(
    proxy_bind: ProxyBind,
    crypto: Option<C>,
    plan: GamePlan<C>,
)
    requires
        call_ensures(build_game_app_with_proxy::<C>, (proxy_bind, crypto), plan),
    ensures
        plan.proxy_bind == proxy_bind,
        plan.crypto == crypto,
        plan.announced_server is Some <==> proxy_bind is Tcp,
        plan.announced_server matches Some(server) ==> server@ == proxy_bind->Tcp_0.text(),
{
}

} // verus!
