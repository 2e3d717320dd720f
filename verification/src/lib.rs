//! The decisions of the Hyperion proxy, of the side of a game server that faces proxies, and of
//! the Bedwars game: what is read, what is refused, and what is done next. Sockets, files,
//! clocks and the game world itself are left to the programs that use this library.
pub mod address;
pub mod bedwars_cli;
pub mod cli;
pub mod frame;
pub mod game;
pub mod json;
pub mod listener;
pub mod player_uuid;
pub mod process;
pub mod profile;
pub mod proxy_bind;
pub mod proxy_cli;
pub mod proxy_loop;
pub mod proxy_start;
pub mod registration;
pub mod server_connection;
pub mod session;
mod streams;
pub mod team;
pub mod text;
pub mod tls;
pub mod world;
