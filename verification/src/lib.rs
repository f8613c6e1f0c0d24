//! The core of Exosphere, a multiplayer space strategy game: identifiers,
//! piece tables and fabber levels, the byte protocol, websocket framing and
//! the HTTP upgrade handshake, the strategy paths that pieces follow, and the
//! rules the server and the client apply to the game.

pub mod ids;
pub mod fab;
pub mod types;
pub mod comms;
pub mod game;
pub mod protocol;
pub mod numbers;
pub mod ring;
pub mod text;
pub mod handshake;
pub mod websocket;
pub mod connection;
pub mod pathfollower;
pub mod server_path;
pub mod handlers;
pub mod client;
