//! Session core of a desktop cast target for a Jellyfin media server.
//!
//! The crate holds the decision logic of the player: translating server
//! commands into player actions, multiplexing the player's IPC requests,
//! converting between the server's tick positions and the player's clock,
//! resolving per-series track preferences, and building the wire strings
//! (URLs, JSON command lines, WebSocket frames) that both sides expect.
//! The surrounding process — sockets, HTTP, the player child process —
//! lives outside and feeds plain values in.

pub mod backoff;
pub mod client_core;
pub mod config;
pub mod errors;
pub mod guards;
pub mod ipc_core;
pub mod prefs;
pub mod process;
pub mod protocol;
pub mod session_core;
pub mod text;
pub mod ticks;
pub mod tracks;
pub mod types;

pub use ticks::TICKS_PER_SECOND;
