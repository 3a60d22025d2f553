//! A line-oriented chat relay: the username handshake, fan-out of chat
//! messages between sessions, and the terminal client's protocol state
//! machine.
//!
//! - `config`: the validation bounds for usernames and messages.
//! - `json`, `protocol`: the wire envelopes and their JSON line encoding.
//! - `router`: the registry of session mailboxes, with broadcast and
//!   targeted delivery.
//! - `server`: one connection's handshake and chat loop, as actions for its
//!   driver to carry out.
//! - `client`, `message`: the terminal client's state and message log.

pub mod client;
pub mod config;
pub mod error;
pub mod json;
pub mod message;
pub mod protocol;
pub mod router;
pub mod server;
pub mod text;
