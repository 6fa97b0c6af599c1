//! Transport between a core server and its periphery agents: message framing,
//! the Noise login handshake, connection bookkeeping, requests and terminal
//! forwarding.
//!
//! Nothing here opens a socket or sleeps. What alternates with the outside is a
//! function from a state and an event to the next state and an action.

pub mod text;
pub mod text_map;
pub mod encoding;
pub mod ids;

pub mod bytes;
pub mod message;
pub mod channel;
pub mod websocket;

pub mod noise;
pub mod identifiers;
pub mod auth;
pub mod raw_auth;
pub mod keys;

pub mod address;
pub mod connections;
pub mod manage;
pub mod handlers;
pub mod reconnect;
pub mod session;
pub mod websocket_handler;

pub mod request;
pub mod dispatch;
pub mod terminal;
pub mod forwarding;
pub mod exchange;
pub mod user;

pub mod compose;
pub mod ip_guard;
pub mod startup;
