//! A small multi-room chat registry: users register unique usernames, create
//! and join named rooms, and post timestamped messages. The in-memory store
//! (`server::Server`) owns all users and rooms, validates uniqueness and
//! membership, and every operation carries a full functional contract.

pub mod client;
pub mod clock;
pub mod flows;
pub mod handlers;
pub mod host;
pub mod ids;
pub mod laws;
pub mod message;
pub mod room;
pub mod server;
pub mod text;
pub mod urls;
pub mod user;
