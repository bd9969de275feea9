//! Lobby, matchmaking and relay logic of a real-time versus game server.

pub mod codec;
pub mod config;
pub mod connection;
pub mod effects;
pub mod game;
pub mod ids;
pub mod laws;
pub mod lists;
pub mod model;
pub mod payload;
pub mod room;
pub mod signaling;
pub mod wellformed;
