//! What the server does with what arrives on the data channels of a player.
//!
//! - [`common`]: what is sent in consequence, relayed match frames, lost connections
//! - [`frame`]: what a binary frame asks for
//! - [`reliable`]: what a request of the JSON layer does
//! - [`replies`]: the laws of requests and answers

pub mod common;
pub mod frame;
pub mod reliable;
pub mod replies;
