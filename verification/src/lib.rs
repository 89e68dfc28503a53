//! Client-side runtime for a JSON-framed request/response channel.
//!
//! A native component exchanges JSON frames over one receive call. This
//! crate holds the rules that turn that single stream into per-call
//! answers: the correlator that matches a response to its pending call, the
//! routing step of the dispatch loop, and the authorization handshake.
//! Nothing here polls the native component or sends to it: every function
//! takes what the outside delivered and returns what is to be done next.

pub mod authorization;
pub mod client;
pub mod correlator;
pub mod dispatch;
pub mod errors;
pub mod frame;
pub mod handshake;
pub mod json;
pub mod laws;
pub mod text;
