//! Core of a quote-of-the-day network responder.
//!
//! On each inbound connection the server emits either a fixed configured
//! message or the captured standard output of a configured executable, then
//! closes the connection; nothing is ever read from the client.  This crate
//! holds the verified decision logic of that service: the resolved
//! configuration and its defaults, the choice and exact content of each
//! connection's response, the error taxonomy with its fatal/per-connection
//! split, the dispatcher's reaction to accept events, and the bookkeeping
//! that completes partial writes.  The surrounding process — sockets,
//! subprocess spawning, configuration-file reading — lives outside and
//! consumes these decisions.

pub mod config;
pub mod response;
pub mod server;
