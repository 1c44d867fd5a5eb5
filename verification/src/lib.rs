//! A command tree and the rules of its execution engine: how a path names a
//! command, how submitted arguments are checked against a command's declared
//! parameters, how a finished run is reported, and what the transport layer
//! answers for each outcome.

pub mod audit;
pub mod auth;
pub mod config;
pub mod engine;
pub mod errors;
pub mod execution;
pub mod loader;
pub mod pages;
pub mod resolve;
pub mod response;
pub mod server;
pub mod text;
pub mod tree;
pub mod validate;
