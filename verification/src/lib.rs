//! A point-to-point terminal tunnel.
//!
//! Two peers authenticate with a shared password digest over a raw byte
//! stream, exchange display names, and then hold a live text session. This
//! crate holds the rules of that protocol and of the session as verified
//! functions over plain values; sockets, threads and the terminal belong to
//! the program that drives it.

pub mod config;
pub mod text;
pub mod tools;
pub mod util;

pub use config::{Config, Service};
pub use tools::Tunnel;
