//! The plain way in: arguments that are taken or not, with no error to
//! explain, for a program that wants nothing of [`crate::config`].

pub mod base;
pub mod config;

pub use base::{Script, Service};
pub use config::Config;
