//! What the program is started with: the role, the endpoint, the local
//! user's name and the password digest.

pub mod config;
pub mod digest;
pub mod error;
pub mod service;

pub use config::{measure, validate, Config, ConfigView};
pub use error::{Error, ErrorKind, ErrorView};
pub use service::Service;
