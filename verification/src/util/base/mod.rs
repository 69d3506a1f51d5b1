//! The role argument read leniently, and a run put off until it is wanted.

pub mod script;
pub mod service;

pub use script::Script;
pub use service::Service;
