//! The session runtime: messages, the bounded queue, and the tunnel.

pub mod handler;
pub mod handshake;
pub mod message;
pub mod queue;
pub mod session;
pub mod tunnel;

pub use handshake::{Handshake, HandshakeError};
pub use message::{Delivery, Message, MessageView};
pub use queue::Queue;
pub use tunnel::Tunnel;
