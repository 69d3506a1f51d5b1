//! The role argument, read without an error type.

use crate::text::same_text;
use vstd::prelude::*;

verus! {

/// The two roles of a tunnel.
#[derive(Clone, Copy, Debug, PartialEq, Eq, Structural)]
pub enum Service {
    /// Listens on the endpoint and waits for a peer.
    Host,
    /// Dials the endpoint.
    Client,
}

/// The role for an argument, spelled exactly.
pub open spec fn role(s: Seq<char>) -> Option<Service> {
    if s == "--host"@ {
        Some(Service::Host)
    } else if s == "--connect"@ {
        Some(Service::Client)
    } else {
        None
    }
}

impl Service {
    /// Reads the role from its command-line spelling: `--host` or
    /// `--connect`. Anything else is `None`.
    pub fn from_str(s: &str) -> (res: Option<Self>)
        ensures
            res == role(s@),
    {
        if same_text(s, "--host") {
            Some(Service::Host)
        } else if same_text(s, "--connect") {
            Some(Service::Client)
        } else {
            None
        }
    }
}

} // verus!
