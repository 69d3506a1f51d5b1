//! The role that this end of the tunnel plays.

use super::error::{Error, ErrorKind, ErrorView};
use crate::text::same_text;
use vstd::prelude::*;
use vstd::string::StringExecFns;

verus! {

/// The two roles of a tunnel.
#[derive(Clone, Copy, Debug, PartialEq, Eq, Structural)]
pub enum Service {
    /// Listens on the endpoint and waits for a peer.
    Host,
    /// Dials the endpoint.
    Client,
}

/// What [`Service::from_str`] makes of an argument.
pub open spec fn parsed_service(s: Seq<char>) -> Result<Service, ErrorView> {
    if s == "--host"@ {
        Ok(Service::Host)
    } else if s == "--connect"@ {
        Ok(Service::Client)
    } else {
        Err(
            ErrorView {
                kind: ErrorKind::Service,
                error: "Unknown service argument provided ("@ + s + ")"@,
            },
        )
    }
}

/// The value of a parse result.
pub open spec fn service_result(res: Result<Service, Error>) -> Result<Service, ErrorView> {
    match res {
        Ok(service) => Ok(service),
        Err(e) => Err(e@),
    }
}

impl Service {
    /// Reads the role from its command-line spelling: `--host` or
    /// `--connect`. Anything else is an error of kind `Service` that quotes
    /// the argument.
    pub fn from_str(s: &str) -> (res: Result<Self, Error>)
        ensures
            service_result(res) == parsed_service(s@),
    {
        if same_text(s, "--host") {
            Ok(Service::Host)
        } else if same_text(s, "--connect") {
            Ok(Service::Client)
        } else {
            let mut text = "Unknown service argument provided (".to_owned();
            text.append(s);
            text.append(")");
            Err(Error::new(ErrorKind::Service, text.as_str()))
        }
    }
}

} // verus!
