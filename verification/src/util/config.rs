//! The arguments of the program, read without an error type: a set of
//! arguments is either taken or not.

use super::base::service::{role, Service};
use crate::config::digest::{salted_digest, salted_text};
use crate::text::{is_blank, spaces, trimmed};
use vstd::prelude::*;
use vstd::utf8::encode_utf8;

verus! {

/// The length in bytes that a trimmed name must stay below.
pub const NAME_LIMIT: usize = 64;

/// The number of arguments, the program's own name included.
pub const ARGUMENTS: usize = 5;

/// The salt that a password is hashed with here.
pub open spec fn salt() -> Seq<char> {
    "toaster repairguy"@
}

/// The name that an argument gives: the argument trimmed, if that is
/// neither made of spaces only, as the empty name is, nor as long as
/// [`NAME_LIMIT`] bytes.
pub open spec fn name(s: Seq<char>) -> Option<Seq<char>> {
    let t = trimmed(s);
    if t != spaces(t.len()) && encode_utf8(t).len() < NAME_LIMIT {
        Some(t)
    } else {
        None
    }
}

/// The mathematical value of a [`Config`].
pub struct ConfigView<A> {
    pub service: Service,
    pub address: A,
    pub username: Seq<char>,
    /// The digest text of the password.
    pub password: Seq<char>,
}

/// A set of arguments that was taken. `A` is the caller's type of a network
/// address.
#[derive(Debug)]
pub struct Config<A> {
    service: Service,
    address: A,
    username: String,
    password: String,
}

impl<A> View for Config<A> {
    type V = ConfigView<A>;

    closed spec fn view(&self) -> ConfigView<A> {
        ConfigView {
            service: self.service,
            address: self.address,
            username: self.username@,
            password: self.password@,
        }
    }
}

/// The views of a run of arguments.
pub open spec fn argument_views(args: Seq<String>) -> Seq<Seq<char>> {
    args.map_values(|s: String| s@)
}

/// Whether the address gets parsed: there are five arguments and the role
/// is good.
pub open spec fn reaches_address(args: Seq<Seq<char>>) -> bool {
    args.len() == ARGUMENTS && role(args[1]) is Some
}

/// What five arguments with a good role come to once the address has been
/// parsed as `address`.
pub open spec fn settled<A>(args: Seq<Seq<char>>, address: A) -> Option<ConfigView<A>> {
    match name(args[3]) {
        None => None,
        Some(username) => Some(
            ConfigView {
                service: role(args[1])->Some_0,
                address,
                username,
                password: salted_text(args[4], salt()),
            },
        ),
    }
}

/// The value of what [`Config::from_args`] returns.
pub open spec fn config_view<A>(res: Option<Config<A>>) -> Option<ConfigView<A>> {
    match res {
        Some(config) => Some(config@),
        None => None,
    }
}

impl<A> Config<A> {
    /// Reads the arguments of the program, its own name first.
    ///
    /// There must be five. The role and the address are taken as they
    /// stand, the name is trimmed, and the password is hashed as it stands.
    /// `parse` is called once, on the address, if the role is good. The
    /// arguments are not taken if the count is wrong, the role unknown, the
    /// address refused by `parse`, or the name blank or too long.
    pub fn from_args<F: FnOnce(&str) -> Option<A>>(args: &Vec<String>, parse: F) -> (res: Option<
        Self,
    >)
        requires
            forall|arg: &str| call_requires(parse, (arg,)),
        ensures
            !reaches_address(argument_views(args@)) ==> res is None,
            reaches_address(argument_views(args@)) ==> exists|arg: &str, parsed: Option<A>|
                {
                    &&& arg@ == args@[2]@
                    &&& call_ensures(parse, (arg,), parsed)
                    &&& match parsed {
                        Some(address) => config_view(res) == settled(
                            argument_views(args@),
                            address,
                        ),
                        None => res is None,
                    }
                },
    {
        if args.len() != ARGUMENTS {
            return None;
        }
        let ghost views = argument_views(args@);
        assert(views[1] == args@[1]@ && views[2] == args@[2]@ && views[3] == args@[3]@ && views[4]
            == args@[4]@);
        let service = match Service::from_str(args[1].as_str()) {
            Some(service) => service,
            None => {
                return None;
            },
        };
        let address = match parse(args[2].as_str()) {
            Some(address) => address,
            None => {
                return None;
            },
        };
        let arg = args[3].as_str().trim();
        if is_blank(arg) || arg.as_bytes().len() >= NAME_LIMIT {
            return None;
        }
        let username = arg.to_owned();
        let password = salted_digest(args[4].as_str(), "toaster repairguy");
        Some(Self { service, address, username, password })
    }

    /// The role.
    pub fn service(&self) -> (service: Service)
        ensures
            service == self@.service,
    {
        self.service
    }

    /// The endpoint.
    pub fn address(&self) -> (address: &A)
        ensures
            *address == self@.address,
    {
        &self.address
    }

    /// The local user's name.
    pub fn username(&self) -> (username: &str)
        ensures
            username@ == self@.username,
    {
        self.username.as_str()
    }

    /// The digest text of the password.
    pub fn password(&self) -> (password: &str)
        ensures
            password@ == self@.password,
    {
        self.password.as_str()
    }
}

} // verus!
