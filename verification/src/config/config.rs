//! Validation of the command-line arguments.
//!
//! The program takes four arguments after its own name: the role, the
//! endpoint address, the user's name and the password. Each is trimmed and
//! must then be neither blank nor longer than [`FIELD_MAX`] bytes. The
//! address is parsed by the caller's parser, so that this crate needs no
//! notion of a network address; the password is kept as its digest only.

use super::digest::{digest_text, password_digest, SHA256_LEN};
use super::error::{Error, ErrorKind, ErrorView};
use super::service::{parsed_service, Service};
use crate::text::{is_blank, spaces, trimmed};
use vstd::prelude::*;
use vstd::utf8::encode_utf8;

verus! {

/// The greatest length in bytes of a trimmed argument.
pub const FIELD_MAX: usize = 32;

/// The number of arguments, the program's own name included.
pub const ARGUMENTS: usize = 5;

/// What is wrong with a trimmed argument, if anything: it is made of
/// spaces only, as the empty argument is, or takes more than [`FIELD_MAX`]
/// bytes.
pub open spec fn fault(t: Seq<char>, kind: ErrorKind) -> Option<ErrorView> {
    if t == spaces(t.len()) {
        Some(ErrorView { kind, error: "Empty"@ })
    } else if encode_utf8(t).len() > FIELD_MAX {
        Some(ErrorView { kind, error: "Too long"@ })
    } else {
        None
    }
}

/// The trimmed argument, or why it is turned down.
pub open spec fn checked(s: Seq<char>, kind: ErrorKind) -> Result<Seq<char>, ErrorView> {
    match fault(trimmed(s), kind) {
        Some(e) => Err(e),
        None => Ok(trimmed(s)),
    }
}

/// The value of what [`measure`] returns.
pub open spec fn fault_of(res: Result<(), Error>) -> Option<ErrorView> {
    match res {
        Ok(_) => None,
        Err(e) => Some(e@),
    }
}

/// Checks a trimmed argument: it must not be empty or made of spaces only,
/// nor longer than [`FIELD_MAX`] bytes. The error is of the given kind and
/// says `Empty` or `Too long`.
pub fn measure(t: &str, kind: ErrorKind) -> (res: Result<(), Error>)
    ensures
        fault_of(res) == fault(t@, kind),
{
    if is_blank(t) {
        Err(Error::new(kind, "Empty"))
    } else if t.as_bytes().len() > FIELD_MAX {
        Err(Error::new(kind, "Too long"))
    } else {
        Ok(())
    }
}

/// Trims an argument, checks that something other than spaces is left, of
/// at most [`FIELD_MAX`] bytes, and hands that to `f`.
///
/// The result is what `f` made of the trimmed argument, or an error of the
/// given kind that says `Empty` or `Too long`; `f` is not called then.
pub fn validate<T, F: FnOnce(&str) -> T>(s: &String, f: F, kind: ErrorKind) -> (res: Result<
    T,
    Error,
>)
    requires
        forall|arg: &str| arg@ == trimmed(s@) ==> call_requires(f, (arg,)),
    ensures
        match checked(s@, kind) {
            Ok(t) => res matches Ok(v) && exists|arg: &str|
                arg@ == t && call_ensures(f, (arg,), v),
            Err(e) => res matches Err(got) && got@ == e,
        },
{
    let t = s.as_str().trim();
    match measure(t, kind) {
        Err(e) => Err(e),
        Ok(_) => Ok(f(t)),
    }
}

/// The mathematical value of a [`Config`].
pub struct ConfigView<A> {
    pub service: Service,
    pub address: A,
    pub username: Seq<char>,
    /// The digest text of the password.
    pub password: Seq<char>,
}

impl<A> ConfigView<A> {
    /// What holds of every validated set of arguments: the name is not
    /// empty and fits [`FIELD_MAX`] bytes, and the digest text takes 64
    /// bytes.
    pub open spec fn well_formed(self) -> bool {
        &&& self.username.len() > 0
        &&& encode_utf8(self.username).len() <= FIELD_MAX
        &&& encode_utf8(self.password).len() == 2 * SHA256_LEN
    }
}

/// A validated set of arguments. `A` is the caller's type of a network
/// address.
#[derive(Debug)]
pub struct Config<A> {
    service: Service,
    address: A,
    username: String,
    password: String,
}

impl<A> View for Config<A> {
    type V = ConfigView<A>;

    closed spec fn view(&self) -> ConfigView<A> {
        ConfigView {
            service: self.service,
            address: self.address,
            username: self.username@,
            password: self.password@,
        }
    }
}

/// The views of a run of arguments.
pub open spec fn argument_views(args: Seq<String>) -> Seq<Seq<char>> {
    args.map_values(|s: String| s@)
}

/// The error that turns the arguments down before the address is parsed,
/// if there is one: a wrong count, a bad role, or an address that is empty
/// or too long.
pub open spec fn early_error(args: Seq<Seq<char>>) -> Option<ErrorView> {
    if args.len() != ARGUMENTS {
        Some(
            ErrorView {
                kind: ErrorKind::Argument,
                error: "Invalid number of arguments (5 required)"@,
            },
        )
    } else {
        match checked(args[1], ErrorKind::Service) {
            Err(e) => Some(e),
            Ok(role) => match parsed_service(role) {
                Err(e) => Some(e),
                Ok(_) => match checked(args[2], ErrorKind::Address) {
                    Err(e) => Some(e),
                    Ok(_) => None,
                },
            },
        }
    }
}

/// What five arguments with a good role come to once the address has been
/// parsed as `address`.
pub open spec fn settled<A>(args: Seq<Seq<char>>, address: A) -> Result<ConfigView<A>, ErrorView> {
    match checked(args[3], ErrorKind::Username) {
        Err(e) => Err(e),
        Ok(username) => match checked(args[4], ErrorKind::Password) {
            Err(e) => Err(e),
            Ok(password) => Ok(
                ConfigView {
                    service: parsed_service(trimmed(args[1]))->Ok_0,
                    address,
                    username,
                    password: digest_text(password),
                },
            ),
        },
    }
}

/// The value of what [`Config::from_args`] returns.
pub open spec fn config_result<A>(res: Result<Config<A>, Error>) -> Result<ConfigView<A>, ErrorView> {
    match res {
        Ok(config) => Ok(config@),
        Err(e) => Err(e@),
    }
}

impl<A> Config<A> {
    /// Validates the arguments of the program, its own name first. `None`
    /// stands for arguments that are not text.
    ///
    /// The arguments are checked in the order role, address, name,
    /// password, and the first that fails decides the error. `parse` is
    /// called once, on the trimmed address, if the role is good and the
    /// address is neither empty nor too long; the text of its error becomes
    /// an error of kind `Address`.
    pub fn from_args<F: FnOnce(&str) -> Result<A, String>>(
        args: Option<Vec<String>>,
        parse: F,
    ) -> (res: Result<Self, Error>)
        requires
            forall|arg: &str| call_requires(parse, (arg,)),
        ensures
            res matches Ok(config) ==> config@.well_formed(),
            args is None ==> config_result(res) == Err::<ConfigView<A>, ErrorView>(
                ErrorView { kind: ErrorKind::Argument, error: "Invalid argument data"@ },
            ),
            args matches Some(list) ==> match early_error(argument_views(list@)) {
                Some(e) => config_result(res) == Err::<ConfigView<A>, ErrorView>(e),
                None => exists|arg: &str, parsed: Result<A, String>|
                    {
                        &&& arg@ == trimmed(list@[2]@)
                        &&& call_ensures(parse, (arg,), parsed)
                        &&& match parsed {
                            Ok(address) => config_result(res) == settled(
                                argument_views(list@),
                                address,
                            ),
                            Err(text) => config_result(res) == Err::<ConfigView<A>, ErrorView>(
                                ErrorView { kind: ErrorKind::Address, error: text@ },
                            ),
                        }
                    },
            },
    {
        let list = match args {
            Some(list) => list,
            None => {
                return Err(Error::new(ErrorKind::Argument, "Invalid argument data"));
            },
        };
        let ghost views = argument_views(list@);
        if list.len() != ARGUMENTS {
            return Err(
                Error::new(ErrorKind::Argument, "Invalid number of arguments (5 required)"),
            );
        }
        assert(views[1] == list@[1]@ && views[2] == list@[2]@ && views[3] == list@[3]@ && views[4]
            == list@[4]@);
        let role = |s: &str| -> (r: Result<Service, Error>)
            ensures
                super::service::service_result(r) == parsed_service(s@),
            { Service::from_str(s) };
        let service = match validate(&list[1], role, ErrorKind::Service) {
            Ok(Ok(service)) => service,
            Ok(Err(e)) => {
                return Err(e);
            },
            Err(e) => {
                return Err(e);
            },
        };
        let address = match validate(&list[2], parse, ErrorKind::Address) {
            Ok(Ok(address)) => address,
            Ok(Err(text)) => {
                return Err(Error::new(ErrorKind::Address, text.as_str()));
            },
            Err(e) => {
                return Err(e);
            },
        };
        let name = |s: &str| -> (r: String)
            ensures
                r@ == s@,
            { s.to_owned() };
        let username = match validate(&list[3], name, ErrorKind::Username) {
            Ok(username) => username,
            Err(e) => {
                return Err(e);
            },
        };
        let hash = |s: &str| -> (r: String)
            ensures
                r@ == digest_text(s@),
                encode_utf8(r@).len() == 2 * SHA256_LEN,
            { password_digest(s) };
        let password = match validate(&list[4], hash, ErrorKind::Password) {
            Ok(password) => password,
            Err(e) => {
                return Err(e);
            },
        };
        assert(username@.len() > 0) by {
            if username@.len() == 0 {
                assert(username@ =~= spaces(0));
            }
        }
        Ok(Self { service, address, username, password })
    }

    /// The role.
    pub fn service(&self) -> (service: Service)
        ensures
            service == self@.service,
    {
        self.service
    }

    /// The endpoint.
    pub fn address(&self) -> (address: &A)
        ensures
            *address == self@.address,
    {
        &self.address
    }

    /// The local user's name.
    pub fn username(&self) -> (username: &str)
        ensures
            username@ == self@.username,
    {
        self.username.as_str()
    }

    /// The digest text of the password.
    pub fn password(&self) -> (password: &str)
        ensures
            password@ == self@.password,
    {
        self.password.as_str()
    }
}

} // verus!
