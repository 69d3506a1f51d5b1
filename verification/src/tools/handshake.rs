//! The one-shot handshake that turns a connected byte stream into an
//! authenticated session.
//!
//! The connector sends its password digest; the listener answers with one
//! result byte and, if the digests differ, closes the connection. After a
//! match the two exchange names: the connector writes first and the listener
//! reads first, so that the two never wait on each other.
//!
//! A [`Handshake`] is the state of one attempt. It performs no I/O: it says
//! which transfer comes next ([`Handshake::request`]) and takes the outcome
//! of that transfer ([`Handshake::advance`]), until it is finished.

use super::tunnel::{Tunnel, TunnelView};
use crate::config::Service;
use crate::text::{lemma_padded_text, nuls, pad, padded, same_bytes};
use vstd::prelude::*;
use vstd::string::StrSliceExecFns;
use vstd::utf8::{decode_utf8, encode_utf8, valid_utf8};

verus! {

/// The size of the buffer that a peer's name is read into.
pub const USERNAME_LEN: usize = 32;

/// The result byte for matching digests.
pub const ACCEPTED: u8 = 1;

/// The result byte for differing digests.
pub const REJECTED: u8 = 0;

/// Why a handshake attempt failed.
#[derive(Clone, Copy, Debug, PartialEq, Eq, Structural)]
pub enum HandshakeError {
    /// The digests differ.
    IncorrectPassword,
    /// The peer's name is not well-formed UTF-8.
    MalformedUsername,
    /// A transfer failed, or did not move what was asked for.
    Transport,
}

/// The transfer that an attempt asks for next.
#[derive(Clone, Debug, PartialEq, Eq)]
pub enum Request {
    /// Read exactly this many bytes; fewer are a failure.
    ReadExact(usize),
    /// Make one read into a buffer of this size.
    ReadOnce(usize),
    /// Write all of these bytes.
    Write(Vec<u8>),
    /// Close the connection in both directions.
    Shutdown,
    /// Nothing: the attempt is finished.
    Finished,
}

/// The mathematical value of a [`Request`].
pub enum RequestView {
    ReadExact(nat),
    ReadOnce(nat),
    Write(Seq<u8>),
    Shutdown,
    Finished,
}

impl View for Request {
    type V = RequestView;

    open spec fn view(&self) -> RequestView {
        match self {
            Request::ReadExact(n) => RequestView::ReadExact(*n as nat),
            Request::ReadOnce(n) => RequestView::ReadOnce(*n as nat),
            Request::Write(bytes) => RequestView::Write(bytes@),
            Request::Shutdown => RequestView::Shutdown,
            Request::Finished => RequestView::Finished,
        }
    }
}

/// The outcome of the transfer that was asked for.
#[derive(Clone, Debug, PartialEq, Eq)]
pub enum Reply {
    /// The bytes that a read brought.
    Bytes(Vec<u8>),
    /// The write or the shutdown went through.
    Done,
    /// The transfer failed.
    Failed,
}

/// The mathematical value of a [`Reply`].
pub enum ReplyView {
    Bytes(Seq<u8>),
    Done,
    Failed,
}

impl View for Reply {
    type V = ReplyView;

    open spec fn view(&self) -> ReplyView {
        match self {
            Reply::Bytes(bytes) => ReplyView::Bytes(bytes@),
            Reply::Done => ReplyView::Done,
            Reply::Failed => ReplyView::Failed,
        }
    }
}

/// Where an attempt stands.
enum Phase {
    AwaitDigest,
    SendVerdict(bool),
    Close,
    AwaitName,
    SendName(Vec<u8>),
    SendDigest,
    AwaitVerdict,
    OfferName,
    AwaitPeerName,
    Established(String),
    Failed(HandshakeError),
}

/// The mathematical value of the position of an attempt.
pub enum PhaseView {
    /// Listener: the digest is to be read.
    AwaitDigest,
    /// Listener: the result byte is to be written.
    SendVerdict(bool),
    /// Listener: the rejected connection is to be closed.
    Close,
    /// Listener: the peer's name is to be read.
    AwaitName,
    /// Listener: the local name is to be written; the buffer holds what was
    /// read of the peer's name.
    SendName(Seq<u8>),
    /// Connector: the digest is to be written.
    SendDigest,
    /// Connector: the result byte is to be read.
    AwaitVerdict,
    /// Connector: the local name is to be written.
    OfferName,
    /// Connector: the peer's name is to be read.
    AwaitPeerName,
    /// The peer is authenticated and goes by this name.
    Established(Seq<char>),
    /// The attempt has failed.
    Failed(HandshakeError),
}

impl View for Phase {
    type V = PhaseView;

    closed spec fn view(&self) -> PhaseView {
        match self {
            Phase::AwaitDigest => PhaseView::AwaitDigest,
            Phase::SendVerdict(valid) => PhaseView::SendVerdict(*valid),
            Phase::Close => PhaseView::Close,
            Phase::AwaitName => PhaseView::AwaitName,
            Phase::SendName(buffer) => PhaseView::SendName(buffer@),
            Phase::SendDigest => PhaseView::SendDigest,
            Phase::AwaitVerdict => PhaseView::AwaitVerdict,
            Phase::OfferName => PhaseView::OfferName,
            Phase::AwaitPeerName => PhaseView::AwaitPeerName,
            Phase::Established(name) => PhaseView::Established(name@),
            Phase::Failed(e) => PhaseView::Failed(*e),
        }
    }
}

/// The mathematical value of a [`Handshake`].
pub struct HandshakeView {
    pub role: Service,
    /// The local password digest.
    pub digest: Seq<u8>,
    /// The local user's name.
    pub username: Seq<char>,
    pub phase: PhaseView,
}

/// Where an attempt starts.
pub open spec fn opening(role: Service) -> PhaseView {
    match role {
        Service::Host => PhaseView::AwaitDigest,
        Service::Client => PhaseView::SendDigest,
    }
}

/// The name that a buffer read from the peer holds: the buffer, filled up
/// with zero bytes to [`USERNAME_LEN`], decoded strictly.
///
/// The name travels without its length, so the filling is part of what is
/// decoded: a name shorter than the buffer is read with NUL characters
/// behind it.
pub open spec fn decoded_name(buffer: Seq<u8>) -> PhaseView {
    let full = padded(buffer, USERNAME_LEN as nat);
    if valid_utf8(full) {
        PhaseView::Established(decode_utf8(full))
    } else {
        PhaseView::Failed(HandshakeError::MalformedUsername)
    }
}

/// The result byte for a verdict.
pub open spec fn verdict_byte(valid: bool) -> u8 {
    if valid {
        ACCEPTED
    } else {
        REJECTED
    }
}

/// The transfer that comes next.
pub open spec fn request_of(h: HandshakeView) -> RequestView {
    match h.phase {
        PhaseView::AwaitDigest => RequestView::ReadExact(h.digest.len()),
        PhaseView::SendVerdict(valid) => RequestView::Write(seq![verdict_byte(valid)]),
        PhaseView::Close => RequestView::Shutdown,
        PhaseView::AwaitName => RequestView::ReadOnce(USERNAME_LEN as nat),
        PhaseView::SendName(_) => RequestView::Write(encode_utf8(h.username)),
        PhaseView::SendDigest => RequestView::Write(h.digest),
        PhaseView::AwaitVerdict => RequestView::ReadExact(1),
        PhaseView::OfferName => RequestView::Write(encode_utf8(h.username)),
        PhaseView::AwaitPeerName => RequestView::ReadOnce(USERNAME_LEN as nat),
        PhaseView::Established(_) => RequestView::Finished,
        PhaseView::Failed(_) => RequestView::Finished,
    }
}

/// The position after the outcome of the transfer that was asked for.
pub open spec fn next_phase(h: HandshakeView, reply: ReplyView) -> PhaseView {
    let broken = PhaseView::Failed(HandshakeError::Transport);
    match h.phase {
        PhaseView::AwaitDigest => match reply {
            ReplyView::Bytes(bytes) => if bytes.len() == h.digest.len() {
                PhaseView::SendVerdict(bytes == h.digest)
            } else {
                broken
            },
            _ => broken,
        },
        PhaseView::SendVerdict(valid) => match reply {
            ReplyView::Done => if valid {
                PhaseView::AwaitName
            } else {
                PhaseView::Close
            },
            _ => broken,
        },
        PhaseView::Close => PhaseView::Failed(HandshakeError::IncorrectPassword),
        PhaseView::AwaitName => match reply {
            ReplyView::Bytes(bytes) => PhaseView::SendName(bytes),
            _ => broken,
        },
        PhaseView::SendName(buffer) => match reply {
            ReplyView::Done => decoded_name(buffer),
            _ => broken,
        },
        PhaseView::SendDigest => match reply {
            ReplyView::Done => PhaseView::AwaitVerdict,
            _ => broken,
        },
        PhaseView::AwaitVerdict => match reply {
            ReplyView::Bytes(bytes) => if bytes.len() != 1 {
                broken
            } else if bytes[0] == ACCEPTED {
                PhaseView::OfferName
            } else {
                PhaseView::Failed(HandshakeError::IncorrectPassword)
            },
            _ => broken,
        },
        PhaseView::OfferName => match reply {
            ReplyView::Done => PhaseView::AwaitPeerName,
            _ => broken,
        },
        PhaseView::AwaitPeerName => match reply {
            ReplyView::Bytes(bytes) => decoded_name(bytes),
            _ => broken,
        },
        PhaseView::Established(name) => PhaseView::Established(name),
        PhaseView::Failed(e) => PhaseView::Failed(e),
    }
}

/// The attempt after the outcome of the transfer that was asked for.
pub open spec fn advanced(h: HandshakeView, reply: ReplyView) -> HandshakeView {
    HandshakeView { phase: next_phase(h, reply), ..h }
}

/// The session that a finished attempt yields, if it is finished.
pub open spec fn session_of(h: HandshakeView) -> Option<Result<TunnelView, HandshakeError>> {
    match h.phase {
        PhaseView::Established(name) => Some(
            Ok(
                TunnelView {
                    username: name,
                    height: 0,
                    queue: Seq::empty(),
                    draft: Seq::empty(),
                    alive: true,
                },
            ),
        ),
        PhaseView::Failed(e) => Some(Err(e)),
        _ => None,
    }
}

/// The value of what [`Handshake::finish`] returns.
pub open spec fn session_view(res: Option<Result<Tunnel, HandshakeError>>) -> Option<
    Result<TunnelView, HandshakeError>,
> {
    match res {
        Some(Ok(tunnel)) => Some(Ok(tunnel@)),
        Some(Err(e)) => Some(Err(e)),
        None => None,
    }
}

/// What follows a finished attempt.
#[derive(Clone, Copy, Debug, PartialEq, Eq, Structural)]
pub enum Sequel {
    /// The session begins. A listener accepts no further connection.
    Commit,
    /// The listener drops this connection and accepts the next one.
    AcceptNext,
    /// The connector gives up.
    Abort,
}

/// A failed attempt costs a listener nothing but the connection; it ends a
/// connector, which has dialled only once.
pub fn sequel(role: Service, established: bool) -> (next: Sequel)
    ensures
        next == if established {
            Sequel::Commit
        } else if role == Service::Host {
            Sequel::AcceptNext
        } else {
            Sequel::Abort
        },
{
    if established {
        Sequel::Commit
    } else {
        match role {
            Service::Host => Sequel::AcceptNext,
            Service::Client => Sequel::Abort,
        }
    }
}

/// One transfer between a listener and a connector over a stream that
/// neither loses nor reorders anything: what the one writes is what the
/// other reads, and a shutdown goes through. The two stay as they are where
/// neither request is met by the other's.
pub open spec fn exchange(l: HandshakeView, c: HandshakeView) -> (HandshakeView, HandshakeView) {
    match (request_of(l), request_of(c)) {
        (RequestView::ReadExact(n), RequestView::Write(bytes)) => if bytes.len() == n {
            (advanced(l, ReplyView::Bytes(bytes)), advanced(c, ReplyView::Done))
        } else {
            (l, c)
        },
        (RequestView::ReadOnce(n), RequestView::Write(bytes)) => if bytes.len() <= n {
            (advanced(l, ReplyView::Bytes(bytes)), advanced(c, ReplyView::Done))
        } else {
            (l, c)
        },
        (RequestView::Write(bytes), RequestView::ReadExact(n)) => if bytes.len() == n {
            (advanced(l, ReplyView::Done), advanced(c, ReplyView::Bytes(bytes)))
        } else {
            (l, c)
        },
        (RequestView::Write(bytes), RequestView::ReadOnce(n)) => if bytes.len() <= n {
            (advanced(l, ReplyView::Done), advanced(c, ReplyView::Bytes(bytes)))
        } else {
            (l, c)
        },
        (RequestView::Shutdown, _) => (advanced(l, ReplyView::Done), c),
        _ => (l, c),
    }
}

/// The name that a peer obtains of a user called `name`: the name, followed
/// by one NUL character for each byte that its encoding leaves free in the
/// name buffer.
pub open spec fn name_as_read(name: Seq<char>) -> Seq<char> {
    name + nuls((USERNAME_LEN - encode_utf8(name).len()) as nat)
}

/// Handshake correctness, equal digests. A listener and a connector that
/// hold the same digest, and names that fit the name buffer, get through
/// the handshake in four transfers: the digest, the result byte `1`, the
/// connector's name, the listener's name. Each ends up established with the
/// other's name.
pub proof fn lemma_equal_digests_establish(l: HandshakeView, c: HandshakeView)
    requires
        l.phase == opening(Service::Host),
        c.phase == opening(Service::Client),
        l.digest == c.digest,
        encode_utf8(l.username).len() <= USERNAME_LEN,
        encode_utf8(c.username).len() <= USERNAME_LEN,
    ensures
        ({
            let (l1, c1) = exchange(l, c);
            let (l2, c2) = exchange(l1, c1);
            let (l3, c3) = exchange(l2, c2);
            let (l4, c4) = exchange(l3, c3);
            &&& request_of(l1) == RequestView::Write(seq![ACCEPTED])
            &&& request_of(c2) == RequestView::Write(encode_utf8(c.username))
            &&& request_of(l3) == RequestView::Write(encode_utf8(l.username))
            &&& l4.phase == PhaseView::Established(name_as_read(c.username))
            &&& c4.phase == PhaseView::Established(name_as_read(l.username))
        }),
{
    lemma_padded_text(l.username, USERNAME_LEN as nat);
    lemma_padded_text(c.username, USERNAME_LEN as nat);
}

/// Handshake correctness, unequal digests. A listener and a connector that
/// hold different digests of one length part after three transfers: the
/// digest, the result byte `0`, and the listener's shutdown of the
/// connection. Both have then failed on the password, and neither has been
/// asked to write or to read a name.
pub proof fn lemma_unequal_digests_reject(l: HandshakeView, c: HandshakeView)
    requires
        l.phase == opening(Service::Host),
        c.phase == opening(Service::Client),
        l.digest != c.digest,
        l.digest.len() == c.digest.len(),
    ensures
        ({
            let (l1, c1) = exchange(l, c);
            let (l2, c2) = exchange(l1, c1);
            let (l3, c3) = exchange(l2, c2);
            &&& request_of(l1) == RequestView::Write(seq![REJECTED])
            &&& request_of(l2) == RequestView::Shutdown
            &&& request_of(c2) == RequestView::Finished
            &&& request_of(l3) == RequestView::Finished
            &&& c2.phase == PhaseView::Failed(HandshakeError::IncorrectPassword)
            &&& l3.phase == PhaseView::Failed(HandshakeError::IncorrectPassword)
            &&& c3 == c2
        }),
{
}

/// An attempt is over after four transfers, whatever their outcomes: it
/// has then yielded a session or failed for good, and asks for nothing
/// more.
pub proof fn lemma_attempt_finishes(
    h: HandshakeView,
    first: ReplyView,
    second: ReplyView,
    third: ReplyView,
    fourth: ReplyView,
)
    requires
        h.phase == opening(h.role),
    ensures
        ({
            let end = advanced(advanced(advanced(advanced(h, first), second), third), fourth);
            &&& request_of(end) == RequestView::Finished
            &&& session_of(end) is Some
            &&& forall|later: ReplyView| advanced(end, later) == end
        }),
{
}

/// The state of one handshake attempt.
pub struct Handshake {
    role: Service,
    digest: Vec<u8>,
    username: String,
    phase: Phase,
}

impl View for Handshake {
    type V = HandshakeView;

    closed spec fn view(&self) -> HandshakeView {
        HandshakeView {
            role: self.role,
            digest: self.digest@,
            username: self.username@,
            phase: self.phase@,
        }
    }
}

impl Handshake {
    /// A fresh attempt in the given role, with the local password digest
    /// and the local user's name.
    pub fn new(role: Service, digest: &str, username: &str) -> (h: Self)
        ensures
            h@ == (HandshakeView {
                role,
                digest: encode_utf8(digest@),
                username: username@,
                phase: opening(role),
            }),
    {
        let phase = match role {
            Service::Host => Phase::AwaitDigest,
            Service::Client => Phase::SendDigest,
        };
        Self { role, digest: digest.as_bytes_vec(), username: username.to_owned(), phase }
    }

    /// The transfer that comes next.
    pub fn request(&self) -> (next: Request)
        ensures
            next@ == request_of(self@),
    {
        match &self.phase {
            Phase::AwaitDigest => Request::ReadExact(self.digest.len()),
            Phase::SendVerdict(valid) => {
                let byte = if *valid {
                    ACCEPTED
                } else {
                    REJECTED
                };
                let mut out: Vec<u8> = Vec::new();
                out.push(byte);
                assert(out@ =~= seq![verdict_byte(*valid)]);
                Request::Write(out)
            },
            Phase::Close => Request::Shutdown,
            Phase::AwaitName => Request::ReadOnce(USERNAME_LEN),
            Phase::SendName(_) => Request::Write(self.username.as_str().as_bytes_vec()),
            Phase::SendDigest => Request::Write(self.digest.clone()),
            Phase::AwaitVerdict => Request::ReadExact(1),
            Phase::OfferName => Request::Write(self.username.as_str().as_bytes_vec()),
            Phase::AwaitPeerName => Request::ReadOnce(USERNAME_LEN),
            Phase::Established(_) => Request::Finished,
            Phase::Failed(_) => Request::Finished,
        }
    }

    /// Takes the outcome of the transfer that [`Handshake::request`] asked
    /// for, and moves on.
    ///
    /// A failed transfer, a read of the wrong length where the length is
    /// fixed, and an outcome that does not fit the request all fail the
    /// attempt. A finished attempt stays as it is.
    pub fn advance(&mut self, reply: Reply)
        ensures
            final(self)@ == advanced(old(self)@, reply@),
    {
        let next = match (&self.phase, reply) {
            (Phase::AwaitDigest, Reply::Bytes(bytes)) => {
                if bytes.len() == self.digest.len() {
                    Phase::SendVerdict(same_bytes(bytes.as_slice(), self.digest.as_slice()))
                } else {
                    Phase::Failed(HandshakeError::Transport)
                }
            },
            (Phase::SendVerdict(valid), Reply::Done) => {
                if *valid {
                    Phase::AwaitName
                } else {
                    Phase::Close
                }
            },
            (Phase::Close, _) => Phase::Failed(HandshakeError::IncorrectPassword),
            (Phase::AwaitName, Reply::Bytes(bytes)) => Phase::SendName(bytes),
            (Phase::SendName(buffer), Reply::Done) => decode_name(buffer.as_slice()),
            (Phase::SendDigest, Reply::Done) => Phase::AwaitVerdict,
            (Phase::AwaitVerdict, Reply::Bytes(bytes)) => {
                if bytes.len() != 1 {
                    Phase::Failed(HandshakeError::Transport)
                } else if bytes[0] == ACCEPTED {
                    Phase::OfferName
                } else {
                    Phase::Failed(HandshakeError::IncorrectPassword)
                }
            },
            (Phase::OfferName, Reply::Done) => Phase::AwaitPeerName,
            (Phase::AwaitPeerName, Reply::Bytes(bytes)) => decode_name(bytes.as_slice()),
            (Phase::Established(_), _) => {
                return ;
            },
            (Phase::Failed(_), _) => {
                return ;
            },
            _ => Phase::Failed(HandshakeError::Transport),
        };
        self.phase = next;
    }

    /// Whether the attempt is finished, in success or in failure.
    pub fn is_finished(&self) -> (finished: bool)
        ensures
            finished == (request_of(self@) == RequestView::Finished),
    {
        match &self.phase {
            Phase::Established(_) => true,
            Phase::Failed(_) => true,
            _ => false,
        }
    }

    /// Ends the attempt: a fresh session with the peer once it is
    /// established, the error once it has failed, `None` while transfers are
    /// still due.
    pub fn finish(self) -> (res: Option<Result<Tunnel, HandshakeError>>)
        ensures
            session_view(res) == session_of(self@),
    {
        match self.phase {
            Phase::Established(name) => Some(Ok(Tunnel::new(name))),
            Phase::Failed(e) => Some(Err(e)),
            _ => None,
        }
    }
}

/// Decodes a name buffer read from the peer.
fn decode_name(buffer: &[u8]) -> (phase: Phase)
    ensures
        phase@ == decoded_name(buffer@),
{
    match String::from_utf8(pad(buffer, USERNAME_LEN)) {
        Ok(name) => Phase::Established(name),
        Err(_) => Phase::Failed(HandshakeError::MalformedUsername),
    }
}

} // verus!
