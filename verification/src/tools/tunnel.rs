//! The live session between two authenticated peers.
//!
//! A [`Tunnel`] owns the session state: the peer's name, the message queue
//! (whose capacity is the viewport height), the line being typed, and the
//! liveness flag. Three loops drive it, and each of them is one method here,
//! called once per event by whoever owns the socket and the terminal:
//!
//! * [`Tunnel::receive`] takes the outcome of one read from the peer,
//! * [`Tunnel::render`] produces the terminal and socket writes of one tick,
//! * [`Tunnel::keystroke`] takes one key typed by the user.
//!
//! None of them performs I/O. `render` hands back the writes as a list of
//! [`Effect`]s to be carried out in order.

use super::message::{Delivery, Message, MessageView};
use super::queue::{enqueued, Queue};
use crate::text::{
    append_bytes, from_utf8_lossy, pad, padded, same_text, utf8_lossy, white_space,
};
use vstd::prelude::*;
use vstd::string::StrSliceExecFns;
use vstd::utf8::encode_utf8;

verus! {

/// The size of the buffer that one read from the peer fills.
pub const CHUNK_LEN: usize = 64;

/// The length in bytes from which the draft takes no further character.
pub const DRAFT_CAP: usize = 64;

/// The owner label of messages authored at this end.
pub open spec fn local_marker() -> Seq<char> {
    "o"@
}

/// The owner label of messages that arrived from the peer.
pub open spec fn peer_marker() -> Seq<char> {
    "~"@
}

/// The line that ends the session instead of being sent.
pub open spec fn exit_command() -> Seq<char> {
    "exit"@
}

/// What is drawn once the session is over.
pub open spec fn disconnected_notice() -> Seq<u8> {
    encode_utf8("Disconnected"@)
}

/// One keystroke, as the session tells them apart.
#[derive(Clone, Copy, Debug, PartialEq, Eq)]
pub enum Keystroke {
    Enter,
    Backspace,
    /// A printable character.
    Char(char),
    /// Any other key.
    Other,
}

/// The outcome of one attempt to read a chunk from the peer.
#[derive(Clone, Debug, PartialEq, Eq)]
pub enum Arrival {
    /// The read succeeded with these bytes. No bytes at all means that the
    /// peer has closed the connection.
    Data(Vec<u8>),
    /// Nothing to read yet.
    WouldBlock,
    ConnectionReset,
    ConnectionAborted,
    TimedOut,
    /// Any other I/O error.
    Failed,
}

/// The mathematical value of an [`Arrival`].
pub enum ArrivalView {
    Data(Seq<u8>),
    WouldBlock,
    ConnectionReset,
    ConnectionAborted,
    TimedOut,
    Failed,
}

impl View for Arrival {
    type V = ArrivalView;

    open spec fn view(&self) -> ArrivalView {
        match self {
            Arrival::Data(bytes) => ArrivalView::Data(bytes@),
            Arrival::WouldBlock => ArrivalView::WouldBlock,
            Arrival::ConnectionReset => ArrivalView::ConnectionReset,
            Arrival::ConnectionAborted => ArrivalView::ConnectionAborted,
            Arrival::TimedOut => ArrivalView::TimedOut,
            Arrival::Failed => ArrivalView::Failed,
        }
    }
}

/// What one listener tick did.
#[derive(Clone, Copy, Debug, PartialEq, Eq, Structural)]
pub enum Reception {
    /// A message from the peer entered the queue.
    Enqueued,
    /// There was nothing to do.
    Idle,
    /// The error is to be reported; the loop goes on.
    Unexpected,
    /// The session is over; the loop stops.
    Disconnected,
}

/// One write for the driver to carry out.
#[derive(Clone, Debug, PartialEq, Eq)]
pub enum Effect {
    /// Write all of these bytes to the peer.
    Send(Vec<u8>),
    /// Clear the whole terminal.
    ClearScreen,
    /// Move the cursor to column `x` of row `y`.
    MoveCursor { x: usize, y: usize },
    /// Clear the line the cursor is on.
    ClearLine,
    /// Write these bytes to the terminal.
    Write(Vec<u8>),
    /// Flush what was written to the terminal.
    Flush,
}

/// The mathematical value of an [`Effect`].
pub enum EffectView {
    Send(Seq<u8>),
    ClearScreen,
    MoveCursor { x: nat, y: nat },
    ClearLine,
    Write(Seq<u8>),
    Flush,
}

impl View for Effect {
    type V = EffectView;

    open spec fn view(&self) -> EffectView {
        match self {
            Effect::Send(bytes) => EffectView::Send(bytes@),
            Effect::ClearScreen => EffectView::ClearScreen,
            Effect::MoveCursor { x, y } => EffectView::MoveCursor { x: *x as nat, y: *y as nat },
            Effect::ClearLine => EffectView::ClearLine,
            Effect::Write(bytes) => EffectView::Write(bytes@),
            Effect::Flush => EffectView::Flush,
        }
    }
}

/// The values of a run of effects, in order.
pub open spec fn effect_views(effects: Seq<Effect>) -> Seq<EffectView> {
    effects.map_values(|e: Effect| e@)
}

/// The writes of one render tick, and whether the render loop goes on.
pub struct Frame {
    pub effects: Vec<Effect>,
    pub proceed: bool,
}

/// The mathematical value of a [`Tunnel`].
pub struct TunnelView {
    /// The peer's name, drawn as the header.
    pub username: Seq<char>,
    /// The viewport height as of the last render tick; the queue's capacity.
    pub height: nat,
    /// The queue, head first.
    pub queue: Seq<MessageView>,
    /// The line being typed.
    pub draft: Seq<char>,
    /// Whether the session is live.
    pub alive: bool,
}

/// The viewport height for a terminal of `rows` rows: the index of its
/// bottom row.
pub open spec fn viewport_height(rows: nat) -> nat {
    if rows == 0 {
        0
    } else {
        (rows - 1) as nat
    }
}

/// How many messages a render tick visits: as many as there are rows
/// strictly between the header row and the draft row, if the queue holds
/// that many.
pub open spec fn visible(len: nat, height: nat) -> nat {
    let usable = if height == 0 {
        0
    } else {
        (height - 1) as nat
    };
    if len < usable {
        len
    } else {
        usable
    }
}

/// `queue` with its first `n` entries marked as delivered.
pub open spec fn delivered_prefix(queue: Seq<MessageView>, n: nat) -> Seq<MessageView> {
    Seq::new(
        queue.len(),
        |i: int|
            if i < n {
                queue[i].delivered()
            } else {
                queue[i]
            },
    )
}

/// The bytes of the line drawn for a message: `<owner> | <content>`.
pub open spec fn line_bytes(m: MessageView) -> Seq<u8> {
    encode_utf8(m.owner) + encode_utf8(" | "@) + encode_utf8(m.content)
}

/// The header is redrawn only when the height has changed.
pub open spec fn header_effects(username: Seq<char>, before: nat, height: nat) -> Seq<EffectView> {
    if before != height {
        seq![
            EffectView::ClearScreen,
            EffectView::MoveCursor { x: 0, y: 0 },
            EffectView::Write(encode_utf8(username)),
        ]
    } else {
        seq![]
    }
}

/// The writes for one visited message: its transmission if it is still
/// pending, then its line on `row`.
pub open spec fn message_effects(m: MessageView, row: nat) -> Seq<EffectView> {
    let send = if m.state == Delivery::PendingSend {
        seq![EffectView::Send(encode_utf8(m.content))]
    } else {
        seq![]
    };
    send + seq![
        EffectView::MoveCursor { x: 0, y: row },
        EffectView::ClearLine,
        EffectView::Write(line_bytes(m)),
    ]
}

/// The writes for the first `n` messages of `queue`, head first, the head
/// on the row below the header.
pub open spec fn transcript_effects(queue: Seq<MessageView>, n: nat) -> Seq<EffectView>
    decreases n,
{
    if n == 0 {
        seq![]
    } else {
        transcript_effects(queue, (n - 1) as nat) + message_effects(queue[n - 1], n)
    }
}

/// The draft is redrawn on the bottom row.
pub open spec fn draft_effects(draft: Seq<char>, height: nat) -> Seq<EffectView> {
    seq![
        EffectView::MoveCursor { x: encode_utf8(draft).len(), y: height },
        EffectView::ClearLine,
        EffectView::Write(encode_utf8(draft)),
    ]
}

/// The writes of a render tick on a live session.
pub open spec fn live_effects(t: TunnelView, rows: nat) -> Seq<EffectView> {
    let height = viewport_height(rows);
    header_effects(t.username, t.height, height) + transcript_effects(
        t.queue,
        visible(t.queue.len(), height),
    ) + draft_effects(t.draft, height) + seq![EffectView::Flush]
}

/// The writes of a render tick once the session is over.
pub open spec fn final_effects() -> Seq<EffectView> {
    seq![EffectView::ClearLine, EffectView::Write(disconnected_notice()), EffectView::Flush]
}

/// The writes of a render tick.
pub open spec fn frame_effects(t: TunnelView, rows: nat) -> Seq<EffectView> {
    if t.alive {
        live_effects(t, rows)
    } else {
        final_effects()
    }
}

/// The session after a render tick.
pub open spec fn rendered(t: TunnelView, rows: nat) -> TunnelView {
    if t.alive {
        let height = viewport_height(rows);
        TunnelView {
            height,
            queue: delivered_prefix(t.queue, visible(t.queue.len(), height)),
            ..t
        }
    } else {
        t
    }
}

/// The text that an arrived chunk is shown as: the chunk, filled up with
/// zero bytes to the size of the read buffer, decoded leniently.
///
/// The stream carries no framing, and none is made up here. A chunk is one
/// message, so a text longer than the buffer arrives as several messages,
/// a character cut in two by the end of the buffer shows as U+FFFD, and a
/// chunk that does not fill the buffer shows with NUL characters behind it.
pub open spec fn chunk_text(bytes: Seq<u8>) -> Seq<char> {
    utf8_lossy(padded(bytes, CHUNK_LEN as nat))
}

/// The session after the peer has said `text`: on a live session the text
/// is a delivered message of the peer at the head of the queue.
pub open spec fn heard(t: TunnelView, text: Seq<char>) -> TunnelView {
    if t.alive {
        TunnelView {
            queue: enqueued(
                t.queue,
                t.height,
                MessageView { content: text, owner: peer_marker(), state: Delivery::Delivered },
            ),
            ..t
        }
    } else {
        t
    }
}

/// The session after one listener tick.
pub open spec fn received(t: TunnelView, arrival: ArrivalView) -> TunnelView {
    if !t.alive {
        t
    } else {
        match arrival {
            ArrivalView::Data(bytes) => if bytes.len() == 0 {
                TunnelView { alive: false, ..t }
            } else {
                heard(t, chunk_text(bytes))
            },
            ArrivalView::ConnectionReset | ArrivalView::ConnectionAborted | ArrivalView::TimedOut => TunnelView {
                alive: false,
                ..t
            },
            ArrivalView::WouldBlock | ArrivalView::Failed => t,
        }
    }
}

/// What one listener tick reports.
pub open spec fn reception(t: TunnelView, arrival: ArrivalView) -> Reception {
    if !t.alive {
        Reception::Disconnected
    } else {
        match arrival {
            ArrivalView::Data(bytes) => if bytes.len() == 0 {
                Reception::Disconnected
            } else {
                Reception::Enqueued
            },
            ArrivalView::ConnectionReset | ArrivalView::ConnectionAborted | ArrivalView::TimedOut => Reception::Disconnected,
            ArrivalView::WouldBlock => Reception::Idle,
            ArrivalView::Failed => Reception::Unexpected,
        }
    }
}

/// Whether the draft takes one more character, which is whitespace or not:
/// it does below its cap, unless whitespace would start it.
pub open spec fn accepts(draft: Seq<char>, whitespace: bool) -> bool {
    encode_utf8(draft).len() < DRAFT_CAP && (draft.len() > 0 || !whitespace)
}

/// The session after the character `c` was typed.
pub open spec fn typed_char(t: TunnelView, c: char, whitespace: bool) -> TunnelView {
    if t.alive && accepts(t.draft, whitespace) {
        TunnelView { draft: t.draft.push(c), ..t }
    } else {
        t
    }
}

/// The session after one keystroke.
pub open spec fn typed(t: TunnelView, key: Keystroke) -> TunnelView {
    if !t.alive {
        t
    } else {
        match key {
            Keystroke::Backspace => if t.draft.len() > 0 {
                TunnelView { draft: t.draft.drop_last(), ..t }
            } else {
                t
            },
            Keystroke::Char(c) => typed_char(t, c, white_space(c)),
            Keystroke::Enter => if t.draft.len() == 0 {
                t
            } else if t.draft == exit_command() {
                TunnelView { alive: false, ..t }
            } else {
                TunnelView {
                    queue: enqueued(
                        t.queue,
                        t.height,
                        MessageView {
                            content: t.draft,
                            owner: local_marker(),
                            state: Delivery::PendingSend,
                        },
                    ),
                    draft: Seq::empty(),
                    ..t
                }
            },
            Keystroke::Other => t,
        }
    }
}

/// The state of one session.
pub struct Tunnel {
    queue: Queue,
    msg: String,
    username: String,
    alive: bool,
}

impl View for Tunnel {
    type V = TunnelView;

    closed spec fn view(&self) -> TunnelView {
        TunnelView {
            username: self.username@,
            height: self.queue.limit(),
            queue: self.queue@,
            draft: self.msg@,
            alive: self.alive,
        }
    }
}

/// The line drawn for a message.
fn line(m: &Message) -> (out: Vec<u8>)
    ensures
        out@ == line_bytes(m@),
{
    let mut out = m.owner().as_bytes_vec();
    append_bytes(&mut out, " | ".as_bytes());
    append_bytes(&mut out, m.content().as_bytes());
    out
}

impl Tunnel {
    /// A live session with the peer called `username`: nothing queued,
    /// nothing typed, and a viewport of height zero until the first render
    /// tick measures the terminal.
    pub fn new(username: String) -> (t: Self)
        ensures
            t@ == (TunnelView {
                username: username@,
                height: 0,
                queue: Seq::empty(),
                draft: Seq::empty(),
                alive: true,
            }),
    {
        Self { queue: Queue::new(0), msg: String::new(), username, alive: true }
    }

    /// Whether the session is live.
    pub fn is_alive(&self) -> (alive: bool)
        ensures
            alive == self@.alive,
    {
        self.alive
    }

    /// The peer's name.
    pub fn username(&self) -> (name: &str)
        ensures
            name@ == self@.username,
    {
        self.username.as_str()
    }

    /// The line being typed.
    pub fn draft(&self) -> (draft: &str)
        ensures
            draft@ == self@.draft,
    {
        self.msg.as_str()
    }

    /// The viewport height as of the last render tick.
    pub fn height(&self) -> (height: usize)
        ensures
            height == self@.height,
    {
        self.queue.capacity()
    }

    /// The queue of the session.
    pub fn queue(&self) -> (queue: &Queue)
        ensures
            queue@ == self@.queue,
            queue.limit() == self@.height,
    {
        &self.queue
    }

    /// Ends the session. This is for the driver to call when the render
    /// loop has failed: that loop owns the only write path to the peer, so
    /// the session cannot go on without it.
    pub fn shutdown(&mut self)
        ensures
            final(self)@ == (TunnelView { alive: false, ..old(self)@ }),
    {
        self.alive = false;
    }

    /// Takes a chunk from the peer that has been decoded as `text`: on a
    /// live session it becomes a delivered message of the peer at the head
    /// of the queue. A session that is over ignores it.
    pub fn hear(&mut self, text: &str)
        ensures
            final(self)@ == heard(old(self)@, text@),
    {
        if self.alive {
            self.queue.enqueue(text, "~", Delivery::Delivered);
        }
    }

    /// One listener tick: takes the outcome of one read of up to
    /// [`CHUNK_LEN`] bytes from the peer.
    ///
    /// Data becomes a delivered message of the peer at the head of the
    /// queue. A closed, reset, aborted or timed-out connection ends the
    /// session. Any other error is left for the caller to report, and the
    /// loop goes on. A session that is over ignores every outcome.
    pub fn receive(&mut self, arrival: &Arrival) -> (done: Reception)
        ensures
            final(self)@ == received(old(self)@, arrival@),
            done == reception(old(self)@, arrival@),
    {
        if !self.alive {
            return Reception::Disconnected;
        }
        match arrival {
            Arrival::Data(bytes) => {
                if bytes.len() == 0 {
                    self.alive = false;
                    Reception::Disconnected
                } else {
                    let buffer = pad(bytes.as_slice(), CHUNK_LEN);
                    let text = from_utf8_lossy(buffer.as_slice());
                    self.hear(text.as_str());
                    Reception::Enqueued
                }
            },
            Arrival::ConnectionReset | Arrival::ConnectionAborted | Arrival::TimedOut => {
                self.alive = false;
                Reception::Disconnected
            },
            Arrival::WouldBlock => Reception::Idle,
            Arrival::Failed => Reception::Unexpected,
        }
    }

    /// Takes a typed character, of which the caller says whether it is
    /// whitespace. It is appended to the draft while the draft is shorter
    /// than [`DRAFT_CAP`] bytes, unless it is whitespace that would start
    /// the draft. A session that is over ignores it.
    pub fn type_char(&mut self, c: char, whitespace: bool)
        ensures
            final(self)@ == typed_char(old(self)@, c, whitespace),
    {
        if self.alive && self.msg.as_str().as_bytes().len() < DRAFT_CAP && (
        !self.msg.as_str().is_empty() || !whitespace) {
            self.msg.push(c);
        }
    }

    /// One keystroke of the input loop. Returns whether the loop goes on.
    ///
    /// Backspace removes the last character of the draft. A character is
    /// appended while the draft is shorter than [`DRAFT_CAP`] bytes, unless
    /// it is whitespace that would start the draft. Enter on the draft
    /// `exit` ends the session; on any other non-empty draft it enqueues the
    /// draft as a pending message of the local user and clears it. A session
    /// that is over ignores every key.
    pub fn keystroke(&mut self, key: Keystroke) -> (proceed: bool)
        ensures
            final(self)@ == typed(old(self)@, key),
            proceed == final(self)@.alive,
    {
        if !self.alive {
            return false;
        }
        match key {
            Keystroke::Backspace => {
                self.msg.pop();
            },
            Keystroke::Char(c) => {
                self.type_char(c, c.is_whitespace());
            },
            Keystroke::Enter => {
                if !self.msg.as_str().is_empty() {
                    if same_text(self.msg.as_str(), "exit") {
                        self.alive = false;
                    } else {
                        self.queue.enqueue(self.msg.as_str(), "o", Delivery::PendingSend);
                        self.msg.clear();
                    }
                }
            },
            Keystroke::Other => {},
        }
        self.alive
    }

    /// One render tick for a terminal of `rows` rows.
    ///
    /// On a live session the viewport height, and with it the queue's
    /// capacity, becomes `rows - 1`; the header is redrawn if that is a
    /// change. The queue is then visited head to tail, as far as there are
    /// rows between the header and the draft: each visited message that is
    /// still pending is marked as sent and transmitted, and each is drawn on
    /// the next row. Last come the draft, on the bottom row, and a flush.
    ///
    /// Once the session is over the frame shows the disconnected notice and
    /// tells the loop to stop; the session is left as it is.
    pub fn render(&mut self, rows: u16) -> (frame: Frame)
        ensures
            final(self)@ == rendered(old(self)@, rows as nat),
            effect_views(frame.effects@) == frame_effects(old(self)@, rows as nat),
            frame.proceed == old(self)@.alive,
    {
        let mut effects: Vec<Effect> = Vec::new();
        if !self.alive {
            effects.push(Effect::ClearLine);
            effects.push(Effect::Write("Disconnected".as_bytes_vec()));
            effects.push(Effect::Flush);
            assert(effect_views(effects@) =~= final_effects());
            return Frame { effects, proceed: false };
        }
        let height: usize = if rows == 0 {
            0
        } else {
            (rows - 1) as usize
        };
        if height != self.queue.capacity() {
            effects.push(Effect::ClearScreen);
            effects.push(Effect::MoveCursor { x: 0, y: 0 });
            effects.push(Effect::Write(self.username.as_str().as_bytes_vec()));
        }
        let ghost before = self@;
        let ghost header = header_effects(before.username, before.height, height as nat);
        assert(effect_views(effects@) =~= header);
        self.queue.set_capacity(height);
        let usable: usize = if height == 0 {
            0
        } else {
            height - 1
        };
        let shown: usize = if self.queue.len() < usable {
            self.queue.len()
        } else {
            usable
        };
        assert(shown == visible(before.queue.len(), height as nat));
        assert(self.queue@ =~= delivered_prefix(before.queue, 0));
        let mut k: usize = 0;
        while k < shown
            invariant
                k <= shown <= before.queue.len(),
                shown <= height,
                self.queue@ == delivered_prefix(before.queue, k as nat),
                self.queue.limit() == height,
                self.alive,
                self.msg@ == before.draft,
                self.username@ == before.username,
                effect_views(effects@) == header + transcript_effects(before.queue, k as nat),
            decreases shown - k,
        {
            let ghost drawn = effect_views(effects@);
            let ghost m = before.queue[k as int];
            match self.queue.iter_mut(k) {
                Some(entry) => {
                    if entry.undraft() {
                        effects.push(Effect::Send(entry.content().as_bytes_vec()));
                    }
                    effects.push(Effect::MoveCursor { x: 0, y: k + 1 });
                    effects.push(Effect::ClearLine);
                    effects.push(Effect::Write(line(entry)));
                },
                None => {},
            }
            assert(line_bytes(m.delivered()) == line_bytes(m));
            assert(effect_views(effects@) =~= drawn + message_effects(m, (k + 1) as nat));
            assert(self.queue@ =~= delivered_prefix(before.queue, (k + 1) as nat));
            k += 1;
        }
        let ghost body = effect_views(effects@);
        effects.push(Effect::MoveCursor { x: self.msg.as_str().as_bytes().len(), y: height });
        effects.push(Effect::ClearLine);
        effects.push(Effect::Write(self.msg.as_str().as_bytes_vec()));
        effects.push(Effect::Flush);
        assert(effect_views(effects@) =~= body + draft_effects(before.draft, height as nat)
            + seq![EffectView::Flush]);
        Frame { effects, proceed: true }
    }
}

} // verus!
