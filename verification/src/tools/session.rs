//! What holds of a session over any run of events.
//!
//! A session is driven by three kinds of events: a keystroke, the outcome
//! of a read from the peer, and a render tick. The functions here replay a
//! run of events on a [`TunnelView`] and collect what the run transmits to
//! the peer, and the proofs state what no run can do: transmit a message
//! more often than it was authored, or revive a session that is over.

use super::message::{Delivery, MessageView};
use super::queue::enqueued;
use super::tunnel::{
    chunk_text, delivered_prefix, draft_effects, exit_command, final_effects, frame_effects,
    header_effects, line_bytes, live_effects, local_marker, message_effects, peer_marker, received,
    rendered, transcript_effects, typed, viewport_height, visible, ArrivalView, EffectView,
    Keystroke, TunnelView,
};
use vstd::prelude::*;
use vstd::utf8::encode_utf8;

verus! {

/// One event of a session.
pub enum Event {
    /// A key was typed.
    Key(Keystroke),
    /// A read from the peer ended.
    Read(ArrivalView),
    /// A render tick, on a terminal of this many rows.
    Tick(nat),
}

/// The session after one event.
pub open spec fn after(t: TunnelView, e: Event) -> TunnelView {
    match e {
        Event::Key(key) => typed(t, key),
        Event::Read(arrival) => received(t, arrival),
        Event::Tick(rows) => rendered(t, rows),
    }
}

/// The session after a run of events.
pub open spec fn after_all(t: TunnelView, events: Seq<Event>) -> TunnelView
    decreases events.len(),
{
    if events.len() == 0 {
        t
    } else {
        after_all(after(t, events.first()), events.drop_first())
    }
}

/// The payloads that a run of effects transmits to the peer, in order.
pub open spec fn outbound(effects: Seq<EffectView>) -> Seq<Seq<u8>>
    decreases effects.len(),
{
    if effects.len() == 0 {
        seq![]
    } else {
        outbound(effects.drop_last()) + match effects.last() {
            EffectView::Send(bytes) => seq![bytes],
            _ => seq![],
        }
    }
}

/// The contents of the messages of `queue` that are still pending, in
/// order.
pub open spec fn pending(queue: Seq<MessageView>) -> Seq<Seq<u8>>
    decreases queue.len(),
{
    if queue.len() == 0 {
        seq![]
    } else {
        pending(queue.drop_last()) + if queue.last().state == Delivery::PendingSend {
            seq![encode_utf8(queue.last().content)]
        } else {
            seq![]
        }
    }
}

/// What one event transmits to the peer.
pub open spec fn sent(t: TunnelView, e: Event) -> Seq<Seq<u8>> {
    match e {
        Event::Tick(rows) => outbound(frame_effects(t, rows)),
        _ => seq![],
    }
}

/// What a run of events transmits to the peer, in order.
pub open spec fn sent_all(t: TunnelView, events: Seq<Event>) -> Seq<Seq<u8>>
    decreases events.len(),
{
    if events.len() == 0 {
        seq![]
    } else {
        sent(t, events.first()) + sent_all(after(t, events.first()), events.drop_first())
    }
}

/// Whether the event is an Enter that turns the draft into a message.
pub open spec fn authors(t: TunnelView, e: Event) -> bool {
    t.alive && e == Event::Key(Keystroke::Enter) && t.draft.len() > 0 && t.draft != exit_command()
}

/// The content that one event authors, if it authors any.
pub open spec fn authored(t: TunnelView, e: Event) -> Seq<Seq<u8>> {
    if authors(t, e) {
        seq![encode_utf8(t.draft)]
    } else {
        seq![]
    }
}

/// The contents that the local user authors in a run of events, in order.
pub open spec fn authored_all(t: TunnelView, events: Seq<Event>) -> Seq<Seq<u8>>
    decreases events.len(),
{
    if events.len() == 0 {
        seq![]
    } else {
        authored(t, events.first()) + authored_all(after(t, events.first()), events.drop_first())
    }
}

/// How often `payload` occurs in `payloads`.
pub open spec fn occurrences(payloads: Seq<Seq<u8>>, payload: Seq<u8>) -> nat
    decreases payloads.len(),
{
    if payloads.len() == 0 {
        0
    } else {
        occurrences(payloads.drop_last(), payload) + if payloads.last() == payload {
            1nat
        } else {
            0nat
        }
    }
}

/// Counting distributes over concatenation.
proof fn lemma_occurrences_concat(a: Seq<Seq<u8>>, b: Seq<Seq<u8>>, payload: Seq<u8>)
    ensures
        occurrences(a + b, payload) == occurrences(a, payload) + occurrences(b, payload),
    decreases b.len(),
{
    if b.len() == 0 {
        assert(a + b =~= a);
    } else {
        lemma_occurrences_concat(a, b.drop_last(), payload);
        assert((a + b).drop_last() =~= a + b.drop_last());
    }
}

/// What two runs of effects transmit is what the one transmits, then what
/// the other does.
proof fn lemma_outbound_concat(a: Seq<EffectView>, b: Seq<EffectView>)
    ensures
        outbound(a + b) == outbound(a) + outbound(b),
    decreases b.len(),
{
    if b.len() == 0 {
        assert(a + b =~= a);
    } else {
        lemma_outbound_concat(a, b.drop_last());
        assert((a + b).drop_last() =~= a + b.drop_last());
    }
}

/// What is pending in two runs of messages is what is pending in the one,
/// then what is pending in the other.
proof fn lemma_pending_concat(a: Seq<MessageView>, b: Seq<MessageView>)
    ensures
        pending(a + b) == pending(a) + pending(b),
    decreases b.len(),
{
    if b.len() == 0 {
        assert(a + b =~= a);
    } else {
        lemma_pending_concat(a, b.drop_last());
        assert((a + b).drop_last() =~= a + b.drop_last());
    }
}

/// The three writes that draw a message transmit nothing; its
/// transmission, if it is pending, is the one payload.
proof fn lemma_outbound_message(m: MessageView, row: nat)
    ensures
        outbound(message_effects(m, row)) == pending(seq![m]),
{
    reveal_with_fuel(outbound, 5);
    reveal_with_fuel(pending, 2);
    let drawn = seq![
        EffectView::MoveCursor { x: 0, y: row },
        EffectView::ClearLine,
        EffectView::Write(line_bytes(m)),
    ];
    assert(outbound(drawn) =~= seq![]) by {
        assert(drawn.drop_last().drop_last().drop_last() =~= seq![]);
    }
    assert(seq![m].drop_last() =~= seq![]);
    if m.state == Delivery::PendingSend {
        let send = seq![EffectView::Send(encode_utf8(m.content))];
        assert(send.drop_last() =~= seq![]);
        assert(outbound(send) =~= seq![encode_utf8(m.content)]);
        lemma_outbound_concat(send, drawn);
    } else {
        assert(seq![] + drawn =~= drawn);
    }
}

/// Visiting the first `n` messages transmits the pending ones among them,
/// head first.
proof fn lemma_outbound_transcript(queue: Seq<MessageView>, n: nat)
    requires
        n <= queue.len(),
    ensures
        outbound(transcript_effects(queue, n)) == pending(queue.take(n as int)),
    decreases n,
{
    if n == 0 {
        assert(queue.take(0) =~= seq![]);
    } else {
        let m = queue[n - 1];
        lemma_outbound_transcript(queue, (n - 1) as nat);
        lemma_outbound_message(m, n);
        lemma_outbound_concat(transcript_effects(queue, (n - 1) as nat), message_effects(m, n));
        assert(queue.take(n as int) =~= queue.take(n - 1) + seq![m]);
        lemma_pending_concat(queue.take(n - 1), seq![m]);
    }
}

/// A queue of delivered messages has nothing pending.
proof fn lemma_pending_all_delivered(queue: Seq<MessageView>)
    requires
        forall|i: int| 0 <= i < queue.len() ==> queue[i].state == Delivery::Delivered,
    ensures
        pending(queue) == Seq::<Seq<u8>>::empty(),
    decreases queue.len(),
{
    if queue.len() > 0 {
        lemma_pending_all_delivered(queue.drop_last());
    }
}

/// Once its first `n` messages are marked, a queue has pending only what
/// was pending behind them.
proof fn lemma_pending_delivered(queue: Seq<MessageView>, n: nat)
    requires
        n <= queue.len(),
    ensures
        pending(delivered_prefix(queue, n)) == pending(queue.skip(n as int)),
{
    let marked = delivered_prefix(queue, n);
    let head = marked.take(n as int);
    let tail = queue.skip(n as int);
    assert(marked =~= head + tail);
    lemma_pending_concat(head, tail);
    lemma_pending_all_delivered(head);
    assert(pending(head) + pending(tail) =~= pending(tail));
}

/// Exactly once per tick. A render tick on a live session transmits the
/// contents of the pending messages among those it visits, head first, and
/// nothing else; and it leaves none of the visited messages pending, so
/// that no later tick transmits them again.
pub proof fn lemma_tick_sends_pending(t: TunnelView, rows: nat)
    requires
        t.alive,
    ensures
        ({
            let n = visible(t.queue.len(), viewport_height(rows));
            &&& outbound(frame_effects(t, rows)) == pending(t.queue.take(n as int))
            &&& pending(rendered(t, rows).queue) == pending(t.queue.skip(n as int))
            &&& pending(rendered(t, rows).queue.take(n as int)) == Seq::<Seq<u8>>::empty()
        }),
{
    let height = viewport_height(rows);
    let n = visible(t.queue.len(), height);
    let header = header_effects(t.username, t.height, height);
    let body = transcript_effects(t.queue, n);
    let draft = draft_effects(t.draft, height);
    let flush = seq![EffectView::Flush];
    reveal_with_fuel(outbound, 5);
    assert(outbound(header) =~= seq![]) by {
        if t.height != height {
            assert(header.drop_last().drop_last().drop_last() =~= seq![]);
        }
    }
    assert(outbound(draft) =~= seq![]) by {
        assert(draft.drop_last().drop_last().drop_last() =~= seq![]);
    }
    assert(outbound(flush) =~= seq![]) by {
        assert(flush.drop_last() =~= seq![]);
    }
    lemma_outbound_transcript(t.queue, n);
    lemma_outbound_concat(header, body);
    lemma_outbound_concat(header + body, draft);
    lemma_outbound_concat(header + body + draft, flush);
    assert(outbound(live_effects(t, rows)) =~= pending(t.queue.take(n as int)));
    lemma_pending_delivered(t.queue, n);
    lemma_pending_all_delivered(delivered_prefix(t.queue, n).take(n as int));
}

/// A tick that follows a tick on a terminal that has not grown transmits
/// nothing.
pub proof fn lemma_second_tick_sends_nothing(t: TunnelView, rows: nat, again: nat)
    requires
        again <= rows,
    ensures
        outbound(frame_effects(rendered(t, rows), again)) == Seq::<Seq<u8>>::empty(),
{
    reveal_with_fuel(outbound, 5);
    if t.alive {
        let first = rendered(t, rows);
        let n = visible(t.queue.len(), viewport_height(rows));
        let m = visible(first.queue.len(), viewport_height(again));
        lemma_tick_sends_pending(first, again);
        assert(forall|i: int| 0 <= i < m ==> first.queue.take(m as int)[i].state
            == Delivery::Delivered);
        lemma_pending_all_delivered(first.queue.take(m as int));
    } else {
        let notice = final_effects();
        assert(notice.drop_last().drop_last().drop_last() =~= seq![]);
    }
}

/// Where nothing is pending, nothing is pending in any part.
proof fn lemma_pending_nowhere(queue: Seq<MessageView>, from: int, to: int)
    requires
        0 <= from <= to <= queue.len(),
        pending(queue) == Seq::<Seq<u8>>::empty(),
    ensures
        pending(queue.subrange(from, to)) == Seq::<Seq<u8>>::empty(),
{
    let front = queue.subrange(0, from);
    let part = queue.subrange(from, to);
    let back = queue.subrange(to, queue.len() as int);
    assert(queue =~= front + part + back);
    lemma_pending_concat(front + part, back);
    lemma_pending_concat(front, part);
    assert((pending(front) + pending(part) + pending(back)).len() == 0);
    assert(pending(part) =~= Seq::<Seq<u8>>::empty());
}

/// Exactly once, where nothing stands in the way. In a live session with
/// room for a message and nothing pending, a line that the user enters is
/// transmitted by the next render tick on a terminal of three rows or more:
/// that tick transmits the line and nothing else, and leaves nothing
/// pending.
pub proof fn lemma_entered_line_is_sent_once(t: TunnelView, rows: nat)
    requires
        t.alive,
        t.height >= 1,
        rows >= 3,
        pending(t.queue) == Seq::<Seq<u8>>::empty(),
        t.draft.len() > 0,
        t.draft != exit_command(),
    ensures
        ({
            let run = seq![Event::Key(Keystroke::Enter), Event::Tick(rows)];
            &&& sent_all(t, run) == seq![encode_utf8(t.draft)]
            &&& pending(after_all(t, run).queue) == Seq::<Seq<u8>>::empty()
        }),
{
    let run = seq![Event::Key(Keystroke::Enter), Event::Tick(rows)];
    let m = MessageView { content: t.draft, owner: local_marker(), state: Delivery::PendingSend };
    let entered = typed(t, Keystroke::Enter);
    let kept = if t.queue.len() == t.height {
        t.queue.drop_last()
    } else {
        t.queue
    };
    assert(entered.queue =~= seq![m] + kept);
    assert(kept =~= t.queue.subrange(0, kept.len() as int));
    let n = visible(entered.queue.len(), viewport_height(rows));
    assert(n >= 1);
    lemma_tick_sends_pending(entered, rows);
    assert(entered.queue.take(n as int) =~= seq![m] + kept.subrange(0, n - 1));
    assert(entered.queue.skip(n as int) =~= kept.subrange(n - 1, kept.len() as int));
    lemma_pending_nowhere(t.queue, 0, n - 1);
    lemma_pending_nowhere(t.queue, n - 1, kept.len() as int);
    assert(kept.subrange(0, n - 1) =~= t.queue.subrange(0, n - 1));
    assert(kept.subrange(n - 1, kept.len() as int) =~= t.queue.subrange(n - 1, kept.len() as int));
    lemma_pending_concat(seq![m], kept.subrange(0, n - 1));
    assert(pending(seq![m]) =~= seq![encode_utf8(t.draft)]) by {
        reveal_with_fuel(pending, 2);
        assert(seq![m].drop_last() =~= Seq::<MessageView>::empty());
    }
    assert(run.drop_first() =~= seq![Event::Tick(rows)]);
    assert(run.drop_first().drop_first() =~= Seq::<Event>::empty());
    reveal_with_fuel(sent_all, 3);
    reveal_with_fuel(after_all, 3);
    assert(sent_all(t, run) =~= seq![encode_utf8(t.draft)]);
}

/// Dropping the tail of a queue drops at most one pending content.
proof fn lemma_pending_drop_last(queue: Seq<MessageView>, payload: Seq<u8>)
    requires
        queue.len() > 0,
    ensures
        occurrences(pending(queue.drop_last()), payload) <= occurrences(pending(queue), payload),
{
    let last = if queue.last().state == Delivery::PendingSend {
        seq![encode_utf8(queue.last().content)]
    } else {
        seq![]
    };
    lemma_occurrences_concat(pending(queue.drop_last()), last, payload);
}

/// An insertion adds at most the new message to what is pending.
proof fn lemma_pending_enqueued(
    queue: Seq<MessageView>,
    capacity: nat,
    m: MessageView,
    payload: Seq<u8>,
)
    ensures
        occurrences(pending(enqueued(queue, capacity, m)), payload) <= occurrences(
            pending(seq![m]),
            payload,
        ) + occurrences(pending(queue), payload),
{
    let pushed = seq![m] + queue;
    lemma_pending_concat(seq![m], queue);
    lemma_occurrences_concat(pending(seq![m]), pending(queue), payload);
    if queue.len() == capacity {
        lemma_pending_drop_last(pushed, payload);
    }
}

/// One event transmits, and leaves pending, no more than was pending
/// before it and what it authors.
proof fn lemma_step_at_most_once(t: TunnelView, e: Event, payload: Seq<u8>)
    ensures
        occurrences(sent(t, e), payload) + occurrences(pending(after(t, e).queue), payload)
            <= occurrences(pending(t.queue), payload) + occurrences(authored(t, e), payload),
{
    reveal_with_fuel(outbound, 5);
    reveal_with_fuel(pending, 2);
    reveal_with_fuel(occurrences, 2);
    match e {
        Event::Tick(rows) => {
            if t.alive {
                let n = visible(t.queue.len(), viewport_height(rows));
                lemma_tick_sends_pending(t, rows);
                assert(t.queue =~= t.queue.take(n as int) + t.queue.skip(n as int));
                lemma_pending_concat(t.queue.take(n as int), t.queue.skip(n as int));
                lemma_occurrences_concat(
                    pending(t.queue.take(n as int)),
                    pending(t.queue.skip(n as int)),
                    payload,
                );
            } else {
                let notice = final_effects();
                assert(notice.drop_last().drop_last().drop_last() =~= seq![]);
            }
        },
        Event::Read(arrival) => {
            if t.alive {
                match arrival {
                    ArrivalView::Data(bytes) => {
                        if bytes.len() > 0 {
                            let m = MessageView {
                                content: chunk_text(bytes),
                                owner: peer_marker(),
                                state: Delivery::Delivered,
                            };
                            lemma_pending_enqueued(t.queue, t.height, m, payload);
                            assert(seq![m].drop_last() =~= seq![]);
                        }
                    },
                    _ => {},
                }
            }
        },
        Event::Key(key) => {
            if authors(t, e) {
                let m = MessageView {
                    content: t.draft,
                    owner: local_marker(),
                    state: Delivery::PendingSend,
                };
                lemma_pending_enqueued(t.queue, t.height, m, payload);
                assert(seq![m].drop_last() =~= seq![]);
                assert(pending(seq![m]) =~= seq![encode_utf8(t.draft)]);
            }
        },
    }
}

/// At most once. Over any run of events, no content is transmitted more
/// often than it was authored: counted one by one, what the run transmits
/// and what it leaves pending is no more than what was pending at the start
/// and what the local user authored during the run.
pub proof fn lemma_at_most_once(t: TunnelView, events: Seq<Event>, payload: Seq<u8>)
    ensures
        occurrences(sent_all(t, events), payload) + occurrences(
            pending(after_all(t, events).queue),
            payload,
        ) <= occurrences(pending(t.queue), payload) + occurrences(
            authored_all(t, events),
            payload,
        ),
    decreases events.len(),
{
    if events.len() > 0 {
        let e = events.first();
        let rest = events.drop_first();
        lemma_step_at_most_once(t, e, payload);
        lemma_at_most_once(after(t, e), rest, payload);
        lemma_occurrences_concat(sent(t, e), sent_all(after(t, e), rest), payload);
        lemma_occurrences_concat(authored(t, e), authored_all(after(t, e), rest), payload);
    }
}

/// Idempotent shutdown. Once a session is over, no event changes it: it
/// stays over, every render tick draws the disconnected notice and nothing
/// else, and nothing is transmitted any more.
pub proof fn lemma_shutdown_is_final(t: TunnelView, events: Seq<Event>)
    requires
        !t.alive,
    ensures
        after_all(t, events) == t,
        sent_all(t, events) == Seq::<Seq<u8>>::empty(),
        forall|rows: nat| frame_effects(after_all(t, events), rows) == final_effects(),
    decreases events.len(),
{
    reveal_with_fuel(outbound, 5);
    if events.len() > 0 {
        let notice = final_effects();
        assert(notice.drop_last().drop_last().drop_last() =~= seq![]);
        assert(after(t, events.first()) == t);
        lemma_shutdown_is_final(t, events.drop_first());
    }
}

/// No event revives a session.
pub proof fn lemma_alive_never_returns(t: TunnelView, e: Event)
    ensures
        after(t, e).alive ==> t.alive,
{
}

} // verus!
