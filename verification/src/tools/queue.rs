//! A bounded, most-recent-first buffer of messages.
//!
//! The queue is both the chat transcript and the send queue of a session: a
//! message enters at the head and leaves only by eviction at the tail.

use super::message::{Delivery, Message, MessageView};
use std::collections::VecDeque;
use vstd::prelude::*;

verus! {

/// The queue that `enqueue` leaves behind: the new entry at the head, and the
/// tail entry gone when the queue already held `capacity` entries.
pub open spec fn enqueued(queue: Seq<MessageView>, capacity: nat, m: MessageView) -> Seq<
    MessageView,
> {
    let pushed = seq![m] + queue;
    if queue.len() == capacity {
        pushed.drop_last()
    } else {
        pushed
    }
}

/// The queue after enqueueing `arrivals` one by one, first arrival first.
pub open spec fn enqueued_all(
    queue: Seq<MessageView>,
    capacity: nat,
    arrivals: Seq<MessageView>,
) -> Seq<MessageView>
    decreases arrivals.len(),
{
    if arrivals.len() == 0 {
        queue
    } else {
        enqueued(enqueued_all(queue, capacity, arrivals.drop_last()), capacity, arrivals.last())
    }
}

/// The smaller of two numbers.
pub open spec fn least(a: nat, b: nat) -> nat {
    if a < b {
        a
    } else {
        b
    }
}

/// Bounded display. A queue that holds no more than its capacity never
/// comes to hold more, whatever is enqueued, and what it holds is the most
/// recent: the arrivals, latest first, followed by the earlier entries, cut
/// off at the capacity. Once as many as `capacity` have arrived, the queue
/// holds exactly the `capacity` most recent arrivals, most recent first.
pub proof fn lemma_bounded_display(
    queue: Seq<MessageView>,
    capacity: nat,
    arrivals: Seq<MessageView>,
)
    requires
        queue.len() <= capacity,
    ensures
        enqueued_all(queue, capacity, arrivals).len() <= capacity,
        enqueued_all(queue, capacity, arrivals) == (arrivals.reverse() + queue).take(
            least(arrivals.len() + queue.len(), capacity) as int,
        ),
        arrivals.len() >= capacity ==> enqueued_all(queue, capacity, arrivals)
            == arrivals.reverse().take(capacity as int),
    decreases arrivals.len(),
{
    let all = arrivals.reverse() + queue;
    if arrivals.len() == 0 {
        assert(all.take(queue.len() as int) =~= queue);
    } else {
        let earlier = arrivals.drop_last();
        let before = enqueued_all(queue, capacity, earlier);
        lemma_bounded_display(queue, capacity, earlier);
        let kept = least(earlier.len() + queue.len(), capacity);
        assert(before == (earlier.reverse() + queue).take(kept as int));
        assert(all =~= seq![arrivals.last()] + (earlier.reverse() + queue));
        assert(enqueued(before, capacity, arrivals.last()) =~= all.take(
            least(arrivals.len() + queue.len(), capacity) as int,
        ));
    }
    if arrivals.len() >= capacity {
        assert(all.take(capacity as int) =~= arrivals.reverse().take(capacity as int));
    }
}

/// The values of a run of messages, in order.
pub open spec fn views(messages: Seq<Message>) -> Seq<MessageView> {
    messages.map_values(|m: Message| m@)
}

/// `VecDeque::get_mut`: a mutable borrow of the element at `index`, counted
/// from the front, or `None` when `index` is out of bounds. Writing through
/// the borrow replaces that element and no other.
#[verifier::external_body]
fn get_mut(data: &mut VecDeque<Message>, index: usize) -> (slot: Option<&mut Message>)
    ensures
        index >= old(data)@.len() ==> slot.is_none() && final(data)@ == old(data)@,
        index < old(data)@.len() ==> slot.is_some() && *slot.unwrap() == old(data)@[index as int]
            && final(data)@ == old(data)@.update(index as int, *final(slot.unwrap())),
{
    data.get_mut(index)
}

/// An ordered run of messages, newest first, with a capacity that the owner
/// may change at any time.
///
/// The capacity is consulted only on insertion: an insertion into a queue
/// that holds exactly `capacity` entries evicts the oldest one.
pub struct Queue {
    data: VecDeque<Message>,
    capacity: usize,
}

impl View for Queue {
    type V = Seq<MessageView>;

    /// The entries from head (most recent) to tail (oldest).
    closed spec fn view(&self) -> Seq<MessageView> {
        views(self.data@)
    }
}

impl Queue {
    /// The capacity that the next insertion will be held against.
    pub closed spec fn limit(&self) -> nat {
        self.capacity as nat
    }

    /// An empty queue with the given capacity.
    pub fn new(capacity: usize) -> (q: Self)
        ensures
            q@ == Seq::<MessageView>::empty(),
            q.limit() == capacity,
    {
        let q = Self { data: VecDeque::new(), capacity };
        assert(q@ =~= Seq::<MessageView>::empty());
        q
    }

    /// The current capacity.
    pub fn capacity(&self) -> (c: usize)
        ensures
            c == self.limit(),
    {
        self.capacity
    }

    /// Replaces the capacity. The entries stay as they are, also where they
    /// are more than the new capacity.
    pub fn set_capacity(&mut self, capacity: usize)
        ensures
            final(self)@ == old(self)@,
            final(self).limit() == capacity,
    {
        self.capacity = capacity;
    }

    /// The number of entries.
    pub fn len(&self) -> (n: usize)
        ensures
            n == self@.len(),
    {
        self.data.len()
    }

    /// Creates a message and inserts it at the head. If the queue held
    /// exactly `capacity` entries before, the tail entry is removed.
    pub fn enqueue(&mut self, s: &str, owner: &str, state: Delivery)
        ensures
            final(self)@ == enqueued(
                old(self)@,
                old(self).limit(),
                MessageView { content: s@, owner: owner@, state },
            ),
            final(self).limit() == old(self).limit(),
    {
        let n = self.data.len();
        let m = Message::new(s, owner, state);
        let ghost pushed = seq![m@] + self@;
        self.data.push_front(m);
        assert(self@ =~= pushed);
        if n == self.capacity {
            self.data.pop_back();
            assert(self@ =~= pushed.drop_last());
        }
    }

    /// The entry at `index`, counted from the head, or `None` past the tail.
    pub fn get(&self, index: usize) -> (entry: Option<&Message>)
        ensures
            index < self@.len() ==> entry.is_some() && entry.unwrap()@ == self@[index as int],
            index >= self@.len() ==> entry.is_none(),
    {
        if index < self.data.len() {
            Some(&self.data[index])
        } else {
            None
        }
    }

    /// A mutable borrow of the entry at `index`, counted from the head, or
    /// `None` past the tail. Visiting the indices upwards from zero walks the
    /// queue head to tail; what the caller writes through the borrow lands in
    /// that entry and leaves every other entry, and the order, untouched.
    pub fn iter_mut(&mut self, index: usize) -> (slot: Option<&mut Message>)
        ensures
            index >= old(self)@.len() ==> slot.is_none() && final(self)@ == old(self)@,
            index < old(self)@.len() ==> slot.is_some() && slot.unwrap()@ == old(self)@[index as int]
                && final(self)@ == old(self)@.update(index as int, final(slot.unwrap())@),
            final(self).limit() == old(self).limit(),
    {
        let slot = get_mut(&mut self.data, index);
        proof {
            if index < old(self)@.len() {
                assert(views(old(self).data@.update(index as int, *final(slot.unwrap())))
                    =~= old(self)@.update(index as int, final(slot.unwrap())@));
            }
        }
        slot
    }
}

} // verus!
