//! A unit of chat text with a one-shot pending/delivered state.

use vstd::prelude::*;

verus! {

/// Whether a message still has to be forwarded to the peer.
#[derive(Clone, Copy, Debug, PartialEq, Eq, Structural)]
pub enum Delivery {
    /// Authored locally and not yet written to the outbound stream.
    PendingSend,
    /// Nothing further to do: it arrived from the peer, or was already sent.
    Delivered,
}

/// The mathematical value of a [`Message`].
pub struct MessageView {
    pub content: Seq<char>,
    pub owner: Seq<char>,
    pub state: Delivery,
}

impl MessageView {
    /// The same text and owner, with nothing left to forward.
    pub open spec fn delivered(self) -> MessageView {
        MessageView { content: self.content, owner: self.owner, state: Delivery::Delivered }
    }
}

/// An immutable text unit tagged with an owner label.
///
/// Only the delivery state ever changes, and only from `PendingSend` to
/// `Delivered`.
#[derive(Clone, Debug)]
pub struct Message {
    content: String,
    owner: String,
    state: Delivery,
}

impl View for Message {
    type V = MessageView;

    closed spec fn view(&self) -> MessageView {
        MessageView { content: self.content@, owner: self.owner@, state: self.state }
    }
}

impl Message {
    /// Builds a message from its text, its owner label and its initial state.
    pub fn new(s: &str, owner: &str, state: Delivery) -> (m: Self)
        ensures
            m@ == (MessageView { content: s@, owner: owner@, state }),
    {
        Self { content: s.to_owned(), owner: owner.to_owned(), state }
    }

    /// The text of the message.
    pub fn content(&self) -> (s: &str)
        ensures
            s@ == self@.content,
    {
        self.content.as_str()
    }

    /// The label of whoever authored the message.
    pub fn owner(&self) -> (s: &str)
        ensures
            s@ == self@.owner,
    {
        self.owner.as_str()
    }

    /// The current delivery state.
    pub fn state(&self) -> (d: Delivery)
        ensures
            d == self@.state,
    {
        self.state
    }

    /// Marks the message as sent.
    ///
    /// Reports `true` exactly when the message was still pending, in which
    /// case the caller owes the peer one transmission of its content. The
    /// message is `Delivered` afterwards in every case, so a second call
    /// reports `false`.
    pub fn undraft(&mut self) -> (fired: bool)
        ensures
            fired == (old(self)@.state == Delivery::PendingSend),
            final(self)@ == old(self)@.delivered(),
    {
        match self.state {
            Delivery::PendingSend => {
                self.state = Delivery::Delivered;
                true
            },
            Delivery::Delivered => false,
        }
    }
}

} // verus!
