//! The two ends of the channel in which a pool keeps its free buffers.
//!
//! Each end knows its channel, and the sending end also what went through it. An
//! end of which that is not known can be made of any end of a channel; what is
//! known of one comes only from the calls that make a channel, clone its sending
//! end, or send.

use std::sync::mpsc::{Receiver, Sender};

use vstd::prelude::*;

verus! {

/// The end through which buffers go back.
pub struct Outbox {
    sender: Sender<Vec<u8>>,
    channel: Ghost<int>,
    sent: Ghost<Seq<Seq<u8>>>,
}

impl Outbox {
    /// The channel that this is an end of.
    pub closed spec fn channel(self) -> int {
        self.channel@
    }

    /// The bytes of each buffer that went through this end, in their order.
    pub closed spec fn sent(self) -> Seq<Seq<u8>> {
        self.sent@
    }

    /// A sending end of which nothing is known.
    pub(crate) fn unknown(sender: Sender<Vec<u8>>) -> (outbox: Self) {
        Outbox { sender, channel: Ghost(arbitrary()), sent: Ghost(arbitrary()) }
    }

    /// The sending end itself.
    pub(crate) fn sender(&self) -> (sender: &Sender<Vec<u8>>) {
        &self.sender
    }
}

/// The end from which free buffers are taken.
pub struct Inbox {
    receiver: Receiver<Vec<u8>>,
    channel: Ghost<int>,
}

impl Inbox {
    /// The channel that this is an end of.
    pub closed spec fn channel(self) -> int {
        self.channel@
    }

    /// A receiving end of which nothing is known.
    pub(crate) fn unknown(receiver: Receiver<Vec<u8>>) -> (inbox: Self) {
        Inbox { receiver, channel: Ghost(arbitrary()) }
    }

    /// The receiving end itself.
    pub(crate) fn receiver(&self) -> (receiver: &Receiver<Vec<u8>>) {
        &self.receiver
    }
}

} // verus!
