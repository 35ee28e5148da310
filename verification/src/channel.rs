//! The trusted boundary around tokio's broadcast channel.
//!
//! A [`Channel`] owns the sending half of one broadcast channel together
//! with its ghost model: the history of the messages sent through it,
//! oldest first, and a stamp by which the hub tells one channel from the
//! next.  A [`Subscription`] owns one receiving half together with its own
//! model: the stamp of the channel it is attached to, a cursor giving the
//! position in that channel's history of the next message it will read
//! (tokio keeps exactly this counter per receiver), and the messages it
//! has received so far.  Every operation that touches tokio carries its
//! model update in the same trusted contract, so verified code cannot
//! maintain the model without making the call: in particular, nothing but
//! the trusted `send` can grow a channel's history.

use vstd::prelude::*;
use tokio::sync::broadcast::{Receiver, Sender};

verus! {

#[verifier::external_type_specification]
#[verifier::external_body]
#[verifier::reject_recursive_types(T)]
pub struct ExBroadcastSender<T>(Sender<T>);

#[verifier::external_type_specification]
#[verifier::external_body]
#[verifier::reject_recursive_types(T)]
pub struct ExBroadcastReceiver<T>(Receiver<T>);

/// What one attempt to read a subscription's backlog can find.
#[derive(Debug)]
pub enum ReceiveOutcome {
    /// The next pending message, in publish order.
    Message(String),
    /// No message is pending, but the channel is still open.
    Empty,
    /// The channel was closed: the hub replaced or dropped it and no
    /// message is pending any more.
    Closed,
    /// The subscriber fell more than the backlog capacity behind and the
    /// given number of messages were overwritten before it read them; it
    /// stays subscribed and resumes with the oldest message still held.
    Lagged(u64),
}

/// The sending half of one broadcast channel, with the ghost history of
/// the messages sent through it and the stamp the hub gave it.
pub struct Channel {
    sender: Sender<String>,
    sent: Ghost<Seq<Seq<char>>>,
    mark: Ghost<nat>,
}

/// One attachment to a broadcast channel, handed out by
/// [`Channel::subscribe`], with the ghost model of what it has read.
pub struct Subscription {
    receiver: Receiver<String>,
    mark: Ghost<nat>,
    pos: Ghost<nat>,
    seen: Ghost<Seq<Seq<char>>>,
}

/// Relies on tokio::sync::broadcast::channel: creates a fresh channel
/// whose subscribers each buffer at least `capacity` pending messages.
/// It panics only when `capacity` is zero or above `usize::MAX / 2`,
/// which the precondition rules out.
#[verifier::external_body]
fn new_sender(capacity: usize) -> (tx: Sender<String>)
    requires
        0 < capacity <= usize::MAX / 2,
{
    let (tx, _initial_rx) = tokio::sync::broadcast::channel(capacity);
    tx
}

/// Relies on tokio::sync::broadcast::Sender::subscribe: creates a new
/// receiver attached to the sender's own channel, which will see the
/// messages sent after this call.
#[verifier::external_body]
fn subscribe_receiver(tx: &Sender<String>) -> (rx: Receiver<String>) {
    tx.subscribe()
}

impl Channel {
    /// The messages sent through this channel, oldest first.
    pub closed spec fn history(&self) -> Seq<Seq<char>> {
        self.sent@
    }

    /// The stamp this channel was created under.
    pub closed spec fn stamp(&self) -> nat {
        self.mark@
    }

    /// A fresh channel carrying the given stamp: nothing has been sent
    /// through it yet.
    pub(crate) fn new(capacity: usize, stamp: Ghost<nat>) -> (ch: Channel)
        requires
            0 < capacity <= usize::MAX / 2,
        ensures
            ch.history() == Seq::<Seq<char>>::empty(),
            ch.stamp() == stamp@,
    {
        Channel { sender: new_sender(capacity), sent: Ghost(Seq::empty()), mark: stamp }
    }

    /// Relies on tokio::sync::broadcast::Sender::send: delivers the
    /// message to the backlog of every receiver active at the time of the
    /// call, never blocks, and errs only when there is no active receiver,
    /// which the caller deliberately tolerates.  The channel's history
    /// grows by exactly this message.
    #[verifier::external_body]
    pub(crate) fn send(&mut self, message: String)
        ensures
            final(self).history() == old(self).history().push(message@),
            final(self).stamp() == old(self).stamp(),
    {
        let _ = self.sender.send(message);
    }

    /// Attach a new subscription to this channel.  It carries this
    /// channel's stamp, its cursor stands at the end of the history so
    /// far — the new receiver sees exactly the messages sent after this
    /// call — and it has received nothing yet.
    pub(crate) fn subscribe(&self) -> (sub: Subscription)
        ensures
            sub.stamp() == self.stamp(),
            sub.cursor() == self.history().len(),
            sub.received() == Seq::<Seq<char>>::empty(),
    {
        Subscription {
            receiver: subscribe_receiver(&self.sender),
            mark: Ghost(self.mark@),
            pos: Ghost(self.sent@.len()),
            seen: Ghost(Seq::empty()),
        }
    }
}

impl Subscription {
    /// The stamp of the channel this subscription is attached to.
    pub closed spec fn stamp(&self) -> nat {
        self.mark@
    }

    /// The position, in the attached channel's history, of the next
    /// message this subscription will read.
    pub closed spec fn cursor(&self) -> nat {
        self.pos@
    }

    /// The messages this subscription has received so far, oldest first.
    pub closed spec fn received(&self) -> Seq<Seq<char>> {
        self.seen@
    }

    /// Relies on tokio::sync::broadcast::Receiver::try_recv: a message is
    /// the one at the cursor, which advances past it; a lag report names
    /// at least one overwritten message and advances the cursor past
    /// exactly the messages it missed; an empty outcome changes nothing;
    /// a closed outcome delivers nothing.
    #[verifier::external_body]
    fn try_recv_raw(&mut self) -> (out: ReceiveOutcome)
        ensures
            final(self).stamp() == old(self).stamp(),
            (out matches ReceiveOutcome::Message(m) ==> final(self).received()
                == old(self).received().push(m@) && final(self).cursor() == old(self).cursor()
                + 1),
            (out matches ReceiveOutcome::Lagged(missed) ==> missed >= 1 && final(self).cursor()
                == old(self).cursor() + missed && final(self).received()
                == old(self).received()),
            out is Empty ==> final(self).cursor() == old(self).cursor() && final(self).received()
                == old(self).received(),
            out is Closed ==> final(self).received() == old(self).received(),
    {
        match self.receiver.try_recv() {
            Ok(message) => ReceiveOutcome::Message(message),
            Err(tokio::sync::broadcast::error::TryRecvError::Empty) => ReceiveOutcome::Empty,
            Err(tokio::sync::broadcast::error::TryRecvError::Closed) => ReceiveOutcome::Closed,
            Err(tokio::sync::broadcast::error::TryRecvError::Lagged(missed)) => ReceiveOutcome::Lagged(missed),
        }
    }

    /// Read the next pending message of this subscription's backlog
    /// without waiting.  A message extends what was received by exactly
    /// that message, in publish order; a lag report skips at least one
    /// overwritten message; an empty or closed outcome delivers nothing.
    pub fn try_receive(&mut self) -> (out: ReceiveOutcome)
        ensures
            final(self).stamp() == old(self).stamp(),
            (out matches ReceiveOutcome::Message(m) ==> final(self).received()
                == old(self).received().push(m@) && final(self).cursor() == old(self).cursor()
                + 1),
            (out matches ReceiveOutcome::Lagged(missed) ==> missed >= 1 && final(self).cursor()
                == old(self).cursor() + missed && final(self).received()
                == old(self).received()),
            out is Empty ==> final(self).cursor() == old(self).cursor() && final(self).received()
                == old(self).received(),
            out is Closed ==> final(self).received() == old(self).received(),
    {
        self.try_recv_raw()
    }

    /// Hand the underlying receiver to the hosting framework's forwarding
    /// task, which waits on it asynchronously and pushes each message to
    /// its window.
    pub fn into_receiver(self) -> Receiver<String> {
        self.receiver
    }
}

} // verus!
