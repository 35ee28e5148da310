//! Cross-window message broadcast.
//!
//! The hub owns at most one broadcast channel at a time.  `start` replaces
//! whatever channel existed with a fresh one, which silently discards every
//! earlier subscriber; `publish` sends a message through the current channel
//! and is a deliberate no-op while none exists; `subscribe` attaches a new
//! receiver to the current channel and fails only when none has been
//! started.  The channel itself is tokio's broadcast primitive, held behind
//! the trusted boundary in [`crate::channel`]: each subscriber has a
//! bounded backlog, a subscriber that falls more than the backlog behind
//! misses the overwritten messages and resumes with the newer ones, and a
//! slow subscriber never blocks the publisher.
//!
//! The hub's observable state is its model: whether a channel exists, the
//! generation (how many channels have ever been started), the stamp of the
//! current channel, and its log — the channel's own trusted history, which
//! only an actual send can grow.  Each subscription carries the stamp of
//! the channel it was taken against, which is how the contracts say that a
//! restart detaches the old subscribers.

use vstd::prelude::*;
use crate::channel::Channel;

pub use crate::channel::{ReceiveOutcome, Subscription};

verus! {

/// How many messages each subscriber's backlog can hold before it starts
/// missing the oldest ones.
pub const BACKLOG_CAPACITY: usize = 100;

/// The error a command gets back from the hub.
#[derive(Clone, Copy, Debug, PartialEq, Eq, Structural)]
pub enum HubError {
    /// `subscribe` was called before any channel was started.
    NotStarted,
}

/// The process-wide broadcast hub: at most one active channel, stamped
/// with the generation it was started under.
pub struct SyncHub {
    channel: Option<Channel>,
    generation: Ghost<nat>,
}

/// A subscription receives messages only from the channel it was taken
/// against: it can be delivered to only while the current channel carries
/// its stamp.
pub open spec fn can_deliver(channel_stamp: nat, subscription_stamp: nat) -> bool {
    subscription_stamp == channel_stamp
}

impl SyncHub {
    /// Whether a channel has been started and not merely replaced: whether
    /// `publish` currently reaches anyone and `subscribe` can attach.
    pub closed spec fn started(&self) -> bool {
        self.channel is Some
    }

    /// How many channels have ever been started; each `start` begins a new
    /// generation.
    pub closed spec fn current_generation(&self) -> nat {
        self.generation@
    }

    /// The stamp of the current channel.
    pub closed spec fn channel_stamp(&self) -> nat
        recommends
            self.started(),
    {
        self.channel->Some_0.stamp()
    }

    /// The messages published to the current channel, oldest first: the
    /// channel's own trusted history, not a tally the hub keeps.
    pub closed spec fn log(&self) -> Seq<Seq<char>> {
        if self.channel is Some {
            self.channel->Some_0.history()
        } else {
            Seq::empty()
        }
    }

    /// A hub with no channel: publishing reaches no one and subscribing
    /// fails until `start` is called.
    pub fn new() -> (hub: SyncHub)
        ensures
            !hub.started(),
            hub.current_generation() == 0,
            hub.log() == Seq::<Seq<char>>::empty(),
    {
        SyncHub { channel: None, generation: Ghost(0) }
    }

    /// Start a fresh channel, replacing any existing one.  The hub moves
    /// to a new generation and afterwards holds a channel that carries the
    /// new generation as its stamp and through which nothing has been sent
    /// yet — so the old channel, whatever its stamp and history, is gone,
    /// and its subscribers observe it closed and are discarded.
    pub fn start(&mut self)
        ensures
            final(self).started(),
            final(self).current_generation() == old(self).current_generation() + 1,
            final(self).channel_stamp() == final(self).current_generation(),
            final(self).log() == Seq::<Seq<char>>::empty(),
    {
        let ghost next_generation: nat = self.generation@ + 1;
        self.channel = Some(Channel::new(BACKLOG_CAPACITY, Ghost(next_generation)));
        self.generation = Ghost(next_generation);
    }

    /// Publish a message to every current subscriber.  This never fails:
    /// while no channel exists it is a deliberate no-op with no observable
    /// effect, and with a channel it sends the message through it, growing
    /// the current channel's history by exactly this message whether or
    /// not anyone is subscribed.
    pub fn publish(&mut self, message: String)
        ensures
            final(self).started() == old(self).started(),
            final(self).current_generation() == old(self).current_generation(),
            old(self).started() ==> final(self).log() == old(self).log().push(message@)
                && final(self).channel_stamp() == old(self).channel_stamp(),
            !old(self).started() ==> final(self).log() == old(self).log(),
    {
        match &mut self.channel {
            Some(ch) => ch.send(message),
            None => {},
        }
    }

    /// Attach a new subscriber to the current channel.  This succeeds if
    /// and only if a channel has been started; the subscription carries
    /// the current channel's stamp, its cursor stands at the end of the
    /// current log, and it has received nothing yet: it will see exactly
    /// the messages published from now until the channel is replaced.
    pub fn subscribe(&self) -> (r: Result<Subscription, HubError>)
        ensures
            r is Ok <==> self.started(),
            r is Ok ==> can_deliver(self.channel_stamp(), (r->Ok_0).stamp()),
            r is Ok ==> (r->Ok_0).cursor() == self.log().len() && (r->Ok_0).received()
                == Seq::<Seq<char>>::empty(),
            r is Err ==> r->Err_0 == HubError::NotStarted,
    {
        match &self.channel {
            Some(ch) => Ok(ch.subscribe()),
            None => Err(HubError::NotStarted),
        }
    }
}

/// Law: starting the hub again discards the earlier subscribers.  A
/// subscription taken at or before some generation is, after any later
/// `start`, stamped with an older generation than the current channel's
/// stamp, so no message published after that `start` can be delivered to
/// it.
pub proof fn lemma_restart_discards_old_subscriptions(
    taken_at: nat,
    earlier: nat,
    later: nat,
)
    requires
        taken_at <= earlier,
        earlier < later,
    ensures
        !can_deliver(later, taken_at),
{
}

} // verus!
