//! The channel from a sink to those who have subscribed.

use vstd::prelude::*;

use tokio::sync::broadcast::{Receiver, Sender};

verus! {

/// The sending half of a broadcast channel of `tokio`.
#[verifier::external_type_specification]
#[verifier::external_body]
#[verifier::reject_recursive_types(T)]
pub struct ExSender<T>(tokio::sync::broadcast::Sender<T>);

/// A receiving half of a broadcast channel of `tokio`.
#[verifier::external_type_specification]
#[verifier::external_body]
#[verifier::reject_recursive_types(T)]
pub struct ExReceiver<T>(tokio::sync::broadcast::Receiver<T>);

/// `<tokio::sync::broadcast::Sender as Clone>::clone` gives another sending half of
/// the same channel. All that a sending half holds is its channel, so the two are
/// claimed to be equal.
pub assume_specification<T>[ <tokio::sync::broadcast::Sender<T> as Clone>::clone ](
    sender: &tokio::sync::broadcast::Sender<T>,
) -> (copy: tokio::sync::broadcast::Sender<T>)
    ensures
        copy == *sender,
;

/// What a sink sends with.
///
/// It cannot be copied, so its log is the record of all that was sent with it.
#[verifier::reject_recursive_types(T)]
pub struct Emitter<T> {
    sender: Sender<T>,
    capacity: Ghost<usize>,
    log: Ghost<Seq<(T, Result<usize, T>)>>,
}

impl<T> Emitter<T> {
    /// The channel that values go into, by its sending half.
    pub closed spec fn channel(self) -> Sender<T> {
        self.sender
    }

    /// How many values the channel was asked to hold for a slow reader.
    pub closed spec fn capacity(self) -> usize {
        self.capacity@
    }

    /// Every send so far, in order: the value, and what came back. That is how many
    /// receivers there were, or else the value.
    pub closed spec fn log(self) -> Seq<(T, Result<usize, T>)> {
        self.log@
    }

    /// Sends a value with `tokio::sync::broadcast::Sender::send`.
    ///
    /// Claimed of the outside code: it is one send of this value, to the channel of the
    /// emitter. It reports either how many receivers there were, which is at least one,
    /// or hands back the very value. Which of the two depends on who has subscribed at
    /// that moment, and is left open.
    #[verifier::external_body]
    pub(crate) fn emit(&mut self, value: T) -> (sent: Result<usize, T>)
        ensures
            final(self).channel() == old(self).channel(),
            final(self).capacity() == old(self).capacity(),
            final(self).log() == old(self).log().push((value, sent)),
            sent matches Ok(receivers) ==> receivers > 0,
            sent matches Err(unsent) ==> unsent == value,
    {
        self.sender.send(value).map_err(|error| error.0)
    }

    /// Another sending half of the channel, to subscribe to.
    pub fn sending_half(&self) -> (half: Sender<T>)
        ensures
            half == self.channel(),
    {
        self.sender.clone()
    }
}

impl<T: Clone> Emitter<Vec<T>> {
    /// Opens a channel with `tokio::sync::broadcast::channel`, and lets go of the receiving
    /// half that comes with it, so that nobody has subscribed.
    ///
    /// Claimed of the outside code: the channel is asked for this capacity, and nothing has
    /// been sent yet. That no other emitter sends to the channel is left unsaid. The outside
    /// function panics on a capacity of zero, and on one whose slots cannot be laid out in
    /// memory; a slot for a `Vec` is so small that the bound excludes the latter.
    #[verifier::external_body]
    fn open_channel(capacity: usize) -> (emitter: Emitter<Vec<T>>)
        requires
            0 < capacity <= 65_536,
        ensures
            emitter.capacity() == capacity,
            emitter.log() == Seq::<(Vec<T>, Result<usize, Vec<T>>)>::empty(),
    {
        Emitter {
            sender: tokio::sync::broadcast::channel(capacity).0,
            capacity: Ghost(capacity),
            log: Ghost(Seq::empty()),
        }
    }

    /// Opens a channel of this capacity, to which nobody has subscribed.
    pub fn open(capacity: usize) -> (emitter: Emitter<Vec<T>>)
        requires
            0 < capacity <= 65_536,
        ensures
            emitter.capacity() == capacity,
            emitter.log() == Seq::<(Vec<T>, Result<usize, Vec<T>>)>::empty(),
    {
        Self::open_channel(capacity)
    }
}

/// A subscription to a channel: it receives what is sent from then on.
#[verifier::reject_recursive_types(T)]
pub struct Subscription<T> {
    receiver: Receiver<T>,
    to: Ghost<Sender<T>>,
}

impl<T> Subscription<T> {
    /// The channel that was subscribed to, by its sending half.
    pub closed spec fn to(self) -> Sender<T> {
        self.to@
    }

    /// The receiving half of the subscription.
    pub closed spec fn receiving_half(self) -> Receiver<T> {
        self.receiver
    }

    /// Gives the receiving half away, to be read from.
    pub fn into_receiver(self) -> (receiver: Receiver<T>)
        ensures
            receiver == self.receiving_half(),
    {
        self.receiver
    }
}

/// Subscribes to a channel with `tokio::sync::broadcast::Sender::subscribe`.
///
/// Claimed of the outside code: what it gives receives from the channel of this very
/// sending half. What it receives, and when, is left unsaid: that comes with an await. The
/// outside function panics only where there are more receivers already than fit in memory.
#[verifier::external_body]
pub(crate) fn subscribe<T>(emitter: &Sender<T>) -> (subscription: Subscription<T>)
    ensures
        subscription.to() == *emitter,
{
    Subscription { receiver: emitter.subscribe(), to: Ghost(*emitter) }
}

} // verus!
