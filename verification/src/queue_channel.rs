use std::collections::VecDeque;
use vstd::prelude::*;
use vstd::pervasive::unreached;

verus! {

/// A multi-message first-in first-out channel.
///
/// This is the conventional companion of the one-shot family: any number of
/// messages may be sent, and they come out in the order they went in. The
/// one-shot core does not depend on it. The view of a channel is the
/// sequence of messages sent and not yet received, oldest first. Waiting for
/// a message to arrive is the caller's concern: [`Channel::receive`] asks
/// for a non-empty queue.
pub struct Channel<T> {
    queue: VecDeque<T>,
}

impl<T> View for Channel<T> {
    type V = Seq<T>;

    closed spec fn view(&self) -> Seq<T> {
        self.queue@
    }
}

impl<T> Channel<T> {
    /// A new channel holds no messages.
    pub fn new() -> (channel: Self)
        ensures
            channel@ == Seq::<T>::empty(),
    {
        Channel { queue: VecDeque::new() }
    }

    /// Enqueues `message` behind every message already waiting. Always
    /// succeeds; the queue grows without bound.
    pub fn send(&mut self, message: T)
        ensures
            final(self)@ == old(self)@.push(message),
    {
        self.queue.push_back(message);
    }

    /// Dequeues and returns the oldest waiting message.
    pub fn receive(&mut self) -> (message: T)
        requires
            old(self)@.len() > 0,
        ensures
            message == old(self)@[0],
            final(self)@ == old(self)@.subrange(1, old(self)@.len() as int),
    {
        match self.queue.pop_front() {
            Some(message) => message,
            None => unreached(),
        }
    }
}

} // verus!
