use vstd::prelude::*;
use crate::slot::Slot;

verus! {

/// The abstract state of an unchecked one-shot channel: the readiness flag
/// and the slot contents.
pub struct State<T> {
    pub ready: bool,
    pub message: Option<T>,
}

/// The state of a freshly constructed channel: not ready, empty slot.
pub open spec fn fresh<T>() -> State<T> {
    State { ready: false, message: None }
}

/// What the single permitted send does: it fills the slot and raises the
/// readiness flag.
pub open spec fn send_step<T>(s: State<T>, message: T) -> State<T> {
    State { ready: true, message: Some(message) }
}

/// What the single permitted receive does: it takes the message out of the
/// slot and leaves the readiness flag as it was — the unchecked channel does
/// no bookkeeping on the reader's behalf.
pub open spec fn receive_step<T>(s: State<T>) -> (State<T>, T)
    recommends
        s.message is Some,
{
    (State { ready: s.ready, message: None }, s.message->0)
}

/// Round trip: sending `v` into a fresh channel publishes readiness, and the
/// receive that follows returns exactly `v`, emptying the slot.
pub proof fn lemma_round_trip<T>(s: State<T>, v: T)
    requires
        !s.ready,
        s.message is None,
    ensures
        send_step(s, v).ready,
        receive_step(send_step(s, v)).1 == v,
        receive_step(send_step(s, v)).0.message is None,
{
}

/// The minimal one-shot channel: a slot and a readiness flag, with no
/// bookkeeping beyond them.
///
/// The single-use protocol — at most one send, at most one receive, and no
/// receive before readiness was observed — is entirely the caller's
/// obligation. Here that obligation is stated as the preconditions of
/// [`Channel::send`] and [`Channel::receive`]; nothing is checked at run
/// time. The stronger channels in this crate exist to compare against this
/// baseline.
pub struct Channel<T> {
    message: Slot<T>,
    ready: bool,
}

impl<T> View for Channel<T> {
    type V = State<T>;

    closed spec fn view(&self) -> State<T> {
        State { ready: self.ready, message: self.message@ }
    }
}

impl<T> Channel<T> {
    /// A new channel is empty, with the readiness flag down.
    pub fn new() -> (channel: Self)
        ensures
            channel@ == fresh::<T>(),
    {
        Channel { message: Slot::empty(), ready: false }
    }

    /// Stores `message` and publishes readiness.
    ///
    /// Caller obligation: at most one send per channel — the slot must still
    /// be empty and readiness not yet published.
    pub fn send(&mut self, message: T)
        requires
            !old(self)@.ready,
            old(self)@.message is None,
        ensures
            final(self)@ == send_step(old(self)@, message),
    {
        self.message.write(message);
        self.ready = true;
    }

    /// Whether a message is ready. For the unchecked channel this is the
    /// reader's sole synchronization point, so the caller must see it return
    /// true before calling [`Self::receive`].
    pub fn is_ready(&self) -> (ready: bool)
        ensures
            ready == self@.ready,
    {
        self.ready
    }

    /// Takes the message out of the slot.
    ///
    /// Caller obligation: at most one receive per channel, and only after
    /// [`Self::is_ready`] returned true — readiness must be up and the slot
    /// still full. The readiness flag is left as it was.
    pub fn receive(&mut self) -> (message: T)
        requires
            old(self)@.ready,
            old(self)@.message is Some,
        ensures
            message == receive_step(old(self)@).1,
            final(self)@ == receive_step(old(self)@).0,
    {
        self.message.read()
    }
}

} // verus!
