use vstd::prelude::*;
use crate::misuse::MisuseError;
use crate::protocol;
use crate::protocol::State;
use crate::slot::Slot;

verus! {

/// A one-shot channel that detects misuse at run time.
///
/// On top of the slot and the readiness flag it keeps a claimed flag, taken
/// by the first send: a second send is rejected instead of overwriting the
/// slot, and a receive that finds no message ready — never sent, or already
/// received — is rejected instead of reading stale storage. Rejections are
/// reported as [`MisuseError`] values. An unread message is reclaimed exactly
/// once when the channel is dropped, since the slot owns it.
pub struct Channel<T> {
    message: Slot<T>,
    in_use: bool,
    ready: bool,
}

impl<T> View for Channel<T> {
    type V = State<T>;

    closed spec fn view(&self) -> State<T> {
        State { claimed: self.in_use, ready: self.ready, message: self.message@ }
    }
}

impl<T> Channel<T> {
    /// Well-formedness: the channel's state is one the protocol can reach.
    pub open spec fn wf(&self) -> bool {
        protocol::wf(self@)
    }

    /// A new channel is empty: unclaimed, not ready, holding no message.
    pub fn new() -> (channel: Self)
        ensures
            channel@ == protocol::fresh::<T>(),
            channel.wf(),
    {
        Channel { message: Slot::empty(), in_use: false, ready: false }
    }

    /// Stores `message` and publishes readiness, or rejects a second send.
    ///
    /// The outcome and the new state are exactly [`protocol::send_step`] of
    /// the old state: the first send claims the channel and succeeds; any
    /// later send returns [`MisuseError::SecondSend`] and changes nothing.
    pub fn send(&mut self, message: T) -> (outcome: Result<(), MisuseError>)
        requires
            old(self).wf(),
        ensures
            final(self).wf(),
            final(self)@ == protocol::send_step(old(self)@, message).0,
            outcome == protocol::send_step(old(self)@, message).1,
    {
        if self.in_use {
            return Err(MisuseError::SecondSend);
        }
        self.in_use = true;
        self.message.write(message);
        self.ready = true;
        Ok(())
    }

    /// Advisory peek: whether a message is ready right now. The
    /// authoritative check is the one inside [`Self::receive`].
    pub fn is_ready(&self) -> (ready: bool)
        ensures
            ready == self@.ready,
    {
        self.ready
    }

    /// Takes the message out, or rejects a receive that has none to take.
    ///
    /// The outcome and the new state are exactly [`protocol::receive_step`]
    /// of the old state: if a message is ready it is returned and the
    /// readiness flag is consumed; otherwise — before any send, or after the
    /// message was already received — the call returns
    /// [`MisuseError::NoMessage`] and changes nothing.
    pub fn receive(&mut self) -> (outcome: Result<T, MisuseError>)
        requires
            old(self).wf(),
        ensures
            final(self).wf(),
            final(self)@ == protocol::receive_step(old(self)@).0,
            outcome == protocol::receive_step(old(self)@).1,
    {
        if !self.ready {
            return Err(MisuseError::NoMessage);
        }
        self.ready = false;
        Ok(self.message.read())
    }
}

} // verus!
