use core::marker::PhantomData;
use vstd::prelude::*;
use crate::misuse::MisuseError;
use crate::protocol;
use crate::protocol::State;
use crate::slot::Slot;

verus! {

/// A one-shot channel owned by the calling scope.
///
/// Where [`crate::compile_time_oneshot`] puts the slot and flag behind a
/// shared pair of handles, here the channel is a plain value the caller
/// keeps, and [`Sender`] and [`Receiver`] are lightweight one-time tokens
/// minted by [`Channel::split`] — no allocation beyond the channel itself.
/// The semantics are run-time checked, exactly the protocol of
/// [`crate::protocol`]: a claimed flag guards the send, the receive consumes
/// the readiness flag, and an unread message is reclaimed exactly once when
/// the channel is dropped, since the slot owns it. A channel is not reused:
/// each handoff starts from a fresh [`Channel::new`].
pub struct Channel<T> {
    message: Slot<T>,
    in_use: bool,
    ready: bool,
}

/// The sending token: consumed by its single [`Sender::send`].
pub struct Sender<T> {
    _marker: PhantomData<T>,
}

/// The receiving token: consumed by its single [`Receiver::receive`].
pub struct Receiver<T> {
    _marker: PhantomData<T>,
}

impl<T> View for Channel<T> {
    type V = State<T>;

    closed spec fn view(&self) -> State<T> {
        State { claimed: self.in_use, ready: self.ready, message: self.message@ }
    }
}

impl<T> Channel<T> {
    /// Well-formedness: the channel's state is one the protocol can reach.
    pub open spec fn wf(&self) -> bool {
        protocol::wf(self@)
    }

    /// A new channel is empty: unclaimed, not ready, holding no message.
    pub fn new() -> (channel: Self)
        ensures
            channel@ == protocol::fresh::<T>(),
            channel.wf(),
    {
        Channel { message: Slot::empty(), in_use: false, ready: false }
    }

    /// Mints the pair of one-time tokens for this channel. The channel's
    /// state is untouched; the tokens are only capabilities, and the
    /// operations they gate are checked against the channel itself.
    pub fn split(&mut self) -> (pair: (Sender<T>, Receiver<T>))
        ensures
            final(self)@ == old(self)@,
    {
        (Sender { _marker: PhantomData }, Receiver { _marker: PhantomData })
    }

    /// Advisory peek: whether a message is ready right now. The
    /// authoritative check is the one inside [`Receiver::receive`].
    pub fn is_ready(&self) -> (ready: bool)
        ensures
            ready == self@.ready,
    {
        self.ready
    }
}

impl<T> Sender<T> {
    /// Stores `message` into the channel and publishes readiness, or rejects
    /// a second send; consumes this token either way.
    ///
    /// The outcome and the channel's new state are exactly
    /// [`protocol::send_step`] of its old state.
    pub fn send(self, channel: &mut Channel<T>, message: T) -> (outcome: Result<
        (),
        MisuseError,
    >)
        requires
            old(channel).wf(),
        ensures
            final(channel).wf(),
            final(channel)@ == protocol::send_step(old(channel)@, message).0,
            outcome == protocol::send_step(old(channel)@, message).1,
    {
        if channel.in_use {
            return Err(MisuseError::SecondSend);
        }
        channel.in_use = true;
        channel.message.write(message);
        channel.ready = true;
        Ok(())
    }
}

impl<T> Receiver<T> {
    /// Takes the message out of the channel, or rejects a receive that has
    /// none to take; consumes this token either way.
    ///
    /// The outcome and the channel's new state are exactly
    /// [`protocol::receive_step`] of its old state.
    pub fn receive(self, channel: &mut Channel<T>) -> (outcome: Result<T, MisuseError>)
        requires
            old(channel).wf(),
        ensures
            final(channel).wf(),
            final(channel)@ == protocol::receive_step(old(channel)@).0,
            outcome == protocol::receive_step(old(channel)@).1,
    {
        if !channel.ready {
            return Err(MisuseError::NoMessage);
        }
        channel.ready = false;
        Ok(channel.message.read())
    }
}

} // verus!
