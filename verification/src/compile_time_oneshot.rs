use core::marker::PhantomData;
use vstd::prelude::*;
use crate::misuse::MisuseError;
use crate::slot::Slot;

verus! {

/// The abstract state of the receiving end: the readiness flag and the slot
/// contents.
pub struct State<T> {
    pub ready: bool,
    pub message: Option<T>,
}

/// Well-formedness: the readiness flag is up exactly while the slot holds a
/// message. Both reachable states — fresh and sent — satisfy it; a consumed
/// state is unreachable because the receive consumes the receiver itself.
pub open spec fn wf<T>(s: State<T>) -> bool {
    s.ready <==> s.message is Some
}

/// What the single send does: it fills the slot and raises readiness.
pub open spec fn send_step<T>(s: State<T>, message: T) -> State<T> {
    State { ready: true, message: Some(message) }
}

/// What the single receive returns: the message, if one is ready; otherwise
/// the receive is rejected because readiness is a run-time timing fact that
/// no handle discipline can settle.
pub open spec fn receive_step<T>(s: State<T>) -> Result<T, MisuseError> {
    if s.ready {
        Ok(s.message->0)
    } else {
        Err(MisuseError::NoMessage)
    }
}

/// Round trip: on a fresh receiver, a send followed by the receive yields
/// exactly the value sent.
pub proof fn lemma_round_trip<T>(s: State<T>, v: T)
    requires
        wf(s),
        !s.ready,
    ensures
        wf(send_step(s, v)),
        receive_step(send_step(s, v)) == Ok::<T, MisuseError>(v),
{
}

/// Premature-receive rejection: while no message is ready, the receive is
/// rejected with no message available rather than yielding garbage.
pub proof fn lemma_premature_receive<T>(s: State<T>)
    requires
        wf(s),
        !s.ready,
    ensures
        receive_step(s) == Err::<T, MisuseError>(MisuseError::NoMessage),
{
}

/// The sending half of a statically-checked one-shot channel: a one-time-use
/// capability, consumed by [`Sender::send`]. After that call no handle
/// remains through which a second send could even be written, so double-send
/// needs no run-time check — misuse of the handle is a type error.
pub struct Sender<T> {
    _marker: PhantomData<T>,
}

/// The receiving half: owns the slot and the readiness flag, and is consumed
/// by [`Receiver::receive`], so double-receive is a type error as well.
pub struct Receiver<T> {
    message: Slot<T>,
    ready: bool,
}

impl<T> View for Receiver<T> {
    type V = State<T>;

    closed spec fn view(&self) -> State<T> {
        State { ready: self.ready, message: self.message@ }
    }
}

/// Constructs a channel as a pair of one-time-use handles. The receiving end
/// starts fresh: not ready, empty slot.
pub fn channel<T>() -> (pair: (Sender<T>, Receiver<T>))
    ensures
        pair.1@ == (State::<T> { ready: false, message: None }),
        wf(pair.1@),
{
    (Sender { _marker: PhantomData }, Receiver { message: Slot::empty(), ready: false })
}

impl<T> Sender<T> {
    /// Stores `message` in the receiving end and publishes readiness,
    /// consuming this sender.
    ///
    /// The precondition asks for the receiving end the sender was paired
    /// with, still fresh: the one sender that [`channel`] made for it is the
    /// one handle that can satisfy it exactly once.
    pub fn send(self, receiver: &mut Receiver<T>, message: T)
        requires
            !old(receiver)@.ready,
            old(receiver)@.message is None,
        ensures
            final(receiver)@ == send_step(old(receiver)@, message),
            wf(final(receiver)@),
    {
        receiver.message.write(message);
        receiver.ready = true;
    }
}

impl<T> Receiver<T> {
    /// Advisory peek: whether the message is ready right now. The
    /// authoritative check is the one inside [`Self::receive`].
    pub fn is_ready(&self) -> (ready: bool)
        ensures
            ready == self@.ready,
    {
        self.ready
    }

    /// Takes the message out, consuming this receiver; rejects the call with
    /// [`MisuseError::NoMessage`] if no message is ready yet.
    pub fn receive(self) -> (outcome: Result<T, MisuseError>)
        requires
            wf(self@),
        ensures
            outcome == receive_step(self@),
    {
        let Receiver { message: mut slot, ready } = self;
        if !ready {
            return Err(MisuseError::NoMessage);
        }
        Ok(slot.read())
    }
}

} // verus!
