use vstd::prelude::*;
use crate::misuse::MisuseError;

verus! {

/// The abstract state of a run-time-checked one-shot channel: the claimed
/// flag (a send has started), the readiness flag (a message is published and
/// not yet consumed), and the slot contents.
///
/// [`crate::safer_oneshot`] and [`crate::borrowing_oneshot`] both follow this
/// protocol; their operations are pinned to [`send_step`] and
/// [`receive_step`] by their postconditions.
pub struct State<T> {
    pub claimed: bool,
    pub ready: bool,
    pub message: Option<T>,
}

/// The state of a freshly constructed channel: unclaimed, not ready, empty.
pub open spec fn fresh<T>() -> State<T> {
    State { claimed: false, ready: false, message: None }
}

/// Well-formedness of a channel state. Every reachable state — fresh, sent,
/// and consumed — satisfies it: the readiness flag is up exactly while the
/// slot holds a message, and a published message implies the claim was taken.
pub open spec fn wf<T>(s: State<T>) -> bool {
    &&& s.ready <==> s.message is Some
    &&& s.ready ==> s.claimed
}

/// What a send does: the first send claims the channel, stores the message
/// and publishes readiness; any later send is rejected as a second send and
/// leaves the state unchanged.
pub open spec fn send_step<T>(s: State<T>, message: T) -> (State<T>, Result<
    (),
    MisuseError,
>) {
    if s.claimed {
        (s, Err(MisuseError::SecondSend))
    } else {
        (State { claimed: true, ready: true, message: Some(message) }, Ok(()))
    }
}

/// What a receive does: if a message is ready it is taken out, consuming the
/// readiness flag; otherwise — never sent, or already received — the receive
/// is rejected and the state is unchanged. One check covers both failure
/// cases.
pub open spec fn receive_step<T>(s: State<T>) -> (State<T>, Result<T, MisuseError>) {
    if s.ready {
        (State { claimed: s.claimed, ready: false, message: None }, Ok(s.message->0))
    } else {
        (s, Err(MisuseError::NoMessage))
    }
}

/// Both steps preserve well-formedness.
pub proof fn lemma_steps_preserve_wf<T>(s: State<T>, message: T)
    requires
        wf(s),
    ensures
        wf(send_step(s, message).0),
        wf(receive_step(s).0),
{
}

/// Round trip: on a channel that nobody has claimed, a single send succeeds,
/// and the receive that follows it succeeds and returns exactly the value
/// sent, leaving the slot empty.
pub proof fn lemma_round_trip<T>(s: State<T>, v: T)
    requires
        wf(s),
        !s.claimed,
    ensures
        send_step(s, v).1 == Ok::<(), MisuseError>(()),
        receive_step(send_step(s, v).0).1 == Ok::<T, MisuseError>(v),
        receive_step(send_step(s, v).0).0.message is None,
{
}

/// Double-send rejection: after a successful send, a second send — whatever
/// value it carries — is rejected as a second send and changes nothing.
pub proof fn lemma_second_send<T>(s: State<T>, v: T, w: T)
    requires
        wf(s),
        !s.claimed,
    ensures
        send_step(send_step(s, v).0, w).1 == Err::<(), MisuseError>(MisuseError::SecondSend),
        send_step(send_step(s, v).0, w).0 == send_step(s, v).0,
{
}

/// Double-receive rejection: once a receive has consumed the message, a
/// second receive is rejected with no message available and changes nothing —
/// it never yields a duplicate value.
pub proof fn lemma_double_receive<T>(s: State<T>)
    requires
        wf(s),
        s.ready,
    ensures
        receive_step(s).1 == Ok::<T, MisuseError>(s.message->0),
        receive_step(receive_step(s).0).1 == Err::<T, MisuseError>(MisuseError::NoMessage),
        receive_step(receive_step(s).0).0 == receive_step(s).0,
{
}

/// The claim is permanent: neither step lowers the claimed flag, so once the
/// one successful send has claimed the channel, every later send — however
/// many states lie in between — is rejected. This is the at-most-one-write
/// discipline of the slot.
pub proof fn lemma_claim_is_permanent<T>(s: State<T>, v: T)
    ensures
        s.claimed ==> send_step(s, v).0.claimed,
        s.claimed ==> send_step(s, v).1 == Err::<(), MisuseError>(MisuseError::SecondSend),
        receive_step(s).0.claimed == s.claimed,
{
}

/// A spent channel stays spent: once the one message was sent and received —
/// claimed, no longer ready — every further send or receive is rejected and
/// changes nothing. Together with [`lemma_claim_is_permanent`] this is the
/// at-most-one-read discipline of the slot.
pub proof fn lemma_spent_channel_rejects_everything<T>(s: State<T>, v: T)
    requires
        wf(s),
        s.claimed,
        !s.ready,
    ensures
        send_step(s, v).0 == s,
        send_step(s, v).1 == Err::<(), MisuseError>(MisuseError::SecondSend),
        receive_step(s).0 == s,
        receive_step(s).1 == Err::<T, MisuseError>(MisuseError::NoMessage),
{
}

/// Premature-receive rejection: while no message is ready — in particular on
/// a fresh channel, before any send — a receive is rejected with no message
/// available and changes nothing.
pub proof fn lemma_premature_receive<T>(s: State<T>)
    requires
        wf(s),
        !s.ready,
    ensures
        receive_step(s).1 == Err::<T, MisuseError>(MisuseError::NoMessage),
        receive_step(s).0 == s,
{
}

} // verus!
