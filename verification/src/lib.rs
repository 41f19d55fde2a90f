//! One-shot channels: a family of single-value handoff primitives.
//!
//! Each channel moves exactly one message from one producer to one consumer.
//! The family covers four designs of increasing protection against misuse:
//!
//! - [`unchecked_oneshot`]: the bare slot-and-flag substrate; the single-use
//!   protocol is a caller obligation, stated here as preconditions.
//! - [`safer_oneshot`]: adds a claimed flag so that a second send, a second
//!   receive, or a premature receive is detected at run time and reported as
//!   a [`misuse::MisuseError`] instead of corrupting the handoff.
//! - [`compile_time_oneshot`]: sender and receiver are one-time-use handles
//!   consumed by their single operation, so reuse is a type error.
//! - [`borrowing_oneshot`]: the channel is owned by the calling scope and the
//!   handles are lightweight tokens, trading the separate pair allocation for
//!   a caller-managed channel value, with run-time-checked semantics.
//!
//! Beside the family stands [`queue_channel`], a multi-message first-in
//! first-out channel that the one-shot core does not depend on.

pub mod borrowing_oneshot;
pub mod compile_time_oneshot;
pub mod misuse;
pub mod protocol;
pub mod queue_channel;
pub mod safer_oneshot;
pub mod slot;
pub mod unchecked_oneshot;
