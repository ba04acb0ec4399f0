//! The tagged outcomes of one poll call.  Terminal outcomes carry no
//! continuation, so a finished or failed operation cannot be polled again:
//! the ownership discipline, not a runtime check, rules it out.

use crate::error::DecodeError;
use crate::error::EncodeError;
use vstd::prelude::*;

verus! {

/// The outcome of one call to `poll_encode`.
#[derive(Clone, Copy, Debug, PartialEq, Eq)]
pub enum PollEnc<S> {
    /// Terminal: the value is fully written; this call wrote this many
    /// bytes.  The operation must not be polled again.
    Done(usize),
    /// Not done yet, but this call wrote this many bytes, always more than
    /// zero.  The continuation resumes exactly after them.
    Progress(S, usize),
    /// The sink would block; no bytes moved this call.  The continuation
    /// resumes at the same point once the sink is ready.
    Pending(S),
    /// Terminal: the sink failed or violated the write protocol.  The
    /// operation must not be polled again.
    Errored(EncodeError),
}

/// The outcome of one call to `poll_decode`.
#[derive(Clone, Copy, Debug, PartialEq, Eq)]
pub enum PollDec<T, S, E> {
    /// Terminal: the value is fully decoded; this call read this many
    /// bytes.  The operation must not be polled again.
    Done(T, usize),
    /// Not done yet, but this call read this many bytes, always more than
    /// zero.  The continuation resumes exactly after them.
    Progress(S, usize),
    /// The source would block; no bytes moved this call.  The continuation
    /// resumes at the same point once the source is ready.
    Pending(S),
    /// Terminal: the source failed, the input ended early, or the bytes do
    /// not form a valid value.  The operation must not be polled again.
    Errored(DecodeError<E>),
}

} // verus!
