//! The decode operation contract: advance the deserialization of one value
//! by exactly one read attempt per call, producing the value on completion.
//!
//! A decoder is characterised by `needed`, the most bytes its next attempt
//! may consume, and by `step_ok`, its own statement of which outcome is
//! right once a given delivery has been consumed.  The contract of
//! `poll_decode` pins the transport bookkeeping for every planned response
//! of the source, and never lets an attempt ask for more than `needed`
//! bytes, so a finished decode leaves the source positioned exactly after
//! the value, never past it.

use crate::error::DecodeError;
use crate::outcome::PollDec;
use crate::transport::at_most;
use crate::transport::Source;
use crate::transport::SourceStep;
use crate::transport::WakeContext;
use vstd::prelude::*;

verus! {

/// A type that asynchronously decodes one value out of a source, one read
/// attempt per poll call.
pub trait AsyncDecode where Self: Sized {
    /// The type of the decoded value.
    type Item;

    /// How decoding can fail on invalid content.
    type Error;

    /// The most bytes the next read attempt will ask for; always positive
    /// while the value is incomplete, and never past the value's end.
    spec fn needed(&self) -> nat;

    /// Which outcome is right after this operation consumed exactly the
    /// delivered bytes `d`: whether the value is now complete, which value
    /// it is, or how the content is invalid, and where a continuation
    /// resumes.  Each decoder states this for every delivery of at least
    /// one and at most `needed` bytes.
    spec fn step_ok(&self, d: Seq<u8>, r: PollDec<Self::Item, Self, Self::Error>) -> bool;

    /// Make exactly one read attempt against `reader`, consuming the
    /// operation; an unfinished operation comes back inside the outcome.
    ///
    /// The one attempt asks for at most `needed` bytes, and the outcome
    /// follows the source's response: an empty delivery means the input
    /// ended while the value was incomplete, reported as such and never
    /// treated as completion; a blocked source suspends the operation
    /// unchanged; a source fault is carried over unchanged, never
    /// reinterpreted as a data error; a delivery is consumed whole, with
    /// the outcome the operation's own `step_ok` statement demands.
    fn poll_decode<R: Source>(self, cx: &mut WakeContext, reader: &mut R) -> (r: PollDec<
        Self::Item,
        Self,
        Self::Error,
    >)
        requires
            self.needed() > 0,
            old(reader).responses().len() > 0,
        ensures
            *final(cx) == *old(cx),
            match old(reader).responses()[0] {
                SourceStep::Deliver(chunk) => {
                    let d = chunk@.take(at_most(self.needed() as int, chunk@.len() as int));
                    &&& final(reader).delivered() == old(reader).delivered() + d
                    &&& (if d.len() == chunk@.len() {
                        final(reader).responses() == old(reader).responses().skip(1)
                    } else {
                        &&& final(reader).responses().len() == old(reader).responses().len()
                        &&& (final(reader).responses()[0] matches SourceStep::Deliver(rest)
                            && rest@ == chunk@.skip(d.len() as int))
                        &&& final(reader).responses().skip(1) == old(reader).responses().skip(1)
                    })
                    &&& if chunk@.len() == 0 {
                        r == PollDec::<Self::Item, Self, Self::Error>::Errored(
                            DecodeError::UnexpectedEndOfInput,
                        )
                    } else {
                        &&& self.step_ok(d, r)
                        &&& match r {
                            PollDec::Done(_v, m) => m as int == d.len(),
                            PollDec::Progress(s2, m) => m as int == d.len() && s2.needed() > 0,
                            PollDec::Pending(_s2) => false,
                            PollDec::Errored(err) => err matches DecodeError::DataError(_),
                        }
                    }
                },
                SourceStep::Block => {
                    &&& (r matches PollDec::Pending(s2) && s2 == self)
                    &&& final(reader).delivered() == old(reader).delivered()
                    &&& final(reader).responses() == old(reader).responses().skip(1)
                },
                SourceStep::Fail(e) => {
                    &&& r == PollDec::<Self::Item, Self, Self::Error>::Errored(
                        DecodeError::ReaderError(e),
                    )
                    &&& final(reader).delivered() == old(reader).delivered()
                    &&& final(reader).responses() == old(reader).responses().skip(1)
                },
            },
    ;
}

} // verus!
