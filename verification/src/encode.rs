//! The encode operation contract: advance the serialization of one value by
//! exactly one write attempt per call.
//!
//! An encoder is characterised by `remaining`, the bytes it still has to
//! write.  The contract of `poll_encode` pins, for every planned response
//! of the sink, which outcome comes back, that the bytes the sink accepts
//! are exactly the next prefix of `remaining`, and that the continuation
//! resumes exactly after that prefix.

use crate::error::EncodeError;
use crate::outcome::PollEnc;
use crate::transport::at_most;
use crate::transport::Sink;
use crate::transport::SinkStep;
use crate::transport::WakeContext;
use vstd::prelude::*;

verus! {

/// A type that asynchronously encodes one value into a sink, one write
/// attempt per poll call.
pub trait AsyncEncode where Self: Sized {
    /// The bytes this operation still has to write.
    spec fn remaining(&self) -> Seq<u8>;

    /// Make exactly one write attempt against `writer`, consuming the
    /// operation; an unfinished operation comes back inside the outcome.
    ///
    /// With nothing left to write the call is a no-op confirmation: it
    /// reports `Done(0)` and leaves the sink untouched.  Otherwise the one
    /// attempt offers pending bytes, and the outcome follows the sink's
    /// response: zero accepted bytes are a write-zero failure, never a
    /// silent retry; a blocked sink suspends the operation unchanged; a
    /// sink fault is carried over unchanged; accepted bytes are exactly
    /// the next prefix of `remaining`, and the continuation resumes
    /// exactly after them.
    fn poll_encode<W: Sink>(self, cx: &mut WakeContext, writer: &mut W) -> (r: PollEnc<Self>)
        requires
            old(writer).responses().len() > 0,
        ensures
            *final(cx) == *old(cx),
            self.remaining().len() == 0 ==> r == PollEnc::<Self>::Done(0) && *final(writer) == *old(
                writer,
            ),
            self.remaining().len() > 0 ==> final(writer).responses() == old(
                writer,
            ).responses().skip(1) && match old(writer).responses()[0] {
                SinkStep::Accept(k) => {
                    if k == 0 {
                        &&& r == PollEnc::<Self>::Errored(EncodeError::WriteZero)
                        &&& final(writer).received() == old(writer).received()
                    } else {
                        exists|n: int|
                            {
                                &&& 1 <= n <= at_most(k as int, self.remaining().len() as int)
                                &&& final(writer).received() == old(writer).received()
                                    + #[trigger] self.remaining().take(n)
                                &&& if n == self.remaining().len() {
                                    r == PollEnc::<Self>::Done(n as usize)
                                } else {
                                    r matches PollEnc::Progress(s2, m) && m as int == n
                                        && s2.remaining() == self.remaining().skip(n)
                                }
                            }
                    }
                },
                SinkStep::Block => {
                    &&& (r matches PollEnc::Pending(s2) && s2 == self)
                    &&& final(writer).received() == old(writer).received()
                },
                SinkStep::Fail(e) => {
                    &&& r == PollEnc::<Self>::Errored(EncodeError::WriterError(e))
                    &&& final(writer).received() == old(writer).received()
                },
            },
    ;
}

/// An encode operation that can report, without any transport attempt, the
/// exact number of bytes it will still write: the length oracle.
pub trait AsyncEncodeLen: AsyncEncode {
    /// The exact number of bytes this operation will still write.  Free of
    /// side effects: it only reads the operation's state, so it may be
    /// called any number of times between poll calls.
    fn remaining_bytes(&self) -> (n: usize)
        ensures
            n as int == self.remaining().len(),
    ;
}

/// How a bounded run of poll calls ended.
#[derive(Clone, Copy, Debug, PartialEq, Eq)]
pub enum DriveOutcome<S> {
    /// The operation completed: the sink received every pending byte.
    Finished,
    /// The attempt budget ran out first; the unfinished operation is
    /// handed back and resumes where it stopped.
    Stalled(S),
    /// The operation failed; the sink received some prefix of the pending
    /// bytes and nothing else.
    Failed(EncodeError),
}

/// Polls `enc` against `writer`, one write attempt per call, until the
/// operation completes or fails, or `budget` calls have been made.  It
/// never polls again after a terminal outcome.
///
/// However the sink fragments, suspends or refuses the writes, a finished
/// run appends to the sink exactly the bytes the operation had pending:
/// resumption equivalence over whole runs.  A stalled run leaves a prefix
/// of them, and its continuation resumes exactly after that prefix; even a
/// failed run leaves nothing but a written prefix.
#[verifier::loop_isolation(false)]
pub fn drive_encode<S: AsyncEncode, W: Sink>(
    enc: S,
    cx: &mut WakeContext,
    writer: &mut W,
    budget: usize,
) -> (r: DriveOutcome<S>)
    requires
        old(writer).responses().len() >= budget,
    ensures
        *final(cx) == *old(cx),
        (r matches DriveOutcome::Finished) ==> final(writer).received() == old(writer).received()
            + enc.remaining(),
        r matches DriveOutcome::Stalled(s2) ==> exists|k: int|
            0 <= k <= enc.remaining().len() && s2.remaining() == enc.remaining().skip(k)
                && final(writer).received() == old(writer).received()
                + #[trigger] enc.remaining().take(k),
        r matches DriveOutcome::Failed(_e) ==> exists|k: int|
            0 <= k <= enc.remaining().len() && final(writer).received() == old(writer).received()
                + #[trigger] enc.remaining().take(k),
{
    let ghost rcv0 = writer.received();
    let ghost rem0 = enc.remaining();
    let mut state = enc;
    let mut i: usize = 0;
    proof {
        assert(rem0.take(0) =~= Seq::<u8>::empty());
        assert(rcv0 + rem0.take(0) =~= rcv0);
    }
    while i < budget
        invariant
            i <= budget,
            writer.responses().len() >= budget - i,
            *cx == *old(cx),
            exists|k: int|
                0 <= k <= rem0.len() && state.remaining() == rem0.skip(k) && writer.received()
                    == rcv0 + #[trigger] rem0.take(k),
        decreases budget - i,
    {
        let ghost k = choose|k: int|
            0 <= k <= rem0.len() && state.remaining() == rem0.skip(k) && writer.received() == rcv0
                + #[trigger] rem0.take(k);
        match state.poll_encode(cx, writer) {
            PollEnc::Done(_n) => {
                proof {
                    if rem0.skip(k).len() == 0 {
                        assert(rem0.take(k) =~= rem0);
                        assert(writer.received() == rcv0 + rem0);
                    } else {
                        assert(rem0.skip(k).take(rem0.skip(k).len() as int) =~= rem0.skip(k));
                        assert((rcv0 + rem0.take(k)) + rem0.skip(k) =~= rcv0 + rem0);
                        assert(writer.received() == rcv0 + rem0);
                    }
                }
                return DriveOutcome::Finished;
            },
            PollEnc::Progress(s2, n) => {
                proof {
                    assert((rcv0 + rem0.take(k)) + rem0.skip(k).take(n as int) =~= rcv0
                        + rem0.take(k + n));
                    assert(rem0.skip(k).skip(n as int) =~= rem0.skip(k + n));
                    assert(writer.received() == rcv0 + rem0.take(k + n));
                    assert(s2.remaining() == rem0.skip(k + n));
                }
                state = s2;
            },
            PollEnc::Pending(s2) => {
                state = s2;
            },
            PollEnc::Errored(e) => {
                proof {
                    assert(writer.received() == rcv0 + rem0.take(k));
                }
                return DriveOutcome::Failed(e);
            },
        }
        i = i + 1;
    }
    DriveOutcome::Stalled(state)
}

/// Encode resumption equivalence.  A poll call that wrote `n` bytes hands
/// the sink the next `n` pending bytes and hands back a continuation whose
/// pending bytes are the rest; this lemma states that the sink's contents
/// plus what the continuation will still write equal the contents of an
/// unsplit run.  Applied along any run, however its polls fragment the
/// value, the sink ends with byte-for-byte the bytes of a one-call run.
pub proof fn lemma_resumption_equivalence<S: AsyncEncode>(s: S, s2: S, received: Seq<u8>, n: int)
    requires
        0 <= n <= s.remaining().len(),
        s2.remaining() == s.remaining().skip(n),
    ensures
        (received + s.remaining().take(n)) + s2.remaining() == received + s.remaining(),
{
    assert((received + s.remaining().take(n)) + s.remaining().skip(n) =~= received
        + s.remaining());
}

/// Length oracle exactness.  A poll call that wrote `n` bytes hands back a
/// continuation whose pending bytes are the rest of the old ones; this
/// lemma states that the continuation's oracle reports exactly the old
/// report minus `n`, in every reachable intermediate state.
pub proof fn lemma_length_oracle_exact<S: AsyncEncodeLen>(s: S, s2: S, n: int)
    requires
        0 <= n <= s.remaining().len(),
        s2.remaining() == s.remaining().skip(n),
    ensures
        s2.remaining().len() == s.remaining().len() - n,
{
}

} // verus!
