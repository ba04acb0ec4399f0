//! The composition discipline: a composite operation holds one
//! sub-operation active at a time and, on each outer poll call, delegates
//! to exactly one inner poll call.  Suspensions and progress are forwarded,
//! the next part starts only after the current one completes, and so the
//! outer operation makes exactly one transport attempt per call, in
//! deterministic order, like any other operation.

use crate::decode::AsyncDecode;
use crate::encode::AsyncEncode;
use crate::encode::AsyncEncodeLen;
use crate::outcome::PollDec;
use crate::outcome::PollEnc;
use crate::transport::Sink;
use crate::transport::Source;
use crate::transport::WakeContext;
use vstd::prelude::*;

verus! {

/// Two encode operations run back to back: everything the first still has
/// to write, then everything the second still has to write.  Both parts
/// must carry the length oracle, which is how the composite finds out,
/// without any transport attempt, whether its first part is finished.
#[derive(Clone, Copy, Debug, PartialEq, Eq)]
pub enum ChainEncoder<A, B> {
    /// The first part has not finished; the second waits.
    First(A, B),
    /// The first part finished; the second is writing.
    Second(B),
}

impl<A: AsyncEncodeLen, B: AsyncEncodeLen> ChainEncoder<A, B> {
    /// A fresh composite that writes everything `a` still has to write,
    /// then everything `b` still has to write.
    pub fn new(a: A, b: B) -> (e: ChainEncoder<A, B>)
        ensures
            e.remaining() == a.remaining() + b.remaining(),
    {
        ChainEncoder::First(a, b)
    }
}

impl<A: AsyncEncodeLen, B: AsyncEncodeLen> AsyncEncode for ChainEncoder<A, B> {
    open spec fn remaining(&self) -> Seq<u8> {
        match self {
            ChainEncoder::First(a, b) => a.remaining() + b.remaining(),
            ChainEncoder::Second(b) => b.remaining(),
        }
    }

    fn poll_encode<W: Sink>(self, cx: &mut WakeContext, writer: &mut W) -> (r: PollEnc<
        ChainEncoder<A, B>,
    >) {
        match self {
            ChainEncoder::First(a, b) => {
                let ghost rem = a.remaining() + b.remaining();
                if a.remaining_bytes() == 0 {
                    proof {
                        assert(rem =~= b.remaining());
                    }
                    if b.remaining_bytes() == 0 {
                        return PollEnc::Done(0);
                    }
                    match b.poll_encode(cx, writer) {
                        PollEnc::Done(n) => {
                            proof {
                                assert(rem.take(n as int) =~= b.remaining().take(n as int));
                            }
                            PollEnc::Done(n)
                        },
                        PollEnc::Progress(b2, n) => {
                            proof {
                                assert(rem.take(n as int) =~= b.remaining().take(n as int));
                                assert(a.remaining() + b2.remaining() =~= rem.skip(n as int));
                            }
                            PollEnc::Progress(ChainEncoder::First(a, b2), n)
                        },
                        PollEnc::Pending(b2) => PollEnc::Pending(ChainEncoder::First(a, b2)),
                        PollEnc::Errored(e) => PollEnc::Errored(e),
                    }
                } else {
                    match a.poll_encode(cx, writer) {
                        PollEnc::Done(n) => {
                            proof {
                                assert(rem.take(n as int) =~= a.remaining());
                                assert(rem.skip(n as int) =~= b.remaining());
                            }
                            if b.remaining_bytes() == 0 {
                                PollEnc::Done(n)
                            } else {
                                PollEnc::Progress(ChainEncoder::Second(b), n)
                            }
                        },
                        PollEnc::Progress(a2, n) => {
                            proof {
                                assert(rem.take(n as int) =~= a.remaining().take(n as int));
                                assert(a2.remaining() + b.remaining() =~= rem.skip(n as int));
                            }
                            PollEnc::Progress(ChainEncoder::First(a2, b), n)
                        },
                        PollEnc::Pending(a2) => PollEnc::Pending(ChainEncoder::First(a2, b)),
                        PollEnc::Errored(e) => PollEnc::Errored(e),
                    }
                }
            },
            ChainEncoder::Second(b) => {
                if b.remaining_bytes() == 0 {
                    return PollEnc::Done(0);
                }
                match b.poll_encode(cx, writer) {
                    PollEnc::Done(n) => PollEnc::Done(n),
                    PollEnc::Progress(b2, n) => PollEnc::Progress(ChainEncoder::Second(b2), n),
                    PollEnc::Pending(b2) => PollEnc::Pending(ChainEncoder::Second(b2)),
                    PollEnc::Errored(e) => PollEnc::Errored(e),
                }
            },
        }
    }
}

/// Two decode operations run back to back, yielding the pair of their
/// values: the composite delegates each poll call to whichever part is
/// unfinished, holds the first value once it is complete, and completes
/// only when the second part does.  No byte of the second value is asked
/// for before the first value is complete.
pub enum ChainDecoder<A: AsyncDecode, B: AsyncDecode> {
    /// The first part has not finished; the second waits.
    First(A, B),
    /// The first part finished with this value; the second is reading.
    Second(A::Item, B),
}

impl<A: AsyncDecode, B: AsyncDecode<Error = A::Error>> ChainDecoder<A, B> {
    /// A fresh composite that reads one value of `a`, then one of `b`.
    pub fn new(a: A, b: B) -> (d: ChainDecoder<A, B>)
        ensures
            d == ChainDecoder::<A, B>::First(a, b),
    {
        ChainDecoder::First(a, b)
    }
}

impl<A: AsyncDecode, B: AsyncDecode<Error = A::Error>> AsyncDecode for ChainDecoder<A, B> {
    type Item = (A::Item, B::Item);

    type Error = A::Error;

    open spec fn needed(&self) -> nat {
        match self {
            ChainDecoder::First(a, b) => if b.needed() > 0 {
                a.needed()
            } else {
                0
            },
            ChainDecoder::Second(_v, b) => b.needed(),
        }
    }

    open spec fn step_ok(
        &self,
        d: Seq<u8>,
        r: PollDec<(A::Item, B::Item), ChainDecoder<A, B>, A::Error>,
    ) -> bool {
        match self {
            ChainDecoder::First(a, b) => match r {
                PollDec::Progress(s2, m) => {
                    ||| (s2 matches ChainDecoder::First(a2, b2) && b2 == b && a.step_ok(
                        d,
                        PollDec::Progress(a2, m),
                    ))
                    ||| (s2 matches ChainDecoder::Second(v, b2) && b2 == b && a.step_ok(
                        d,
                        PollDec::Done(v, m),
                    ))
                },
                PollDec::Done(_v, _m) => false,
                PollDec::Pending(_s2) => false,
                PollDec::Errored(e) => a.step_ok(d, PollDec::Errored(e)),
            },
            ChainDecoder::Second(v, b) => match r {
                PollDec::Progress(s2, m) => s2 matches ChainDecoder::Second(v2, b2) && v2 == v
                    && b.step_ok(d, PollDec::Progress(b2, m)),
                PollDec::Done(vw, m) => vw.0 == v && b.step_ok(d, PollDec::Done(vw.1, m)),
                PollDec::Pending(_s2) => false,
                PollDec::Errored(e) => b.step_ok(d, PollDec::Errored(e)),
            },
        }
    }

    fn poll_decode<R: Source>(self, cx: &mut WakeContext, reader: &mut R) -> (r: PollDec<
        (A::Item, B::Item),
        ChainDecoder<A, B>,
        A::Error,
    >) {
        match self {
            ChainDecoder::First(a, b) => {
                match a.poll_decode(cx, reader) {
                    PollDec::Done(v, n) => PollDec::Progress(ChainDecoder::Second(v, b), n),
                    PollDec::Progress(a2, n) => PollDec::Progress(ChainDecoder::First(a2, b), n),
                    PollDec::Pending(a2) => PollDec::Pending(ChainDecoder::First(a2, b)),
                    PollDec::Errored(e) => PollDec::Errored(e),
                }
            },
            ChainDecoder::Second(v, b) => {
                match b.poll_decode(cx, reader) {
                    PollDec::Done(w, n) => PollDec::Done((v, w), n),
                    PollDec::Progress(b2, n) => PollDec::Progress(ChainDecoder::Second(v, b2), n),
                    PollDec::Pending(b2) => PollDec::Pending(ChainDecoder::Second(v, b2)),
                    PollDec::Errored(e) => PollDec::Errored(e),
                }
            },
        }
    }
}

} // verus!
