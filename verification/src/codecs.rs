//! Small concrete codecs that exercise the operation contracts: an encoder
//! for a two-byte little-endian integer field and decoders for a boolean
//! byte and a length-prefixed byte string.

use crate::decode::AsyncDecode;
use crate::encode::AsyncEncode;
use crate::encode::AsyncEncodeLen;
use crate::error::DecodeError;
use crate::error::EncodeError;
use crate::outcome::PollDec;
use crate::outcome::PollEnc;
use crate::transport::ReadOutcome;
use crate::transport::Sink;
use crate::transport::Source;
use crate::transport::WakeContext;
use crate::transport::WriteOutcome;
use vstd::prelude::*;

verus! {

/// The two little-endian bytes of a sixteen-bit value, low byte first.
pub open spec fn u16_le_bytes(v: u16) -> Seq<u8> {
    seq![(v & 0xff) as u8, ((v >> 8) & 0xff) as u8]
}

/// An encode operation writing one sixteen-bit value as a two-byte
/// little-endian field.  `written` counts the bytes already accepted by
/// the sink; the operation resumes after them.
#[derive(Clone, Copy, Debug, PartialEq, Eq, Structural)]
pub struct U16LeEncoder {
    /// The value being written.
    pub value: u16,
    /// How many of its two bytes the sink has already accepted.
    pub written: usize,
}

impl U16LeEncoder {
    /// A fresh operation that will write both bytes of `value`.
    pub fn new(value: u16) -> (e: U16LeEncoder)
        ensures
            e.remaining() == u16_le_bytes(value),
            e.remaining().len() == 2,
    {
        U16LeEncoder { value, written: 0 }
    }
}

impl AsyncEncode for U16LeEncoder {
    open spec fn remaining(&self) -> Seq<u8> {
        if self.written <= 2 {
            u16_le_bytes(self.value).skip(self.written as int)
        } else {
            Seq::empty()
        }
    }

    fn poll_encode<W: Sink>(self, cx: &mut WakeContext, writer: &mut W) -> (r: PollEnc<
        U16LeEncoder,
    >) {
        if self.written >= 2 {
            return PollEnc::Done(0);
        }
        let lo = (self.value & 0xff) as u8;
        let hi = ((self.value >> 8) & 0xff) as u8;
        let mut buf: Vec<u8> = Vec::new();
        if self.written == 0 {
            buf.push(lo);
        }
        buf.push(hi);
        proof {
            assert(buf@ =~= self.remaining());
        }
        match writer.poll_write(cx, buf.as_slice()) {
            WriteOutcome::Written(n) => {
                if n == 0 {
                    PollEnc::Errored(EncodeError::WriteZero)
                } else if n == buf.len() {
                    proof {
                        assert(self.remaining().take(n as int) =~= self.remaining());
                    }
                    PollEnc::Done(n)
                } else {
                    let next = U16LeEncoder { value: self.value, written: self.written + n };
                    proof {
                        assert(next.remaining() =~= self.remaining().skip(n as int));
                    }
                    PollEnc::Progress(next, n)
                }
            },
            WriteOutcome::WouldBlock => PollEnc::Pending(self),
            WriteOutcome::Failed(e) => PollEnc::Errored(EncodeError::WriterError(e)),
        }
    }
}

impl AsyncEncodeLen for U16LeEncoder {
    fn remaining_bytes(&self) -> (n: usize)
        ensures
            n as int == self.remaining().len(),
    {
        if self.written >= 2 {
            0
        } else {
            2 - self.written
        }
    }
}

/// A decode operation reading a length-prefixed byte string: one length
/// byte, then exactly that many payload bytes.  It consumes nothing past
/// the payload's end, so a sibling decoder finds the source positioned
/// exactly after the string.
#[derive(Clone, Debug, PartialEq, Eq)]
pub enum PrefixedDecoder {
    /// Waiting for the length byte.
    Len,
    /// The length byte said `expected` payload bytes; `got` holds the
    /// payload bytes read so far, always fewer than `expected`.
    Payload {
        /// The payload length announced by the length byte.
        expected: u8,
        /// The payload bytes read so far, in order.
        got: Vec<u8>,
    },
}

impl PrefixedDecoder {
    /// A fresh operation that will read one length-prefixed byte string.
    pub fn new() -> (d: PrefixedDecoder)
        ensures
            d == PrefixedDecoder::Len,
            d.needed() == 1,
    {
        PrefixedDecoder::Len
    }
}

impl AsyncDecode for PrefixedDecoder {
    type Item = Vec<u8>;

    type Error = u8;

    open spec fn needed(&self) -> nat {
        match self {
            PrefixedDecoder::Len => 1,
            PrefixedDecoder::Payload { expected, got } => if got@.len() <= expected as nat {
                (expected as nat - got@.len()) as nat
            } else {
                0
            },
        }
    }

    open spec fn step_ok(&self, d: Seq<u8>, r: PollDec<Vec<u8>, PrefixedDecoder, u8>) -> bool {
        match self {
            PrefixedDecoder::Len => d.len() == 1 ==> {
                if d[0] == 0 {
                    r matches PollDec::Done(v, m) && v@ == Seq::<u8>::empty() && m == 1
                } else {
                    r matches PollDec::Progress(s2, m) && m == 1 && (
                    s2 matches PrefixedDecoder::Payload { expected, got } && expected == d[0]
                        && got@ == Seq::<u8>::empty())
                }
            },
            PrefixedDecoder::Payload { expected, got } => (1 <= d.len() <= self.needed()) ==> {
                if got@.len() + d.len() == expected as nat {
                    r matches PollDec::Done(v, m) && v@ == got@ + d && m as int == d.len()
                } else {
                    r matches PollDec::Progress(s2, m) && m as int == d.len() && (
                    s2 matches PrefixedDecoder::Payload { expected: e2, got: g2 } && e2 == expected
                        && g2@ == got@ + d)
                }
            },
        }
    }

    fn poll_decode<R: Source>(self, cx: &mut WakeContext, reader: &mut R) -> (r: PollDec<
        Vec<u8>,
        PrefixedDecoder,
        u8,
    >) {
        match self {
            PrefixedDecoder::Len => {
                match reader.poll_read(cx, 1) {
                    ReadOutcome::Data(v) => {
                        if v.len() == 0 {
                            PollDec::Errored(DecodeError::UnexpectedEndOfInput)
                        } else {
                            let b = v[0];
                            if b == 0 {
                                PollDec::Done(Vec::new(), 1)
                            } else {
                                PollDec::Progress(
                                    PrefixedDecoder::Payload { expected: b, got: Vec::new() },
                                    1,
                                )
                            }
                        }
                    },
                    ReadOutcome::WouldBlock => PollDec::Pending(PrefixedDecoder::Len),
                    ReadOutcome::Failed(e) => PollDec::Errored(DecodeError::ReaderError(e)),
                }
            },
            PrefixedDecoder::Payload { expected, mut got } => {
                let need = expected as usize - got.len();
                match reader.poll_read(cx, need) {
                    ReadOutcome::Data(v) => {
                        if v.len() == 0 {
                            PollDec::Errored(DecodeError::UnexpectedEndOfInput)
                        } else {
                            let m = v.len();
                            let ghost got0 = got@;
                            let mut i: usize = 0;
                            while i < m
                                invariant
                                    i <= m,
                                    m == v@.len(),
                                    got@ == got0 + v@.take(i as int),
                                decreases m - i,
                            {
                                proof {
                                    assert(v@.take(i as int).push(v@[i as int]) =~= v@.take(
                                        i as int + 1,
                                    ));
                                }
                                got.push(v[i]);
                                i = i + 1;
                            }
                            proof {
                                assert(v@.take(m as int) =~= v@);
                            }
                            if got.len() == expected as usize {
                                PollDec::Done(got, m)
                            } else {
                                PollDec::Progress(PrefixedDecoder::Payload { expected, got }, m)
                            }
                        }
                    },
                    ReadOutcome::WouldBlock => PollDec::Pending(
                        PrefixedDecoder::Payload { expected, got },
                    ),
                    ReadOutcome::Failed(e) => PollDec::Errored(DecodeError::ReaderError(e)),
                }
            },
        }
    }
}

/// Decode resumption equivalence for the length-prefixed string: when a
/// payload continuation consumes a first delivery without completing and
/// the continuation it hands back then completes on a second delivery, the
/// decoded value is byte-for-byte the one decoded when a single delivery
/// carries both parts at once.  How the payload is fragmented cannot
/// change the value.
pub proof fn lemma_prefixed_fragmentation(
    s: PrefixedDecoder,
    s2: PrefixedDecoder,
    d1: Seq<u8>,
    d2: Seq<u8>,
    m1: usize,
    v: Vec<u8>,
    m2: usize,
    w: Vec<u8>,
    m3: usize,
)
    requires
        1 <= d1.len(),
        1 <= d2.len(),
        d1.len() + d2.len() <= s.needed(),
        s matches PrefixedDecoder::Payload { .. },
        s.step_ok(d1, PollDec::Progress(s2, m1)),
        s2.step_ok(d2, PollDec::Done(v, m2)),
        s.step_ok(d1 + d2, PollDec::Done(w, m3)),
    ensures
        v@ == w@,
{
    let got = s->Payload_got;
    assert(s2->Payload_got@ == got@ + d1);
    assert(v@ == (got@ + d1) + d2);
    assert(w@ == got@ + (d1 + d2));
    assert((got@ + d1) + d2 =~= got@ + (d1 + d2));
}

/// A decode operation reading one boolean byte: zero is false, one is
/// true, and anything else is a data error carrying the offending byte.
#[derive(Clone, Copy, Debug, PartialEq, Eq, Structural)]
pub struct BoolDecoder;

impl BoolDecoder {
    /// A fresh operation that will read one boolean byte.
    pub fn new() -> (d: BoolDecoder)
        ensures
            d.needed() == 1,
    {
        BoolDecoder
    }
}

impl AsyncDecode for BoolDecoder {
    type Item = bool;

    type Error = u8;

    open spec fn needed(&self) -> nat {
        1
    }

    open spec fn step_ok(&self, d: Seq<u8>, r: PollDec<bool, BoolDecoder, u8>) -> bool {
        d.len() == 1 ==> {
            if d[0] == 0 {
                r == PollDec::<bool, BoolDecoder, u8>::Done(false, 1)
            } else if d[0] == 1 {
                r == PollDec::<bool, BoolDecoder, u8>::Done(true, 1)
            } else {
                r == PollDec::<bool, BoolDecoder, u8>::Errored(DecodeError::DataError(d[0]))
            }
        }
    }

    fn poll_decode<R: Source>(self, cx: &mut WakeContext, reader: &mut R) -> (r: PollDec<
        bool,
        BoolDecoder,
        u8,
    >) {
        match reader.poll_read(cx, 1) {
            ReadOutcome::Data(v) => {
                if v.len() == 0 {
                    PollDec::Errored(DecodeError::UnexpectedEndOfInput)
                } else {
                    let b = v[0];
                    if b == 0 {
                        PollDec::Done(false, 1)
                    } else if b == 1 {
                        PollDec::Done(true, 1)
                    } else {
                        PollDec::Errored(DecodeError::DataError(b))
                    }
                }
            },
            ReadOutcome::WouldBlock => PollDec::Pending(BoolDecoder),
            ReadOutcome::Failed(e) => PollDec::Errored(DecodeError::ReaderError(e)),
        }
    }
}

} // verus!
