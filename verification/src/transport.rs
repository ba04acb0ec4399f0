//! The transport boundary: the write capability a sink must offer to an
//! encode operation and the read capability a source must offer to a decode
//! operation.
//!
//! A transport is modelled by the sequence of responses it will give to the
//! attempts made against it.  Each poll consumes exactly the first planned
//! response, which is how the single-attempt discipline is stated: one poll
//! call moves the plan forward by exactly one response.

use crate::error::TransportError;
use vstd::prelude::*;

verus! {

/// The smaller of two mathematical integers.
pub open spec fn at_most(a: int, b: int) -> int {
    if a <= b {
        a
    } else {
        b
    }
}

/// The opaque wake-up token a driver hands to every poll call.  The
/// operation forwards it unchanged to any nested transport attempt; the
/// core never interprets it.
#[derive(Clone, Copy, Debug, PartialEq, Eq, Structural)]
pub struct WakeContext {
    /// Identifies the waiting task to the external scheduler.
    pub token: u64,
}

/// One planned response of a sink: what its next write attempt will do.
#[derive(Clone, Copy, Debug, PartialEq, Eq, Structural)]
pub enum SinkStep {
    /// The sink will accept up to this many bytes of whatever is offered.
    Accept(usize),
    /// The sink would block.
    Block,
    /// The sink will report this fault.
    Fail(TransportError),
}

/// What one write attempt against a sink reported.
#[derive(Clone, Copy, Debug, PartialEq, Eq, Structural)]
pub enum WriteOutcome {
    /// This many of the offered bytes were accepted.  Zero while data was
    /// offered is a protocol violation that the encode operation reports
    /// as a write-zero failure.
    Written(usize),
    /// No bytes moved; the caller should arrange to be woken when the sink
    /// becomes ready.
    WouldBlock,
    /// The sink failed; no bytes moved.
    Failed(TransportError),
}

/// One planned response of a source: what its next read attempt will do.
#[derive(Clone, Debug, PartialEq, Eq)]
pub enum SourceStep {
    /// The source will deliver a prefix of these bytes, as many as the
    /// reader asked for.  An empty delivery means the source has closed.
    Deliver(Vec<u8>),
    /// The source would block.
    Block,
    /// The source will report this fault.
    Fail(TransportError),
}

/// What one read attempt against a source reported.
#[derive(Clone, Debug, PartialEq, Eq)]
pub enum ReadOutcome {
    /// These bytes were delivered.  An empty delivery while the value is
    /// incomplete means the input ended early.
    Data(Vec<u8>),
    /// No bytes moved; the caller should arrange to be woken when the
    /// source becomes ready.
    WouldBlock,
    /// The source failed; no bytes moved.
    Failed(TransportError),
}

/// A byte sink supporting single-attempt, non-blocking writes.
///
/// `responses` is the plan of what the sink will do on each coming attempt,
/// and `received` is everything it has accepted so far.  One call to
/// `poll_write` consumes exactly one planned response, whatever it is.
pub trait Sink {
    /// What the sink will do on this and the following write attempts.
    spec fn responses(&self) -> Seq<SinkStep>;

    /// Every byte the sink has accepted so far, in order.
    spec fn received(&self) -> Seq<u8>;

    /// Make exactly one write attempt, offering the bytes of `buf`.
    fn poll_write(&mut self, cx: &mut WakeContext, buf: &[u8]) -> (r: WriteOutcome)
        requires
            old(self).responses().len() > 0,
            buf@.len() > 0,
        ensures
            *final(cx) == *old(cx),
            final(self).responses() == old(self).responses().skip(1),
            match old(self).responses()[0] {
                SinkStep::Accept(k) => {
                    &&& r == WriteOutcome::Written(at_most(k as int, buf@.len() as int) as usize)
                    &&& final(self).received() == old(self).received() + buf@.take(
                        at_most(k as int, buf@.len() as int),
                    )
                },
                SinkStep::Block => {
                    &&& r == WriteOutcome::WouldBlock
                    &&& final(self).received() == old(self).received()
                },
                SinkStep::Fail(e) => {
                    &&& r == WriteOutcome::Failed(e)
                    &&& final(self).received() == old(self).received()
                },
            },
    ;
}

/// A byte source supporting single-attempt, non-blocking reads.
///
/// `responses` is the plan of what the source will do on each coming
/// attempt, and `delivered` is everything it has handed out so far.  One
/// call to `poll_read` consumes exactly one planned response; when a
/// planned delivery is larger than what the reader asked for, the rest of
/// it stays at the front of the plan, so no byte is lost and no byte is
/// handed out past what the reader asked for.
pub trait Source {
    /// What the source will do on this and the following read attempts.
    spec fn responses(&self) -> Seq<SourceStep>;

    /// Every byte the source has handed out so far, in order.
    spec fn delivered(&self) -> Seq<u8>;

    /// Make exactly one read attempt, asking for at most `max` bytes.
    fn poll_read(&mut self, cx: &mut WakeContext, max: usize) -> (r: ReadOutcome)
        requires
            old(self).responses().len() > 0,
            max > 0,
        ensures
            *final(cx) == *old(cx),
            match old(self).responses()[0] {
                SourceStep::Deliver(chunk) => {
                    let d = chunk@.take(at_most(max as int, chunk@.len() as int));
                    &&& (r matches ReadOutcome::Data(v) && v@ == d)
                    &&& final(self).delivered() == old(self).delivered() + d
                    &&& if d.len() == chunk@.len() {
                        final(self).responses() == old(self).responses().skip(1)
                    } else {
                        &&& final(self).responses().len() == old(self).responses().len()
                        &&& (final(self).responses()[0] matches SourceStep::Deliver(rest)
                            && rest@ == chunk@.skip(d.len() as int))
                        &&& final(self).responses().skip(1) == old(self).responses().skip(1)
                    }
                },
                SourceStep::Block => {
                    &&& r == ReadOutcome::WouldBlock
                    &&& final(self).delivered() == old(self).delivered()
                    &&& final(self).responses() == old(self).responses().skip(1)
                },
                SourceStep::Fail(e) => {
                    &&& r == ReadOutcome::Failed(e)
                    &&& final(self).delivered() == old(self).delivered()
                    &&& final(self).responses() == old(self).responses().skip(1)
                },
            },
    ;
}

} // verus!
