//! Scripted transports: a sink and a source whose behaviour is laid out in
//! advance, response by response.  They are the instrumented doubles the
//! protocol's properties are exercised against: every write or read attempt
//! consumes exactly one planned response, so an observer can count attempts
//! and inspect every byte that moved.

use crate::transport::ReadOutcome;
use crate::transport::Sink;
use crate::transport::SinkStep;
use crate::transport::Source;
use crate::transport::SourceStep;
use crate::transport::WakeContext;
use crate::transport::WriteOutcome;
use vstd::prelude::*;

verus! {

/// A sink that answers its write attempts from a fixed script.
pub struct ScriptedSink {
    /// The planned responses, one per attempt.
    pub script: Vec<SinkStep>,
    /// How many attempts have been answered so far.
    pub cursor: usize,
    /// Every byte accepted so far, in order.
    pub taken: Vec<u8>,
}

impl ScriptedSink {
    /// A fresh sink that will answer with `script`, one entry per attempt.
    pub fn new(script: Vec<SinkStep>) -> (s: ScriptedSink)
        ensures
            s.responses() == script@,
            s.received() == Seq::<u8>::empty(),
            s.attempts() == 0,
    {
        ScriptedSink { script, cursor: 0, taken: Vec::new() }
    }

    /// How many write attempts have been made against this sink.
    pub closed spec fn attempts(&self) -> nat {
        self.cursor as nat
    }

    /// How many write attempts have been made against this sink.
    pub fn attempt_count(&self) -> (n: usize)
        ensures
            n as nat == self.attempts(),
    {
        self.cursor
    }

    /// The bytes accepted so far, in order.
    pub fn received_bytes(&self) -> (b: &Vec<u8>)
        ensures
            b@ == self.received(),
    {
        &self.taken
    }
}

impl Sink for ScriptedSink {
    open spec fn responses(&self) -> Seq<SinkStep> {
        if self.cursor <= self.script@.len() {
            self.script@.skip(self.cursor as int)
        } else {
            Seq::empty()
        }
    }

    open spec fn received(&self) -> Seq<u8> {
        self.taken@
    }

    fn poll_write(&mut self, _cx: &mut WakeContext, buf: &[u8]) -> (r: WriteOutcome) {
        let len = self.script.len();
        proof {
            assert(self.script@.skip(self.cursor as int).len() > 0);
            assert(self.cursor < len);
        }
        let step = self.script[self.cursor];
        self.cursor = self.cursor + 1;
        proof {
            assert(old(self).script@.skip(old(self).cursor as int).skip(1) =~= old(
                self,
            ).script@.skip(old(self).cursor as int + 1));
        }
        match step {
            SinkStep::Accept(k) => {
                let n = if k <= buf.len() {
                    k
                } else {
                    buf.len()
                };
                let mut i: usize = 0;
                while i < n
                    invariant
                        i <= n,
                        n <= buf@.len(),
                        self.script@ == old(self).script@,
                        self.cursor == old(self).cursor + 1,
                        self.taken@ == old(self).taken@ + buf@.take(i as int),
                    decreases n - i,
                {
                    proof {
                        assert(buf@.take(i as int).push(buf@[i as int]) =~= buf@.take(
                            i as int + 1,
                        ));
                    }
                    self.taken.push(buf[i]);
                    i = i + 1;
                }
                WriteOutcome::Written(n)
            },
            SinkStep::Block => WriteOutcome::WouldBlock,
            SinkStep::Fail(e) => WriteOutcome::Failed(e),
        }
    }
}

/// A source that answers its read attempts from a fixed script.  When a
/// planned delivery is larger than what the reader asks for, the rest of
/// the delivery stays at the front of the script for the next attempt.
pub struct ScriptedSource {
    /// The planned responses still to come, first one next.
    pub script: Vec<SourceStep>,
    /// Every byte handed out so far, in order.
    pub given: Vec<u8>,
}

impl ScriptedSource {
    /// A fresh source that will answer with `script`.
    pub fn new(script: Vec<SourceStep>) -> (s: ScriptedSource)
        ensures
            s.responses() == script@,
            s.delivered() == Seq::<u8>::empty(),
    {
        ScriptedSource { script, given: Vec::new() }
    }

    /// How many planned responses have not been consumed yet.
    pub fn steps_left(&self) -> (n: usize)
        ensures
            n as nat == self.responses().len(),
    {
        self.script.len()
    }

    /// The bytes handed out so far, in order.
    pub fn delivered_bytes(&self) -> (b: &Vec<u8>)
        ensures
            b@ == self.delivered(),
    {
        &self.given
    }
}

impl Source for ScriptedSource {
    open spec fn responses(&self) -> Seq<SourceStep> {
        self.script@
    }

    open spec fn delivered(&self) -> Seq<u8> {
        self.given@
    }

    fn poll_read(&mut self, _cx: &mut WakeContext, max: usize) -> (r: ReadOutcome) {
        let step = self.script.remove(0);
        proof {
            assert(old(self).script@.remove(0) =~= old(self).script@.skip(1));
        }
        match step {
            SourceStep::Deliver(chunk) => {
                let n = if max <= chunk.len() {
                    max
                } else {
                    chunk.len()
                };
                let mut out: Vec<u8> = Vec::new();
                let mut i: usize = 0;
                while i < n
                    invariant
                        i <= n,
                        n <= chunk@.len(),
                        out@ == chunk@.take(i as int),
                    decreases n - i,
                {
                    proof {
                        assert(chunk@.take(i as int).push(chunk@[i as int]) =~= chunk@.take(
                            i as int + 1,
                        ));
                    }
                    out.push(chunk[i]);
                    i = i + 1;
                }
                let mut j: usize = 0;
                while j < n
                    invariant
                        j <= n,
                        n <= chunk@.len(),
                        out@ == chunk@.take(n as int),
                        self.script@ == old(self).script@.skip(1),
                        self.given@ == old(self).given@ + chunk@.take(j as int),
                    decreases n - j,
                {
                    proof {
                        assert(chunk@.take(j as int).push(chunk@[j as int]) =~= chunk@.take(
                            j as int + 1,
                        ));
                    }
                    self.given.push(chunk[j]);
                    j = j + 1;
                }
                if n < chunk.len() {
                    let mut rest: Vec<u8> = Vec::new();
                    let mut t: usize = n;
                    while t < chunk.len()
                        invariant
                            n <= t <= chunk@.len(),
                            rest@ == chunk@.subrange(n as int, t as int),
                        decreases chunk@.len() - t,
                    {
                        proof {
                            assert(chunk@.subrange(n as int, t as int).push(chunk@[t as int])
                                =~= chunk@.subrange(n as int, t as int + 1));
                        }
                        rest.push(chunk[t]);
                        t = t + 1;
                    }
                    proof {
                        assert(chunk@.subrange(n as int, chunk@.len() as int) =~= chunk@.skip(
                            n as int,
                        ));
                    }
                    self.script.insert(0, SourceStep::Deliver(rest));
                    proof {
                        assert(old(self).script@.skip(1).insert(0, SourceStep::Deliver(rest)).skip(1)
                            =~= old(self).script@.skip(1));
                    }
                }
                ReadOutcome::Data(out)
            },
            SourceStep::Block => ReadOutcome::WouldBlock,
            SourceStep::Fail(e) => ReadOutcome::Failed(e),
        }
    }
}

} // verus!
