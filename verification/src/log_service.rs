//! The standard logging service: owns one ring buffer, exposes single-writer
//! ingestion and multi-sink draining.
//!
//! Not thread-safe: one execution context owns the service, performs
//! ingestion and periodic draining, and sinks run synchronously on the
//! draining context's call stack.

use vstd::prelude::*;
use crate::component::ComponentId;
use crate::logger::{LogBuffer, LogHandle, LogLevel, LogRecord, LogSink, push_model};

verus! {

/// Standard logging service: one ring buffer of capacity `CAP`, shared by
/// all producers through the `LogHandle` capability.
pub struct LogService<const CAP: usize> {
    buf: LogBuffer<CAP>,
}

impl<const CAP: usize> LogService<CAP> {
    /// The records currently buffered, oldest first.
    pub closed spec fn view(&self) -> Seq<LogRecord> {
        self.buf@
    }

    /// Well-formedness of the owned buffer.
    pub closed spec fn wf(&self) -> bool {
        self.buf.wf()
    }

    /// A service with an empty backlog. A zero capacity is rejected here,
    /// at construction, before it could reach a push.
    pub fn new() -> (s: Self)
        requires
            CAP > 0,
        ensures
            s.wf(),
            s@ == Seq::<LogRecord>::empty(),
    {
        Self { buf: LogBuffer::new() }
    }

    /// Drain all pending records into a single sink, oldest first; the
    /// backlog is empty afterwards.
    pub fn drain<S: LogSink>(&mut self, sink: &mut S)
        requires
            old(self).wf(),
        ensures
            final(self).wf(),
            final(self)@ == Seq::<LogRecord>::empty(),
            final(sink).seen() == old(sink).seen() + old(self)@,
    {
        self.buf.drain(sink);
    }

    /// Drain into multiple sinks (console + file etc.). The buffer is
    /// drained once; every drained record is handed to every sink, in the
    /// fixed order the sinks appear in, before the next record is handed to
    /// any sink. All sinks therefore see the same ordered view of the
    /// drained records.
    pub fn drain_multi<S: LogSink>(&mut self, sinks: &mut Vec<S>)
        requires
            old(self).wf(),
        ensures
            final(self).wf(),
            final(self)@ == Seq::<LogRecord>::empty(),
            final(sinks)@.len() == old(sinks)@.len(),
            forall|k: int|
                0 <= k < old(sinks)@.len() ==> (#[trigger] final(sinks)@[k]).seen() == old(
                    sinks,
                )@[k].seen() + old(self)@,
    {
        let ghost orig_recs = self.buf@;
        let ghost orig_sinks = sinks@;
        proof {
            self.buf.lemma_len_bounded();
        }
        let mut drained: usize = 0;
        while !self.buf.is_empty()
            invariant
                self.buf.wf(),
                orig_recs.len() <= usize::MAX,
                drained as int + self.buf@.len() == orig_recs.len(),
                self.buf@ == orig_recs.skip(drained as int),
                sinks@.len() == orig_sinks.len(),
                forall|k: int|
                    0 <= k < orig_sinks.len() ==> (#[trigger] sinks@[k]).seen()
                        == orig_sinks[k].seen() + orig_recs.take(drained as int),
            decreases self.buf@.len(),
        {
            let rec = self.buf.pop_oldest();
            proof {
                assert(rec == orig_recs[drained as int]);
            }
            let mut j: usize = 0;
            while j < sinks.len()
                invariant
                    j <= sinks@.len(),
                    sinks@.len() == orig_sinks.len(),
                    rec == orig_recs[drained as int],
                    drained < orig_recs.len(),
                    forall|k: int|
                        0 <= k < j ==> (#[trigger] sinks@[k]).seen() == orig_sinks[k].seen()
                            + orig_recs.take(drained as int + 1),
                    forall|k: int|
                        j <= k < orig_sinks.len() ==> (#[trigger] sinks@[k]).seen()
                            == orig_sinks[k].seen() + orig_recs.take(drained as int),
                decreases sinks@.len() - j,
            {
                let s = &mut sinks[j];
                s.write(&rec);
                proof {
                    assert(orig_recs.take(drained as int + 1) =~= orig_recs.take(
                        drained as int,
                    ).push(rec));
                }
                j += 1;
            }
            drained += 1;
            proof {
                assert(self.buf@ =~= orig_recs.skip(drained as int));
            }
        }
        proof {
            assert(self.buf@ =~= Seq::<LogRecord>::empty());
            assert(orig_recs.take(drained as int) =~= orig_recs);
        }
    }

    /// Check if there are logs pending: true iff the buffer is non-empty.
    /// A scheduler can use this to decide whether a drain pass is
    /// worthwhile.
    pub fn has_pending(&self) -> (r: bool)
        requires
            self.wf(),
        ensures
            r <==> self@.len() != 0,
    {
        !self.buf.is_empty()
    }

    /// Read-only view of the current backlog, oldest first, for inspection
    /// or telemetry use without disturbing it.
    pub fn snapshot(&self) -> (out: Vec<LogRecord>)
        requires
            self.wf(),
        ensures
            out@ == self@,
    {
        self.buf.iter()
    }
}

/// The service is the framework's standard `LogHandle`: ingestion only
/// publishes the record to the ring buffer.
impl<const CAP: usize> LogHandle for LogService<CAP> {
    open spec fn buffered(&self) -> Seq<LogRecord> {
        self@
    }

    open spec fn handle_cap(&self) -> nat {
        CAP as nat
    }

    open spec fn handle_inv(&self) -> bool {
        self.wf()
    }

    fn log_message(&mut self, component: ComponentId, level: LogLevel, message: &'static str) {
        self.buf.push(LogRecord { level, component, message });
    }
}

} // verus!
