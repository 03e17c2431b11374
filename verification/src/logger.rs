//! In-memory logging: severity levels, log records, and a fixed-capacity
//! ring buffer that overwrites its oldest record when full.

use vstd::prelude::*;
use crate::component::ComponentId;

verus! {

/// Severity of a log record. Intended filtering order is
/// `Debug < Info < Warn < Error`; the order is not enforced numerically here.
#[derive(Copy, Clone, Debug, PartialEq, Eq, Structural)]
pub enum LogLevel {
    Debug,
    Info,
    Warn,
    Error,
}

/// One log entry as stored in the ring buffer. Records are created at the
/// ingestion call site, copied into the buffer, and never mutated afterwards.
/// The message is static text, so storing a record allocates nothing.
#[derive(Copy, Clone, Debug)]
pub struct LogRecord {
    pub level: LogLevel,
    pub component: ComponentId,
    pub message: &'static str,
}

/// The contents of a buffer of capacity `cap` after one more record is
/// pushed: appended while there is room, otherwise the oldest record is
/// evicted to make room.
pub open spec fn push_model(s: Seq<LogRecord>, cap: nat, rec: LogRecord) -> Seq<LogRecord> {
    if s.len() < cap {
        s.push(rec)
    } else {
        s.skip(1).push(rec)
    }
}

/// The contents of a buffer of capacity `cap`, starting from contents `s`,
/// after every record of `recs` is pushed in order.
pub open spec fn push_all_model(s: Seq<LogRecord>, cap: nat, recs: Seq<LogRecord>) -> Seq<LogRecord>
    decreases recs.len(),
{
    if recs.len() == 0 {
        s
    } else {
        push_all_model(push_model(s, cap, recs[0]), cap, recs.skip(1))
    }
}

/// A pluggable consumer of log records (console, file, telemetry encoder,
/// ...), owned by callers rather than by the buffer. `seen` is the ordered
/// history of records the sink has accepted; `write` must not fail: a sink
/// that fails internally manages its own failure and must not cause a drain
/// to abort before visiting the remaining records.
pub trait LogSink {
    /// Every record this sink has accepted, in the order of acceptance.
    /// The default body exists so that ordinary Rust sinks outside this
    /// crate can implement the trait without supplying a specification; an
    /// always-empty history suits no sink that actually accepts records,
    /// so an implementation verified against `write`'s contract has to
    /// supply its own.
    open spec fn seen(&self) -> Seq<LogRecord> {
        Seq::empty()
    }

    /// Accept one record.
    fn write(&mut self, record: &LogRecord)
        ensures
            final(self).seen() == old(self).seen().push(*record),
    ;
}

/// In-memory ring buffer of log records. Slots `head`, `head + 1`, ...,
/// `head + len - 1` (wrapping at `CAP`) hold the records, oldest first;
/// every other slot is empty.
pub struct LogBuffer<const CAP: usize> {
    records: Vec<Option<LogRecord>>,
    head: usize,
    len: usize,
}

/// Physical slot of logical position `i` in a ring of `cap` slots whose
/// oldest entry sits at slot `head`.
spec fn spec_slot(head: int, i: int, cap: int) -> int {
    if head + i < cap {
        head + i
    } else {
        head + i - cap
    }
}

impl<const CAP: usize> LogBuffer<CAP> {
    /// The records currently buffered, oldest first.
    pub closed spec fn view(&self) -> Seq<LogRecord> {
        Seq::new(self.len as nat, |i: int| self.records@[spec_slot(self.head as int, i, CAP as int)]->0)
    }

    /// Structural well-formedness: the slot vector has exactly `CAP` slots,
    /// `head` and `len` are in range, the logical run holds records, and
    /// every slot outside the run is empty.
    pub closed spec fn wf(&self) -> bool {
        &&& CAP > 0
        &&& self.records@.len() == CAP as int
        &&& self.head < CAP
        &&& self.len <= CAP
        &&& forall|i: int|
            0 <= i < self.len ==> (#[trigger] self.records@[spec_slot(
                self.head as int,
                i,
                CAP as int,
            )]) is Some
        &&& forall|i: int|
            self.len <= i < CAP ==> (#[trigger] self.records@[spec_slot(
                self.head as int,
                i,
                CAP as int,
            )]) is None
    }

    /// A well-formed buffer never holds more than `CAP` records.
    pub proof fn lemma_len_bounded(&self)
        requires
            self.wf(),
        ensures
            self@.len() <= CAP as int,
    {
    }

    /// Instantiates an empty ring buffer of `CAP` slots. A zero capacity is
    /// a configuration error and is rejected here, before any use.
    pub fn new() -> (buf: Self)
        requires
            CAP > 0,
        ensures
            buf.wf(),
            buf@ == Seq::<LogRecord>::empty(),
    {
        let mut records: Vec<Option<LogRecord>> = Vec::new();
        let mut i: usize = 0;
        while i < CAP
            invariant
                i <= CAP,
                records@.len() == i,
                forall|j: int| 0 <= j < i ==> records@[j] is None,
            decreases CAP - i,
        {
            records.push(None);
            i += 1;
        }
        let buf = Self { records, head: 0, len: 0 };
        proof {
            assert(buf@ =~= Seq::<LogRecord>::empty());
        }
        buf
    }

    /// Push a log record, overwriting the oldest when full. Eviction is
    /// silent by design: this is a telemetry buffer, not a queue with
    /// backpressure, so the producer is never notified.
    pub fn push(&mut self, rec: LogRecord)
        requires
            old(self).wf(),
        ensures
            final(self).wf(),
            final(self)@ == push_model(old(self)@, CAP as nat, rec),
    {
        let idx = Self::wrap_slot(self.head, self.len);
        self.records[idx] = Some(rec);
        if self.len < CAP {
            self.len = self.len + 1;
            proof {
                lemma_slot_injective(self.head as int, CAP as int);
                assert(self@ =~= push_model(old(self)@, CAP as nat, rec));
            }
        } else {
            // buffer full, move head to drop oldest
            self.head = Self::wrap_slot(self.head, 1);
            proof {
                lemma_slot_injective(old(self).head as int, CAP as int);
                assert forall|i: int| 0 <= i < self.len implies #[trigger] spec_slot(
                    self.head as int,
                    i,
                    CAP as int,
                ) == spec_slot(old(self).head as int, i + 1, CAP as int) by {}
                assert(self@ =~= push_model(old(self)@, CAP as nat, rec));
            }
        }
    }

    /// Copies of the buffered records, oldest to newest, without mutating
    /// buffer state. Each call yields a fresh sequence over the current
    /// contents.
    pub fn iter(&self) -> (out: Vec<LogRecord>)
        requires
            self.wf(),
        ensures
            out@ == self@,
    {
        let mut out: Vec<LogRecord> = Vec::new();
        let mut i: usize = 0;
        while i < self.len
            invariant
                self.wf(),
                i <= self.len,
                out@ == self@.take(i as int),
            decreases self.len - i,
        {
            let idx = Self::wrap_slot(self.head, i);
            match self.records[idx] {
                Some(rec) => {
                    out.push(rec);
                },
                None => {
                    proof {
                        assert(false);
                    }
                },
            }
            i += 1;
            proof {
                assert(out@ =~= self@.take(i as int));
            }
        }
        proof {
            assert(out@ =~= self@);
        }
        out
    }

    /// Remove and return the oldest record. Only meaningful on a non-empty
    /// buffer.
    pub(crate) fn pop_oldest(&mut self) -> (rec: LogRecord)
        requires
            old(self).wf(),
            old(self)@.len() > 0,
        ensures
            final(self).wf(),
            rec == old(self)@[0],
            final(self)@ == old(self)@.skip(1),
    {
        let rec = match self.records[self.head] {
            Some(rec) => rec,
            None => {
                proof {
                    assert(self.records@[spec_slot(self.head as int, 0, CAP as int)] is Some);
                    assert(false);
                }
                LogRecord { level: LogLevel::Debug, component: ComponentId(0), message: "" }
            },
        };
        self.records[self.head] = None;
        self.head = Self::wrap_slot(self.head, 1);
        self.len = self.len - 1;
        proof {
            lemma_slot_injective(old(self).head as int, CAP as int);
            assert forall|i: int| 0 <= i < CAP implies #[trigger] spec_slot(
                self.head as int,
                i,
                CAP as int,
            ) == spec_slot(old(self).head as int, i + 1, CAP as int) || (i == CAP - 1
                && spec_slot(self.head as int, i, CAP as int) == old(self).head as int) by {}
            assert(self@ =~= old(self)@.skip(1));
        }
        rec
    }

    /// True iff no record is buffered.
    pub fn is_empty(&self) -> (r: bool)
        requires
            self.wf(),
        ensures
            r <==> self@.len() == 0,
    {
        self.len == 0
    }

    /// Destructive drain: hands every buffered record to `sink`, oldest to
    /// newest, each exactly once, and leaves the buffer empty. On an empty
    /// buffer this is a no-op.
    pub fn drain<S: LogSink>(&mut self, sink: &mut S)
        requires
            old(self).wf(),
        ensures
            final(self).wf(),
            final(self)@ == Seq::<LogRecord>::empty(),
            final(sink).seen() == old(sink).seen() + old(self)@,
    {
        let mut drained: usize = 0;
        while self.len > 0
            invariant
                self.wf(),
                drained as int + self@.len() == old(self)@.len(),
                self@ == old(self)@.skip(drained as int),
                sink.seen() == old(sink).seen() + old(self)@.take(drained as int),
            decreases self@.len(),
        {
            let rec = self.pop_oldest();
            sink.write(&rec);
            drained += 1;
            proof {
                assert(old(self)@.take(drained as int) =~= old(self)@.take(
                    drained as int - 1,
                ).push(rec));
                assert(self@ =~= old(self)@.skip(drained as int));
            }
        }
        proof {
            assert(self@ =~= Seq::<LogRecord>::empty());
            assert(old(self)@.take(drained as int) =~= old(self)@);
        }
    }

    /// Unconditionally empties the buffer without visiting records; the
    /// backlog is discarded for good.
    pub fn clear(&mut self)
        requires
            old(self).wf(),
        ensures
            final(self).wf(),
            final(self)@ == Seq::<LogRecord>::empty(),
    {
        let mut i: usize = 0;
        while i < CAP
            invariant
                self.records@.len() == CAP as int,
                i <= CAP,
                forall|j: int| 0 <= j < i ==> self.records@[j] is None,
            decreases CAP - i,
        {
            self.records[i] = None;
            i += 1;
        }
        self.head = 0;
        self.len = 0;
        proof {
            assert(self@ =~= Seq::<LogRecord>::empty());
        }
    }

    /// Physical slot of logical position `i`, computed without overflow.
    fn wrap_slot(head: usize, i: usize) -> (r: usize)
        requires
            0 < CAP,
            head < CAP,
            i <= CAP,
        ensures
            r < CAP,
            r == spec_slot(head as int, i as int, CAP as int),
    {
        if i >= CAP - head {
            i - (CAP - head)
        } else {
            head + i
        }
    }
}

/// A capability for recording one event: `(component id, severity, static
/// text)`. Implemented by loggers such as `LogService`; consumed by
/// producers. `buffered` is the ordered backlog the handle currently holds
/// and `handle_cap` the fixed capacity of that backlog.
pub trait LogHandle {
    /// The records currently held, oldest first.
    spec fn buffered(&self) -> Seq<LogRecord>;

    /// The fixed capacity of the backlog.
    spec fn handle_cap(&self) -> nat;

    /// Structural well-formedness of the handle's internal state.
    spec fn handle_inv(&self) -> bool;

    /// Record one event. Never fails; under full backlog the oldest record
    /// is silently evicted.
    fn log_message(&mut self, component: ComponentId, level: LogLevel, message: &'static str)
        requires
            old(self).handle_inv(),
        ensures
            final(self).handle_inv(),
            final(self).handle_cap() == old(self).handle_cap(),
            final(self).buffered() == push_model(
                old(self).buffered(),
                old(self).handle_cap(),
                LogRecord { level, component, message },
            ),
    ;
}

/// Push a record built from the given parts straight into a ring buffer.
pub fn log_raw<const CAP: usize>(
    buf: &mut LogBuffer<CAP>,
    component: ComponentId,
    level: LogLevel,
    message: &'static str,
)
    requires
        old(buf).wf(),
    ensures
        final(buf).wf(),
        final(buf)@ == push_model(old(buf)@, CAP as nat, LogRecord { level, component, message }),
{
    buf.push(LogRecord { level, component, message });
}

/// Pushing one more record onto the result of a push sequence is the same
/// as pushing the extended sequence from the start.
proof fn lemma_push_all_snoc(s: Seq<LogRecord>, cap: nat, recs: Seq<LogRecord>, rec: LogRecord)
    ensures
        push_all_model(s, cap, recs.push(rec)) == push_model(push_all_model(s, cap, recs), cap, rec),
    decreases recs.len(),
{
    if recs.len() == 0 {
        assert(recs.push(rec)[0] == rec);
        assert(recs.push(rec).skip(1) =~= Seq::<LogRecord>::empty());
        assert(push_all_model(s, cap, recs.push(rec)) == push_all_model(
            push_model(s, cap, rec),
            cap,
            Seq::<LogRecord>::empty(),
        ));
        assert(push_all_model(push_model(s, cap, rec), cap, Seq::<LogRecord>::empty())
            == push_model(s, cap, rec));
        assert(push_all_model(s, cap, recs) == s);
    } else {
        let s1 = push_model(s, cap, recs[0]);
        assert(recs.push(rec)[0] == recs[0]);
        assert(recs.push(rec).skip(1) =~= recs.skip(1).push(rec));
        assert(push_all_model(s, cap, recs.push(rec)) == push_all_model(
            s1,
            cap,
            recs.skip(1).push(rec),
        ));
        lemma_push_all_snoc(s1, cap, recs.skip(1), rec);
        assert(push_all_model(s, cap, recs) == push_all_model(s1, cap, recs.skip(1)));
    }
}

/// Law: a sequence of pushes that never exceeds the capacity leaves the
/// buffer holding exactly the pushed records, in push order.
pub proof fn lemma_pushes_within_capacity(cap: nat, recs: Seq<LogRecord>)
    requires
        0 < cap,
        recs.len() <= cap,
    ensures
        push_all_model(Seq::<LogRecord>::empty(), cap, recs) == recs,
    decreases recs.len(),
{
    if recs.len() == 0 {
        assert(push_all_model(Seq::<LogRecord>::empty(), cap, recs) =~= recs);
    } else {
        lemma_pushes_within_capacity(cap, recs.drop_last());
        lemma_push_all_snoc(Seq::<LogRecord>::empty(), cap, recs.drop_last(), recs.last());
        assert(recs.drop_last().push(recs.last()) =~= recs);
    }
}

/// Law: a sequence of pushes that exceeds the capacity by `k` leaves the
/// buffer holding exactly the last `cap` pushed records, oldest first; the
/// `k` oldest records were evicted.
pub proof fn lemma_pushes_over_capacity(cap: nat, recs: Seq<LogRecord>)
    requires
        0 < cap,
        recs.len() > cap,
    ensures
        push_all_model(Seq::<LogRecord>::empty(), cap, recs) == recs.skip(recs.len() - cap),
        push_all_model(Seq::<LogRecord>::empty(), cap, recs).len() == cap,
    decreases recs.len(),
{
    let prefix = recs.drop_last();
    lemma_push_all_snoc(Seq::<LogRecord>::empty(), cap, prefix, recs.last());
    assert(prefix.push(recs.last()) =~= recs);
    if prefix.len() == cap {
        lemma_pushes_within_capacity(cap, prefix);
        assert(prefix.skip(1).push(recs.last()) =~= recs.skip(recs.len() - cap));
    } else {
        lemma_pushes_over_capacity(cap, prefix);
        assert(prefix.skip(prefix.len() - cap).skip(1).push(recs.last()) =~= recs.skip(
            recs.len() - cap,
        ));
    }
}

/// Law: `clear()` followed by any push sequence behaves identically to a
/// freshly constructed buffer receiving that same sequence: both start from
/// an empty backlog, and the contents after any pushes are a function of the
/// backlog alone.
pub proof fn lemma_cleared_buffer_behaves_like_new(
    cleared: Seq<LogRecord>,
    fresh: Seq<LogRecord>,
    cap: nat,
    recs: Seq<LogRecord>,
)
    requires
        cleared.len() == 0,
        fresh.len() == 0,
    ensures
        push_all_model(cleared, cap, recs) == push_all_model(fresh, cap, recs),
{
    assert(cleared =~= fresh);
}

/// Two distinct logical positions of the same ring never share a slot.
proof fn lemma_slot_injective(head: int, cap: int)
    requires
        0 <= head < cap,
    ensures
        forall|i: int, j: int|
            0 <= i < cap && 0 <= j < cap && i != j ==> #[trigger] spec_slot(head, i, cap)
                != #[trigger] spec_slot(head, j, cap),
{
}

} // verus!

