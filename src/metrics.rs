use vstd::prelude::*;

verus! {

/// The five counters as read at one instant.
#[derive(Clone, Copy, Debug, PartialEq, Eq, Structural)]
pub struct MetricsSnapshot {
    pub ops_dispatched: u64,
    pub ops_completed: u64,
    pub bytes_sent_control: u64,
    pub bytes_sent_data: u64,
    pub bytes_received: u64,
}

/// `a + b`, held at `u64::MAX` when it does not fit.
pub open spec fn sat_add(a: u64, b: u64) -> u64 {
    if a + b > u64::MAX {
        u64::MAX
    } else {
        (a + b) as u64
    }
}

/// Every counter of `a` is at most the same counter of `b`.
pub open spec fn counters_le(a: MetricsSnapshot, b: MetricsSnapshot) -> bool {
    &&& a.ops_dispatched <= b.ops_dispatched
    &&& a.ops_completed <= b.ops_completed
    &&& a.bytes_sent_control <= b.bytes_sent_control
    &&& a.bytes_sent_data <= b.bytes_sent_data
    &&& a.bytes_received <= b.bytes_received
}

/// Counters after one more dispatch has started.
pub open spec fn after_dispatch(m: MetricsSnapshot) -> MetricsSnapshot {
    MetricsSnapshot { ops_dispatched: sat_add(m.ops_dispatched, 1), ..m }
}

/// Counters after a terminal outcome that moved `control` request bytes,
/// `data` raw-buffer bytes and `received` response bytes. Nothing changes
/// when no dispatch is outstanding.
pub open spec fn after_completion(m: MetricsSnapshot, control: u64, data: u64, received: u64) -> MetricsSnapshot {
    if m.ops_completed < m.ops_dispatched {
        MetricsSnapshot {
            ops_dispatched: m.ops_dispatched,
            ops_completed: (m.ops_completed + 1) as u64,
            bytes_sent_control: sat_add(m.bytes_sent_control, control),
            bytes_sent_data: sat_add(m.bytes_sent_data, data),
            bytes_received: sat_add(m.bytes_received, received),
        }
    } else {
        m
    }
}

/// Per-isolate counters that observe every dispatch. Counters only grow,
/// saturating at `u64::MAX`, and completions never outnumber dispatches.
pub struct Metrics {
    counts: MetricsSnapshot,
}

impl View for Metrics {
    type V = MetricsSnapshot;

    closed spec fn view(&self) -> MetricsSnapshot {
        self.counts
    }
}

impl Metrics {
    pub open spec fn wf(&self) -> bool {
        self@.ops_completed <= self@.ops_dispatched
    }

    pub fn new() -> (r: Metrics)
        ensures
            r.wf(),
            r@ == (MetricsSnapshot {
                ops_dispatched: 0,
                ops_completed: 0,
                bytes_sent_control: 0,
                bytes_sent_data: 0,
                bytes_received: 0,
            }),
    {
        Metrics {
            counts: MetricsSnapshot {
                ops_dispatched: 0,
                ops_completed: 0,
                bytes_sent_control: 0,
                bytes_sent_data: 0,
                bytes_received: 0,
            },
        }
    }

    /// Reads all five counters.
    pub fn snapshot(&self) -> (r: MetricsSnapshot)
        requires
            self.wf(),
        ensures
            r == self@,
            r.ops_completed <= r.ops_dispatched,
    {
        self.counts
    }

    /// Records that a dispatch has started.
    pub fn op_dispatched(&mut self)
        requires
            old(self).wf(),
        ensures
            final(self).wf(),
            final(self)@ == after_dispatch(old(self)@),
            counters_le(old(self)@, final(self)@),
    {
        self.counts.ops_dispatched = self.counts.ops_dispatched.saturating_add(1);
    }

    /// Records the terminal outcome of a dispatch with the bytes it moved:
    /// the JSON request, the raw buffer, and the JSON response. A completion
    /// with no dispatch outstanding is not recorded, and `false` is returned.
    pub fn op_completed(&mut self, control_len: u64, data_len: u64, received_len: u64) -> (r: bool)
        requires
            old(self).wf(),
        ensures
            final(self).wf(),
            counters_le(old(self)@, final(self)@),
            r == (old(self)@.ops_completed < old(self)@.ops_dispatched),
            final(self)@ == after_completion(old(self)@, control_len, data_len, received_len),
    {
        if self.counts.ops_completed < self.counts.ops_dispatched {
            self.counts.ops_completed = self.counts.ops_completed + 1;
            self.counts.bytes_sent_control = self.counts.bytes_sent_control.saturating_add(control_len);
            self.counts.bytes_sent_data = self.counts.bytes_sent_data.saturating_add(data_len);
            self.counts.bytes_received = self.counts.bytes_received.saturating_add(received_len);
            true
        } else {
            false
        }
    }
}

/// Snapshots read along any run of states in which each step leaves every
/// counter at least where it was (as every method of `Metrics` does) never
/// show a counter going down: an earlier snapshot is below a later one.
pub proof fn lemma_snapshots_monotonic(states: Seq<MetricsSnapshot>, i: int, j: int)
    requires
        forall|k: int| 0 <= k < states.len() - 1 ==> counters_le(#[trigger] states[k], states[k + 1]),
        0 <= i <= j < states.len(),
    ensures
        counters_le(states[i], states[j]),
    decreases j - i,
{
    if i < j {
        lemma_snapshots_monotonic(states, i, j - 1);
        assert(counters_le(states[j - 1], states[j]));
    }
}

} // verus!
