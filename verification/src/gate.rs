//! The debounce gate: a single shared timestamp of the last accepted
//! trigger, and the rule that a new trigger is accepted only when the
//! debounce window has elapsed since then.

use vstd::prelude::*;

verus! {

/// Minimum elapsed time, in milliseconds, between two accepted triggers.
pub const DEBOUNCE_WINDOW_MS: u64 = 500;

/// The debounce gate. It owns the timestamp of the last accepted trigger
/// (initially the process start time) and accepts a new trigger only when
/// at least [`DEBOUNCE_WINDOW_MS`] milliseconds have elapsed since.
///
/// Time is a caller-supplied reading of a monotonic clock, in
/// milliseconds. The debounce gate itself needs no monotonicity from the caller:
/// a reading earlier than the stored timestamp simply counts as zero
/// elapsed time and is rejected.
#[derive(Clone, Copy, Debug, PartialEq, Eq, Structural)]
pub struct DebounceGate {
    /// Clock reading at the last accepted trigger, or at construction.
    pub last_execution_ms: u64,
}

impl DebounceGate {
    /// Whether a trigger arriving at clock reading `now_ms` is accepted.
    pub open spec fn accepts(self, now_ms: u64) -> bool {
        now_ms >= self.last_execution_ms + DEBOUNCE_WINDOW_MS
    }

    /// Milliseconds elapsed since the last accepted trigger, saturating
    /// at zero for a reading earlier than the stored timestamp.
    pub open spec fn elapsed_ms_spec(self, now_ms: u64) -> u64 {
        if now_ms >= self.last_execution_ms {
            (now_ms - self.last_execution_ms) as u64
        } else {
            0
        }
    }

    /// The debounce state after one trigger attempt at `now_ms`: advanced to
    /// `now_ms` when accepted, unchanged when rejected.
    pub open spec fn step(self, now_ms: u64) -> DebounceGate {
        if self.accepts(now_ms) {
            DebounceGate { last_execution_ms: now_ms }
        } else {
            self
        }
    }

    /// Creates a gate whose timestamp is the given clock reading, so
    /// that the first acceptance comes no earlier than one debounce
    /// window after it.
    pub fn new(start_ms: u64) -> (gate: DebounceGate)
        ensures
            gate.last_execution_ms == start_ms,
    {
        DebounceGate { last_execution_ms: start_ms }
    }

    /// Milliseconds elapsed since the last accepted trigger.
    pub fn elapsed_ms(&self, now_ms: u64) -> (elapsed: u64)
        ensures
            elapsed == self.elapsed_ms_spec(now_ms),
    {
        if now_ms >= self.last_execution_ms {
            now_ms - self.last_execution_ms
        } else {
            0
        }
    }

    /// The debounce state after a whole run of trigger attempts, one `step`
    /// per clock reading in `times`, in order.
    pub open spec fn after_attempts(self, times: Seq<u64>) -> DebounceGate
        decreases times.len(),
    {
        if times.len() == 0 {
            self
        } else {
            self.after_attempts(times.drop_last()).step(times.last())
        }
    }

    /// Whether the attempt at position `i` of the run is accepted: the
    /// state left by the attempts before it accepts `times[i]`.
    pub open spec fn attempt_accepted(self, times: Seq<u64>, i: int) -> bool
        recommends
            0 <= i < times.len(),
    {
        self.after_attempts(times.subrange(0, i)).accepts(times[i])
    }

    /// One trigger attempt: accepts and advances the timestamp to
    /// `now_ms` when the window has elapsed, else rejects and leaves the
    /// timestamp untouched. The read-compare-write is one exclusive
    /// operation on `self`; the caller serializes access to the debounce gate.
    pub fn try_accept(&mut self, now_ms: u64) -> (accepted: bool)
        ensures
            accepted == old(self).accepts(now_ms),
            *final(self) == old(self).step(now_ms),
    {
        if now_ms >= self.last_execution_ms
            && now_ms - self.last_execution_ms >= DEBOUNCE_WINDOW_MS {
            self.last_execution_ms = now_ms;
            true
        } else {
            false
        }
    }
}

/// The shared timestamp never moves backwards: one attempt leaves it
/// equal (rejected) or advanced past a full window (accepted).
pub proof fn lemma_step_monotone(gate: DebounceGate, now_ms: u64)
    ensures
        gate.step(now_ms).last_execution_ms >= gate.last_execution_ms,
{
}

/// The shared timestamp never moves backwards over a whole run of
/// trigger attempts.
pub proof fn lemma_after_attempts_monotone(gate: DebounceGate, times: Seq<u64>)
    ensures
        gate.after_attempts(times).last_execution_ms >= gate.last_execution_ms,
    decreases times.len(),
{
    if times.len() > 0 {
        lemma_after_attempts_monotone(gate, times.drop_last());
        lemma_step_monotone(gate.after_attempts(times.drop_last()), times.last());
    }
}

/// Running the attempts of `a` and then those of `b` is the same as
/// running those of `a + b` in one go.
pub proof fn lemma_after_attempts_add(gate: DebounceGate, a: Seq<u64>, b: Seq<u64>)
    ensures
        gate.after_attempts(a + b) == gate.after_attempts(a).after_attempts(b),
    decreases b.len(),
{
    if b.len() == 0 {
        assert(a + b =~= a);
    } else {
        Seq::<u64>::drop_last_distributes_over_add(a, b);
        lemma_after_attempts_add(gate, a, b.drop_last());
        assert((a + b).last() == b.last());
    }
}

/// Debounce invariant: in any run of trigger attempts, two accepted
/// attempts are at least one debounce window apart, whatever the clock
/// readings in between.
pub proof fn lemma_debounce_invariant(gate: DebounceGate, times: Seq<u64>, i: int, j: int)
    requires
        0 <= i < j < times.len(),
        gate.attempt_accepted(times, i),
        gate.attempt_accepted(times, j),
    ensures
        times[j] >= times[i] + DEBOUNCE_WINDOW_MS,
{
    let before_i = times.subrange(0, i);
    let through_i = times.subrange(0, i + 1);
    let before_j = times.subrange(0, j);
    let between = times.subrange(i + 1, j);

    assert(through_i.drop_last() =~= before_i);
    assert(through_i.last() == times[i]);
    assert(gate.after_attempts(through_i)
        == gate.after_attempts(before_i).step(times[i]));
    assert(gate.after_attempts(through_i).last_execution_ms == times[i]);

    assert(before_j =~= through_i + between);
    lemma_after_attempts_add(gate, through_i, between);
    lemma_after_attempts_monotone(gate.after_attempts(through_i), between);
    assert(gate.after_attempts(before_j).last_execution_ms >= times[i]);
}

/// Idempotent rejection: a run of attempts in which none is accepted
/// leaves the debounce gate — and so the shared timestamp — exactly as it was.
pub proof fn lemma_rejected_run_unchanged(gate: DebounceGate, times: Seq<u64>)
    requires
        forall|k: int| 0 <= k < times.len() ==> !gate.attempt_accepted(times, k),
    ensures
        gate.after_attempts(times) == gate,
    decreases times.len(),
{
    if times.len() > 0 {
        let shorter = times.drop_last();
        assert forall|k: int| 0 <= k < shorter.len() implies !gate.attempt_accepted(
            shorter,
            k,
        ) by {
            assert(shorter.subrange(0, k) =~= times.subrange(0, k));
            assert(shorter[k] == times[k]);
            assert(!gate.attempt_accepted(times, k));
        }
        lemma_rejected_run_unchanged(gate, shorter);
        assert(!gate.attempt_accepted(times, times.len() - 1));
        assert(times.subrange(0, times.len() - 1) =~= shorter);
        assert(!gate.after_attempts(shorter).accepts(times.last()));
    }
}

} // verus!
