//! The dispatcher: receives each raw input event, filters for the one
//! trigger condition, consults the debounce gate, and names the action
//! the caller is to perform.

use vstd::prelude::*;
use crate::event::{RawInputEvent, SyntheticEvent, is_trigger, is_trigger_event, output_event,
    make_output_event};
use crate::gate::DebounceGate;

verus! {

/// What one delivered event leads to: a synthetic event to inject, a
/// rejection by the debounce gate (with the elapsed milliseconds for the
/// diagnostic line), or nothing at all for a non-trigger event.
#[derive(Clone, Copy, Debug, PartialEq, Eq, Structural)]
pub enum DispatchOutcome {
    Emitted(SyntheticEvent),
    Rejected { elapsed_ms: u64 },
    Ignored,
}

/// The dispatcher's decision for one event at one clock reading.
pub open spec fn dispatch_spec(gate: DebounceGate, event: RawInputEvent, now_ms: u64)
    -> DispatchOutcome {
    if is_trigger(event) {
        if gate.accepts(now_ms) {
            DispatchOutcome::Emitted(output_event())
        } else {
            DispatchOutcome::Rejected { elapsed_ms: gate.elapsed_ms_spec(now_ms) }
        }
    } else {
        DispatchOutcome::Ignored
    }
}

/// The debounce state after the dispatcher has handled one event: stepped on
/// a trigger, untouched on anything else.
pub open spec fn gate_after_dispatch(gate: DebounceGate, event: RawInputEvent, now_ms: u64)
    -> DebounceGate {
    if is_trigger(event) {
        gate.step(now_ms)
    } else {
        gate
    }
}

/// Handles one raw input event at clock reading `now_ms`: filters for
/// the trigger, consults the debounce gate, and returns the action to perform.
/// Every other event class is ignored with no effect on the debounce gate.
pub fn dispatch(gate: &mut DebounceGate, event: &RawInputEvent, now_ms: u64)
    -> (outcome: DispatchOutcome)
    ensures
        outcome == dispatch_spec(*old(gate), *event, now_ms),
        *final(gate) == gate_after_dispatch(*old(gate), *event, now_ms),
{
    if is_trigger_event(event) {
        let elapsed: u64 = gate.elapsed_ms(now_ms);
        if gate.try_accept(now_ms) {
            DispatchOutcome::Emitted(make_output_event())
        } else {
            DispatchOutcome::Rejected { elapsed_ms: elapsed }
        }
    } else {
        DispatchOutcome::Ignored
    }
}

/// The debounce state after one whole callback cycle: the dispatcher handles
/// the event, and on an emitted outcome the caller attempts the
/// injection, which succeeds or fails as `injection_ok` says. The
/// injection is requested only after the debounce gate has stepped, so the
/// resulting state does not depend on `injection_ok`.
pub open spec fn gate_after_cycle(
    gate: DebounceGate,
    event: RawInputEvent,
    now_ms: u64,
    injection_ok: bool,
) -> DebounceGate {
    gate_after_dispatch(gate, event, now_ms)
}

/// Filter correctness: an event that is not a press of the trigger
/// button produces no synthetic event and leaves the debounce gate untouched,
/// whatever the debounce state and the clock reading.
pub proof fn lemma_filter_correctness(gate: DebounceGate, event: RawInputEvent, now_ms: u64)
    requires
        !is_trigger(event),
    ensures
        dispatch_spec(gate, event, now_ms) == DispatchOutcome::Ignored,
        gate_after_dispatch(gate, event, now_ms) == gate,
{
}

/// Single mapping: an accepted trigger produces exactly one synthetic
/// event, and it is the press of the designated output key — never
/// nothing, never anything else.
pub proof fn lemma_single_mapping(gate: DebounceGate, event: RawInputEvent, now_ms: u64)
    requires
        is_trigger(event),
        gate.accepts(now_ms),
    ensures
        dispatch_spec(gate, event, now_ms) == DispatchOutcome::Emitted(output_event()),
{
}

/// A rejected trigger emits nothing: the debounce gate's own diagnostic, with the
/// elapsed time, is the only outcome, and the debounce gate is untouched.
pub proof fn lemma_rejected_trigger_emits_nothing(
    gate: DebounceGate,
    event: RawInputEvent,
    now_ms: u64,
)
    requires
        is_trigger(event),
        !gate.accepts(now_ms),
    ensures
        dispatch_spec(gate, event, now_ms)
            == (DispatchOutcome::Rejected { elapsed_ms: gate.elapsed_ms_spec(now_ms) }),
        gate_after_dispatch(gate, event, now_ms) == gate,
{
}

/// Non-fatal synthesis failure: by the time the injection is attempted
/// the timestamp has already advanced, so a failed injection leaves the
/// debounce state exactly as a successful one does — the accept decision is
/// independent of the synthesis outcome.
pub proof fn lemma_synthesis_outcome_irrelevant(
    gate: DebounceGate,
    event: RawInputEvent,
    now_ms: u64,
    injection_ok: bool,
)
    ensures
        gate_after_cycle(gate, event, now_ms, injection_ok)
            == gate_after_cycle(gate, event, now_ms, !injection_ok),
        is_trigger(event) && gate.accepts(now_ms)
            ==> gate_after_cycle(gate, event, now_ms, injection_ok).last_execution_ms == now_ms,
{
}

} // verus!
