use input_remap::dispatch::{dispatch, DispatchOutcome};
use input_remap::event::{
    is_trigger_event, make_output_event, MouseButton, RawInputEvent, SyntheticEvent,
    OUTPUT_FUNCTION_KEY, TRIGGER_BUTTON_ID,
};
use input_remap::gate::{DebounceGate, DEBOUNCE_WINDOW_MS};

fn trigger() -> RawInputEvent {
    RawInputEvent::ButtonPress(MouseButton::Other(TRIGGER_BUTTON_ID))
}

#[test]
fn debounce_scenario() {
    // The debounce gate opens for the first time one full window after its start
    // reading; attempts then at +0, +100, +400 and +600 ms: only the
    // first and the last are accepted.
    let mut gate = DebounceGate::new(0);
    let base = DEBOUNCE_WINDOW_MS;
    assert!(gate.try_accept(base));
    assert!(!gate.try_accept(base + 100));
    assert!(!gate.try_accept(base + 400));
    assert!(gate.try_accept(base + 600));
}

#[test]
fn debounce_window_boundary() {
    let mut gate = DebounceGate::new(1000);
    assert!(!gate.try_accept(1000 + DEBOUNCE_WINDOW_MS - 1));
    assert!(gate.try_accept(1000 + DEBOUNCE_WINDOW_MS));
}

#[test]
fn gate_starts_closed_for_one_window() {
    // The timestamp is initialized to the start reading, so a trigger
    // within the first window after process start is rejected.
    let mut gate = DebounceGate::new(0);
    assert!(!gate.try_accept(0));
    assert!(!gate.try_accept(DEBOUNCE_WINDOW_MS - 1));
}

#[test]
fn rejection_leaves_timestamp_unchanged() {
    let mut gate = DebounceGate::new(700);
    assert!(!gate.try_accept(800));
    assert!(!gate.try_accept(900));
    assert!(!gate.try_accept(1100));
    assert_eq!(gate.last_execution_ms, 700);
    // The window is still measured from the untouched timestamp.
    assert!(gate.try_accept(700 + DEBOUNCE_WINDOW_MS));
    assert_eq!(gate.last_execution_ms, 700 + DEBOUNCE_WINDOW_MS);
}

#[test]
fn earlier_clock_reading_counts_as_zero_elapsed() {
    let mut gate = DebounceGate::new(5000);
    assert_eq!(gate.elapsed_ms(4000), 0);
    assert!(!gate.try_accept(4000));
    assert_eq!(gate.last_execution_ms, 5000);
}

#[test]
fn largest_clock_reading_accepted() {
    let mut gate = DebounceGate::new(u64::MAX - DEBOUNCE_WINDOW_MS);
    assert!(gate.try_accept(u64::MAX));
    assert_eq!(gate.last_execution_ms, u64::MAX);
}

#[test]
fn filter_ignores_everything_but_the_trigger() {
    let others = [
        RawInputEvent::ButtonRelease(MouseButton::Other(TRIGGER_BUTTON_ID)),
        RawInputEvent::ButtonPress(MouseButton::Left),
        RawInputEvent::ButtonPress(MouseButton::Right),
        RawInputEvent::ButtonPress(MouseButton::Middle),
        RawInputEvent::ButtonPress(MouseButton::Other(2)),
        RawInputEvent::KeyPress(12),
        RawInputEvent::KeyRelease(12),
        RawInputEvent::MouseMove,
        RawInputEvent::Wheel,
    ];
    // Whatever the debounce state — open or still inside the window — a
    // non-trigger event is ignored and the debounce gate is untouched.
    for start in [0u64, 10_000u64] {
        let mut gate = DebounceGate::new(start);
        for event in &others {
            assert!(!is_trigger_event(event));
            let outcome = dispatch(&mut gate, event, 10_500);
            assert_eq!(outcome, DispatchOutcome::Ignored);
            assert_eq!(gate.last_execution_ms, start);
        }
    }
}

#[test]
fn accepted_trigger_maps_to_single_output_key_press() {
    let mut gate = DebounceGate::new(0);
    let outcome = dispatch(&mut gate, &trigger(), 2000);
    assert_eq!(
        outcome,
        DispatchOutcome::Emitted(SyntheticEvent::FunctionKeyPress(OUTPUT_FUNCTION_KEY))
    );
    assert_eq!(gate.last_execution_ms, 2000);
}

#[test]
fn rejected_trigger_reports_elapsed_and_emits_nothing() {
    let mut gate = DebounceGate::new(0);
    assert_eq!(
        dispatch(&mut gate, &trigger(), 2000),
        DispatchOutcome::Emitted(SyntheticEvent::FunctionKeyPress(OUTPUT_FUNCTION_KEY))
    );
    assert_eq!(
        dispatch(&mut gate, &trigger(), 2100),
        DispatchOutcome::Rejected { elapsed_ms: 100 }
    );
    assert_eq!(
        dispatch(&mut gate, &trigger(), 2400),
        DispatchOutcome::Rejected { elapsed_ms: 400 }
    );
    assert_eq!(gate.last_execution_ms, 2000);
}

#[test]
fn synthesis_failure_does_not_roll_back_the_gate() {
    // The timestamp advances when the trigger is accepted, before any
    // injection is attempted; a failed injection (handled by the caller)
    // leaves no mark on the debounce gate, and later events are processed against
    // the advanced timestamp.
    let mut gate = DebounceGate::new(0);
    assert!(matches!(
        dispatch(&mut gate, &trigger(), 1000),
        DispatchOutcome::Emitted(_)
    ));
    assert_eq!(gate.last_execution_ms, 1000);
    // Suppose the injection of that event failed: nothing is fed back,
    // and processing simply continues.
    assert_eq!(
        dispatch(&mut gate, &trigger(), 1100),
        DispatchOutcome::Rejected { elapsed_ms: 100 }
    );
    assert_eq!(
        dispatch(&mut gate, &trigger(), 1000 + DEBOUNCE_WINDOW_MS),
        DispatchOutcome::Emitted(SyntheticEvent::FunctionKeyPress(OUTPUT_FUNCTION_KEY))
    );
}

#[test]
fn output_event_is_the_designated_function_key() {
    assert_eq!(
        make_output_event(),
        SyntheticEvent::FunctionKeyPress(OUTPUT_FUNCTION_KEY)
    );
    assert_eq!(OUTPUT_FUNCTION_KEY, 12);
    assert_eq!(TRIGGER_BUTTON_ID, 1);
}

#[test]
fn trigger_filter_matches_only_the_designated_button() {
    assert!(is_trigger_event(&trigger()));
    assert!(!is_trigger_event(&RawInputEvent::ButtonPress(
        MouseButton::Other(TRIGGER_BUTTON_ID + 1)
    )));
    assert!(!is_trigger_event(&RawInputEvent::ButtonRelease(
        MouseButton::Other(TRIGGER_BUTTON_ID)
    )));
}
