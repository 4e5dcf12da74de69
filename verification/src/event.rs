//! The event model: raw input events as the OS delivers them, the one
//! trigger condition the program looks for, and the synthetic event it
//! emits in response.

use vstd::prelude::*;

verus! {

/// Identifier of the mouse button whose press triggers the remapping.
/// It is a vendor-specific extra button, matched by its raw numeric id.
pub const TRIGGER_BUTTON_ID: u8 = 1;

/// Number of the function key that an accepted trigger presses.
pub const OUTPUT_FUNCTION_KEY: u8 = 12;

/// A mouse button as reported by the OS input hook: the standard three,
/// or any other button by its raw numeric identifier.
#[derive(Clone, Copy, Debug, PartialEq, Eq, Structural)]
pub enum MouseButton {
    Left,
    Right,
    Middle,
    Other(u8),
}

/// One raw input event delivered by the OS-wide hook. Only the
/// discriminant and the button payload of a press matter to the filter;
/// every other variant is ignored.
#[derive(Clone, Copy, Debug, PartialEq, Eq, Structural)]
pub enum RawInputEvent {
    ButtonPress(MouseButton),
    ButtonRelease(MouseButton),
    KeyPress(u16),
    KeyRelease(u16),
    MouseMove,
    Wheel,
}

/// A request to inject one input event: the press of a function key,
/// named by its number.
#[derive(Clone, Copy, Debug, PartialEq, Eq, Structural)]
pub enum SyntheticEvent {
    FunctionKeyPress(u8),
}

/// The one event that triggers the remapping: a press of the designated
/// extra mouse button.
pub open spec fn is_trigger(event: RawInputEvent) -> bool {
    match event {
        RawInputEvent::ButtonPress(button) => button == MouseButton::Other(TRIGGER_BUTTON_ID),
        _ => false,
    }
}

/// The one synthetic event an accepted trigger produces: a press of the
/// designated function key.
pub open spec fn output_event() -> SyntheticEvent {
    SyntheticEvent::FunctionKeyPress(OUTPUT_FUNCTION_KEY)
}

/// Decides whether a raw event is the trigger.
pub fn is_trigger_event(event: &RawInputEvent) -> (r: bool)
    ensures
        r == is_trigger(*event),
{
    match event {
        RawInputEvent::ButtonPress(button) => match button {
            MouseButton::Other(id) => *id == TRIGGER_BUTTON_ID,
            _ => false,
        },
        _ => false,
    }
}

/// Builds the synthetic event that an accepted trigger emits.
pub fn make_output_event() -> (e: SyntheticEvent)
    ensures
        e == output_event(),
{
    SyntheticEvent::FunctionKeyPress(OUTPUT_FUNCTION_KEY)
}

} // verus!
