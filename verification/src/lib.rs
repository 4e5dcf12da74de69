//! A small input-remapping library: one mouse-button press maps to one
//! synthetic function-key press, protected by a global debounce window.
//!
//! The library holds the decision logic — event filtering, the debounce
//! gate over a shared timestamp, and the trigger-to-output mapping — as
//! verified functions over plain values. The surrounding process supplies
//! the clock reading and performs the OS-level listening and injection.

pub mod event;
pub mod gate;
pub mod dispatch;
