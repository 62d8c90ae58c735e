//! Step-based input state for applications that receive their input as a
//! stream of window events.
//!
//! Events are folded, one at a time, into a per-step record of what happened
//! (edge-triggered transitions) and what currently holds (level-triggered
//! held state). At each step boundary the per-step record is cleared, while
//! held state and session-wide window facts carry over.
//!
//! Coordinates, deltas and scale factors are carried as values of a scalar
//! type parameter `F`; the library stores, orders and clears them but leaves
//! their arithmetic to the caller.

pub mod winit_types;
pub mod event;
pub mod current_input;
pub mod winit_input_helper;
pub mod laws;

pub use crate::current_input::{
    mouse_button_to_int, CurrentInput, InputModel, KeyAction, MouseAction, ScanCodeAction, TextChar,
    PIXELS_PER_LINE,
};
pub use crate::event::{InputEvent, LoopEvent, ScrollDelta};
pub use crate::winit_input_helper::{Focus, HelperModel, WinitInputHelper};
