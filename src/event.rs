//! The events that the library folds into its state.
use vstd::prelude::*;
use winit::dpi::PhysicalSize;
use winit::event::{MouseButton, VirtualKeyCode};
use std::path::PathBuf;

verus! {

/// A scroll amount, horizontal then vertical, either in lines or in pixels.
#[derive(Clone, Copy, Debug, PartialEq)]
pub enum ScrollDelta<F> {
    LineDelta(F, F),
    PixelDelta(F, F),
}

/// One input or window event.
#[derive(Debug)]
pub enum InputEvent<F> {
    /// A key went down (`pressed`) or up. `scancode` is the physical key;
    /// `virtual_keycode` its symbolic name, where the platform knows it.
    KeyboardInput { scancode: u32, virtual_keycode: Option<VirtualKeyCode>, pressed: bool },
    /// A mouse button went down (`pressed`) or up.
    MouseInput { button: MouseButton, pressed: bool },
    /// The cursor is now at this position in the window.
    CursorMoved { x: F, y: F },
    /// Raw device motion, unaffected by pointer clamping or acceleration.
    MouseMotion { dx: F, dy: F },
    /// The mouse wheel or touchpad scrolled.
    MouseWheel(ScrollDelta<F>),
    /// A character of text was typed.
    ReceivedCharacter(char),
    CloseRequested,
    Destroyed,
    /// The window gained (`true`) or lost (`false`) focus.
    Focused(bool),
    Resized(PhysicalSize<u32>),
    ScaleFactorChanged(F),
    DroppedFile(PathBuf),
}

/// What an event loop hands over: the start of a new batch of events, one
/// event, the end of the batch, or something the library does not use.
#[derive(Debug)]
pub enum LoopEvent<F> {
    NewEvents,
    Event(InputEvent<F>),
    MainEventsCleared,
    Other,
}

} // verus!
