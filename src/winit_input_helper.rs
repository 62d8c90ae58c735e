//! The session: focus, window facts that outlive a step, the step protocol,
//! and the queries that application logic makes.
use vstd::prelude::*;
use winit::dpi::PhysicalSize;
use winit::event::VirtualKeyCode;
use std::path::PathBuf;
use crate::current_input::{CurrentInput, InputModel, KeyAction, MouseAction, TextChar};
use crate::event::{InputEvent, LoopEvent, ScrollDelta};

verus! {

/// Whether the window has focus. Only a focused window has per-step input
/// state; it is dropped when focus goes and made afresh when focus returns.
#[derive(Clone)]
pub enum Focus<F> {
    Focused(CurrentInput<F>),
    Unfocused,
}

/// What a `WinitInputHelper` holds, as mathematical values.
#[verifier::ext_equal]
pub struct HelperModel<F> {
    /// The input state, present exactly while the window has focus.
    pub current: Option<InputModel<F>>,
    pub dropped_file: Option<PathBuf>,
    pub window_resized: Option<PhysicalSize<u32>>,
    pub window_size: Option<(u32, u32)>,
    pub scale_factor_changed: Option<F>,
    pub scale_factor: Option<F>,
    pub destroyed: bool,
    pub close_requested: bool,
}

impl<F> HelperModel<F> {
    /// Focused, with fresh input state; nothing else known.
    pub open spec fn initial() -> Self {
        HelperModel {
            current: Some(InputModel::initial()),
            dropped_file: None,
            window_resized: None,
            window_size: None,
            scale_factor_changed: None,
            scale_factor: None,
            destroyed: false,
            close_requested: false,
        }
    }

    /// A step boundary: the step-scoped window facts are cleared and the input
    /// state, if any, begins its new step.
    pub open spec fn step(self) -> Self {
        HelperModel {
            current: match self.current {
                Some(c) => Some(c.step()),
                None => None,
            },
            dropped_file: None,
            window_resized: None,
            scale_factor_changed: None,
            close_requested: false,
            ..self
        }
    }

    /// What a window event does to the session fields and to focus.
    pub open spec fn route(self, event: InputEvent<F>) -> Self {
        match event {
            InputEvent::CloseRequested => HelperModel { close_requested: true, ..self },
            InputEvent::Destroyed => HelperModel { destroyed: true, ..self },
            InputEvent::Focused(focused) => if !focused {
                HelperModel { current: None, ..self }
            } else if self.current is None {
                HelperModel { current: Some(InputModel::initial()), ..self }
            } else {
                self
            },
            InputEvent::DroppedFile(path) => HelperModel { dropped_file: Some(path), ..self },
            InputEvent::Resized(size) => HelperModel {
                window_resized: Some(size),
                window_size: Some((size.width, size.height)),
                ..self
            },
            InputEvent::ScaleFactorChanged(factor) => HelperModel {
                scale_factor_changed: Some(factor),
                scale_factor: Some(factor),
                ..self
            },
            _ => self,
        }
    }

    /// One event: routed to the session, then folded into the input state if
    /// the window (still or now) has focus.
    pub open spec fn process(self, event: InputEvent<F>) -> Self {
        let routed = self.route(event);
        HelperModel {
            current: match routed.current {
                Some(c) => Some(c.handle(event)),
                None => None,
            },
            ..routed
        }
    }

    /// The events folded in order.
    pub open spec fn process_all(self, events: Seq<InputEvent<F>>) -> Self
        decreases events.len(),
    {
        if events.len() == 0 {
            self
        } else {
            self.process_all(events.drop_last()).process(events.last())
        }
    }

    /// A new step, then the step's events in order.
    pub open spec fn step_with(self, events: Seq<InputEvent<F>>) -> Self {
        self.step().process_all(events)
    }

    /// The state after one event of the event loop.
    pub open spec fn update(self, event: LoopEvent<F>) -> Self {
        match event {
            LoopEvent::NewEvents => self.step(),
            LoopEvent::Event(e) => self.process(e),
            _ => self,
        }
    }

    pub open spec fn key_pressed(self, key: VirtualKeyCode) -> bool {
        self.current matches Some(c) && c.key_actions.contains(KeyAction::Pressed(key))
    }

    pub open spec fn key_pressed_os(self, key: VirtualKeyCode) -> bool {
        self.current matches Some(c) && c.key_actions.contains(KeyAction::PressedOs(key))
    }

    pub open spec fn key_released(self, key: VirtualKeyCode) -> bool {
        self.current matches Some(c) && c.key_actions.contains(KeyAction::Released(key))
    }

    pub open spec fn key_held(self, key: VirtualKeyCode) -> bool {
        self.current matches Some(c) && c.key_held.contains(key)
    }

    pub open spec fn mouse_pressed(self, button: usize) -> bool {
        self.current matches Some(c) && c.mouse_actions.contains(MouseAction::Pressed(button))
    }

    pub open spec fn mouse_released(self, button: usize) -> bool {
        self.current matches Some(c) && c.mouse_actions.contains(MouseAction::Released(button))
    }

    pub open spec fn mouse_held(self, button: usize) -> bool {
        self.current matches Some(c) && c.mouse_held.contains(button)
    }

    pub open spec fn mouse(self) -> Option<(F, F)> {
        match self.current {
            Some(c) => c.mouse_point,
            None => None,
        }
    }

    /// The cursor position at the last step boundary and now, where both are
    /// known.
    pub open spec fn cursor_movement(self) -> Option<((F, F), (F, F))> {
        match self.current {
            Some(c) => match (c.mouse_point_prev, c.mouse_point) {
                (Some(prev), Some(now)) => Some((prev, now)),
                _ => None,
            },
            None => None,
        }
    }

    pub open spec fn motion_deltas(self) -> Seq<(F, F)> {
        match self.current {
            Some(c) => c.mouse_motion,
            None => seq![],
        }
    }

    pub open spec fn scroll_deltas(self) -> Seq<ScrollDelta<F>> {
        match self.current {
            Some(c) => c.scroll,
            None => seq![],
        }
    }

    pub open spec fn text(self) -> Seq<TextChar> {
        match self.current {
            Some(c) => c.text,
            None => seq![],
        }
    }
}

/// Input state for one application, fed with the events of a window.
///
/// Feed it in one of two ways, never both in one session: pass every event
/// loop event to `update` and run application logic when it returns `true`;
/// or hand a whole step's events to `step_with_window_events` once per step.
/// Then ask the queries about the step just completed.
#[derive(Clone)]
pub struct WinitInputHelper<F> {
    current: Focus<F>,
    dropped_file: Option<PathBuf>,
    window_resized: Option<PhysicalSize<u32>>,
    window_size: Option<(u32, u32)>,
    scale_factor_changed: Option<F>,
    scale_factor: Option<F>,
    destroyed: bool,
    close_requested: bool,
}

impl<F> View for WinitInputHelper<F> {
    type V = HelperModel<F>;

    closed spec fn view(&self) -> HelperModel<F> {
        HelperModel {
            current: match self.current {
                Focus::Focused(c) => Some(c@),
                Focus::Unfocused => None,
            },
            dropped_file: self.dropped_file,
            window_resized: self.window_resized,
            window_size: self.window_size,
            scale_factor_changed: self.scale_factor_changed,
            scale_factor: self.scale_factor,
            destroyed: self.destroyed,
            close_requested: self.close_requested,
        }
    }
}

impl<F: Copy> WinitInputHelper<F> {
    /// Focused, with fresh input state; nothing else known.
    pub fn new() -> (r: WinitInputHelper<F>)
        ensures
            r@ == HelperModel::<F>::initial(),
    {
        let r = WinitInputHelper {
            current: Focus::Focused(CurrentInput::new()),
            dropped_file: None,
            window_resized: None,
            window_size: None,
            scale_factor_changed: None,
            scale_factor: None,
            destroyed: false,
            close_requested: false,
        };
        assert(r@ =~= HelperModel::<F>::initial());
        r
    }

    /// Takes one event of the event loop. `NewEvents` begins a step, `Event`
    /// is folded in, and `MainEventsCleared` returns `true`: the step is
    /// complete and ready for the queries. Anything else returns `false`.
    pub fn update(&mut self, event: &LoopEvent<F>) -> (r: bool)
        ensures
            r == (*event is MainEventsCleared),
            final(self)@ == old(self)@.update(*event),
    {
        match event {
            LoopEvent::NewEvents => {
                self.step();
                false
            },
            LoopEvent::Event(e) => {
                self.process_window_event(e);
                false
            },
            LoopEvent::MainEventsCleared => true,
            LoopEvent::Other => false,
        }
    }

    /// Begins a step and folds in `events`, in order: all the events since
    /// the last call. Call it once per step.
    pub fn step_with_window_events(&mut self, events: &[InputEvent<F>])
        ensures
            final(self)@ == old(self)@.step_with(events@),
    {
        self.step();
        let ghost start = self@;
        let mut i: usize = 0;
        while i < events.len()
            invariant
                i <= events@.len(),
                self@ == start.process_all(events@.take(i as int)),
            decreases events.len() - i,
        {
            self.process_window_event(&events[i]);
            proof {
                let next = events@.take(i as int + 1);
                assert(next.drop_last() =~= events@.take(i as int));
                assert(next.last() == events@[i as int]);
            }
            i += 1;
        }
        assert(events@.take(events@.len() as int) =~= events@);
    }

    /// Begins a step: the step-scoped window facts are cleared and the input
    /// state, if any, begins its new step.
    pub fn step(&mut self)
        ensures
            final(self)@ == old(self)@.step(),
    {
        self.dropped_file = None;
        self.window_resized = None;
        self.scale_factor_changed = None;
        self.close_requested = false;
        match &mut self.current {
            Focus::Focused(current) => current.step(),
            Focus::Unfocused => {},
        }
        assert(self@ =~= old(self)@.step());
    }

    /// Takes one event: window events set the session fields and focus, then
    /// the event is folded into the input state if the window has focus.
    pub fn process_window_event(&mut self, event: &InputEvent<F>)
        ensures
            final(self)@ == old(self)@.process(*event),
    {
        match event {
            InputEvent::CloseRequested => self.close_requested = true,
            InputEvent::Destroyed => self.destroyed = true,
            InputEvent::Focused(focused) => {
                if !*focused {
                    self.current = Focus::Unfocused;
                } else if let Focus::Unfocused = self.current {
                    self.current = Focus::Focused(CurrentInput::new());
                }
            },
            InputEvent::DroppedFile(path) => self.dropped_file = Some(path.clone()),
            InputEvent::Resized(size) => {
                self.window_resized = Some(*size);
                self.window_size = Some((size.width, size.height));
            },
            InputEvent::ScaleFactorChanged(factor) => {
                self.scale_factor_changed = Some(*factor);
                self.scale_factor = Some(*factor);
            },
            _ => {},
        }
        assert(self@ =~= old(self)@.route(*event));
        match &mut self.current {
            Focus::Focused(current) => current.handle_event(event),
            Focus::Unfocused => {},
        }
        assert(self@ =~= old(self)@.process(*event));
    }

    /// Whether `check_key_code` went from up to down during the step. Suits game
    /// controls.
    pub fn key_pressed(&self, check_key_code: VirtualKeyCode) -> (r: bool)
        ensures
            r == self@.key_pressed(check_key_code),
    {
        match &self.current {
            Focus::Focused(current) => current.key_action_seen(KeyAction::Pressed(check_key_code)),
            Focus::Unfocused => false,
        }
    }

    /// Whether a press signal for `check_key_code` came during the step, the operating
    /// system's key repeat included. Suits text fields and menus.
    pub fn key_pressed_os(&self, check_key_code: VirtualKeyCode) -> (r: bool)
        ensures
            r == self@.key_pressed_os(check_key_code),
    {
        match &self.current {
            Focus::Focused(current) => current.key_action_seen(KeyAction::PressedOs(check_key_code)),
            Focus::Unfocused => false,
        }
    }

    /// Whether `check_key_code` went from down to up during the step.
    pub fn key_released(&self, check_key_code: VirtualKeyCode) -> (r: bool)
        ensures
            r == self@.key_released(check_key_code),
    {
        match &self.current {
            Focus::Focused(current) => current.key_action_seen(KeyAction::Released(check_key_code)),
            Focus::Unfocused => false,
        }
    }

    /// Whether `key_code` is down; `false` while the window has no focus.
    pub fn key_held(&self, key_code: VirtualKeyCode) -> (r: bool)
        ensures
            r == self@.key_held(key_code),
    {
        match &self.current {
            Focus::Focused(current) => current.key_is_held(key_code),
            Focus::Unfocused => false,
        }
    }

    /// Whether either shift key is down.
    pub fn held_shift(&self) -> (r: bool)
        ensures
            r == (self@.key_held(VirtualKeyCode::LShift) || self@.key_held(VirtualKeyCode::RShift)),
    {
        self.key_held(VirtualKeyCode::LShift) || self.key_held(VirtualKeyCode::RShift)
    }

    /// Whether either control key is down.
    pub fn held_control(&self) -> (r: bool)
        ensures
            r == (self@.key_held(VirtualKeyCode::LControl) || self@.key_held(VirtualKeyCode::RControl)),
    {
        self.key_held(VirtualKeyCode::LControl) || self.key_held(VirtualKeyCode::RControl)
    }

    /// Whether either alt key is down.
    pub fn held_alt(&self) -> (r: bool)
        ensures
            r == (self@.key_held(VirtualKeyCode::LAlt) || self@.key_held(VirtualKeyCode::RAlt)),
    {
        self.key_held(VirtualKeyCode::LAlt) || self.key_held(VirtualKeyCode::RAlt)
    }

    /// Whether mouse button `check_mouse_button` (left 0, right 1, middle 2,
    /// any other its own number) went from up to down during the step.
    pub fn mouse_pressed(&self, check_mouse_button: usize) -> (r: bool)
        ensures
            r == self@.mouse_pressed(check_mouse_button),
    {
        match &self.current {
            Focus::Focused(current) => current.mouse_action_seen(MouseAction::Pressed(check_mouse_button)),
            Focus::Unfocused => false,
        }
    }

    /// Whether mouse button `check_mouse_button` went from down to up during
    /// the step.
    pub fn mouse_released(&self, check_mouse_button: usize) -> (r: bool)
        ensures
            r == self@.mouse_released(check_mouse_button),
    {
        match &self.current {
            Focus::Focused(current) => current.mouse_action_seen(MouseAction::Released(check_mouse_button)),
            Focus::Unfocused => false,
        }
    }

    /// Whether mouse button `mouse_button` is down; `false` while the window
    /// has no focus.
    pub fn mouse_held(&self, mouse_button: usize) -> (r: bool)
        ensures
            r == self@.mouse_held(mouse_button),
    {
        match &self.current {
            Focus::Focused(current) => current.mouse_is_held(mouse_button),
            Focus::Unfocused => false,
        }
    }

    /// The cursor position in the window, or `None` while the window has no
    /// focus or before the cursor was first seen.
    pub fn mouse(&self) -> (r: Option<(F, F)>)
        ensures
            r == self@.mouse(),
    {
        match &self.current {
            Focus::Focused(current) => current.mouse_point(),
            Focus::Unfocused => None,
        }
    }

    /// The cursor position at the last step boundary and now, in that order;
    /// `None` where either is unknown. The cursor moved by their difference
    /// during the step.
    pub fn cursor_movement(&self) -> (r: Option<((F, F), (F, F))>)
        ensures
            r == self@.cursor_movement(),
    {
        match &self.current {
            Focus::Focused(current) => match (current.mouse_point_prev(), current.mouse_point()) {
                (Some(prev), Some(now)) => Some((prev, now)),
                _ => None,
            },
            Focus::Unfocused => None,
        }
    }

    /// This step's raw device motion deltas, in arrival order; their sum is
    /// the step's mouse motion.
    pub fn motion_deltas(&self) -> (r: Vec<(F, F)>)
        ensures
            r@ == self@.motion_deltas(),
    {
        match &self.current {
            Focus::Focused(current) => current.mouse_motion(),
            Focus::Unfocused => Vec::new(),
        }
    }

    /// This step's scroll deltas, in arrival order.
    pub fn scroll_deltas(&self) -> (r: Vec<ScrollDelta<F>>)
        ensures
            r@ == self@.scroll_deltas(),
    {
        match &self.current {
            Focus::Focused(current) => current.scroll(),
            Focus::Unfocused => Vec::new(),
        }
    }

    /// The characters typed and backspaces pressed during the step, earliest
    /// first.
    pub fn text(&self) -> (r: Vec<TextChar>)
        ensures
            r@ == self@.text(),
    {
        match &self.current {
            Focus::Focused(current) => current.text(),
            Focus::Unfocused => Vec::new(),
        }
    }

    /// The path of a file dropped onto the window during the step.
    pub fn dropped_file(&self) -> (r: Option<PathBuf>)
        ensures
            r == self@.dropped_file,
    {
        match &self.dropped_file {
            Some(path) => Some(path.clone()),
            None => None,
        }
    }

    /// The new window size, if the window was resized during the step.
    pub fn window_resized(&self) -> (r: Option<PhysicalSize<u32>>)
        ensures
            r == self@.window_resized,
    {
        self.window_resized
    }

    /// The window size last reported, or `None` before the first report.
    pub fn resolution(&self) -> (r: Option<(u32, u32)>)
        ensures
            r == self@.window_size,
    {
        self.window_size
    }

    /// The new scale factor, if it changed during the step.
    pub fn scale_factor_changed(&self) -> (r: Option<F>)
        ensures
            r == self@.scale_factor_changed,
    {
        self.scale_factor_changed
    }

    /// The scale factor last reported, or `None` before the first report.
    pub fn scale_factor(&self) -> (r: Option<F>)
        ensures
            r == self@.scale_factor,
    {
        self.scale_factor
    }

    /// Whether the window has been destroyed; once `true`, always `true`.
    pub fn destroyed(&self) -> (r: bool)
        ensures
            r == self@.destroyed,
    {
        self.destroyed
    }

    /// Whether closing the window was requested during the step.
    pub fn close_requested(&self) -> (r: bool)
        ensures
            r == self@.close_requested,
    {
        self.close_requested
    }

    /// Whether closing was requested during the step or the window has been
    /// destroyed; `close_requested() || destroyed()` says the same.
    pub fn quit(&self) -> (r: bool)
        ensures
            r == (self@.close_requested || self@.destroyed),
    {
        self.close_requested || self.destroyed
    }
}

impl<F: Copy> Default for WinitInputHelper<F> {
    fn default() -> (r: Self)
        ensures
            r@ == HelperModel::<F>::initial(),
    {
        Self::new()
    }
}

} // verus!
