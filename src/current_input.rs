//! The per-step accumulator: held keys and buttons, this step's transitions,
//! cursor history, raw motion, scrolling and typed text.
use vstd::prelude::*;
use winit::event::{MouseButton, VirtualKeyCode};
use crate::event::{InputEvent, ScrollDelta};

verus! {

broadcast use vstd::seq_lib::group_seq_properties;

/// A typed character or a backspace.
#[derive(Clone, Copy, Debug, PartialEq, Eq, Structural)]
pub enum TextChar {
    Char(char),
    Back,
}

/// A transition of a key, by symbolic name. `PressedOs` comes with every press
/// signal, auto-repeat included; `Pressed` only when the key was up.
#[derive(Clone, Copy, Debug, PartialEq, Eq)]
pub enum KeyAction {
    Pressed(VirtualKeyCode),
    PressedOs(VirtualKeyCode),
    Released(VirtualKeyCode),
}

/// A transition of a physical key, by scan code; as for `KeyAction`.
#[derive(Clone, Copy, Debug, PartialEq, Eq, Structural)]
pub enum ScanCodeAction {
    Pressed(u32),
    PressedOs(u32),
    Released(u32),
}

/// A transition of a mouse button, by button number.
#[derive(Clone, Copy, Debug, PartialEq, Eq, Structural)]
pub enum MouseAction {
    Pressed(usize),
    Released(usize),
}

/// The number that stands for a mouse button: left 0, right 1, middle 2,
/// any other its own number.
pub open spec fn button_number(button: MouseButton) -> usize {
    match button {
        MouseButton::Left => 0,
        MouseButton::Right => 1,
        MouseButton::Middle => 2,
        MouseButton::Other(n) => n as usize,
    }
}

/// Pixels that count as one line of scrolling.
pub const PIXELS_PER_LINE: u32 = 38;

/// What a `CurrentInput` holds, as mathematical values.
#[verifier::ext_equal]
pub struct InputModel<F> {
    pub key_actions: Seq<KeyAction>,
    pub key_held: Set<VirtualKeyCode>,
    pub scancode_actions: Seq<ScanCodeAction>,
    pub scancode_held: Set<u32>,
    pub mouse_actions: Seq<MouseAction>,
    pub mouse_held: Set<usize>,
    pub mouse_point: Option<(F, F)>,
    pub mouse_point_prev: Option<(F, F)>,
    pub mouse_motion: Seq<(F, F)>,
    pub scroll: Seq<ScrollDelta<F>>,
    pub text: Seq<TextChar>,
}

impl<F> InputModel<F> {
    /// Nothing held, nothing happened, no cursor seen.
    pub open spec fn initial() -> Self {
        InputModel {
            key_actions: seq![],
            key_held: Set::empty(),
            scancode_actions: seq![],
            scancode_held: Set::empty(),
            mouse_actions: seq![],
            mouse_held: Set::empty(),
            mouse_point: None,
            mouse_point_prev: None,
            mouse_motion: seq![],
            scroll: seq![],
            text: seq![],
        }
    }

    /// A step boundary: this step's records are emptied, held state kept, and
    /// the cursor position becomes the previous one.
    pub open spec fn step(self) -> Self {
        InputModel {
            key_actions: seq![],
            scancode_actions: seq![],
            mouse_actions: seq![],
            mouse_point_prev: self.mouse_point,
            mouse_motion: seq![],
            scroll: seq![],
            text: seq![],
            ..self
        }
    }

    /// A key goes down: `Pressed` only on the edge, `PressedOs` always, and a
    /// backspace in the text for the backspace key.
    pub open spec fn key_down(self, key: VirtualKeyCode) -> Self {
        let edge = if self.key_held.contains(key) {
            seq![]
        } else {
            seq![KeyAction::Pressed(key)]
        };
        InputModel {
            key_actions: self.key_actions + edge + seq![KeyAction::PressedOs(key)],
            key_held: self.key_held.insert(key),
            text: if key == VirtualKeyCode::Back {
                self.text.push(TextChar::Back)
            } else {
                self.text
            },
            ..self
        }
    }

    /// A key goes up: `Released` always.
    pub open spec fn key_up(self, key: VirtualKeyCode) -> Self {
        InputModel {
            key_actions: self.key_actions.push(KeyAction::Released(key)),
            key_held: self.key_held.remove(key),
            ..self
        }
    }

    /// A physical key goes down: as `key_down`, without the text.
    pub open spec fn scancode_down(self, code: u32) -> Self {
        let edge = if self.scancode_held.contains(code) {
            seq![]
        } else {
            seq![ScanCodeAction::Pressed(code)]
        };
        InputModel {
            scancode_actions: self.scancode_actions + edge + seq![ScanCodeAction::PressedOs(code)],
            scancode_held: self.scancode_held.insert(code),
            ..self
        }
    }

    /// A physical key goes up.
    pub open spec fn scancode_up(self, code: u32) -> Self {
        InputModel {
            scancode_actions: self.scancode_actions.push(ScanCodeAction::Released(code)),
            scancode_held: self.scancode_held.remove(code),
            ..self
        }
    }

    /// A keyboard event: the symbolic key first, where there is one, then the
    /// physical key.
    pub open spec fn keyboard(self, scancode: u32, key: Option<VirtualKeyCode>, pressed: bool) -> Self {
        let after_key = match key {
            Some(k) => if pressed { self.key_down(k) } else { self.key_up(k) },
            None => self,
        };
        if pressed {
            after_key.scancode_down(scancode)
        } else {
            after_key.scancode_up(scancode)
        }
    }

    /// A mouse button goes down (`Pressed` on the edge only) or up
    /// (`Released` always).
    pub open spec fn mouse_button(self, button: usize, pressed: bool) -> Self {
        if pressed {
            InputModel {
                mouse_actions: if self.mouse_held.contains(button) {
                    self.mouse_actions
                } else {
                    self.mouse_actions.push(MouseAction::Pressed(button))
                },
                mouse_held: self.mouse_held.insert(button),
                ..self
            }
        } else {
            InputModel {
                mouse_actions: self.mouse_actions.push(MouseAction::Released(button)),
                mouse_held: self.mouse_held.remove(button),
                ..self
            }
        }
    }

    /// Typed text: backspace, carriage return and line feed are left out, the
    /// first because the backspace key already records it.
    pub open spec fn character(self, c: char) -> Self {
        if c == '\x08' || c == '\r' || c == '\n' {
            self
        } else {
            InputModel { text: self.text.push(TextChar::Char(c)), ..self }
        }
    }

    /// The state after one event; window events change nothing here.
    pub open spec fn handle(self, event: InputEvent<F>) -> Self {
        match event {
            InputEvent::KeyboardInput { scancode, virtual_keycode, pressed } =>
                self.keyboard(scancode, virtual_keycode, pressed),
            InputEvent::MouseInput { button, pressed } =>
                self.mouse_button(button_number(button), pressed),
            InputEvent::CursorMoved { x, y } => InputModel { mouse_point: Some((x, y)), ..self },
            InputEvent::MouseMotion { dx, dy } =>
                InputModel { mouse_motion: self.mouse_motion.push((dx, dy)), ..self },
            InputEvent::MouseWheel(delta) => InputModel { scroll: self.scroll.push(delta), ..self },
            InputEvent::ReceivedCharacter(c) => self.character(c),
            _ => self,
        }
    }
}

/// The number of a mouse button: left 0, right 1, middle 2, any other its own
/// number.
pub fn mouse_button_to_int(button: &MouseButton) -> (r: usize)
    ensures
        r == button_number(*button),
{
    match button {
        MouseButton::Left => 0,
        MouseButton::Right => 1,
        MouseButton::Middle => 2,
        MouseButton::Other(byte) => *byte as usize,
    }
}

/// The state of one step while the window has focus.
#[derive(Clone, Debug)]
pub struct CurrentInput<F> {
    mouse_actions: Vec<MouseAction>,
    key_actions: Vec<KeyAction>,
    scancode_actions: Vec<ScanCodeAction>,
    key_held: Vec<VirtualKeyCode>,
    scancode_held: Vec<u32>,
    mouse_held: Vec<usize>,
    mouse_point: Option<(F, F)>,
    mouse_point_prev: Option<(F, F)>,
    mouse_motion: Vec<(F, F)>,
    scroll: Vec<ScrollDelta<F>>,
    text: Vec<TextChar>,
}

impl<F> View for CurrentInput<F> {
    type V = InputModel<F>;

    closed spec fn view(&self) -> InputModel<F> {
        InputModel {
            key_actions: self.key_actions@,
            key_held: self.key_held@.to_set(),
            scancode_actions: self.scancode_actions@,
            scancode_held: self.scancode_held@.to_set(),
            mouse_actions: self.mouse_actions@,
            mouse_held: self.mouse_held@.to_set(),
            mouse_point: self.mouse_point,
            mouse_point_prev: self.mouse_point_prev,
            mouse_motion: self.mouse_motion@,
            scroll: self.scroll@,
            text: self.text@,
        }
    }
}

impl<F: Copy> CurrentInput<F> {
    /// Nothing held, nothing happened, no cursor seen.
    pub fn new() -> (r: CurrentInput<F>)
        ensures
            r@ == InputModel::<F>::initial(),
    {
        let r = CurrentInput {
            mouse_actions: Vec::new(),
            key_actions: Vec::new(),
            scancode_actions: Vec::new(),
            key_held: Vec::new(),
            scancode_held: Vec::new(),
            mouse_held: Vec::new(),
            mouse_point: None,
            mouse_point_prev: None,
            mouse_motion: Vec::new(),
            scroll: Vec::new(),
            text: Vec::new(),
        };
        assert(r@ =~= InputModel::<F>::initial());
        r
    }

    /// Begins a new step: this step's transitions, motion, scrolling and text
    /// are emptied; the cursor position becomes the previous one.
    pub fn step(&mut self)
        ensures
            final(self)@ == old(self)@.step(),
    {
        self.mouse_actions.clear();
        self.key_actions.clear();
        self.scancode_actions.clear();
        self.mouse_motion.clear();
        self.scroll.clear();
        self.mouse_point_prev = self.mouse_point;
        self.text.clear();
        assert(self@ =~= old(self)@.step());
    }

    fn key_down(&mut self, key: VirtualKeyCode)
        ensures
            final(self)@ == old(self)@.key_down(key),
    {
        broadcast use Seq::lemma_push_to_set_commute;

        if !contains_key(&self.key_held, key) {
            self.key_actions.push(KeyAction::Pressed(key));
            self.key_held.push(key);
        }
        self.key_actions.push(KeyAction::PressedOs(key));
        if key == VirtualKeyCode::Back {
            self.text.push(TextChar::Back);
        }
        assert(self@ =~= old(self)@.key_down(key));
    }

    fn key_up(&mut self, key: VirtualKeyCode)
        ensures
            final(self)@ == old(self)@.key_up(key),
    {
        remove_key(&mut self.key_held, key);
        self.key_actions.push(KeyAction::Released(key));
        assert(self@ =~= old(self)@.key_up(key));
    }

    fn scancode_down(&mut self, code: u32)
        ensures
            final(self)@ == old(self)@.scancode_down(code),
    {
        broadcast use Seq::lemma_push_to_set_commute;

        if !contains_u32(&self.scancode_held, code) {
            self.scancode_actions.push(ScanCodeAction::Pressed(code));
            self.scancode_held.push(code);
        }
        self.scancode_actions.push(ScanCodeAction::PressedOs(code));
        assert(self@ =~= old(self)@.scancode_down(code));
    }

    fn scancode_up(&mut self, code: u32)
        ensures
            final(self)@ == old(self)@.scancode_up(code),
    {
        remove_u32(&mut self.scancode_held, code);
        self.scancode_actions.push(ScanCodeAction::Released(code));
        assert(self@ =~= old(self)@.scancode_up(code));
    }

    fn mouse_button(&mut self, button: usize, pressed: bool)
        ensures
            final(self)@ == old(self)@.mouse_button(button, pressed),
    {
        broadcast use Seq::lemma_push_to_set_commute;

        if pressed {
            if !contains_usize(&self.mouse_held, button) {
                self.mouse_actions.push(MouseAction::Pressed(button));
                self.mouse_held.push(button);
            }
        } else {
            remove_usize(&mut self.mouse_held, button);
            self.mouse_actions.push(MouseAction::Released(button));
        }
        assert(self@ =~= old(self)@.mouse_button(button, pressed));
    }

    /// Folds one event into the state. Window events (focus, close, resize,
    /// scale factor, dropped files) change nothing here.
    pub fn handle_event(&mut self, event: &InputEvent<F>)
        ensures
            final(self)@ == old(self)@.handle(*event),
    {
        match event {
            InputEvent::KeyboardInput { scancode, virtual_keycode, pressed } => {
                if *pressed {
                    if let Some(key) = virtual_keycode {
                        self.key_down(*key);
                    }
                    self.scancode_down(*scancode);
                } else {
                    if let Some(key) = virtual_keycode {
                        self.key_up(*key);
                    }
                    self.scancode_up(*scancode);
                }
            },
            InputEvent::ReceivedCharacter(c) => {
                let c = *c;
                if c != '\x08' && c != '\r' && c != '\n' {
                    self.text.push(TextChar::Char(c));
                }
                assert(self@ =~= old(self)@.handle(*event));
            },
            InputEvent::CursorMoved { x, y } => {
                self.mouse_point = Some((*x, *y));
                assert(self@ =~= old(self)@.handle(*event));
            },
            InputEvent::MouseMotion { dx, dy } => {
                self.mouse_motion.push((*dx, *dy));
                assert(self@ =~= old(self)@.handle(*event));
            },
            InputEvent::MouseInput { button, pressed } => {
                let button = mouse_button_to_int(button);
                self.mouse_button(button, *pressed);
            },
            InputEvent::MouseWheel(delta) => {
                self.scroll.push(*delta);
                assert(self@ =~= old(self)@.handle(*event));
            },
            _ => {},
        }
    }
}

impl<F: Copy> CurrentInput<F> {
    /// Whether this step recorded `action`.
    pub fn key_action_seen(&self, action: KeyAction) -> (r: bool)
        ensures
            r == self@.key_actions.contains(action),
    {
        let mut i: usize = 0;
        while i < self.key_actions.len()
            invariant
                i <= self.key_actions.len(),
                forall|j: int| 0 <= j < i ==> self.key_actions@[j] != action,
            decreases self.key_actions.len() - i,
        {
            let seen = self.key_actions[i];
            let same = match (seen, action) {
                (KeyAction::Pressed(a), KeyAction::Pressed(b)) => a == b,
                (KeyAction::PressedOs(a), KeyAction::PressedOs(b)) => a == b,
                (KeyAction::Released(a), KeyAction::Released(b)) => a == b,
                _ => false,
            };
            if same {
                return true;
            }
            i += 1;
        }
        false
    }

    /// Whether this step recorded `action`.
    pub fn scancode_action_seen(&self, action: ScanCodeAction) -> (r: bool)
        ensures
            r == self@.scancode_actions.contains(action),
    {
        let mut i: usize = 0;
        while i < self.scancode_actions.len()
            invariant
                i <= self.scancode_actions.len(),
                forall|j: int| 0 <= j < i ==> self.scancode_actions@[j] != action,
            decreases self.scancode_actions.len() - i,
        {
            if self.scancode_actions[i] == action {
                return true;
            }
            i += 1;
        }
        false
    }

    /// Whether this step recorded `action`.
    pub fn mouse_action_seen(&self, action: MouseAction) -> (r: bool)
        ensures
            r == self@.mouse_actions.contains(action),
    {
        let mut i: usize = 0;
        while i < self.mouse_actions.len()
            invariant
                i <= self.mouse_actions.len(),
                forall|j: int| 0 <= j < i ==> self.mouse_actions@[j] != action,
            decreases self.mouse_actions.len() - i,
        {
            if self.mouse_actions[i] == action {
                return true;
            }
            i += 1;
        }
        false
    }

    /// Whether `key` is down.
    pub fn key_is_held(&self, key: VirtualKeyCode) -> (r: bool)
        ensures
            r == self@.key_held.contains(key),
    {
        contains_key(&self.key_held, key)
    }

    /// Whether the physical key `code` is down.
    pub fn scancode_is_held(&self, code: u32) -> (r: bool)
        ensures
            r == self@.scancode_held.contains(code),
    {
        contains_u32(&self.scancode_held, code)
    }

    /// Whether mouse button `button` is down.
    pub fn mouse_is_held(&self, button: usize) -> (r: bool)
        ensures
            r == self@.mouse_held.contains(button),
    {
        contains_usize(&self.mouse_held, button)
    }

    /// The last cursor position seen.
    pub fn mouse_point(&self) -> (r: Option<(F, F)>)
        ensures
            r == self@.mouse_point,
    {
        self.mouse_point
    }

    /// The cursor position as of the last step boundary.
    pub fn mouse_point_prev(&self) -> (r: Option<(F, F)>)
        ensures
            r == self@.mouse_point_prev,
    {
        self.mouse_point_prev
    }

    /// This step's raw device motion, in arrival order.
    pub fn mouse_motion(&self) -> (r: Vec<(F, F)>)
        ensures
            r@ == self@.mouse_motion,
    {
        copy_vec(&self.mouse_motion)
    }

    /// This step's scrolling, in arrival order.
    pub fn scroll(&self) -> (r: Vec<ScrollDelta<F>>)
        ensures
            r@ == self@.scroll,
    {
        copy_vec(&self.scroll)
    }

    /// This step's text, in arrival order.
    pub fn text(&self) -> (r: Vec<TextChar>)
        ensures
            r@ == self@.text,
    {
        copy_vec(&self.text)
    }
}

fn copy_vec<T: Copy>(v: &Vec<T>) -> (r: Vec<T>)
    ensures
        r@ == v@,
{
    let mut r: Vec<T> = Vec::new();
    let mut i: usize = 0;
    while i < v.len()
        invariant
            i <= v.len(),
            r@ == v@.take(i as int),
        decreases v.len() - i,
    {
        r.push(v[i]);
        proof {
            assert(v@.take(i as int + 1) =~= v@.take(i as int).push(v@[i as int]));
        }
        i += 1;
    }
    assert(v@.take(v@.len() as int) =~= v@);
    r
}

fn contains_key(v: &Vec<VirtualKeyCode>, key: VirtualKeyCode) -> (r: bool)
    ensures
        r == v@.contains(key),
{
    let mut i: usize = 0;
    while i < v.len()
        invariant
            i <= v.len(),
            forall|j: int| 0 <= j < i ==> v@[j] != key,
        decreases v.len() - i,
    {
        if v[i] == key {
            return true;
        }
        i += 1;
    }
    false
}

fn contains_u32(v: &Vec<u32>, x: u32) -> (r: bool)
    ensures
        r == v@.contains(x),
{
    let mut i: usize = 0;
    while i < v.len()
        invariant
            i <= v.len(),
            forall|j: int| 0 <= j < i ==> v@[j] != x,
        decreases v.len() - i,
    {
        if v[i] == x {
            return true;
        }
        i += 1;
    }
    false
}

fn contains_usize(v: &Vec<usize>, x: usize) -> (r: bool)
    ensures
        r == v@.contains(x),
{
    let mut i: usize = 0;
    while i < v.len()
        invariant
            i <= v.len(),
            forall|j: int| 0 <= j < i ==> v@[j] != x,
        decreases v.len() - i,
    {
        if v[i] == x {
            return true;
        }
        i += 1;
    }
    false
}

fn remove_key(v: &mut Vec<VirtualKeyCode>, key: VirtualKeyCode)
    ensures
        final(v)@.to_set() == old(v)@.to_set().remove(key),
{
    let mut kept: Vec<VirtualKeyCode> = Vec::new();
    let mut i: usize = 0;
    while i < v.len()
        invariant
            i <= v.len(),
            forall|x: VirtualKeyCode| kept@.contains(x) <==> (x != key && v@.take(i as int).contains(x)),
        decreases v.len() - i,
    {
        let x = v[i];
        proof {
            assert(v@.take(i as int + 1) == v@.take(i as int).push(x));
        }
        if x != key {
            kept.push(x);
        }
        i += 1;
    }
    proof {
        assert(v@.take(v@.len() as int) == v@);
        assert(kept@.to_set() =~= v@.to_set().remove(key));
    }
    *v = kept;
}

fn remove_u32(v: &mut Vec<u32>, x: u32)
    ensures
        final(v)@.to_set() == old(v)@.to_set().remove(x),
{
    let mut kept: Vec<u32> = Vec::new();
    let mut i: usize = 0;
    while i < v.len()
        invariant
            i <= v.len(),
            forall|y: u32| kept@.contains(y) <==> (y != x && v@.take(i as int).contains(y)),
        decreases v.len() - i,
    {
        let y = v[i];
        proof {
            assert(v@.take(i as int + 1) == v@.take(i as int).push(y));
        }
        if y != x {
            kept.push(y);
        }
        i += 1;
    }
    proof {
        assert(v@.take(v@.len() as int) == v@);
        assert(kept@.to_set() =~= v@.to_set().remove(x));
    }
    *v = kept;
}

fn remove_usize(v: &mut Vec<usize>, x: usize)
    ensures
        final(v)@.to_set() == old(v)@.to_set().remove(x),
{
    let mut kept: Vec<usize> = Vec::new();
    let mut i: usize = 0;
    while i < v.len()
        invariant
            i <= v.len(),
            forall|y: usize| kept@.contains(y) <==> (y != x && v@.take(i as int).contains(y)),
        decreases v.len() - i,
    {
        let y = v[i];
        proof {
            assert(v@.take(i as int + 1) == v@.take(i as int).push(y));
        }
        if y != x {
            kept.push(y);
        }
        i += 1;
    }
    proof {
        assert(v@.take(v@.len() as int) == v@);
        assert(kept@.to_set() =~= v@.to_set().remove(x));
    }
    *v = kept;
}

} // verus!
