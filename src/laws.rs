//! What holds of every session, whatever the events.
use vstd::prelude::*;
use winit::event::VirtualKeyCode;
use crate::current_input::{KeyAction, TextChar};
use crate::event::{InputEvent, LoopEvent, ScrollDelta};
use crate::winit_input_helper::HelperModel;

verus! {

/// Right after a step boundary, no key or button transition, motion,
/// scrolling, text or step-scoped window fact is reported.
pub proof fn step_clears_step_records<F>(h: HelperModel<F>, key: VirtualKeyCode, button: usize)
    ensures
        !h.step().key_pressed(key),
        !h.step().key_pressed_os(key),
        !h.step().key_released(key),
        !h.step().mouse_pressed(button),
        !h.step().mouse_released(button),
        h.step().motion_deltas() == Seq::<(F, F)>::empty(),
        h.step().scroll_deltas() == Seq::<ScrollDelta<F>>::empty(),
        h.step().text() == Seq::<TextChar>::empty(),
        h.step().dropped_file is None,
        h.step().window_resized is None,
        h.step().scale_factor_changed is None,
        !h.step().close_requested,
{
}

/// A press of a key that is up records `Pressed` then `PressedOs`; a press of
/// a key that is already down records `PressedOs` alone. Either way the key
/// is down afterwards.
pub proof fn press_records_edge_once<F>(h: HelperModel<F>, scancode: u32, key: VirtualKeyCode)
    requires
        h.current is Some,
    ensures
        ({
            let before = h.current.unwrap();
            let after = h.process(
                InputEvent::KeyboardInput { scancode, virtual_keycode: Some(key), pressed: true },
            ).current.unwrap();
            &&& after.key_actions == before.key_actions + if before.key_held.contains(key) {
                seq![KeyAction::PressedOs(key)]
            } else {
                seq![KeyAction::Pressed(key), KeyAction::PressedOs(key)]
            }
            &&& after.key_held.contains(key)
        }),
{
    let before = h.current.unwrap();
    let after = h.process(
        InputEvent::KeyboardInput { scancode, virtual_keycode: Some(key), pressed: true },
    ).current.unwrap();
    if before.key_held.contains(key) {
        assert(after.key_actions =~= before.key_actions + seq![KeyAction::PressedOs(key)]);
    } else {
        assert(after.key_actions =~= before.key_actions + seq![
            KeyAction::Pressed(key),
            KeyAction::PressedOs(key),
        ]);
    }
}

/// Losing focus and gaining it again leaves no key or button held.
pub proof fn refocus_forgets_held<F>(h: HelperModel<F>, key: VirtualKeyCode, button: usize)
    ensures
        !h.process(InputEvent::Focused(false)).process(InputEvent::Focused(true)).key_held(key),
        !h.process(InputEvent::Focused(false)).process(InputEvent::Focused(true)).mouse_held(
            button,
        ),
{
}

/// Right after a step boundary the cursor has not moved: where both ends are
/// known they are the same position.
pub proof fn step_settles_cursor<F>(h: HelperModel<F>)
    ensures
        h.step().cursor_movement() matches Some((prev, now)) ==> prev == now,
{
}

/// The cursor movement of a step runs from the last position seen before the
/// step boundary to the last one seen after it.
pub proof fn cursor_movement_spans_step<F>(h: HelperModel<F>, x0: F, y0: F, x1: F, y1: F)
    requires
        h.current is Some,
    ensures
        h.process(InputEvent::CursorMoved { x: x0, y: y0 }).step().process(
            InputEvent::CursorMoved { x: x1, y: y1 },
        ).cursor_movement() == Some(((x0, y0), (x1, y1))),
{
}

/// Scroll deltas are kept in arrival order, whatever their unit.
pub proof fn scroll_keeps_order<F>(h: HelperModel<F>, a: ScrollDelta<F>, b: ScrollDelta<F>)
    requires
        h.current is Some,
    ensures
        h.step().process(InputEvent::MouseWheel(a)).process(InputEvent::MouseWheel(b)).scroll_deltas()
            == seq![a, b],
{
    assert(h.step().process(InputEvent::MouseWheel(a)).process(
        InputEvent::MouseWheel(b),
    ).scroll_deltas() =~= seq![a, b]);
}

/// A backspace key press followed by a typed character gives the text
/// backspace then character, in that order.
pub proof fn backspace_then_char_keeps_order<F>(h: HelperModel<F>, scancode: u32, c: char)
    requires
        h.current is Some,
        c != '\x08' && c != '\r' && c != '\n',
    ensures
        h.step().process(
            InputEvent::KeyboardInput {
                scancode,
                virtual_keycode: Some(VirtualKeyCode::Back),
                pressed: true,
            },
        ).process(InputEvent::ReceivedCharacter(c)).text() == seq![TextChar::Back, TextChar::Char(c)],
{
    assert(h.step().process(
        InputEvent::KeyboardInput {
            scancode,
            virtual_keycode: Some(VirtualKeyCode::Back),
            pressed: true,
        },
    ).process(InputEvent::ReceivedCharacter(c)).text() =~= seq![
        TextChar::Back,
        TextChar::Char(c),
    ]);
}

/// A new session has not been destroyed; only a `Destroyed` event sets the
/// flag, and once set, no step or event clears it.
pub proof fn destroyed_is_sticky<F>(h: HelperModel<F>, e: InputEvent<F>, le: LoopEvent<F>)
    ensures
        !HelperModel::<F>::initial().destroyed,
        h.destroyed ==> h.step().destroyed && h.process(e).destroyed && h.update(le).destroyed,
        !h.destroyed ==> !h.step().destroyed,
        !h.destroyed ==> (h.process(e).destroyed <==> e is Destroyed),
{
}

} // verus!
