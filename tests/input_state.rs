use std::path::PathBuf;
use winit::dpi::PhysicalSize;
use winit::event::{MouseButton, VirtualKeyCode};
use winit_input_helper::{
    mouse_button_to_int, CurrentInput, InputEvent, LoopEvent, ScanCodeAction, ScrollDelta,
    TextChar, WinitInputHelper, PIXELS_PER_LINE,
};

fn key(code: VirtualKeyCode, pressed: bool) -> InputEvent<f64> {
    InputEvent::KeyboardInput { scancode: code as u32 + 1000, virtual_keycode: Some(code), pressed }
}

fn button(b: MouseButton, pressed: bool) -> InputEvent<f64> {
    InputEvent::MouseInput { button: b, pressed }
}

fn fresh() -> WinitInputHelper<f64> {
    let mut h = WinitInputHelper::new();
    h.step();
    h
}

#[test]
fn new_helper_reports_nothing() {
    let h: WinitInputHelper<f64> = WinitInputHelper::new();
    assert!(!h.key_pressed(VirtualKeyCode::A));
    assert!(!h.key_held(VirtualKeyCode::A));
    assert!(!h.mouse_held(0));
    assert_eq!(h.mouse(), None);
    assert_eq!(h.cursor_movement(), None);
    assert!(h.text().is_empty());
    assert!(h.scroll_deltas().is_empty());
    assert_eq!(h.resolution(), None);
    assert_eq!(h.scale_factor(), None);
    assert!(!h.destroyed());
    assert!(!h.close_requested());
    assert!(!h.quit());
}

#[test]
fn default_is_new() {
    let mut h: WinitInputHelper<f64> = WinitInputHelper::default();
    h.process_window_event(&key(VirtualKeyCode::W, true));
    assert!(h.key_held(VirtualKeyCode::W));
}

#[test]
fn step_clears_step_records() {
    let mut h = fresh();
    h.process_window_event(&key(VirtualKeyCode::A, true));
    h.process_window_event(&key(VirtualKeyCode::B, true));
    h.process_window_event(&key(VirtualKeyCode::B, false));
    h.process_window_event(&button(MouseButton::Left, true));
    h.process_window_event(&button(MouseButton::Right, true));
    h.process_window_event(&button(MouseButton::Right, false));
    h.process_window_event(&InputEvent::MouseWheel(ScrollDelta::LineDelta(1.0, 2.0)));
    h.process_window_event(&InputEvent::MouseMotion { dx: 1.0, dy: 1.0 });
    h.process_window_event(&InputEvent::ReceivedCharacter('x'));
    assert!(h.key_pressed(VirtualKeyCode::A));
    assert!(h.key_released(VirtualKeyCode::B));
    assert!(h.mouse_pressed(0));
    assert!(h.mouse_released(1));
    h.step();
    assert!(!h.key_pressed(VirtualKeyCode::A));
    assert!(!h.key_pressed_os(VirtualKeyCode::A));
    assert!(!h.key_released(VirtualKeyCode::B));
    assert!(!h.mouse_pressed(0));
    assert!(!h.mouse_released(1));
    assert!(h.scroll_deltas().is_empty());
    assert!(h.motion_deltas().is_empty());
    assert!(h.text().is_empty());
    // held state carries over the boundary
    assert!(h.key_held(VirtualKeyCode::A));
    assert!(!h.key_held(VirtualKeyCode::B));
    assert!(h.mouse_held(0));
    assert!(!h.mouse_held(1));
}

#[test]
fn queries_are_repeatable() {
    let mut h = fresh();
    h.process_window_event(&key(VirtualKeyCode::Back, true));
    h.process_window_event(&InputEvent::ReceivedCharacter('q'));
    h.process_window_event(&InputEvent::CursorMoved { x: 4.0, y: 5.0 });
    for _ in 0..2 {
        assert!(h.key_pressed(VirtualKeyCode::Back));
        assert!(h.key_held(VirtualKeyCode::Back));
        assert_eq!(h.text(), vec![TextChar::Back, TextChar::Char('q')]);
        assert_eq!(h.mouse(), Some((4.0, 5.0)));
    }
}

#[test]
fn press_while_held_records_only_the_repeat() {
    let mut h = fresh();
    h.process_window_event(&key(VirtualKeyCode::A, true));
    h.step();
    h.process_window_event(&key(VirtualKeyCode::A, true));
    assert!(!h.key_pressed(VirtualKeyCode::A));
    assert!(h.key_pressed_os(VirtualKeyCode::A));
    assert!(h.key_held(VirtualKeyCode::A));
}

#[test]
fn press_while_up_records_edge_and_repeat() {
    let mut h = fresh();
    h.process_window_event(&key(VirtualKeyCode::A, true));
    assert!(h.key_pressed(VirtualKeyCode::A));
    assert!(h.key_pressed_os(VirtualKeyCode::A));
    assert!(!h.key_pressed(VirtualKeyCode::B));
}

#[test]
fn press_then_release_in_one_step_reports_both() {
    let mut h = fresh();
    h.process_window_event(&key(VirtualKeyCode::Space, true));
    h.process_window_event(&key(VirtualKeyCode::Space, false));
    assert!(h.key_pressed(VirtualKeyCode::Space));
    assert!(h.key_released(VirtualKeyCode::Space));
    assert!(!h.key_held(VirtualKeyCode::Space));
}

#[test]
fn release_of_a_key_that_is_up_is_recorded() {
    let mut h = fresh();
    h.process_window_event(&key(VirtualKeyCode::Z, false));
    assert!(h.key_released(VirtualKeyCode::Z));
    assert!(!h.key_held(VirtualKeyCode::Z));
}

#[test]
fn focus_loss_clears_held_state() {
    let mut h = fresh();
    h.process_window_event(&key(VirtualKeyCode::A, true));
    h.process_window_event(&button(MouseButton::Middle, true));
    h.process_window_event(&InputEvent::Focused(false));
    assert!(!h.key_held(VirtualKeyCode::A));
    assert!(!h.key_pressed(VirtualKeyCode::A));
    h.process_window_event(&InputEvent::Focused(true));
    assert!(!h.key_held(VirtualKeyCode::A));
    assert!(!h.mouse_held(2));
}

#[test]
fn unfocused_queries_report_nothing() {
    let mut h = fresh();
    h.process_window_event(&InputEvent::CursorMoved { x: 1.0, y: 1.0 });
    h.process_window_event(&InputEvent::Focused(false));
    h.process_window_event(&key(VirtualKeyCode::A, true));
    h.process_window_event(&InputEvent::ReceivedCharacter('a'));
    assert!(!h.key_pressed(VirtualKeyCode::A));
    assert!(!h.key_held(VirtualKeyCode::A));
    assert_eq!(h.mouse(), None);
    assert_eq!(h.cursor_movement(), None);
    assert!(h.text().is_empty());
}

#[test]
fn repeated_focus_gained_keeps_the_step() {
    let mut h = fresh();
    h.process_window_event(&key(VirtualKeyCode::A, true));
    h.process_window_event(&InputEvent::Focused(true));
    assert!(h.key_pressed(VirtualKeyCode::A));
    assert!(h.key_held(VirtualKeyCode::A));
}

#[test]
fn cursor_movement_spans_one_step() {
    let mut h = fresh();
    h.process_window_event(&InputEvent::CursorMoved { x: 10.0, y: 10.0 });
    h.step();
    h.process_window_event(&InputEvent::CursorMoved { x: 13.0, y: 14.0 });
    let ((px, py), (nx, ny)) = h.cursor_movement().unwrap();
    assert_eq!((nx - px, ny - py), (3.0, 4.0));
    h.step();
    let ((px, py), (nx, ny)) = h.cursor_movement().unwrap();
    assert_eq!((nx - px, ny - py), (0.0, 0.0));
}

#[test]
fn cursor_movement_needs_both_ends() {
    let mut h = fresh();
    h.process_window_event(&InputEvent::CursorMoved { x: 2.0, y: 3.0 });
    assert_eq!(h.mouse(), Some((2.0, 3.0)));
    assert_eq!(h.cursor_movement(), None);
}

#[test]
fn scroll_deltas_keep_unit_and_order() {
    let mut h = fresh();
    h.process_window_event(&InputEvent::MouseWheel(ScrollDelta::LineDelta(0.0, 2.0)));
    h.process_window_event(&InputEvent::MouseWheel(ScrollDelta::PixelDelta(0.0, 19.0)));
    let deltas = h.scroll_deltas();
    assert_eq!(deltas, vec![ScrollDelta::LineDelta(0.0, 2.0), ScrollDelta::PixelDelta(0.0, 19.0)]);
    let mut lines = (0.0, 0.0);
    for d in deltas {
        match d {
            ScrollDelta::LineDelta(x, y) => {
                lines.0 += x;
                lines.1 += y;
            }
            ScrollDelta::PixelDelta(x, y) => {
                lines.0 += x / PIXELS_PER_LINE as f64;
                lines.1 += y / PIXELS_PER_LINE as f64;
            }
        }
    }
    assert_eq!(lines, (0.0, 2.5));
}

#[test]
fn motion_deltas_accumulate_in_order() {
    let mut h = fresh();
    h.process_window_event(&InputEvent::MouseMotion { dx: 1.5, dy: -2.0 });
    h.process_window_event(&InputEvent::MouseMotion { dx: 0.5, dy: 4.0 });
    assert_eq!(h.motion_deltas(), vec![(1.5, -2.0), (0.5, 4.0)]);
}

#[test]
fn backspace_then_char_keeps_order() {
    let mut h = fresh();
    h.process_window_event(&key(VirtualKeyCode::Back, true));
    h.process_window_event(&InputEvent::ReceivedCharacter('a'));
    assert_eq!(h.text(), vec![TextChar::Back, TextChar::Char('a')]);
}

#[test]
fn text_leaves_out_control_characters() {
    let mut h = fresh();
    h.process_window_event(&InputEvent::ReceivedCharacter('\x08'));
    h.process_window_event(&InputEvent::ReceivedCharacter('h'));
    h.process_window_event(&InputEvent::ReceivedCharacter('\r'));
    h.process_window_event(&InputEvent::ReceivedCharacter('\n'));
    h.process_window_event(&InputEvent::ReceivedCharacter('é'));
    assert_eq!(h.text(), vec![TextChar::Char('h'), TextChar::Char('é')]);
}

#[test]
fn destroyed_is_sticky() {
    let mut h = fresh();
    h.process_window_event(&key(VirtualKeyCode::A, true));
    h.step();
    assert!(!h.destroyed());
    h.process_window_event(&InputEvent::Destroyed);
    assert!(h.destroyed());
    assert!(h.quit());
    h.step();
    h.step();
    h.process_window_event(&InputEvent::Focused(false));
    assert!(h.destroyed());
}

#[test]
fn close_request_lasts_one_step() {
    let mut h = fresh();
    h.process_window_event(&InputEvent::CloseRequested);
    assert!(h.close_requested());
    assert!(h.quit());
    h.step();
    assert!(!h.close_requested());
    assert!(!h.quit());
}

#[test]
fn resize_is_step_scoped_and_resolution_persists() {
    let mut h = fresh();
    h.process_window_event(&InputEvent::Resized(PhysicalSize::new(640, 480)));
    h.process_window_event(&InputEvent::Resized(PhysicalSize::new(800, 600)));
    assert_eq!(h.window_resized(), Some(PhysicalSize::new(800, 600)));
    assert_eq!(h.resolution(), Some((800, 600)));
    h.step();
    assert_eq!(h.window_resized(), None);
    assert_eq!(h.resolution(), Some((800, 600)));
}

#[test]
fn scale_factor_is_step_scoped_and_persists() {
    let mut h = fresh();
    h.process_window_event(&InputEvent::ScaleFactorChanged(2.0));
    assert_eq!(h.scale_factor_changed(), Some(2.0));
    assert_eq!(h.scale_factor(), Some(2.0));
    h.step();
    assert_eq!(h.scale_factor_changed(), None);
    assert_eq!(h.scale_factor(), Some(2.0));
}

#[test]
fn dropped_file_lasts_one_step() {
    let mut h = fresh();
    h.process_window_event(&InputEvent::DroppedFile(PathBuf::from("/tmp/picture.png")));
    assert_eq!(h.dropped_file(), Some(PathBuf::from("/tmp/picture.png")));
    h.step();
    assert_eq!(h.dropped_file(), None);
}

#[test]
fn modifier_queries_take_either_side() {
    let mut h = fresh();
    assert!(!h.held_shift());
    h.process_window_event(&key(VirtualKeyCode::RShift, true));
    h.process_window_event(&key(VirtualKeyCode::LControl, true));
    h.process_window_event(&key(VirtualKeyCode::RAlt, true));
    assert!(h.held_shift());
    assert!(h.held_control());
    assert!(h.held_alt());
    h.process_window_event(&key(VirtualKeyCode::RShift, false));
    assert!(!h.held_shift());
}

#[test]
fn mouse_buttons_are_numbered() {
    assert_eq!(mouse_button_to_int(&MouseButton::Left), 0);
    assert_eq!(mouse_button_to_int(&MouseButton::Right), 1);
    assert_eq!(mouse_button_to_int(&MouseButton::Middle), 2);
    assert_eq!(mouse_button_to_int(&MouseButton::Other(7)), 7);
    assert_eq!(mouse_button_to_int(&MouseButton::Other(300)), 300);
}

#[test]
fn mouse_press_is_edge_detected() {
    let mut h = fresh();
    h.process_window_event(&button(MouseButton::Other(300), true));
    assert!(h.mouse_pressed(300));
    assert!(h.mouse_held(300));
    h.step();
    h.process_window_event(&button(MouseButton::Other(300), true));
    assert!(!h.mouse_pressed(300));
    assert!(h.mouse_held(300));
    h.process_window_event(&button(MouseButton::Other(300), false));
    assert!(h.mouse_released(300));
    assert!(!h.mouse_held(300));
}

#[test]
fn update_follows_the_event_loop() {
    let mut h: WinitInputHelper<f64> = WinitInputHelper::new();
    assert!(!h.update(&LoopEvent::NewEvents));
    assert!(!h.update(&LoopEvent::Event(key(VirtualKeyCode::W, true))));
    assert!(!h.update(&LoopEvent::Other));
    assert!(h.update(&LoopEvent::MainEventsCleared));
    assert!(h.key_pressed(VirtualKeyCode::W));
    assert!(!h.update(&LoopEvent::NewEvents));
    assert!(!h.key_pressed(VirtualKeyCode::W));
    assert!(h.key_held(VirtualKeyCode::W));
}

#[test]
fn step_with_window_events_folds_in_order() {
    let mut h: WinitInputHelper<f64> = WinitInputHelper::new();
    h.process_window_event(&InputEvent::CloseRequested);
    let events = vec![
        key(VirtualKeyCode::Back, true),
        InputEvent::ReceivedCharacter('a'),
        InputEvent::Focused(false),
        InputEvent::Focused(true),
        key(VirtualKeyCode::C, true),
        InputEvent::ReceivedCharacter('c'),
    ];
    h.step_with_window_events(&events);
    assert!(!h.close_requested());
    assert!(!h.key_held(VirtualKeyCode::Back));
    assert!(h.key_pressed(VirtualKeyCode::C));
    assert_eq!(h.text(), vec![TextChar::Char('c')]);
    h.step_with_window_events(&[]);
    assert!(!h.key_pressed(VirtualKeyCode::C));
    assert!(h.key_held(VirtualKeyCode::C));
}

#[test]
fn scan_codes_are_tracked_alongside_keys() {
    let mut c: CurrentInput<f64> = CurrentInput::new();
    let press = InputEvent::KeyboardInput { scancode: 30, virtual_keycode: None, pressed: true };
    c.handle_event(&press);
    c.handle_event(&press);
    assert!(c.scancode_is_held(30));
    assert!(c.scancode_action_seen(ScanCodeAction::Pressed(30)));
    assert!(c.scancode_action_seen(ScanCodeAction::PressedOs(30)));
    c.step();
    c.handle_event(&press);
    assert!(!c.scancode_action_seen(ScanCodeAction::Pressed(30)));
    assert!(c.scancode_action_seen(ScanCodeAction::PressedOs(30)));
    c.handle_event(&InputEvent::KeyboardInput { scancode: 30, virtual_keycode: None, pressed: false });
    assert!(c.scancode_action_seen(ScanCodeAction::Released(30)));
    assert!(!c.scancode_is_held(30));
}

#[test]
fn clone_is_independent() {
    let mut h = fresh();
    h.process_window_event(&InputEvent::Resized(PhysicalSize::new(3, 4)));
    let snapshot = h.clone();
    h.process_window_event(&key(VirtualKeyCode::A, true));
    assert!(!snapshot.key_held(VirtualKeyCode::A));
    assert_eq!(snapshot.window_resized(), Some(PhysicalSize::new(3, 4)));
}
