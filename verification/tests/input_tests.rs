use azurge_core::input::{GameCommand, InputSystem, KeyCode, MouseBtn};
use azurge_core::math::Vec2Fx;

#[test]
fn keys_map_to_their_commands() {
    let mut input = InputSystem::default();
    input.handle_keyboard_input(KeyCode::KeyW, true);
    assert_eq!(input.game_command(), GameCommand::Forward.mask());
    input.handle_keyboard_input(KeyCode::KeyS, true);
    input.handle_keyboard_input(KeyCode::KeyA, true);
    input.handle_keyboard_input(KeyCode::KeyD, true);
    input.handle_keyboard_input(KeyCode::Space, true);
    input.handle_keyboard_input(KeyCode::ShiftLeft, true);
    assert_eq!(input.game_command(), 1 | 2 | 4 | 8 | 16 | 32);
    input.handle_keyboard_input(KeyCode::KeyW, false);
    assert_eq!(input.game_command(), 2 | 4 | 8 | 16 | 32);
}

#[test]
fn unmapped_keys_and_buttons_are_ignored() {
    let mut input = InputSystem::default();
    input.handle_keyboard_input(KeyCode::Unknown, true);
    input.handle_mouse_input(MouseBtn::Unknown, true);
    assert_eq!(input.game_command(), 0);
}

#[test]
fn mouse_buttons_map_to_their_commands() {
    let mut input = InputSystem::default();
    input.handle_mouse_input(MouseBtn::Left, true);
    assert_eq!(input.game_command(), GameCommand::MouseLeft.mask());
    input.handle_mouse_input(MouseBtn::Right, true);
    assert_eq!(input.game_command(), 64 | 128);
    input.handle_mouse_input(MouseBtn::Left, false);
    assert_eq!(input.game_command(), 128);
}

#[test]
fn pointer_delta_accumulates_only_while_rotating() {
    let mut input = InputSystem::default();
    // Rotate button up: motion moves the recorded position but no delta.
    input.handle_cursor_moved(Vec2Fx { x: 10, y: 5 });
    assert_eq!(input.cursor_delta(), Vec2Fx { x: 0, y: 0 });
    // Rotate button down: motion accumulates relative to the last position.
    input.handle_mouse_input(MouseBtn::Right, true);
    input.handle_cursor_moved(Vec2Fx { x: 13, y: 9 });
    assert_eq!(input.cursor_delta(), Vec2Fx { x: 3, y: 4 });
    input.handle_cursor_moved(Vec2Fx { x: 14, y: 9 });
    assert_eq!(input.cursor_delta(), Vec2Fx { x: 4, y: 4 });
}

#[test]
fn toggling_the_rotate_button_carries_no_stale_delta() {
    let mut input = InputSystem::default();
    input.handle_mouse_input(MouseBtn::Right, true);
    input.handle_cursor_moved(Vec2Fx { x: 8, y: 7 });
    assert_eq!(input.cursor_delta(), Vec2Fx { x: 8, y: 7 });
    // Button up: a large motion must not leak into the delta.
    input.handle_mouse_input(MouseBtn::Right, false);
    input.handle_cursor_moved(Vec2Fx { x: 500, y: 500 });
    assert_eq!(input.cursor_delta(), Vec2Fx { x: 8, y: 7 });
    // Button down again: only motion after the re-press accumulates.
    input.handle_mouse_input(MouseBtn::Right, true);
    input.handle_cursor_moved(Vec2Fx { x: 501, y: 502 });
    assert_eq!(input.cursor_delta(), Vec2Fx { x: 9, y: 9 });
}

#[test]
fn take_pointer_delta_consumes_exactly_once() {
    let mut input = InputSystem::default();
    input.handle_mouse_input(MouseBtn::Right, true);
    input.handle_cursor_moved(Vec2Fx { x: 2, y: 3 });
    assert_eq!(input.take_pointer_delta(), Vec2Fx { x: 2, y: 3 });
    assert_eq!(input.take_pointer_delta(), Vec2Fx { x: 0, y: 0 });
    assert_eq!(input.cursor_delta(), Vec2Fx { x: 0, y: 0 });
}

#[test]
fn reset_cursor_delta_zeroes_the_pending_delta() {
    let mut input = InputSystem::default();
    input.handle_mouse_input(MouseBtn::Right, true);
    input.handle_cursor_moved(Vec2Fx { x: 2, y: 3 });
    input.reset_cursor_delta();
    assert_eq!(input.cursor_delta(), Vec2Fx { x: 0, y: 0 });
    assert_eq!(input.game_command(), GameCommand::MouseRight.mask());
}
