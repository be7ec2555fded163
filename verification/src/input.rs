//! The input accumulator: raw key, mouse-button and pointer events fold into
//! a bitmask of held commands and a pending pointer delta.
//!
//! The pointer delta accumulates only while the rotate button (mouse right)
//! is held at the time of each move; the last pointer position is updated on
//! every move regardless, so releasing and re-pressing the button never
//! produces a spike from motion that happened while it was up.

use crate::math::{v2_add, v2_add_s, v2_sub, v2_sub_s, v2_zero_s, Vec2Fx, V2};
use vstd::prelude::*;

verus! {

/// A discrete command a held key or button stands for.
#[derive(Clone, Copy, Debug, PartialEq, Eq, Structural)]
pub enum GameCommand {
    Forward,
    Backward,
    Left,
    Right,
    Up,
    Down,
    MouseLeft,
    MouseRight,
    Other,
}

impl GameCommand {
    /// The command's bit in the command mask.
    pub open spec fn mask_s(self) -> u32 {
        match self {
            GameCommand::Forward => 1u32,
            GameCommand::Backward => 2u32,
            GameCommand::Left => 4u32,
            GameCommand::Right => 8u32,
            GameCommand::Up => 16u32,
            GameCommand::Down => 32u32,
            GameCommand::MouseLeft => 64u32,
            GameCommand::MouseRight => 128u32,
            GameCommand::Other => 256u32,
        }
    }

    /// The command's bit in the command mask.
    pub fn mask(self) -> (r: u32)
        ensures
            r == self.mask_s(),
    {
        match self {
            GameCommand::Forward => 1,
            GameCommand::Backward => 2,
            GameCommand::Left => 4,
            GameCommand::Right => 8,
            GameCommand::Up => 16,
            GameCommand::Down => 32,
            GameCommand::MouseLeft => 64,
            GameCommand::MouseRight => 128,
            GameCommand::Other => 256,
        }
    }
}

/// A physical key, reduced to the keys the camera cares about.
#[derive(Clone, Copy, Debug, PartialEq, Eq, Structural)]
pub enum KeyCode {
    KeyW,
    KeyS,
    KeyA,
    KeyD,
    Space,
    ShiftLeft,
    Unknown,
}

/// A mouse button, reduced to the buttons the camera cares about.
#[derive(Clone, Copy, Debug, PartialEq, Eq, Structural)]
pub enum MouseBtn {
    Left,
    Right,
    Unknown,
}

/// The fixed key-to-command table.
pub open spec fn key_command_s(key: KeyCode) -> GameCommand {
    match key {
        KeyCode::KeyW => GameCommand::Forward,
        KeyCode::KeyS => GameCommand::Backward,
        KeyCode::KeyA => GameCommand::Left,
        KeyCode::KeyD => GameCommand::Right,
        KeyCode::Space => GameCommand::Up,
        KeyCode::ShiftLeft => GameCommand::Down,
        KeyCode::Unknown => GameCommand::Other,
    }
}

/// The fixed button-to-command table.
pub open spec fn button_command_s(button: MouseBtn) -> GameCommand {
    match button {
        MouseBtn::Left => GameCommand::MouseLeft,
        MouseBtn::Right => GameCommand::MouseRight,
        MouseBtn::Unknown => GameCommand::Other,
    }
}

/// Ghost mirror of the input accumulator.
pub ghost struct InputM {
    pub game_command: u32,
    pub cursor_delta: V2,
    pub last_cursor: V2,
}

/// Fold one command press or release into the mask.
pub open spec fn command_input_s(m: InputM, c: GameCommand, pressed: bool) -> InputM {
    if c is Other {
        m
    } else if pressed {
        InputM { game_command: m.game_command | c.mask_s(), ..m }
    } else {
        InputM { game_command: m.game_command & !c.mask_s(), ..m }
    }
}

/// Fold one key event into the accumulator.
pub open spec fn key_input_s(m: InputM, key: KeyCode, pressed: bool) -> InputM {
    command_input_s(m, key_command_s(key), pressed)
}

/// Fold one mouse-button event into the accumulator.
pub open spec fn mouse_input_s(m: InputM, button: MouseBtn, pressed: bool) -> InputM {
    command_input_s(m, button_command_s(button), pressed)
}

/// Whether the rotate button is held in the mask.
pub open spec fn rotating_s(m: InputM) -> bool {
    m.game_command & GameCommand::MouseRight.mask_s() != 0
}

/// Fold one pointer move into the accumulator: the delta since the last
/// position accumulates only while the rotate button is held; the last
/// position is always updated.
pub open spec fn cursor_moved_s(m: InputM, p: V2) -> InputM {
    let next_delta = if rotating_s(m) {
        v2_add_s(m.cursor_delta, v2_sub_s(p, m.last_cursor))
    } else {
        m.cursor_delta
    };
    InputM { cursor_delta: next_delta, last_cursor: p, ..m }
}

/// One raw window event, reduced to what the input accumulator reads.
#[derive(Clone, Copy, Debug, PartialEq, Eq, Structural)]
pub enum InputEvent {
    Keyboard { key: KeyCode, pressed: bool },
    CursorMoved { position: Vec2Fx },
    MouseInput { button: MouseBtn, pressed: bool },
}

/// Fold one raw window event into the accumulator.
pub open spec fn input_event_s(m: InputM, event: InputEvent) -> InputM {
    match event {
        InputEvent::Keyboard { key, pressed } => key_input_s(m, key, pressed),
        InputEvent::CursorMoved { position } => cursor_moved_s(m, position@),
        InputEvent::MouseInput { button, pressed } => mouse_input_s(m, button, pressed),
    }
}

/// The input accumulator.
pub struct InputSystem {
    game_command: u32,
    cursor_delta: Vec2Fx,
    last_cursor: Vec2Fx,
}

impl View for InputSystem {
    type V = InputM;

    closed spec fn view(&self) -> InputM {
        InputM {
            game_command: self.game_command,
            cursor_delta: self.cursor_delta@,
            last_cursor: self.last_cursor@,
        }
    }
}

impl Default for InputSystem {
    /// The empty accumulator: no command held, no pending delta.
    fn default() -> (r: InputSystem)
        ensures
            r@.game_command == 0u32,
            r@.cursor_delta == v2_zero_s(),
            r@.last_cursor == v2_zero_s(),
    {
        InputSystem {
            game_command: 0,
            cursor_delta: Vec2Fx::zero(),
            last_cursor: Vec2Fx::zero(),
        }
    }
}

impl InputSystem {
    /// The mask of currently held commands.
    pub fn game_command(&self) -> (r: u32)
        ensures
            r == self@.game_command,
    {
        self.game_command
    }

    /// The pointer delta accumulated since it was last consumed.
    pub fn cursor_delta(&self) -> (r: Vec2Fx)
        ensures
            r@ == self@.cursor_delta,
    {
        self.cursor_delta
    }

    /// Drop the pending pointer delta.
    pub fn reset_cursor_delta(&mut self)
        ensures
            final(self)@ == (InputM { cursor_delta: v2_zero_s(), ..old(self)@ }),
    {
        self.cursor_delta = Vec2Fx::zero();
    }

    /// Consume the pending pointer delta: return it and reset it to zero.
    pub fn take_pointer_delta(&mut self) -> (r: Vec2Fx)
        ensures
            r@ == old(self)@.cursor_delta,
            final(self)@ == (InputM { cursor_delta: v2_zero_s(), ..old(self)@ }),
    {
        let d = self.cursor_delta;
        self.cursor_delta = Vec2Fx::zero();
        d
    }

    /// Fold one key event into the accumulator; unmapped keys are ignored.
    pub fn handle_keyboard_input(&mut self, key: KeyCode, pressed: bool)
        ensures
            final(self)@ == key_input_s(old(self)@, key, pressed),
    {
        let command = match key {
            KeyCode::KeyW => GameCommand::Forward,
            KeyCode::KeyS => GameCommand::Backward,
            KeyCode::KeyA => GameCommand::Left,
            KeyCode::KeyD => GameCommand::Right,
            KeyCode::Space => GameCommand::Up,
            KeyCode::ShiftLeft => GameCommand::Down,
            KeyCode::Unknown => GameCommand::Other,
        };
        self.apply_command(command, pressed);
    }

    /// Fold one mouse-button event into the accumulator; other buttons are
    /// ignored.
    pub fn handle_mouse_input(&mut self, button: MouseBtn, pressed: bool)
        ensures
            final(self)@ == mouse_input_s(old(self)@, button, pressed),
    {
        let command = match button {
            MouseBtn::Left => GameCommand::MouseLeft,
            MouseBtn::Right => GameCommand::MouseRight,
            MouseBtn::Unknown => GameCommand::Other,
        };
        self.apply_command(command, pressed);
    }

    /// Fold one pointer move into the accumulator.
    pub fn handle_cursor_moved(&mut self, position: Vec2Fx)
        ensures
            final(self)@ == cursor_moved_s(old(self)@, position@),
    {
        if self.game_command & GameCommand::MouseRight.mask() != 0 {
            self.cursor_delta = v2_add(self.cursor_delta, v2_sub(position, self.last_cursor));
        }
        self.last_cursor = position;
    }

    /// Set or clear one command's bit.
    fn apply_command(&mut self, command: GameCommand, pressed: bool)
        ensures
            final(self)@ == command_input_s(old(self)@, command, pressed),
    {
        if let GameCommand::Other = command {
            return;
        }
        if pressed {
            self.game_command = self.game_command | command.mask();
        } else {
            self.game_command = self.game_command & !command.mask();
        }
    }
}

/// LAW — pointer accumulation.  A pointer move extends the pending delta by
/// exactly the motion since the last recorded position while the rotate
/// button is held, leaves the pending delta untouched while it is not, and
/// records the new position either way.
pub proof fn lemma_pointer_accumulation(m: InputM, p: V2)
    ensures
        rotating_s(m) ==> cursor_moved_s(m, p).cursor_delta == v2_add_s(
            m.cursor_delta,
            v2_sub_s(p, m.last_cursor),
        ),
        !rotating_s(m) ==> cursor_moved_s(m, p).cursor_delta == m.cursor_delta,
        cursor_moved_s(m, p).last_cursor == p,
        cursor_moved_s(m, p).game_command == m.game_command,
{
}

/// LAW — no carry-over across a rotate toggle.  If the rotate button is up,
/// a move, a press of the rotate button and a second move extend the pending
/// delta by exactly the motion between the two moves: nothing from before
/// the press leaks in.
pub proof fn lemma_no_carry_over_toggle(m: InputM, p1: V2, p2: V2)
    requires
        !rotating_s(m),
    ensures
        ({
            let m1 = cursor_moved_s(m, p1);
            let m2 = mouse_input_s(m1, MouseBtn::Right, true);
            let m3 = cursor_moved_s(m2, p2);
            m3.cursor_delta == v2_add_s(m.cursor_delta, v2_sub_s(p2, p1))
        }),
{
    let m1 = cursor_moved_s(m, p1);
    let m2 = mouse_input_s(m1, MouseBtn::Right, true);
    let g = m.game_command;
    assert(m2.game_command == g | 128u32);
    assert((g | 128u32) & 128u32 != 0u32) by (bit_vector);
    assert(rotating_s(m2));
}

} // verus!
