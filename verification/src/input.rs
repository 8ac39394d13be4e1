//! Which movement keys are held down.
use vstd::prelude::*;

verus! {

/// Whether a key went down or up.
#[derive(Debug, Clone, Copy, PartialEq, Eq, Structural)]
pub enum ElementState {
    Pressed,
    Released,
}

/// The physical keys that move the camera; every other key is `Other`.
#[derive(Debug, Clone, Copy, PartialEq, Eq, Structural)]
pub enum KeyCode {
    KeyA,
    KeyD,
    KeyS,
    KeyW,
    KeyQ,
    KeyE,
    Period,
    Slash,
    ArrowLeft,
    ArrowRight,
    ArrowDown,
    ArrowUp,
    Other,
}

/// A key identified by its place on the keyboard, where the platform knows
/// it.
#[derive(Debug, Clone, Copy, PartialEq, Eq, Structural)]
pub enum PhysicalKey {
    Code(KeyCode),
    Unidentified,
}

/// A key going down or up while the window has focus.
#[derive(Debug, Clone, Copy)]
pub struct KeyEvent {
    pub physical_key: PhysicalKey,
    pub state: ElementState,
}

/// A key going down or up, reported by the device whatever has focus.
#[derive(Debug, Clone, Copy)]
pub struct RawKeyEvent {
    pub physical_key: PhysicalKey,
    pub state: ElementState,
}

/// A direction of movement.
pub ghost enum Direction {
    Forward,
    Backward,
    Right,
    Left,
    Up,
    Down,
}

/// Which movement keys are held down.
#[derive(Debug)]
pub struct Input {
    pub move_forward: bool,
    pub move_backward: bool,
    pub move_right: bool,
    pub move_left: bool,
    pub move_up: bool,
    pub move_down: bool,
}

/// The direction that a window key moves in: WASD in the plane, Q or `.`
/// down, E or `/` up.
pub open spec fn window_key_direction(key: KeyCode) -> Option<Direction> {
    match key {
        KeyCode::KeyA => Some(Direction::Left),
        KeyCode::KeyD => Some(Direction::Right),
        KeyCode::KeyS => Some(Direction::Backward),
        KeyCode::KeyW => Some(Direction::Forward),
        KeyCode::Period | KeyCode::KeyQ => Some(Direction::Down),
        KeyCode::Slash | KeyCode::KeyE => Some(Direction::Up),
        _ => None,
    }
}

/// The direction that a device key moves in: the arrow keys in the plane.
pub open spec fn device_key_direction(key: KeyCode) -> Option<Direction> {
    match key {
        KeyCode::ArrowLeft => Some(Direction::Left),
        KeyCode::ArrowRight => Some(Direction::Right),
        KeyCode::ArrowDown => Some(Direction::Backward),
        KeyCode::ArrowUp => Some(Direction::Forward),
        _ => None,
    }
}

/// Whether `input` moves in `dir`.
pub open spec fn moves(input: Input, dir: Direction) -> bool {
    match dir {
        Direction::Forward => input.move_forward,
        Direction::Backward => input.move_backward,
        Direction::Right => input.move_right,
        Direction::Left => input.move_left,
        Direction::Up => input.move_up,
        Direction::Down => input.move_down,
    }
}

/// `after` moves in `dir` when `held` and agrees with `before` in every
/// other direction.
pub open spec fn sets_direction(before: Input, after: Input, dir: Direction, held: bool) -> bool {
    forall|d: Direction| #[trigger]
        moves(after, d) == if d == dir {
            held
        } else {
            moves(before, d)
        }
}

/// `after` agrees with `before` in every direction.
pub open spec fn same_directions(before: Input, after: Input) -> bool {
    forall|d: Direction| #[trigger] moves(after, d) == moves(before, d)
}

/// `after` is `before` after the key `key` with direction table `table`
/// went to `state`.
pub open spec fn applies_key(
    before: Input,
    after: Input,
    key: PhysicalKey,
    state: ElementState,
    table: spec_fn(KeyCode) -> Option<Direction>,
) -> bool {
    match key {
        PhysicalKey::Code(code) => match table(code) {
            Some(dir) => sets_direction(before, after, dir, state == ElementState::Pressed),
            None => same_directions(before, after),
        },
        PhysicalKey::Unidentified => same_directions(before, after),
    }
}

impl Default for Input {
    fn default() -> (input: Self)
        ensures
            forall|d: Direction| !#[trigger] moves(input, d),
    {
        Input {
            move_forward: false,
            move_backward: false,
            move_right: false,
            move_left: false,
            move_up: false,
            move_down: false,
        }
    }
}

impl Input {
    /// No movement key is held.
    pub fn new() -> (input: Self)
        ensures
            forall|d: Direction| !#[trigger] moves(input, d),
    {
        Default::default()
    }

    /// Records a key of the window: WASD, Q or `.`, E or `/` start moving
    /// while pressed and stop when released; other keys change nothing.
    pub fn update_window_input(&mut self, key_event: &KeyEvent)
        ensures
            applies_key(
                *old(self),
                *final(self),
                key_event.physical_key,
                key_event.state,
                |k: KeyCode| window_key_direction(k),
            ),
            final(self).move_up == if key_event.physical_key == PhysicalKey::Code(KeyCode::KeyE)
                || key_event.physical_key == PhysicalKey::Code(KeyCode::Slash) {
                key_event.state == ElementState::Pressed
            } else {
                old(self).move_up
            },
            final(self).move_down == if key_event.physical_key == PhysicalKey::Code(KeyCode::KeyQ)
                || key_event.physical_key == PhysicalKey::Code(KeyCode::Period) {
                key_event.state == ElementState::Pressed
            } else {
                old(self).move_down
            },
            final(self).move_forward == if key_event.physical_key == PhysicalKey::Code(KeyCode::KeyW) {
                key_event.state == ElementState::Pressed
            } else {
                old(self).move_forward
            },
            final(self).move_backward == if key_event.physical_key == PhysicalKey::Code(KeyCode::KeyS) {
                key_event.state == ElementState::Pressed
            } else {
                old(self).move_backward
            },
            final(self).move_left == if key_event.physical_key == PhysicalKey::Code(KeyCode::KeyA) {
                key_event.state == ElementState::Pressed
            } else {
                old(self).move_left
            },
            final(self).move_right == if key_event.physical_key == PhysicalKey::Code(KeyCode::KeyD) {
                key_event.state == ElementState::Pressed
            } else {
                old(self).move_right
            },
    {
        let pressed = key_event.state == ElementState::Pressed;
        if let PhysicalKey::Code(key) = key_event.physical_key {
            match key {
                KeyCode::KeyA => self.move_left = pressed,
                KeyCode::KeyD => self.move_right = pressed,
                KeyCode::KeyS => self.move_backward = pressed,
                KeyCode::KeyW => self.move_forward = pressed,
                KeyCode::Period | KeyCode::KeyQ => self.move_down = pressed,
                KeyCode::Slash | KeyCode::KeyE => self.move_up = pressed,
                _ => {},
            }
        }
    }

    /// Records a key of the device: the arrow keys start moving while
    /// pressed and stop when released; other keys change nothing.
    pub fn update_device_input(&mut self, key_event: RawKeyEvent)
        ensures
            applies_key(
                *old(self),
                *final(self),
                key_event.physical_key,
                key_event.state,
                |k: KeyCode| device_key_direction(k),
            ),
            final(self).move_forward == if key_event.physical_key == PhysicalKey::Code(KeyCode::ArrowUp) {
                key_event.state == ElementState::Pressed
            } else {
                old(self).move_forward
            },
            final(self).move_backward == if key_event.physical_key == PhysicalKey::Code(KeyCode::ArrowDown) {
                key_event.state == ElementState::Pressed
            } else {
                old(self).move_backward
            },
            final(self).move_left == if key_event.physical_key == PhysicalKey::Code(KeyCode::ArrowLeft) {
                key_event.state == ElementState::Pressed
            } else {
                old(self).move_left
            },
            final(self).move_right == if key_event.physical_key == PhysicalKey::Code(KeyCode::ArrowRight) {
                key_event.state == ElementState::Pressed
            } else {
                old(self).move_right
            },
            final(self).move_up == old(self).move_up,
            final(self).move_down == old(self).move_down,
    {
        let pressed = key_event.state == ElementState::Pressed;
        if let PhysicalKey::Code(key) = key_event.physical_key {
            match key {
                KeyCode::ArrowLeft => self.move_left = pressed,
                KeyCode::ArrowRight => self.move_right = pressed,
                KeyCode::ArrowDown => self.move_backward = pressed,
                KeyCode::ArrowUp => self.move_forward = pressed,
                _ => {},
            }
        }
    }
}

/// Pressing a key and then releasing it leaves every direction as it was,
/// but the key's own, which is then not held.
pub proof fn lemma_press_then_release(
    before: Input,
    pressed: Input,
    released: Input,
    key: PhysicalKey,
    table: spec_fn(KeyCode) -> Option<Direction>,
)
    requires
        applies_key(before, pressed, key, ElementState::Pressed, table),
        applies_key(pressed, released, key, ElementState::Released, table),
    ensures
        match key {
            PhysicalKey::Code(code) => match table(code) {
                Some(dir) => sets_direction(before, released, dir, false),
                None => same_directions(before, released),
            },
            PhysicalKey::Unidentified => same_directions(before, released),
        },
{
    match key {
        PhysicalKey::Code(code) => match table(code) {
            Some(dir) => {
                assert forall|d: Direction| #[trigger]
                    moves(released, d) == if d == dir {
                        false
                    } else {
                        moves(before, d)
                    } by {
                    assert(moves(pressed, d) == moves(pressed, d));
                }
            },
            None => {
                assert forall|d: Direction| #[trigger] moves(released, d) == moves(before, d) by {
                    assert(moves(pressed, d) == moves(pressed, d));
                }
            },
        },
        PhysicalKey::Unidentified => {
            assert forall|d: Direction| #[trigger] moves(released, d) == moves(before, d) by {
                assert(moves(pressed, d) == moves(pressed, d));
            }
        },
    }
}

/// A key of the window moves in its own direction: W forward, S backward,
/// A left, D right, E and `/` up, Q and `.` down, each held exactly while
/// pressed; every other direction, and every direction for any other key,
/// stays as it was.
pub proof fn lemma_window_keys(before: Input, after: Input, key: PhysicalKey, state: ElementState)
    requires
        applies_key(before, after, key, state, |k: KeyCode| window_key_direction(k)),
    ensures
        after.move_forward == if key == PhysicalKey::Code(KeyCode::KeyW) {
            state == ElementState::Pressed
        } else {
            before.move_forward
        },
        after.move_backward == if key == PhysicalKey::Code(KeyCode::KeyS) {
            state == ElementState::Pressed
        } else {
            before.move_backward
        },
        after.move_left == if key == PhysicalKey::Code(KeyCode::KeyA) {
            state == ElementState::Pressed
        } else {
            before.move_left
        },
        after.move_right == if key == PhysicalKey::Code(KeyCode::KeyD) {
            state == ElementState::Pressed
        } else {
            before.move_right
        },
        after.move_up == if key == PhysicalKey::Code(KeyCode::KeyE) || key == PhysicalKey::Code(
            KeyCode::Slash,
        ) {
            state == ElementState::Pressed
        } else {
            before.move_up
        },
        after.move_down == if key == PhysicalKey::Code(KeyCode::KeyQ) || key == PhysicalKey::Code(
            KeyCode::Period,
        ) {
            state == ElementState::Pressed
        } else {
            before.move_down
        },
{
    assert(moves(after, Direction::Forward) == after.move_forward);
    assert(moves(after, Direction::Backward) == after.move_backward);
    assert(moves(after, Direction::Left) == after.move_left);
    assert(moves(after, Direction::Right) == after.move_right);
    assert(moves(after, Direction::Up) == after.move_up);
    assert(moves(after, Direction::Down) == after.move_down);
}

/// An arrow key of the device moves in its own direction: left, right,
/// down backward and up forward, held exactly while pressed; every other
/// direction, and every direction for any other key, stays as it was.
pub proof fn lemma_device_keys(before: Input, after: Input, key: PhysicalKey, state: ElementState)
    requires
        applies_key(before, after, key, state, |k: KeyCode| device_key_direction(k)),
    ensures
        after.move_forward == if key == PhysicalKey::Code(KeyCode::ArrowUp) {
            state == ElementState::Pressed
        } else {
            before.move_forward
        },
        after.move_backward == if key == PhysicalKey::Code(KeyCode::ArrowDown) {
            state == ElementState::Pressed
        } else {
            before.move_backward
        },
        after.move_left == if key == PhysicalKey::Code(KeyCode::ArrowLeft) {
            state == ElementState::Pressed
        } else {
            before.move_left
        },
        after.move_right == if key == PhysicalKey::Code(KeyCode::ArrowRight) {
            state == ElementState::Pressed
        } else {
            before.move_right
        },
        after.move_up == before.move_up,
        after.move_down == before.move_down,
{
    assert(moves(after, Direction::Forward) == after.move_forward);
    assert(moves(after, Direction::Backward) == after.move_backward);
    assert(moves(after, Direction::Left) == after.move_left);
    assert(moves(after, Direction::Right) == after.move_right);
    assert(moves(after, Direction::Up) == after.move_up);
    assert(moves(after, Direction::Down) == after.move_down);
}

} // verus!
