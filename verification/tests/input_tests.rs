use pilka::input::{ElementState, Input, KeyCode, KeyEvent, PhysicalKey, RawKeyEvent};

fn window(key: KeyCode, state: ElementState) -> KeyEvent {
    KeyEvent { physical_key: PhysicalKey::Code(key), state }
}

fn device(key: KeyCode, state: ElementState) -> RawKeyEvent {
    RawKeyEvent { physical_key: PhysicalKey::Code(key), state }
}

fn flags(input: &Input) -> [bool; 6] {
    [
        input.move_forward,
        input.move_backward,
        input.move_right,
        input.move_left,
        input.move_up,
        input.move_down,
    ]
}

#[test]
fn input_starts_still() {
    assert_eq!(flags(&Input::new()), [false; 6]);
    assert_eq!(flags(&Input::default()), [false; 6]);
}

#[test]
fn input_window_keys_move() {
    let mut input = Input::new();
    input.update_window_input(&window(KeyCode::KeyW, ElementState::Pressed));
    assert_eq!(flags(&input), [true, false, false, false, false, false]);
    input.update_window_input(&window(KeyCode::KeyQ, ElementState::Pressed));
    assert_eq!(flags(&input), [true, false, false, false, false, true]);
    input.update_window_input(&window(KeyCode::Slash, ElementState::Pressed));
    assert_eq!(flags(&input), [true, false, false, false, true, true]);
    input.update_window_input(&window(KeyCode::Period, ElementState::Released));
    assert_eq!(flags(&input), [true, false, false, false, true, false]);
    input.update_window_input(&window(KeyCode::KeyA, ElementState::Pressed));
    input.update_window_input(&window(KeyCode::KeyD, ElementState::Pressed));
    input.update_window_input(&window(KeyCode::KeyS, ElementState::Pressed));
    assert_eq!(flags(&input), [true, true, true, true, true, false]);
}

#[test]
fn input_window_ignores_arrows_and_unknown_keys() {
    let mut input = Input::new();
    input.update_window_input(&window(KeyCode::ArrowUp, ElementState::Pressed));
    input.update_window_input(&window(KeyCode::Other, ElementState::Pressed));
    input.update_window_input(&KeyEvent { physical_key: PhysicalKey::Unidentified, state: ElementState::Pressed });
    assert_eq!(flags(&input), [false; 6]);
}

#[test]
fn input_device_arrows_move() {
    let mut input = Input::new();
    input.update_device_input(device(KeyCode::ArrowLeft, ElementState::Pressed));
    input.update_device_input(device(KeyCode::ArrowDown, ElementState::Pressed));
    assert_eq!(flags(&input), [false, true, false, true, false, false]);
    input.update_device_input(device(KeyCode::KeyW, ElementState::Pressed));
    assert_eq!(flags(&input), [false, true, false, true, false, false]);
    input.update_device_input(device(KeyCode::ArrowRight, ElementState::Pressed));
    input.update_device_input(device(KeyCode::ArrowUp, ElementState::Pressed));
    assert_eq!(flags(&input), [true, true, true, true, false, false]);
}

#[test]
fn input_press_then_release_restores() {
    let mut input = Input::new();
    input.update_window_input(&window(KeyCode::KeyD, ElementState::Pressed));
    let before = flags(&input);
    input.update_window_input(&window(KeyCode::KeyE, ElementState::Pressed));
    input.update_window_input(&window(KeyCode::KeyE, ElementState::Released));
    assert_eq!(flags(&input), before);
    input.update_device_input(device(KeyCode::ArrowRight, ElementState::Released));
    assert_eq!(flags(&input), [false; 6]);
}
