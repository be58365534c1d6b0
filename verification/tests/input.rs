use rust_learn_wgpu::input::{ElementState, KeyCode, KeyEvent, Keyboard, Mouse, MouseButton, PhysicalKey};

fn key(code: u32, state: ElementState, repeat: bool) -> KeyEvent {
    KeyEvent { physical_key: PhysicalKey::Code(KeyCode(code)), state, repeat }
}

#[test]
fn new_keyboard_has_nothing_pressed() {
    let kb = Keyboard::new();
    assert!(!kb.is_pressed(KeyCode(7)));
    assert!(kb.is_released(KeyCode(7)));
    assert!(!kb.just_pressed(KeyCode(7)));
    assert!(!kb.just_released(KeyCode(7)));
}

#[test]
fn press_is_just_pressed_until_update() {
    let mut kb = Keyboard::new();
    kb.handle_event(&key(3, ElementState::Pressed, false));
    assert!(kb.is_pressed(KeyCode(3)));
    assert!(!kb.is_released(KeyCode(3)));
    assert!(kb.just_pressed(KeyCode(3)));
    assert!(!kb.just_released(KeyCode(3)));
    assert!(!kb.is_pressed(KeyCode(4)));
    kb.update();
    assert!(kb.is_pressed(KeyCode(3)));
    assert!(!kb.just_pressed(KeyCode(3)));
}

#[test]
fn release_is_just_released_until_update() {
    let mut kb = Keyboard::new();
    kb.handle_event(&key(3, ElementState::Pressed, false));
    kb.update();
    kb.handle_event(&key(3, ElementState::Released, false));
    assert!(kb.is_released(KeyCode(3)));
    assert!(kb.just_released(KeyCode(3)));
    assert!(!kb.just_pressed(KeyCode(3)));
    kb.update();
    assert!(!kb.just_released(KeyCode(3)));
    assert!(kb.is_released(KeyCode(3)));
}

#[test]
fn repeated_press_changes_nothing() {
    let mut kb = Keyboard::new();
    kb.handle_event(&key(9, ElementState::Pressed, true));
    assert!(!kb.is_pressed(KeyCode(9)));
    kb.handle_event(&key(9, ElementState::Pressed, false));
    kb.update();
    kb.handle_event(&key(9, ElementState::Pressed, true));
    assert!(kb.is_pressed(KeyCode(9)));
    assert!(!kb.just_pressed(KeyCode(9)));
}

#[test]
fn unidentified_key_changes_nothing() {
    let mut kb = Keyboard::new();
    kb.handle_event(&KeyEvent { physical_key: PhysicalKey::Unidentified, state: ElementState::Pressed, repeat: false });
    assert!(!kb.is_pressed(KeyCode(0)));
}

#[test]
fn press_and_release_in_one_frame_is_neither_just_pressed_nor_just_released() {
    let mut kb = Keyboard::new();
    kb.handle_event(&key(1, ElementState::Pressed, false));
    kb.handle_event(&key(1, ElementState::Released, false));
    assert!(!kb.is_pressed(KeyCode(1)));
    assert!(!kb.just_pressed(KeyCode(1)));
    assert!(!kb.just_released(KeyCode(1)));
}

#[test]
fn releasing_a_key_that_is_up_is_harmless() {
    let mut kb = Keyboard::new();
    kb.handle_event(&key(5, ElementState::Released, false));
    assert!(kb.is_released(KeyCode(5)));
    assert!(!kb.just_released(KeyCode(5)));
}

#[test]
fn keys_are_independent() {
    let mut kb = Keyboard::new();
    kb.handle_event(&key(1, ElementState::Pressed, false));
    kb.handle_event(&key(2, ElementState::Pressed, false));
    kb.update();
    kb.handle_event(&key(1, ElementState::Released, false));
    assert!(kb.just_released(KeyCode(1)));
    assert!(kb.is_pressed(KeyCode(2)));
    assert!(!kb.just_pressed(KeyCode(2)));
}

#[test]
fn mouse_buttons_follow_press_and_release() {
    let mut mouse = Mouse::new();
    assert!(mouse.is_released(MouseButton::Left));
    mouse.handle_mouse_input(ElementState::Pressed, MouseButton::Left);
    assert!(mouse.is_pressed(MouseButton::Left));
    assert!(mouse.just_pressed(MouseButton::Left));
    assert!(!mouse.is_pressed(MouseButton::Right));
    mouse.update();
    assert!(!mouse.just_pressed(MouseButton::Left));
    mouse.handle_mouse_input(ElementState::Released, MouseButton::Left);
    assert!(mouse.just_released(MouseButton::Left));
    assert!(mouse.is_released(MouseButton::Left));
    mouse.update();
    assert!(!mouse.just_released(MouseButton::Left));
}

#[test]
fn other_mouse_buttons_are_told_apart() {
    let mut mouse = Mouse::new();
    mouse.handle_mouse_input(ElementState::Pressed, MouseButton::Other(0));
    assert!(mouse.is_pressed(MouseButton::Other(0)));
    assert!(!mouse.is_pressed(MouseButton::Other(1)));
    assert!(!mouse.is_pressed(MouseButton::Forward));
    assert!(!mouse.is_pressed(MouseButton::Left));
    mouse.handle_mouse_input(ElementState::Pressed, MouseButton::Other(u16::MAX));
    assert!(mouse.is_pressed(MouseButton::Other(u16::MAX)));
    mouse.handle_mouse_input(ElementState::Released, MouseButton::Other(0));
    assert!(!mouse.is_pressed(MouseButton::Other(0)));
    assert!(mouse.is_pressed(MouseButton::Other(u16::MAX)));
}
