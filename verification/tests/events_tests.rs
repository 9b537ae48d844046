use topohedral_viewer::events::{
    ElementState, EventController, KeyModifierState, KeyStrokeState, ModifiersState, MouseButton,
    MouseButtonPressedState, MouseScrollDelta, NamedKey, PhysicalSize, ResizedState,
};

#[test]
fn test_mouse_wheel_update() {
    let mut event_controller = EventController::default();

    // Test mouse wheel scroll
    let s1 = MouseScrollDelta::LineDelta(1.0f32.to_bits(), 1.0f32.to_bits());
    event_controller.mouse_wheel_update(s1);
    assert_eq!(event_controller.mouse_wheel_delta, Some(1.0f32.to_bits()));

    // Test subsequent mouse wheel scroll
    let s2 = MouseScrollDelta::PixelDelta((2.0f64 as f32).to_bits(), (2.0f64 as f32).to_bits());
    event_controller.mouse_wheel_update(s2);
    assert_eq!(event_controller.mouse_wheel_delta, Some(2.0f32.to_bits()));
}

#[test]
fn test_mouse_input_update() {
    let mut event_controller = EventController::default();

    // Test mouse button press
    event_controller.mouse_input_update(ElementState::Pressed, MouseButton::Left);
    assert_eq!(
        event_controller.mouse_button_pressed_state,
        MouseButtonPressedState::LeftPressed
    );

    // Test mouse button release
    event_controller.mouse_input_update(ElementState::Released, MouseButton::Left);
    assert_eq!(
        event_controller.mouse_button_pressed_state,
        MouseButtonPressedState::NotPressed
    );

    // Test other mouse button press
    event_controller.mouse_input_update(ElementState::Pressed, MouseButton::Right);
    assert_eq!(
        event_controller.mouse_button_pressed_state,
        MouseButtonPressedState::RightPressed
    );
}

#[test]
fn test_key_input_update() {
    let mut event_controller = EventController::default();

    // Test arrow key press
    event_controller.key_input_update(ElementState::Pressed, NamedKey::ArrowLeft);
    assert_eq!(event_controller.key_stroke_state, KeyStrokeState::Left);

    // Test arrow key release
    event_controller.key_input_update(ElementState::Released, NamedKey::ArrowLeft);
    assert_eq!(event_controller.key_stroke_state, KeyStrokeState::NoStroke);

    // Test space key press
    event_controller.key_input_update(ElementState::Pressed, NamedKey::Space);
    assert_eq!(event_controller.key_stroke_state, KeyStrokeState::Space);

    // Test space key release
    event_controller.key_input_update(ElementState::Released, NamedKey::Space);
    assert_eq!(event_controller.key_stroke_state, KeyStrokeState::NoStroke);

    // Test anything else
    event_controller.key_input_update(ElementState::Pressed, NamedKey::Other);
    assert_eq!(event_controller.key_stroke_state, KeyStrokeState::NoStroke);
}

#[test]
fn test_key_modifiers_update() {
    let mut event_controller = EventController::default();

    // Test modifier key press
    event_controller.key_modifiers_update(ModifiersState::shift());
    assert_eq!(event_controller.key_modifier_state, ModifiersState::shift());

    // Test no modifier keys press
    event_controller.key_modifiers_update(ModifiersState::empty());
    assert_eq!(event_controller.key_modifier_state, ModifiersState::empty());
}

#[test]
fn other_mouse_buttons_and_keys() {
    let mut c = EventController::default();
    c.mouse_input_update(ElementState::Pressed, MouseButton::Middle);
    assert_eq!(c.mouse_button_pressed_state, MouseButtonPressedState::MiddlePressed);
    for b in [MouseButton::Back, MouseButton::Forward, MouseButton::Other(7)] {
        c.mouse_input_update(ElementState::Pressed, MouseButton::Left);
        c.mouse_input_update(ElementState::Pressed, b);
        assert_eq!(c.mouse_button_pressed_state, MouseButtonPressedState::NotPressed);
    }
    c.key_input_update(ElementState::Pressed, NamedKey::ArrowRight);
    assert_eq!(c.key_stroke_state, KeyStrokeState::Right);
    c.key_input_update(ElementState::Pressed, NamedKey::ArrowUp);
    assert_eq!(c.key_stroke_state, KeyStrokeState::Up);
    c.key_input_update(ElementState::Pressed, NamedKey::ArrowDown);
    assert_eq!(c.key_stroke_state, KeyStrokeState::Down);
}

#[test]
fn default_controller_has_nothing_pending() {
    let c = EventController::default();
    assert_eq!(c.mouse_button_pressed_state, MouseButtonPressedState::NotPressed);
    assert_eq!(c.mouse_wheel_delta, None);
    assert_eq!(c.key_modifier_state, ModifiersState::from_bits(0));
    assert_eq!(c.resized_state, ResizedState::NotResized);
    assert_eq!(c.key_stroke_state, KeyStrokeState::NoStroke);
    assert_eq!(MouseButtonPressedState::default(), MouseButtonPressedState::NotPressed);
    assert_eq!(KeyModifierState::default(), KeyModifierState::NotModified);
    assert_eq!(ResizedState::default(), ResizedState::NotResized);
    assert_eq!(KeyStrokeState::default(), KeyStrokeState::NoStroke);
}

#[test]
fn resize_is_recorded_with_its_size() {
    let mut c = EventController::default();
    c.resize_update(PhysicalSize { width: 800, height: 600 });
    assert_eq!(c.resized_state, ResizedState::Resized(PhysicalSize { width: 800, height: 600 }));
    c.resize_update(PhysicalSize { width: 1024, height: 0 });
    assert_eq!(c.resized_state, ResizedState::Resized(PhysicalSize { width: 1024, height: 0 }));
}

#[test]
fn each_record_leaves_the_other_fields_alone() {
    let mut c = EventController::default();
    c.mouse_wheel_update(MouseScrollDelta::LineDelta(0, 3.0f32.to_bits()));
    c.key_input_update(ElementState::Pressed, NamedKey::ArrowUp);
    c.key_modifiers_update(ModifiersState::alt());
    c.resize_update(PhysicalSize { width: 3, height: 4 });
    c.mouse_input_update(ElementState::Pressed, MouseButton::Left);
    assert_eq!(c.mouse_wheel_delta, Some(3.0f32.to_bits()));
    assert_eq!(c.key_stroke_state, KeyStrokeState::Up);
    assert_eq!(c.key_modifier_state, ModifiersState::alt());
    assert_eq!(c.resized_state, ResizedState::Resized(PhysicalSize { width: 3, height: 4 }));
    assert_eq!(c.mouse_button_pressed_state, MouseButtonPressedState::LeftPressed);
}

#[test]
fn modifiers_classify_as_the_single_key_held() {
    assert_eq!(ModifiersState::empty().key_modifier(), KeyModifierState::NotModified);
    assert_eq!(ModifiersState::shift().key_modifier(), KeyModifierState::Shift);
    assert_eq!(ModifiersState::control().key_modifier(), KeyModifierState::Ctrl);
    assert_eq!(ModifiersState::alt().key_modifier(), KeyModifierState::Alt);
    assert_eq!(ModifiersState::logo().key_modifier(), KeyModifierState::Logo);
    assert_eq!(ModifiersState::shift().bits, 0b100);
    assert_eq!(ModifiersState::control().bits, 0b100 << 3);
    assert_eq!(ModifiersState::alt().bits, 0b100 << 6);
    assert_eq!(ModifiersState::logo().bits, 0b100 << 9);
    let both = ModifiersState::from_bits(ModifiersState::shift().bits | ModifiersState::alt().bits);
    assert_eq!(both.key_modifier(), KeyModifierState::NotModified);
}
