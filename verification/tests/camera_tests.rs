use topohedral_viewer::common::{octant, Direction};
use topohedral_viewer::d2;
use topohedral_viewer::d3::camera::{
    diagonal_position, octant_change, Camera, CameraMotion, View, ViewStep,
};
use topohedral_viewer::events::{
    ElementState, EventController, KeyStrokeState, ModifiersState, MouseScrollDelta, NamedKey,
    PhysicalSize, ResizedState,
};

fn build_view() -> View {
    View { camera: Camera { octant: 0 } }
}

#[test]
fn left_key_stroke_test() {
    let state = ElementState::Pressed;

    let key = NamedKey::ArrowLeft;

    let mut view = build_view();

    let mut view_controller = EventController::default();

    view_controller.key_modifiers_update(ModifiersState::shift());

    assert_eq!(view.camera.octant, 0);
    view_controller.key_input_update(state, key);
    view_controller.update_view_3d(&mut view);
    assert_eq!(view.camera.octant, 3);
    view_controller.key_input_update(state, key);
    view_controller.update_view_3d(&mut view);
    assert_eq!(view.camera.octant, 2);
    view_controller.key_input_update(state, key);
    view_controller.update_view_3d(&mut view);
    assert_eq!(view.camera.octant, 1);
    view_controller.key_input_update(state, key);
    view_controller.update_view_3d(&mut view);
    assert_eq!(view.camera.octant, 0);
    view_controller.key_input_update(state, key);
    view_controller.update_view_3d(&mut view);
    assert_eq!(view.camera.octant, 3);
    view_controller.key_input_update(state, key);
    view_controller.update_view_3d(&mut view);
    assert_eq!(view.camera.octant, 2);
    view_controller.key_input_update(state, key);
    view_controller.update_view_3d(&mut view);
    assert_eq!(view.camera.octant, 1);
}

#[test]
fn octant_table() {
    let left = [3, 0, 1, 2, 7, 4, 5, 6];
    let right = [1, 2, 3, 0, 5, 6, 7, 4];
    let up = [4, 5, 6, 7, 4, 5, 6, 7];
    let down = [0, 1, 2, 3, 0, 1, 2, 3];
    for o in 0..8i8 {
        assert_eq!(octant_change(o, KeyStrokeState::Left), left[o as usize]);
        assert_eq!(octant_change(o, KeyStrokeState::Right), right[o as usize]);
        assert_eq!(octant_change(o, KeyStrokeState::Up), up[o as usize]);
        assert_eq!(octant_change(o, KeyStrokeState::Down), down[o as usize]);
        assert_eq!(octant_change(o, KeyStrokeState::Space), o);
        assert_eq!(octant_change(o, KeyStrokeState::NoStroke), o);
    }
}

#[test]
fn four_times_left_goes_round() {
    let mut o = 0i8;
    let mut seen = vec![o];
    for _ in 0..4 {
        o = octant_change(o, KeyStrokeState::Left);
        seen.push(o);
    }
    assert_eq!(seen, vec![0, 3, 2, 1, 0]);
    for start in 0..8i8 {
        let mut o = start;
        for _ in 0..4 {
            o = octant_change(o, KeyStrokeState::Left);
        }
        assert_eq!(o, start);
    }
}

#[test]
fn up_and_down_are_inverse() {
    for o in 0..4i8 {
        assert_eq!(octant_change(o, KeyStrokeState::Up), o + 4);
        assert_eq!(octant_change(octant_change(o, KeyStrokeState::Up), KeyStrokeState::Down), o);
        assert_eq!(octant_change(o, KeyStrokeState::Down), o);
    }
    for o in 4..8i8 {
        assert_eq!(octant_change(o, KeyStrokeState::Up), o);
        assert_eq!(octant_change(o, KeyStrokeState::Down), o - 4);
        assert_eq!(octant_change(octant_change(o, KeyStrokeState::Down), KeyStrokeState::Up), o);
    }
}

#[test]
fn last_wheel_movement_wins() {
    let mut view = build_view();
    let mut c = EventController::default();
    c.mouse_wheel_update(MouseScrollDelta::LineDelta(0, 1.5f32.to_bits()));
    c.mouse_wheel_update(MouseScrollDelta::LineDelta(0, (-4.0f32).to_bits()));
    let step = c.update_view_3d(&mut view);
    assert_eq!(step.zoom, Some((-4.0f32).to_bits()));
    assert_eq!(step.motion, CameraMotion::Still);
    assert_eq!(step.aspect, None);
    let again = c.update_view_3d(&mut view);
    assert_eq!(again, ViewStep { aspect: None, motion: CameraMotion::Still, zoom: None });

    let mut c2 = EventController::default();
    c2.mouse_wheel_update(MouseScrollDelta::PixelDelta(0, 1.5f32.to_bits()));
    c2.mouse_wheel_update(MouseScrollDelta::LineDelta(0, 0.25f32.to_bits()));
    let step2 = c2.update_view_2d();
    assert_eq!(step2.zoom, Some(0.25f32.to_bits()));
    assert_eq!(c2.update_view_2d().zoom, None);
}

#[test]
fn spatial_step_for_each_modifier() {
    let mut view = build_view();
    let mut c = EventController::default();

    c.key_modifiers_update(ModifiersState::alt());
    c.key_input_update(ElementState::Pressed, NamedKey::ArrowLeft);
    let step = c.update_view_3d(&mut view);
    assert_eq!(step.motion, CameraMotion::Pan { x: Direction::Negative, y: Direction::Zero });
    c.key_input_update(ElementState::Pressed, NamedKey::ArrowRight);
    assert_eq!(
        c.update_view_3d(&mut view).motion,
        CameraMotion::Pan { x: Direction::Positive, y: Direction::Zero }
    );
    c.key_input_update(ElementState::Pressed, NamedKey::ArrowUp);
    assert_eq!(
        c.update_view_3d(&mut view).motion,
        CameraMotion::Pan { x: Direction::Zero, y: Direction::Positive }
    );
    c.key_input_update(ElementState::Pressed, NamedKey::ArrowDown);
    assert_eq!(
        c.update_view_3d(&mut view).motion,
        CameraMotion::Pan { x: Direction::Zero, y: Direction::Negative }
    );
    c.key_input_update(ElementState::Pressed, NamedKey::Space);
    assert_eq!(
        c.update_view_3d(&mut view).motion,
        CameraMotion::Pan { x: Direction::Zero, y: Direction::Zero }
    );

    c.key_modifiers_update(ModifiersState::empty());
    c.key_input_update(ElementState::Pressed, NamedKey::ArrowLeft);
    assert_eq!(
        c.update_view_3d(&mut view).motion,
        CameraMotion::Orbit { pitch: Direction::Zero, yaw: Direction::Negative }
    );
    c.key_input_update(ElementState::Pressed, NamedKey::ArrowRight);
    assert_eq!(
        c.update_view_3d(&mut view).motion,
        CameraMotion::Orbit { pitch: Direction::Zero, yaw: Direction::Positive }
    );
    c.key_input_update(ElementState::Pressed, NamedKey::ArrowUp);
    assert_eq!(
        c.update_view_3d(&mut view).motion,
        CameraMotion::Orbit { pitch: Direction::Positive, yaw: Direction::Zero }
    );
    c.key_input_update(ElementState::Pressed, NamedKey::ArrowDown);
    assert_eq!(
        c.update_view_3d(&mut view).motion,
        CameraMotion::Orbit { pitch: Direction::Negative, yaw: Direction::Zero }
    );
    c.key_modifiers_update(ModifiersState::control());
    c.key_input_update(ElementState::Pressed, NamedKey::ArrowDown);
    assert_eq!(
        c.update_view_3d(&mut view).motion,
        CameraMotion::Orbit { pitch: Direction::Negative, yaw: Direction::Zero }
    );
    assert_eq!(view.camera.octant, 0);

    c.key_modifiers_update(ModifiersState::shift());
    c.key_input_update(ElementState::Pressed, NamedKey::ArrowUp);
    assert_eq!(c.update_view_3d(&mut view).motion, CameraMotion::Octant(4));
    assert_eq!(view.camera.octant, 4);
    c.key_input_update(ElementState::Pressed, NamedKey::ArrowUp);
    assert_eq!(c.update_view_3d(&mut view).motion, CameraMotion::Still);
    assert_eq!(view.camera.octant, 4);
    c.key_input_update(ElementState::Pressed, NamedKey::ArrowRight);
    assert_eq!(c.update_view_3d(&mut view).motion, CameraMotion::Octant(5));
    c.key_input_update(ElementState::Pressed, NamedKey::ArrowLeft);
    assert_eq!(c.update_view_3d(&mut view).motion, CameraMotion::Octant(4));
    c.key_input_update(ElementState::Pressed, NamedKey::ArrowLeft);
    assert_eq!(c.update_view_3d(&mut view).motion, CameraMotion::Octant(7));
    c.key_input_update(ElementState::Pressed, NamedKey::ArrowDown);
    assert_eq!(c.update_view_3d(&mut view).motion, CameraMotion::Octant(3));
    assert_eq!(view.camera.octant, 3);
}

#[test]
fn spatial_step_takes_resize_key_and_wheel_together() {
    let mut view = build_view();
    let mut c = EventController::default();
    c.resize_update(PhysicalSize { width: 640, height: 480 });
    c.resize_update(PhysicalSize { width: 800, height: 600 });
    c.key_modifiers_update(ModifiersState::shift());
    c.key_input_update(ElementState::Pressed, NamedKey::ArrowRight);
    c.key_input_update(ElementState::Pressed, NamedKey::ArrowLeft);
    c.mouse_wheel_update(MouseScrollDelta::LineDelta(0, 2.0f32.to_bits()));
    let step = c.update_view_3d(&mut view);
    assert_eq!(
        step,
        ViewStep {
            aspect: Some(PhysicalSize { width: 800, height: 600 }),
            motion: CameraMotion::Octant(3),
            zoom: Some(2.0f32.to_bits()),
        }
    );
    assert_eq!(c.resized_state, ResizedState::NotResized);
    assert_eq!(c.key_stroke_state, KeyStrokeState::NoStroke);
    assert_eq!(c.mouse_wheel_delta, None);
    assert_eq!(c.key_modifier_state, ModifiersState::shift());
}

#[test]
fn diagonal_positions_lie_in_their_octants() {
    let c = 0.5773502691896258f32;
    let expected = [
        (c, c, c),
        (-c, c, c),
        (-c, -c, c),
        (c, -c, c),
        (c, c, -c),
        (-c, c, -c),
        (-c, -c, -c),
        (c, -c, -c),
    ];
    for o in 0..8i8 {
        let d = diagonal_position(o);
        assert_eq!(
            (f32::from_bits(d.x), f32::from_bits(d.y), f32::from_bits(d.z)),
            expected[o as usize]
        );
        assert_eq!(octant(&d), o);
    }
}

#[test]
fn set_octant_sets_the_octant() {
    let mut camera = Camera::default();
    assert_eq!(camera.octant, 0);
    camera.set_octant(7);
    assert_eq!(camera.octant, 7);
    assert_eq!(View::default().camera.octant, 0);
}

#[test]
fn planar_step_for_each_key() {
    let mut c = EventController::default();
    assert_eq!(
        c.update_view_2d(),
        d2::camera::ViewStep { motion: d2::camera::CameraMotion::Still, zoom: None }
    );

    c.key_modifiers_update(ModifiersState::shift());
    c.key_input_update(ElementState::Pressed, NamedKey::ArrowLeft);
    assert_eq!(c.update_view_2d().motion, d2::camera::CameraMotion::Rotate(Direction::Negative));
    c.key_input_update(ElementState::Pressed, NamedKey::ArrowRight);
    assert_eq!(c.update_view_2d().motion, d2::camera::CameraMotion::Rotate(Direction::Positive));
    c.key_input_update(ElementState::Pressed, NamedKey::ArrowUp);
    assert_eq!(c.update_view_2d().motion, d2::camera::CameraMotion::Rotate(Direction::Zero));

    c.key_modifiers_update(ModifiersState::empty());
    c.key_input_update(ElementState::Pressed, NamedKey::ArrowLeft);
    assert_eq!(
        c.update_view_2d().motion,
        d2::camera::CameraMotion::Pan { x: Direction::Positive, y: Direction::Zero }
    );
    c.key_input_update(ElementState::Pressed, NamedKey::ArrowRight);
    assert_eq!(
        c.update_view_2d().motion,
        d2::camera::CameraMotion::Pan { x: Direction::Negative, y: Direction::Zero }
    );
    c.key_input_update(ElementState::Pressed, NamedKey::ArrowUp);
    assert_eq!(
        c.update_view_2d().motion,
        d2::camera::CameraMotion::Pan { x: Direction::Zero, y: Direction::Negative }
    );
    c.key_input_update(ElementState::Pressed, NamedKey::ArrowDown);
    assert_eq!(
        c.update_view_2d().motion,
        d2::camera::CameraMotion::Pan { x: Direction::Zero, y: Direction::Positive }
    );
    c.key_input_update(ElementState::Pressed, NamedKey::Space);
    assert_eq!(
        c.update_view_2d().motion,
        d2::camera::CameraMotion::Pan { x: Direction::Zero, y: Direction::Zero }
    );
    c.resize_update(PhysicalSize { width: 1, height: 2 });
    c.update_view_2d();
    assert_eq!(c.resized_state, ResizedState::NotResized);
}
