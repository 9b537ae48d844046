//! The rule by which pending input becomes one camera step per frame in the planar viewer.
//!
//! The planar camera has a position, a rotation and a zoom level, all of them real
//! numbers that belong to the renderer. What is decided here is which step the camera
//! takes: a rotation, a pan along its own axes, a zoom.
use crate::common::{Direction, Scalar};
use crate::events::{EventController, KeyModifierState, KeyStrokeState, ResizedState};
use vstd::prelude::*;

verus! {

/// How the camera moves in one frame.
#[derive(Clone, Copy, Debug, PartialEq, Eq, Structural)]
pub enum CameraMotion {
    /// The camera stays where it is.
    Still,
    /// The camera turns by one rotation step, counter-clockwise for `Positive`.
    Rotate(Direction),
    /// The camera moves by one pan step along its own first axis and its own second axis.
    Pan { x: Direction, y: Direction },
}

/// What one frame does to the view, in the order in which it is applied: the camera
/// motion, then the zoom. The view's uniform data is recomputed after it, whatever the
/// step holds.
#[derive(Clone, Copy, Debug, PartialEq, Eq, Structural)]
pub struct ViewStep {
    pub motion: CameraMotion,
    /// Wheel movement by which the zoom level changes, to be scaled by the zoom speed.
    pub zoom: Option<Scalar>,
}

/// The rotation that a key stroke asks for while the shift key is held down.
pub open spec fn rotate_for(key: KeyStrokeState) -> CameraMotion {
    match key {
        KeyStrokeState::Left => CameraMotion::Rotate(Direction::Negative),
        KeyStrokeState::Right => CameraMotion::Rotate(Direction::Positive),
        _ => CameraMotion::Rotate(Direction::Zero),
    }
}

/// The pan that a key stroke asks for while the shift key is not held down alone: the
/// scene follows the arrow, so the camera goes the other way horizontally.
pub open spec fn pan_for(key: KeyStrokeState) -> CameraMotion {
    match key {
        KeyStrokeState::Left => CameraMotion::Pan { x: Direction::Positive, y: Direction::Zero },
        KeyStrokeState::Right => CameraMotion::Pan { x: Direction::Negative, y: Direction::Zero },
        KeyStrokeState::Up => CameraMotion::Pan { x: Direction::Zero, y: Direction::Negative },
        KeyStrokeState::Down => CameraMotion::Pan { x: Direction::Zero, y: Direction::Positive },
        _ => CameraMotion::Pan { x: Direction::Zero, y: Direction::Zero },
    }
}

/// The camera motion that the pending key stroke asks for.
pub open spec fn motion_for(c: EventController) -> CameraMotion {
    if c.key_stroke_state == KeyStrokeState::NoStroke {
        CameraMotion::Still
    } else if c.key_modifier_state.single() == KeyModifierState::Shift {
        rotate_for(c.key_stroke_state)
    } else {
        pan_for(c.key_stroke_state)
    }
}

/// The step that the pending input asks for.
pub open spec fn step_for(c: EventController) -> ViewStep {
    ViewStep { motion: motion_for(c), zoom: c.mouse_wheel_delta }
}

/// Of two wheel movements recorded before a frame, the frame zooms by the second alone.
pub proof fn lemma_last_wheel_wins(c: EventController, first: Scalar, second: Scalar)
    ensures
        ({
            let once = EventController { mouse_wheel_delta: Some(first), ..c };
            let twice = EventController { mouse_wheel_delta: Some(second), ..once };
            &&& step_for(twice).zoom == Some(second)
            &&& step_for(twice) == step_for(EventController { mouse_wheel_delta: Some(second), ..c })
        }),
{
}

/// A frame leaves nothing pending: the frame after it, with no input in between, is
/// empty.
pub proof fn lemma_input_applies_once(c: EventController)
    ensures
        c.consumed().idle(),
        step_for(c.consumed()) == (ViewStep { motion: CameraMotion::Still, zoom: None }),
{
}

impl EventController {
    /// Takes the pending input, once: the latest key stroke and the latest wheel movement
    /// become one step, a pending resize is dropped, and nothing stays pending.
    pub fn update_view_2d(&mut self) -> (step: ViewStep)
        ensures
            step == step_for(*old(self)),
            *final(self) == old(self).consumed(),
    {
        if let ResizedState::Resized(_) = self.resized_state {
            self.resized_state = ResizedState::NotResized;
        }
        let mut motion = CameraMotion::Still;
        if self.key_stroke_state != KeyStrokeState::NoStroke {
            if self.key_modifier_state.key_modifier() == KeyModifierState::Shift {
                let delta_angle = match self.key_stroke_state {
                    KeyStrokeState::Left => Direction::Negative,
                    KeyStrokeState::Right => Direction::Positive,
                    _ => Direction::Zero,
                };
                motion = CameraMotion::Rotate(delta_angle);
            } else {
                let (x, y) = match self.key_stroke_state {
                    KeyStrokeState::Left => (Direction::Positive, Direction::Zero),
                    KeyStrokeState::Right => (Direction::Negative, Direction::Zero),
                    KeyStrokeState::Up => (Direction::Zero, Direction::Negative),
                    KeyStrokeState::Down => (Direction::Zero, Direction::Positive),
                    _ => (Direction::Zero, Direction::Zero),
                };
                motion = CameraMotion::Pan { x, y };
            }
            self.key_stroke_state = KeyStrokeState::NoStroke;
        }
        let mut zoom: Option<Scalar> = None;
        if let Some(mwd) = self.mouse_wheel_delta {
            zoom = Some(mwd);
            self.mouse_wheel_delta = None;
        }
        ViewStep { motion, zoom }
    }
}

} // verus!
