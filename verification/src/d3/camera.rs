//! The camera of the spatial viewer, as far as it moves in whole steps, and the rule by
//! which pending input becomes one camera step per frame.
//!
//! The camera sits on a sphere around its focus. Its exact position is a matter of
//! real-number arithmetic and belongs to the renderer; what is decided here is which step
//! the camera takes: a jump to one of the eight diagonal positions, a pan, an orbit, a zoom.
use crate::common::{wrap, Direction, Scalar, Vec3};
use crate::events::{
    EventController, KeyModifierState, KeyStrokeState, PhysicalSize, ResizedState,
};
use vstd::prelude::*;

verus! {

/// The discrete state of the camera: the octant it was last sent to.
#[derive(Clone, Copy, Debug, PartialEq, Eq, Structural)]
pub struct Camera {
    pub octant: i8,
}

impl Camera {
    /// The octant is one of the eight.
    pub open spec fn wf(&self) -> bool {
        0 <= self.octant < 8
    }

    /// Sends the camera to the octant `new_oct`.
    pub fn set_octant(&mut self, new_oct: i8)
        requires
            0 <= new_oct < 8,
        ensures
            final(self).octant == new_oct,
            final(self).wf(),
    {
        self.octant = new_oct;
    }
}

impl Default for Camera {
    fn default() -> (c: Self)
        ensures
            c.octant == 0,
            c.wf(),
    {
        Camera { octant: 0 }
    }
}

/// The view of the spatial viewer: its camera.
#[derive(Clone, Copy, Debug, PartialEq, Eq, Structural)]
pub struct View {
    pub camera: Camera,
}

impl Default for View {
    fn default() -> (v: Self)
        ensures
            v.camera.octant == 0,
            v.camera.wf(),
    {
        View { camera: Camera { octant: 0 } }
    }
}

/// How the camera moves in one frame.
#[derive(Clone, Copy, Debug, PartialEq, Eq, Structural)]
pub enum CameraMotion {
    /// The camera stays where it is.
    Still,
    /// The camera jumps to the diagonal position of the given octant, keeping its distance
    /// from the focus.
    Octant(i8),
    /// Camera and focus move sideways by one pan step along `x` and upwards along `y`.
    Pan { x: Direction, y: Direction },
    /// The camera turns around the focus by one orbit step of pitch and of yaw.
    Orbit { pitch: Direction, yaw: Direction },
}

/// What one frame does to the view, in the order in which it is applied: the new aspect
/// ratio, the camera motion, the zoom. The view's uniform data is recomputed after it,
/// whatever the step holds.
#[derive(Clone, Copy, Debug, PartialEq, Eq, Structural)]
pub struct ViewStep {
    /// Width and height whose ratio becomes the aspect ratio of the projection.
    pub aspect: Option<PhysicalSize>,
    pub motion: CameraMotion,
    /// Wheel movement by which the camera moves towards its focus, to be scaled by the
    /// zoom speed.
    pub zoom: Option<Scalar>,
}

/// The octant reached from `octant` by one key stroke with the shift key held down. The
/// octants 0 to 3 form the upper ring and 4 to 7 the lower one, each of them below the
/// octant that is 4 less. Left and right go round the ring, up and down change the ring.
pub open spec fn octant_after(octant: int, key: KeyStrokeState) -> int {
    let ring = octant / 4;
    let slot = octant % 4;
    match key {
        KeyStrokeState::Left => 4 * ring + (slot + 3) % 4,
        KeyStrokeState::Right => 4 * ring + (slot + 1) % 4,
        KeyStrokeState::Up => if octant < 4 {
            octant + 4
        } else {
            octant
        },
        KeyStrokeState::Down => if octant >= 4 {
            octant - 4
        } else {
            octant
        },
        _ => octant,
    }
}

/// The octant reached from `octant` by the key stroke `key_stroke_state`.
pub fn octant_change(octant: i8, key_stroke_state: KeyStrokeState) -> (octant_out: i8)
    requires
        0 <= octant < 8,
    ensures
        octant_out == octant_after(octant as int, key_stroke_state),
        0 <= octant_out < 8,
{
    let octant_out = match key_stroke_state {
        KeyStrokeState::Left => {
            if octant < 4 {
                wrap(octant - 1, 4)
            } else {
                wrap(octant - 5, 4) + 4
            }
        },
        KeyStrokeState::Right => {
            if octant < 4 {
                wrap(octant + 1, 4)
            } else {
                wrap(octant - 3, 4) + 4
            }
        },
        KeyStrokeState::Up => {
            if octant < 4 {
                octant + 4
            } else {
                octant
            }
        },
        KeyStrokeState::Down => {
            if octant >= 4 {
                octant - 4
            } else {
                octant
            }
        },
        _ => octant,
    };
    octant_out
}

/// Four strokes to the left lead back to the start, by way of 0, 3, 2, 1 from octant 0.
pub proof fn lemma_left_goes_round(octant: int)
    requires
        0 <= octant < 8,
    ensures
        octant_after(
            octant_after(
                octant_after(octant_after(octant, KeyStrokeState::Left), KeyStrokeState::Left),
                KeyStrokeState::Left,
            ),
            KeyStrokeState::Left,
        ) == octant,
        octant_after(0, KeyStrokeState::Left) == 3,
        octant_after(3, KeyStrokeState::Left) == 2,
        octant_after(2, KeyStrokeState::Left) == 1,
        octant_after(1, KeyStrokeState::Left) == 0,
{
}

/// Up leads from an octant below 4 to the one that is 4 more and changes nothing from 4
/// on; down is its inverse: it leads back from where up went, and up leads back from
/// where down went.
pub proof fn lemma_up_down_inverse(octant: int)
    requires
        0 <= octant < 8,
    ensures
        octant < 4 ==> octant_after(octant, KeyStrokeState::Up) == octant + 4,
        octant >= 4 ==> octant_after(octant, KeyStrokeState::Up) == octant,
        octant >= 4 ==> octant_after(octant, KeyStrokeState::Down) == octant - 4,
        octant < 4 ==> octant_after(octant, KeyStrokeState::Down) == octant,
        octant < 4 ==> octant_after(octant_after(octant, KeyStrokeState::Up), KeyStrokeState::Down)
            == octant,
        octant >= 4 ==> octant_after(
            octant_after(octant, KeyStrokeState::Down),
            KeyStrokeState::Up,
        ) == octant,
{
}

/// Whether the first, second and third coordinate are positive in the octant `octant`.
pub open spec fn octant_signs(octant: int) -> (bool, bool, bool) {
    let slot = octant % 4;
    (slot == 0 || slot == 3, slot == 0 || slot == 1, octant < 4)
}

/// Number of axes on which two octants lie on opposite sides.
pub open spec fn axis_flips(a: int, b: int) -> int {
    let sa = octant_signs(a);
    let sb = octant_signs(b);
    (if sa.0 != sb.0 {
        1int
    } else {
        0int
    }) + (if sa.1 != sb.1 {
        1int
    } else {
        0int
    }) + (if sa.2 != sb.2 {
        1int
    } else {
        0int
    })
}

/// Bit pattern of one over the square root of three: the coordinates of a unit vector
/// along a diagonal of space have this magnitude.
pub const INV_SQRT_3: Scalar = 0x3F13_CD3A;

/// Bit pattern of minus one over the square root of three.
pub const NEG_INV_SQRT_3: Scalar = 0xBF13_CD3A;

/// The unit vector from the focus towards the diagonal position of the octant `octant`.
pub open spec fn diagonal_of(octant: int) -> Vec3 {
    let signs = octant_signs(octant);
    Vec3 {
        x: if signs.0 {
            INV_SQRT_3
        } else {
            NEG_INV_SQRT_3
        },
        y: if signs.1 {
            INV_SQRT_3
        } else {
            NEG_INV_SQRT_3
        },
        z: if signs.2 {
            INV_SQRT_3
        } else {
            NEG_INV_SQRT_3
        },
    }
}

/// The unit vector from the focus towards the diagonal position of the octant `octant`.
pub fn diagonal_position(octant: i8) -> (direction: Vec3)
    requires
        0 <= octant < 8,
    ensures
        direction == diagonal_of(octant as int),
        crate::common::octant_of(direction) == octant,
{
    let slot = octant % 4;
    let x = if slot == 0 || slot == 3 {
        INV_SQRT_3
    } else {
        NEG_INV_SQRT_3
    };
    let y = if slot == 0 || slot == 1 {
        INV_SQRT_3
    } else {
        NEG_INV_SQRT_3
    };
    let z = if octant < 4 {
        INV_SQRT_3
    } else {
        NEG_INV_SQRT_3
    };
    Vec3::new(x, y, z)
}

/// The diagonal position of every octant lies in that octant: the numbering by which the
/// camera is sent to an octant is the one by which a direction is sorted into its octant.
pub proof fn lemma_diagonal_lies_in_its_octant(octant: int)
    requires
        0 <= octant < 8,
    ensures
        crate::common::octant_of(diagonal_of(octant)) == octant,
{
}

/// A key stroke leads to one of the eight octants, and where it moves the camera, to a
/// neighbour: the octant on the other side of exactly one axis.
pub proof fn lemma_stroke_flips_one_axis(octant: int, key: KeyStrokeState)
    requires
        0 <= octant < 8,
    ensures
        0 <= octant_after(octant, key) < 8,
        octant_after(octant, key) != octant ==> axis_flips(octant, octant_after(octant, key)) == 1,
{
}

/// The pan that a key stroke asks for while the alt key is held down.
pub open spec fn pan_for(key: KeyStrokeState) -> CameraMotion {
    match key {
        KeyStrokeState::Left => CameraMotion::Pan { x: Direction::Negative, y: Direction::Zero },
        KeyStrokeState::Right => CameraMotion::Pan { x: Direction::Positive, y: Direction::Zero },
        KeyStrokeState::Up => CameraMotion::Pan { x: Direction::Zero, y: Direction::Positive },
        KeyStrokeState::Down => CameraMotion::Pan { x: Direction::Zero, y: Direction::Negative },
        _ => CameraMotion::Pan { x: Direction::Zero, y: Direction::Zero },
    }
}

/// The orbit that a key stroke asks for while no modifier, or another than shift and alt,
/// is held down.
pub open spec fn orbit_for(key: KeyStrokeState) -> CameraMotion {
    match key {
        KeyStrokeState::Left => CameraMotion::Orbit {
            pitch: Direction::Zero,
            yaw: Direction::Negative,
        },
        KeyStrokeState::Right => CameraMotion::Orbit {
            pitch: Direction::Zero,
            yaw: Direction::Positive,
        },
        KeyStrokeState::Up => CameraMotion::Orbit {
            pitch: Direction::Positive,
            yaw: Direction::Zero,
        },
        KeyStrokeState::Down => CameraMotion::Orbit {
            pitch: Direction::Negative,
            yaw: Direction::Zero,
        },
        _ => CameraMotion::Orbit { pitch: Direction::Zero, yaw: Direction::Zero },
    }
}

/// The camera motion that the pending key stroke asks for, with the camera in `octant`.
pub open spec fn motion_for(c: EventController, octant: int) -> CameraMotion {
    if c.key_stroke_state == KeyStrokeState::NoStroke {
        CameraMotion::Still
    } else {
        match c.key_modifier_state.single() {
            KeyModifierState::Shift => if octant_after(octant, c.key_stroke_state) != octant {
                CameraMotion::Octant(octant_after(octant, c.key_stroke_state) as i8)
            } else {
                CameraMotion::Still
            },
            KeyModifierState::Alt => pan_for(c.key_stroke_state),
            _ => orbit_for(c.key_stroke_state),
        }
    }
}

/// The step that the pending input asks for, with the camera in `octant`.
pub open spec fn step_for(c: EventController, octant: int) -> ViewStep {
    ViewStep {
        aspect: match c.resized_state {
            ResizedState::Resized(size) => Some(size),
            ResizedState::NotResized => None,
        },
        motion: motion_for(c, octant),
        zoom: c.mouse_wheel_delta,
    }
}

/// The octant in which the camera is after the step `step`.
pub open spec fn octant_at(step: ViewStep, octant: i8) -> i8 {
    match step.motion {
        CameraMotion::Octant(o) => o,
        _ => octant,
    }
}

/// Of two wheel movements recorded before a frame, the frame zooms by the second alone.
pub proof fn lemma_last_wheel_wins(c: EventController, first: Scalar, second: Scalar, octant: int)
    ensures
        ({
            let once = EventController { mouse_wheel_delta: Some(first), ..c };
            let twice = EventController { mouse_wheel_delta: Some(second), ..once };
            &&& step_for(twice, octant).zoom == Some(second)
            &&& step_for(twice, octant) == step_for(
                EventController { mouse_wheel_delta: Some(second), ..c },
                octant,
            )
        }),
{
}

/// A frame leaves nothing pending: the frame after it, with no input in between, is
/// empty.
pub proof fn lemma_input_applies_once(c: EventController, octant: int)
    ensures
        c.consumed().idle(),
        step_for(c.consumed(), octant) == (ViewStep {
            aspect: None,
            motion: CameraMotion::Still,
            zoom: None,
        }),
{
}

impl EventController {
    /// Applies the pending input to `view`, once: the latest resize, the latest key
    /// stroke and the latest wheel movement become one step, and nothing stays pending.
    pub fn update_view_3d(&mut self, view: &mut View) -> (step: ViewStep)
        requires
            old(view).camera.wf(),
        ensures
            step == step_for(*old(self), old(view).camera.octant as int),
            *final(self) == old(self).consumed(),
            final(view).camera.octant == octant_at(step, old(view).camera.octant),
            final(view).camera.wf(),
    {
        let mut aspect: Option<PhysicalSize> = None;
        if let ResizedState::Resized(new_size) = self.resized_state {
            aspect = Some(new_size);
            self.resized_state = ResizedState::NotResized;
        }
        let mut motion = CameraMotion::Still;
        if self.key_stroke_state != KeyStrokeState::NoStroke {
            match self.key_modifier_state.key_modifier() {
                KeyModifierState::Shift => {
                    let old_octant = view.camera.octant;
                    let new_octant = octant_change(old_octant, self.key_stroke_state);
                    if new_octant != old_octant {
                        view.camera.set_octant(new_octant);
                        motion = CameraMotion::Octant(new_octant);
                    }
                },
                KeyModifierState::Alt => {
                    let (del_x, del_y) = match self.key_stroke_state {
                        KeyStrokeState::Left => (Direction::Negative, Direction::Zero),
                        KeyStrokeState::Right => (Direction::Positive, Direction::Zero),
                        KeyStrokeState::Up => (Direction::Zero, Direction::Positive),
                        KeyStrokeState::Down => (Direction::Zero, Direction::Negative),
                        _ => (Direction::Zero, Direction::Zero),
                    };
                    motion = CameraMotion::Pan { x: del_x, y: del_y };
                },
                _ => {
                    let (pitch_delta, yaw_delta) = match self.key_stroke_state {
                        KeyStrokeState::Left => (Direction::Zero, Direction::Negative),
                        KeyStrokeState::Right => (Direction::Zero, Direction::Positive),
                        KeyStrokeState::Up => (Direction::Positive, Direction::Zero),
                        KeyStrokeState::Down => (Direction::Negative, Direction::Zero),
                        _ => (Direction::Zero, Direction::Zero),
                    };
                    motion = CameraMotion::Orbit { pitch: pitch_delta, yaw: yaw_delta };
                },
            }
            self.key_stroke_state = KeyStrokeState::NoStroke;
        }
        let mut zoom: Option<Scalar> = None;
        if let Some(mwd) = self.mouse_wheel_delta {
            zoom = Some(mwd);
            self.mouse_wheel_delta = None;
        }
        ViewStep { aspect, motion, zoom }
    }
}

} // verus!
