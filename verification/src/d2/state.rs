//! The state of the planar viewer.
use crate::d2::camera::{step_for, ViewStep};
use crate::common::{CellType, Vec2};
use crate::d2::mesh::{
    lemma_words_make_mesh, CircleDescriptor, LineDescriptor, Mesh, SquareDescriptor,
};
use crate::d2::shapes::{
    axes_corners, circle_positions, colored, shows_axes, shows_circle, shows_square,
    square_positions,
};
use crate::scene::state::grown;
use crate::d2::vertex::Vertex;
use crate::events::EventController;
use crate::scene::state::{StateCore, ViewStateCore};
use vstd::prelude::*;

verus! {

/// The view of the planar scene: the input that awaits the next frame.
#[derive(Clone, Copy, Debug, PartialEq, Eq, Structural)]
pub struct ViewState {
    pub view_controller: EventController,
}

impl ViewState {
    /// The view at the start: no input pending.
    pub fn new() -> (v: Self)
        ensures
            v.view_controller.idle(),
            v.view_controller.mouse_button_pressed_state
                == crate::events::MouseButtonPressedState::NotPressed,
            v.view_controller.key_modifier_state.bits == 0,
            ViewStateCore::wf(&v),
    {
        ViewState { view_controller: EventController::default() }
    }
}

impl Default for ViewState {
    fn default() -> (v: Self)
        ensures
            v.view_controller.idle(),
            v.view_controller.mouse_button_pressed_state
                == crate::events::MouseButtonPressedState::NotPressed,
            v.view_controller.key_modifier_state.bits == 0,
            ViewStateCore::wf(&v),
    {
        ViewState::new()
    }
}

impl ViewStateCore for ViewState {
    type Step = ViewStep;

    open spec fn wf(&self) -> bool {
        true
    }

    open spec fn controller(&self) -> EventController {
        self.view_controller
    }

    open spec fn with_controller(&self, c: EventController) -> Self {
        ViewState { view_controller: c }
    }

    open spec fn step(&self) -> ViewStep {
        step_for(self.view_controller)
    }

    open spec fn advanced(&self) -> Self {
        ViewState { view_controller: self.view_controller.consumed() }
    }

    proof fn lemma_controller(&self, c: EventController) {
    }

    fn update(&mut self) -> (step: ViewStep) {
        self.view_controller.update_view_2d()
    }

    fn view_controller(&mut self) -> (c: &mut EventController) {
        &mut self.view_controller
    }
}

/// The planar scene.
pub type State = StateCore<Vertex, ViewState>;

/// The shapes that can be added to the planar scene as they are given.
pub trait State2D {
    /// The scene can take one more mesh.
    spec fn ready(&self) -> bool;

    /// The identifier that the next mesh gets.
    spec fn next(&self) -> usize;

    /// Adds a line segment and returns its identifier.
    fn add_line(&mut self, line_desc: &LineDescriptor) -> (uid: usize)
        requires
            old(self).ready(),
        ensures
            uid == old(self).next(),
            final(self).next() == uid + 1,
    ;

    /// Adds a pair of axes, whose arms reach from `ends[0]` to `ends[1]` and from
    /// `ends[2]` to `ends[3]`, and returns its identifier.
    fn add_axes(&mut self, ends: &[Vec2; 4]) -> (uid: usize)
        requires
            old(self).ready(),
        ensures
            uid == old(self).next(),
            final(self).next() == uid + 1,
    ;

    /// Adds the square `square_desc`, whose corners lie at `corners`, and returns its
    /// identifier.
    fn add_square(&mut self, square_desc: &SquareDescriptor, corners: &[Vec2; 4]) -> (uid: usize)
        requires
            old(self).ready(),
            square_desc.cell_type != CellType::Unset,
        ensures
            uid == old(self).next(),
            final(self).next() == uid + 1,
    ;

    /// Adds the circle `circle_desc`, drawn through the points `rim`, and returns its
    /// identifier.
    fn add_circle(&mut self, circle_desc: &CircleDescriptor, rim: &[Vec2]) -> (uid: usize)
        requires
            old(self).ready(),
            circle_desc.cell_type != CellType::Unset,
            rim@.len() == circle_desc.num_sides,
            circle_desc.num_sides > 0,
            3 * circle_desc.num_sides <= u32::MAX,
        ensures
            uid == old(self).next(),
            final(self).next() == uid + 1,
    ;
}

impl State2D for State {
    open spec fn ready(&self) -> bool {
        self.wf() && self.mesh_state.next_uid < usize::MAX
    }

    open spec fn next(&self) -> usize {
        self.mesh_state.next_uid
    }

    fn add_line(&mut self, line_desc: &LineDescriptor) -> (uid: usize)
        ensures
            final(self).wf(),
            uid >= crate::scene::store::START_UID,
            final(self).mesh_state.meshes@.dom() == old(self).mesh_state.meshes@.dom().insert(uid),
            forall|other: usize|
                old(self).mesh_state.meshes@.contains_key(other) ==> final(self).mesh_state.meshes@[other]
                    == old(self).mesh_state.meshes@[other],
            final(self).mesh_state.meshes@[uid].uid == uid,
            final(self).mesh_state.meshes@[uid].cell_type == crate::common::CellType::Line,
            final(self).mesh_state.meshes@[uid].indices@ == seq![0u32, 1u32],
            final(self).mesh_state.meshes@[uid].vertices@ == crate::d2::mesh::vertex_words(
                line_desc.v1,
                line_desc.color,
                crate::common::Color::Gray,
            ) + crate::d2::mesh::vertex_words(
                line_desc.v2,
                line_desc.color,
                crate::common::Color::Gray,
            ),
            final(self).view_state == old(self).view_state,
            final(self).wgpu_state == old(self).wgpu_state,
    {
        let line_mesh = Mesh::create_line(line_desc);
        self.add_mesh(line_mesh)
    }

    fn add_axes(&mut self, ends: &[Vec2; 4]) -> (uid: usize)
        ensures
            final(self).wf(),
            grown(*old(self), *final(self), uid),
            shows_axes(final(self).mesh_state.meshes@[uid], ends@),
    {
        let axes_mesh = Mesh::create_axes(ends);
        let ghost made = axes_mesh;
        let uid = self.add_mesh(axes_mesh);
        proof {
            lemma_words_make_mesh(
                made,
                self.mesh_state.meshes@[uid],
                axes_corners(ends@),
            );
        }
        uid
    }

    fn add_square(&mut self, square_desc: &SquareDescriptor, corners: &[Vec2; 4]) -> (uid: usize)
        ensures
            final(self).wf(),
            grown(*old(self), *final(self), uid),
            shows_square(final(self).mesh_state.meshes@[uid], *square_desc, corners@),
    {
        let square_mesh = Mesh::create_square(square_desc, corners);
        let ghost made = square_mesh;
        let uid = self.add_mesh(square_mesh);
        proof {
            lemma_words_make_mesh(
                made,
                self.mesh_state.meshes@[uid],
                colored(
                    square_positions(square_desc.cell_type, corners@),
                    square_desc.line_color,
                    square_desc.tri_color,
                ),
            );
        }
        uid
    }

    fn add_circle(&mut self, circle_desc: &CircleDescriptor, rim: &[Vec2]) -> (uid: usize)
        ensures
            final(self).wf(),
            grown(*old(self), *final(self), uid),
            shows_circle(final(self).mesh_state.meshes@[uid], *circle_desc, rim@),
    {
        let circle_mesh = Mesh::create_circle(circle_desc, rim);
        let ghost made = circle_mesh;
        let uid = self.add_mesh(circle_mesh);
        proof {
            lemma_words_make_mesh(
                made,
                self.mesh_state.meshes@[uid],
                colored(
                    circle_positions(circle_desc.cell_type, circle_desc.center, rim@),
                    circle_desc.line_color,
                    circle_desc.tri_color,
                ),
            );
        }
        uid
    }
}

} // verus!
