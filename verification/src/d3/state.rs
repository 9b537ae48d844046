//! The state of the spatial viewer.
use crate::d3::camera;
use crate::d3::camera::{octant_at, step_for, Camera, ViewStep};
use crate::common::{CellType, Vec3};
use crate::d3::mesh::{
    lemma_words_make_mesh, CuboidDescriptor, CylinderDescriptor, DiscDescriptor, LineDescriptor,
    Mesh, PlaneDescriptor, SphereDescriptor, TriangleDescriptor,
};
use crate::d3::shapes::{
    axes_corners, cuboid_corners, disc_vertices, fitting, plane_corners, shows_axes,
    shows_cuboid, shows_cylinder, shows_disc, shows_plane, shows_sphere, shows_triangle,
    side_vertices, sphere_vertices, triangle_corners,
};
use crate::scene::state::grown;
use crate::d3::vertex::Vertex;
use crate::events::EventController;
use crate::scene::state::{StateCore, ViewStateCore};
use vstd::prelude::*;

verus! {

/// The view of the spatial scene: its camera and the input that awaits the next frame.
#[derive(Clone, Copy, Debug, PartialEq, Eq, Structural)]
pub struct ViewState {
    pub view: camera::View,
    pub view_controller: EventController,
}

impl ViewState {
    /// The view at the start: the camera in octant 0, and no input pending.
    pub fn new() -> (v: Self)
        ensures
            v.view.camera.octant == 0,
            v.view_controller.idle(),
            v.view_controller.mouse_button_pressed_state
                == crate::events::MouseButtonPressedState::NotPressed,
            v.view_controller.key_modifier_state.bits == 0,
            ViewStateCore::wf(&v),
    {
        ViewState { view: camera::View::default(), view_controller: EventController::default() }
    }
}

impl Default for ViewState {
    fn default() -> (v: Self)
        ensures
            v.view.camera.octant == 0,
            v.view_controller.idle(),
            v.view_controller.mouse_button_pressed_state
                == crate::events::MouseButtonPressedState::NotPressed,
            v.view_controller.key_modifier_state.bits == 0,
            ViewStateCore::wf(&v),
    {
        ViewState::new()
    }
}

impl ViewStateCore for ViewState {
    type Step = ViewStep;

    open spec fn wf(&self) -> bool {
        self.view.camera.wf()
    }

    open spec fn controller(&self) -> EventController {
        self.view_controller
    }

    open spec fn with_controller(&self, c: EventController) -> Self {
        ViewState { view: self.view, view_controller: c }
    }

    open spec fn step(&self) -> ViewStep {
        step_for(self.view_controller, self.view.camera.octant as int)
    }

    open spec fn advanced(&self) -> Self {
        ViewState {
            view: camera::View {
                camera: Camera { octant: octant_at(self.step(), self.view.camera.octant) },
            },
            view_controller: self.view_controller.consumed(),
        }
    }

    proof fn lemma_controller(&self, c: EventController) {
        if self.wf() {
            crate::d3::camera::lemma_stroke_flips_one_axis(
                self.view.camera.octant as int,
                self.view_controller.key_stroke_state,
            );
        }
    }

    fn update(&mut self) -> (step: ViewStep) {
        self.view_controller.update_view_3d(&mut self.view)
    }

    fn view_controller(&mut self) -> (c: &mut EventController) {
        &mut self.view_controller
    }
}

/// The spatial scene.
pub type State = StateCore<Vertex, ViewState>;

/// The shapes that can be added to the spatial scene as they are given.
pub trait State3D {
    /// The scene can take one more mesh.
    spec fn ready(&self) -> bool;

    /// The identifier that the next mesh gets.
    spec fn next(&self) -> usize;

    /// Adds a line segment and returns its identifier.
    fn add_line(&mut self, line: &LineDescriptor) -> (uid: usize)
        requires
            old(self).ready(),
        ensures
            uid == old(self).next(),
            final(self).next() == uid + 1,
    ;

    /// Adds the triangle `triangle_desc`, whose unit normal is `normal`, and returns its
    /// identifier.
    fn add_triangle(&mut self, triangle_desc: &TriangleDescriptor, normal: &Vec3) -> (uid: usize)
        requires
            old(self).ready(),
            triangle_desc.cell_type != CellType::Unset,
        ensures
            uid == old(self).next(),
            final(self).next() == uid + 1,
    ;

    /// Adds the plane `plane_desc`, whose corners lie at `corners` and whose two
    /// triangles have the unit normals `normals`, and returns its identifier.
    fn add_plane(
        &mut self,
        plane_desc: &PlaneDescriptor,
        corners: &[Vec3; 4],
        normals: &[Vec3; 2],
    ) -> (uid: usize)
        requires
            old(self).ready(),
            plane_desc.cell_type != CellType::Unset,
        ensures
            uid == old(self).next(),
            final(self).next() == uid + 1,
    ;

    /// Adds the cuboid `cuboid_desc`, whose corners lie at `corners` and whose twelve
    /// triangles have the unit normals `normals`, and returns its identifier.
    fn add_cuboid(
        &mut self,
        cuboid_desc: &CuboidDescriptor,
        corners: &[Vec3; 8],
        normals: &[Vec3; 12],
    ) -> (uid: usize)
        requires
            old(self).ready(),
            cuboid_desc.cell_type != CellType::Unset,
        ensures
            uid == old(self).next(),
            final(self).next() == uid + 1,
    ;

    /// Adds the cylinder `cylinder_desc`, whose side is drawn through the points `side`
    /// and which, unless it is open, is closed by the two discs `caps`, the lower one
    /// first, and returns its identifier.
    fn add_cylinder(
        &mut self,
        cylinder_desc: &CylinderDescriptor,
        side: &[(Vec3, Vec3)],
        caps: Option<(Mesh, Mesh)>,
    ) -> (uid: usize)
        requires
            old(self).ready(),
            cylinder_desc.cell_type != CellType::Unset,
            1 <= cylinder_desc.num_sides,
            2 * cylinder_desc.num_sides <= u32::MAX,
            side@.len() == 2 * cylinder_desc.num_sides,
            caps is Some <==> !cylinder_desc.open,
            caps matches Some((lower, upper)) ==> fitting(*cylinder_desc, lower, upper),
        ensures
            uid == old(self).next(),
            final(self).next() == uid + 1,
    ;

    /// Adds the disc `disc_desc`, whose rim goes through the points `rim`, and returns its
    /// identifier.
    fn add_disc(&mut self, disc_desc: &DiscDescriptor, rim: &[Vec3]) -> (uid: usize)
        requires
            old(self).ready(),
            disc_desc.cell_type != CellType::Unset,
            rim@.len() == disc_desc.num_sides,
            disc_desc.num_sides < u32::MAX,
        ensures
            uid == old(self).next(),
            final(self).next() == uid + 1,
    ;

    /// Adds the sphere `sphere_desc`, drawn through the points `grid`, and returns its
    /// identifier.
    fn add_sphere(&mut self, sphere_desc: &SphereDescriptor, grid: &[(Vec3, Vec3)]) -> (uid: usize)
        requires
            old(self).ready(),
            sphere_desc.cell_type != CellType::Unset,
            1 <= sphere_desc.n_lat,
            1 <= sphere_desc.n_long,
            sphere_desc.n_lat * sphere_desc.n_long <= u32::MAX,
            grid@.len() == sphere_desc.n_lat * sphere_desc.n_long,
        ensures
            uid == old(self).next(),
            final(self).next() == uid + 1,
    ;

    /// Adds three axes, which reach from `ends[0]` to `ends[1]`, from `ends[2]` to
    /// `ends[3]` and from `ends[4]` to `ends[5]`, and returns their identifier.
    fn add_axes(&mut self, ends: &[Vec3; 6]) -> (uid: usize)
        requires
            old(self).ready(),
        ensures
            uid == old(self).next(),
            final(self).next() == uid + 1,
    ;
}

impl State3D for State {
    open spec fn ready(&self) -> bool {
        self.wf() && self.mesh_state.next_uid < usize::MAX
    }

    open spec fn next(&self) -> usize {
        self.mesh_state.next_uid
    }

    fn add_line(&mut self, line_desc: &LineDescriptor) -> (uid: usize)
        ensures
            final(self).wf(),
            uid >= crate::scene::store::START_UID,
            final(self).mesh_state.meshes@.dom() == old(self).mesh_state.meshes@.dom().insert(uid),
            forall|other: usize|
                old(self).mesh_state.meshes@.contains_key(other) ==> final(self).mesh_state.meshes@[other]
                    == old(self).mesh_state.meshes@[other],
            final(self).mesh_state.meshes@[uid].uid == uid,
            final(self).mesh_state.meshes@[uid].cell_type == crate::common::CellType::Line,
            final(self).mesh_state.meshes@[uid].indices@ == seq![0u32, 1u32],
            final(self).mesh_state.meshes@[uid].vertices@ == crate::d3::mesh::vertex_words(
                line_desc.v1,
                crate::d3::mesh::no_normal(),
                line_desc.color,
                line_desc.color,
            ) + crate::d3::mesh::vertex_words(
                line_desc.v2,
                crate::d3::mesh::no_normal(),
                line_desc.color,
                line_desc.color,
            ),
            final(self).view_state == old(self).view_state,
            final(self).wgpu_state == old(self).wgpu_state,
    {
        let line_mesh = Mesh::create_line(line_desc);
        self.add_mesh(line_mesh)
    }

    fn add_triangle(&mut self, triangle_desc: &TriangleDescriptor, normal: &Vec3) -> (uid: usize)
        ensures
            final(self).wf(),
            grown(*old(self), *final(self), uid),
            shows_triangle(final(self).mesh_state.meshes@[uid], *triangle_desc, *normal),
    {
        let triangle_mesh = Mesh::create_triangle(triangle_desc, normal);
        let ghost made = triangle_mesh;
        let uid = self.add_mesh(triangle_mesh);
        proof {
            lemma_words_make_mesh(made, self.mesh_state.meshes@[uid], triangle_corners(*triangle_desc, *normal));
        }
        uid
    }

    fn add_plane(
        &mut self,
        plane_desc: &PlaneDescriptor,
        corners: &[Vec3; 4],
        normals: &[Vec3; 2],
    ) -> (uid: usize)
        ensures
            final(self).wf(),
            grown(*old(self), *final(self), uid),
            shows_plane(final(self).mesh_state.meshes@[uid], *plane_desc, corners@, normals@),
    {
        let plane_mesh = Mesh::create_plane(plane_desc, corners, normals);
        let ghost made = plane_mesh;
        let uid = self.add_mesh(plane_mesh);
        proof {
            lemma_words_make_mesh(made, self.mesh_state.meshes@[uid], plane_corners(*plane_desc, corners@, normals@));
        }
        uid
    }

    fn add_cuboid(
        &mut self,
        cuboid_desc: &CuboidDescriptor,
        corners: &[Vec3; 8],
        normals: &[Vec3; 12],
    ) -> (uid: usize)
        ensures
            final(self).wf(),
            grown(*old(self), *final(self), uid),
            shows_cuboid(final(self).mesh_state.meshes@[uid], *cuboid_desc, corners@, normals@),
    {
        let cuboid_mesh = Mesh::create_cuboid(cuboid_desc, corners, normals);
        let ghost made = cuboid_mesh;
        let uid = self.add_mesh(cuboid_mesh);
        proof {
            lemma_words_make_mesh(made, self.mesh_state.meshes@[uid], cuboid_corners(*cuboid_desc, corners@, normals@));
        }
        uid
    }

    fn add_cylinder(
        &mut self,
        cylinder_desc: &CylinderDescriptor,
        side: &[(Vec3, Vec3)],
        caps: Option<(Mesh, Mesh)>,
    ) -> (uid: usize)
        ensures
            final(self).wf(),
            grown(*old(self), *final(self), uid),
            shows_cylinder(final(self).mesh_state.meshes@[uid], *cylinder_desc, side@, caps),
    {
        let cylinder_mesh = Mesh::create_cylinder(cylinder_desc, side, caps);
        let ghost made = cylinder_mesh;
        let uid = self.add_mesh(cylinder_mesh);
        proof {
            let stored = self.mesh_state.meshes@[uid];
            let corners = side_vertices(*cylinder_desc, side@);
            assert forall|i: int| 0 <= i < corners.len() implies #[trigger] stored.vertex_words(i)
                == corners[i].words() by {
                assert(stored.vertex_words(i) == made.vertex_words(i));
            }
            if caps is None {
                lemma_words_make_mesh(made, stored, corners);
            }
        }
        uid
    }

    fn add_disc(&mut self, disc_desc: &DiscDescriptor, rim: &[Vec3]) -> (uid: usize)
        ensures
            final(self).wf(),
            grown(*old(self), *final(self), uid),
            shows_disc(final(self).mesh_state.meshes@[uid], *disc_desc, rim@),
    {
        let disc_mesh = Mesh::create_disc(disc_desc, rim);
        let ghost made = disc_mesh;
        let uid = self.add_mesh(disc_mesh);
        proof {
            lemma_words_make_mesh(made, self.mesh_state.meshes@[uid], disc_vertices(*disc_desc, rim@));
        }
        uid
    }

    fn add_sphere(&mut self, sphere_desc: &SphereDescriptor, grid: &[(Vec3, Vec3)]) -> (uid: usize)
        ensures
            final(self).wf(),
            grown(*old(self), *final(self), uid),
            shows_sphere(final(self).mesh_state.meshes@[uid], *sphere_desc, grid@),
    {
        let sphere_mesh = Mesh::create_sphere(sphere_desc, grid);
        let ghost made = sphere_mesh;
        let uid = self.add_mesh(sphere_mesh);
        proof {
            lemma_words_make_mesh(made, self.mesh_state.meshes@[uid], sphere_vertices(*sphere_desc, grid@));
        }
        uid
    }

    fn add_axes(&mut self, ends: &[Vec3; 6]) -> (uid: usize)
        ensures
            final(self).wf(),
            grown(*old(self), *final(self), uid),
            shows_axes(final(self).mesh_state.meshes@[uid], ends@),
    {
        let axes_mesh = Mesh::create_axes(ends);
        let ghost made = axes_mesh;
        let uid = self.add_mesh(axes_mesh);
        proof {
            lemma_words_make_mesh(made, self.mesh_state.meshes@[uid], axes_corners(ends@));
        }
        uid
    }
}

} // verus!
