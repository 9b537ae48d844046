//! The scene: its meshes, its view, and what is resident on the graphics device, behind
//! the one surface through which the window loop and the service change them.
use crate::events::{EventController, Key, WindowEvent};
use crate::scene::cache::{
    draws_all, evicts, uploads, CachedBuffer, Pipeline, RenderPass, UpdatePlan, WgpuState,
};
use crate::scene::mesh::{MeshCore, VertexCore};
use crate::scene::store::{add_step, clear_step, MeshState, START_UID};
use vstd::prelude::*;
use vstd::string::StringExecFns;

verus! {

broadcast use vstd::std_specs::hash::group_hash_axioms;

/// Reasons for which a command to the scene fails.
#[derive(Debug)]
pub enum StateError {
    CommandError(String),
}

impl StateError {
    /// The error in words.
    pub fn message(&self) -> (text: String)
        ensures
            match self {
                StateError::CommandError(msg) => text@ == "Command Error: "@ + msg@,
            },
    {
        match self {
            StateError::CommandError(msg) => "Command Error: ".to_owned().concat(msg.as_str()),
        }
    }
}

/// The view of a scene: a camera, and the input that awaits the next frame.
pub trait ViewStateCore: Sized {
    /// What one frame does to the camera.
    type Step;

    /// The view is in a state that it can advance from.
    spec fn wf(&self) -> bool;

    /// The input that awaits the next frame.
    spec fn controller(&self) -> EventController;

    /// This view with `c` as the input that awaits the next frame.
    spec fn with_controller(&self, c: EventController) -> Self;

    /// The step that the next frame takes.
    spec fn step(&self) -> Self::Step;

    /// The view after the next frame.
    spec fn advanced(&self) -> Self;

    /// Replacing the pending input changes nothing else, and a frame consumes it.
    proof fn lemma_controller(&self, c: EventController)
        ensures
            self.with_controller(c).controller() == c,
            self.with_controller(c).wf() == self.wf(),
            self.with_controller(self.controller()) == *self,
            self.advanced().controller() == self.controller().consumed(),
            self.wf() ==> self.advanced().wf(),
    ;

    /// Advances the view by one frame: the pending input is applied once and cleared.
    fn update(&mut self) -> (step: Self::Step)
        requires
            old(self).wf(),
        ensures
            step == old(self).step(),
            *final(self) == old(self).advanced(),
    ;

    /// The pending input, to record events in.
    fn view_controller(&mut self) -> (c: &mut EventController)
        ensures
            *c == old(self).controller(),
            *final(self) == old(self).with_controller(*final(c)),
    ;
}

/// What the owner of the window has to do after an event.
#[derive(Debug)]
pub enum EventResponse<Step> {
    /// Nothing.
    Ignored,
    /// Ask the window to redraw.
    RequestRedraw,
    /// Give the surface and the depth buffer the new size, then ask the window to redraw.
    Resize { width: u32, height: u32 },
    /// Draw a frame: apply `step` to the camera, carry out `plan` on the device, write
    /// the view's uniform data, and draw `passes` in their order.
    Frame { step: Step, plan: UpdatePlan, passes: Vec<RenderPass> },
}

/// The pending input after the input event `event` was recorded; other events leave it
/// as it is.
pub open spec fn recorded(c: EventController, event: WindowEvent) -> EventController {
    match event {
        WindowEvent::MouseWheel { delta } => EventController {
            mouse_wheel_delta: Some(delta.vertical()),
            ..c
        },
        WindowEvent::MouseInput { state, button } => EventController {
            mouse_button_pressed_state: crate::events::button_state(state, button),
            ..c
        },
        WindowEvent::KeyboardInput { state, logical_key: Key::Named(key) } => EventController {
            key_stroke_state: crate::events::key_stroke(state, key),
            ..c
        },
        WindowEvent::ModifiersChanged(modifiers) => EventController {
            key_modifier_state: modifiers,
            ..c
        },
        WindowEvent::Resized(size) => EventController {
            resized_state: crate::events::ResizedState::Resized(size),
            ..c
        },
        _ => c,
    }
}

/// The scene: its meshes, its view, and, once a window was launched, what is resident
/// on the graphics device.
pub struct StateCore<V: VertexCore, ViewState: ViewStateCore + Default> {
    pub view_state: ViewState,
    pub wgpu_state: Option<WgpuState>,
    pub mesh_state: MeshState<V>,
}

impl<V: VertexCore, ViewState: ViewStateCore + Default> StateCore<V, ViewState> {
    /// Store and view are well formed, and what is resident on the device was made for
    /// meshes of this store.
    pub open spec fn wf(&self) -> bool {
        &&& self.mesh_state.wf()
        &&& self.view_state.wf()
        &&& self.wgpu_state matches Some(w) ==> w.coherent(&self.mesh_state)
    }

    /// A scene without meshes and without a window.
    pub fn new() -> (state: Self)
        requires
            forall|v: ViewState| call_ensures(ViewState::default, (), v) ==> v.wf(),
        ensures
            state.wf(),
            call_ensures(ViewState::default, (), state.view_state),
            state.wgpu_state is None,
            state.mesh_state.next_uid == START_UID,
            state.mesh_state.meshes@ == Map::<usize, MeshCore<V>>::empty(),
    {
        let view_state = ViewState::default();
        let mesh_state = MeshState::new();
        StateCore { view_state, wgpu_state: None, mesh_state }
    }

    /// Records that the window `window` was opened with a surface of the given size, on a
    /// device that can or cannot draw the edges of triangles. Nothing is resident yet.
    pub fn launch_window(&mut self, window: u64, width: u32, height: u32, polygon_mode_line: bool)
        requires
            old(self).wf(),
        ensures
            final(self).wf(),
            final(self).view_state == old(self).view_state,
            final(self).mesh_state == old(self).mesh_state,
            final(self).wgpu_state matches Some(w) && w.window == window && w.width == width
                && w.height == height && w.polygon_mode_line == polygon_mode_line
                && w.wgpu_line_buffers@ == Map::<usize, CachedBuffer>::empty()
                && w.wgpu_tri_buffers@ == Map::<usize, CachedBuffer>::empty(),
    {
        self.wgpu_state = Some(WgpuState::new(window, width, height, polygon_mode_line));
    }

    /// Whether `window_id` names the window of this scene.
    pub fn has_window(&self, window_id: u64) -> (own: bool)
        requires
            self.wgpu_state is Some,
        ensures
            own == (self.wgpu_state->0.window == window_id),
    {
        match &self.wgpu_state {
            Some(w) => w.window == window_id,
            None => false,
        }
    }

    /// Stores the drawable `mesh` and returns the identifier it was given: the next one,
    /// greater than every identifier given before.
    pub fn add_mesh(&mut self, mesh: MeshCore<V>) -> (uid: usize)
        requires
            old(self).wf(),
            old(self).mesh_state.next_uid < usize::MAX,
            mesh.valid(),
        ensures
            final(self).wf(),
            uid == old(self).mesh_state.next_uid,
            uid >= START_UID,
            final(self).mesh_state.next_uid == uid + 1,
            add_step(old(self).mesh_state, final(self).mesh_state),
            grown(*old(self), *final(self), uid),
            !old(self).mesh_state.meshes@.contains_key(uid),
            final(self).mesh_state.meshes@.dom() == old(self).mesh_state.meshes@.dom().insert(uid),
            forall|other: usize|
                old(self).mesh_state.meshes@.contains_key(other) ==> final(self).mesh_state.meshes@[other]
                    == old(self).mesh_state.meshes@[other],
            final(self).mesh_state.meshes@[uid].vertices == mesh.vertices,
            final(self).mesh_state.meshes@[uid].indices == mesh.indices,
            final(self).mesh_state.meshes@[uid].cell_type == mesh.cell_type,
            final(self).mesh_state.meshes@[uid].uid == uid,
            final(self).view_state == old(self).view_state,
            final(self).wgpu_state == old(self).wgpu_state,
    {
        let uid = self.mesh_state.add_mesh(mesh);
        uid
    }

    /// The mesh with identifier `uid`, if the scene holds one.
    pub fn get_mesh(&self, uid: usize) -> (mesh: Option<&MeshCore<V>>)
        ensures
            match mesh {
                Some(m) => self.mesh_state.meshes@.contains_key(uid) && *m
                    == self.mesh_state.meshes@[uid] && (self.wf() ==> m.valid() && m.uid == uid),
                None => !self.mesh_state.meshes@.contains_key(uid),
            },
    {
        self.mesh_state.meshes.get(&uid)
    }

    /// Removes all meshes. Identifiers are not given out again: the next one stays what it
    /// was. What is resident on the device is left to the next frame.
    pub fn clear_meshes(&mut self)
        requires
            old(self).wf(),
        ensures
            final(self).wf(),
            final(self).mesh_state.meshes@ == Map::<usize, MeshCore<V>>::empty(),
            final(self).mesh_state.next_uid == old(self).mesh_state.next_uid,
            clear_step(old(self).mesh_state, final(self).mesh_state),
            final(self).view_state == old(self).view_state,
            final(self).wgpu_state == old(self).wgpu_state,
    {
        self.mesh_state.meshes.clear();
    }

    /// Reacts to an event of the window `window_id`. An event of another window is
    /// ignored. An input event is recorded for the next frame and asks for a redraw; a
    /// resize is recorded as well for the surface; a request to redraw advances the view,
    /// brings the device in step with the meshes and draws.
    pub fn handle_event(&mut self, window_id: u64, event: &WindowEvent) -> (response:
        EventResponse<ViewState::Step>)
        requires
            old(self).wf(),
            event.handled() ==> old(self).wgpu_state is Some,
        ensures
            final(self).wf(),
            final(self).mesh_state == old(self).mesh_state,
            final(self).wgpu_state is Some == old(self).wgpu_state is Some,
            !event.handled() || old(self).wgpu_state->0.window != window_id ==> response is Ignored
                && final(self).view_state == old(self).view_state && final(self).wgpu_state
                == old(self).wgpu_state,
            event.handled() && old(self).wgpu_state->0.window == window_id ==> match *event {
                WindowEvent::RedrawRequested => {
                    &&& final(self).view_state == old(self).view_state.advanced()
                    &&& response matches EventResponse::Frame { step, plan, passes }
                    &&& step == old(self).view_state.step()
                    &&& framed(
                        old(self).wgpu_state->0,
                        final(self).wgpu_state->0,
                        final(self).mesh_state,
                        plan,
                        passes,
                    )
                },
                WindowEvent::Resized(size) => {
                    &&& final(self).view_state == old(self).view_state.with_controller(
                        recorded(old(self).view_state.controller(), *event),
                    )
                    &&& response == (EventResponse::<ViewState::Step>::Resize {
                        width: size.width,
                        height: size.height,
                    })
                    &&& final(self).wgpu_state->0.width == size.width
                    &&& final(self).wgpu_state->0.height == size.height
                    &&& same_buffers(old(self).wgpu_state->0, final(self).wgpu_state->0)
                },
                WindowEvent::CursorMoved => {
                    &&& final(self).view_state == old(self).view_state
                    &&& final(self).wgpu_state == old(self).wgpu_state
                    &&& response is Ignored
                },
                WindowEvent::KeyboardInput { state, logical_key: Key::Unnamed } => {
                    &&& final(self).view_state == old(self).view_state
                    &&& final(self).wgpu_state == old(self).wgpu_state
                    &&& response is Ignored
                },
                _ => {
                    &&& final(self).view_state == old(self).view_state.with_controller(
                        recorded(old(self).view_state.controller(), *event),
                    )
                    &&& final(self).wgpu_state == old(self).wgpu_state
                    &&& response is RequestRedraw
                },
            },
    {
        if let WindowEvent::Unhandled = event {
            return EventResponse::Ignored;
        }
        if !self.has_window(window_id) {
            return EventResponse::Ignored;
        }
        proof {
            old(self).view_state.lemma_controller(old(self).view_state.controller());
            old(self).view_state.lemma_controller(
                recorded(old(self).view_state.controller(), *event),
            );
        }
        match event {
            WindowEvent::MouseWheel { delta } => {
                self.view_state.view_controller().mouse_wheel_update(*delta);
                EventResponse::RequestRedraw
            },
            WindowEvent::MouseInput { state, button } => {
                self.view_state.view_controller().mouse_input_update(*state, *button);
                EventResponse::RequestRedraw
            },
            WindowEvent::CursorMoved => EventResponse::Ignored,
            WindowEvent::KeyboardInput { state, logical_key } => {
                match logical_key {
                    Key::Named(key) => {
                        self.view_state.view_controller().key_input_update(*state, *key);
                        EventResponse::RequestRedraw
                    },
                    Key::Unnamed => EventResponse::Ignored,
                }
            },
            WindowEvent::ModifiersChanged(modifiers) => {
                self.view_state.view_controller().key_modifiers_update(*modifiers);
                EventResponse::RequestRedraw
            },
            WindowEvent::Resized(size) => {
                self.view_state.view_controller().resize_update(*size);
                match &mut self.wgpu_state {
                    Some(w) => {
                        w.resize(size.width, size.height);
                    },
                    None => {},
                }
                EventResponse::Resize { width: size.width, height: size.height }
            },
            WindowEvent::RedrawRequested => {
                let step = self.view_state.update();
                match &mut self.wgpu_state {
                    Some(w) => {
                        let plan = w.update(&self.mesh_state);
                        let passes = w.render();
                        EventResponse::Frame { step, plan, passes }
                    },
                    None => EventResponse::Ignored,
                }
            },
            WindowEvent::Unhandled => EventResponse::Ignored,
        }
    }
}

/// The scene `after` is the scene `before` with one mesh more, stored under `uid`: the
/// identifier is the next one of `before` and was not in use, the meshes that were there
/// are as they were, and nothing but the store has changed.
pub open spec fn grown<V: VertexCore, W: ViewStateCore + Default>(
    before: StateCore<V, W>,
    after: StateCore<V, W>,
    uid: usize,
) -> bool {
    &&& uid == before.mesh_state.next_uid
    &&& after.mesh_state.next_uid == uid + 1
    &&& !before.mesh_state.meshes@.contains_key(uid)
    &&& after.mesh_state.meshes@.dom() == before.mesh_state.meshes@.dom().insert(uid)
    &&& forall|other: usize|
        before.mesh_state.meshes@.contains_key(other) ==> after.mesh_state.meshes@[other]
            == before.mesh_state.meshes@[other]
    &&& after.mesh_state.meshes@[uid].uid == uid
    &&& after.view_state == before.view_state
    &&& after.wgpu_state == before.wgpu_state
}

/// The step from `before` to `after` is one addition of a mesh or one clearing.
pub open spec fn scene_step<V: VertexCore, W: ViewStateCore + Default>(
    before: StateCore<V, W>,
    after: StateCore<V, W>,
) -> bool {
    grown(before, after, before.mesh_state.next_uid) || clear_step(
        before.mesh_state,
        after.mesh_state,
    )
}

/// Through any history of additions and clearings of a scene the next identifier never
/// goes down.
proof fn lemma_next_uid_grows<V: VertexCore, W: ViewStateCore + Default>(
    states: Seq<StateCore<V, W>>,
    i: int,
    j: int,
)
    requires
        forall|k: int| 0 <= k < states.len() - 1 ==> scene_step(states[k], #[trigger] states[k + 1]),
        0 <= i <= j < states.len(),
    ensures
        states[i].mesh_state.next_uid <= states[j].mesh_state.next_uid,
    decreases j - i,
{
    if i < j {
        lemma_next_uid_grows(states, i, j - 1);
        assert(scene_step(states[j - 1], states[j - 1 + 1]));
    }
}

/// An identifier is given out once. In any history of additions and clearings of a
/// scene, the identifier that an addition returns is greater than the one that any
/// earlier addition returned, and it names no mesh in any state up to that addition,
/// whatever was cleared in between; after the addition it names the mesh that was added.
pub proof fn lemma_uid_is_new<V: VertexCore, W: ViewStateCore + Default>(
    states: Seq<StateCore<V, W>>,
    i: int,
    j: int,
)
    requires
        forall|k: int| 0 <= k < states.len() ==> (#[trigger] states[k]).wf(),
        forall|k: int| 0 <= k < states.len() - 1 ==> scene_step(states[k], #[trigger] states[k + 1]),
        0 <= i <= j < states.len() - 1,
        grown(states[j], states[j + 1], states[j].mesh_state.next_uid),
    ensures
        !states[i].mesh_state.meshes@.contains_key(states[j].mesh_state.next_uid),
        states[j + 1].mesh_state.meshes@.contains_key(states[j].mesh_state.next_uid),
        i < j && grown(states[i], states[i + 1], states[i].mesh_state.next_uid)
            ==> states[i].mesh_state.next_uid < states[j].mesh_state.next_uid,
{
    lemma_next_uid_grows(states, i, j);
    assert(states[i].wf());
    if i < j && grown(states[i], states[i + 1], states[i].mesh_state.next_uid) {
        lemma_next_uid_grows(states, i + 1, j);
    }
    let uid = states[j].mesh_state.next_uid;
    assert(states[j + 1].mesh_state.meshes@.dom().contains(uid));
}

/// The two states hold the same buffers, for the same window and device.
pub open spec fn same_buffers(before: WgpuState, after: WgpuState) -> bool {
    &&& after.wgpu_line_buffers@ == before.wgpu_line_buffers@
    &&& after.wgpu_tri_buffers@ == before.wgpu_tri_buffers@
    &&& after.polygon_mode_line == before.polygon_mode_line
    &&& after.window == before.window
}

/// `plan` and `passes` are the frame that leads from `before` to `after` with the meshes
/// of `store`: `plan` releases the buffers of the meshes that are gone and creates those
/// of the new ones, after which `after` is in step with `store`, and `passes` draw what
/// `after` holds, lines first, then faces, then edges where the device can draw them.
pub open spec fn framed<V: VertexCore>(
    before: WgpuState,
    after: WgpuState,
    store: MeshState<V>,
    plan: UpdatePlan,
    passes: Vec<RenderPass>,
) -> bool {
    &&& after.consistent(&store)
    &&& after.width == before.width
    &&& after.height == before.height
    &&& after.polygon_mode_line == before.polygon_mode_line
    &&& after.window == before.window
    &&& evicts(plan.deleted_lines@, before.wgpu_line_buffers@, store.meshes@)
    &&& evicts(plan.deleted_triangles@, before.wgpu_tri_buffers@, store.meshes@)
    &&& uploads(plan.created@, before.wgpu_line_buffers@, before.wgpu_tri_buffers@, store.meshes@)
    &&& passes@.len() == if after.polygon_mode_line {
        3nat
    } else {
        2nat
    }
    &&& passes@[0].pipeline == Pipeline::Line
    &&& draws_all(passes@[0].draws@, after.wgpu_line_buffers@)
    &&& passes@[1].pipeline == Pipeline::TriangleFace
    &&& draws_all(passes@[1].draws@, after.wgpu_tri_buffers@)
    &&& after.polygon_mode_line ==> passes@[2].pipeline == Pipeline::TriangleEdge
        && passes@[2].draws@ == passes@[1].draws@
}

} // verus!
