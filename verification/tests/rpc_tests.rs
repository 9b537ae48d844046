use topohedral_viewer::common::{CellType, Color, Validated, Vec2, Vec3};
use topohedral_viewer::d2;
use topohedral_viewer::d2::rpc::d2rpc;
use topohedral_viewer::d3;
use topohedral_viewer::d3::rpc::d3rpc;
use topohedral_viewer::app::{Lifecycle, SendOutcome, ShutdownTrigger};
use topohedral_viewer::scene::service::{
    gate, shutdown_status, validate, Checked, Code, Status,
};

fn v2(x: f32, y: f32) -> Option<d2rpc::Vec2> {
    Some(d2rpc::Vec2 { x: x.to_bits(), y: y.to_bits() })
}

fn v3(x: f32, y: f32, z: f32) -> Option<d3rpc::Vec3> {
    Some(d3rpc::Vec3 { x: x.to_bits(), y: y.to_bits(), z: z.to_bits() })
}

fn c2() -> Option<d2rpc::Color> {
    Some(d2rpc::Color { r: 1.0f32.to_bits(), g: 0.0f32.to_bits(), b: 0.0f32.to_bits() })
}

fn c3() -> Option<d3rpc::Color> {
    Some(d3rpc::Color { r: 1.0f32.to_bits(), g: 0.5f32.to_bits(), b: 0.0f32.to_bits() })
}

fn name() -> String {
    "client".to_string()
}

fn axes2(neg: f32, pos: f32) -> d2rpc::AxesDescriptor {
    d2rpc::AxesDescriptor {
        origin: v2(0.0, 0.0),
        x_axis: v2(1.0, 0.0),
        y_axis: v2(0.0, 1.0),
        neg_len: neg.to_bits(),
        pos_len: pos.to_bits(),
    }
}

fn square2() -> d2rpc::SquareDescriptor {
    d2rpc::SquareDescriptor {
        origin: v2(0.1, 0.1),
        x_axis: v2(1.0, 0.0),
        y_axis: v2(0.0, 1.0),
        lenx: 0.3f32.to_bits(),
        leny: 0.3f32.to_bits(),
        line_color: c2(),
        tri_color: c2(),
        cell_type: 2,
    }
}

fn at2(x: f32, y: f32) -> Vec2 {
    Vec2::new(x.to_bits(), y.to_bits())
}

fn at3(x: f32, y: f32, z: f32) -> Vec3 {
    Vec3::new(x.to_bits(), y.to_bits(), z.to_bits())
}

/// The corners of the square that `square2` describes.
fn corners() -> [Vec2; 4] {
    [at2(0.1, 0.1), at2(0.4, 0.1), at2(0.4, 0.4), at2(0.1, 0.4)]
}

/// The ends of the axes that `axes2(0.5, 0.5)` describes.
fn ends() -> [Vec2; 4] {
    [at2(-0.5, 0.0), at2(0.5, 0.0), at2(0.0, -0.5), at2(0.0, 0.5)]
}

#[test]
fn planar_axes_requests() {
    let ok = d2rpc::AddAxesRequest { client_name: name(), axes_descriptor: Some(axes2(0.5, 0.5)) };
    assert!(ok.is_valid());
    let none = d2rpc::AddAxesRequest { client_name: name(), axes_descriptor: None };
    assert!(!none.is_valid());
    for (neg, pos) in [(0.0, 0.5), (0.5, 0.0), (-1.0, 0.5), (0.5, -0.5), (f32::NAN, 1.0)] {
        let r = d2rpc::AddAxesRequest {
            client_name: name(),
            axes_descriptor: Some(axes2(neg, pos)),
        };
        assert!(!r.is_valid(), "{} {}", neg, pos);
    }
    for missing in 0..3 {
        let mut d = axes2(0.5, 0.5);
        match missing {
            0 => d.origin = None,
            1 => d.x_axis = None,
            _ => d.y_axis = None,
        }
        assert!(!d2rpc::AddAxesRequest { client_name: name(), axes_descriptor: Some(d) }.is_valid());
    }
}

#[test]
fn planar_shape_requests() {
    let line = d2rpc::LineDescriptor { v1: v2(0.0, 0.0), v2: v2(1.0, 1.0), color: c2() };
    assert!(d2rpc::AddLineRequest { client_name: name(), line_descriptor: Some(line) }.is_valid());
    assert!(!d2rpc::AddLineRequest { client_name: name(), line_descriptor: None }.is_valid());
    for missing in 0..3 {
        let mut d = line;
        match missing {
            0 => d.v1 = None,
            1 => d.v2 = None,
            _ => d.color = None,
        }
        assert!(!d2rpc::AddLineRequest { client_name: name(), line_descriptor: Some(d) }.is_valid());
    }

    assert!(d2rpc::AddSquareRequest { client_name: name(), square_descriptor: Some(square2()) }
        .is_valid());
    assert!(!d2rpc::AddSquareRequest { client_name: name(), square_descriptor: None }.is_valid());
    let mut flat = square2();
    flat.lenx = 0.0f32.to_bits();
    assert!(!d2rpc::AddSquareRequest { client_name: name(), square_descriptor: Some(flat) }
        .is_valid());
    let mut thin = square2();
    thin.leny = (-0.3f32).to_bits();
    assert!(!d2rpc::AddSquareRequest { client_name: name(), square_descriptor: Some(thin) }
        .is_valid());
    let mut colourless = square2();
    colourless.tri_color = None;
    assert!(!d2rpc::AddSquareRequest { client_name: name(), square_descriptor: Some(colourless) }
        .is_valid());

    let circle = d2rpc::CircleDescriptor {
        center: v2(0.0, 0.0),
        radius: 1.0f32.to_bits(),
        num_sides: 12,
        line_color: c2(),
        tri_color: c2(),
        cell_type: 1,
    };
    assert!(d2rpc::AddCircleRequest { client_name: name(), circle_descriptor: Some(circle) }
        .is_valid());
    let mut no_sides = circle;
    no_sides.num_sides = 0;
    assert!(!d2rpc::AddCircleRequest { client_name: name(), circle_descriptor: Some(no_sides) }
        .is_valid());
    let mut no_radius = circle;
    no_radius.radius = 0.0f32.to_bits();
    assert!(!d2rpc::AddCircleRequest { client_name: name(), circle_descriptor: Some(no_radius) }
        .is_valid());
    let mut no_center = circle;
    no_center.center = None;
    assert!(!d2rpc::AddCircleRequest { client_name: name(), circle_descriptor: Some(no_center) }
        .is_valid());

    let mesh = || d2rpc::MeshDescriptor { vertices: vec![0; 16], indices: vec![0, 1], cell_type: 1 };
    assert!(d2rpc::AddMeshRequest { client_name: name(), mesh_descriptor: Some(mesh()) }
        .is_valid());
    let mut no_vertices = mesh();
    no_vertices.vertices.clear();
    assert!(!d2rpc::AddMeshRequest { client_name: name(), mesh_descriptor: Some(no_vertices) }
        .is_valid());
    let mut no_indices = mesh();
    no_indices.indices.clear();
    assert!(!d2rpc::AddMeshRequest { client_name: name(), mesh_descriptor: Some(no_indices) }
        .is_valid());
    assert!(!d2rpc::AddMeshRequest { client_name: name(), mesh_descriptor: None }.is_valid());
}

#[test]
fn planar_conversions() {
    let d = d2::SquareDescriptor::from(square2());
    assert_eq!(d.origin, Vec2::new(0.1f32.to_bits(), 0.1f32.to_bits()));
    assert_eq!(d.x_axis, Vec2::new(1.0f32.to_bits(), 0.0f32.to_bits()));
    assert_eq!(d.lenx, 0.3f32.to_bits());
    assert_eq!(d.cell_type, CellType::Triangle);
    assert_eq!(d.line_color.to_rgb(), [1.0f32.to_bits(), 0, 0]);
    let back = d2rpc::SquareDescriptor::from(d);
    assert_eq!(back, square2());

    let a = d2::AxesDescriptor::from(axes2(0.5, 0.25));
    assert_eq!(a.neg_len, 0.5f32.to_bits());
    assert_eq!(a.pos_len, 0.25f32.to_bits());
    assert_eq!(d2rpc::AxesDescriptor::from(a), axes2(0.5, 0.25));

    let named = d2rpc::Color::from(Color::Orange);
    assert_eq!(
        (f32::from_bits(named.r), f32::from_bits(named.g), f32::from_bits(named.b)),
        (1.0, 0.5, 0.0)
    );
    assert_eq!(Color::from(named).to_rgb(), Color::Orange.to_rgb());
    assert_eq!(Vec2::from(d2rpc::Vec2 { x: 1, y: 2 }), Vec2::new(1, 2));
    assert_eq!(d2rpc::Vec2::from(Vec2::new(3, 4)), d2rpc::Vec2 { x: 3, y: 4 });

    let mesh = d2::Mesh::from(d2rpc::MeshDescriptor {
        vertices: vec![1, 2, 3, 4, 5, 6, 7, 8],
        indices: vec![0, 0],
        cell_type: 1,
    });
    assert_eq!(mesh.vertices, vec![1, 2, 3, 4, 5, 6, 7, 8]);
    assert_eq!(mesh.indices, vec![0, 0]);
    assert_eq!(mesh.cell_type, CellType::Line);
    assert_eq!(mesh.uid, 0);
    let md = d2rpc::MeshDescriptor::from(mesh);
    assert_eq!((md.vertices.len(), md.indices.len(), md.cell_type), (8, 2, 1));
}

#[test]
fn planar_handlers_reject_without_touching_the_scene() {
    let mut state = d2::State::new();
    let bad = d2rpc::AddSquareRequest { client_name: name(), square_descriptor: None };
    let out = d2::rpc::rpc_server::add_square(&mut state, bad, &corners());
    let status = out.unwrap_err();
    assert_eq!(status.code, Code::InvalidArgument);
    assert_eq!(status.message, "Invalid square descriptor");
    assert_eq!(state.mesh_state.next_uid, 5);
    assert!(state.mesh_state.meshes.is_empty());

    let bad = d2rpc::AddAxesRequest { client_name: name(), axes_descriptor: Some(axes2(0.0, 1.0)) };
    let status = d2::rpc::rpc_server::add_axes(&mut state, bad, &ends()).unwrap_err();
    assert_eq!(status.message, "Invalid axes descriptor");
    let bad = d2rpc::AddLineRequest { client_name: name(), line_descriptor: None };
    let status = d2::rpc::rpc_server::add_line(&mut state, bad).unwrap_err();
    assert_eq!(status.message, "Invalid line descriptor");
    let bad = d2rpc::AddCircleRequest { client_name: name(), circle_descriptor: None };
    let status =
        d2::rpc::rpc_server::add_circle(&mut state, bad, &[])
            .unwrap_err();
    assert_eq!(status.message, "Invalid circle descriptor");
    let bad = d2rpc::AddMeshRequest { client_name: name(), mesh_descriptor: None };
    let status = d2::rpc::rpc_server::add_mesh(&mut state, bad).unwrap_err();
    assert_eq!(status.message, "Invalid mesh descriptor");
    assert_eq!(status.code, Code::InvalidArgument);
    assert_eq!(state.mesh_state.next_uid, 5);
    assert!(state.mesh_state.meshes.is_empty());
}

#[test]
fn planar_handlers_add_and_answer_with_the_uid() {
    let mut state = d2::State::new();
    let axes = d2rpc::AddAxesRequest { client_name: name(), axes_descriptor: Some(axes2(0.5, 0.5)) };
    let a = d2::rpc::rpc_server::add_axes(&mut state, axes, &ends()).unwrap();
    assert_eq!(a.id, 5);
    let sq = d2rpc::AddSquareRequest { client_name: name(), square_descriptor: Some(square2()) };
    let s = d2::rpc::rpc_server::add_square(&mut state, sq, &corners()).unwrap();
    assert_eq!(s.id, 6);
    let stored = state.get_mesh(6).unwrap();
    assert!(stored.is_triangle());
    assert_eq!(stored.uid, 6);
    assert_eq!(stored.num_vertices(), 6);
    let expected = d2::Mesh::create_square(&d2::SquareDescriptor::from(square2()), &corners());
    assert_eq!(stored.vertex_slice(), expected.vertex_slice());
    assert_eq!(stored.index_slice(), expected.index_slice());

    let line = d2rpc::LineDescriptor { v1: v2(0.0, 0.0), v2: v2(1.0, 1.0), color: c2() };
    let l = d2::rpc::rpc_server::add_line(
        &mut state,
        d2rpc::AddLineRequest { client_name: name(), line_descriptor: Some(line) },
    )
    .unwrap();
    assert_eq!(l.id, 7);
    assert_eq!(state.get_mesh(7).unwrap().index_slice(), &[0, 1]);

    let mesh = d2rpc::MeshDescriptor { vertices: vec![9; 16], indices: vec![0, 1], cell_type: 1 };
    let m = d2::rpc::rpc_server::add_mesh(
        &mut state,
        d2rpc::AddMeshRequest { client_name: name(), mesh_descriptor: Some(mesh) },
    )
    .unwrap();
    assert_eq!(m.id, 8);
    assert_eq!(state.get_mesh(8).unwrap().vertex_slice(), &[9; 16]);

    let cleared =
        d2::rpc::rpc_server::clear(&mut state, d2rpc::ClearRequest { client_name: name() });
    assert!(cleared.is_ok());
    assert!(state.mesh_state.meshes.is_empty());
    assert_eq!(state.mesh_state.next_uid, 9);
    let axes = d2rpc::AddAxesRequest { client_name: name(), axes_descriptor: Some(axes2(0.5, 0.5)) };
    assert_eq!(d2::rpc::rpc_server::add_axes(&mut state, axes, &ends()).unwrap().id, 9);
}

#[test]
fn kill_server_reports_a_failed_send() {
    let ok = d2::rpc::rpc_server::kill_server(
        d2rpc::KillServerRequest { client_name: name() },
        Ok(()),
    );
    assert!(ok.is_ok());
    let failed = d3::rpc::rpc_server::kill_server(
        d3rpc::KillServerRequest { client_name: name() },
        Err("channel closed".to_string()),
    );
    let status: Status = failed.unwrap_err();
    assert_eq!(status.code, Code::Internal);
    assert_eq!(status.message, "Failed to send shutdown signal due to error: channel closed");
    assert!(shutdown_status(Ok(())).is_ok());
    assert_eq!(Status::invalid_argument("x").code, Code::InvalidArgument);
    assert_eq!(Status::internal("y".to_string()).message, "y");
}

fn plane(x_min: f32, x_max: f32, y_min: f32, y_max: f32) -> d3rpc::PlaneDescriptor {
    d3rpc::PlaneDescriptor {
        origin: v3(0.0, 0.0, 0.0),
        x_axis: v3(1.0, 0.0, 0.0),
        y_axis: v3(0.0, 1.0, 0.0),
        x_min: x_min.to_bits(),
        x_max: x_max.to_bits(),
        y_min: y_min.to_bits(),
        y_max: y_max.to_bits(),
        line_color: c3(),
        tri_color: c3(),
        cell_type: 2,
    }
}

#[test]
fn spatial_requests() {
    let line = d3rpc::LineDescriptor { v1: v3(0.0, 0.0, 0.0), v2: v3(1.0, 0.0, 0.0), color: c3() };
    assert!(d3rpc::AddLineRequest { client_name: name(), line_descriptor: Some(line) }.is_valid());
    let mut no_color = line;
    no_color.color = None;
    assert!(!d3rpc::AddLineRequest { client_name: name(), line_descriptor: Some(no_color) }
        .is_valid());
    assert!(!d3rpc::AddLineRequest { client_name: name(), line_descriptor: None }.is_valid());

    let tri = d3rpc::TriangleDescriptor {
        v1: v3(0.0, 0.0, 0.0),
        v2: v3(1.0, 0.0, 0.0),
        v3: v3(0.0, 1.0, 0.0),
        line_color: c3(),
        tri_color: c3(),
        cell_type: 2,
    };
    assert!(d3rpc::AddTriangleRequest { client_name: name(), triangle_descriptor: Some(tri) }
        .is_valid());
    let mut two = tri;
    two.v3 = None;
    assert!(!d3rpc::AddTriangleRequest { client_name: name(), triangle_descriptor: Some(two) }
        .is_valid());

    let valid_plane =
        d3rpc::AddPlaneRequest { client_name: name(), plane_descriptor: Some(plane(-1.0, 1.0, -2.0, 2.0)) };
    assert!(valid_plane.is_valid());
    for (a, b, c, d) in [
        (1.0, 1.0, -2.0, 2.0),
        (2.0, 1.0, -2.0, 2.0),
        (-1.0, 1.0, 2.0, 2.0),
        (-1.0, 1.0, 3.0, 2.0),
        (f32::NAN, 1.0, -2.0, 2.0),
        (0.0, -0.0, -2.0, 2.0),
    ] {
        let r = d3rpc::AddPlaneRequest {
            client_name: name(),
            plane_descriptor: Some(plane(a, b, c, d)),
        };
        assert!(!r.is_valid(), "{} {} {} {}", a, b, c, d);
    }

    let cuboid = d3rpc::CuboidDescriptor {
        origin: v3(0.1, 0.1, 0.0),
        x_axis: v3(1.0, 0.0, 0.0),
        y_axis: v3(0.0, 1.0, 0.0),
        z_axis: v3(0.0, 0.0, 1.0),
        lenx: 1.0f32.to_bits(),
        leny: 1.0f32.to_bits(),
        lenz: 1.0f32.to_bits(),
        line_color: c3(),
        tri_color: c3(),
        cell_type: 2,
    };
    assert!(d3rpc::AddCuboidRequest { client_name: name(), cuboid_descriptor: Some(cuboid) }
        .is_valid());
    let mut flat = cuboid;
    flat.lenz = 0.0f32.to_bits();
    assert!(!d3rpc::AddCuboidRequest { client_name: name(), cuboid_descriptor: Some(flat) }
        .is_valid());
    let mut no_axis = cuboid;
    no_axis.z_axis = None;
    assert!(!d3rpc::AddCuboidRequest { client_name: name(), cuboid_descriptor: Some(no_axis) }
        .is_valid());

    let cylinder = d3rpc::CylinderDescriptor {
        origin: v3(0.0, 0.0, 0.0),
        axis: v3(0.0, 0.0, 1.0),
        radius: 1.0f32.to_bits(),
        height: 2.0f32.to_bits(),
        num_sides: 16,
        line_color: c3(),
        tri_color: c3(),
        open: true,
        cell_type: 2,
    };
    assert!(d3rpc::AddCylinderRequest { client_name: name(), cylinder_descriptor: Some(cylinder) }
        .is_valid());
    let mut no_sides = cylinder;
    no_sides.num_sides = 0;
    assert!(!d3rpc::AddCylinderRequest { client_name: name(), cylinder_descriptor: Some(no_sides) }
        .is_valid());
    let mut no_height = cylinder;
    no_height.height = (-2.0f32).to_bits();
    assert!(!d3rpc::AddCylinderRequest {
        client_name: name(),
        cylinder_descriptor: Some(no_height)
    }
    .is_valid());

    let disc = d3rpc::DiscDescriptor {
        origin: v3(0.0, 0.0, 0.0),
        axis: v3(0.0, 0.0, 1.0),
        radius: 1.0f32.to_bits(),
        num_sides: 16,
        line_color: c3(),
        tri_color: c3(),
        cell_type: 2,
    };
    assert!(d3rpc::AddDiscRequest { client_name: name(), disc_descriptor: Some(disc) }.is_valid());
    let mut no_radius = disc;
    no_radius.radius = 0.0f32.to_bits();
    assert!(!d3rpc::AddDiscRequest { client_name: name(), disc_descriptor: Some(no_radius) }
        .is_valid());
    let mut no_sides = disc;
    no_sides.num_sides = 0;
    assert!(!d3rpc::AddDiscRequest { client_name: name(), disc_descriptor: Some(no_sides) }
        .is_valid());
    let mut no_axis = disc;
    no_axis.axis = None;
    assert!(!d3rpc::AddDiscRequest { client_name: name(), disc_descriptor: Some(no_axis) }
        .is_valid());
    assert!(!d3rpc::AddDiscRequest { client_name: name(), disc_descriptor: None }.is_valid());
    assert_eq!(d3rpc::DiscDescriptor::from(d3::DiscDescriptor::from(disc)), disc);

    let sphere = d3rpc::SphereDescriptor {
        origin: v3(0.0, 0.0, 0.0),
        axis: v3(0.0, 0.0, 1.0),
        radius: 1.0f32.to_bits(),
        n_lat: 8,
        n_long: 16,
        line_color: c3(),
        tri_color: c3(),
        cell_type: 1,
    };
    assert!(d3rpc::AddSphereRequest { client_name: name(), sphere_descriptor: Some(sphere) }
        .is_valid());
    let mut no_lat = sphere;
    no_lat.n_lat = 0;
    assert!(!d3rpc::AddSphereRequest { client_name: name(), sphere_descriptor: Some(no_lat) }
        .is_valid());
    let mut no_long = sphere;
    no_long.n_long = 0;
    assert!(!d3rpc::AddSphereRequest { client_name: name(), sphere_descriptor: Some(no_long) }
        .is_valid());

    let axes = d3rpc::AxesDescriptor {
        origin: v3(0.0, 0.0, 0.0),
        x_axis: v3(1.0, 0.0, 0.0),
        y_axis: v3(0.0, 1.0, 0.0),
        z_axis: v3(0.0, 0.0, 1.0),
        neg_len: 1.0f32.to_bits(),
        pos_len: 2.0f32.to_bits(),
    };
    assert!(d3rpc::AddAxesRequest { client_name: name(), axes_descriptor: Some(axes) }.is_valid());
    let mut neg = axes;
    neg.neg_len = 0.0f32.to_bits();
    assert!(!d3rpc::AddAxesRequest { client_name: name(), axes_descriptor: Some(neg) }.is_valid());

    let mesh = d3rpc::MeshDescriptor { vertices: vec![0; 24], indices: vec![0, 1], cell_type: 1 };
    assert!(d3rpc::AddMeshRequest { client_name: name(), mesh_descriptor: Some(mesh) }.is_valid());
    assert!(!d3rpc::AddMeshRequest { client_name: name(), mesh_descriptor: None }.is_valid());
}

#[test]
fn spatial_conversions_and_handlers() {
    let cylinder = d3rpc::CylinderDescriptor {
        origin: v3(0.0, 0.0, 0.0),
        axis: v3(0.0, 0.0, 1.0),
        radius: 1.0f32.to_bits(),
        height: 2.0f32.to_bits(),
        num_sides: 16,
        line_color: c3(),
        tri_color: c3(),
        open: true,
        cell_type: 2,
    };
    let d = d3::CylinderDescriptor::from(cylinder);
    assert_eq!(d.num_sides, 16);
    assert!(d.open);
    assert_eq!(d.cell_type, CellType::Triangle);
    assert_eq!(d.axis, Vec3::new(0, 0, 1.0f32.to_bits()));
    assert_eq!(d3rpc::CylinderDescriptor::from(d), cylinder);
    assert_eq!(d3rpc::PlaneDescriptor::from(d3::PlaneDescriptor::from(plane(0.0, 1.0, 0.0, 1.0))),
        plane(0.0, 1.0, 0.0, 1.0));

    let mut state = d3::State::new();
    let req = d3rpc::AddCylinderRequest { client_name: name(), cylinder_descriptor: Some(cylinder) };
    let side: Vec<(Vec3, Vec3)> =
        (0..32).map(|k| (at3(k as f32, 0.0, 0.0), at3(0.0, k as f32, 0.0))).collect();
    let made = d3::rpc::rpc_server::add_cylinder(&mut state, req, &side, None).unwrap();
    assert_eq!(made.id, 5);
    let stored = state.get_mesh(5).unwrap();
    assert_eq!((stored.num_vertices(), stored.num_indices()), (32, 96));
    assert_eq!(stored.vertex_slice(), d3::Mesh::create_cylinder(&d, &side, None).vertex_slice());
    assert_eq!(stored.index_slice()[90..], [16, 31, 15, 0, 16, 15]);
    assert!(stored.check());
    let bad = d3rpc::AddCylinderRequest { client_name: name(), cylinder_descriptor: None };
    let status = d3::rpc::rpc_server::add_cylinder(&mut state, bad, &[], None).unwrap_err();
    assert_eq!(status.message, "Invalid cylinder descriptor");
    assert_eq!(state.mesh_state.next_uid, 6);

    let line = d3rpc::LineDescriptor { v1: v3(0.0, 0.0, 0.0), v2: v3(1.0, 0.0, 0.0), color: c3() };
    let l = d3::rpc::rpc_server::add_line(
        &mut state,
        d3rpc::AddLineRequest { client_name: name(), line_descriptor: Some(line) },
    )
    .unwrap();
    assert_eq!(l.id, 6);
    let stored = state.get_mesh(6).unwrap();
    assert_eq!(stored.num_vertices(), 2);
    assert_eq!(f32::from_bits(stored.vertex_slice()[7]), 0.5);

    let bad_plane = d3rpc::AddPlaneRequest {
        client_name: name(),
        plane_descriptor: Some(plane(1.0, 0.0, 0.0, 1.0)),
    };
    let status =
        d3::rpc::rpc_server::add_plane(&mut state, bad_plane, &[Vec3::zeros(); 4], &[Vec3::zeros(); 2])
            .unwrap_err();
    assert_eq!(status.message, "Invalid plane descriptor");
    let none = d3rpc::AddTriangleRequest { client_name: name(), triangle_descriptor: None };
    assert_eq!(
        d3::rpc::rpc_server::add_triangle(&mut state, none, &Vec3::zeros())
            .unwrap_err()
            .message,
        "Invalid triangle descriptor"
    );
    let none = d3rpc::AddCuboidRequest { client_name: name(), cuboid_descriptor: None };
    assert_eq!(
        d3::rpc::rpc_server::add_cuboid(&mut state, none, &[Vec3::zeros(); 8], &[Vec3::zeros(); 12])
            .unwrap_err()
            .message,
        "Invalid cuboid descriptor"
    );
    let none = d3rpc::AddDiscRequest { client_name: name(), disc_descriptor: None };
    assert_eq!(
        d3::rpc::rpc_server::add_disc(&mut state, none, &[])
            .unwrap_err()
            .message,
        "Invalid disc descriptor"
    );
    let none = d3rpc::AddSphereRequest { client_name: name(), sphere_descriptor: None };
    assert_eq!(
        d3::rpc::rpc_server::add_sphere(&mut state, none, &[])
            .unwrap_err()
            .message,
        "Invalid sphere descriptor"
    );
    let none = d3rpc::AddAxesRequest { client_name: name(), axes_descriptor: None };
    assert_eq!(
        d3::rpc::rpc_server::add_axes(&mut state, none, &[Vec3::zeros(); 6])
            .unwrap_err()
            .message,
        "Invalid axes descriptor"
    );
    let none = d3rpc::AddMeshRequest { client_name: name(), mesh_descriptor: None };
    assert_eq!(
        d3::rpc::rpc_server::add_mesh(&mut state, none).unwrap_err().message,
        "Invalid mesh descriptor"
    );
    assert_eq!(state.mesh_state.next_uid, 7);
    d3::rpc::rpc_server::clear(&mut state, d3rpc::ClearRequest { client_name: name() }).unwrap();
    assert!(state.mesh_state.meshes.is_empty());
    assert_eq!(state.mesh_state.next_uid, 7);
}

#[test]
fn clients_build_requests() {
    let client = d2::Client2D::new(50051);
    assert_eq!(client.client_name, "client2d");
    assert_eq!(client.address(), "http://127.0.0.1:50051");
    let square = d2::SquareDescriptor::from(square2());
    let request = client.add_square(square);
    assert_eq!(request.client_name, "client2d");
    assert_eq!(request.square_descriptor, Some(square2()));
    assert!(request.is_valid());
    let axes = client.add_axes(d2::AxesDescriptor::from(axes2(0.5, 0.5)));
    assert_eq!(axes.axes_descriptor, Some(axes2(0.5, 0.5)));
    assert!(!client.add_axes(d2::AxesDescriptor::from(axes2(0.0, 0.5))).is_valid());
    let line = client.add_line(d2::LineDescriptor {
        v1: Vec2::new(1, 2),
        v2: Vec2::new(3, 4),
        color: Color::Orange,
    });
    assert!(line.is_valid());
    assert_eq!(line.line_descriptor.unwrap().color.unwrap().g, 0.5f32.to_bits());
    let mesh = client.add_mesh(d2::Mesh::create_line(&d2::LineDescriptor {
        v1: Vec2::new(1, 2),
        v2: Vec2::new(3, 4),
        color: Color::Orange,
    }));
    assert!(mesh.is_valid());
    assert_eq!(mesh.mesh_descriptor.as_ref().unwrap().indices, vec![0, 1]);
    assert_eq!(mesh.mesh_descriptor.as_ref().unwrap().cell_type, 1);
    assert_eq!(client.clear().client_name, "client2d");
    assert_eq!(client.kill_server().client_name, "client2d");
    assert_eq!(d2::Client2D::uid(d2rpc::AddItemResponse { id: 17 }), 17);

    let client = d3::Client3D::new(8080);
    assert_eq!(client.client_name, "client3d");
    assert_eq!(client.address(), "http://127.0.0.1:8080");
    let request = client.add_plane(d3::PlaneDescriptor::from(plane(0.0, 1.0, 0.0, 1.0)));
    assert_eq!(request.plane_descriptor, Some(plane(0.0, 1.0, 0.0, 1.0)));
    assert!(request.is_valid());
    assert_eq!(d3::Client3D::uid(d3rpc::AddItemResponse { id: 5 }), 5);
    assert_eq!(client.kill_server().client_name, "client3d");
}

#[test]
fn shape_requests_need_lines_or_triangles() {
    for code in [0, 3, 7, -1, i32::MAX] {
        let mut square = square2();
        square.cell_type = code;
        let request = d2rpc::AddSquareRequest { client_name: name(), square_descriptor: Some(square) };
        assert!(!request.is_valid());
        let mut state = d2::State::new();
        let status = d2::rpc::rpc_server::add_square(&mut state, request, &corners()).unwrap_err();
        assert_eq!(status.code, Code::InvalidArgument);
        assert_eq!(status.message, "Invalid square descriptor");
        assert!(state.mesh_state.meshes.is_empty());
        assert_eq!(state.mesh_state.next_uid, 5);

        let circle = d2rpc::CircleDescriptor {
            center: v2(0.0, 0.0),
            radius: 1.0f32.to_bits(),
            num_sides: 12,
            line_color: c2(),
            tri_color: c2(),
            cell_type: code,
        };
        assert!(!d2rpc::AddCircleRequest { client_name: name(), circle_descriptor: Some(circle) }
            .is_valid());

        let mut p = plane(0.0, 1.0, 0.0, 1.0);
        p.cell_type = code;
        assert!(!d3rpc::AddPlaneRequest { client_name: name(), plane_descriptor: Some(p) }
            .is_valid());
        let cylinder = d3rpc::CylinderDescriptor {
            origin: v3(0.0, 0.0, 0.0),
            axis: v3(0.0, 0.0, 1.0),
            radius: 1.0f32.to_bits(),
            height: 2.0f32.to_bits(),
            num_sides: 16,
            line_color: c3(),
            tri_color: c3(),
            open: true,
            cell_type: code,
        };
        assert!(!d3rpc::AddCylinderRequest {
            client_name: name(),
            cylinder_descriptor: Some(cylinder)
        }
        .is_valid());
    }
    for code in [1, 2] {
        let mut square = square2();
        square.cell_type = code;
        assert!(d2rpc::AddSquareRequest { client_name: name(), square_descriptor: Some(square) }
            .is_valid());
        let mut p = plane(0.0, 1.0, 0.0, 1.0);
        p.cell_type = code;
        assert!(d3rpc::AddPlaneRequest { client_name: name(), plane_descriptor: Some(p) }
            .is_valid());
    }
}

fn raw2(vertices: usize, indices: Vec<u32>, cell_type: i32) -> d2rpc::AddMeshRequest {
    d2rpc::AddMeshRequest {
        client_name: name(),
        mesh_descriptor: Some(d2rpc::MeshDescriptor { vertices: vec![7; vertices], indices, cell_type }),
    }
}

fn raw3(vertices: usize, indices: Vec<u32>, cell_type: i32) -> d3rpc::AddMeshRequest {
    d3rpc::AddMeshRequest {
        client_name: name(),
        mesh_descriptor: Some(d3rpc::MeshDescriptor { vertices: vec![7; vertices], indices, cell_type }),
    }
}

#[test]
fn raw_meshes_must_be_drawable() {
    assert!(raw2(16, vec![0, 1], 1).is_valid());
    assert!(raw2(24, vec![0, 1, 2], 2).is_valid());
    assert!(raw2(24, vec![2, 2, 2, 0, 1, 2], 2).is_valid());
    // an index that names no vertex
    assert!(!raw2(16, vec![0, 2], 1).is_valid());
    assert!(!raw2(16, vec![0, u32::MAX], 1).is_valid());
    // half a vertex
    assert!(!raw2(12, vec![0, 0], 1).is_valid());
    // half a cell
    assert!(!raw2(24, vec![0, 1, 2], 1).is_valid());
    assert!(!raw2(24, vec![0, 1], 2).is_valid());
    // neither lines nor triangles
    assert!(!raw2(16, vec![0, 1], 0).is_valid());
    assert!(!raw2(16, vec![0, 1], 3).is_valid());

    assert!(raw3(24, vec![0, 1], 1).is_valid());
    assert!(raw3(36, vec![0, 1, 2], 2).is_valid());
    assert!(!raw3(24, vec![0, 2], 1).is_valid());
    assert!(!raw3(16, vec![0, 0], 1).is_valid());
    assert!(!raw3(36, vec![0, 1], 2).is_valid());
    assert!(!raw3(24, vec![0, 1], 0).is_valid());

    let mut state = d2::State::new();
    for bad in [raw2(16, vec![0, 2], 1), raw2(12, vec![0, 0], 1), raw2(16, vec![0, 1], 0)] {
        let status = d2::rpc::rpc_server::add_mesh(&mut state, bad).unwrap_err();
        assert_eq!(status.code, Code::InvalidArgument);
        assert_eq!(status.message, "Invalid mesh descriptor");
        assert!(state.mesh_state.meshes.is_empty());
        assert_eq!(state.mesh_state.next_uid, 5);
    }
    let added = d2::rpc::rpc_server::add_mesh(&mut state, raw2(24, vec![0, 1, 2], 2)).unwrap();
    assert_eq!(added.id, 5);
    let stored = state.get_mesh(5).unwrap();
    assert!(stored.check());
    assert_eq!(stored.vertex_slice(), &[7; 24]);
    assert_eq!(stored.index_slice(), &[0, 1, 2]);
    assert!(stored.is_triangle());

    let mut state = d3::State::new();
    let status = d3::rpc::rpc_server::add_mesh(&mut state, raw3(24, vec![0, 2], 1)).unwrap_err();
    assert_eq!(status.code, Code::InvalidArgument);
    assert!(state.mesh_state.meshes.is_empty());
    let added = d3::rpc::rpc_server::add_mesh(&mut state, raw3(24, vec![1, 0], 1)).unwrap();
    assert_eq!(added.id, 5);
    assert!(state.get_mesh(5).unwrap().check());
}

#[test]
fn handlers_store_the_mesh_of_the_shape() {
    let mut state = d2::State::new();
    let circle = d2rpc::CircleDescriptor {
        center: v2(0.0, 0.0),
        radius: 1.0f32.to_bits(),
        num_sides: 3,
        line_color: c2(),
        tri_color: c2(),
        cell_type: 2,
    };
    let rim = [at2(1.0, 0.0), at2(0.0, 1.0), at2(-1.0, 0.0)];
    let request = d2rpc::AddCircleRequest { client_name: name(), circle_descriptor: Some(circle) };
    let added = d2::rpc::rpc_server::add_circle(&mut state, request, &rim).unwrap();
    assert_eq!(added.id, 5);
    let stored = state.get_mesh(5).unwrap();
    let expected = d2::Mesh::create_circle(&d2::CircleDescriptor::from(circle), &rim);
    assert_eq!(stored.vertex_slice(), expected.vertex_slice());
    assert_eq!(stored.index_slice(), &[0, 1, 2, 3, 4, 5, 6, 7, 8]);
    assert!(stored.is_triangle());
    assert_eq!(stored.uid, 5);

    let mut state = d3::State::new();
    let sphere = d3rpc::SphereDescriptor {
        origin: v3(0.0, 0.0, 0.0),
        axis: v3(0.0, 0.0, 1.0),
        radius: 1.0f32.to_bits(),
        n_lat: 2,
        n_long: 3,
        line_color: c3(),
        tri_color: c3(),
        cell_type: 2,
    };
    let grid: Vec<(Vec3, Vec3)> =
        (0..6).map(|k| (at3(k as f32, 0.0, 0.0), at3(0.0, k as f32, 0.0))).collect();
    let request = d3rpc::AddSphereRequest { client_name: name(), sphere_descriptor: Some(sphere) };
    let added = d3::rpc::rpc_server::add_sphere(&mut state, request, &grid).unwrap();
    assert_eq!(added.id, 5);
    let stored = state.get_mesh(5).unwrap();
    assert_eq!(stored.index_slice(), &[0, 3, 4, 0, 4, 1, 1, 4, 5, 1, 5, 2]);
    assert_eq!(stored.num_vertices(), 6);

    let ends = [
        at3(-1.0, 0.0, 0.0),
        at3(1.0, 0.0, 0.0),
        at3(0.0, -1.0, 0.0),
        at3(0.0, 1.0, 0.0),
        at3(0.0, 0.0, -1.0),
        at3(0.0, 0.0, 1.0),
    ];
    let axes = d3rpc::AxesDescriptor {
        origin: v3(0.0, 0.0, 0.0),
        x_axis: v3(1.0, 0.0, 0.0),
        y_axis: v3(0.0, 1.0, 0.0),
        z_axis: v3(0.0, 0.0, 1.0),
        neg_len: 1.0f32.to_bits(),
        pos_len: 1.0f32.to_bits(),
    };
    let request = d3rpc::AddAxesRequest { client_name: name(), axes_descriptor: Some(axes) };
    let added = d3::rpc::rpc_server::add_axes(&mut state, request, &ends).unwrap();
    assert_eq!(added.id, 6);
    assert_eq!(state.get_mesh(6).unwrap().vertex_slice(), d3::Mesh::create_axes(&ends).vertex_slice());
}

#[test]
fn validation_is_a_step_of_its_own() {
    let good = d2rpc::AddSquareRequest { client_name: name(), square_descriptor: Some(square2()) };
    assert!(validate(&good).is_ok());
    let bad = d2rpc::AddSquareRequest { client_name: name(), square_descriptor: None };
    let status = validate(&bad).unwrap_err();
    assert_eq!(status.code, Code::InvalidArgument);
    assert_eq!(status.message, "Invalid square descriptor");
    let status = validate(&raw2(16, vec![0, 2], 1)).unwrap_err();
    assert_eq!(status.message, "Invalid mesh descriptor");
    assert!(validate(&raw3(24, vec![0, 1], 1)).is_ok());
    let status =
        validate(&d3rpc::AddPlaneRequest { client_name: name(), plane_descriptor: None }).unwrap_err();
    assert_eq!(status.message, "Invalid plane descriptor");
    let status =
        validate(&d3rpc::AddDiscRequest { client_name: name(), disc_descriptor: None }).unwrap_err();
    assert_eq!(status.message, "Invalid disc descriptor");
    assert_eq!(<d2rpc::AddAxesRequest as Checked>::refusal(), "Invalid axes descriptor");
    assert_eq!(<d3rpc::AddSphereRequest as Checked>::refusal(), "Invalid sphere descriptor");
}

#[test]
fn a_service_that_shuts_down_takes_no_request() {
    let mut l = Lifecycle::new();
    assert!(l.check());
    assert_eq!(gate(&l).unwrap_err().code, Code::Unavailable);
    l.start(Some(50051));
    assert!(gate(&l).is_ok());
    assert_eq!(l.trigger(ShutdownTrigger::KillRequest), SendOutcome::Sent);
    assert!(gate(&l).is_ok());
    assert!(l.server_poll());
    let status = gate(&l).unwrap_err();
    assert_eq!(status.code, Code::Unavailable);
    assert_eq!(status.message, "The service is shutting down");
    assert!(l.loop_poll());
    assert!(gate(&l).is_err());
    assert!(l.check());
    let broken = Lifecycle { tokens: 9, ..l };
    assert!(!broken.check());
    assert_eq!(Status::unavailable("x").code, Code::Unavailable);
}
