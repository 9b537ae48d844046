use topohedral_viewer::common::{CellType, Color, Vec2, Vec3};
use topohedral_viewer::d2;
use topohedral_viewer::d3;
use topohedral_viewer::d3::shapes::{cylinder_cells, disc_cells, edges, faces, sphere_cells};
use topohedral_viewer::scene::VertexViewCore;

fn at2(x: f32, y: f32) -> Vec2 {
    Vec2::new(x.to_bits(), y.to_bits())
}

fn at3(x: f32, y: f32, z: f32) -> Vec3 {
    Vec3::new(x.to_bits(), y.to_bits(), z.to_bits())
}

fn floats(words: &[u32]) -> Vec<f32> {
    words.iter().map(|w| f32::from_bits(*w)).collect()
}

fn positions2(mesh: &d2::Mesh) -> Vec<(f32, f32)> {
    mesh.vertex_slice().chunks(8).map(|v| (f32::from_bits(v[0]), f32::from_bits(v[1]))).collect()
}

fn positions3(mesh: &d3::Mesh) -> Vec<(f32, f32, f32)> {
    mesh.vertex_slice()
        .chunks(12)
        .map(|v| (f32::from_bits(v[0]), f32::from_bits(v[1]), f32::from_bits(v[2])))
        .collect()
}

fn counting(n: u32) -> Vec<u32> {
    (0..n).collect()
}

#[test]
fn planar_axes() {
    let mesh =
        d2::Mesh::create_axes(&[at2(-0.5, 0.0), at2(0.5, 0.0), at2(0.0, -0.5), at2(0.0, 0.5)]);
    assert!(mesh.is_line());
    assert_eq!(mesh.index_slice(), &counting(4)[..]);
    assert_eq!(positions2(&mesh), vec![(-0.5, 0.0), (0.5, 0.0), (0.0, -0.5), (0.0, 0.5)]);
    assert_eq!(floats(&mesh.vertex_slice()[2..8]), vec![1.0, 0.0, 0.0, 0.5, 0.5, 0.5]);
    assert_eq!(floats(&mesh.vertex_slice()[26..32]), vec![0.0, 1.0, 0.0, 0.5, 0.5, 0.5]);
    assert!(mesh.check());
}

fn square(cell_type: CellType) -> d2::SquareDescriptor {
    d2::SquareDescriptor {
        origin: at2(0.0, 0.0),
        x_axis: at2(1.0, 0.0),
        y_axis: at2(0.0, 1.0),
        lenx: 10.0f32.to_bits(),
        leny: 1.0f32.to_bits(),
        line_color: Color::Red,
        tri_color: Color::Green,
        cell_type,
    }
}

#[test]
fn planar_square() {
    let corners = [at2(0.0, 0.0), at2(10.0, 0.0), at2(10.0, 1.0), at2(0.0, 1.0)];
    let tri = d2::Mesh::create_square(&square(CellType::Triangle), &corners);
    assert!(tri.is_triangle());
    assert_eq!(tri.index_slice(), &counting(6)[..]);
    assert_eq!(
        positions2(&tri),
        vec![(0.0, 0.0), (10.0, 0.0), (10.0, 1.0), (0.0, 0.0), (10.0, 1.0), (0.0, 1.0)]
    );
    assert_eq!(floats(&tri.vertex_slice()[2..8]), vec![1.0, 0.0, 0.0, 0.0, 1.0, 0.0]);
    assert!(tri.check());
    let line = d2::Mesh::create_square(&square(CellType::Line), &corners);
    assert!(line.is_line());
    assert_eq!(line.index_slice(), &counting(8)[..]);
    assert_eq!(
        positions2(&line),
        vec![
            (0.0, 0.0),
            (10.0, 0.0),
            (10.0, 0.0),
            (10.0, 1.0),
            (10.0, 1.0),
            (0.0, 1.0),
            (0.0, 1.0),
            (0.0, 0.0)
        ]
    );
    assert!(line.check());
}

#[test]
fn planar_circle() {
    let rim = [at2(1.0, 0.0), at2(0.0, 1.0), at2(-1.0, 0.0)];
    let mut d = d2::CircleDescriptor {
        center: at2(0.0, 0.0),
        radius: 1.0f32.to_bits(),
        num_sides: 3,
        line_color: Color::Blue,
        tri_color: Color::White,
        cell_type: CellType::Line,
    };
    let line = d2::Mesh::create_circle(&d, &rim);
    assert_eq!(line.index_slice(), &counting(6)[..]);
    assert_eq!(
        positions2(&line),
        vec![(1.0, 0.0), (0.0, 1.0), (0.0, 1.0), (-1.0, 0.0), (-1.0, 0.0), (1.0, 0.0)]
    );
    assert!(line.check());
    d.cell_type = CellType::Triangle;
    let tri = d2::Mesh::create_circle(&d, &rim);
    assert_eq!(tri.index_slice(), &counting(9)[..]);
    assert_eq!(
        positions2(&tri),
        vec![
            (0.0, 0.0),
            (1.0, 0.0),
            (0.0, 1.0),
            (0.0, 0.0),
            (0.0, 1.0),
            (-1.0, 0.0),
            (0.0, 0.0),
            (-1.0, 0.0),
            (1.0, 0.0)
        ]
    );
    assert!(tri.check());
}

#[test]
fn spatial_triangle_and_plane() {
    let mut t = d3::TriangleDescriptor {
        v1: at3(0.0, 0.0, 0.0),
        v2: at3(1.0, 0.0, 0.0),
        v3: at3(0.0, 1.0, 0.0),
        line_color: Color::White,
        tri_color: Color::Green,
        cell_type: CellType::Triangle,
    };
    let up = at3(0.0, 0.0, 1.0);
    let tri = d3::Mesh::create_triangle(&t, &up);
    assert_eq!(tri.index_slice(), &[0, 1, 2]);
    assert_eq!(positions3(&tri), vec![(0.0, 0.0, 0.0), (1.0, 0.0, 0.0), (0.0, 1.0, 0.0)]);
    assert_eq!(floats(&tri.vertex_slice()[3..6]), vec![0.0, 0.0, 1.0]);
    assert!(tri.check());
    t.cell_type = CellType::Line;
    let lines = d3::Mesh::create_triangle(&t, &up);
    assert_eq!(lines.index_slice(), &counting(6)[..]);
    assert_eq!(floats(&lines.vertex_slice()[3..6]), vec![0.0, 0.0, 0.0]);
    assert_eq!(positions3(&lines)[5], (0.0, 0.0, 0.0));
    assert!(lines.check());

    let mut p = d3::PlaneDescriptor {
        origin: at3(0.0, 0.0, 0.0),
        x_axis: at3(1.0, 0.0, 0.0),
        y_axis: at3(0.0, 1.0, 0.0),
        x_min: 0.0f32.to_bits(),
        x_max: 1.0f32.to_bits(),
        y_min: 0.0f32.to_bits(),
        y_max: 1.0f32.to_bits(),
        line_color: Color::White,
        tri_color: Color::Green,
        cell_type: CellType::Triangle,
    };
    let corners = [at3(0.0, 0.0, 0.0), at3(1.0, 0.0, 0.0), at3(1.0, 1.0, 0.0), at3(0.0, 1.0, 0.0)];
    let normals = [at3(0.0, 0.0, 1.0), at3(0.0, 0.0, 2.0)];
    let plane = d3::Mesh::create_plane(&p, &corners, &normals);
    assert_eq!(plane.index_slice(), &counting(6)[..]);
    assert_eq!(positions3(&plane)[3], (0.0, 0.0, 0.0));
    assert_eq!(positions3(&plane)[5], (0.0, 1.0, 0.0));
    assert_eq!(floats(&plane.vertex_slice()[12 * 2 + 3..12 * 2 + 6]), vec![0.0, 0.0, 1.0]);
    assert_eq!(floats(&plane.vertex_slice()[12 * 3 + 3..12 * 3 + 6]), vec![0.0, 0.0, 2.0]);
    assert!(plane.check());
    p.cell_type = CellType::Line;
    let frame = d3::Mesh::create_plane(&p, &corners, &normals);
    assert_eq!(frame.index_slice(), &counting(8)[..]);
    assert_eq!(positions3(&frame)[7], (0.0, 0.0, 0.0));
    assert!(frame.check());
}

#[test]
fn spatial_cuboid_and_axes() {
    let mut d = d3::CuboidDescriptor {
        origin: at3(0.1, 0.1, 0.0),
        x_axis: at3(1.0, 0.0, 0.0),
        y_axis: at3(0.0, 1.0, 0.0),
        z_axis: at3(0.0, 0.0, 1.0),
        lenx: 1.0f32.to_bits(),
        leny: 1.0f32.to_bits(),
        lenz: 1.0f32.to_bits(),
        line_color: Color::White,
        tri_color: Color::Green,
        cell_type: CellType::Triangle,
    };
    let corners: Vec<Vec3> = (0..8).map(|k| at3(k as f32, 0.0, 0.0)).collect();
    let corners: [Vec3; 8] = corners.try_into().unwrap();
    let normals: Vec<Vec3> = (0..12).map(|k| at3(0.0, k as f32, 0.0)).collect();
    let normals: [Vec3; 12] = normals.try_into().unwrap();
    let solid = d3::Mesh::create_cuboid(&d, &corners, &normals);
    assert_eq!(solid.index_slice(), &counting(36)[..]);
    let table = faces();
    assert_eq!(&table[..6], &[0, 7, 3, 0, 4, 7]);
    assert_eq!(&table[30..], &[4, 5, 6, 4, 6, 7]);
    for (k, v) in solid.vertex_slice().chunks(12).enumerate() {
        assert_eq!(f32::from_bits(v[0]), table[k] as f32);
        assert_eq!(f32::from_bits(v[4]), (k / 3) as f32);
    }
    assert!(solid.check());
    d.cell_type = CellType::Line;
    let wire = d3::Mesh::create_cuboid(&d, &corners, &normals);
    assert_eq!(wire.index_slice(), &counting(24)[..]);
    let table = edges();
    assert_eq!(&table[..8], &[0, 1, 1, 2, 2, 3, 3, 0]);
    for (k, v) in wire.vertex_slice().chunks(12).enumerate() {
        assert_eq!(f32::from_bits(v[0]), table[k] as f32);
        assert_eq!(f32::from_bits(v[4]), 0.0);
    }
    assert!(wire.check());

    let ends: Vec<Vec3> = (0..6).map(|k| at3(k as f32, 0.0, 0.0)).collect();
    let ends: [Vec3; 6] = ends.try_into().unwrap();
    let axes = d3::Mesh::create_axes(&ends);
    assert!(axes.is_line());
    assert_eq!(axes.index_slice(), &counting(6)[..]);
    assert_eq!(floats(&axes.vertex_slice()[6..12]), vec![0.0, 1.0, 0.0, 0.0, 1.0, 0.0]);
    assert_eq!(floats(&axes.vertex_slice()[24 + 6..24 + 12]), vec![1.0, 0.0, 0.0, 1.0, 0.0, 0.0]);
    assert_eq!(floats(&axes.vertex_slice()[48 + 6..48 + 12]), vec![0.0, 0.0, 1.0, 0.0, 0.0, 1.0]);
    assert!(axes.check());
}

#[test]
fn disc_cells_and_mesh() {
    assert_eq!(disc_cells(3, CellType::Triangle), vec![0, 0, 1, 0, 1, 2, 0, 2, 3]);
    assert_eq!(disc_cells(2, CellType::Line), vec![0, 0, 0, 1, 0, 1, 1, 2]);
    assert!(disc_cells(0, CellType::Line).is_empty());
    let d = d3::DiscDescriptor {
        origin: at3(0.0, 0.0, 0.0),
        axis: at3(0.0, 0.0, 1.0),
        radius: 1.0f32.to_bits(),
        num_sides: 3,
        line_color: Color::Red,
        tri_color: Color::Blue,
        cell_type: CellType::Triangle,
    };
    let rim = [at3(1.0, 0.0, 0.0), at3(0.0, 1.0, 0.0), at3(-1.0, 0.0, 0.0)];
    let mesh = d3::Mesh::create_disc(&d, &rim);
    assert_eq!(mesh.num_vertices(), 4);
    assert_eq!(
        positions3(&mesh),
        vec![(0.0, 0.0, 0.0), (1.0, 0.0, 0.0), (0.0, 1.0, 0.0), (-1.0, 0.0, 0.0)]
    );
    assert_eq!(floats(&mesh.vertex_slice()[12 + 3..12 + 6]), vec![0.0, 0.0, 1.0]);
    assert_eq!(mesh.index_slice(), &[0, 0, 1, 0, 1, 2, 0, 2, 3]);
    assert!(mesh.check());
}

#[test]
fn cylinder_cells_and_mesh() {
    assert_eq!(
        cylinder_cells(3, CellType::Triangle),
        vec![4, 3, 0, 1, 4, 0, 5, 4, 1, 2, 5, 1, 3, 5, 2, 0, 3, 2]
    );
    assert_eq!(cylinder_cells(3, CellType::Line), vec![0, 1, 3, 4, 0, 3, 1, 2, 4, 5, 1, 4]);
    assert_eq!(cylinder_cells(1, CellType::Triangle), vec![1, 1, 0, 0, 1, 0]);
    assert_eq!(cylinder_cells(2, CellType::Triangle), vec![3, 2, 0, 1, 3, 0, 2, 3, 1, 0, 2, 1]);
    for n in 1..20usize {
        for cell_type in [CellType::Line, CellType::Triangle] {
            let cells = cylinder_cells(n, cell_type);
            assert!(cells.iter().all(|i| (*i as usize) < 2 * n));
            let expected = if cell_type == CellType::Line { 6 * (n - 1) } else { 6 * n };
            assert_eq!(cells.len(), expected);
        }
    }
    assert!(cylinder_cells(1, CellType::Line).is_empty());

    let mut cyl = d3::CylinderDescriptor {
        origin: at3(0.0, 0.0, 0.0),
        axis: at3(0.0, 0.0, 1.0),
        radius: 1.0f32.to_bits(),
        height: 2.0f32.to_bits(),
        num_sides: 3,
        line_color: Color::Red,
        tri_color: Color::Blue,
        open: true,
        cell_type: CellType::Triangle,
    };
    let side: Vec<(Vec3, Vec3)> =
        (0..6).map(|k| (at3(k as f32, 0.0, 0.0), at3(0.0, k as f32, 0.0))).collect();
    let open = d3::Mesh::create_cylinder(&cyl, &side, None);
    assert_eq!(open.num_vertices(), 6);
    assert_eq!(open.index_slice(), &cylinder_cells(3, CellType::Triangle)[..]);
    assert_eq!(floats(&open.vertex_slice()[12 * 4..12 * 4 + 6]), vec![4.0, 0.0, 0.0, 0.0, 4.0, 0.0]);
    assert!(open.check());
    let single = d3::CylinderDescriptor { num_sides: 1, ..cyl };
    let one_sided = d3::Mesh::create_cylinder(&single, &side[..2], None);
    assert!(one_sided.check());
    assert_eq!((one_sided.num_vertices(), one_sided.num_indices()), (2, 6));
    let lines = d3::CylinderDescriptor { num_sides: 1, cell_type: CellType::Line, ..cyl };
    let bare = d3::Mesh::create_cylinder(&lines, &side[..2], None);
    assert!(bare.check());
    assert_eq!((bare.num_vertices(), bare.num_indices()), (2, 0));
    assert!(d3::Mesh::create_cylinder_side(&cyl, &side).check());

    cyl.open = false;
    let disc = d3::DiscDescriptor {
        origin: cyl.origin,
        axis: cyl.axis,
        radius: cyl.radius,
        num_sides: 3,
        line_color: cyl.line_color,
        tri_color: cyl.tri_color,
        cell_type: cyl.cell_type,
    };
    let rim = [at3(1.0, 0.0, 0.0), at3(0.0, 1.0, 0.0), at3(-1.0, 0.0, 0.0)];
    let lower = d3::Mesh::create_disc(&disc, &rim);
    let upper = d3::Mesh::create_disc(&disc, &rim);
    let closed = d3::Mesh::create_cylinder(&cyl, &side, Some((lower, upper)));
    assert_eq!(closed.num_vertices(), 6 + 4 + 4);
    let mut expected = cylinder_cells(3, CellType::Triangle);
    expected.extend(disc_cells(3, CellType::Triangle).iter().map(|i| i + 6));
    expected.extend(disc_cells(3, CellType::Triangle).iter().map(|i| i + 10));
    assert_eq!(closed.index_slice(), &expected[..]);
    assert_eq!(positions3(&closed)[7], (1.0, 0.0, 0.0));
    assert!(closed.check());
}

#[test]
fn sphere_cells_and_mesh() {
    assert_eq!(
        sphere_cells(2, 3, CellType::Triangle),
        vec![0, 3, 4, 0, 4, 1, 1, 4, 5, 1, 5, 2]
    );
    assert_eq!(
        sphere_cells(3, 3, CellType::Line),
        vec![3, 4, 4, 5, 0, 3, 3, 6, 1, 4, 4, 7, 2, 5, 5, 8]
    );
    assert_eq!(sphere_cells(2, 2, CellType::Line), vec![0, 2, 1, 3]);
    assert!(sphere_cells(1, 1, CellType::Triangle).is_empty());
    assert!(sphere_cells(1, 4, CellType::Line).is_empty());
    assert!(sphere_cells(4, 1, CellType::Triangle).is_empty());
    assert_eq!(sphere_cells(3, 1, CellType::Line), vec![0, 1, 1, 2]);
    for (n_lat, n_long) in [(2, 2), (3, 5), (6, 4)] {
        for ct in [CellType::Line, CellType::Triangle] {
            assert!(sphere_cells(n_lat, n_long, ct).iter().all(|i| (*i as usize) < n_lat * n_long));
        }
    }
    let s = d3::SphereDescriptor {
        origin: at3(0.0, 0.0, 0.0),
        axis: at3(0.0, 0.0, 1.0),
        radius: 1.0f32.to_bits(),
        n_lat: 2,
        n_long: 3,
        line_color: Color::Red,
        tri_color: Color::Blue,
        cell_type: CellType::Triangle,
    };
    let grid: Vec<(Vec3, Vec3)> =
        (0..6).map(|k| (at3(k as f32, 0.0, 0.0), at3(0.0, 0.0, k as f32))).collect();
    let mesh = d3::Mesh::create_sphere(&s, &grid);
    assert_eq!(mesh.num_vertices(), 6);
    assert_eq!(mesh.index_slice(), &sphere_cells(2, 3, CellType::Triangle)[..]);
    assert_eq!(floats(&mesh.vertex_slice()[12 * 5..12 * 5 + 6]), vec![5.0, 0.0, 0.0, 0.0, 0.0, 5.0]);
    assert!(mesh.check());
}

#[test]
fn meshes_from_parts() {
    let v = |x: f32| {
        d2::vertex::Vertex::new(&d2::vertex::VertexDescriptor {
            position: at2(x, 0.0),
            line_color: Color::Red,
            triangle_color: Color::Red,
        })
    };
    let vs = [v(0.0), v(1.0), v(2.0)];
    let shared = d2::Mesh::from_parts(CellType::Line, &vs, vec![0, 1, 1, 2]);
    assert_eq!(shared.num_vertices(), 3);
    assert_eq!(shared.index_slice(), &[0, 1, 1, 2]);
    assert!(shared.check());
    assert!(!d2::Mesh::from_parts(CellType::Line, &vs, vec![0, 3]).check());
    let cells = d2::Mesh::from_cells(CellType::Triangle, &vs);
    assert_eq!(cells.index_slice(), &[0, 1, 2]);
    assert_eq!(positions2(&cells), vec![(0.0, 0.0), (1.0, 0.0), (2.0, 0.0)]);
    assert!(cells.check());
}

fn add(a: [f32; 3], b: [f32; 3]) -> [f32; 3] {
    [a[0] + b[0], a[1] + b[1], a[2] + b[2]]
}

fn sub(a: [f32; 3], b: [f32; 3]) -> [f32; 3] {
    [a[0] - b[0], a[1] - b[1], a[2] - b[2]]
}

fn scale(a: [f32; 3], s: f32) -> [f32; 3] {
    [a[0] * s, a[1] * s, a[2] * s]
}

fn unit_normal(a: [f32; 3], b: [f32; 3], c: [f32; 3]) -> Vec3 {
    let d1 = sub(b, a);
    let d2 = sub(c, a);
    let n = [
        d1[1] * d2[2] - d1[2] * d2[1],
        d1[2] * d2[0] - d1[0] * d2[2],
        d1[0] * d2[1] - d1[1] * d2[0],
    ];
    let len = (n[0] * n[0] + n[1] * n[1] + n[2] * n[2]).sqrt();
    at3(n[0] / len, n[1] / len, n[2] / len)
}

fn cuboid() -> d3::Mesh {
    let d = d3::CuboidDescriptor {
        origin: at3(0.1, 0.1, 0.0),
        x_axis: at3(1.0, 0.0, 0.0),
        y_axis: at3(0.0, 1.0, 0.0),
        z_axis: at3(0.0, 0.0, 1.0),
        lenx: 1.0f32.to_bits(),
        leny: 1.0f32.to_bits(),
        lenz: 1.0f32.to_bits(),
        line_color: Color::White,
        tri_color: Color::Green,
        cell_type: CellType::Triangle,
    };
    let o = [0.1, 0.1, 0.0];
    let dx = scale([1.0, 0.0, 0.0], 1.0);
    let dy = scale([0.0, 1.0, 0.0], 1.0);
    let dz = scale([0.0, 0.0, 1.0], 1.0);
    let v = [
        o,
        add(o, dx),
        add(add(o, dx), dy),
        add(o, dy),
        add(o, dz),
        add(add(o, dx), dz),
        add(add(add(o, dx), dy), dz),
        add(add(o, dy), dz),
    ];
    let table = faces();
    let normals: Vec<Vec3> = (0..12)
        .map(|t| unit_normal(v[table[3 * t]], v[table[3 * t + 1]], v[table[3 * t + 2]]))
        .collect();
    let normals: [Vec3; 12] = normals.try_into().unwrap();
    let corners = v.map(|p| at3(p[0], p[1], p[2]));
    d3::Mesh::create_cuboid(&d, &corners, &normals)
}

#[test]
fn create_axes_test() {
    let (origin, x_axis, y_axis) = ((0.0f32, 0.0f32), (1.0f32, 0.0f32), (0.0f32, 1.0f32));
    let (neg_len, pos_len) = (10.0f32, 1.0f32);
    let ends = [
        at2(origin.0 - x_axis.0 * neg_len, origin.1 - x_axis.1 * neg_len),
        at2(origin.0 + x_axis.0 * pos_len, origin.1 + x_axis.1 * pos_len),
        at2(origin.0 - y_axis.0 * neg_len, origin.1 - y_axis.1 * neg_len),
        at2(origin.0 + y_axis.0 * pos_len, origin.1 + y_axis.1 * pos_len),
    ];
    let mesh = d2::Mesh::create_axes(&ends);
    assert_eq!(positions2(&mesh), vec![(-10.0, 0.0), (1.0, 0.0), (0.0, -10.0), (0.0, 1.0)]);
    assert!(mesh.check());
}

#[test]
fn create_square_test() {
    let corners = [at2(0.0, 0.0), at2(10.0, 0.0), at2(10.0, 1.0), at2(0.0, 1.0)];
    let mesh = d2::Mesh::create_square(&square(CellType::Triangle), &corners);
    assert_eq!(mesh.num_triangles(), 2);
    assert!(mesh.check());
}

#[test]
fn create_cuboid_test() {
    let cube = cuboid();
    assert_eq!(cube.num_triangles(), 12);
    assert_eq!(cube.num_vertices(), 36);
    assert_eq!(positions3(&cube)[0], (0.1, 0.1, 0.0));
    assert_eq!(positions3(&cube)[1], (0.1, 1.1, 1.0));
    assert_eq!(floats(&cube.vertex_slice()[3..6]), vec![-1.0, 0.0, 0.0]);
    assert!(cube.check());
}

#[test]
fn from_axes_test() {
    let origin = [0.0f32, 0.0, 0.0];
    let (neg_len, pos_len) = (1.0f32, 2.0f32);
    let axes = [[1.0f32, 0.0, 0.0], [0.0, 1.0, 0.0], [0.0, 0.0, 1.0]];
    let mut ends = [at3(0.0, 0.0, 0.0); 6];
    for (k, axis) in axes.iter().enumerate() {
        let p = sub(origin, scale(*axis, neg_len));
        let q = add(origin, scale(*axis, pos_len));
        ends[2 * k] = at3(p[0], p[1], p[2]);
        ends[2 * k + 1] = at3(q[0], q[1], q[2]);
    }
    let mut axes_mesh = d3::Mesh::create_axes(&ends);

    axes_mesh.uid = 1;
    assert_eq!(axes_mesh.uid, 1);
    assert_eq!(positions3(&axes_mesh)[0], (-1.0, 0.0, 0.0));
    assert_eq!(positions3(&axes_mesh)[5], (0.0, 0.0, 2.0));
}

#[test]
fn vertex_view_test() {
    let mut cube = cuboid();
    assert_eq!(cube.vertex_slice().len(), 36 * 12);
    assert_eq!(floats(&cube.vertex_slice()[6..12]), vec![1.0, 1.0, 1.0, 0.0, 1.0, 0.0]);

    let mut vertex_view = d3::vertex::VertexView::new(&mut cube.vertices[0..12]);
    assert_eq!(vertex_view.get_position(), at3(0.1, 0.1, 0.0));
    assert_eq!(vertex_view.get_normal(), at3(-1.0, 0.0, 0.0));
    assert_eq!(vertex_view.get_line_color(), Color::White.to_rgb());
    assert_eq!(vertex_view.get_triangle_color(), Color::Green.to_rgb());
    vertex_view.set_position(&at3(7.0, 8.0, 9.0));
    vertex_view.set_normal(&at3(0.0, 0.0, 1.0));
    vertex_view.set_line_color(&Color::Red.to_rgb());
    vertex_view.set_triangle_color(&Color::Blue.to_rgb());
    assert_eq!(
        floats(&cube.vertex_slice()[0..12]),
        vec![7.0, 8.0, 9.0, 0.0, 0.0, 1.0, 1.0, 0.0, 0.0, 0.0, 0.0, 1.0]
    );
    assert_eq!(positions3(&cube)[1], (0.1, 1.1, 1.0));
}

#[test]
fn planar_vertex_view() {
    let mut mesh = d2::Mesh::create_line(&d2::LineDescriptor {
        v1: at2(1.0, 2.0),
        v2: at2(3.0, 4.0),
        color: Color::Orange,
    });
    let mut view = d2::vertex::VertexView::new(&mut mesh.vertices[8..16]);
    assert_eq!(view.get_position(), at2(3.0, 4.0));
    assert_eq!(view.get_line_color(), Color::Orange.to_rgb());
    assert_eq!(view.get_triangle_color(), Color::Gray.to_rgb());
    view.set_position(&at2(-1.0, -2.0));
    view.set_line_color(&Color::Cyan.to_rgb());
    view.set_triangle_color(&Color::Black.to_rgb());
    assert_eq!(
        floats(mesh.vertex_slice()),
        vec![1.0, 2.0, 1.0, 0.5, 0.0, 0.5, 0.5, 0.5, -1.0, -2.0, 0.0, 1.0, 1.0, 0.0, 0.0, 0.0]
    );
}
