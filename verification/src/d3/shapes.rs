//! The meshes of the shapes of the spatial viewer.
//!
//! Where the points of a shape lie, and where its normals point, is for the caller to
//! work out. Given the points, these functions decide which vertices the mesh has and
//! how its indices connect them.
use crate::common::{CellType, Color, Vec3};
use crate::d3::mesh::{
    corner, from_corners, from_shared, made_of, no_normal, CuboidDescriptor, CylinderDescriptor,
    DiscDescriptor, Mesh, PlaneDescriptor, SphereDescriptor, TriangleDescriptor,
};
use crate::d3::vertex::VertexDescriptor;
use crate::scene::mesh::{counting, extend_cell, lemma_cell_corner};
use vstd::prelude::*;

verus! {

/// The corners of the cells of a triangle: the triangle itself, with its normal, or its
/// three sides, which carry no normal.
pub open spec fn triangle_corners(d: TriangleDescriptor, normal: Vec3) -> Seq<VertexDescriptor> {
    if d.cell_type == CellType::Line {
        Seq::new(
            6,
            |k: int|
                corner(
                    seq![d.v1, d.v2, d.v2, d.v3, d.v3, d.v1][k],
                    no_normal(),
                    d.line_color,
                    d.tri_color,
                ),
        )
    } else {
        Seq::new(
            3,
            |k: int| corner(seq![d.v1, d.v2, d.v3][k], normal, d.line_color, d.tri_color),
        )
    }
}

/// The corners of the cells of a plane with the corners `c`, given counter-clockwise:
/// the two triangles on either side of the diagonal from the first corner, each with its
/// normal, or the four sides, which carry no normal.
pub open spec fn plane_corners(d: PlaneDescriptor, c: Seq<Vec3>, normals: Seq<Vec3>) -> Seq<
    VertexDescriptor,
> {
    if d.cell_type == CellType::Line {
        Seq::new(
            8,
            |k: int|
                corner(
                    seq![c[0], c[1], c[1], c[2], c[2], c[3], c[3], c[0]][k],
                    no_normal(),
                    d.line_color,
                    d.tri_color,
                ),
        )
    } else {
        Seq::new(
            6,
            |k: int|
                corner(
                    seq![c[0], c[1], c[2], c[0], c[2], c[3]][k],
                    normals[k / 3],
                    d.line_color,
                    d.tri_color,
                ),
        )
    }
}

/// Which corners of a cuboid its twelve triangles connect, two for each face. The
/// corners are numbered 0 to 3 counter-clockwise on the bottom and 4 to 7 above them.
pub open spec fn cuboid_faces() -> Seq<usize> {
    seq![
        0, 7, 3, 0, 4, 7, 1, 2, 6, 1, 6, 5, 0, 1, 5, 0, 5, 4, 2, 3, 7, 2, 7, 6, 0, 2, 1, 0, 3, 2,
        4, 5, 6, 4, 6, 7,
    ]
}

/// Which corners of a cuboid its twelve edges connect: four on the bottom, four
/// upright, four on the top.
pub open spec fn cuboid_edges() -> Seq<usize> {
    seq![0, 1, 1, 2, 2, 3, 3, 0, 0, 4, 1, 5, 2, 6, 3, 7, 4, 5, 5, 6, 6, 7, 7, 4]
}

/// The corners of the cells of a cuboid with the corners `c`: its twelve triangles, each
/// with its normal, or its twelve edges, which carry no normal.
pub open spec fn cuboid_corners(d: CuboidDescriptor, c: Seq<Vec3>, normals: Seq<Vec3>) -> Seq<
    VertexDescriptor,
> {
    if d.cell_type == CellType::Line {
        Seq::new(
            24,
            |k: int| corner(c[cuboid_edges()[k] as int], no_normal(), d.line_color, d.tri_color),
        )
    } else {
        Seq::new(
            36,
            |k: int| corner(c[cuboid_faces()[k] as int], normals[k / 3], d.line_color, d.tri_color),
        )
    }
}

/// The corners of the three lines of a set of axes: the first axis in green from
/// `ends[0]` to `ends[1]`, the second in red, the third in blue.
pub open spec fn axes_corners(ends: Seq<Vec3>) -> Seq<VertexDescriptor> {
    Seq::new(
        6,
        |k: int|
            corner(
                ends[k],
                no_normal(),
                seq![Color::Green, Color::Red, Color::Blue][k / 2],
                seq![Color::Green, Color::Red, Color::Blue][k / 2],
            ),
    )
}

/// The vertices of a disc: its centre, then the points of its rim, all with the axis of
/// the disc as their normal.
pub open spec fn disc_vertices(d: DiscDescriptor, rim: Seq<Vec3>) -> Seq<VertexDescriptor> {
    Seq::new(
        rim.len() + 1,
        |k: int|
            corner(
                if k == 0 {
                    d.origin
                } else {
                    rim[k - 1]
                },
                d.axis,
                d.line_color,
                d.tri_color,
            ),
    )
}

/// The indices of a disc of `n` sides: for side `i`, the triangle between the centre,
/// vertex `i` and vertex `i + 1`, or the spoke to vertex `i` and the line from there to
/// vertex `i + 1`.
pub open spec fn disc_indices(n: nat, cell_type: CellType) -> Seq<u32> {
    if cell_type == CellType::Line {
        Seq::new(
            4 * n,
            |k: int|
                {
                    let i = k / 4;
                    if k % 4 == 0 {
                        0u32
                    } else if k % 4 == 3 {
                        (i + 1) as u32
                    } else {
                        i as u32
                    }
                },
        )
    } else {
        Seq::new(
            3 * n,
            |k: int|
                {
                    let i = k / 3;
                    if k % 3 == 0 {
                        0u32
                    } else if k % 3 == 1 {
                        i as u32
                    } else {
                        (i + 1) as u32
                    }
                },
        )
    }
}

/// The vertices of the side of a cylinder: the points of the bottom circle, then those
/// of the top circle, each with the normal that goes with it.
pub open spec fn side_vertices(d: CylinderDescriptor, side: Seq<(Vec3, Vec3)>) -> Seq<
    VertexDescriptor,
> {
    Seq::new(side.len(), |k: int| corner(side[k].0, side[k].1, d.line_color, d.tri_color))
}

/// The indices of the side of a cylinder of `n` sides, whose bottom circle has the
/// vertices `0` to `n - 1` and whose top circle the vertices `n` to `2 n - 1`. As
/// triangles: two for each side, between vertex `i`, its neighbour and the two above
/// them; the neighbour of the last vertex is the first, so that the last side closes the
/// ring. As lines: for each side but the last, the line along the bottom, the line along
/// the top and the upright line.
pub open spec fn cylinder_indices(n: nat, cell_type: CellType) -> Seq<u32> {
    if cell_type == CellType::Line {
        Seq::new(
            (6 * (n - 1)) as nat,
            |k: int|
                {
                    let i = k / 6;
                    seq![i, i + 1, i + n, i + n + 1, i, i + n][k % 6] as u32
                },
        )
    } else {
        Seq::new(
            6 * n,
            |k: int|
                {
                    let i = k / 6;
                    let next = if i < n - 1 {
                        i + 1
                    } else {
                        0
                    };
                    seq![next + n, i + n, i, next, next + n, i][k % 6] as u32
                },
        )
    }
}

/// The first vertices of `mesh` are those that `descs` describe, in their order.
pub open spec fn starts_with(mesh: Mesh, descs: Seq<VertexDescriptor>) -> bool {
    &&& mesh.vertices@.len() >= descs.len() * 12
    &&& forall|i: int| 0 <= i < descs.len() ==> #[trigger] mesh.vertex_words(i) == descs[i].words()
}

/// The mesh `mesh` is the side of a cylinder of `n` sides followed by the caps `lower`
/// and `upper`: their vertices follow those of the side, and their indices, moved
/// behind the vertices that come before them, follow those of the side.
pub open spec fn capped(mesh: Mesh, n: nat, lower: Mesh, upper: Mesh) -> bool {
    let side = cylinder_indices(n, mesh.cell_type).len() as int;
    let words = 24 * (n as int);
    &&& mesh.vertices@.len() == words + lower.vertices@.len() + upper.vertices@.len()
    &&& mesh.vertices@.subrange(words, words + lower.vertices@.len()) == lower.vertices@
    &&& mesh.vertices@.subrange(
        words + lower.vertices@.len(),
        mesh.vertices@.len() as int,
    ) == upper.vertices@
    &&& mesh.indices@.len() == side + lower.indices@.len() + upper.indices@.len()
    &&& forall|i: int|
        0 <= i < lower.indices@.len() ==> #[trigger] mesh.indices@[side + i] == lower.indices@[i] + 2
            * n
    &&& forall|i: int|
        0 <= i < upper.indices@.len() ==> #[trigger] mesh.indices@[side + lower.indices@.len() + i]
            == upper.indices@[i] + 2 * n + lower.vertex_count()
}

/// The vertices of a sphere: its points row by row from pole to pole, each with its
/// normal.
pub open spec fn sphere_vertices(d: SphereDescriptor, grid: Seq<(Vec3, Vec3)>) -> Seq<
    VertexDescriptor,
> {
    Seq::new(grid.len(), |k: int| corner(grid[k].0, grid[k].1, d.line_color, d.tri_color))
}

/// The triangles of a sphere of `n_lat` rows of `n_long` points, where point `j` of row
/// `i` is vertex `i * n_long + j`: two for each field between neighbouring rows and
/// columns.
pub open spec fn sphere_triangles(n_lat: nat, n_long: nat) -> Seq<u32> {
    let m = n_long - 1;
    Seq::new(
        (6 * ((n_lat - 1) * m)) as nat,
        |k: int|
            {
                let c = k / 6;
                let i = c / m;
                let j = c % m;
                seq![
                    i * n_long + j,
                    (i + 1) * n_long + j,
                    (i + 1) * n_long + j + 1,
                    i * n_long + j,
                    (i + 1) * n_long + j + 1,
                    i * n_long + j + 1,
                ][k % 6] as u32
            },
    )
}

/// The lines of a sphere along its rows: in every row but the first and the last, from
/// each point to the next.
pub open spec fn sphere_row_lines(n_lat: nat, n_long: nat) -> Seq<u32> {
    let m = n_long - 1;
    Seq::new(
        (2 * ((n_lat - 2) * m)) as nat,
        |k: int|
            {
                let c = k / 2;
                let i = c / m + 1;
                let j = c % m;
                seq![i * n_long + j, i * n_long + j + 1][k % 2] as u32
            },
    )
}

/// The lines of a sphere along its columns: in every column, from each point to the one
/// in the next row.
pub open spec fn sphere_column_lines(n_lat: nat, n_long: nat) -> Seq<u32> {
    let m = n_lat - 1;
    Seq::new(
        (2 * (n_long * m)) as nat,
        |k: int|
            {
                let c = k / 2;
                let j = c / m;
                let i = c % m;
                seq![i * n_long + j, (i + 1) * n_long + j][k % 2] as u32
            },
    )
}

/// The indices of a sphere: its triangles, or its lines along the rows followed by its
/// lines along the columns.
pub open spec fn sphere_indices(n_lat: nat, n_long: nat, cell_type: CellType) -> Seq<u32> {
    if cell_type == CellType::Line {
        if n_lat >= 2 {
            sphere_row_lines(n_lat, n_long) + sphere_column_lines(n_lat, n_long)
        } else {
            sphere_column_lines(n_lat, n_long)
        }
    } else {
        sphere_triangles(n_lat, n_long)
    }
}

/// The indices of a disc of `n` sides.
pub fn disc_cells(n: usize, cell_type: CellType) -> (out: Vec<u32>)
    requires
        n <= u32::MAX,
    ensures
        out@ == disc_indices(n as nat, cell_type),
        forall|k: int| 0 <= k < out@.len() ==> out@[k] <= n,
{
    let ghost goal = disc_indices(n as nat, cell_type);
    let line = cell_type == CellType::Line;
    let mut out: Vec<u32> = Vec::new();
    let mut i: usize = 0;
    while i < n
        invariant
            i <= n <= u32::MAX,
            line == (cell_type == CellType::Line),
            goal == disc_indices(n as nat, cell_type),
            out@.len() == if line {
                4 * i
            } else {
                3 * i
            },
            forall|k: int| 0 <= k < out@.len() ==> out@[k] == goal[k],
        decreases n - i,
    {
        if line {
            let cell: [u32; 4] = [0, i as u32, i as u32, (i + 1) as u32];
            extend_cell(&mut out, cell.as_slice(), Ghost(goal), Ghost(i as int));
        } else {
            let cell: [u32; 3] = [0, i as u32, (i + 1) as u32];
            extend_cell(&mut out, cell.as_slice(), Ghost(goal), Ghost(i as int));
        }
        i += 1;
    }
    assert(out@ =~= goal);
    out
}

/// The indices of the side of a cylinder of `n` sides.
pub fn cylinder_cells(n: usize, cell_type: CellType) -> (out: Vec<u32>)
    requires
        1 <= n,
        2 * n <= u32::MAX,
    ensures
        out@ == cylinder_indices(n as nat, cell_type),
        forall|k: int| 0 <= k < out@.len() ==> out@[k] < 2 * n,
{
    let ghost goal = cylinder_indices(n as nat, cell_type);
    let line = cell_type == CellType::Line;
    let mut out: Vec<u32> = Vec::new();
    let mut i: usize = 0;
    while i < n - 1
        invariant
            1 <= n,
            i <= n - 1,
            2 * n <= u32::MAX,
            line == (cell_type == CellType::Line),
            goal == cylinder_indices(n as nat, cell_type),
            out@.len() == 6 * i,
            forall|k: int| 0 <= k < out@.len() ==> out@[k] == goal[k],
            forall|k: int| 0 <= k < out@.len() ==> out@[k] < 2 * n,
        decreases n - 1 - i,
    {
        let ghost before = out@;
        if line {
            let cell: [u32; 6] = [
                i as u32,
                (i + 1) as u32,
                (i + n) as u32,
                (i + n + 1) as u32,
                i as u32,
                (i + n) as u32,
            ];
            extend_cell(&mut out, cell.as_slice(), Ghost(goal), Ghost(i as int));
        } else {
            let cell: [u32; 6] = [
                (i + n + 1) as u32,
                (i + n) as u32,
                i as u32,
                (i + 1) as u32,
                (i + n + 1) as u32,
                i as u32,
            ];
            extend_cell(&mut out, cell.as_slice(), Ghost(goal), Ghost(i as int));
        }
        proof {
            assert forall|k: int| 0 <= k < out@.len() implies out@[k] < 2 * n by {
                if k >= before.len() {
                    assert(out@[k] == (before + out@.subrange(6 * i, 6 * i + 6))[k]);
                }
            }
        }
        i += 1;
    }
    if !line {
        let ghost before = out@;
        let i = n - 1;
        let cell: [u32; 6] = [n as u32, (i + n) as u32, i as u32, 0, n as u32, i as u32];
        extend_cell(&mut out, cell.as_slice(), Ghost(goal), Ghost(i as int));
        proof {
            assert forall|k: int| 0 <= k < out@.len() implies out@[k] < 2 * n by {
                if k >= before.len() {
                    assert(out@[k] == (before + out@.subrange(6 * i, 6 * i + 6))[k]);
                }
            }
        }
    }
    assert(out@ =~= goal);
    out
}

/// Field `j` of row `i`, in rows of `m` fields, is field number `i * m + j`; it lies
/// among the fields of `rows` rows, and its number gives row and column back.
proof fn lemma_field(i: int, j: int, m: int, rows: int)
    requires
        0 <= i < rows,
        0 <= j < m,
    ensures
        0 <= i * m + j < rows * m,
        (i * m + j) / m == i,
        (i * m + j) % m == j,
        (i + 1) * m == i * m + m,
{
    lemma_cell_corner(i, j, m);
    assert(i * m == m * i) by (nonlinear_arith);
    assert((i + 1) * m == i * m + m) by (nonlinear_arith);
    assert((i + 1) * m <= rows * m) by (nonlinear_arith)
        requires
            i + 1 <= rows,
            0 < m,
    ;
}

/// Vertex number of point `j` of row `i` of a sphere.
fn cart_map(i: usize, j: usize, n_long: usize, Ghost(n_lat): Ghost<int>) -> (index: u32)
    requires
        0 <= i < n_lat,
        0 <= j < n_long,
        n_lat * n_long <= u32::MAX,
    ensures
        index == i * n_long + j,
        index < n_lat * n_long,
{
    proof {
        lemma_field(i as int, j as int, n_long as int, n_lat);
    }
    (i * n_long + j) as u32
}

/// The triangles of a sphere of `n_lat` rows of `n_long` points.
fn sphere_triangle_cells(n_lat: usize, n_long: usize) -> (out: Vec<u32>)
    requires
        1 <= n_lat,
        1 <= n_long,
        n_lat * n_long <= u32::MAX,
    ensures
        out@ == sphere_triangles(n_lat as nat, n_long as nat),
        forall|k: int| 0 <= k < out@.len() ==> out@[k] < n_lat * n_long,
{
    let ghost goal = sphere_triangles(n_lat as nat, n_long as nat);
    let m = n_long - 1;
    let mut out: Vec<u32> = Vec::new();
    let mut i: usize = 0;
    assert(0 * m == 0) by (nonlinear_arith);
    while i < n_lat - 1
        invariant
            1 <= n_lat,
            1 <= n_long,
            m == n_long - 1,
            n_lat * n_long <= u32::MAX,
            i <= n_lat - 1,
            goal == sphere_triangles(n_lat as nat, n_long as nat),
            out@.len() == 6 * (i * m),
            forall|k: int| 0 <= k < out@.len() ==> out@[k] == goal[k],
            forall|k: int| 0 <= k < out@.len() ==> out@[k] < n_lat * n_long,
        decreases n_lat - 1 - i,
    {
        let mut j: usize = 0;
        while j < m
            invariant
                1 <= n_lat,
                1 <= n_long,
                m == n_long - 1,
                n_lat * n_long <= u32::MAX,
                i < n_lat - 1,
                j <= m,
                goal == sphere_triangles(n_lat as nat, n_long as nat),
                out@.len() == 6 * (i * m + j),
                forall|k: int| 0 <= k < out@.len() ==> out@[k] == goal[k],
                forall|k: int| 0 <= k < out@.len() ==> out@[k] < n_lat * n_long,
            decreases m - j,
        {
            let ghost before = out@;
            let ghost c = i * m + j;
            proof {
                lemma_field(i as int, j as int, m as int, n_lat - 1);
            }
            let i1 = cart_map(i, j, n_long, Ghost(n_lat as int));
            let i2 = cart_map(i + 1, j, n_long, Ghost(n_lat as int));
            let i3 = cart_map(i + 1, j + 1, n_long, Ghost(n_lat as int));
            let i4 = cart_map(i, j + 1, n_long, Ghost(n_lat as int));
            let cell: [u32; 6] = [i1, i2, i3, i1, i3, i4];
            proof {
                assert(6 * c + 6 <= 6 * ((n_lat - 1) * m));
                assert forall|t: int| 0 <= t < 6 implies cell@[t] == goal[6 * c + t] by {
                    lemma_cell_corner(c, t, 6);
                }
            }
            extend_cell(&mut out, cell.as_slice(), Ghost(goal), Ghost(c));
            proof {
                assert forall|k: int| 0 <= k < out@.len() implies out@[k] < n_lat * n_long by {
                    if k >= before.len() {
                        assert(out@[k] == cell@[k - before.len()]);
                    }
                }
            }
            j += 1;
        }
        proof {
            assert((i + 1) * m == i * m + m) by (nonlinear_arith);
        }
        i += 1;
    }
    assert(out@ =~= goal);
    out
}

/// The lines of a sphere along its rows.
fn sphere_row_cells(n_lat: usize, n_long: usize) -> (out: Vec<u32>)
    requires
        2 <= n_lat,
        1 <= n_long,
        n_lat * n_long <= u32::MAX,
    ensures
        out@ == sphere_row_lines(n_lat as nat, n_long as nat),
        forall|k: int| 0 <= k < out@.len() ==> out@[k] < n_lat * n_long,
{
    let ghost goal = sphere_row_lines(n_lat as nat, n_long as nat);
    let m = n_long - 1;
    let mut out: Vec<u32> = Vec::new();
    let mut i: usize = 1;
    assert(0 * m == 0) by (nonlinear_arith);
    while i < n_lat - 1
        invariant
            2 <= n_lat,
            1 <= n_long,
            m == n_long - 1,
            n_lat * n_long <= u32::MAX,
            1 <= i <= n_lat - 1,
            goal == sphere_row_lines(n_lat as nat, n_long as nat),
            out@.len() == 2 * ((i - 1) * m),
            forall|k: int| 0 <= k < out@.len() ==> out@[k] == goal[k],
            forall|k: int| 0 <= k < out@.len() ==> out@[k] < n_lat * n_long,
        decreases n_lat - 1 - i,
    {
        let mut j: usize = 0;
        while j < m
            invariant
                2 <= n_lat,
                1 <= n_long,
                m == n_long - 1,
                n_lat * n_long <= u32::MAX,
                1 <= i < n_lat - 1,
                j <= m,
                goal == sphere_row_lines(n_lat as nat, n_long as nat),
                out@.len() == 2 * ((i - 1) * m + j),
                forall|k: int| 0 <= k < out@.len() ==> out@[k] == goal[k],
                forall|k: int| 0 <= k < out@.len() ==> out@[k] < n_lat * n_long,
            decreases m - j,
        {
            let ghost before = out@;
            let ghost c = (i - 1) * m + j;
            proof {
                lemma_field(i - 1, j as int, m as int, n_lat - 2);
            }
            let i1 = cart_map(i, j, n_long, Ghost(n_lat as int));
            let i2 = cart_map(i, j + 1, n_long, Ghost(n_lat as int));
            let cell: [u32; 2] = [i1, i2];
            proof {
                assert(2 * c + 2 <= 2 * ((n_lat - 2) * m));
                assert forall|t: int| 0 <= t < 2 implies cell@[t] == goal[2 * c + t] by {
                    lemma_cell_corner(c, t, 2);
                }
            }
            extend_cell(&mut out, cell.as_slice(), Ghost(goal), Ghost(c));
            proof {
                assert forall|k: int| 0 <= k < out@.len() implies out@[k] < n_lat * n_long by {
                    if k >= before.len() {
                        assert(out@[k] == cell@[k - before.len()]);
                    }
                }
            }
            j += 1;
        }
        proof {
            assert(i * m == (i - 1) * m + m) by (nonlinear_arith);
        }
        i += 1;
    }
    assert(out@ =~= goal);
    out
}

/// The lines of a sphere along its columns.
fn sphere_column_cells(n_lat: usize, n_long: usize) -> (out: Vec<u32>)
    requires
        1 <= n_lat,
        1 <= n_long,
        n_lat * n_long <= u32::MAX,
    ensures
        out@ == sphere_column_lines(n_lat as nat, n_long as nat),
        forall|k: int| 0 <= k < out@.len() ==> out@[k] < n_lat * n_long,
{
    let ghost goal = sphere_column_lines(n_lat as nat, n_long as nat);
    let m = n_lat - 1;
    let mut out: Vec<u32> = Vec::new();
    let mut j: usize = 0;
    assert(0 * m == 0) by (nonlinear_arith);
    while j < n_long
        invariant
            1 <= n_lat,
            1 <= n_long,
            m == n_lat - 1,
            n_lat * n_long <= u32::MAX,
            j <= n_long,
            goal == sphere_column_lines(n_lat as nat, n_long as nat),
            out@.len() == 2 * (j * m),
            forall|k: int| 0 <= k < out@.len() ==> out@[k] == goal[k],
            forall|k: int| 0 <= k < out@.len() ==> out@[k] < n_lat * n_long,
        decreases n_long - j,
    {
        let mut i: usize = 0;
        while i < m
            invariant
                1 <= n_lat,
                1 <= n_long,
                m == n_lat - 1,
                n_lat * n_long <= u32::MAX,
                j < n_long,
                i <= m,
                goal == sphere_column_lines(n_lat as nat, n_long as nat),
                out@.len() == 2 * (j * m + i),
                forall|k: int| 0 <= k < out@.len() ==> out@[k] == goal[k],
                forall|k: int| 0 <= k < out@.len() ==> out@[k] < n_lat * n_long,
            decreases m - i,
        {
            let ghost before = out@;
            let ghost c = j * m + i;
            proof {
                lemma_field(j as int, i as int, m as int, n_long as int);
            }
            let i1 = cart_map(i, j, n_long, Ghost(n_lat as int));
            let i2 = cart_map(i + 1, j, n_long, Ghost(n_lat as int));
            let cell: [u32; 2] = [i1, i2];
            proof {
                assert(2 * c + 2 <= 2 * (n_long * m));
                assert forall|t: int| 0 <= t < 2 implies cell@[t] == goal[2 * c + t] by {
                    lemma_cell_corner(c, t, 2);
                }
            }
            extend_cell(&mut out, cell.as_slice(), Ghost(goal), Ghost(c));
            proof {
                assert forall|k: int| 0 <= k < out@.len() implies out@[k] < n_lat * n_long by {
                    if k >= before.len() {
                        assert(out@[k] == cell@[k - before.len()]);
                    }
                }
            }
            i += 1;
        }
        proof {
            assert((j + 1) * m == j * m + m) by (nonlinear_arith);
        }
        j += 1;
    }
    assert(out@ =~= goal);
    out
}

/// The indices of a sphere of `n_lat` rows of `n_long` points.
pub fn sphere_cells(n_lat: usize, n_long: usize, cell_type: CellType) -> (out: Vec<u32>)
    requires
        1 <= n_lat,
        1 <= n_long,
        n_lat * n_long <= u32::MAX,
    ensures
        out@ == sphere_indices(n_lat as nat, n_long as nat, cell_type),
        forall|k: int| 0 <= k < out@.len() ==> out@[k] < n_lat * n_long,
{
    if cell_type == CellType::Line {
        let columns = sphere_column_cells(n_lat, n_long);
        if n_lat >= 2 {
            let mut out = sphere_row_cells(n_lat, n_long);
            let ghost rows = out@;
            out.extend_from_slice(columns.as_slice());
            assert(out@ =~= rows + columns@);
            out
        } else {
            columns
        }
    } else {
        sphere_triangle_cells(n_lat, n_long)
    }
}

/// The corners that the twelve triangles of a cuboid connect.
pub fn faces() -> (table: [usize; 36])
    ensures
        table@ == cuboid_faces(),
        forall|k: int| 0 <= k < 36 ==> table@[k] < 8,
{
    let table: [usize; 36] = [
        0, 7, 3, 0, 4, 7, 1, 2, 6, 1, 6, 5, 0, 1, 5, 0, 5, 4, 2, 3, 7, 2, 7, 6, 0, 2, 1, 0, 3, 2,
        4, 5, 6, 4, 6, 7,
    ];
    assert(table@ =~= cuboid_faces());
    table
}

/// The corners that the twelve edges of a cuboid connect.
pub fn edges() -> (table: [usize; 24])
    ensures
        table@ == cuboid_edges(),
        forall|k: int| 0 <= k < 24 ==> table@[k] < 8,
{
    let table: [usize; 24] = [
        0, 1, 1, 2, 2, 3, 3, 0, 0, 4, 1, 5, 2, 6, 3, 7, 4, 5, 5, 6, 6, 7, 7, 4,
    ];
    assert(table@ =~= cuboid_edges());
    table
}

/// `mesh` draws the triangle `d`, whose unit normal is `normal`.
pub open spec fn shows_triangle(mesh: Mesh, d: TriangleDescriptor, normal: Vec3) -> bool {
    let corners = triangle_corners(d, normal);
    &&& mesh.cell_type == d.cell_type
    &&& made_of(mesh, corners)
    &&& mesh.indices@ == counting(corners.len())
}

/// `mesh` draws the plane `d` with the corners `corners` and the normals `normals`.
pub open spec fn shows_plane(mesh: Mesh, d: PlaneDescriptor, corners: Seq<Vec3>, normals: Seq<
    Vec3,
>) -> bool {
    let points = plane_corners(d, corners, normals);
    &&& mesh.cell_type == d.cell_type
    &&& made_of(mesh, points)
    &&& mesh.indices@ == counting(points.len())
}

/// `mesh` draws the cuboid `d` with the corners `corners` and the normals `normals`.
pub open spec fn shows_cuboid(mesh: Mesh, d: CuboidDescriptor, corners: Seq<Vec3>, normals: Seq<
    Vec3,
>) -> bool {
    let points = cuboid_corners(d, corners, normals);
    &&& mesh.cell_type == d.cell_type
    &&& made_of(mesh, points)
    &&& mesh.indices@ == counting(points.len())
}

/// `mesh` draws the disc `disc`, whose rim goes through the points `rim`.
pub open spec fn shows_disc(mesh: Mesh, disc: DiscDescriptor, rim: Seq<Vec3>) -> bool {
    &&& mesh.cell_type == disc.cell_type
    &&& made_of(mesh, disc_vertices(disc, rim))
    &&& mesh.indices@ == disc_indices(disc.num_sides as nat, disc.cell_type)
}

/// The discs `lower` and `upper` can close the cylinder `cyl`: they are drawable, made of
/// the cells that the cylinder is made of, and their indices stay in range when they are
/// moved behind the vertices of the side.
pub open spec fn fitting(cyl: CylinderDescriptor, lower: Mesh, upper: Mesh) -> bool {
    &&& lower.valid()
    &&& upper.valid()
    &&& lower.cell_type == cyl.cell_type
    &&& upper.cell_type == cyl.cell_type
    &&& forall|i: int|
        0 <= i < lower.indices@.len() ==> lower.indices@[i] + 2 * cyl.num_sides <= u32::MAX
    &&& forall|i: int|
        0 <= i < upper.indices@.len() ==> upper.indices@[i] + 2 * cyl.num_sides
            + lower.vertex_count() <= u32::MAX
}

/// `mesh` draws the cylinder `cyl`: its side through the points `side` and, where there
/// are `caps`, the two discs that close it, the lower one first.
pub open spec fn shows_cylinder(
    mesh: Mesh,
    cyl: CylinderDescriptor,
    side: Seq<(Vec3, Vec3)>,
    caps: Option<(Mesh, Mesh)>,
) -> bool {
    let n = cyl.num_sides as nat;
    let corners = side_vertices(cyl, side);
    let cells = cylinder_indices(n, cyl.cell_type);
    &&& mesh.cell_type == cyl.cell_type
    &&& starts_with(mesh, corners)
    &&& caps is None ==> made_of(mesh, corners) && mesh.indices@ == cells
    &&& caps matches Some((lower, upper)) ==> mesh.indices@.subrange(0, cells.len() as int) == cells
        && capped(mesh, n, lower, upper)
}

/// `mesh` draws the sphere `s` through the points `grid`.
pub open spec fn shows_sphere(mesh: Mesh, s: SphereDescriptor, grid: Seq<(Vec3, Vec3)>) -> bool {
    &&& mesh.cell_type == s.cell_type
    &&& made_of(mesh, sphere_vertices(s, grid))
    &&& mesh.indices@ == sphere_indices(s.n_lat as nat, s.n_long as nat, s.cell_type)
}

/// `mesh` draws the three axes whose arms end at `ends`.
pub open spec fn shows_axes(mesh: Mesh, ends: Seq<Vec3>) -> bool {
    &&& mesh.cell_type == CellType::Line
    &&& made_of(mesh, axes_corners(ends))
    &&& mesh.indices@ == counting(6)
}

/// The shapes of the spatial viewer.
impl Mesh {
    /// The mesh of the triangle `d`, whose unit normal is `normal`.
    pub fn create_triangle(d: &TriangleDescriptor, normal: &Vec3) -> (mesh: Self)
        requires
            d.cell_type != CellType::Unset,
        ensures
            mesh.cell_type == d.cell_type,
            mesh.uid == 0,
            made_of(mesh, triangle_corners(*d, *normal)),
            mesh.indices@ == counting(triangle_corners(*d, *normal).len()),
            mesh.valid(),
    {
        let lc = d.line_color;
        let tc = d.tri_color;
        let zero = Vec3::zeros();
        let mut descs: Vec<VertexDescriptor> = Vec::new();
        match d.cell_type {
            CellType::Line => {
                descs.push(VertexDescriptor::new(d.v1, zero, lc, tc));
                descs.push(VertexDescriptor::new(d.v2, zero, lc, tc));
                descs.push(VertexDescriptor::new(d.v2, zero, lc, tc));
                descs.push(VertexDescriptor::new(d.v3, zero, lc, tc));
                descs.push(VertexDescriptor::new(d.v3, zero, lc, tc));
                descs.push(VertexDescriptor::new(d.v1, zero, lc, tc));
            },
            _ => {
                descs.push(VertexDescriptor::new(d.v1, *normal, lc, tc));
                descs.push(VertexDescriptor::new(d.v2, *normal, lc, tc));
                descs.push(VertexDescriptor::new(d.v3, *normal, lc, tc));
            },
        }
        assert(descs@ =~= triangle_corners(*d, *normal));
        assert(6nat % 2nat == 0 && 3nat % 3nat == 0);
        from_corners(d.cell_type, &descs)
    }

    /// The mesh of the plane `d`, whose corners lie at `corners`, counted
    /// counter-clockwise, and whose two triangles have the unit normals `normals`.
    pub fn create_plane(d: &PlaneDescriptor, corners: &[Vec3; 4], normals: &[Vec3; 2]) -> (mesh:
        Self)
        requires
            d.cell_type != CellType::Unset,
        ensures
            mesh.cell_type == d.cell_type,
            mesh.uid == 0,
            made_of(mesh, plane_corners(*d, corners@, normals@)),
            mesh.indices@ == counting(plane_corners(*d, corners@, normals@).len()),
            mesh.valid(),
    {
        let lc = d.line_color;
        let tc = d.tri_color;
        let zero = Vec3::zeros();
        let c = corners;
        let mut descs: Vec<VertexDescriptor> = Vec::new();
        match d.cell_type {
            CellType::Line => {
                descs.push(VertexDescriptor::new(c[0], zero, lc, tc));
                descs.push(VertexDescriptor::new(c[1], zero, lc, tc));
                descs.push(VertexDescriptor::new(c[1], zero, lc, tc));
                descs.push(VertexDescriptor::new(c[2], zero, lc, tc));
                descs.push(VertexDescriptor::new(c[2], zero, lc, tc));
                descs.push(VertexDescriptor::new(c[3], zero, lc, tc));
                descs.push(VertexDescriptor::new(c[3], zero, lc, tc));
                descs.push(VertexDescriptor::new(c[0], zero, lc, tc));
            },
            _ => {
                descs.push(VertexDescriptor::new(c[0], normals[0], lc, tc));
                descs.push(VertexDescriptor::new(c[1], normals[0], lc, tc));
                descs.push(VertexDescriptor::new(c[2], normals[0], lc, tc));
                descs.push(VertexDescriptor::new(c[0], normals[1], lc, tc));
                descs.push(VertexDescriptor::new(c[2], normals[1], lc, tc));
                descs.push(VertexDescriptor::new(c[3], normals[1], lc, tc));
            },
        }
        assert(descs@ =~= plane_corners(*d, corners@, normals@));
        assert(8nat % 2nat == 0 && 6nat % 3nat == 0);
        from_corners(d.cell_type, &descs)
    }

    /// The mesh of the cuboid `d`, whose corners lie at `corners`, the bottom ones first,
    /// and whose twelve triangles have the unit normals `normals`.
    pub fn create_cuboid(d: &CuboidDescriptor, corners: &[Vec3; 8], normals: &[Vec3; 12]) -> (mesh:
        Self)
        requires
            d.cell_type != CellType::Unset,
        ensures
            mesh.cell_type == d.cell_type,
            mesh.uid == 0,
            made_of(mesh, cuboid_corners(*d, corners@, normals@)),
            mesh.indices@ == counting(cuboid_corners(*d, corners@, normals@).len()),
            mesh.valid(),
    {
        let lc = d.line_color;
        let tc = d.tri_color;
        let zero = Vec3::zeros();
        let ghost goal = cuboid_corners(*d, corners@, normals@);
        let mut descs: Vec<VertexDescriptor> = Vec::new();
        match d.cell_type {
            CellType::Line => {
                let table = edges();
                let mut k: usize = 0;
                while k < 24
                    invariant
                        k <= 24,
                        d.cell_type == CellType::Line,
                        table@ == cuboid_edges(),
                        forall|j: int| 0 <= j < 24 ==> table@[j] < 8,
                        goal == cuboid_corners(*d, corners@, normals@),
                        zero == no_normal(),
                        lc == d.line_color,
                        tc == d.tri_color,
                        descs@.len() == k,
                        forall|j: int| 0 <= j < k ==> descs@[j] == goal[j],
                    decreases 24 - k,
                {
                    descs.push(
                        VertexDescriptor {
                            position: corners[table[k]],
                            normal: zero,
                            line_color: lc,
                            triangle_color: tc,
                        },
                    );
                    k += 1;
                }
            },
            _ => {
                let table = faces();
                let mut k: usize = 0;
                while k < 36
                    invariant
                        k <= 36,
                        d.cell_type != CellType::Line,
                        table@ == cuboid_faces(),
                        forall|j: int| 0 <= j < 36 ==> table@[j] < 8,
                        goal == cuboid_corners(*d, corners@, normals@),
                        lc == d.line_color,
                        tc == d.tri_color,
                        descs@.len() == k,
                        forall|j: int| 0 <= j < k ==> descs@[j] == goal[j],
                    decreases 36 - k,
                {
                    descs.push(
                        VertexDescriptor {
                            position: corners[table[k]],
                            normal: normals[k / 3],
                            line_color: lc,
                            triangle_color: tc,
                        },
                    );
                    k += 1;
                }
            },
        }
        assert(descs@ =~= goal);
        assert(24nat % 2nat == 0 && 36nat % 3nat == 0);
        from_corners(d.cell_type, &descs)
    }

    /// The mesh of the disc `disc`, whose rim is drawn through the points `rim`.
    pub fn create_disc(disc: &DiscDescriptor, rim: &[Vec3]) -> (mesh: Self)
        requires
            disc.cell_type != CellType::Unset,
            rim@.len() == disc.num_sides,
            disc.num_sides < u32::MAX,
        ensures
            mesh.cell_type == disc.cell_type,
            mesh.uid == 0,
            made_of(mesh, disc_vertices(*disc, rim@)),
            mesh.indices@ == disc_indices(disc.num_sides as nat, disc.cell_type),
            mesh.valid(),
    {
        let n = disc.num_sides;
        let ghost goal = disc_vertices(*disc, rim@);
        let mut descs: Vec<VertexDescriptor> = Vec::new();
        descs.push(
            VertexDescriptor {
                position: disc.origin,
                normal: disc.axis,
                line_color: disc.line_color,
                triangle_color: disc.tri_color,
            },
        );
        let mut i: usize = 0;
        while i < n
            invariant
                i <= n,
                n == rim@.len(),
                goal == disc_vertices(*disc, rim@),
                descs@.len() == i + 1,
                forall|k: int| 0 <= k < descs@.len() ==> descs@[k] == goal[k],
            decreases n - i,
        {
            descs.push(
                VertexDescriptor {
                    position: rim[i],
                    normal: disc.axis,
                    line_color: disc.line_color,
                    triangle_color: disc.tri_color,
                },
            );
            i += 1;
        }
        assert(descs@ =~= goal);
        let indices = disc_cells(n, disc.cell_type);
        proof {
            if disc.cell_type == CellType::Line {
                lemma_cell_corner(2 * n, 0, 2);
            } else {
                lemma_cell_corner(n as int, 0, 3);
            }
        }
        from_shared(disc.cell_type, &descs, indices)
    }

    /// The mesh of the sphere `s`, through the points `grid`, given row by row from pole
    /// to pole, each with its normal.
    pub fn create_sphere(s: &SphereDescriptor, grid: &[(Vec3, Vec3)]) -> (mesh: Self)
        requires
            s.cell_type != CellType::Unset,
            1 <= s.n_lat,
            1 <= s.n_long,
            s.n_lat * s.n_long <= u32::MAX,
            grid@.len() == s.n_lat * s.n_long,
        ensures
            mesh.cell_type == s.cell_type,
            mesh.uid == 0,
            made_of(mesh, sphere_vertices(*s, grid@)),
            mesh.indices@ == sphere_indices(s.n_lat as nat, s.n_long as nat, s.cell_type),
            mesh.valid(),
    {
        let ghost goal = sphere_vertices(*s, grid@);
        let mut descs: Vec<VertexDescriptor> = Vec::new();
        let mut i: usize = 0;
        while i < grid.len()
            invariant
                i <= grid@.len(),
                goal == sphere_vertices(*s, grid@),
                descs@.len() == i,
                forall|k: int| 0 <= k < descs@.len() ==> descs@[k] == goal[k],
            decreases grid@.len() - i,
        {
            descs.push(
                VertexDescriptor {
                    position: grid[i].0,
                    normal: grid[i].1,
                    line_color: s.line_color,
                    triangle_color: s.tri_color,
                },
            );
            i += 1;
        }
        assert(descs@ =~= goal);
        let indices = sphere_cells(s.n_lat, s.n_long, s.cell_type);
        proof {
            let n_lat = s.n_lat as int;
            let n_long = s.n_long as int;
            if s.cell_type == CellType::Line {
                let columns = n_long * (n_lat - 1);
                assert(columns >= 0) by (nonlinear_arith)
                    requires
                        columns == n_long * (n_lat - 1),
                        n_long >= 1,
                        n_lat >= 1,
                ;
                if n_lat >= 2 {
                    let rows = (n_lat - 2) * (n_long - 1);
                    assert(rows >= 0) by (nonlinear_arith)
                        requires
                            rows == (n_lat - 2) * (n_long - 1),
                            n_long >= 1,
                            n_lat >= 2,
                    ;
                    lemma_cell_corner(rows + columns, 0, 2);
                } else {
                    lemma_cell_corner(columns, 0, 2);
                }
            } else {
                let fields = (n_lat - 1) * (n_long - 1);
                assert(fields >= 0) by (nonlinear_arith)
                    requires
                        fields == (n_lat - 1) * (n_long - 1),
                        n_long >= 1,
                        n_lat >= 1,
                ;
                lemma_cell_corner(2 * fields, 0, 3);
            }
        }
        from_shared(s.cell_type, &descs, indices)
    }

    /// The mesh of the side of the cylinder `cyl`, through the points `side`: those of
    /// the bottom circle, then those of the top circle, each with its normal.
    pub fn create_cylinder_side(cyl: &CylinderDescriptor, side: &[(Vec3, Vec3)]) -> (mesh: Self)
        requires
            cyl.cell_type != CellType::Unset,
            1 <= cyl.num_sides,
            2 * cyl.num_sides <= u32::MAX,
            side@.len() == 2 * cyl.num_sides,
        ensures
            mesh.cell_type == cyl.cell_type,
            mesh.uid == 0,
            made_of(mesh, side_vertices(*cyl, side@)),
            mesh.indices@ == cylinder_indices(cyl.num_sides as nat, cyl.cell_type),
            mesh.valid(),
    {
        let n = cyl.num_sides;
        let ghost goal = side_vertices(*cyl, side@);
        let mut descs: Vec<VertexDescriptor> = Vec::new();
        let mut i: usize = 0;
        while i < side.len()
            invariant
                i <= side@.len(),
                goal == side_vertices(*cyl, side@),
                descs@.len() == i,
                forall|k: int| 0 <= k < descs@.len() ==> descs@[k] == goal[k],
            decreases side@.len() - i,
        {
            descs.push(
                VertexDescriptor {
                    position: side[i].0,
                    normal: side[i].1,
                    line_color: cyl.line_color,
                    triangle_color: cyl.tri_color,
                },
            );
            i += 1;
        }
        assert(descs@ =~= goal);
        let indices = cylinder_cells(n, cyl.cell_type);
        proof {
            if cyl.cell_type == CellType::Line {
                lemma_cell_corner(3 * (n - 1), 0, 2);
            } else {
                lemma_cell_corner(2 * n, 0, 3);
            }
        }
        from_shared(cyl.cell_type, &descs, indices)
    }

    /// The mesh of the cylinder `cyl`: its side, through the points `side`, and, unless
    /// the cylinder is open, its two caps, the lower one first.
    pub fn create_cylinder(
        cyl: &CylinderDescriptor,
        side: &[(Vec3, Vec3)],
        caps: Option<(Mesh, Mesh)>,
    ) -> (mesh: Self)
        requires
            cyl.cell_type != CellType::Unset,
            1 <= cyl.num_sides,
            2 * cyl.num_sides <= u32::MAX,
            side@.len() == 2 * cyl.num_sides,
            caps is Some <==> !cyl.open,
            caps matches Some((lower, upper)) ==> {
                &&& lower.cell_type == cyl.cell_type
                &&& upper.cell_type == cyl.cell_type
                &&& lower.vertices@.len() % 12 == 0
                &&& forall|i: int|
                    0 <= i < lower.indices@.len() ==> lower.indices@[i] + 2 * cyl.num_sides
                        <= u32::MAX
                &&& forall|i: int|
                    0 <= i < upper.indices@.len() ==> upper.indices@[i] + 2 * cyl.num_sides
                        + lower.vertex_count() <= u32::MAX
            },
        ensures
            mesh.cell_type == cyl.cell_type,
            mesh.uid == 0,
            mesh.vertices@.len() >= 24 * cyl.num_sides,
            starts_with(mesh, side_vertices(*cyl, side@)),
            mesh.indices@.subrange(0, cylinder_indices(cyl.num_sides as nat, cyl.cell_type).len() as int)
                == cylinder_indices(cyl.num_sides as nat, cyl.cell_type),
            caps is None ==> made_of(mesh, side_vertices(*cyl, side@)) && mesh.indices@
                == cylinder_indices(cyl.num_sides as nat, cyl.cell_type),
            caps matches Some((lower, upper)) ==> capped(mesh, cyl.num_sides as nat, lower, upper),
            (caps matches Some((lower, upper)) ==> lower.valid() && upper.valid())
                ==> mesh.valid(),
    {
        let mut out = Self::create_cylinder_side(cyl, side);
        match caps {
            Some((lower, upper)) => {
                let ghost bare = out;
                out.merge(lower);
                let ghost half = out;
                proof {
                    vstd::arithmetic::div_mod::lemma_fundamental_div_mod_converse(
                        24 * cyl.num_sides,
                        12,
                        2 * cyl.num_sides,
                        0,
                    );
                    vstd::arithmetic::div_mod::lemma_fundamental_div_mod(
                        lower.vertices@.len() as int,
                        12,
                    );
                    vstd::arithmetic::div_mod::lemma_fundamental_div_mod_converse(
                        24 * cyl.num_sides + lower.vertices@.len(),
                        12,
                        2 * cyl.num_sides + lower.vertices@.len() / 12,
                        0,
                    );
                    assert(half.vertex_count() == 2 * cyl.num_sides + lower.vertex_count());
                }
                out.merge(upper);
                proof {
                    assert(out.indices@.subrange(0, bare.indices@.len() as int) =~= bare.indices@);
                    assert(out.vertices@ =~= bare.vertices@ + lower.vertices@ + upper.vertices@);
                    assert forall|i: int| 0 <= i < 2 * cyl.num_sides implies #[trigger] out.vertex_words(
                        i,
                    ) == side_vertices(*cyl, side@)[i].words() by {
                        assert(12 * (i + 1) <= 24 * cyl.num_sides);
                        assert(out.vertex_words(i) =~= bare.vertex_words(i));
                    }
                    assert(out.vertices@.subrange(
                        24 * cyl.num_sides,
                        24 * cyl.num_sides + lower.vertices@.len(),
                    )
                        =~= lower.vertices@);
                    assert(out.vertices@.subrange(
                        24 * cyl.num_sides + lower.vertices@.len(),
                        out.vertices@.len() as int,
                    ) =~= upper.vertices@);
                }
                out
            },
            None => {
                proof {
                    assert(out.indices@.subrange(0, out.indices@.len() as int) =~= out.indices@);
                }
                out
            },
        }
    }

    /// The mesh of three axes, of which the first reaches from `ends[0]` to `ends[1]`,
    /// the second from `ends[2]` to `ends[3]` and the third from `ends[4]` to `ends[5]`:
    /// three lines, green, red and blue.
    pub fn create_axes(ends: &[Vec3; 6]) -> (mesh: Self)
        ensures
            mesh.cell_type == CellType::Line,
            mesh.uid == 0,
            made_of(mesh, axes_corners(ends@)),
            mesh.indices@ == counting(6),
            mesh.valid(),
    {
        let zero = Vec3::zeros();
        let mut descs: Vec<VertexDescriptor> = Vec::new();
        descs.push(VertexDescriptor::new(ends[0], zero, Color::Green, Color::Green));
        descs.push(VertexDescriptor::new(ends[1], zero, Color::Green, Color::Green));
        descs.push(VertexDescriptor::new(ends[2], zero, Color::Red, Color::Red));
        descs.push(VertexDescriptor::new(ends[3], zero, Color::Red, Color::Red));
        descs.push(VertexDescriptor::new(ends[4], zero, Color::Blue, Color::Blue));
        descs.push(VertexDescriptor::new(ends[5], zero, Color::Blue, Color::Blue));
        assert(descs@ =~= axes_corners(ends@));
        assert(6nat % 2nat == 0);
        assert(CellType::Line.arity() == 2);
        from_corners(CellType::Line, &descs)
    }
}

} // verus!
