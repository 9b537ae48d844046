//! The meshes of the shapes of the planar viewer.
//!
//! Where the corners of a shape lie is for the caller to work out. Given the corners,
//! these functions decide which vertices the mesh has and how its indices connect them.
use crate::common::{CellType, Color, Vec2};
use crate::d2::mesh::{
    corner, from_corners, made_of, CircleDescriptor, Mesh, SquareDescriptor,
};
use crate::d2::vertex::VertexDescriptor;
use crate::scene::mesh::{counting, lemma_cell_corner};
use vstd::prelude::*;

verus! {

/// The corners of the two lines of a pair of axes: the first axis in red from `ends[0]`
/// to `ends[1]`, the second in green from `ends[2]` to `ends[3]`.
pub open spec fn axes_corners(ends: Seq<Vec2>) -> Seq<VertexDescriptor> {
    seq![
        corner(ends[0], Color::Red, Color::Gray),
        corner(ends[1], Color::Red, Color::Gray),
        corner(ends[2], Color::Green, Color::Gray),
        corner(ends[3], Color::Green, Color::Gray),
    ]
}

/// The positions of the corners of the cells of a square with the corners `c`, given
/// counter-clockwise: its four sides, or the two triangles on either side of the
/// diagonal from the first corner.
pub open spec fn square_positions(cell_type: CellType, c: Seq<Vec2>) -> Seq<Vec2> {
    if cell_type == CellType::Line {
        seq![c[0], c[1], c[1], c[2], c[2], c[3], c[3], c[0]]
    } else {
        seq![c[0], c[1], c[2], c[0], c[2], c[3]]
    }
}

/// The positions of the corners of the cells of a polygon with the corners `rim` around
/// `center`: its sides, or the triangles between the centre and each side.
pub open spec fn circle_positions(cell_type: CellType, center: Vec2, rim: Seq<Vec2>) -> Seq<Vec2> {
    let n = rim.len() as int;
    if cell_type == CellType::Line {
        Seq::new(
            (2 * n) as nat,
            |k: int|
                if k % 2 == 0 {
                    rim[k / 2]
                } else {
                    rim[(k / 2 + 1) % n]
                },
        )
    } else {
        Seq::new(
            (3 * n) as nat,
            |k: int|
                if k % 3 == 0 {
                    center
                } else if k % 3 == 1 {
                    rim[k / 3]
                } else {
                    rim[(k / 3 + 1) % n]
                },
        )
    }
}

/// Vertices at `positions`, all with the same colours.
pub open spec fn colored(positions: Seq<Vec2>, line_color: Color, triangle_color: Color) -> Seq<
    VertexDescriptor,
> {
    Seq::new(positions.len(), |i: int| corner(positions[i], line_color, triangle_color))
}

/// `mesh` draws the pair of axes whose arms end at `ends`.
pub open spec fn shows_axes(mesh: Mesh, ends: Seq<Vec2>) -> bool {
    &&& mesh.cell_type == CellType::Line
    &&& made_of(mesh, axes_corners(ends))
    &&& mesh.indices@ == counting(4)
}

/// `mesh` draws the square `square`, whose corners lie at `corners`.
pub open spec fn shows_square(mesh: Mesh, square: SquareDescriptor, corners: Seq<Vec2>) -> bool {
    let positions = square_positions(square.cell_type, corners);
    &&& mesh.cell_type == square.cell_type
    &&& made_of(mesh, colored(positions, square.line_color, square.tri_color))
    &&& mesh.indices@ == counting(positions.len())
}

/// `mesh` draws the circle `circle` as the polygon with the corners `rim`.
pub open spec fn shows_circle(mesh: Mesh, circle: CircleDescriptor, rim: Seq<Vec2>) -> bool {
    let positions = circle_positions(circle.cell_type, circle.center, rim);
    &&& mesh.cell_type == circle.cell_type
    &&& made_of(mesh, colored(positions, circle.line_color, circle.tri_color))
    &&& mesh.indices@ == counting(positions.len())
}

/// The shapes of the planar viewer.
impl Mesh {
    /// The mesh of a pair of axes that reach from `ends[0]` to `ends[1]` and from
    /// `ends[2]` to `ends[3]`: two lines, the first red and the second green.
    pub fn create_axes(ends: &[Vec2; 4]) -> (mesh: Self)
        ensures
            mesh.cell_type == CellType::Line,
            mesh.uid == 0,
            made_of(mesh, axes_corners(ends@)),
            mesh.indices@ == counting(4),
            mesh.valid(),
    {
        let gray = Color::default();
        let mut descs: Vec<VertexDescriptor> = Vec::new();
        descs.push(VertexDescriptor::new(ends[0], Color::Red, gray));
        descs.push(VertexDescriptor::new(ends[1], Color::Red, gray));
        descs.push(VertexDescriptor::new(ends[2], Color::Green, gray));
        descs.push(VertexDescriptor::new(ends[3], Color::Green, gray));
        assert(descs@ =~= axes_corners(ends@));
        assert(descs@.len() == 4);
        assert(CellType::Line.arity() == 2);
        assert(4nat % 2nat == 0);
        from_corners(CellType::Line, &descs)
    }

    /// The mesh of the square `square_disc`, whose corners lie at `corners`, counted
    /// counter-clockwise from the origin of the square.
    pub fn create_square(square_disc: &SquareDescriptor, corners: &[Vec2; 4]) -> (mesh: Self)
        requires
            square_disc.cell_type != CellType::Unset,
        ensures
            mesh.cell_type == square_disc.cell_type,
            mesh.uid == 0,
            made_of(
                mesh,
                colored(
                    square_positions(square_disc.cell_type, corners@),
                    square_disc.line_color,
                    square_disc.tri_color,
                ),
            ),
            mesh.indices@ == counting(square_positions(square_disc.cell_type, corners@).len()),
            mesh.valid(),
    {
        let lc = square_disc.line_color;
        let tc = square_disc.tri_color;
        let mut descs: Vec<VertexDescriptor> = Vec::new();
        match square_disc.cell_type {
            CellType::Line => {
                descs.push(VertexDescriptor::new(corners[0], lc, tc));
                descs.push(VertexDescriptor::new(corners[1], lc, tc));
                descs.push(VertexDescriptor::new(corners[1], lc, tc));
                descs.push(VertexDescriptor::new(corners[2], lc, tc));
                descs.push(VertexDescriptor::new(corners[2], lc, tc));
                descs.push(VertexDescriptor::new(corners[3], lc, tc));
                descs.push(VertexDescriptor::new(corners[3], lc, tc));
                descs.push(VertexDescriptor::new(corners[0], lc, tc));
            },
            _ => {
                descs.push(VertexDescriptor::new(corners[0], lc, tc));
                descs.push(VertexDescriptor::new(corners[1], lc, tc));
                descs.push(VertexDescriptor::new(corners[2], lc, tc));
                descs.push(VertexDescriptor::new(corners[0], lc, tc));
                descs.push(VertexDescriptor::new(corners[2], lc, tc));
                descs.push(VertexDescriptor::new(corners[3], lc, tc));
            },
        }
        assert(descs@ =~= colored(square_positions(square_disc.cell_type, corners@), lc, tc));
        assert(8nat % 2nat == 0 && 6nat % 3nat == 0);
        assert(descs@.len() == if square_disc.cell_type == CellType::Line {
            8nat
        } else {
            6nat
        });
        from_corners(square_disc.cell_type, &descs)
    }

    /// The mesh of the circle `circle`, drawn as the polygon with the corners `rim`.
    pub fn create_circle(circle: &CircleDescriptor, rim: &[Vec2]) -> (mesh: Self)
        requires
            circle.cell_type != CellType::Unset,
            rim@.len() == circle.num_sides,
            circle.num_sides > 0,
            3 * circle.num_sides <= u32::MAX,
        ensures
            mesh.cell_type == circle.cell_type,
            mesh.uid == 0,
            made_of(
                mesh,
                colored(
                    circle_positions(circle.cell_type, circle.center, rim@),
                    circle.line_color,
                    circle.tri_color,
                ),
            ),
            mesh.indices@ == counting(circle_positions(circle.cell_type, circle.center, rim@).len()),
            mesh.valid(),
    {
        let lc = circle.line_color;
        let tc = circle.tri_color;
        let n = rim.len();
        let line = circle.cell_type == CellType::Line;
        let ghost goal = colored(circle_positions(circle.cell_type, circle.center, rim@), lc, tc);
        let mut descs: Vec<VertexDescriptor> = Vec::new();
        let mut i: usize = 0;
        while i < n
            invariant
                i <= n,
                n == rim@.len(),
                0 < n,
                3 * n <= u32::MAX,
                line == (circle.cell_type == CellType::Line),
                goal == colored(circle_positions(circle.cell_type, circle.center, rim@), lc, tc),
                descs@.len() == if line {
                    2 * i
                } else {
                    3 * i
                },
                forall|k: int| 0 <= k < descs@.len() ==> descs@[k] == goal[k],
            decreases n - i,
        {
            let ii = (i + 1) % n;
            let ghost then = descs@;
            if line {
                descs.push(VertexDescriptor::new(rim[i], lc, tc));
                descs.push(VertexDescriptor::new(rim[ii], lc, tc));
                proof {
                    lemma_cell_corner(i as int, 0, 2);
                    lemma_cell_corner(i as int, 1, 2);
                }
            } else {
                descs.push(VertexDescriptor::new(circle.center, lc, tc));
                descs.push(VertexDescriptor::new(rim[i], lc, tc));
                descs.push(VertexDescriptor::new(rim[ii], lc, tc));
                proof {
                    lemma_cell_corner(i as int, 0, 3);
                    lemma_cell_corner(i as int, 1, 3);
                    lemma_cell_corner(i as int, 2, 3);
                }
            }
            i += 1;
        }
        assert(descs@ =~= goal);
        proof {
            let k: int = if line {
                2
            } else {
                3
            };
            assert(k * n == n * k + 0) by (nonlinear_arith);
            vstd::arithmetic::div_mod::lemma_fundamental_div_mod_converse(k * n, k, n as int, 0);
            assert(descs@.len() % (circle.cell_type.arity() as nat) == 0);
        }
        from_corners(circle.cell_type, &descs)
    }
}

} // verus!
