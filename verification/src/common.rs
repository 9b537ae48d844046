//! Values shared by every part of the viewer: scalars and small vectors, colours, cell
//! types, and the wrapping arithmetic used for camera navigation.
//!
//! The verified core never performs real-number arithmetic. A single-precision value is
//! carried as its IEEE-754 bit pattern in a `u32`, so that it can be stored, compared and
//! handed to the graphics layer unchanged.
use vstd::prelude::*;

verus! {

/// Bit pattern of a single-precision value.
pub type Scalar = u32;

/// Bit pattern of the single-precision value zero.
pub const ZERO: Scalar = 0x0000_0000;

/// Bit pattern of the single-precision value one.
pub const ONE: Scalar = 0x3F80_0000;

/// Bit pattern of the single-precision value one half.
pub const HALF: Scalar = 0x3F00_0000;

/// Bit pattern of positive infinity: the largest pattern that is not a NaN.
pub const INFINITY: Scalar = 0x7F80_0000;

/// Bit pattern of negative zero: the sign bit alone.
pub const SIGN: Scalar = 0x8000_0000;

/// The magnitude part of a bit pattern: the pattern without its sign bit.
pub open spec fn magnitude(bits: Scalar) -> int {
    if bits < SIGN {
        bits as int
    } else {
        bits - SIGN
    }
}

/// A pattern encodes a NaN when its magnitude lies above that of infinity.
pub open spec fn is_nan(bits: Scalar) -> bool {
    magnitude(bits) > INFINITY
}

/// Position of a non-NaN pattern on the number line: patterns of positive values grow with
/// the value, patterns of negative values are mirrored, and both zeros sit at 0.
pub open spec fn order_key(bits: Scalar) -> int {
    if bits < SIGN {
        bits as int
    } else {
        -(bits - SIGN)
    }
}

/// The IEEE-754 comparison `a < b` on bit patterns: false as soon as either side is a NaN.
pub open spec fn scalar_lt(a: Scalar, b: Scalar) -> bool {
    !is_nan(a) && !is_nan(b) && order_key(a) < order_key(b)
}

/// A value is strictly positive when zero compares less than it.
pub open spec fn scalar_positive(bits: Scalar) -> bool {
    0 < bits <= INFINITY
}

fn key_of(bits: Scalar) -> (k: i64)
    ensures
        k == order_key(bits),
{
    if bits < SIGN {
        bits as i64
    } else {
        -((bits - SIGN) as i64)
    }
}

fn nan(bits: Scalar) -> (b: bool)
    ensures
        b == is_nan(bits),
{
    if bits < SIGN {
        bits > INFINITY
    } else {
        bits - SIGN > INFINITY
    }
}

/// Whether the value with pattern `bits` is strictly greater than zero.
pub fn is_positive(bits: Scalar) -> (b: bool)
    ensures
        b == scalar_positive(bits),
{
    0 < bits && bits <= INFINITY
}

/// Whether the value with pattern `a` is strictly less than the one with pattern `b`.
pub fn less_than(a: Scalar, b: Scalar) -> (r: bool)
    ensures
        r == scalar_lt(a, b),
{
    !nan(a) && !nan(b) && key_of(a) < key_of(b)
}

/// A point or direction of the plane, by the bit patterns of its coordinates.
#[derive(Clone, Copy, Debug, PartialEq, Eq, Structural)]
pub struct Vec2 {
    pub x: Scalar,
    pub y: Scalar,
}

impl Vec2 {
    /// The coordinates in storage order.
    pub open spec fn words(self) -> Seq<u32> {
        seq![self.x, self.y]
    }

    pub fn new(x: Scalar, y: Scalar) -> (v: Self)
        ensures
            v.x == x,
            v.y == y,
    {
        Vec2 { x, y }
    }

    pub fn zeros() -> (v: Self)
        ensures
            v.x == ZERO,
            v.y == ZERO,
    {
        Vec2 { x: ZERO, y: ZERO }
    }
}

/// A point or direction of space, by the bit patterns of its coordinates.
#[derive(Clone, Copy, Debug, PartialEq, Eq, Structural)]
pub struct Vec3 {
    pub x: Scalar,
    pub y: Scalar,
    pub z: Scalar,
}

impl Vec3 {
    /// The coordinates in storage order.
    pub open spec fn words(self) -> Seq<u32> {
        seq![self.x, self.y, self.z]
    }

    pub fn new(x: Scalar, y: Scalar, z: Scalar) -> (v: Self)
        ensures
            v.x == x,
            v.y == y,
            v.z == z,
    {
        Vec3 { x, y, z }
    }

    pub fn zeros() -> (v: Self)
        ensures
            v.x == ZERO,
            v.y == ZERO,
            v.z == ZERO,
    {
        Vec3 { x: ZERO, y: ZERO, z: ZERO }
    }
}

/// Which way to move along an axis, for a step whose length the caller knows.
#[derive(Clone, Copy, Debug, PartialEq, Eq, Structural)]
pub enum Direction {
    Negative,
    Zero,
    Positive,
}

/// The octant in which a direction lies, by the signs of its coordinates: 0 to 3 go round
/// the upper half, starting where all coordinates are positive, and 4 to 7 lie below them.
/// A coordinate that is zero or a NaN counts as negative.
pub open spec fn octant_of(direction: Vec3) -> int {
    let slot: int = if scalar_positive(direction.y) {
        if scalar_positive(direction.x) {
            0
        } else {
            1
        }
    } else {
        if scalar_positive(direction.x) {
            3
        } else {
            2
        }
    };
    if scalar_positive(direction.z) {
        slot
    } else {
        slot + 4
    }
}

/// The octant, from 0 to 7, in which the direction `forward` lies. The direction is read
/// as it is given: scaling it to unit length is left to the caller.
pub fn octant(forward: &Vec3) -> (oct: i8)
    ensures
        oct == octant_of(*forward),
        0 <= oct < 8,
{
    let x = is_positive(forward.x);
    let y = is_positive(forward.y);
    let z = is_positive(forward.z);
    let oct: i8 = if z {
        if y {
            if x {
                0
            } else {
                1
            }
        } else {
            if x {
                3
            } else {
                2
            }
        }
    } else {
        if y {
            if x {
                4
            } else {
                5
            }
        } else {
            if x {
                7
            } else {
                6
            }
        }
    };
    oct
}

/// Remainder of `n` by `range` as the machine computes it: truncated towards zero, so that
/// the result takes the sign of `n`.
pub open spec fn truncated_rem(n: int, range: int) -> int {
    if n >= 0 {
        n % range
    } else {
        -((-n) % range)
    }
}

/// What `wrap` returns: the truncated remainder, moved up by `range` when it is negative.
pub open spec fn wrap_spec(n: int, range: int) -> int {
    let result = truncated_rem(n, range);
    if result < 0 {
        result + range
    } else {
        result
    }
}

/// For a positive range, wrapping is the mathematical remainder: a value in `0..range`
/// that differs from `n` by a multiple of `range`.
pub proof fn lemma_wrap_is_modulo(n: int, range: int)
    requires
        range > 0,
    ensures
        wrap_spec(n, range) == n % range,
        0 <= wrap_spec(n, range) < range,
{
    if n < 0 {
        let m = -n;
        vstd::arithmetic::div_mod::lemma_fundamental_div_mod(m, range);
        vstd::arithmetic::div_mod::lemma_mod_bound(m, range);
        let q = m / range;
        let t = m % range;
        if t == 0 {
            assert(n == (-q) * range + 0) by (nonlinear_arith)
                requires
                    m == range * q + t,
                    t == 0,
                    n == -m,
            ;
            vstd::arithmetic::div_mod::lemma_fundamental_div_mod_converse(n, range, -q, 0);
        } else {
            assert(n == (-q - 1) * range + (range - t)) by (nonlinear_arith)
                requires
                    m == range * q + t,
                    n == -m,
            ;
            vstd::arithmetic::div_mod::lemma_fundamental_div_mod_converse(
                n,
                range,
                -q - 1,
                range - t,
            );
        }
    } else {
        vstd::arithmetic::div_mod::lemma_mod_bound(n, range);
    }
}

/// A kind of whole number that `wrap` works on: each of the machine's integer types.
pub trait WrapValue: Copy + Sized {
    /// The number that the value stands for.
    spec fn number(self) -> int;

    /// The least number that the type holds.
    spec fn least() -> int;

    /// The greatest number that the type holds.
    spec fn greatest() -> int;

    /// Every value stands for a number that the type holds.
    proof fn lemma_held(self)
        ensures
            Self::least() <= self.number() <= Self::greatest(),
    ;

    /// The remainder as the machine computes it.
    fn remainder(self, range: Self) -> (r: Self)
        requires
            range.number() != 0,
            !(self.number() == Self::least() && range.number() == -1),
        ensures
            r.number() == truncated_rem(self.number(), range.number()),
    ;

    /// Whether the value is negative.
    fn below_zero(self) -> (b: bool)
        ensures
            b == (self.number() < 0),
    ;

    /// The value moved by `range`, where the type holds the sum.
    fn moved_by(self, range: Self) -> (r: Self)
        requires
            Self::least() <= self.number() + range.number() <= Self::greatest(),
        ensures
            r.number() == self.number() + range.number(),
    ;
}

impl WrapValue for i8 {
    open spec fn number(self) -> int {
        self as int
    }

    open spec fn least() -> int {
        i8::MIN as int
    }

    open spec fn greatest() -> int {
        i8::MAX as int
    }

    proof fn lemma_held(self) {
    }

    fn remainder(self, range: Self) -> (r: Self) {
        self % range
    }

    fn below_zero(self) -> (b: bool) {
        self < 0
    }

    fn moved_by(self, range: Self) -> (r: Self) {
        self + range
    }
}

impl WrapValue for i16 {
    open spec fn number(self) -> int {
        self as int
    }

    open spec fn least() -> int {
        i16::MIN as int
    }

    open spec fn greatest() -> int {
        i16::MAX as int
    }

    proof fn lemma_held(self) {
    }

    fn remainder(self, range: Self) -> (r: Self) {
        self % range
    }

    fn below_zero(self) -> (b: bool) {
        self < 0
    }

    fn moved_by(self, range: Self) -> (r: Self) {
        self + range
    }
}

impl WrapValue for i32 {
    open spec fn number(self) -> int {
        self as int
    }

    open spec fn least() -> int {
        i32::MIN as int
    }

    open spec fn greatest() -> int {
        i32::MAX as int
    }

    proof fn lemma_held(self) {
    }

    fn remainder(self, range: Self) -> (r: Self) {
        self % range
    }

    fn below_zero(self) -> (b: bool) {
        self < 0
    }

    fn moved_by(self, range: Self) -> (r: Self) {
        self + range
    }
}

impl WrapValue for i64 {
    open spec fn number(self) -> int {
        self as int
    }

    open spec fn least() -> int {
        i64::MIN as int
    }

    open spec fn greatest() -> int {
        i64::MAX as int
    }

    proof fn lemma_held(self) {
    }

    fn remainder(self, range: Self) -> (r: Self) {
        self % range
    }

    fn below_zero(self) -> (b: bool) {
        self < 0
    }

    fn moved_by(self, range: Self) -> (r: Self) {
        self + range
    }
}

impl WrapValue for isize {
    open spec fn number(self) -> int {
        self as int
    }

    open spec fn least() -> int {
        isize::MIN as int
    }

    open spec fn greatest() -> int {
        isize::MAX as int
    }

    proof fn lemma_held(self) {
    }

    fn remainder(self, range: Self) -> (r: Self) {
        self % range
    }

    fn below_zero(self) -> (b: bool) {
        self < 0
    }

    fn moved_by(self, range: Self) -> (r: Self) {
        self + range
    }
}

impl WrapValue for u8 {
    open spec fn number(self) -> int {
        self as int
    }

    open spec fn least() -> int {
        u8::MIN as int
    }

    open spec fn greatest() -> int {
        u8::MAX as int
    }

    proof fn lemma_held(self) {
    }

    fn remainder(self, range: Self) -> (r: Self) {
        self % range
    }

    fn below_zero(self) -> (b: bool) {
        false
    }

    fn moved_by(self, range: Self) -> (r: Self) {
        self + range
    }
}

impl WrapValue for u16 {
    open spec fn number(self) -> int {
        self as int
    }

    open spec fn least() -> int {
        u16::MIN as int
    }

    open spec fn greatest() -> int {
        u16::MAX as int
    }

    proof fn lemma_held(self) {
    }

    fn remainder(self, range: Self) -> (r: Self) {
        self % range
    }

    fn below_zero(self) -> (b: bool) {
        false
    }

    fn moved_by(self, range: Self) -> (r: Self) {
        self + range
    }
}

impl WrapValue for u32 {
    open spec fn number(self) -> int {
        self as int
    }

    open spec fn least() -> int {
        u32::MIN as int
    }

    open spec fn greatest() -> int {
        u32::MAX as int
    }

    proof fn lemma_held(self) {
    }

    fn remainder(self, range: Self) -> (r: Self) {
        self % range
    }

    fn below_zero(self) -> (b: bool) {
        false
    }

    fn moved_by(self, range: Self) -> (r: Self) {
        self + range
    }
}

impl WrapValue for u64 {
    open spec fn number(self) -> int {
        self as int
    }

    open spec fn least() -> int {
        u64::MIN as int
    }

    open spec fn greatest() -> int {
        u64::MAX as int
    }

    proof fn lemma_held(self) {
    }

    fn remainder(self, range: Self) -> (r: Self) {
        self % range
    }

    fn below_zero(self) -> (b: bool) {
        false
    }

    fn moved_by(self, range: Self) -> (r: Self) {
        self + range
    }
}

impl WrapValue for usize {
    open spec fn number(self) -> int {
        self as int
    }

    open spec fn least() -> int {
        usize::MIN as int
    }

    open spec fn greatest() -> int {
        usize::MAX as int
    }

    proof fn lemma_held(self) {
    }

    fn remainder(self, range: Self) -> (r: Self) {
        self % range
    }

    fn below_zero(self) -> (b: bool) {
        false
    }

    fn moved_by(self, range: Self) -> (r: Self) {
        self + range
    }
}

/// Wraps `n` into the given `range`: the remainder of `n` by `range`, moved to the
/// non-negative side when `n` is negative.
pub fn wrap<T: WrapValue>(n: T, range: T) -> (r: T)
    requires
        range.number() != 0,
        !(n.number() == T::least() && range.number() == -1),
        T::least() <= wrap_spec(n.number(), range.number()),
    ensures
        r.number() == wrap_spec(n.number(), range.number()),
        range.number() > 0 ==> r.number() == n.number() % range.number() && 0 <= r.number()
            < range.number(),
{
    proof {
        if range.number() > 0 {
            lemma_wrap_is_modulo(n.number(), range.number());
        }
    }
    let result = n.remainder(range);
    if result.below_zero() {
        proof {
            range.lemma_held();
        }
        result.moved_by(range)
    } else {
        result
    }
}

/// Named colours, and `Other` for a colour given by the bit patterns of its red, green and
/// blue parts.
#[derive(Clone, Copy, Debug)]
pub enum Color {
    Red,
    Green,
    Blue,
    Yellow,
    Orange,
    Purple,
    Cyan,
    Magenta,
    Lime,
    Pink,
    Teal,
    Navy,
    Maroon,
    Olive,
    Brown,
    Black,
    Gray,
    White,
    Other((Scalar, Scalar, Scalar)),
}

impl Color {
    /// Red, green and blue parts of the colour, each the bit pattern of a value between
    /// zero and one for the named colours.
    pub open spec fn rgb(self) -> Seq<u32> {
        match self {
            Color::Red => seq![ONE, ZERO, ZERO],
            Color::Green => seq![ZERO, ONE, ZERO],
            Color::Blue => seq![ZERO, ZERO, ONE],
            Color::Yellow => seq![ONE, ONE, ZERO],
            Color::Orange => seq![ONE, HALF, ZERO],
            Color::Purple => seq![HALF, ZERO, ONE],
            Color::Cyan => seq![ZERO, ONE, ONE],
            Color::Magenta => seq![ONE, ZERO, ONE],
            Color::Lime => seq![HALF, ONE, ZERO],
            Color::Pink => seq![ONE, 0x3F40_0000u32, 0x3F4A_3D71u32],
            Color::Teal => seq![ZERO, HALF, HALF],
            Color::Navy => seq![ZERO, ZERO, HALF],
            Color::Maroon => seq![HALF, ZERO, ZERO],
            Color::Olive => seq![HALF, HALF, ZERO],
            Color::Brown => seq![0x3F19_999Au32, 0x3ECC_CCCDu32, 0x3E4C_CCCDu32],
            Color::Black => seq![ZERO, ZERO, ZERO],
            Color::Gray => seq![HALF, HALF, HALF],
            Color::White => seq![ONE, ONE, ONE],
            Color::Other(rgb) => seq![rgb.0, rgb.1, rgb.2],
        }
    }

    pub fn to_rgb(&self) -> (out: [u32; 3])
        ensures
            out@ == self.rgb(),
    {
        let out: [u32; 3] = match *self {
            Color::Red => [ONE, ZERO, ZERO],
            Color::Green => [ZERO, ONE, ZERO],
            Color::Blue => [ZERO, ZERO, ONE],
            Color::Yellow => [ONE, ONE, ZERO],
            Color::Orange => [ONE, HALF, ZERO],
            Color::Purple => [HALF, ZERO, ONE],
            Color::Cyan => [ZERO, ONE, ONE],
            Color::Magenta => [ONE, ZERO, ONE],
            Color::Lime => [HALF, ONE, ZERO],
            Color::Pink => [ONE, 0x3F40_0000, 0x3F4A_3D71],
            Color::Teal => [ZERO, HALF, HALF],
            Color::Navy => [ZERO, ZERO, HALF],
            Color::Maroon => [HALF, ZERO, ZERO],
            Color::Olive => [HALF, HALF, ZERO],
            Color::Brown => [0x3F19_999A, 0x3ECC_CCCD, 0x3E4C_CCCD],
            Color::Black => [ZERO, ZERO, ZERO],
            Color::Gray => [HALF, HALF, HALF],
            Color::White => [ONE, ONE, ONE],
            Color::Other(rgb) => [rgb.0, rgb.1, rgb.2],
        };
        assert(out@ =~= self.rgb());
        out
    }
}

impl Default for Color {
    fn default() -> (c: Self)
        ensures
            c is Gray,
    {
        Color::Gray
    }
}

/// How the indices of a mesh are grouped: in pairs that form line segments, or in triples
/// that form triangles. `Unset` marks a mesh that is not drawn.
#[derive(Clone, Copy, Debug, PartialEq, Eq, Structural)]
pub enum CellType {
    Unset,
    Line,
    Triangle,
}

impl CellType {
    /// Number under which the cell type travels in messages.
    pub open spec fn code(self) -> int {
        match self {
            CellType::Unset => 0,
            CellType::Line => 1,
            CellType::Triangle => 2,
        }
    }

    /// Cell type that a number stands for; every number but 1 and 2 stands for `Unset`.
    pub open spec fn of_code(c: int) -> CellType {
        if c == 2 {
            CellType::Triangle
        } else if c == 1 {
            CellType::Line
        } else {
            CellType::Unset
        }
    }

    /// Indices per cell: 2 for lines, 3 for triangles.
    pub open spec fn arity(self) -> int {
        match self {
            CellType::Unset => 1,
            CellType::Line => 2,
            CellType::Triangle => 3,
        }
    }
}

impl Default for CellType {
    fn default() -> (c: Self)
        ensures
            c == CellType::Unset,
    {
        CellType::Unset
    }
}

impl From<i32> for CellType {
    fn from(c: i32) -> (out: Self) {
        match c {
            2 => CellType::Triangle,
            1 => CellType::Line,
            _ => CellType::Unset,
        }
    }
}

impl vstd::std_specs::convert::FromSpecImpl<i32> for CellType {
    open spec fn obeys_from_spec() -> bool {
        true
    }

    open spec fn from_spec(c: i32) -> Self {
        CellType::of_code(c as int)
    }
}

impl From<CellType> for i32 {
    fn from(c: CellType) -> (out: Self) {
        match c {
            CellType::Triangle => 2,
            CellType::Line => 1,
            CellType::Unset => 0,
        }
    }
}

impl vstd::std_specs::convert::FromSpecImpl<CellType> for i32 {
    open spec fn obeys_from_spec() -> bool {
        true
    }

    open spec fn from_spec(c: CellType) -> Self {
        c.code() as i32
    }
}

/// A request whose shape can be checked before it reaches the scene.
pub trait Validated {
    /// What makes the request acceptable.
    spec fn valid(&self) -> bool;

    /// Whether the request is acceptable.
    fn is_valid(&self) -> (ok: bool)
        ensures
            ok == self.valid(),
    ;
}

} // verus!
