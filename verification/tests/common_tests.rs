use topohedral_viewer::common::{
    is_positive, less_than, octant, wrap, CellType, Color, Vec3, HALF, INFINITY, ONE, ZERO,
};

fn unit(x: f32, y: f32, z: f32) -> Vec3 {
    let norm = (x * x + y * y + z * z).sqrt();
    Vec3::new((x / norm).to_bits(), (y / norm).to_bits(), (z / norm).to_bits())
}

fn samples() -> Vec<f32> {
    vec![
        0.0,
        -0.0,
        1.0,
        -1.0,
        0.5,
        -0.5,
        1.0e-40,
        -1.0e-40,
        f32::MIN_POSITIVE,
        f32::MAX,
        f32::MIN,
        f32::INFINITY,
        f32::NEG_INFINITY,
        f32::NAN,
        -f32::NAN,
        3.25,
        -7.75,
        1.0e10,
        -1.0e-10,
    ]
}

#[test]
fn wrap_test() {
    assert_eq!(wrap(-3, 3), 0);

    assert_eq!(wrap(-2, 3), 1);

    assert_eq!(wrap(-1, 3), 2);

    assert_eq!(wrap(0, 3), 0);

    assert_eq!(wrap(1, 3), 1);

    assert_eq!(wrap(2, 3), 2);

    assert_eq!(wrap(3, 3), 0);
}

#[test]
fn wrap_is_the_remainder_for_positive_ranges() {
    for range in 1..9 {
        for n in -40i32..40 {
            let r = wrap(n, range);
            assert!(0 <= r && r < range);
            assert_eq!(r, n.rem_euclid(range));
        }
    }
    assert_eq!(wrap(i32::MIN, 7), i32::MIN.rem_euclid(7));
    assert_eq!(wrap(i32::MAX, 7), i32::MAX.rem_euclid(7));
}

#[test]
fn wrap_takes_every_integer_type() {
    assert_eq!(wrap(-3i8, 4i8), 1i8);
    assert_eq!(wrap(-1i16, 4i16), 3i16);
    assert_eq!(wrap(-7i64, 5i64), 3i64);
    assert_eq!(wrap(-1isize, 8isize), 7isize);
    assert_eq!(wrap(i8::MIN, 3i8), i8::MIN.rem_euclid(3));
    assert_eq!(wrap(i64::MIN, 10i64), i64::MIN.rem_euclid(10));
    assert_eq!(wrap(7u8, 4u8), 3u8);
    assert_eq!(wrap(9u16, 4u16), 1u16);
    assert_eq!(wrap(7u32, 4u32), 3u32);
    assert_eq!(wrap(u64::MAX, 10u64), 5u64);
    assert_eq!(wrap(12usize, 5usize), 2usize);
    for octant in 0i8..4 {
        assert_eq!(wrap(octant - 1, 4), (octant + 3) % 4);
    }
}

#[test]
fn wrap_with_a_negative_range() {
    assert_eq!(wrap(5, -3), 2);
    assert_eq!(wrap(-5, -3), -5);
    assert_eq!(wrap(-6, -3), 0);
}

#[test]
fn octant_test() {
    // Octant 0: +x, +y, +z
    let v0 = unit(1.0, 1.0, 1.0);

    assert_eq!(octant(&v0), 0_i8);

    // Octant 1: -x, +y, +z
    let v1 = unit(-1.0, 1.0, 1.0);

    assert_eq!(octant(&v1), 1_i8);

    // Octant 2: -x, -y, +z
    let v2 = unit(-1.0, -1.0, 1.0);

    assert_eq!(octant(&v2), 2_i8);

    // Octant 3: +x, -y, +z
    let v3 = unit(1.0, -1.0, 1.0);

    assert_eq!(octant(&v3), 3_i8);

    // Octant 4: +x, +y, -z
    let v4 = unit(1.0, 1.0, -1.0);

    assert_eq!(octant(&v4), 4_i8);

    // Octant 5: -x, +y, -z
    let v5 = unit(-1.0, 1.0, -1.0);

    assert_eq!(octant(&v5), 5_i8);

    // Octant 6: -x, -y, -z
    let v6 = unit(-1.0, -1.0, -1.0);

    assert_eq!(octant(&v6), 6_i8);

    // Octant 7: +x, -y, -z
    let v7 = unit(1.0, -1.0, -1.0);

    assert_eq!(octant(&v7), 7_i8);
}

#[test]
fn octant_counts_zero_and_nan_as_negative() {
    let zero = Vec3::new(0.0f32.to_bits(), 0.0f32.to_bits(), 0.0f32.to_bits());
    assert_eq!(octant(&zero), 6);
    let nan = Vec3::new(f32::NAN.to_bits(), 1.0f32.to_bits(), 1.0f32.to_bits());
    assert_eq!(octant(&nan), 1);
    let minus_zero = Vec3::new(1.0f32.to_bits(), (-0.0f32).to_bits(), 1.0f32.to_bits());
    assert_eq!(octant(&minus_zero), 3);
}

#[test]
fn positivity_agrees_with_the_numbers() {
    for x in samples() {
        assert_eq!(is_positive(x.to_bits()), x > 0.0, "{}", x);
    }
}

#[test]
fn comparison_agrees_with_the_numbers() {
    for a in samples() {
        for b in samples() {
            assert_eq!(less_than(a.to_bits(), b.to_bits()), a < b, "{} < {}", a, b);
        }
    }
}

#[test]
fn scalar_constants_are_the_patterns_of_their_values() {
    assert_eq!(f32::from_bits(ZERO), 0.0);
    assert_eq!(f32::from_bits(ONE), 1.0);
    assert_eq!(f32::from_bits(HALF), 0.5);
    assert_eq!(f32::from_bits(INFINITY), f32::INFINITY);
}

fn rgb(c: Color) -> [f32; 3] {
    let bits = c.to_rgb();
    [f32::from_bits(bits[0]), f32::from_bits(bits[1]), f32::from_bits(bits[2])]
}

#[test]
fn colors_have_their_rgb_values() {
    assert_eq!(rgb(Color::Red), [1.0, 0.0, 0.0]);
    assert_eq!(rgb(Color::Green), [0.0, 1.0, 0.0]);
    assert_eq!(rgb(Color::Blue), [0.0, 0.0, 1.0]);
    assert_eq!(rgb(Color::Yellow), [1.0, 1.0, 0.0]);
    assert_eq!(rgb(Color::Orange), [1.0, 0.5, 0.0]);
    assert_eq!(rgb(Color::Purple), [0.5, 0.0, 1.0]);
    assert_eq!(rgb(Color::Cyan), [0.0, 1.0, 1.0]);
    assert_eq!(rgb(Color::Magenta), [1.0, 0.0, 1.0]);
    assert_eq!(rgb(Color::Lime), [0.5, 1.0, 0.0]);
    assert_eq!(rgb(Color::Pink), [1.0, 0.75, 0.79]);
    assert_eq!(rgb(Color::Teal), [0.0, 0.5, 0.5]);
    assert_eq!(rgb(Color::Navy), [0.0, 0.0, 0.5]);
    assert_eq!(rgb(Color::Maroon), [0.5, 0.0, 0.0]);
    assert_eq!(rgb(Color::Olive), [0.5, 0.5, 0.0]);
    assert_eq!(rgb(Color::Brown), [0.6, 0.4, 0.2]);
    assert_eq!(rgb(Color::Black), [0.0, 0.0, 0.0]);
    assert_eq!(rgb(Color::Gray), [0.5, 0.5, 0.5]);
    assert_eq!(rgb(Color::White), [1.0, 1.0, 1.0]);
    assert_eq!(
        rgb(Color::Other((0.25f32.to_bits(), 0.125f32.to_bits(), 2.0f32.to_bits()))),
        [0.25, 0.125, 2.0]
    );
    assert_eq!(rgb(Color::default()), [0.5, 0.5, 0.5]);
}

#[test]
fn cell_types_travel_as_numbers() {
    assert_eq!(CellType::from(2), CellType::Triangle);
    assert_eq!(CellType::from(1), CellType::Line);
    assert_eq!(CellType::from(0), CellType::Unset);
    assert_eq!(CellType::from(7), CellType::Unset);
    assert_eq!(CellType::from(-1), CellType::Unset);
    assert_eq!(i32::from(CellType::Triangle), 2);
    assert_eq!(i32::from(CellType::Line), 1);
    assert_eq!(i32::from(CellType::Unset), 0);
    assert_eq!(CellType::default(), CellType::Unset);
    for c in [CellType::Unset, CellType::Line, CellType::Triangle] {
        assert_eq!(CellType::from(i32::from(c)), c);
    }
}
