use pattern_engine::color::{Color, BLACK, BLUE, CYAN, GREEN, MAGENTA, RED, WHITE, YELLOW};
use pattern_engine::coord::Coord;
use pattern_engine::math::{floor_div, is_even_i64, isqrt_u128};
use pattern_engine::pattern::{
    make_pattern, make_pattern_fill, make_solid_fill, PatternNode, ShapeKind,
};
use pattern_engine::render::render;

// Raw fixed-point units: 48000 per 1.0 of coordinate space.
const SCALE: i64 = 48000;

fn c(raw: i64) -> Coord {
    Coord::new(raw)
}

fn checker_green_yellow() -> PatternNode {
    let green = Color::from_packed(GREEN);
    let yellow = Color::from_packed(YELLOW);
    make_pattern(
        make_solid_fill(green),
        make_solid_fill(yellow),
        ShapeKind::Checker,
    )
}

#[test]
fn rgb_packs_channels() {
    assert_eq!(Color::rgb(255, 0, 0).packed(), RED);
    assert_eq!(Color::rgb(0, 255, 0).packed(), GREEN);
    assert_eq!(Color::rgb(255, 0, 255).packed(), MAGENTA);
    assert_eq!(Color::rgb(255, 255, 255).packed(), WHITE);
    assert_eq!(Color::rgb(0, 0, 0).packed(), BLACK);
    assert_eq!(Color::rgb(0, 0, 255).packed(), BLUE);
    assert_eq!(Color::rgb(255, 255, 0).packed(), YELLOW);
    assert_eq!(Color::rgb(0, 255, 255).packed(), CYAN);
    assert_eq!(Color::from_packed(CYAN).packed(), CYAN);
    assert_eq!(Color::rgb(1, 2, 3).packed(), 65536 + 2 * 256 + 3);
}

#[test]
fn color_equality_is_exact() {
    assert_eq!(Color::rgb(10, 20, 30), Color::rgb(10, 20, 30));
    assert_ne!(Color::rgb(10, 20, 30), Color::rgb(10, 20, 31));
}

// Repeated evaluation of the same tree at the same coordinates gives
// identical colors.
#[test]
fn purity_repeated_calls() {
    let p = checker_green_yellow();
    let sub = make_pattern(
        make_pattern_fill(checker_green_yellow()),
        make_solid_fill(Color::from_packed(CYAN)),
        ShapeKind::Rings,
    );
    for raw in [-9600i64, -3000, 0, 2400, 9600, 14400] {
        let first = p.color(c(raw), c(raw / 2));
        let second = p.color(c(raw), c(raw / 2));
        assert_eq!(first, second);
        let first_nested = sub.color(c(raw), c(raw / 2));
        let second_nested = sub.color(c(raw), c(raw / 2));
        assert_eq!(first_nested, second_nested);
    }
}

// Checker at (0, 0): x = 0, y = 0, sum even -> GREEN.
// Checker at (0.2, 0): x = floor(1.6) = 1, y = 0, sum odd -> YELLOW.
#[test]
fn checker_correctness() {
    let p = checker_green_yellow();
    assert_eq!(p.color(c(0), c(0)).packed(), GREEN);
    assert_eq!(p.color(c(SCALE / 5), c(0)).packed(), YELLOW);
}

// Stripes at u = 0: stripe 0, even -> BLACK.
// Stripes just past 1/24: stripe 1, odd -> MAGENTA, whatever v is.
#[test]
fn stripe_correctness() {
    let p = make_pattern(
        make_solid_fill(Color::from_packed(BLACK)),
        make_solid_fill(Color::from_packed(MAGENTA)),
        ShapeKind::Stripes,
    );
    for v in [-123456i64, -2400, 0, 7, 48000] {
        assert_eq!(p.color(c(0), c(v)).packed(), BLACK);
        // 0.05 = 1/20 lies inside stripe 1 (1/24 <= u < 2/24).
        assert_eq!(p.color(c(SCALE / 20), c(v)).packed(), MAGENTA);
    }
}

// Rings at (0, 0): d = 0, even -> fill a.
// Rings at (1/16, 0): d = 1, odd -> fill b.
#[test]
fn ring_correctness() {
    let a = Color::rgb(1, 2, 3);
    let b = Color::rgb(4, 5, 6);
    let p = make_pattern(make_solid_fill(a), make_solid_fill(b), ShapeKind::Rings);
    assert_eq!(p.color(c(0), c(0)), a);
    assert_eq!(p.color(c(SCALE / 16), c(0)), b);
    // Rings are symmetric: the same radius on the negative axis.
    assert_eq!(p.color(c(-SCALE / 16), c(0)), b);
}

// Negative coordinates must floor toward negative infinity and test
// parity with a genuine modulo: at u = -0.2, x = floor(-1.6) = -2, which
// is even -> GREEN. A sign-following remainder would misclassify this
// cell as odd. The mirrored cell at u = 0.1375 has x = 1, odd -> YELLOW:
// parity alternates across the origin instead of reflecting.
#[test]
fn negative_coordinate_parity() {
    let p = checker_green_yellow();
    assert_eq!(p.color(c(-SCALE / 5), c(0)).packed(), GREEN);
    let mirrored: i64 = SCALE / 5 - SCALE / 16;  // 0.2 - 0.0625 = 0.1375
    assert_eq!(p.color(c(mirrored), c(0)).packed(), YELLOW);
}

// Stripes and rings also see negative scaled values inside the visible
// [-0.5, 0.5) field; banding continues monotonically across the origin.
#[test]
fn negative_stripe_parity() {
    let p = make_pattern(
        make_solid_fill(Color::from_packed(BLACK)),
        make_solid_fill(Color::from_packed(MAGENTA)),
        ShapeKind::Stripes,
    );
    // u = -0.05: stripe floor(-1.2) = -2, even -> BLACK.
    assert_eq!(p.color(c(-SCALE / 20), c(0)).packed(), BLACK);
    // u = -1/24 exactly: stripe -1, odd -> MAGENTA.
    assert_eq!(p.color(c(-SCALE / 24), c(0)).packed(), MAGENTA);
}

// A nested pattern is evaluated at the same (u, v) as its parent, not at
// rescaled coordinates: inside the even ring band at u = 0.15 the nested
// checker sees cell floor(8 * 0.15) = 1, odd -> YELLOW. (A rescaled
// evaluation at ring-local coordinates would land in cell 0 and pick
// GREEN instead.)
#[test]
fn nesting_keeps_coordinates() {
    let root = make_pattern(
        make_pattern_fill(checker_green_yellow()),
        make_solid_fill(Color::from_packed(CYAN)),
        ShapeKind::Rings,
    );
    // (0.3, 0): ring floor(4.8) = 4, even -> checker; cell 2 + 0, even -> GREEN.
    assert_eq!(root.color(c(14400), c(0)).packed(), GREEN);
    // (0.15, 0): ring floor(2.4) = 2, even -> checker; cell 1 + 0, odd -> YELLOW.
    assert_eq!(root.color(c(7200), c(0)).packed(), YELLOW);
    // (0.2, 0): ring floor(3.2) = 3, odd -> the solid fill.
    assert_eq!(root.color(c(9600), c(0)).packed(), CYAN);
}

// Rendering the same tree to the same-sized grid twice produces
// byte-identical buffers, and each cell is the direct evaluation at the
// conventional screen coordinates.
#[test]
fn render_is_deterministic() {
    let tree = || {
        make_pattern(
            make_pattern_fill(checker_green_yellow()),
            make_solid_fill(Color::from_packed(MAGENTA)),
            ShapeKind::Rings,
        )
    };
    let first = render(&tree(), 32, 24);
    let second = render(&tree(), 32, 24);
    assert_eq!(first, second);
    assert_eq!(first.len(), 32 * 24);

    let p = tree();
    for y in 0..24usize {
        for x in 0..32usize {
            let u = Coord::from_grid(x, 32);
            let v = Coord::from_grid(y, 32);
            assert_eq!(first[y * 32 + x], p.color(u, v).packed());
        }
    }
}

#[test]
fn grid_coordinates_span_centered_field() {
    // The conventional mapping i / extent - 1/2.
    assert_eq!(Coord::from_grid(0, 400).raw, -SCALE / 2);
    assert_eq!(Coord::from_grid(200, 400).raw, 0);
    assert_eq!(Coord::from_grid(100, 400).raw, -SCALE / 4);
    assert_eq!(Coord::from_grid(399, 400).raw, 399 * (SCALE / 400) - SCALE / 2);
}

#[test]
fn floor_division_rounds_down() {
    assert_eq!(floor_div(9600, 6000), 1);
    assert_eq!(floor_div(-9600, 6000), -2);
    assert_eq!(floor_div(-12000, 6000), -2);
    assert_eq!(floor_div(0, 6000), 0);
    assert_eq!(floor_div(5999, 6000), 0);
    assert_eq!(floor_div(-1, 6000), -1);
}

#[test]
fn parity_handles_negatives() {
    assert!(is_even_i64(0));
    assert!(is_even_i64(-2));
    assert!(is_even_i64(-9223372036854775808));
    assert!(!is_even_i64(-3));
    assert!(!is_even_i64(7));
}

#[test]
fn integer_square_roots() {
    assert_eq!(isqrt_u128(0), 0);
    assert_eq!(isqrt_u128(1), 1);
    assert_eq!(isqrt_u128(3), 1);
    assert_eq!(isqrt_u128(4), 2);
    assert_eq!(isqrt_u128(9600 * 9600), 9600);
    assert_eq!(isqrt_u128(9600 * 9600 + 1), 9600);
    assert_eq!(isqrt_u128(u128::MAX), u64::MAX);
}
