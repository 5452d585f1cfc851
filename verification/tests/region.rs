use custom_cursor_overlay::config::default_region;
use custom_cursor_overlay::coord::{clamp, from_ratio, Coord};
use custom_cursor_overlay::region::{full, EditDrag, EditMode, RectF};

/// Logical pixels as the overlay uses them.
#[derive(Clone, Copy, Debug)]
struct Px(f32);

impl Coord for Px {
    fn from_int(n: i64) -> Self {
        Px(n as f32)
    }
    fn plus(self, other: Self) -> Self {
        Px(self.0 + other.0)
    }
    fn minus(self, other: Self) -> Self {
        Px(self.0 - other.0)
    }
    fn times(self, other: Self) -> Self {
        Px(self.0 * other.0)
    }
    fn over(self, other: Self) -> Self {
        Px(self.0 / other.0)
    }
    fn larger(self, other: Self) -> Self {
        Px(self.0.max(other.0))
    }
    fn magnitude(self) -> Self {
        Px(self.0.abs())
    }
    fn root(self) -> Self {
        Px(self.0.sqrt())
    }
    fn below(self, other: Self) -> bool {
        self.0 < other.0
    }
    fn at_most(self, other: Self) -> bool {
        self.0 <= other.0
    }
    fn equals(self, other: Self) -> bool {
        self.0 == other.0
    }
    fn reads_as(self, other: Self) -> bool {
        format!("{:?}", self.0) == format!("{:?}", other.0)
    }
    fn rounded(self) -> i32 {
        self.0.round() as i32
    }
    fn truncated(self) -> i32 {
        self.0 as i32
    }

    // The names that contracts give the results.
    fn spec_int(n: i64) -> Self {
        Self::from_int(n)
    }
    fn spec_plus(self, other: Self) -> Self {
        self.plus(other)
    }
    fn spec_minus(self, other: Self) -> Self {
        self.minus(other)
    }
    fn spec_times(self, other: Self) -> Self {
        self.times(other)
    }
    fn spec_over(self, other: Self) -> Self {
        self.over(other)
    }
    fn spec_larger(self, other: Self) -> Self {
        self.larger(other)
    }
    fn spec_magnitude(self) -> Self {
        self.magnitude()
    }
    fn spec_root(self) -> Self {
        self.root()
    }
    fn spec_below(self, other: Self) -> bool {
        self.below(other)
    }
    fn spec_at_most(self, other: Self) -> bool {
        self.at_most(other)
    }
    fn spec_equals(self, other: Self) -> bool {
        self.equals(other)
    }
    fn spec_reads_as(self, other: Self) -> bool {
        self.reads_as(other)
    }
    fn spec_rounded(self) -> i32 {
        self.rounded()
    }
    fn spec_truncated(self) -> i32 {
        self.truncated()
    }
}

fn rect(x: f32, y: f32, w: f32, h: f32) -> RectF<Px> {
    RectF { x: Px(x), y: Px(y), w: Px(w), h: Px(h) }
}

fn numbers(r: RectF<Px>) -> (f32, f32, f32, f32) {
    (r.x.0, r.y.0, r.w.0, r.h.0)
}

fn drag(mode: EditMode, region: RectF<Px>) -> EditDrag<Px> {
    EditDrag { mode, sx: Px(100.0), sy: Px(100.0), region }
}

fn dragged(mode: EditMode, region: RectF<Px>, dx: f32, dy: f32) -> (f32, f32, f32, f32) {
    numbers(drag(mode, region).dragged(Px(100.0 + dx), Px(100.0 + dy), Px(800.0), Px(600.0)))
}

#[test]
fn contains_has_half_open_edges() {
    let r = rect(10.5, 20.0, 100.0, 50.0);
    assert!(r.contains(Px(10.5), Px(20.0)));
    assert!(!r.contains(Px(10.4), Px(20.0)));
    assert!(r.contains(Px(110.4), Px(69.9)));
    assert!(!r.contains(Px(110.5), Px(30.0)));
    assert!(!r.contains(Px(50.0), Px(70.0)));
}

#[test]
fn every_grab_zone() {
    let r = rect(100.0, 100.0, 200.0, 100.0);
    let cases = [
        (95.5, 110.0, Some(EditMode::ResizeNW)),
        (300.0, 114.0, Some(EditMode::ResizeNE)),
        (86.0, 200.0, Some(EditMode::ResizeSW)),
        (310.0, 190.0, Some(EditMode::ResizeSE)),
        (100.0, 150.0, Some(EditMode::ResizeW)),
        (312.5, 150.0, Some(EditMode::ResizeE)),
        (200.0, 90.0, Some(EditMode::ResizeN)),
        (200.0, 210.0, Some(EditMode::ResizeS)),
        (200.0, 150.0, Some(EditMode::Move)),
        (200.0, 214.5, None),
        (85.5, 150.0, None),
    ];
    for (x, y, mode) in cases {
        assert_eq!(r.grab_mode(Px(x), Px(y)), mode, "at {x}, {y}");
    }
}

#[test]
fn small_region_prefers_north_west() {
    let r = rect(100.0, 100.0, 10.0, 10.0);
    assert_eq!(r.grab_mode(Px(105.0), Px(105.0)), Some(EditMode::ResizeNW));
}

#[test]
fn moving_is_held_in_the_window() {
    let r = rect(50.0, 60.0, 200.0, 100.0);
    assert_eq!(dragged(EditMode::Move, r, 10.25, -5.5), (60.25, 54.5, 200.0, 100.0));
    assert_eq!(dragged(EditMode::Move, r, -500.0, 900.0), (0.0, 500.0, 200.0, 100.0));
    assert_eq!(dragged(EditMode::Move, r, 900.0, -900.0), (600.0, 0.0, 200.0, 100.0));
}

#[test]
fn each_edge_and_corner_is_dragged() {
    let r = rect(50.0, 60.0, 200.0, 100.0);
    assert_eq!(dragged(EditMode::ResizeE, r, 10.0, 7.0), (50.0, 60.0, 210.0, 100.0));
    assert_eq!(dragged(EditMode::ResizeS, r, 10.0, 7.0), (50.0, 60.0, 200.0, 107.0));
    assert_eq!(dragged(EditMode::ResizeW, r, 10.0, 7.0), (60.0, 60.0, 190.0, 100.0));
    assert_eq!(dragged(EditMode::ResizeN, r, 10.0, 7.0), (50.0, 67.0, 200.0, 93.0));
    assert_eq!(dragged(EditMode::ResizeNE, r, 10.0, 7.0), (50.0, 67.0, 210.0, 93.0));
    assert_eq!(dragged(EditMode::ResizeNW, r, 10.0, 7.0), (60.0, 67.0, 190.0, 93.0));
    assert_eq!(dragged(EditMode::ResizeSE, r, 10.0, 7.0), (50.0, 60.0, 210.0, 107.0));
    assert_eq!(dragged(EditMode::ResizeSW, r, 10.0, 7.0), (60.0, 60.0, 190.0, 107.0));
}

#[test]
fn resizing_stops_at_the_minimum() {
    let r = rect(50.0, 60.0, 200.0, 100.0);
    assert_eq!(dragged(EditMode::ResizeE, r, -500.0, 0.0), (50.0, 60.0, 24.0, 100.0));
    assert_eq!(dragged(EditMode::ResizeNW, r, 500.0, 500.0), (226.0, 136.0, 24.0, 24.0));
    // The left edge is held in the window although the width still grows.
    assert_eq!(dragged(EditMode::ResizeW, r, -80.0, 0.0), (0.0, 60.0, 280.0, 100.0));
}

#[test]
fn whole_pixels_saturate() {
    assert_eq!(i64::MAX.plus(1), i64::MAX);
    assert_eq!(i64::MIN.minus(1), i64::MIN);
    assert_eq!(i64::MIN.times(-1), i64::MAX);
    assert_eq!(i64::MIN.magnitude(), i64::MAX);
    assert_eq!((-7).over(2), -3);
    assert_eq!(7.over(-2), -3);
    assert_eq!((-7).over(-2), 3);
    assert_eq!(5.over(0), i64::MAX);
    assert_eq!((-5).over(0), i64::MIN);
    assert_eq!(0.over(0), 0);
    assert_eq!(i64::MIN.over(-1), i64::MAX);
    assert_eq!(99.root(), 9);
    assert_eq!(100.root(), 10);
    assert_eq!(i64::MAX.root(), 3_037_000_499);
    assert_eq!((-4).root(), 0);
    assert_eq!(5_000_000_000.rounded(), i32::MAX);
    assert_eq!((-5_000_000_000).truncated(), i32::MIN);
    assert_eq!(3.larger(8), 8);
    assert_eq!(i64::from_int(-3), -3);
    assert_eq!(from_ratio::<i64>(1, 10), 0);
    assert_eq!(clamp(11i64, 0, 10), 10);
    assert_eq!(clamp(-1i64, 0, 10), 0);
    assert_eq!(clamp(5i64, 0, 10), 5);
}

#[test]
fn whole_pixel_drag_keeps_the_right_edge() {
    let region = RectF { x: 50, y: 60, w: 200, h: 100 };
    let d = EditDrag { mode: EditMode::ResizeSW, sx: 50, sy: 160, region };
    let nr = d.dragged(90, 130, 800, 600);
    assert_eq!((nr.x, nr.y, nr.w, nr.h), (90, 60, 160, 70));
    assert!(!nr.equals(&region));
    let still = d.dragged(50, 160, 800, 600);
    assert!(still.equals(&region));
    assert!(still.reads_as(&region));
}

#[test]
fn whole_pixel_grab_zone_is_fourteen_wide() {
    let r = RectF { x: 100i64, y: 100, w: 200, h: 100 };
    assert_eq!(r.grab_mode(86, 150), Some(EditMode::ResizeW));
    assert_eq!(r.grab_mode(85, 150), None);
    assert_eq!(r.grab_mode(200, 214), Some(EditMode::ResizeS));
    assert_eq!(r.grab_mode(200, 215), None);
}

#[test]
fn preset_regions() {
    assert_eq!(numbers(default_region()), (300.0, 200.0, 1320.0, 680.0));
    assert_eq!(numbers(full(Px(640.5), Px(480.0))), (0.0, 0.0, 640.5, 480.0));
}

#[test]
fn a_tenth_is_the_nearest_number() {
    assert_eq!(from_ratio::<Px>(1, 10).0, 0.1f32);
}

#[test]
fn floating_point_numbers_are_ordered() {
    let samples: Vec<Px> = [
        f32::NAN,
        f32::NEG_INFINITY,
        f32::MIN,
        -24.5,
        -0.0,
        0.0,
        f32::MIN_POSITIVE,
        24.0,
        1920.25,
        f32::MAX,
        f32::INFINITY,
    ]
    .map(Px)
    .to_vec();
    let is_number = |x: Px| x.at_most(x);
    for n in [i64::MIN, -1, 0, 24, i64::MAX] {
        assert!(is_number(Px::from_int(n)));
    }
    for &a in &samples {
        assert!(a.reads_as(a));
        for &b in &samples {
            assert!(!a.at_most(b) || is_number(a) && is_number(b));
            assert!(!a.below(b) || a.at_most(b));
            assert!(!(is_number(a) && is_number(b)) || a.below(b) || b.at_most(a));
            assert!(!a.equals(b) || a.at_most(b) && b.at_most(a));
            assert!(!is_number(b) || b.at_most(a.larger(b)));
            assert!(!b.at_most(a) || a.larger(b).at_most(a));
            for &c in &samples {
                assert!(!(a.at_most(b) && b.at_most(c)) || a.at_most(c));
            }
        }
    }
}

#[test]
fn dragged_fractions_keep_their_bounds() {
    let modes = [
        EditMode::Move,
        EditMode::ResizeN,
        EditMode::ResizeS,
        EditMode::ResizeE,
        EditMode::ResizeW,
        EditMode::ResizeNE,
        EditMode::ResizeNW,
        EditMode::ResizeSE,
        EditMode::ResizeSW,
    ];
    let r = rect(50.25, 60.5, 200.125, 100.75);
    for mode in modes {
        for d in [-1e30f32, -700.3, -0.1, 0.0, 0.7, 333.3, 1e30] {
            let (x, y, w, h) = dragged(mode, r, d, -d);
            assert!(w >= 24.0 && h >= 24.0, "{mode:?} by {d}");
            assert!((0.0..=776.0).contains(&x) && (0.0..=576.0).contains(&y), "{mode:?} by {d}");
            if mode == EditMode::Move {
                assert_eq!((w, h), (200.125, 100.75));
                assert!(x <= 800.0 - w && y <= 600.0 - h, "moved by {d}");
            }
        }
    }
}
