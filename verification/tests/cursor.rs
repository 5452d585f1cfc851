use custom_cursor_overlay::coord::Coord;
use custom_cursor_overlay::cursor::{make_cursor_bitmap, smoothstep};

/// The numbers that the cursor is shaded with.
#[derive(Clone, Copy, Debug)]
struct Real(f64);

impl Coord for Real {
    fn from_int(n: i64) -> Self {
        Real(n as f64)
    }
    fn plus(self, other: Self) -> Self {
        Real(self.0 + other.0)
    }
    fn minus(self, other: Self) -> Self {
        Real(self.0 - other.0)
    }
    fn times(self, other: Self) -> Self {
        Real(self.0 * other.0)
    }
    fn over(self, other: Self) -> Self {
        Real(self.0 / other.0)
    }
    fn larger(self, other: Self) -> Self {
        Real(self.0.max(other.0))
    }
    fn magnitude(self) -> Self {
        Real(self.0.abs())
    }
    fn root(self) -> Self {
        Real(self.0.sqrt())
    }
    fn below(self, other: Self) -> bool {
        self.0 < other.0
    }
    fn at_most(self, other: Self) -> bool {
        self.0 <= other.0
    }
    fn equals(self, other: Self) -> bool {
        self.0 == other.0
    }
    fn reads_as(self, other: Self) -> bool {
        format!("{:?}", self.0) == format!("{:?}", other.0)
    }
    fn rounded(self) -> i32 {
        self.0.round() as i32
    }
    fn truncated(self) -> i32 {
        self.0 as i32
    }

    // The names that contracts give the results.
    fn spec_int(n: i64) -> Self {
        Self::from_int(n)
    }
    fn spec_plus(self, other: Self) -> Self {
        self.plus(other)
    }
    fn spec_minus(self, other: Self) -> Self {
        self.minus(other)
    }
    fn spec_times(self, other: Self) -> Self {
        self.times(other)
    }
    fn spec_over(self, other: Self) -> Self {
        self.over(other)
    }
    fn spec_larger(self, other: Self) -> Self {
        self.larger(other)
    }
    fn spec_magnitude(self) -> Self {
        self.magnitude()
    }
    fn spec_root(self) -> Self {
        self.root()
    }
    fn spec_below(self, other: Self) -> bool {
        self.below(other)
    }
    fn spec_at_most(self, other: Self) -> bool {
        self.at_most(other)
    }
    fn spec_equals(self, other: Self) -> bool {
        self.equals(other)
    }
    fn spec_reads_as(self, other: Self) -> bool {
        self.reads_as(other)
    }
    fn spec_rounded(self) -> i32 {
        self.rounded()
    }
    fn spec_truncated(self) -> i32 {
        self.truncated()
    }
}

fn step(e0: f64, e1: f64, x: f64) -> f64 {
    let t = ((x - e0) / (e1 - e0)).clamp(0.0, 1.0);
    t * t * (3.0 - 2.0 * t)
}

/// The reticle pixel, written out in plain floating point.
fn expected_pixel(size: u32, x: u32, y: u32) -> [u8; 4] {
    let s = size as f64;
    let c = (s - 1.0) / 2.0;
    let (r_out, r_in, dot, edge) = (s * 0.38, s * 0.24, s * 0.08, 1.2);
    let (dx, dy) = (x as f64 - c, y as f64 - c);
    let d = (dx * dx + dy * dy).sqrt();
    let ring = (1.0 - step(r_out - edge, r_out, d)) * step(r_in - edge, r_in, d);
    let outline = (1.0 - step(r_out - edge * 1.7, r_out - edge * 0.5, d)) * ring;
    let dot_a = 1.0 - step(dot - edge * 0.5, dot + edge * 0.5, d);
    let a = (ring * 0.98).clamp(0.0, 1.0).max(dot_a);
    if a <= 0.0 {
        return [0, 0, 0, 0];
    }
    let dark = outline.clamp(0.0, 1.0).max(dot_a.clamp(0.0, 1.0));
    let shade = |v: f64| (255.0 + (v - 255.0) * dark).round() as u8;
    [shade(20.0), shade(24.0), shade(32.0), (a * 255.0).round().clamp(0.0, 255.0) as u8]
}

#[test]
fn bitmap_is_the_shaded_reticle() {
    for size in [1u32, 2, 7, 16, 32, 48] {
        let (px, hot) = make_cursor_bitmap::<Real>(size);
        assert_eq!(px.len(), (size * size * 4) as usize);
        assert_eq!(hot, [(size / 2) as u16, (size / 2) as u16]);
        for y in 0..size {
            for x in 0..size {
                let i = ((y * size + x) * 4) as usize;
                assert_eq!(&px[i..i + 4], &expected_pixel(size, x, y), "{size}: {x}, {y}");
            }
        }
    }
}

#[test]
fn corners_are_transparent_and_the_center_is_dark() {
    let (px, hot) = make_cursor_bitmap::<Real>(32);
    assert_eq!(hot, [16, 16]);
    assert_eq!(&px[0..4], &[0, 0, 0, 0]);
    assert_eq!(&px[(31 * 32 + 31) * 4..], &[0, 0, 0, 0]);
    // The center dot is opaque and has its dark color.
    let center = (15 * 32 + 15) * 4;
    assert_eq!(&px[center..center + 4], &[20, 24, 32, 255]);
}

#[test]
fn empty_bitmap() {
    let (px, hot) = make_cursor_bitmap::<Real>(0);
    assert!(px.is_empty());
    assert_eq!(hot, [0, 0]);
}

#[test]
fn smoothstep_rises_from_zero_to_one() {
    assert_eq!(smoothstep(Real(2.0), Real(4.0), Real(1.0)).0, 0.0);
    assert_eq!(smoothstep(Real(2.0), Real(4.0), Real(5.0)).0, 1.0);
    assert_eq!(smoothstep(Real(2.0), Real(4.0), Real(3.0)).0, 0.5);
    assert_eq!(smoothstep(Real(0.0), Real(1.0), Real(0.25)).0, 0.15625);
}
