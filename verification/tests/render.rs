use custom_cursor_overlay::coord::Coord;
use custom_cursor_overlay::region::RectF;
use custom_cursor_overlay::render::{
    badge_pad, fill_rect, frame_fills, premultiply, region_box, text_origin, Color, Fill,
    OverlaySurface, RegionBox,
};

/// Logical pixels as the overlay uses them.
#[derive(Clone, Copy, Debug)]
struct Px(f32);

impl Coord for Px {
    fn from_int(n: i64) -> Self {
        Px(n as f32)
    }
    fn plus(self, other: Self) -> Self {
        Px(self.0 + other.0)
    }
    fn minus(self, other: Self) -> Self {
        Px(self.0 - other.0)
    }
    fn times(self, other: Self) -> Self {
        Px(self.0 * other.0)
    }
    fn over(self, other: Self) -> Self {
        Px(self.0 / other.0)
    }
    fn larger(self, other: Self) -> Self {
        Px(self.0.max(other.0))
    }
    fn magnitude(self) -> Self {
        Px(self.0.abs())
    }
    fn root(self) -> Self {
        Px(self.0.sqrt())
    }
    fn below(self, other: Self) -> bool {
        self.0 < other.0
    }
    fn at_most(self, other: Self) -> bool {
        self.0 <= other.0
    }
    fn equals(self, other: Self) -> bool {
        self.0 == other.0
    }
    fn reads_as(self, other: Self) -> bool {
        format!("{:?}", self.0) == format!("{:?}", other.0)
    }
    fn rounded(self) -> i32 {
        self.0.round() as i32
    }
    fn truncated(self) -> i32 {
        self.0 as i32
    }

    // The names that contracts give the results.
    fn spec_int(n: i64) -> Self {
        Self::from_int(n)
    }
    fn spec_plus(self, other: Self) -> Self {
        self.plus(other)
    }
    fn spec_minus(self, other: Self) -> Self {
        self.minus(other)
    }
    fn spec_times(self, other: Self) -> Self {
        self.times(other)
    }
    fn spec_over(self, other: Self) -> Self {
        self.over(other)
    }
    fn spec_larger(self, other: Self) -> Self {
        self.larger(other)
    }
    fn spec_magnitude(self) -> Self {
        self.magnitude()
    }
    fn spec_root(self) -> Self {
        self.root()
    }
    fn spec_below(self, other: Self) -> bool {
        self.below(other)
    }
    fn spec_at_most(self, other: Self) -> bool {
        self.at_most(other)
    }
    fn spec_equals(self, other: Self) -> bool {
        self.equals(other)
    }
    fn spec_reads_as(self, other: Self) -> bool {
        self.reads_as(other)
    }
    fn spec_rounded(self) -> i32 {
        self.rounded()
    }
    fn spec_truncated(self) -> i32 {
        self.truncated()
    }
}

const BORDER: Color = Color { r: 0, g: 150, b: 255, a: 235 };
const WHITE: Color = Color { r: 255, g: 255, b: 255, a: 255 };
const BADGE: Color = Color { r: 20, g: 20, b: 30, a: 165 };

fn fill(x: i32, y: i32, ww: i32, hh: i32, color: Color) -> Fill {
    Fill { x, y, ww, hh, color }
}

#[test]
fn rectangle_is_filled_in_bgra() {
    let mut buf = vec![9u8; 3 * 2 * 4];
    fill_rect(&mut buf, 3, 2, 1, 0, 2, 1, 10, 20, 30, 40);
    let pixels: Vec<&[u8]> = buf.chunks(4).collect();
    let on: &[u8] = &[30, 20, 10, 40];
    let off: &[u8] = &[9, 9, 9, 9];
    assert_eq!(pixels, vec![off, on, on, off, off, off]);
}

#[test]
fn rectangle_is_clipped_to_the_surface() {
    let mut buf = vec![0u8; 3 * 3 * 4];
    fill_rect(&mut buf, 3, 3, -5, 1, 6, 100, 1, 1, 1, 1);
    let set: Vec<bool> = buf.chunks(4).map(|p| p == [1, 1, 1, 1]).collect();
    assert_eq!(set, vec![false, false, false, true, false, false, true, false, false]);
    let before = buf.clone();
    fill_rect(&mut buf, 3, 3, 3, 0, 5, 5, 2, 2, 2, 2);
    fill_rect(&mut buf, 3, 3, 0, 0, -1, 5, 2, 2, 2, 2);
    fill_rect(&mut buf, 3, 3, 0, -9, 3, 9, 2, 2, 2, 2);
    fill_rect(&mut buf, -3, 3, 0, 0, 3, 3, 2, 2, 2, 2);
    assert_eq!(buf, before);
}

#[test]
fn rectangle_that_reaches_no_pixel_needs_no_buffer() {
    let mut buf: Vec<u8> = Vec::new();
    fill_rect(&mut buf, 10, 10, 20, 20, 5, 5, 1, 2, 3, 4);
    assert!(buf.is_empty());
}

#[test]
fn surface_size_is_at_least_one_pixel() {
    let mut s = OverlaySurface::create(5, 0, -3);
    assert_eq!(s, OverlaySurface { hwnd: 5, w: 1, h: 1 });
    assert!(s.resize(640, 480));
    assert_eq!(s, OverlaySurface { hwnd: 5, w: 640, h: 480 });
    assert!(!s.resize(640, 480));
    assert!(s.resize(0, 0));
    assert!(s.resize(0, 0));
    assert!(!s.resize(1, 1));
}

#[test]
fn later_rectangles_cover_earlier_ones() {
    let s = OverlaySurface::create(1, 3, 1);
    let mut buf = vec![7u8; 12];
    s.draw(&mut buf, &vec![fill(0, 0, 2, 1, BORDER), fill(1, 0, 1, 1, WHITE)]);
    assert_eq!(buf, vec![255, 150, 0, 235, 255, 255, 255, 255, 0, 0, 0, 0]);
}

#[test]
fn premultiplied_pixels() {
    let mut buf = vec![255, 150, 1, 235, 10, 20, 30, 0, 40, 50, 60, 255, 7, 7];
    premultiply(&mut buf);
    assert_eq!(buf, vec![235, 138, 0, 235, 0, 0, 0, 0, 40, 50, 60, 255, 7, 7]);
}

#[test]
fn region_is_scaled_to_physical_pixels() {
    let region = RectF { x: Px(10.5), y: Px(20.0), w: Px(100.3), h: Px(50.0) };
    let b = region_box(&region, Px(1.25));
    assert_eq!(b, RegionBox { rx: 13, ry: 25, rw: 125, rh: 62, border: 3, handle: 15 });
    assert_eq!(badge_pad(Px(1.25)), 10);
    // Tiny scales are raised to a tenth, and decorations keep a least size.
    let tiny = region_box(&region, Px(0.0));
    assert_eq!(tiny, RegionBox { rx: 1, ry: 2, rw: 10, rh: 5, border: 1, handle: 6 });
    assert_eq!(badge_pad(Px(0.0)), 4);
    assert_eq!(badge_pad(2i64), 16);
}

#[test]
fn badge_alone_when_nothing_is_shown() {
    let b = RegionBox { rx: 0, ry: 0, rw: 50, rh: 40, border: 2, handle: 12 };
    let fills = frame_fills(&b, false, false, (100, 16), 8).unwrap();
    assert_eq!(fills, vec![fill(8, 8, 116, 24, BADGE)]);
    assert_eq!(text_origin(8), Some((16, 12)));
}

#[test]
fn outline_has_four_sides() {
    let b = RegionBox { rx: 10, ry: 20, rw: 50, rh: 40, border: 2, handle: 12 };
    let fills = frame_fills(&b, false, true, (0, 0), 4).unwrap();
    assert_eq!(
        fills,
        vec![
            fill(10, 20, 50, 2, BORDER),
            fill(10, 58, 50, 2, BORDER),
            fill(10, 20, 2, 40, BORDER),
            fill(58, 20, 2, 40, BORDER),
            fill(4, 4, 8, 4, BADGE),
        ]
    );
}

#[test]
fn editing_shows_eight_handles() {
    let b = RegionBox { rx: 10, ry: 20, rw: 51, rh: 40, border: 2, handle: 13 };
    let fills = frame_fills(&b, true, false, (0, 0), 4).unwrap();
    assert_eq!(fills.len(), 13);
    let corners: Vec<(i32, i32)> = fills[4..12].iter().map(|f| (f.x, f.y)).collect();
    assert_eq!(
        corners,
        vec![(4, 14), (29, 14), (55, 14), (55, 34), (55, 54), (29, 54), (4, 54), (4, 34)]
    );
    assert!(fills[4..12].iter().all(|f| f.ww == 13 && f.hh == 13 && f.color == WHITE));
}

#[test]
fn coordinates_out_of_range_are_refused() {
    let far = RegionBox { rx: i32::MAX, ry: 0, rw: 1, rh: 1, border: 1, handle: 6 };
    assert!(frame_fills(&far, false, true, (0, 0), 4).is_none());
    assert!(frame_fills(&far, false, false, (0, 0), 4).is_some());
    assert!(frame_fills(&far, false, false, (i32::MAX, 0), 4).is_none());
    assert_eq!(text_origin(i32::MAX), None);
}
