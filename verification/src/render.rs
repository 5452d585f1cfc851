//! The pixels of the overlay: the region box, its resize handles and the
//! status badge, drawn into a top-down 32-bit BGRA surface.
//!
//! A frame is a list of filled rectangles, painted one after the other over a
//! transparent surface. The status text is rasterized on top by the system,
//! and the result is premultiplied before it is presented.

use vstd::prelude::*;

use crate::config::HANDLE_SIZE;
use crate::coord;
use crate::coord::{from_ratio, Coord};
use crate::platform;
use crate::platform::premultiply_channel;
use crate::region::RectF;

verus! {

/// A straight (non-premultiplied) color.
#[derive(Clone, Copy, Debug, PartialEq, Eq, Structural)]
pub struct Color {
    pub r: u8,
    pub g: u8,
    pub b: u8,
    pub a: u8,
}

impl Color {
    /// Byte `k` of a pixel in this color.
    pub open spec fn bgra(self, k: int) -> u8 {
        if k == 0 {
            self.b
        } else if k == 1 {
            self.g
        } else if k == 2 {
            self.r
        } else {
            self.a
        }
    }
}

/// Color of the region border.
pub open spec fn border_color() -> Color {
    Color { r: 0, g: 150, b: 255, a: 235 }
}

/// Color of the resize handles.
pub open spec fn handle_color() -> Color {
    Color { r: 255, g: 255, b: 255, a: 255 }
}

/// Color of the status badge.
pub open spec fn badge_color() -> Color {
    Color { r: 20, g: 20, b: 30, a: 165 }
}

// ---------------------------------------------------------------------------
// Filling rectangles
// ---------------------------------------------------------------------------

/// The larger of two integers.
pub open spec fn max_of(a: int, b: int) -> int {
    if a < b {
        b
    } else {
        a
    }
}

/// The smaller of two integers.
pub open spec fn min_of(a: int, b: int) -> int {
    if b < a {
        b
    } else {
        a
    }
}

/// Is `n` an `i32`?
pub open spec fn is_i32(n: int) -> bool {
    i32::MIN <= n <= i32::MAX
}

/// Is byte `k` of a surface `w` pixels wide in the pixel rows `y0..y1` and
/// columns `x0..x1`?
pub open spec fn byte_in(k: int, w: int, x0: int, x1: int, y0: int, y1: int) -> bool {
    x0 <= (k / 4) % w < x1 && y0 <= (k / 4) / w < y1
}

/// The surface `buf`, `w` by `h` pixels, with the rectangle at `(x, y)` of size
/// `ww` by `hh` filled, as far as it lies on the surface.
pub open spec fn filled(
    buf: Seq<u8>,
    w: int,
    h: int,
    x: int,
    y: int,
    ww: int,
    hh: int,
    color: Color,
) -> Seq<u8> {
    Seq::new(
        buf.len(),
        |k: int|
            if w > 0 && byte_in(k, w, x, x + ww, y, y + hh) && (k / 4) / w < h {
                color.bgra(k % 4)
            } else {
                buf[k]
            },
    )
}

/// The number of bytes that a surface needs for the part of the rectangle that
/// lies on it.
pub open spec fn bytes_reached(w: int, h: int, x: int, y: int, ww: int, hh: int) -> int {
    let x1 = min_of(x + ww, w);
    let y1 = min_of(y + hh, h);
    if x1 <= max_of(x, 0) || y1 <= max_of(y, 0) {
        0
    } else {
        ((y1 - 1) * w + x1) * 4
    }
}

/// `before` with the rows `y0..py` and, in row `py`, the columns up to `px`
/// filled.
spec fn swept(
    before: Seq<u8>,
    w: int,
    x0: int,
    x1: int,
    y0: int,
    py: int,
    px: int,
    color: Color,
) -> Seq<u8> {
    Seq::new(
        before.len(),
        |k: int|
            if byte_in(k, w, x0, x1, y0, py) || byte_in(k, w, x0, px, py, py + 1) {
                color.bgra(k % 4)
            } else {
                before[k]
            },
    )
}

proof fn lemma_byte_position(k: int, w: int, row: int, col: int)
    requires
        0 < w,
        0 <= col < w,
        0 <= row,
        0 <= k,
    ensures
        0 <= row * w,
        (k / 4) / w == row && (k / 4) % w == col <==> (row * w + col) * 4 <= k < (row * w + col) * 4
            + 4,
{
    assert(0 <= row * w) by (nonlinear_arith)
        requires
            0 <= row,
            0 < w,
    ;
    let p = k / 4;
    if p == row * w + col {
        vstd::arithmetic::div_mod::lemma_fundamental_div_mod_converse(p, w, row, col);
    }
    vstd::arithmetic::div_mod::lemma_fundamental_div_mod(p, w);
    if p / w == row && p % w == col {
        assert(w * row == row * w) by (nonlinear_arith);
    }
}

proof fn lemma_sweep_pixel(
    before: Seq<u8>,
    now: Seq<u8>,
    next: Seq<u8>,
    w: int,
    x0: int,
    x1: int,
    y0: int,
    py: int,
    px: int,
    color: Color,
)
    requires
        0 < w,
        0 <= x0 <= px < x1 <= w,
        0 <= y0 <= py,
        (py * w + px) * 4 + 4 <= before.len(),
        now == swept(before, w, x0, x1, y0, py, px, color),
        next == now.update((py * w + px) * 4, color.b).update(
            (py * w + px) * 4 + 1,
            color.g,
        ).update((py * w + px) * 4 + 2, color.r).update((py * w + px) * 4 + 3, color.a),
    ensures
        next == swept(before, w, x0, x1, y0, py, px + 1, color),
{
    let i = (py * w + px) * 4;
    let goal = swept(before, w, x0, x1, y0, py, px + 1, color);
    lemma_byte_position(0, w, py, px);
    assert forall|k: int| 0 <= k < before.len() implies next[k] == goal[k] by {
        lemma_byte_position(k, w, py, px);
        if i <= k < i + 4 {
            assert(k % 4 == k - i);
        }
    }
    assert(next =~= goal);
}

/// Fill a rectangle with a straight color, clipped to the surface.
pub fn fill_rect(
    buf: &mut [u8],
    w: i32,
    h: i32,
    x: i32,
    y: i32,
    ww: i32,
    hh: i32,
    r: u8,
    g: u8,
    b: u8,
    a: u8,
)
    requires
        is_i32(x + ww),
        is_i32(y + hh),
        bytes_reached(w as int, h as int, x as int, y as int, ww as int, hh as int) <= old(
            buf,
        )@.len(),
    ensures
        final(buf)@ == filled(
            old(buf)@,
            w as int,
            h as int,
            x as int,
            y as int,
            ww as int,
            hh as int,
            (Color { r, g, b, a }),
        ),
{
    let x0: i32 = if x < 0 {
        0
    } else {
        x
    };
    let y0: i32 = if y < 0 {
        0
    } else {
        y
    };
    let x1: i32 = if x + ww < w {
        x + ww
    } else {
        w
    };
    let y1: i32 = if y + hh < h {
        y + hh
    } else {
        h
    };
    let ghost before = buf@;
    let ghost color = Color { r, g, b, a };
    let ghost goal = filled(
        before,
        w as int,
        h as int,
        x as int,
        y as int,
        ww as int,
        hh as int,
        color,
    );
    if x1 <= x0 || y1 <= y0 {
        proof {
            assert forall|k: int| 0 <= k < before.len() implies before[k] == goal[k] by {
                if w > 0 {
                    lemma_position_bounds(k, w as int);
                }
            }
            assert(before =~= goal);
        }
        return;
    }
    proof {
        assert forall|k: int| 0 <= k < before.len() implies before[k] == swept(
            before,
            w as int,
            x0 as int,
            x1 as int,
            y0 as int,
            y0 as int,
            x0 as int,
            color,
        )[k] by {}
        assert(before =~= swept(
            before,
            w as int,
            x0 as int,
            x1 as int,
            y0 as int,
            y0 as int,
            x0 as int,
            color,
        ));
    }
    let len: usize = buf.len();
    let mut py: i32 = y0;
    while py < y1
        invariant
            0 <= x0 < x1 <= w,
            0 <= y0 <= py <= y1,
            ((y1 - 1) * w + x1) * 4 <= before.len(),
            before.len() == len,
            color == (Color { r, g, b, a }),
            buf@ == swept(
                before,
                w as int,
                x0 as int,
                x1 as int,
                y0 as int,
                py as int,
                x0 as int,
                color,
            ),
        decreases y1 - py,
    {
        proof {
            assert(0 <= py * w && py * w <= (y1 - 1) * w) by (nonlinear_arith)
                requires
                    0 <= py <= y1 - 1,
                    0 < w,
            ;
        }
        let row: usize = py as usize * w as usize;
        let mut px: i32 = x0;
        while px < x1
            invariant
                0 <= x0 <= px <= x1 <= w,
                x0 < x1,
                0 <= y0 <= py < y1,
                row == py * w,
                0 <= py * w <= (y1 - 1) * w,
                ((y1 - 1) * w + x1) * 4 <= before.len(),
                before.len() == len,
                color == (Color { r, g, b, a }),
                buf@ == swept(
                    before,
                    w as int,
                    x0 as int,
                    x1 as int,
                    y0 as int,
                    py as int,
                    px as int,
                    color,
                ),
            decreases x1 - px,
        {
            let i: usize = (row + px as usize) * 4;
            let ghost now = buf@;
            buf[i] = b;
            buf[i + 1] = g;
            buf[i + 2] = r;
            buf[i + 3] = a;
            proof {
                lemma_sweep_pixel(
                    before,
                    now,
                    buf@,
                    w as int,
                    x0 as int,
                    x1 as int,
                    y0 as int,
                    py as int,
                    px as int,
                    color,
                );
            }
            px = px + 1;
        }
        proof {
            let full = swept(
                before,
                w as int,
                x0 as int,
                x1 as int,
                y0 as int,
                py as int,
                x1 as int,
                color,
            );
            let next = swept(
                before,
                w as int,
                x0 as int,
                x1 as int,
                y0 as int,
                py + 1,
                x0 as int,
                color,
            );
            assert(full =~= next);
        }
        py = py + 1;
    }
    proof {
        assert forall|k: int| 0 <= k < before.len() implies buf@[k] == goal[k] by {
            lemma_position_bounds(k, w as int);
        }
        assert(buf@ =~= goal);
    }
}

proof fn lemma_position_bounds(k: int, w: int)
    requires
        0 <= k,
        0 < w,
    ensures
        0 <= (k / 4) % w < w,
        0 <= (k / 4) / w,
{
    let p = k / 4;
    vstd::arithmetic::div_mod::lemma_mod_bound(p, w);
    vstd::arithmetic::div_mod::lemma_div_pos_is_pos(p, w);
}

// ---------------------------------------------------------------------------
// Frames
// ---------------------------------------------------------------------------

/// A rectangle to be filled.
#[derive(Clone, Copy, Debug, PartialEq, Eq, Structural)]
pub struct Fill {
    pub x: i32,
    pub y: i32,
    pub ww: i32,
    pub hh: i32,
    pub color: Color,
}

impl Fill {
    /// Do the far edges fit the coordinate range?
    pub open spec fn in_range(self) -> bool {
        is_i32(self.x + self.ww) && is_i32(self.y + self.hh)
    }

    /// Does the rectangle cover byte `k` of a surface `w` by `h` pixels?
    pub open spec fn covers(self, k: int, w: int, h: int) -> bool {
        &&& byte_in(k, w, self.x as int, self.x + self.ww, self.y as int, self.y + self.hh)
        &&& (k / 4) / w < h
    }

    /// The surface with this rectangle filled.
    pub open spec fn painted(self, buf: Seq<u8>, w: int, h: int) -> Seq<u8> {
        filled(
            buf,
            w,
            h,
            self.x as int,
            self.y as int,
            self.ww as int,
            self.hh as int,
            self.color,
        )
    }
}

/// The surface with all rectangles filled, one after the other.
pub open spec fn painted_all(buf: Seq<u8>, w: int, h: int, fills: Seq<Fill>) -> Seq<u8>
    decreases fills.len(),
{
    if fills.len() == 0 {
        buf
    } else {
        fills.last().painted(painted_all(buf, w, h, fills.drop_last()), w, h)
    }
}

/// A transparent surface.
pub open spec fn blank(len: nat) -> Seq<u8> {
    Seq::new(len, |k: int| 0u8)
}

/// The size of the overlay's surface and the window it belongs to.
#[derive(Clone, Copy, Debug, PartialEq, Eq, Structural)]
pub struct OverlaySurface {
    /// The overlay window.
    pub hwnd: usize,
    /// Width in pixels, at least one.
    pub w: i32,
    /// Height in pixels, at least one.
    pub h: i32,
}

impl OverlaySurface {
    /// A surface always has pixels.
    pub open spec fn wf(self) -> bool {
        self.w >= 1 && self.h >= 1
    }

    /// The surface for a window of `w` by `h` pixels.
    pub open spec fn spec_create(hwnd: usize, w: i32, h: i32) -> OverlaySurface {
        OverlaySurface { hwnd, w: max_of(w as int, 1) as i32, h: max_of(h as int, 1) as i32 }
    }

    /// The surface for a window of `w` by `h` pixels: at least one pixel in
    /// each direction.
    pub fn create(hwnd: usize, w: i32, h: i32) -> (r: OverlaySurface)
        ensures
            r == OverlaySurface::spec_create(hwnd, w, h),
            r.wf(),
    {
        OverlaySurface {
            hwnd,
            w: if w < 1 {
                1
            } else {
                w
            },
            h: if h < 1 {
                1
            } else {
                h
            },
        }
    }

    /// Adapt to a new window size. Returns whether the bitmap has to be
    /// created anew; a surface that already has the size is kept.
    pub fn resize(&mut self, w: i32, h: i32) -> (r: bool)
        ensures
            r == !(old(self).w == w && old(self).h == h),
            *final(self) == (if r {
                OverlaySurface::spec_create(old(self).hwnd, w, h)
            } else {
                *old(self)
            }),
    {
        if self.w == w && self.h == h {
            return false;
        }
        *self = OverlaySurface::create(self.hwnd, w, h);
        true
    }

    /// Draw a frame: clear the surface, then fill the rectangles in order.
    pub fn draw(&self, buf: &mut [u8], fills: &Vec<Fill>)
        requires
            self.wf(),
            self.w * self.h * 4 <= old(buf)@.len(),
            forall|i: int| 0 <= i < fills@.len() ==> (#[trigger] fills@[i]).in_range(),
        ensures
            final(buf)@ == painted_all(
                blank(old(buf)@.len()),
                self.w as int,
                self.h as int,
                fills@,
            ),
    {
        let n: usize = buf.len();
        let mut k: usize = 0;
        while k < n
            invariant
                n == buf@.len(),
                k <= n,
                forall|j: int| 0 <= j < k ==> buf@[j] == 0,
            decreases n - k,
        {
            buf[k] = 0;
            k = k + 1;
        }
        proof {
            assert(buf@ =~= blank(n as nat));
            assert(fills@.take(0) =~= Seq::<Fill>::empty());
        }
        let mut i: usize = 0;
        while i < fills.len()
            invariant
                i <= fills@.len(),
                n == buf@.len(),
                self.wf(),
                self.w * self.h * 4 <= n,
                forall|j: int| 0 <= j < fills@.len() ==> (#[trigger] fills@[j]).in_range(),
                buf@ == painted_all(
                    blank(n as nat),
                    self.w as int,
                    self.h as int,
                    fills@.take(i as int),
                ),
            decreases fills@.len() - i,
        {
            let f = fills[i];
            assert(f == fills@[i as int]);
            proof {
                lemma_surface_reaches(*self, f);
                assert(fills@.take(i + 1).drop_last() =~= fills@.take(i as int));
                assert(fills@.take(i + 1).last() == f);
            }
            fill_rect(
                buf,
                self.w,
                self.h,
                f.x,
                f.y,
                f.ww,
                f.hh,
                f.color.r,
                f.color.g,
                f.color.b,
                f.color.a,
            );
            i = i + 1;
        }
        assert(fills@.take(i as int) =~= fills@);
    }
}

proof fn lemma_surface_reaches(s: OverlaySurface, f: Fill)
    requires
        s.wf(),
    ensures
        bytes_reached(
            s.w as int,
            s.h as int,
            f.x as int,
            f.y as int,
            f.ww as int,
            f.hh as int,
        ) <= s.w * s.h * 4,
{
    let (w, h) = (s.w as int, s.h as int);
    let x1 = min_of(f.x + f.ww, w);
    let y1 = min_of(f.y + f.hh, h);
    assert(0 <= w * h) by (nonlinear_arith)
        requires
            0 <= w,
            0 <= h,
    ;
    if 0 < y1 && 0 < x1 {
        assert((y1 - 1) * w + x1 <= w * h) by (nonlinear_arith)
            requires
                0 < y1 <= h,
                0 < x1 <= w,
        ;
    }
}

/// Each byte of a frame shows the last rectangle that covers it, and is
/// transparent where none does.
pub proof fn law_last_fill_wins(len: nat, w: int, h: int, fills: Seq<Fill>, k: int)
    requires
        0 < w,
        0 <= k < len,
    ensures
        ({
            let shown = painted_all(blank(len), w, h, fills)[k];
            &&& (forall|i: int| 0 <= i < fills.len() ==> !(#[trigger] fills[i]).covers(k, w, h))
                ==> shown == 0
            &&& forall|i: int|
                #![trigger fills[i]]
                0 <= i < fills.len() && fills[i].covers(k, w, h) && (forall|j: int|
                    i < j < fills.len() ==> !(#[trigger] fills[j]).covers(k, w, h)) ==> shown
                    == fills[i].color.bgra(k % 4)
        }),
    decreases fills.len(),
{
    if fills.len() > 0 {
        let rest = fills.drop_last();
        law_last_fill_wins(len, w, h, rest, k);
        lemma_painted_len(len, w, h, rest);
        let last = fills[fills.len() - 1];
        assert(forall|i: int| 0 <= i < rest.len() ==> #[trigger] rest[i] == fills[i]);
        if !last.covers(k, w, h) {
            assert forall|i: int|
                #![trigger fills[i]]
                0 <= i < fills.len() && fills[i].covers(k, w, h) && (forall|j: int|
                    i < j < fills.len() ==> !(#[trigger] fills[j]).covers(k, w, h)) implies painted_all(
                blank(len),
                w,
                h,
                fills,
            )[k] == fills[i].color.bgra(k % 4) by {
                assert(rest[i] == fills[i]);
            }
        }
    }
}

proof fn lemma_painted_len(len: nat, w: int, h: int, fills: Seq<Fill>)
    ensures
        painted_all(blank(len), w, h, fills).len() == len,
    decreases fills.len(),
{
    if fills.len() > 0 {
        lemma_painted_len(len, w, h, fills.drop_last());
    }
}

/// The premultiplied bytes of a surface of straight BGRA pixels; bytes after
/// the last whole pixel stay as they are.
pub open spec fn premultiplied_surface(buf: Seq<u8>) -> Seq<u8> {
    Seq::new(
        buf.len(),
        |k: int|
            if k / 4 * 4 + 4 > buf.len() || k % 4 == 3 {
                buf[k]
            } else {
                platform::premultiplied(buf[k], buf[k / 4 * 4 + 3])
            },
    )
}

/// Multiply the color channels of every pixel by its opacity.
pub fn premultiply(buf: &mut [u8])
    ensures
        final(buf)@ == premultiplied_surface(old(buf)@),
{
    let ghost before = buf@;
    let n: usize = buf.len();
    let mut i: usize = 0;
    while n - i >= 4
        invariant
            n == buf@.len(),
            n == before.len(),
            i <= n,
            i % 4 == 0,
            forall|k: int|
                0 <= k < n ==> buf@[k] == (if k < i {
                    premultiplied_surface(before)[k]
                } else {
                    before[k]
                }),
        decreases n - i,
    {
        let ghost now = buf@;
        let a = buf[i + 3];
        if a == 0 {
            buf[i] = 0;
            buf[i + 1] = 0;
            buf[i + 2] = 0;
        } else {
            let (c0, c1, c2) = (buf[i], buf[i + 1], buf[i + 2]);
            buf[i] = premultiply_channel(c0, a);
            buf[i + 1] = premultiply_channel(c1, a);
            buf[i + 2] = premultiply_channel(c2, a);
        }
        proof {
            assert forall|k: int| 0 <= k < n implies buf@[k] == (if k < i + 4 {
                premultiplied_surface(before)[k]
            } else {
                before[k]
            }) by {
                if i <= k < i + 4 {
                    assert(k / 4 * 4 == i);
                    platform::law_premultiplied_is_bounded(before[k], a);
                } else {
                    assert(buf@[k] == now[k]);
                }
            }
        }
        i = i + 4;
    }
    assert(buf@ =~= premultiplied_surface(before));
}

/// What is presented is properly premultiplied: no color channel exceeds the
/// opacity of its pixel, so transparent pixels are all zero, and opaque pixels
/// keep their color.
pub proof fn law_presented_pixels(buf: Seq<u8>, p: int, k: int)
    requires
        0 <= p,
        p * 4 + 4 <= buf.len(),
        0 <= k < 3,
    ensures
        ({
            let out = premultiplied_surface(buf);
            &&& out[p * 4 + 3] == buf[p * 4 + 3]
            &&& out[p * 4 + k] <= out[p * 4 + 3]
            &&& buf[p * 4 + 3] == 255 ==> out[p * 4 + k] == buf[p * 4 + k]
        }),
{
    let i = p * 4 + k;
    assert(i / 4 * 4 == p * 4 && i % 4 == k);
    assert((p * 4 + 3) % 4 == 3);
    platform::law_premultiplied_is_bounded(buf[i], buf[p * 4 + 3]);
}

// ---------------------------------------------------------------------------
// Layout
// ---------------------------------------------------------------------------

/// The region in physical pixels, with the widths of its decorations.
#[derive(Clone, Copy, Debug, PartialEq, Eq, Structural)]
pub struct RegionBox {
    pub rx: i32,
    pub ry: i32,
    pub rw: i32,
    pub rh: i32,
    /// Width of the border.
    pub border: i32,
    /// Size of a resize handle.
    pub handle: i32,
}

/// The scale factor as it is used: never below a tenth.
pub open spec fn effective_scale<T: Coord>(scale: T) -> T {
    scale.spec_larger(coord::ratio(1, 10))
}

/// `n` logical pixels in whole physical pixels, but at least `least`.
pub open spec fn scaled<T: Coord>(n: i64, s: T, least: i32) -> i32 {
    max_of(T::spec_int(n).spec_times(s).spec_rounded() as int, least as int) as i32
}

fn to_scaled<T: Coord>(n: i64, s: T, least: i32) -> (r: i32)
    ensures
        r == scaled(n, s, least),
{
    let v: i32 = T::from_int(n).times(s).rounded();
    if v < least {
        least
    } else {
        v
    }
}

/// The region in physical pixels: positions and extents are cut off to whole
/// pixels, decorations are rounded.
pub open spec fn spec_region_box<T: Coord>(region: RectF<T>, scale: T) -> RegionBox {
    let s = effective_scale(scale);
    RegionBox {
        rx: region.x.spec_times(s).spec_truncated(),
        ry: region.y.spec_times(s).spec_truncated(),
        rw: region.w.spec_times(s).spec_truncated(),
        rh: region.h.spec_times(s).spec_truncated(),
        border: scaled(2, s, 1),
        handle: scaled(HANDLE_SIZE, s, 6),
    }
}

/// The region in physical pixels.
pub fn region_box<T: Coord>(region: &RectF<T>, scale: T) -> (r: RegionBox)
    ensures
        r == spec_region_box(*region, scale),
{
    let s = scale.larger(from_ratio(1, 10));
    RegionBox {
        rx: region.x.times(s).truncated(),
        ry: region.y.times(s).truncated(),
        rw: region.w.times(s).truncated(),
        rh: region.h.times(s).truncated(),
        border: to_scaled(2, s, 1),
        handle: to_scaled(HANDLE_SIZE, s, 6),
    }
}

/// Padding of the status badge.
pub open spec fn spec_badge_pad<T: Coord>(scale: T) -> i32 {
    scaled(8, effective_scale(scale), 4)
}

/// Padding of the status badge.
pub fn badge_pad<T: Coord>(scale: T) -> (r: i32)
    ensures
        r == spec_badge_pad(scale),
{
    to_scaled(8, scale.larger(from_ratio(1, 10)), 4)
}

/// A rectangle to be filled, in coordinates that may leave the range.
pub struct WideFill {
    pub x: int,
    pub y: int,
    pub ww: int,
    pub hh: int,
    pub color: Color,
}

impl WideFill {
    /// Do all coordinates, and those of the far edges, fit the range?
    pub open spec fn in_range(self) -> bool {
        &&& is_i32(self.x) && is_i32(self.y) && is_i32(self.ww) && is_i32(self.hh)
        &&& is_i32(self.x + self.ww) && is_i32(self.y + self.hh)
    }

    /// The same rectangle in coordinates of the range.
    pub open spec fn narrow(self) -> Fill {
        Fill {
            x: self.x as i32,
            y: self.y as i32,
            ww: self.ww as i32,
            hh: self.hh as i32,
            color: self.color,
        }
    }
}

impl RegionBox {
    /// A resize handle centered at `(cx, cy)`.
    pub open spec fn handle_at(self, cx: int, cy: int) -> WideFill {
        let half = coord::quotient(self.handle as int, 2);
        WideFill {
            x: cx - half,
            y: cy - half,
            ww: self.handle as int,
            hh: self.handle as int,
            color: handle_color(),
        }
    }

    /// The four sides of the border: top, bottom, left, right.
    pub open spec fn border_fills(self) -> Seq<WideFill> {
        let (rx, ry, rw, rh, bw) = (
            self.rx as int,
            self.ry as int,
            self.rw as int,
            self.rh as int,
            self.border as int,
        );
        let color = border_color();
        seq![
            WideFill { x: rx, y: ry, ww: rw, hh: bw, color },
            WideFill { x: rx, y: ry + rh - bw, ww: rw, hh: bw, color },
            WideFill { x: rx, y: ry, ww: bw, hh: rh, color },
            WideFill { x: rx + rw - bw, y: ry, ww: bw, hh: rh, color },
        ]
    }

    /// The eight resize handles, clockwise from the top left corner.
    pub open spec fn handle_fills(self) -> Seq<WideFill> {
        let (x0, y0) = (self.rx as int, self.ry as int);
        let (x1, y1) = (self.rx + self.rw, self.ry + self.rh);
        let xm = self.rx + coord::quotient(self.rw as int, 2);
        let ym = self.ry + coord::quotient(self.rh as int, 2);
        seq![
            self.handle_at(x0, y0),
            self.handle_at(xm, y0),
            self.handle_at(x1, y0),
            self.handle_at(x1, ym),
            self.handle_at(x1, y1),
            self.handle_at(xm, y1),
            self.handle_at(x0, y1),
            self.handle_at(x0, ym),
        ]
    }
}

/// The status badge for a text of `cx` by `cy` pixels.
pub open spec fn badge_fill(cx: int, cy: int, pad: int) -> WideFill {
    WideFill { x: pad, y: pad, ww: cx + pad * 2, hh: cy + pad, color: badge_color() }
}

/// The rectangles of a frame: the region border if it is shown or edited, its
/// handles if it is edited, and the status badge.
pub open spec fn frame(
    b: RegionBox,
    editing: bool,
    show_region: bool,
    text: (i32, i32),
    pad: i32,
) -> Seq<WideFill> {
    (if show_region || editing {
        b.border_fills()
    } else {
        seq![]
    }) + (if editing {
        b.handle_fills()
    } else {
        seq![]
    }) + seq![badge_fill(text.0 as int, text.1 as int, pad as int)]
}

/// Are all rectangles in range?
pub open spec fn all_in_range(fills: Seq<WideFill>) -> bool {
    forall|i: int| 0 <= i < fills.len() ==> (#[trigger] fills[i]).in_range()
}

/// All rectangles in coordinates of the range.
pub open spec fn narrowed(fills: Seq<WideFill>) -> Seq<Fill> {
    Seq::new(fills.len(), |i: int| fills[i].narrow())
}

/// A rectangle to be filled, in coordinates that hold every sum of a few `i32`.
struct LongFill {
    x: i64,
    y: i64,
    ww: i64,
    hh: i64,
    color: Color,
}

impl View for LongFill {
    type V = WideFill;

    closed spec fn view(&self) -> WideFill {
        WideFill {
            x: self.x as int,
            y: self.y as int,
            ww: self.ww as int,
            hh: self.hh as int,
            color: self.color,
        }
    }
}

impl LongFill {
    spec fn small(self) -> bool {
        &&& -0x4_0000_0000 <= self.x <= 0x4_0000_0000
        &&& -0x4_0000_0000 <= self.y <= 0x4_0000_0000
        &&& -0x4_0000_0000 <= self.ww <= 0x4_0000_0000
        &&& -0x4_0000_0000 <= self.hh <= 0x4_0000_0000
    }
}

spec fn wide(fills: Seq<LongFill>) -> Seq<WideFill> {
    Seq::new(fills.len(), |i: int| fills[i]@)
}

spec fn all_small(fills: Seq<LongFill>) -> bool {
    forall|i: int| 0 <= i < fills.len() ==> (#[trigger] fills[i]).small()
}

fn is_short(n: i64) -> (r: bool)
    ensures
        r == is_i32(n as int),
{
    -0x8000_0000i64 <= n && n <= 0x7fff_ffffi64
}

fn half_of(n: i32) -> (r: i64)
    ensures
        r == coord::quotient(n as int, 2),
{
    if n < 0 {
        -((-(n as i64)) / 2)
    } else {
        n as i64 / 2
    }
}

fn push_border(out: &mut Vec<LongFill>, b: &RegionBox)
    requires
        all_small(old(out)@),
    ensures
        wide(final(out)@) == wide(old(out)@) + b.border_fills(),
        all_small(final(out)@),
{
    let (rx, ry, rw, rh, bw) = (
        b.rx as i64,
        b.ry as i64,
        b.rw as i64,
        b.rh as i64,
        b.border as i64,
    );
    let color = Color { r: 0, g: 150, b: 255, a: 235 };
    out.push(LongFill { x: rx, y: ry, ww: rw, hh: bw, color });
    out.push(LongFill { x: rx, y: ry + rh - bw, ww: rw, hh: bw, color });
    out.push(LongFill { x: rx, y: ry, ww: bw, hh: rh, color });
    out.push(LongFill { x: rx + rw - bw, y: ry, ww: bw, hh: rh, color });
    assert(wide(out@) =~= wide(old(out)@) + b.border_fills());
}

fn push_handle(out: &mut Vec<LongFill>, b: &RegionBox, cx: i64, cy: i64)
    requires
        all_small(old(out)@),
        -0x2_0000_0000 <= cx <= 0x2_0000_0000,
        -0x2_0000_0000 <= cy <= 0x2_0000_0000,
    ensures
        wide(final(out)@) == wide(old(out)@).push(b.handle_at(cx as int, cy as int)),
        all_small(final(out)@),
{
    let hs: i64 = b.handle as i64;
    let half: i64 = half_of(b.handle);
    let color = Color { r: 255, g: 255, b: 255, a: 255 };
    out.push(LongFill { x: cx - half, y: cy - half, ww: hs, hh: hs, color });
    assert(wide(out@) =~= wide(old(out)@).push(b.handle_at(cx as int, cy as int)));
}

fn push_handles(out: &mut Vec<LongFill>, b: &RegionBox)
    requires
        all_small(old(out)@),
    ensures
        wide(final(out)@) == wide(old(out)@) + b.handle_fills(),
        all_small(final(out)@),
{
    let (x0, y0) = (b.rx as i64, b.ry as i64);
    let (x1, y1) = (b.rx as i64 + b.rw as i64, b.ry as i64 + b.rh as i64);
    let (xm, ym) = (b.rx as i64 + half_of(b.rw), b.ry as i64 + half_of(b.rh));
    push_handle(out, b, x0, y0);
    push_handle(out, b, xm, y0);
    push_handle(out, b, x1, y0);
    push_handle(out, b, x1, ym);
    push_handle(out, b, x1, y1);
    push_handle(out, b, xm, y1);
    push_handle(out, b, x0, y1);
    push_handle(out, b, x0, ym);
    assert(wide(out@) =~= wide(old(out)@) + b.handle_fills());
}

/// The rectangles of a frame, in the order in which they are filled: the
/// region border if it is shown or edited, its handles if it is edited, and
/// the status badge around a text of `text` pixels. `None` if a coordinate
/// leaves the range.
pub fn frame_fills(
    b: &RegionBox,
    editing: bool,
    show_region: bool,
    text: (i32, i32),
    pad: i32,
) -> (r: Option<Vec<Fill>>)
    ensures
        r is Some <==> all_in_range(frame(*b, editing, show_region, text, pad)),
        r matches Some(v) ==> v@ == narrowed(frame(*b, editing, show_region, text, pad)),
        r matches Some(v) ==> forall|i: int| 0 <= i < v@.len() ==> (#[trigger] v@[i]).in_range(),
{
    let ghost goal = frame(*b, editing, show_region, text, pad);
    let mut long: Vec<LongFill> = Vec::new();
    if show_region || editing {
        push_border(&mut long, b);
    }
    if editing {
        push_handles(&mut long, b);
    }
    let p: i64 = pad as i64;
    long.push(
        LongFill {
            x: p,
            y: p,
            ww: text.0 as i64 + p * 2,
            hh: text.1 as i64 + p,
            color: Color { r: 20, g: 20, b: 30, a: 165 },
        },
    );
    assert(wide(long@) =~= goal);
    let mut out: Vec<Fill> = Vec::new();
    let mut i: usize = 0;
    while i < long.len()
        invariant
            i <= long@.len(),
            out@.len() == i,
            all_small(long@),
            goal == frame(*b, editing, show_region, text, pad),
            wide(long@) == goal,
            forall|j: int| 0 <= j < i ==> (#[trigger] goal[j]).in_range(),
            forall|j: int| 0 <= j < i ==> #[trigger] out@[j] == goal[j].narrow(),
        decreases long@.len() - i,
    {
        let f = &long[i];
        assert(long@[i as int].small());
        assert(goal[i as int] == f@);
        let ok = is_short(f.x) && is_short(f.y) && is_short(f.ww) && is_short(f.hh) && is_short(
            f.x + f.ww,
        ) && is_short(f.y + f.hh);
        if !ok {
            assert(!goal[i as int].in_range());
            return None;
        }
        out.push(
            Fill {
                x: f.x as i32,
                y: f.y as i32,
                ww: f.ww as i32,
                hh: f.hh as i32,
                color: f.color,
            },
        );
        i = i + 1;
    }
    assert(out@ =~= narrowed(goal));
    Some(out)
}

/// Where the status text starts inside its badge. `None` if a coordinate leaves
/// the range.
pub fn text_origin(pad: i32) -> (r: Option<(i32, i32)>)
    ensures
        r == (if is_i32(pad + pad) {
            Some(((pad + pad) as i32, (pad + coord::quotient(pad as int, 2)) as i32))
        } else {
            None
        }),
{
    let (x, y) = (pad as i64 + pad as i64, pad as i64 + half_of(pad));
    if is_short(x) {
        Some((x as i32, y as i32))
    } else {
        None
    }
}

// ---------------------------------------------------------------------------
// More laws
// ---------------------------------------------------------------------------

/// Filling a rectangle colors exactly the pixels of the surface that lie in it,
/// each in the order blue, green, red, opacity, and leaves all others alone.
pub proof fn law_fill_colors_its_pixels(
    buf: Seq<u8>,
    w: int,
    h: int,
    at: (int, int),
    size: (int, int),
    color: Color,
    col: int,
    row: int,
)
    requires
        0 <= col < w,
        0 <= row,
        (row * w + col) * 4 + 4 <= buf.len(),
    ensures
        ({
            let out = filled(buf, w, h, at.0, at.1, size.0, size.1, color);
            let i = (row * w + col) * 4;
            let inside = at.0 <= col < at.0 + size.0 && at.1 <= row < at.1 + size.1 && row < h;
            &&& out.len() == buf.len()
            &&& inside ==> out[i] == color.b && out[i + 1] == color.g && out[i + 2] == color.r
                && out[i + 3] == color.a
            &&& !inside ==> out[i] == buf[i] && out[i + 1] == buf[i + 1] && out[i + 2] == buf[i + 2]
                && out[i + 3] == buf[i + 3]
        }),
{
    let i = (row * w + col) * 4;
    lemma_byte_position(0, w, row, col);
    lemma_byte_position(i, w, row, col);
    lemma_byte_position(i + 1, w, row, col);
    lemma_byte_position(i + 2, w, row, col);
    lemma_byte_position(i + 3, w, row, col);
}

/// A rectangle covers the bytes of the pixels that lie in it and on the
/// surface.
pub proof fn law_fill_covers_its_pixels(f: Fill, w: int, h: int, col: int, row: int, k: int)
    requires
        0 <= col < w,
        0 <= row,
        0 <= k < 4,
    ensures
        f.covers((row * w + col) * 4 + k, w, h) <==> f.x <= col < f.x + f.ww && f.y <= row < f.y
            + f.hh && row < h,
{
    lemma_byte_position(0, w, row, col);
    lemma_byte_position((row * w + col) * 4 + k, w, row, col);
}

/// Rectangles are painted one over the other, starting from nothing.
pub proof fn law_fills_are_painted_in_order(
    buf: Seq<u8>,
    w: int,
    h: int,
    fills: Seq<Fill>,
    f: Fill,
    len: nat,
)
    ensures
        painted_all(buf, w, h, Seq::empty()) == buf,
        painted_all(buf, w, h, fills.push(f)) == filled(
            painted_all(buf, w, h, fills),
            w,
            h,
            f.x as int,
            f.y as int,
            f.ww as int,
            f.hh as int,
            f.color,
        ),
        blank(len).len() == len,
        forall|k: int| 0 <= k < len ==> #[trigger] blank(len)[k] == 0,
{
    assert(fills.push(f).drop_last() =~= fills);
}

/// A surface has the size of its window, but at least one pixel each way.
pub proof fn law_surface_has_the_window_size(hwnd: usize, w: i32, h: i32)
    ensures
        ({
            let s = OverlaySurface::spec_create(hwnd, w, h);
            &&& s.hwnd == hwnd
            &&& w >= 1 ==> s.w == w
            &&& w < 1 ==> s.w == 1
            &&& h >= 1 ==> s.h == h
            &&& h < 1 ==> s.h == 1
        }),
{
}

/// Presenting multiplies every color byte by the opacity of its own pixel, as a
/// fraction of 255 cut off to a whole number, and leaves the opacity and what
/// comes after the last whole pixel alone.
pub proof fn law_presented_fraction(buf: Seq<u8>, i: int)
    requires
        0 <= i < buf.len(),
    ensures
        ({
            let out = premultiplied_surface(buf);
            let a = i - i % 4 + 3;
            &&& out.len() == buf.len()
            &&& i % 4 == 3 || a >= buf.len() ==> out[i] == buf[i]
            &&& i % 4 != 3 && a < buf.len() ==> out[i] * 255 <= buf[i] * buf[a] < out[i] * 255 + 255
        }),
{
    let a = i - i % 4 + 3;
    assert(i / 4 * 4 + 3 == a);
    if a < buf.len() {
        platform::law_premultiplied_is_the_fraction(buf[i], buf[a]);
    }
}

/// The region box in physical pixels, for every number type: positions and
/// extents times the scale factor, cut off; the border is 2 and a handle 12
/// logical pixels, rounded, but at least 1 and 6 physical ones; the badge has 8
/// logical pixels of padding, at least 4 physical ones.
pub proof fn law_region_box_is_scaled<T: Coord>(region: RectF<T>, scale: T)
    ensures
        ({
            let s = scale.spec_larger(T::spec_int(1).spec_over(T::spec_int(10)));
            let b = spec_region_box(region, scale);
            let border = T::spec_int(2).spec_times(s).spec_rounded();
            let handle = T::spec_int(12).spec_times(s).spec_rounded();
            let pad = T::spec_int(8).spec_times(s).spec_rounded();
            &&& b.rx == region.x.spec_times(s).spec_truncated()
            &&& b.ry == region.y.spec_times(s).spec_truncated()
            &&& b.rw == region.w.spec_times(s).spec_truncated()
            &&& b.rh == region.h.spec_times(s).spec_truncated()
            &&& b.border >= 1 && b.border >= border && (b.border == 1 || b.border == border)
            &&& b.handle >= 6 && b.handle >= handle && (b.handle == 6 || b.handle == handle)
            &&& spec_badge_pad(scale) >= 4 && spec_badge_pad(scale) >= pad && (spec_badge_pad(scale)
                == 4 || spec_badge_pad(scale) == pad)
        }),
{
}

/// The scale factor is used as it is, unless it is below a tenth.
pub proof fn law_scale_factor<T: Coord>(scale: T)
    ensures
        effective_scale(scale) == scale.spec_larger(T::spec_int(1).spec_over(T::spec_int(10))),
{
}

/// In whole pixels and unscaled, the box is the region itself.
pub proof fn law_unscaled_box_is_the_region(region: RectF<i64>)
    requires
        is_i32(region.x as int) && is_i32(region.y as int) && is_i32(region.w as int) && is_i32(
            region.h as int,
        ),
    ensures
        spec_region_box(region, 1i64) == (RegionBox {
            rx: region.x as i32,
            ry: region.y as i32,
            rw: region.w as i32,
            rh: region.h as i32,
            border: 2,
            handle: 12,
        }),
        spec_badge_pad(1i64) == 8,
{
    let (one, ten) = (coord::absolute(1), coord::absolute(10));
    assert(one / ten == 0) by (nonlinear_arith)
        requires
            one == 1,
            ten == 10,
    ;
    assert(effective_scale(1i64) == 1);
    assert(forall|n: i64| #[trigger] n.spec_times(1i64) == n);
}

/// The border is drawn along the inside of the box: a point is on one of its
/// four sides exactly if it is in the box and nearer than the border's width to
/// one of its edges.
pub proof fn law_border_runs_along_the_edges(b: RegionBox, px: int, py: int)
    requires
        0 <= b.border <= b.rw,
        b.border <= b.rh,
    ensures
        ({
            let sides = b.border_fills();
            let on = |f: WideFill| f.x <= px < f.x + f.ww && f.y <= py < f.y + f.hh;
            let in_box = b.rx <= px < b.rx + b.rw && b.ry <= py < b.ry + b.rh;
            &&& sides.len() == 4
            &&& on(sides[0]) || on(sides[1]) || on(sides[2]) || on(sides[3]) <==> in_box && (px
                < b.rx + b.border || px >= b.rx + b.rw - b.border || py < b.ry + b.border || py
                >= b.ry + b.rh - b.border)
            &&& forall|i: int| 0 <= i < 4 ==> (#[trigger] sides[i]).color == (Color {
                r: 0,
                g: 150,
                b: 255,
                a: 235,
            })
        }),
{
}

/// The four sides of the border, each by itself.
pub proof fn law_border_sides(b: RegionBox)
    ensures
        ({
            let s = b.border_fills();
            &&& s.len() == 4
            &&& s[0].x == b.rx && s[0].y == b.ry && s[0].ww == b.rw && s[0].hh == b.border
            &&& s[1].x == b.rx && s[1].y + s[1].hh == b.ry + b.rh && s[1].ww == b.rw && s[1].hh
                == b.border
            &&& s[2].x == b.rx && s[2].y == b.ry && s[2].ww == b.border && s[2].hh == b.rh
            &&& s[3].x + s[3].ww == b.rx + b.rw && s[3].y == b.ry && s[3].ww == b.border && s[3].hh
                == b.rh
        }),
{
}

/// The handles are white squares centered at the corners of the box and at the
/// middles of its sides, clockwise from the top left one.
pub proof fn law_handles_sit_on_the_box(b: RegionBox, i: int)
    requires
        0 <= i < 8,
        b.handle >= 0 && b.rw >= 0 && b.rh >= 0,
    ensures
        ({
            let f = b.handle_fills()[i];
            let cx = f.x + b.handle as int / 2;
            let cy = f.y + b.handle as int / 2;
            &&& b.handle_fills().len() == 8
            &&& f.ww == b.handle && f.hh == b.handle
            &&& f.color == (Color { r: 255, g: 255, b: 255, a: 255 })
            &&& i == 0 || i == 6 || i == 7 ==> cx == b.rx
            &&& i == 1 || i == 5 ==> cx == b.rx + b.rw as int / 2
            &&& i == 2 || i == 3 || i == 4 ==> cx == b.rx + b.rw
            &&& i == 0 || i == 1 || i == 2 ==> cy == b.ry
            &&& i == 3 || i == 7 ==> cy == b.ry + b.rh as int / 2
            &&& i == 4 || i == 5 || i == 6 ==> cy == b.ry + b.rh
        }),
{
}

/// What a frame shows: the border if it is shown or edited, the handles while it
/// is edited, and the status badge in any case, on top of all.
pub proof fn law_what_a_frame_shows(
    b: RegionBox,
    editing: bool,
    show_region: bool,
    text: (i32, i32),
    pad: i32,
    i: int,
)
    ensures
        ({
            let all = frame(b, editing, show_region, text, pad);
            let badge = all.last();
            &&& all.len() == 1 + (if editing || show_region {
                4int
            } else {
                0
            }) + (if editing {
                8int
            } else {
                0
            })
            &&& badge.x == pad && badge.y == pad
            &&& badge.ww == text.0 + 2 * pad && badge.hh == text.1 + pad
            &&& badge.color == (Color { r: 20, g: 20, b: 30, a: 165 })
            &&& (editing || show_region) && 0 <= i < 4 ==> all[i] == b.border_fills()[i]
            &&& editing && 0 <= i < 8 ==> all[4 + i] == b.handle_fills()[i]
        }),
{
}

/// A frame can be drawn if all its rectangles, far edges included, are in the
/// coordinate range, and is then drawn with the very same numbers.
pub proof fn law_frames_in_range(fills: Seq<WideFill>, i: int)
    requires
        0 <= i < fills.len(),
    ensures
        ({
            let f = fills[i];
            let n = narrowed(fills)[i];
            &&& narrowed(fills).len() == fills.len()
            &&& all_in_range(fills) ==> n.x == f.x && n.y == f.y && n.ww == f.ww && n.hh == f.hh
                && n.color == f.color
            &&& !(i32::MIN <= f.x <= i32::MAX && i32::MIN <= f.y <= i32::MAX && i32::MIN <= f.ww
                <= i32::MAX && i32::MIN <= f.hh <= i32::MAX && i32::MIN <= f.x + f.ww <= i32::MAX
                && i32::MIN <= f.y + f.hh <= i32::MAX) ==> !all_in_range(fills)
            &&& (forall|j: int|
                #![trigger fills[j]]
                0 <= j < fills.len() ==> i32::MIN <= fills[j].x <= i32::MAX && i32::MIN <= fills[j].y
                    <= i32::MAX && i32::MIN <= fills[j].ww <= i32::MAX && i32::MIN <= fills[j].hh
                    <= i32::MAX && i32::MIN <= fills[j].x + fills[j].ww <= i32::MAX && i32::MIN
                    <= fills[j].y + fills[j].hh <= i32::MAX) ==> all_in_range(fills)
        }),
{
    assert(fills[i].in_range() || !fills[i].in_range());
}

/// The text starts inside its badge: one padding from the left side of the badge
/// and half a padding from its top, wherever that can be expressed.
pub proof fn law_text_starts_inside_the_badge(pad: i32, origin: Option<(i32, i32)>)
    requires
        pad >= 0,
        call_ensures(text_origin, (pad,), origin),
    ensures
        origin is Some <==> 2 * pad <= i32::MAX,
        origin matches Some((x, y)) ==> x == pad + pad && y == pad + pad as int / 2,
{
}

} // verus!
