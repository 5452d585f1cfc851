//! Cursor bitmap generation.
//!
//! The custom cursor is a reticle (ring and center dot) in straight RGBA, from
//! which the program around this library builds a native cursor.

use vstd::prelude::*;

use crate::coord;
use crate::coord::{clamp, from_ratio, Coord};

verus! {

/// Smooth Hermite step from 0 at `e0` to 1 at `e1`.
pub open spec fn spec_smoothstep<T: Coord>(e0: T, e1: T, x: T) -> T {
    let t = coord::clamped(
        x.spec_minus(e0).spec_over(e1.spec_minus(e0)),
        T::spec_int(0),
        T::spec_int(1),
    );
    t.spec_times(t).spec_times(T::spec_int(3).spec_minus(T::spec_int(2).spec_times(t)))
}

/// Smooth Hermite step from 0 at `e0` to 1 at `e1`.
pub fn smoothstep<T: Coord>(e0: T, e1: T, x: T) -> (r: T)
    ensures
        r == spec_smoothstep(e0, e1, x),
{
    let t = clamp(x.minus(e0).over(e1.minus(e0)), T::from_int(0), T::from_int(1));
    t.times(t).times(T::from_int(3).minus(T::from_int(2).times(t)))
}

/// A number rounded to a byte, saturating.
pub open spec fn spec_byte<T: Coord>(x: T) -> u8 {
    if x.spec_rounded() < 0 {
        0
    } else if x.spec_rounded() > 255 {
        255
    } else {
        x.spec_rounded() as u8
    }
}

fn byte<T: Coord>(x: T) -> (r: u8)
    ensures
        r == spec_byte(x),
{
    let n: i32 = x.rounded();
    if n < 0 {
        0
    } else if n > 255 {
        255
    } else {
        n as u8
    }
}

/// The distance of pixel `(x, y)` from the center of a `size` by `size` bitmap.
pub open spec fn center_distance<T: Coord>(size: u32, x: int, y: int) -> T {
    let c = T::spec_int(size as i64).spec_minus(T::spec_int(1)).spec_over(T::spec_int(2));
    let dx = T::spec_int(x as i64).spec_minus(c);
    let dy = T::spec_int(y as i64).spec_minus(c);
    dx.spec_times(dx).spec_plus(dy.spec_times(dy)).spec_root()
}

/// How much a pixel at distance `d` belongs to the ring, from 0 to 1: the band
/// between the inner radius (24% of the size) and the outer radius (38%), with
/// anti-aliased edges.
pub open spec fn ring<T: Coord>(size: u32, d: T) -> T {
    let s = T::spec_int(size as i64);
    let r_out = s.spec_times(coord::ratio(38, 100));
    let r_in = s.spec_times(coord::ratio(24, 100));
    let edge = coord::ratio::<T>(12, 10);
    let outer = T::spec_int(1).spec_minus(spec_smoothstep(r_out.spec_minus(edge), r_out, d));
    let inner = spec_smoothstep(r_in.spec_minus(edge), r_in, d);
    outer.spec_times(inner)
}

/// How much of the ring is drawn dark at distance `d`: all of its inner part,
/// and ever less within two pixels of the outer edge, so that a bright rim is
/// left there for contrast.
pub open spec fn outline<T: Coord>(size: u32, d: T) -> T {
    let r_out = T::spec_int(size as i64).spec_times(coord::ratio(38, 100));
    let edge = coord::ratio::<T>(12, 10);
    let from = r_out.spec_minus(edge.spec_times(coord::ratio(17, 10)));
    let to = r_out.spec_minus(edge.spec_times(coord::ratio(5, 10)));
    T::spec_int(1).spec_minus(spec_smoothstep(from, to, d)).spec_times(ring(size, d))
}

/// How much a pixel at distance `d` belongs to the center dot (radius 8% of
/// the size).
pub open spec fn center_dot<T: Coord>(size: u32, d: T) -> T {
    let dot = T::spec_int(size as i64).spec_times(coord::ratio(8, 100));
    let half = coord::ratio::<T>(12, 10).spec_times(coord::ratio(5, 10));
    T::spec_int(1).spec_minus(spec_smoothstep(dot.spec_minus(half), dot.spec_plus(half), d))
}

/// Opacity of a pixel at distance `d`, from 0 to 1.
pub open spec fn opacity<T: Coord>(size: u32, d: T) -> T {
    let ring_a = coord::clamped(
        ring(size, d).spec_times(coord::ratio(98, 100)),
        T::spec_int(0),
        T::spec_int(1),
    );
    ring_a.spec_larger(center_dot(size, d))
}

/// How dark a pixel at distance `d` is, from 0 (white) to 1.
pub open spec fn darkness<T: Coord>(size: u32, d: T) -> T {
    coord::clamped(outline(size, d), T::spec_int(0), T::spec_int(1)).spec_larger(
        coord::clamped(center_dot(size, d), T::spec_int(0), T::spec_int(1)),
    )
}

/// A color channel between white and its dark value.
pub open spec fn shade<T: Coord>(dark_value: i64, dark: T) -> u8 {
    let white = T::spec_int(255);
    spec_byte(
        white.spec_plus(T::spec_int(dark_value).spec_minus(white).spec_times(dark)),
    )
}

/// The straight RGBA bytes of pixel `(x, y)`: all zero where it is transparent.
pub open spec fn reticle_pixel<T: Coord>(size: u32, x: int, y: int) -> Seq<u8> {
    let d = center_distance::<T>(size, x, y);
    let a = opacity(size, d);
    if a.spec_at_most(T::spec_int(0)) {
        seq![0u8, 0u8, 0u8, 0u8]
    } else {
        let dark = darkness(size, d);
        seq![
            shade(20, dark),
            shade(24, dark),
            shade(32, dark),
            spec_byte(a.spec_times(T::spec_int(255))),
        ]
    }
}

/// Does `px` hold the first `n` pixels of the reticle, row by row, and zeros
/// after them?
pub open spec fn holds_reticle<T: Coord>(px: Seq<u8>, size: u32, n: int) -> bool {
    forall|p: int, k: int|
        0 <= p < size * size && 0 <= k < 4 ==> #[trigger] px[p * 4 + k] == (if p < n {
            reticle_pixel::<T>(size, p % (size as int), p / (size as int))[k]
        } else {
            0u8
        })
}

fn shaded_pixel<T: Coord>(size: u32, x: u32, y: u32) -> (r: [u8; 4])
    ensures
        r@ == reticle_pixel::<T>(size, x as int, y as int),
{
    let one = T::from_int(1);
    let zero = T::from_int(0);
    let s = T::from_int(size as i64);
    let c = s.minus(one).over(T::from_int(2));
    let r_out = s.times(from_ratio(38, 100));
    let r_in = s.times(from_ratio(24, 100));
    let dot = s.times(from_ratio(8, 100));
    let edge: T = from_ratio(12, 10);

    let dx = T::from_int(x as i64).minus(c);
    let dy = T::from_int(y as i64).minus(c);
    let d = dx.times(dx).plus(dy.times(dy)).root();

    // Ring band with soft edges.
    let outer = one.minus(smoothstep(r_out.minus(edge), r_out, d));
    let inner = smoothstep(r_in.minus(edge), r_in, d);
    let ring = outer.times(inner);

    // Dark inside of the ring, with a bright rim for contrast.
    let outline = one.minus(
        smoothstep(
            r_out.minus(edge.times(from_ratio(17, 10))),
            r_out.minus(edge.times(from_ratio(5, 10))),
            d,
        ),
    ).times(ring);

    // Center dot.
    let half = edge.times(from_ratio(5, 10));
    let dot_a = one.minus(smoothstep(dot.minus(half), dot.plus(half), d));

    let ring_a = clamp(ring.times(from_ratio(98, 100)), zero, one);
    let a = ring_a.larger(dot_a);
    let r: [u8; 4] = if a.at_most(zero) {
        [0, 0, 0, 0]
    } else {
        // White rim, dark inside of the ring and dark center dot.
        let dark = clamp(outline, zero, one).larger(clamp(dot_a, zero, one));
        let white = T::from_int(255);
        let r = white.plus(T::from_int(20).minus(white).times(dark));
        let g = white.plus(T::from_int(24).minus(white).times(dark));
        let b = white.plus(T::from_int(32).minus(white).times(dark));
        [byte(r), byte(g), byte(b), byte(a.times(white))]
    };
    assert(r@ =~= reticle_pixel::<T>(size, x as int, y as int));
    r
}

proof fn lemma_square_bound(size: u32, y: u32, x: u32)
    requires
        x < size,
        y < size,
    ensures
        0 <= y * size + x < size * size,
        (y * size + x) % (size as int) == x,
        (y * size + x) / (size as int) == y,
{
    assert(0 <= y * size && y * size + size <= size * size) by (nonlinear_arith)
        requires
            0 <= y < size,
    ;
    vstd::arithmetic::div_mod::lemma_fundamental_div_mod_converse(
        y * size + x,
        size as int,
        y as int,
        x as int,
    );
}

/// Generate a `size` by `size` straight-RGBA reticle cursor.
///
/// Returns the pixels, row by row, and the hotspot at the center.
pub fn make_cursor_bitmap<T: Coord>(size: u32) -> (r: (Vec<u8>, [u16; 2]))
    requires
        size * size * 4 <= isize::MAX,
    ensures
        r.0@.len() == size * size * 4,
        holds_reticle::<T>(r.0@, size, size * size),
        r.1@ == seq![(size as int / 2 % 0x1_0000) as u16, (size as int / 2 % 0x1_0000) as u16],
{
    assert(0 <= size * size) by (nonlinear_arith)
        requires
            0 <= size,
    ;
    assert(size <= size * size) by (nonlinear_arith)
        requires
            0 <= size,
    ;
    let n: usize = size as usize;
    let mut px: Vec<u8> = vec![0u8; n * n * 4];
    assert(holds_reticle::<T>(px@, size, 0));
    let mut y: u32 = 0;
    while y < size
        invariant
            n == size,
            0 <= y <= size,
            0 <= size * size,
            size * size * 4 <= isize::MAX,
            px@.len() == size * size * 4,
            holds_reticle::<T>(px@, size, y * size),
        decreases size - y,
    {
        let mut x: u32 = 0;
        while x < size
            invariant
                n == size,
                0 <= y < size,
                0 <= x <= size,
                size * size * 4 <= isize::MAX,
                px@.len() == size * size * 4,
                holds_reticle::<T>(px@, size, y * size + x),
            decreases size - x,
        {
            proof {
                lemma_square_bound(size, y, x);
                assert(y as usize * n == y * size);
            }
            let p: usize = y as usize * n + x as usize;
            let i: usize = p * 4;
            let c = shaded_pixel::<T>(size, x, y);
            let ghost before = px@;
            px[i] = c[0];
            px[i + 1] = c[1];
            px[i + 2] = c[2];
            px[i + 3] = c[3];
            proof {
                assert forall|q: int, k: int| 0 <= q < size * size && 0 <= k < 4 implies #[trigger] px@[
                q * 4 + k] == (if q < p + 1 {
                    reticle_pixel::<T>(size, q % (size as int), q / (size as int))[k]
                } else {
                    0u8
                }) by {
                    if q != p {
                        assert(px@[q * 4 + k] == before[q * 4 + k]);
                    }
                }
                assert(holds_reticle::<T>(px@, size, y * size + (x + 1)));
            }
            x = x + 1;
        }
        assert((y + 1) * size == y * size + size) by (nonlinear_arith);
        y = y + 1;
    }
    let half: u32 = size / 2;
    let hot: u16 = (half % 0x1_0000) as u16;
    let spot: [u16; 2] = [hot, hot];
    assert(spot@ =~= seq![(size as int / 2 % 0x1_0000) as u16, (size as int / 2 % 0x1_0000) as u16]);
    (px, spot)
}

/// The step between two edges: with the distance from the first edge as a part
/// of the whole, held between 0 and 1, it is three times the square less twice
/// the cube.
pub proof fn law_smoothstep_formula<T: Coord>(e0: T, e1: T, x: T)
    ensures
        ({
            let t = coord::clamped(
                x.spec_minus(e0).spec_over(e1.spec_minus(e0)),
                T::spec_int(0),
                T::spec_int(1),
            );
            spec_smoothstep(e0, e1, x) == t.spec_times(t).spec_times(
                T::spec_int(3).spec_minus(T::spec_int(2).spec_times(t)),
            )
        }),
{
}

/// A number as a byte: rounded, and held between 0 and 255.
pub proof fn law_byte_is_rounded<T: Coord>(x: T)
    ensures
        0 <= x.spec_rounded() <= 255 ==> spec_byte(x) == x.spec_rounded(),
        x.spec_rounded() < 0 ==> spec_byte(x) == 0,
        x.spec_rounded() > 255 ==> spec_byte(x) == 255,
{
}

/// The bitmap holds the pixels row by row, four bytes each.
pub proof fn law_pixels_are_row_by_row<T: Coord>(px: Seq<u8>, size: u32, x: u32, y: u32, k: int)
    requires
        holds_reticle::<T>(px, size, size * size),
        x < size,
        y < size,
        0 <= k < 4,
    ensures
        px[(y * size + x) * 4 + k] == reticle_pixel::<T>(size, x as int, y as int)[k],
{
    lemma_square_bound(size, y, x);
    let p = y * size + x;
    assert(px[p * 4 + k] == reticle_pixel::<T>(size, p % (size as int), p / (size as int))[k]);
}

/// A pixel of the reticle, by its distance from the center: the ring between 24%
/// and 38% of the size and the dot of 8%, both with edges 1.2 pixels wide; the
/// dot and the inside of the ring are dark, the rim is white, and what neither
/// of them reaches is transparent.
pub proof fn law_reticle_by_distance<T: Coord>(size: u32, x: int, y: int)
    ensures
        ({
            let zero = T::spec_int(0);
            let one = T::spec_int(1);
            let hundred = T::spec_int(100);
            let ten = T::spec_int(10);
            let white = T::spec_int(255);
            let s = T::spec_int(size as i64);
            let c = s.spec_minus(one).spec_over(T::spec_int(2));
            let dx = T::spec_int(x as i64).spec_minus(c);
            let dy = T::spec_int(y as i64).spec_minus(c);
            let d = dx.spec_times(dx).spec_plus(dy.spec_times(dy)).spec_root();
            let outer = s.spec_times(T::spec_int(38).spec_over(hundred));
            let inner = s.spec_times(T::spec_int(24).spec_over(hundred));
            let dot = s.spec_times(T::spec_int(8).spec_over(hundred));
            let edge = T::spec_int(12).spec_over(ten);
            let half = edge.spec_times(T::spec_int(5).spec_over(ten));
            let in_ring = one.spec_minus(
                spec_smoothstep(outer.spec_minus(edge), outer, d),
            ).spec_times(spec_smoothstep(inner.spec_minus(edge), inner, d));
            let in_dark = one.spec_minus(
                spec_smoothstep(
                    outer.spec_minus(edge.spec_times(T::spec_int(17).spec_over(ten))),
                    outer.spec_minus(half),
                    d,
                ),
            ).spec_times(in_ring);
            let in_dot = one.spec_minus(
                spec_smoothstep(dot.spec_minus(half), dot.spec_plus(half), d),
            );
            let a = coord::clamped(
                in_ring.spec_times(T::spec_int(98).spec_over(hundred)),
                zero,
                one,
            ).spec_larger(in_dot);
            let dark = coord::clamped(in_dark, zero, one).spec_larger(
                coord::clamped(in_dot, zero, one),
            );
            let p = reticle_pixel::<T>(size, x, y);
            &&& p.len() == 4
            &&& a.spec_at_most(zero) ==> p[0] == 0 && p[1] == 0 && p[2] == 0 && p[3] == 0
            &&& !a.spec_at_most(zero) ==> {
                &&& p[0] == spec_byte(
                    white.spec_plus(T::spec_int(20).spec_minus(white).spec_times(dark)),
                )
                &&& p[1] == spec_byte(
                    white.spec_plus(T::spec_int(24).spec_minus(white).spec_times(dark)),
                )
                &&& p[2] == spec_byte(
                    white.spec_plus(T::spec_int(32).spec_minus(white).spec_times(dark)),
                )
                &&& p[3] == spec_byte(a.spec_times(white))
            }
        }),
{
}

} // verus!
