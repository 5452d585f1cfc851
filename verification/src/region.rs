//! The overlay region and its editing by mouse drags.

use vstd::prelude::*;

use crate::config::{HANDLE, MIN_REGION};
use crate::coord;
use crate::coord::{clamp, Coord};

verus! {

/// A rectangle in logical pixels, relative to the overlay window.
#[derive(Clone, Copy, Debug)]
pub struct RectF<T> {
    pub x: T,
    pub y: T,
    pub w: T,
    pub h: T,
}

/// Which part of the region a drag moves.
#[derive(Clone, Copy, Debug, PartialEq, Eq, Structural)]
pub enum EditMode {
    Move,
    ResizeN,
    ResizeS,
    ResizeE,
    ResizeW,
    ResizeNE,
    ResizeNW,
    ResizeSE,
    ResizeSW,
}

impl EditMode {
    /// Does the top edge follow the pointer?
    pub open spec fn north(self) -> bool {
        self == EditMode::ResizeN || self == EditMode::ResizeNE || self == EditMode::ResizeNW
    }

    /// Does the bottom edge follow the pointer?
    pub open spec fn south(self) -> bool {
        self == EditMode::ResizeS || self == EditMode::ResizeSE || self == EditMode::ResizeSW
    }

    /// Does the right edge follow the pointer?
    pub open spec fn east(self) -> bool {
        self == EditMode::ResizeE || self == EditMode::ResizeNE || self == EditMode::ResizeSE
    }

    /// Does the left edge follow the pointer?
    pub open spec fn west(self) -> bool {
        self == EditMode::ResizeW || self == EditMode::ResizeNW || self == EditMode::ResizeSW
    }
}

/// The rectangle of size `w` by `h` at the origin.
pub open spec fn spec_full<T: Coord>(w: T, h: T) -> RectF<T> {
    RectF { x: T::spec_int(0), y: T::spec_int(0), w, h }
}

/// The rectangle of size `w` by `h` at the origin.
pub fn full<T: Coord>(w: T, h: T) -> (r: RectF<T>)
    ensures
        r == spec_full(w, h),
{
    RectF { x: T::from_int(0), y: T::from_int(0), w, h }
}

impl<T: Coord> RectF<T> {
    /// Right edge.
    pub open spec fn spec_right(self) -> T {
        self.x.spec_plus(self.w)
    }

    /// Bottom edge.
    pub open spec fn spec_bottom(self) -> T {
        self.y.spec_plus(self.h)
    }

    /// Is the point inside? The left and top edges belong to the rectangle,
    /// the right and bottom edges do not.
    pub open spec fn spec_contains(self, px: T, py: T) -> bool {
        &&& self.x.spec_at_most(px) && px.spec_below(self.spec_right())
        &&& self.y.spec_at_most(py) && py.spec_below(self.spec_bottom())
    }

    /// Are all four numbers equal?
    pub open spec fn spec_equals(self, other: RectF<T>) -> bool {
        self.x.spec_equals(other.x) && self.y.spec_equals(other.y) && self.w.spec_equals(other.w)
            && self.h.spec_equals(other.h)
    }

    /// Are all four numbers written down alike?
    pub open spec fn spec_reads_as(self, other: RectF<T>) -> bool {
        self.x.spec_reads_as(other.x) && self.y.spec_reads_as(other.y) && self.w.spec_reads_as(
            other.w,
        ) && self.h.spec_reads_as(other.h)
    }

    /// Is the point inside? The left and top edges belong to the rectangle,
    /// the right and bottom edges do not.
    pub fn contains(&self, px: T, py: T) -> (r: bool)
        ensures
            r == self.spec_contains(px, py),
    {
        self.x.at_most(px) && px.below(self.x.plus(self.w)) && self.y.at_most(py) && py.below(
            self.y.plus(self.h),
        )
    }

    /// Are all four numbers equal?
    pub fn equals(&self, other: &RectF<T>) -> (r: bool)
        ensures
            r == self.spec_equals(*other),
    {
        self.x.equals(other.x) && self.y.equals(other.y) && self.w.equals(other.w)
            && self.h.equals(other.h)
    }

    /// Are all four numbers written down alike?
    pub fn reads_as(&self, other: &RectF<T>) -> (r: bool)
        ensures
            r == self.spec_reads_as(*other),
    {
        self.x.reads_as(other.x) && self.y.reads_as(other.y) && self.w.reads_as(other.w)
            && self.h.reads_as(other.h)
    }

    /// Is `p` within the grab zone of the edge at `edge`?
    pub open spec fn near(p: T, edge: T) -> bool {
        p.spec_minus(edge).spec_magnitude().spec_at_most(T::spec_int(HANDLE))
    }

    /// Is `p` between the edges `lo` and `hi`, grab zones included?
    pub open spec fn within(p: T, lo: T, hi: T) -> bool {
        lo.spec_minus(T::spec_int(HANDLE)).spec_at_most(p) && p.spec_at_most(
            hi.spec_plus(T::spec_int(HANDLE)),
        )
    }

    /// What a press at `(px, py)` grabs: corners come before edges, edges
    /// before the inside, and west and east before north and south.
    pub open spec fn grabbed(self, px: T, py: T) -> Option<EditMode> {
        let on_left = RectF::near(px, self.x);
        let on_right = RectF::near(px, self.spec_right());
        let on_top = RectF::near(py, self.y);
        let on_bottom = RectF::near(py, self.spec_bottom());
        let in_x = RectF::within(px, self.x, self.spec_right());
        let in_y = RectF::within(py, self.y, self.spec_bottom());
        if on_top && on_left {
            Some(EditMode::ResizeNW)
        } else if on_top && on_right {
            Some(EditMode::ResizeNE)
        } else if on_bottom && on_left {
            Some(EditMode::ResizeSW)
        } else if on_bottom && on_right {
            Some(EditMode::ResizeSE)
        } else if on_left && in_y {
            Some(EditMode::ResizeW)
        } else if on_right && in_y {
            Some(EditMode::ResizeE)
        } else if on_top && in_x {
            Some(EditMode::ResizeN)
        } else if on_bottom && in_x {
            Some(EditMode::ResizeS)
        } else if self.spec_contains(px, py) {
            Some(EditMode::Move)
        } else {
            None
        }
    }

    /// Which region handle (or move) the pointer is grabbing, if any.
    pub fn grab_mode(&self, px: T, py: T) -> (r: Option<EditMode>)
        ensures
            r == self.grabbed(px, py),
    {
        let handle = T::from_int(HANDLE);
        let (x0, y0, x1, y1) = (self.x, self.y, self.x.plus(self.w), self.y.plus(self.h));
        let in_x = x0.minus(handle).at_most(px) && px.at_most(x1.plus(handle));
        let in_y = y0.minus(handle).at_most(py) && py.at_most(y1.plus(handle));
        let on_left = px.minus(x0).magnitude().at_most(handle);
        let on_right = px.minus(x1).magnitude().at_most(handle);
        let on_top = py.minus(y0).magnitude().at_most(handle);
        let on_bottom = py.minus(y1).magnitude().at_most(handle);
        if on_top && on_left {
            Some(EditMode::ResizeNW)
        } else if on_top && on_right {
            Some(EditMode::ResizeNE)
        } else if on_bottom && on_left {
            Some(EditMode::ResizeSW)
        } else if on_bottom && on_right {
            Some(EditMode::ResizeSE)
        } else if on_left && in_y {
            Some(EditMode::ResizeW)
        } else if on_right && in_y {
            Some(EditMode::ResizeE)
        } else if on_top && in_x {
            Some(EditMode::ResizeN)
        } else if on_bottom && in_x {
            Some(EditMode::ResizeS)
        } else if self.contains(px, py) {
            Some(EditMode::Move)
        } else {
            None
        }
    }
}

/// An in-progress region edit drag.
#[derive(Clone, Copy, Debug)]
pub struct EditDrag<T> {
    /// What is being dragged.
    pub mode: EditMode,
    /// Where the drag started.
    pub sx: T,
    /// Where the drag started.
    pub sy: T,
    /// The region when the drag started.
    pub region: RectF<T>,
}

impl<T: Coord> EditDrag<T> {
    /// An extent that grows by `d`, but not below the minimum.
    pub open spec fn grown(extent: T, d: T) -> T {
        extent.spec_plus(d).spec_larger(T::spec_int(MIN_REGION))
    }

    /// An extent that shrinks by `d`, but not below the minimum.
    pub open spec fn shrunk(extent: T, d: T) -> T {
        extent.spec_minus(d).spec_larger(T::spec_int(MIN_REGION))
    }

    /// A near edge that moves so that the far edge stays: the extent goes
    /// from `extent` to `rest`.
    pub open spec fn shifted(edge: T, extent: T, rest: T) -> T {
        edge.spec_plus(extent.spec_minus(rest))
    }

    /// An edge that moves by `d`, held so that an extent of `extent` stays in
    /// a window of size `win`.
    pub open spec fn slid(edge: T, d: T, extent: T, win: T) -> T {
        let zero = T::spec_int(0);
        coord::clamped(edge.spec_plus(d), zero, win.spec_minus(extent).spec_larger(zero))
    }

    /// An edge held so that at least the minimum region stays in the window.
    pub open spec fn held(edge: T, win: T) -> T {
        let zero = T::spec_int(0);
        let room = win.spec_minus(T::spec_int(MIN_REGION)).spec_larger(zero);
        coord::clamped(edge, zero, room)
    }

    /// The region that the drag leads to with the pointer at `(px, py)`.
    pub open spec fn spec_dragged(self, px: T, py: T, win_w: T, win_h: T) -> RectF<T> {
        let dx = px.spec_minus(self.sx);
        let dy = py.spec_minus(self.sy);
        let r = self.region;
        let w = if self.mode.east() {
            EditDrag::grown(r.w, dx)
        } else if self.mode.west() {
            EditDrag::shrunk(r.w, dx)
        } else {
            r.w
        };
        let h = if self.mode.south() {
            EditDrag::grown(r.h, dy)
        } else if self.mode.north() {
            EditDrag::shrunk(r.h, dy)
        } else {
            r.h
        };
        let x = if self.mode == EditMode::Move {
            EditDrag::slid(r.x, dx, r.w, win_w)
        } else if self.mode.west() {
            EditDrag::shifted(r.x, r.w, w)
        } else {
            r.x
        };
        let y = if self.mode == EditMode::Move {
            EditDrag::slid(r.y, dy, r.h, win_h)
        } else if self.mode.north() {
            EditDrag::shifted(r.y, r.h, h)
        } else {
            r.y
        };
        RectF { x: EditDrag::held(x, win_w), y: EditDrag::held(y, win_h), w, h }
    }

    /// The region that the drag leads to with the pointer at `(px, py)`, in a
    /// window of size `win_w` by `win_h`.
    pub fn dragged(&self, px: T, py: T, win_w: T, win_h: T) -> (nr: RectF<T>)
        ensures
            nr == self.spec_dragged(px, py, win_w, win_h),
    {
        let zero = T::from_int(0);
        let min = T::from_int(MIN_REGION);
        let dx = px.minus(self.sx);
        let dy = py.minus(self.sy);
        let r = self.region;
        let mut nr = r;
        match self.mode {
            EditMode::Move => {
                nr.x = clamp(r.x.plus(dx), zero, win_w.minus(r.w).larger(zero));
                nr.y = clamp(r.y.plus(dy), zero, win_h.minus(r.h).larger(zero));
            },
            EditMode::ResizeE => {
                nr.w = r.w.plus(dx).larger(min);
            },
            EditMode::ResizeS => {
                nr.h = r.h.plus(dy).larger(min);
            },
            EditMode::ResizeW => {
                let w = r.w.minus(dx).larger(min);
                nr.x = r.x.plus(r.w.minus(w));
                nr.w = w;
            },
            EditMode::ResizeN => {
                let h = r.h.minus(dy).larger(min);
                nr.y = r.y.plus(r.h.minus(h));
                nr.h = h;
            },
            EditMode::ResizeNE => {
                nr.w = r.w.plus(dx).larger(min);
                let h = r.h.minus(dy).larger(min);
                nr.y = r.y.plus(r.h.minus(h));
                nr.h = h;
            },
            EditMode::ResizeNW => {
                let w = r.w.minus(dx).larger(min);
                nr.x = r.x.plus(r.w.minus(w));
                nr.w = w;
                let h = r.h.minus(dy).larger(min);
                nr.y = r.y.plus(r.h.minus(h));
                nr.h = h;
            },
            EditMode::ResizeSE => {
                nr.w = r.w.plus(dx).larger(min);
                nr.h = r.h.plus(dy).larger(min);
            },
            EditMode::ResizeSW => {
                let w = r.w.minus(dx).larger(min);
                nr.x = r.x.plus(r.w.minus(w));
                nr.w = w;
                nr.h = r.h.plus(dy).larger(min);
            },
        }
        nr.x = clamp(nr.x, zero, win_w.minus(min).larger(zero));
        nr.y = clamp(nr.y, zero, win_h.minus(min).larger(zero));
        nr
    }
}

/// Is `n` far from the ends of the range, so that sums of a few such numbers
/// are exact?
pub open spec fn moderate(n: i64) -> bool {
    -0x1000_0000_0000_0000 <= n <= 0x1000_0000_0000_0000
}

/// Are all numbers of the rectangle moderate, and its extents not negative?
pub open spec fn plain_rect(r: RectF<i64>) -> bool {
    moderate(r.x) && moderate(r.y) && moderate(r.w) && moderate(r.h) && r.w >= 0 && r.h >= 0
}

/// In whole pixels, a press grabs something exactly where the pointer is in
/// the region or within the grab zone around it.
pub proof fn law_grab_zone(r: RectF<i64>, px: i64, py: i64)
    requires
        plain_rect(r),
        moderate(px),
        moderate(py),
    ensures
        r.grabbed(px, py) is Some <==> r.x - HANDLE <= px <= r.x + r.w + HANDLE && r.y - HANDLE
            <= py <= r.y + r.h + HANDLE,
        r.spec_contains(px, py) <==> r.x <= px < r.x + r.w && r.y <= py < r.y + r.h,
{
}

/// How far the top-left corner may go in a window of size `win`: the minimum
/// region stays inside where the window has room for it.
pub open spec fn corner_room<T: Coord>(win: T) -> T {
    win.spec_minus(T::spec_int(MIN_REGION)).spec_larger(T::spec_int(0))
}

/// Is the top-left corner of `r` inside a window of this size, with room for
/// the minimum region where the window has it?
pub open spec fn corner_inside<T: Coord>(r: RectF<T>, win_w: T, win_h: T) -> bool {
    let zero = T::spec_int(0);
    coord::between(r.x, zero, corner_room(win_w)) && coord::between(r.y, zero, corner_room(win_h))
}

/// Is the region at least of the minimum size?
pub open spec fn minimum_size<T: Coord>(r: RectF<T>) -> bool {
    let min = T::spec_int(MIN_REGION);
    min.spec_at_most(r.w) && min.spec_at_most(r.h)
}

/// Is the box `r` inside a window of this size?
pub open spec fn box_inside<T: Coord>(r: RectF<T>, win_w: T, win_h: T) -> bool {
    let zero = T::spec_int(0);
    &&& coord::between(r.x, zero, win_w.spec_minus(r.w))
    &&& coord::between(r.y, zero, win_h.spec_minus(r.h))
}

/// Does the box `r` fit a window of this size?
pub open spec fn box_fits<T: Coord>(r: RectF<T>, win_w: T, win_h: T) -> bool {
    let zero = T::spec_int(0);
    zero.spec_at_most(win_w.spec_minus(r.w)) && zero.spec_at_most(win_h.spec_minus(r.h))
}

/// A dragged region never starts outside the window, and it always leaves room
/// for the minimum region if the window has that room.
pub proof fn law_drag_starts_in_window<T: Coord>(d: EditDrag<T>, px: T, py: T, win_w: T, win_h: T)
    requires
        coord::is_ordered::<T>(),
    ensures
        corner_inside(d.spec_dragged(px, py, win_w, win_h), win_w, win_h),
{
}

/// No drag makes the region smaller than the minimum: a dragged extent is at
/// least the minimum, and the others stay as they were.
pub proof fn law_drag_keeps_minimum<T: Coord>(d: EditDrag<T>, px: T, py: T, win_w: T, win_h: T)
    requires
        coord::is_ordered::<T>(),
    ensures
        ({
            let nr = d.spec_dragged(px, py, win_w, win_h);
            let min = T::spec_int(MIN_REGION);
            &&& d.mode.east() || d.mode.west() ==> min.spec_at_most(nr.w)
            &&& !d.mode.east() && !d.mode.west() ==> nr.w == d.region.w
            &&& d.mode.south() || d.mode.north() ==> min.spec_at_most(nr.h)
            &&& !d.mode.south() && !d.mode.north() ==> nr.h == d.region.h
        }),
{
}

/// Moving the region keeps its size, and a region that fits the window stays
/// inside it.
pub proof fn law_move_stays_inside<T: Coord>(d: EditDrag<T>, px: T, py: T, win_w: T, win_h: T)
    requires
        coord::is_ordered::<T>(),
        d.mode == EditMode::Move,
        box_fits(d.region, win_w, win_h),
    ensures
        ({
            let nr = d.spec_dragged(px, py, win_w, win_h);
            &&& nr.w == d.region.w && nr.h == d.region.h
            &&& box_inside(nr, win_w, win_h)
        }),
{
    let x = EditDrag::slid(d.region.x, px.spec_minus(d.sx), d.region.w, win_w);
    let y = EditDrag::slid(d.region.y, py.spec_minus(d.sy), d.region.h, win_h);
    lemma_held_goes_no_further(x, win_w, win_w.spec_minus(d.region.w));
    lemma_held_goes_no_further(y, win_h, win_h.spec_minus(d.region.h));
}

/// An edge that is between zero and `end` is so after it was held, too.
proof fn lemma_held_goes_no_further<T: Coord>(edge: T, win: T, end: T)
    requires
        coord::is_ordered::<T>(),
        T::spec_int(0).spec_at_most(end),
        coord::between(edge, T::spec_int(0), end),
    ensures
        coord::between(EditDrag::held(edge, win), T::spec_int(0), end),
{
    let room = corner_room(win);
    if !edge.spec_below(T::spec_int(0)) && room.spec_below(edge) {
        assert(room.spec_at_most(edge));
    }
}

/// In whole pixels, resizing leaves the opposite edges where they were:
/// dragging the left or top edge keeps the right or bottom edge, as long as
/// the moved edge stays in the window; the edges that are not dragged keep
/// their place if they were in the window.
pub proof fn law_resize_keeps_opposite_edge(
    d: EditDrag<i64>,
    px: i64,
    py: i64,
    win_w: i64,
    win_h: i64,
)
    requires
        d.mode != EditMode::Move,
        plain_rect(d.region),
        moderate(d.sx),
        moderate(d.sy),
        moderate(px),
        moderate(py),
        moderate(win_w),
        moderate(win_h),
    ensures
        ({
            let r = d.region;
            let nr = d.spec_dragged(px, py, win_w, win_h);
            &&& d.mode.west() && 0 <= r.x + r.w - nr.w <= win_w - MIN_REGION ==> nr.x + nr.w == r.x
                + r.w
            &&& d.mode.north() && 0 <= r.y + r.h - nr.h <= win_h - MIN_REGION ==> nr.y + nr.h == r.y
                + r.h
            &&& !d.mode.west() && 0 <= r.x <= win_w - MIN_REGION ==> nr.x == r.x
            &&& !d.mode.north() && 0 <= r.y <= win_h - MIN_REGION ==> nr.y == r.y
        }),
{
}

/// In whole pixels, a drag that has not moved yet changes nothing: a region in
/// the window and of at least the minimum size stays as it is.
pub proof fn law_drag_starts_still(d: EditDrag<i64>, win_w: i64, win_h: i64)
    requires
        plain_rect(d.region),
        moderate(win_w),
        moderate(win_h),
        d.region.w >= MIN_REGION,
        d.region.h >= MIN_REGION,
        0 <= d.region.x,
        d.region.x + d.region.w <= win_w,
        0 <= d.region.y,
        d.region.y + d.region.h <= win_h,
    ensures
        d.spec_dragged(d.sx, d.sy, win_w, win_h) == d.region,
{
}

/// The whole of a window starts at the origin and has the window's size.
pub proof fn law_full_is_the_window<T: Coord>(w: T, h: T)
    ensures
        spec_full(w, h).x == T::spec_int(0) && spec_full(w, h).y == T::spec_int(0),
        spec_full(w, h).w == w && spec_full(w, h).h == h,
{
}

/// A rectangle contains its left and top edges and all up to, but without, its
/// right and bottom edges.
pub proof fn law_contains_is_half_open<T: Coord>(r: RectF<T>, px: T, py: T)
    ensures
        r.spec_contains(px, py) <==> r.x.spec_at_most(px) && px.spec_below(r.x.spec_plus(r.w))
            && r.y.spec_at_most(py) && py.spec_below(r.y.spec_plus(r.h)),
{
}

/// Rectangles are equal, or read alike, if and only if they do so in all four
/// numbers.
pub proof fn law_rectangles_agree_in_four_numbers<T: Coord>(a: RectF<T>, b: RectF<T>)
    ensures
        a.spec_equals(b) <==> a.x.spec_equals(b.x) && a.y.spec_equals(b.y) && a.w.spec_equals(b.w)
            && a.h.spec_equals(b.h),
        a.spec_reads_as(b) <==> a.x.spec_reads_as(b.x) && a.y.spec_reads_as(b.y)
            && a.w.spec_reads_as(b.w) && a.h.spec_reads_as(b.h),
{
}

/// In whole pixels, what a press grabs: the box itself farther than the handle
/// size from all four edges inside; an edge within that distance of it and
/// farther than that from the corners; a corner near both of its edges. Of two
/// edges of a small box, the left one comes before the right one and the top one
/// before the bottom one.
pub proof fn law_what_a_press_grabs(r: RectF<i64>, px: i64, py: i64)
    requires
        plain_rect(r),
        moderate(px),
        moderate(py),
    ensures
        ({
            let left = r.x - HANDLE <= px <= r.x + HANDLE;
            let right = r.x + r.w - HANDLE <= px <= r.x + r.w + HANDLE;
            let top = r.y - HANDLE <= py <= r.y + HANDLE;
            let bottom = r.y + r.h - HANDLE <= py <= r.y + r.h + HANDLE;
            let mid_x = r.x + HANDLE < px < r.x + r.w - HANDLE;
            let mid_y = r.y + HANDLE < py < r.y + r.h - HANDLE;
            let got = r.grabbed(px, py);
            &&& got == Some(EditMode::Move) <==> mid_x && mid_y
            &&& got == Some(EditMode::ResizeN) <==> top && mid_x
            &&& got == Some(EditMode::ResizeS) <==> bottom && !top && mid_x
            &&& got == Some(EditMode::ResizeW) <==> left && mid_y
            &&& got == Some(EditMode::ResizeE) <==> right && !left && mid_y
            &&& got == Some(EditMode::ResizeNW) <==> top && left
            &&& got == Some(EditMode::ResizeNE) <==> top && right && !left
            &&& got == Some(EditMode::ResizeSW) <==> bottom && !top && left
            &&& got == Some(EditMode::ResizeSE) <==> bottom && !top && right && !left
        }),
{
}

/// For every number type, a press near two edges grabs their corner, near one
/// edge and between its ends that edge, and elsewhere inside the box.
pub proof fn law_press_near_edges<T: Coord>(r: RectF<T>, px: T, py: T)
    ensures
        ({
            let zone = T::spec_int(HANDLE);
            let (x1, y1) = (r.x.spec_plus(r.w), r.y.spec_plus(r.h));
            let left = px.spec_minus(r.x).spec_magnitude().spec_at_most(zone);
            let right = px.spec_minus(x1).spec_magnitude().spec_at_most(zone);
            let top = py.spec_minus(r.y).spec_magnitude().spec_at_most(zone);
            let bottom = py.spec_minus(y1).spec_magnitude().spec_at_most(zone);
            let in_x = r.x.spec_minus(zone).spec_at_most(px) && px.spec_at_most(x1.spec_plus(zone));
            let in_y = r.y.spec_minus(zone).spec_at_most(py) && py.spec_at_most(y1.spec_plus(zone));
            let got = r.grabbed(px, py);
            let corner = (top || bottom) && (left || right);
            let side = (left || right) && in_y;
            let edge = (top || bottom) && in_x;
            &&& got == Some(EditMode::ResizeNW) <==> top && left
            &&& got == Some(EditMode::ResizeNE) <==> top && right && !left
            &&& got == Some(EditMode::ResizeSW) <==> bottom && left && !top
            &&& got == Some(EditMode::ResizeSE) <==> bottom && right && !top && !left
            &&& got == Some(EditMode::ResizeW) <==> left && in_y && !corner
            &&& got == Some(EditMode::ResizeE) <==> right && in_y && !left && !corner
            &&& got == Some(EditMode::ResizeN) <==> top && in_x && !side && !corner
            &&& got == Some(EditMode::ResizeS) <==> bottom && in_x && !top && !side && !corner
            &&& got == Some(EditMode::Move) <==> r.spec_contains(px, py) && !corner && !side
                && !edge
        }),
{
}

/// In whole pixels, where a drag leads: the dragged edges go as far as the
/// pointer, an extent stops at the minimum, and what is not dragged stays. The
/// far edge of a side that is dragged to the left or up stays too. In the end
/// the corner is held in the window.
pub proof fn law_dragged_edges_follow_the_pointer(
    d: EditDrag<i64>,
    px: i64,
    py: i64,
    win_w: i64,
    win_h: i64,
)
    requires
        plain_rect(d.region),
        moderate(d.sx) && moderate(d.sy) && moderate(px) && moderate(py) && moderate(win_w)
            && moderate(win_h),
    ensures
        ({
            let r = d.region;
            let nr = d.spec_dragged(px, py, win_w, win_h);
            let (dx, dy) = (px - d.sx, py - d.sy);
            let east = d.mode == EditMode::ResizeE || d.mode == EditMode::ResizeNE || d.mode
                == EditMode::ResizeSE;
            let west = d.mode == EditMode::ResizeW || d.mode == EditMode::ResizeNW || d.mode
                == EditMode::ResizeSW;
            let south = d.mode == EditMode::ResizeS || d.mode == EditMode::ResizeSE || d.mode
                == EditMode::ResizeSW;
            let north = d.mode == EditMode::ResizeN || d.mode == EditMode::ResizeNE || d.mode
                == EditMode::ResizeNW;
            let x = if d.mode == EditMode::Move {
                r.x + dx
            } else if west {
                r.x + r.w - nr.w
            } else {
                r.x as int
            };
            let y = if d.mode == EditMode::Move {
                r.y + dy
            } else if north {
                r.y + r.h - nr.h
            } else {
                r.y as int
            };
            let moved_w = if d.mode == EditMode::Move && r.w > MIN_REGION {
                r.w as int
            } else {
                MIN_REGION as int
            };
            let moved_h = if d.mode == EditMode::Move && r.h > MIN_REGION {
                r.h as int
            } else {
                MIN_REGION as int
            };
            &&& east && r.w + dx >= MIN_REGION ==> nr.w == r.w + dx
            &&& east && r.w + dx < MIN_REGION ==> nr.w == MIN_REGION
            &&& west && r.w - dx >= MIN_REGION ==> nr.w == r.w - dx
            &&& west && r.w - dx < MIN_REGION ==> nr.w == MIN_REGION
            &&& !east && !west ==> nr.w == r.w
            &&& south && r.h + dy >= MIN_REGION ==> nr.h == r.h + dy
            &&& south && r.h + dy < MIN_REGION ==> nr.h == MIN_REGION
            &&& north && r.h - dy >= MIN_REGION ==> nr.h == r.h - dy
            &&& north && r.h - dy < MIN_REGION ==> nr.h == MIN_REGION
            &&& !south && !north ==> nr.h == r.h
            &&& 0 <= x <= win_w - moved_w ==> nr.x == x
            &&& x < 0 || win_w <= moved_w ==> nr.x == 0
            &&& 0 <= win_w - moved_w < x ==> nr.x == win_w - moved_w
            &&& 0 <= y <= win_h - moved_h ==> nr.y == y
            &&& y < 0 || win_h <= moved_h ==> nr.y == 0
            &&& 0 <= win_h - moved_h < y ==> nr.y == win_h - moved_h
        }),
{
}

/// For every number type, the extent and corner that each kind of drag leads to.
pub proof fn law_drag_by_mode<T: Coord>(d: EditDrag<T>, px: T, py: T, win_w: T, win_h: T)
    ensures
        ({
            let r = d.region;
            let nr = d.spec_dragged(px, py, win_w, win_h);
            let (dx, dy) = (px.spec_minus(d.sx), py.spec_minus(d.sy));
            let (zero, min) = (T::spec_int(0), T::spec_int(MIN_REGION));
            let room_x = win_w.spec_minus(min).spec_larger(zero);
            let room_y = win_h.spec_minus(min).spec_larger(zero);
            &&& nr.w == (match d.mode {
                EditMode::ResizeE | EditMode::ResizeNE | EditMode::ResizeSE => r.w.spec_plus(
                    dx,
                ).spec_larger(min),
                EditMode::ResizeW | EditMode::ResizeNW | EditMode::ResizeSW => r.w.spec_minus(
                    dx,
                ).spec_larger(min),
                _ => r.w,
            })
            &&& nr.h == (match d.mode {
                EditMode::ResizeS | EditMode::ResizeSE | EditMode::ResizeSW => r.h.spec_plus(
                    dy,
                ).spec_larger(min),
                EditMode::ResizeN | EditMode::ResizeNE | EditMode::ResizeNW => r.h.spec_minus(
                    dy,
                ).spec_larger(min),
                _ => r.h,
            })
            &&& nr.x == coord::clamped(
                match d.mode {
                    EditMode::Move => coord::clamped(
                        r.x.spec_plus(dx),
                        zero,
                        win_w.spec_minus(r.w).spec_larger(zero),
                    ),
                    EditMode::ResizeW | EditMode::ResizeNW | EditMode::ResizeSW => r.x.spec_plus(
                        r.w.spec_minus(nr.w),
                    ),
                    _ => r.x,
                },
                zero,
                room_x,
            )
            &&& nr.y == coord::clamped(
                match d.mode {
                    EditMode::Move => coord::clamped(
                        r.y.spec_plus(dy),
                        zero,
                        win_h.spec_minus(r.h).spec_larger(zero),
                    ),
                    EditMode::ResizeN | EditMode::ResizeNE | EditMode::ResizeNW => r.y.spec_plus(
                        r.h.spec_minus(nr.h),
                    ),
                    _ => r.y,
                },
                zero,
                room_y,
            )
        }),
{
}

} // verus!
