//! Shared constants and the default overlay region.

use vstd::prelude::*;

use crate::coord::Coord;
use crate::region::RectF;

verus! {

/// Minimum region size (logical pixels).
pub const MIN_REGION: i64 = 24;

/// Edge grab zone for the region resize handles (logical pixels).
pub const HANDLE: i64 = 14;

/// Size of the drawn region resize handles (logical pixels).
pub const HANDLE_SIZE: i64 = 12;

/// Default overlay region (in window points, origin at the top left).
pub fn default_region<T: Coord>() -> (r: RectF<T>)
    ensures
        r == (RectF {
            x: T::spec_int(300),
            y: T::spec_int(200),
            w: T::spec_int(1320),
            h: T::spec_int(680),
        }),
{
    RectF { x: T::from_int(300), y: T::from_int(200), w: T::from_int(1320), h: T::from_int(680) }
}

} // verus!
