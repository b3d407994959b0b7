//! Integer rules of the dot-grid background: how many grid cells are
//! visited and which dots are on screen.

use vstd::prelude::*;

verus! {

/// Most grid lines visited per axis.
pub const MAX_DOTS_PER_AXIS: i64 = 500;

/// The last grid index visited on an axis whose visible lines run from
/// `start` to `end`: at most `MAX_DOTS_PER_AXIS` lines past `start`.
pub open spec fn grid_last_spec(start: int, end: int) -> int {
    let count = if end - start + 1 < MAX_DOTS_PER_AXIS { end - start + 1 } else { MAX_DOTS_PER_AXIS as int };
    if end < start + count { end } else { start + count }
}

/// Computes the last grid index to visit on one axis.
pub fn grid_last(start: i64, end: i64) -> (r: i64)
    requires
        i64::MIN <= end - start <= i64::MAX - 1,
        start + MAX_DOTS_PER_AXIS <= i64::MAX,
    ensures
        r == grid_last_spec(start as int, end as int),
        r <= start + MAX_DOTS_PER_AXIS,
{
    let span = end - start + 1;
    let count = if span < MAX_DOTS_PER_AXIS { span } else { MAX_DOTS_PER_AXIS };
    if end < start + count { end } else { start + count }
}

/// Whether a dot of side `dot` at `(ix, iy)` touches the screen.
pub fn dot_on_screen(ix: i32, iy: i32, dot: i32, screen_w: i32, screen_h: i32) -> (r: bool)
    ensures
        r == !(ix + dot < 0 || iy + dot < 0 || ix > screen_w || iy > screen_h),
{
    let ix = ix as i64;
    let iy = iy as i64;
    let d = dot as i64;
    !(ix + d < 0 || iy + d < 0 || ix > screen_w as i64 || iy > screen_h as i64)
}

} // verus!
