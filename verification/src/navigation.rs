//! Bounding box of the windows on the canvas.

use vstd::prelude::*;

verus! {

/// The right edge `x + w` of a window rectangle `(x, y, w, h)`.
pub open spec fn right_edge(r: (i32, i32, i32, i32)) -> int {
    r.0 + r.2
}

/// The bottom edge `y + h` of a window rectangle `(x, y, w, h)`.
pub open spec fn bottom_edge(r: (i32, i32, i32, i32)) -> int {
    r.1 + r.3
}

/// `b = (x, y, w, h)` is the smallest box holding every window: its left
/// and top edges are the least window left and top edges, its right and
/// bottom edges the greatest window right and bottom edges.
pub open spec fn is_bbox(windows: Seq<(i32, i32, i32, i32)>, b: (i64, i64, i64, i64)) -> bool {
    &&& forall|i: int| 0 <= i < windows.len() ==> b.0 <= (#[trigger] windows[i]).0
    &&& forall|i: int| 0 <= i < windows.len() ==> b.1 <= (#[trigger] windows[i]).1
    &&& forall|i: int| 0 <= i < windows.len() ==> right_edge(#[trigger] windows[i]) <= b.0 + b.2
    &&& forall|i: int| 0 <= i < windows.len() ==> bottom_edge(#[trigger] windows[i]) <= b.1 + b.3
    &&& exists|i: int| 0 <= i < windows.len() && b.0 == (#[trigger] windows[i]).0
    &&& exists|i: int| 0 <= i < windows.len() && b.1 == (#[trigger] windows[i]).1
    &&& exists|i: int| 0 <= i < windows.len() && b.0 + b.2 == right_edge(#[trigger] windows[i])
    &&& exists|i: int| 0 <= i < windows.len() && b.1 + b.3 == bottom_edge(#[trigger] windows[i])
}

/// Bounding box `(x, y, w, h)` of all windows, each given as `(x, y, w, h)`;
/// `None` when there are none.
pub fn all_windows_bbox(windows: &Vec<(i32, i32, i32, i32)>) -> (r: Option<(i64, i64, i64, i64)>)
    ensures
        windows@.len() == 0 <==> r is None,
        r matches Some(b) ==> is_bbox(windows@, b),
{
    let n = windows.len();
    if n == 0 {
        return None;
    }
    let mut min_x: i64 = windows[0].0 as i64;
    let mut min_y: i64 = windows[0].1 as i64;
    let mut max_x: i64 = windows[0].0 as i64 + windows[0].2 as i64;
    let mut max_y: i64 = windows[0].1 as i64 + windows[0].3 as i64;
    let ghost mut ix: int = 0;
    let ghost mut iy: int = 0;
    let ghost mut jx: int = 0;
    let ghost mut jy: int = 0;
    let mut i: usize = 1;
    while i < n
        invariant
            n == windows@.len(),
            1 <= i <= n,
            0 <= ix < i && 0 <= iy < i && 0 <= jx < i && 0 <= jy < i,
            min_x == windows@[ix].0,
            min_y == windows@[iy].1,
            max_x == right_edge(windows@[jx]),
            max_y == bottom_edge(windows@[jy]),
            forall|k: int| 0 <= k < i ==> min_x <= (#[trigger] windows@[k]).0,
            forall|k: int| 0 <= k < i ==> min_y <= (#[trigger] windows@[k]).1,
            forall|k: int| 0 <= k < i ==> right_edge(#[trigger] windows@[k]) <= max_x,
            forall|k: int| 0 <= k < i ==> bottom_edge(#[trigger] windows@[k]) <= max_y,
        decreases n - i,
    {
        let (x, y, w, h) = windows[i];
        if (x as i64) < min_x {
            min_x = x as i64;
            proof { ix = i as int; }
        }
        if (y as i64) < min_y {
            min_y = y as i64;
            proof { iy = i as int; }
        }
        if x as i64 + w as i64 > max_x {
            max_x = x as i64 + w as i64;
            proof { jx = i as int; }
        }
        if y as i64 + h as i64 > max_y {
            max_y = y as i64 + h as i64;
            proof { jy = i as int; }
        }
        i = i + 1;
    }
    let b = (min_x, min_y, max_x - min_x, max_y - min_y);
    assert(b.0 == windows@[ix].0);
    assert(b.1 == windows@[iy].1);
    assert(b.0 + b.2 == right_edge(windows@[jx]));
    assert(b.1 + b.3 == bottom_edge(windows@[jy]));
    Some(b)
}

} // verus!
