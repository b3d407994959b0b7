//! Integer layout of the minimap overlay: its place on screen, the
//! clamping of window and viewport rectangles to its area, and the list of
//! rectangles it draws.

use vstd::prelude::*;

verus! {

/// Width of the minimap panel in screen pixels.
pub const WIDTH: i32 = 200;
/// Height of the minimap panel in screen pixels.
pub const HEIGHT: i32 = 140;
/// Distance from screen edge in screen pixels.
pub const MARGIN: i32 = 16;
/// Inset from minimap edges for content placement.
pub const CONTENT_INSET: i32 = 2;
/// Minimum rendered size for a window rectangle on the minimap.
pub const MIN_RECT_PX: i32 = 2;
/// Thickness of the viewport outline.
pub const VIEWPORT_BORDER: i32 = 1;

/// A rectangle in screen pixels.
#[derive(Debug, Clone, Copy, PartialEq, Eq, Structural)]
pub struct MiniRect {
    pub x: i32,
    pub y: i32,
    pub w: i32,
    pub h: i32,
}

/// Top-left corner of the minimap: bottom-left of the screen, inside the
/// margin.
pub fn minimap_origin(screen_h: i32) -> (r: (i32, i32))
    requires
        screen_h >= i32::MIN + HEIGHT + MARGIN,
    ensures
        r.0 == MARGIN,
        r.1 == screen_h - HEIGHT - MARGIN,
{
    (MARGIN, screen_h - HEIGHT - MARGIN)
}

/// `r` lies inside the minimap whose top-left corner is `origin`.
pub open spec fn inside_minimap(r: MiniRect, origin: (i32, i32)) -> bool {
    &&& origin.0 <= r.x
    &&& origin.1 <= r.y
    &&& 0 < r.w
    &&& 0 < r.h
    &&& r.x + r.w <= origin.0 + WIDTH
    &&& r.y + r.h <= origin.1 + HEIGHT
}

/// The rectangle `(x, y, w, h)` grown to the minimum size, then cut to the
/// minimap's right and bottom edges and moved past its left and top edges;
/// nothing when no area is left.
pub open spec fn clamp_spec(origin: (i32, i32), x: i32, y: i32, w: i32, h: i32) -> Option<MiniRect> {
    let cx = if x > origin.0 { x as int } else { origin.0 as int };
    let cy = if y > origin.1 { y as int } else { origin.1 as int };
    let gw = if w > MIN_RECT_PX { w as int } else { MIN_RECT_PX as int };
    let gh = if h > MIN_RECT_PX { h as int } else { MIN_RECT_PX as int };
    let room_w = origin.0 + WIDTH - cx;
    let room_h = origin.1 + HEIGHT - cy;
    let cw = if gw < room_w { gw } else { room_w };
    let ch = if gh < room_h { gh } else { room_h };
    if cw <= 0 || ch <= 0 {
        None
    } else {
        Some(MiniRect { x: cx as i32, y: cy as i32, w: cw as i32, h: ch as i32 })
    }
}

/// Clamps a scaled rectangle to the minimap area.
pub fn clamp_to_minimap(origin: (i32, i32), x: i32, y: i32, w: i32, h: i32) -> (r: Option<MiniRect>)
    requires
        origin.0 <= i32::MAX - WIDTH,
        origin.1 <= i32::MAX - HEIGHT,
    ensures
        r == clamp_spec(origin, x, y, w, h),
        r matches Some(m) ==> inside_minimap(m, origin),
{
    let (ox, oy) = origin;
    let cx: i32 = if x > ox { x } else { ox };
    let cy: i32 = if y > oy { y } else { oy };
    let gw: i32 = if w > MIN_RECT_PX { w } else { MIN_RECT_PX };
    let gh: i32 = if h > MIN_RECT_PX { h } else { MIN_RECT_PX };
    let room_w: i64 = (ox as i64) + (WIDTH as i64) - (cx as i64);
    let room_h: i64 = (oy as i64) + (HEIGHT as i64) - (cy as i64);
    let cw: i64 = if (gw as i64) < room_w { gw as i64 } else { room_w };
    let ch: i64 = if (gh as i64) < room_h { gh as i64 } else { room_h };
    if cw <= 0 || ch <= 0 {
        None
    } else {
        Some(MiniRect { x: cx, y: cy, w: cw as i32, h: ch as i32 })
    }
}

/// The four edges of the viewport indicator for a clamped viewport
/// rectangle: top, bottom, left, right, each `VIEWPORT_BORDER` thick.
pub open spec fn outline_spec(v: MiniRect) -> Seq<MiniRect> {
    let b = VIEWPORT_BORDER;
    seq![
        MiniRect { x: v.x, y: v.y, w: v.w, h: b },
        MiniRect { x: v.x, y: (v.y + v.h - b) as i32, w: v.w, h: b },
        MiniRect { x: v.x, y: (v.y + b) as i32, w: b, h: (v.h - b * 2) as i32 },
        MiniRect { x: (v.x + v.w - b) as i32, y: (v.y + b) as i32, w: b, h: (v.h - b * 2) as i32 },
    ]
}

/// The outline of the visible canvas area on the minimap, from its scaled
/// rectangle: empty when the clamped rectangle has no area.
pub fn viewport_outline(origin: (i32, i32), x: i32, y: i32, w: i32, h: i32) -> (r: Vec<MiniRect>)
    requires
        origin.0 <= i32::MAX - WIDTH,
        origin.1 <= i32::MAX - HEIGHT,
    ensures
        clamp_spec(origin, x, y, w, h) is None ==> r@.len() == 0,
        clamp_spec(origin, x, y, w, h) matches Some(v) ==> r@ == outline_spec(v),
{
    let mut r: Vec<MiniRect> = Vec::new();
    match clamp_to_minimap(origin, x, y, w, h) {
        None => {},
        Some(v) => {
            let b = VIEWPORT_BORDER;
            r.push(MiniRect { x: v.x, y: v.y, w: v.w, h: b });
            r.push(MiniRect { x: v.x, y: v.y + v.h - b, w: v.w, h: b });
            r.push(MiniRect { x: v.x, y: v.y + b, w: b, h: v.h - b * 2 });
            r.push(MiniRect { x: v.x + v.w - b, y: v.y + b, w: b, h: v.h - b * 2 });
            assert(r@ == outline_spec(v));
        },
    }
    r
}

/// A window as the minimap sees it: its rectangle already scaled to minimap
/// pixels (position on screen, size before the minimum is applied).
#[derive(Debug, Clone, Copy, PartialEq, Eq, Structural)]
pub struct MiniWindow {
    pub x: i32,
    pub y: i32,
    pub w: i32,
    pub h: i32,
    pub focused: bool,
}

/// How a minimap rectangle is painted.
#[derive(Debug, Clone, Copy, PartialEq, Eq, Structural)]
pub enum MiniPaint {
    /// The minimap's backdrop.
    Background,
    /// A window.
    Window,
    /// The focused window.
    FocusedWindow,
    /// An edge of the viewport outline.
    Viewport,
}

/// A painted rectangle of the minimap.
#[derive(Debug, Clone, Copy, PartialEq, Eq, Structural)]
pub struct MiniElement {
    pub rect: MiniRect,
    pub paint: MiniPaint,
}

/// The rectangles of the windows, in order, each clamped to the minimap;
/// a window left with no area is skipped.
pub open spec fn window_elements(origin: (i32, i32), ws: Seq<MiniWindow>) -> Seq<MiniElement>
    decreases ws.len(),
{
    if ws.len() == 0 {
        Seq::empty()
    } else {
        let prev = window_elements(origin, ws.drop_last());
        let w = ws.last();
        match clamp_spec(origin, w.x, w.y, w.w, w.h) {
            Some(m) => prev.push(
                MiniElement {
                    rect: m,
                    paint: if w.focused { MiniPaint::FocusedWindow } else { MiniPaint::Window },
                },
            ),
            None => prev,
        }
    }
}

/// The edges of the viewport outline, painted as such.
pub open spec fn viewport_elements(origin: (i32, i32), view: (i32, i32, i32, i32)) -> Seq<
    MiniElement,
> {
    match clamp_spec(origin, view.0, view.1, view.2, view.3) {
        Some(v) => outline_spec(v).map_values(
            |r: MiniRect| MiniElement { rect: r, paint: MiniPaint::Viewport },
        ),
        None => Seq::empty(),
    }
}

/// What the minimap draws, front to back: nothing without windows; else its
/// backdrop at the bottom-left of the screen, the windows in order, then the
/// outline of the visible area.
pub open spec fn minimap_spec(screen_h: int, ws: Seq<MiniWindow>, view: (i32, i32, i32, i32)) -> Seq<
    MiniElement,
> {
    if ws.len() == 0 {
        Seq::empty()
    } else {
        let origin = (MARGIN, (screen_h - HEIGHT - MARGIN) as i32);
        seq![
            MiniElement {
                rect: MiniRect { x: origin.0, y: origin.1, w: WIDTH, h: HEIGHT },
                paint: MiniPaint::Background,
            },
        ] + window_elements(origin, ws) + viewport_elements(origin, view)
    }
}

proof fn lemma_window_elements_inside(origin: (i32, i32), ws: Seq<MiniWindow>)
    requires
        origin.0 <= i32::MAX - WIDTH,
        origin.1 <= i32::MAX - HEIGHT,
    ensures
        window_elements(origin, ws).len() <= ws.len(),
        forall|k: int|
            0 <= k < window_elements(origin, ws).len() ==> inside_minimap(
                #[trigger] window_elements(origin, ws)[k].rect,
                origin,
            ),
    decreases ws.len(),
{
    if ws.len() > 0 {
        lemma_window_elements_inside(origin, ws.drop_last());
    }
}

/// Everything the minimap draws stays inside its area, provided the
/// visible area, once clamped, is more than two outline widths tall (else
/// the outline's side edges have no height).
pub proof fn law_minimap_stays_inside(screen_h: int, ws: Seq<MiniWindow>, view: (i32, i32, i32, i32))
    requires
        i32::MIN + HEIGHT + MARGIN <= screen_h <= i32::MAX,
        clamp_spec((MARGIN, (screen_h - HEIGHT - MARGIN) as i32), view.0, view.1, view.2, view.3)
            matches Some(v) ==> v.h > 2 * VIEWPORT_BORDER,
    ensures
        forall|k: int|
            0 <= k < minimap_spec(screen_h, ws, view).len() ==> inside_minimap(
                #[trigger] minimap_spec(screen_h, ws, view)[k].rect,
                (MARGIN, (screen_h - HEIGHT - MARGIN) as i32),
            ),
{
    let origin = (MARGIN, (screen_h - HEIGHT - MARGIN) as i32);
    lemma_window_elements_inside(origin, ws);
    if ws.len() > 0 {
        let head = seq![
            MiniElement {
                rect: MiniRect { x: origin.0, y: origin.1, w: WIDTH, h: HEIGHT },
                paint: MiniPaint::Background,
            },
        ];
        let we = window_elements(origin, ws);
        let ve = viewport_elements(origin, view);
        assert forall|k: int| 0 <= k < minimap_spec(screen_h, ws, view).len() implies inside_minimap(
            #[trigger] minimap_spec(screen_h, ws, view)[k].rect,
            origin,
        ) by {
            if k == 0 {
            } else if k < 1 + we.len() {
                assert(minimap_spec(screen_h, ws, view)[k] == we[k - 1]);
            } else {
                let j = k - 1 - we.len();
                assert(minimap_spec(screen_h, ws, view)[k] == ve[j]);
                law_outline_inside_minimap(origin, view.0, view.1, view.2, view.3);
                let v = clamp_spec(origin, view.0, view.1, view.2, view.3).unwrap();
                assert(ve[j].rect == outline_spec(v)[j]);
            }
        }
    }
}

/// Lays out the minimap from the windows and the visible area `view`, all
/// already scaled to minimap pixels.
pub fn minimap_layout(screen_h: i32, windows: &Vec<MiniWindow>, view: (i32, i32, i32, i32)) -> (r: Vec<
    MiniElement,
>)
    requires
        screen_h >= i32::MIN + HEIGHT + MARGIN,
    ensures
        r@ == minimap_spec(screen_h as int, windows@, view),
{
    let mut r: Vec<MiniElement> = Vec::new();
    let n = windows.len();
    if n == 0 {
        return r;
    }
    let origin = minimap_origin(screen_h);
    r.push(
        MiniElement {
            rect: MiniRect { x: origin.0, y: origin.1, w: WIDTH, h: HEIGHT },
            paint: MiniPaint::Background,
        },
    );
    let ghost head = r@;
    let mut i: usize = 0;
    while i < n
        invariant
            n == windows@.len(),
            i <= n,
            origin == (MARGIN, (screen_h - HEIGHT - MARGIN) as i32),
            origin.0 <= i32::MAX - WIDTH,
            origin.1 <= i32::MAX - HEIGHT,
            r@ == head + window_elements(origin, windows@.take(i as int)),
        decreases n - i,
    {
        let w = windows[i];
        assert(windows@.take(i + 1).drop_last() == windows@.take(i as int));
        assert(windows@.take(i + 1).last() == w);
        match clamp_to_minimap(origin, w.x, w.y, w.w, w.h) {
            Some(m) => {
                let paint = if w.focused { MiniPaint::FocusedWindow } else { MiniPaint::Window };
                r.push(MiniElement { rect: m, paint });
            },
            None => {},
        }
        i = i + 1;
    }
    assert(windows@.take(n as int) == windows@);
    let ghost body = r@;
    let edges = viewport_outline(origin, view.0, view.1, view.2, view.3);
    let k = edges.len();
    let mut j: usize = 0;
    while j < k
        invariant
            k == edges@.len(),
            j <= k,
            r@ == body + edges@.take(j as int).map_values(
                |e: MiniRect| MiniElement { rect: e, paint: MiniPaint::Viewport },
            ),
        decreases k - j,
    {
        r.push(MiniElement { rect: edges[j], paint: MiniPaint::Viewport });
        j = j + 1;
        assert(edges@.take(j as int).map_values(
            |e: MiniRect| MiniElement { rect: e, paint: MiniPaint::Viewport },
        ) =~= edges@.take(j - 1).map_values(
            |e: MiniRect| MiniElement { rect: e, paint: MiniPaint::Viewport },
        ).push(MiniElement { rect: edges@[j - 1], paint: MiniPaint::Viewport }));
    }
    assert(edges@.take(k as int) == edges@);
    assert(r@ =~= minimap_spec(screen_h as int, windows@, view));
    r
}

/// Every edge of the viewport outline lies inside the minimap, except that
/// the side edges of a viewport only one pixel tall have no height.
pub proof fn law_outline_inside_minimap(origin: (i32, i32), x: i32, y: i32, w: i32, h: i32)
    requires
        origin.0 <= i32::MAX - WIDTH,
        origin.1 <= i32::MAX - HEIGHT,
        clamp_spec(origin, x, y, w, h) matches Some(v) && v.h > 2 * VIEWPORT_BORDER,
    ensures
        forall|k: int|
            0 <= k < 4 ==> inside_minimap(
                #[trigger] outline_spec(clamp_spec(origin, x, y, w, h).unwrap())[k],
                origin,
            ),
{
}

} // verus!
