//! Layout of the built-in panel: a bar along the top or bottom of the
//! screen with one indicator pill per window.

use vstd::prelude::*;

verus! {

/// Panel height in screen pixels.
pub const PANEL_HEIGHT: i32 = 32;
/// Pill indicator height.
pub const PILL_HEIGHT: i32 = 20;
/// Pill indicator width.
pub const PILL_WIDTH: i32 = 48;
/// Gap between pills.
pub const PILL_GAP: i32 = 6;
/// Vertical offset of the pills inside the bar.
pub const PILL_Y_OFFSET: i32 = 6;
/// Left padding of the pills area.
pub const PILLS_LEFT_PAD: i32 = 12;

/// Position of the panel on screen.
#[derive(Debug, Clone, Copy, PartialEq, Eq, Structural)]
pub enum PanelPosition {
    Top,
    Bottom,
}

/// Describes a window to show on the panel.
pub struct PanelWindow {
    pub focused: bool,
}

/// How a panel rectangle is painted.
#[derive(Debug, Clone, Copy, PartialEq, Eq, Structural)]
pub enum PanelPaint {
    /// The bar itself.
    Background,
    /// A window's pill.
    Pill,
    /// The focused window's pill.
    FocusedPill,
}

/// A solid rectangle of the panel, in screen pixels.
#[derive(Debug, Clone, Copy, PartialEq, Eq, Structural)]
pub struct PanelRect {
    pub x: i32,
    pub y: i32,
    pub w: i32,
    pub h: i32,
    pub paint: PanelPaint,
}

/// The top edge of the bar.
pub open spec fn bar_y(position: PanelPosition, screen_h: int) -> int {
    match position {
        PanelPosition::Top => 0,
        PanelPosition::Bottom => screen_h - PANEL_HEIGHT,
    }
}

/// The rectangle of pill `k`.
pub open spec fn pill_rect(position: PanelPosition, screen_h: int, k: int, focused: bool) -> PanelRect {
    PanelRect {
        x: (PILLS_LEFT_PAD + k * (PILL_WIDTH + PILL_GAP)) as i32,
        y: (bar_y(position, screen_h) + PILL_Y_OFFSET) as i32,
        w: PILL_WIDTH,
        h: PILL_HEIGHT,
        paint: if focused { PanelPaint::FocusedPill } else { PanelPaint::Pill },
    }
}

/// Lays out the panel: the bar across the whole screen width, then one pill
/// per window from the left, `PILL_GAP` apart. A screen with no width gets
/// no panel. The pill positions must be representable as `i32` coordinates.
pub fn panel_elements(
    position: PanelPosition,
    screen_size: (i32, i32),
    windows: &Vec<PanelWindow>,
) -> (r: Vec<PanelRect>)
    requires
        position == PanelPosition::Bottom ==> screen_size.1 >= i32::MIN + PANEL_HEIGHT,
        PILLS_LEFT_PAD + windows.len() * (PILL_WIDTH + PILL_GAP) <= i32::MAX,
    ensures
        screen_size.0 <= 0 ==> r.len() == 0,
        screen_size.0 > 0 ==> {
            &&& r.len() == 1 + windows.len()
            &&& r@[0] == (PanelRect {
                x: 0,
                y: bar_y(position, screen_size.1 as int) as i32,
                w: screen_size.0,
                h: PANEL_HEIGHT,
                paint: PanelPaint::Background,
            })
            &&& forall|k: int|
                1 <= k <= windows.len() ==> #[trigger] r@[k] == pill_rect(
                    position,
                    screen_size.1 as int,
                    k - 1,
                    windows@[k - 1].focused,
                )
        },
{
    let (sw, sh) = screen_size;
    let bar_w = sw;
    let mut elems: Vec<PanelRect> = Vec::new();
    if bar_w <= 0 {
        return elems;
    }
    let by = match position {
        PanelPosition::Top => 0,
        PanelPosition::Bottom => sh - PANEL_HEIGHT,
    };
    elems.push(PanelRect { x: 0, y: by, w: bar_w, h: PANEL_HEIGHT, paint: PanelPaint::Background });
    let py = by + PILL_Y_OFFSET;
    let mut px: i32 = PILLS_LEFT_PAD;
    let n = windows.len();
    let mut i: usize = 0;
    while i < n
        invariant
            n == windows.len(),
            i <= n,
            PILLS_LEFT_PAD + n * (PILL_WIDTH + PILL_GAP) <= i32::MAX,
            by as int == bar_y(position, sh as int),
            py as int == by + PILL_Y_OFFSET,
            px == PILLS_LEFT_PAD + i * (PILL_WIDTH + PILL_GAP),
            elems.len() == 1 + i,
            elems@[0] == (PanelRect {
                x: 0,
                y: by,
                w: bar_w,
                h: PANEL_HEIGHT,
                paint: PanelPaint::Background,
            }),
            forall|k: int|
                1 <= k <= i ==> #[trigger] elems@[k] == pill_rect(
                    position,
                    sh as int,
                    k - 1,
                    windows@[k - 1].focused,
                ),
        decreases n - i,
    {
        proof {
            assert((i as int + 1) * 54 <= (n as int) * 54) by (nonlinear_arith)
                requires i < n;
            assert((i as int) * 54 + 54 == (i as int + 1) * 54) by (nonlinear_arith);
        }
        let paint = if windows[i].focused { PanelPaint::FocusedPill } else { PanelPaint::Pill };
        elems.push(PanelRect { x: px, y: py, w: PILL_WIDTH, h: PILL_HEIGHT, paint });
        proof {
            assert(elems@[i + 1] == pill_rect(position, sh as int, i as int, windows@[i as int].focused));
        }
        px = px + (PILL_WIDTH + PILL_GAP);
        i = i + 1;
    }
    elems
}

/// The panel's window list: one entry per mapped window, in stacking order,
/// marking the window that holds focus.
pub fn panel_windows(mapped: &Vec<u64>, focused: Option<u64>) -> (r: Vec<PanelWindow>)
    ensures
        r.len() == mapped.len(),
        forall|k: int| 0 <= k < r.len() ==> (#[trigger] r@[k]).focused == (focused == Some(mapped@[k])),
{
    let mut r: Vec<PanelWindow> = Vec::new();
    let n = mapped.len();
    let mut i: usize = 0;
    while i < n
        invariant
            n == mapped.len(),
            i <= n,
            r.len() == i,
            forall|k: int| 0 <= k < i ==> (#[trigger] r@[k]).focused == (focused == Some(mapped@[k])),
        decreases n - i,
    {
        let f = match focused {
            Some(w) => w == mapped[i],
            None => false,
        };
        r.push(PanelWindow { focused: f });
        i = i + 1;
    }
    r
}

} // verus!
