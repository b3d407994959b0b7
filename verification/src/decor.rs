//! Integer layout of window decorations: which decoration quads a window
//! gets, in which back-to-front order, and their rectangles.

use vstd::prelude::*;

verus! {

/// Minimum screen-pixel width of a border.
pub const MIN_SCREEN_BORDER: i32 = 1;

/// A decoration quad drawn around a window.
#[derive(Debug, Clone, Copy, PartialEq, Eq, Structural)]
pub enum DecorationLayer {
    /// The border ring around the window.
    Border,
    /// The server-side title bar above the window.
    TitleBar,
    /// The drop shadow behind everything else.
    Shadow,
}

/// A rectangle in screen pixels.
#[derive(Debug, Clone, Copy, PartialEq, Eq, Structural)]
pub struct ScreenRect {
    pub x: i32,
    pub y: i32,
    pub w: i32,
    pub h: i32,
}

/// The decoration quads of one window, front to back: the border, then the
/// title bar, then the shadow, each only where it is drawn. The shadow comes
/// last so that it renders behind the border ring.
pub open spec fn layers_spec(border: bool, title_bar: bool, shadow: bool) -> Seq<DecorationLayer> {
    (if border { seq![DecorationLayer::Border] } else { Seq::empty() })
        + (if title_bar { seq![DecorationLayer::TitleBar] } else { Seq::empty() })
        + (if shadow { seq![DecorationLayer::Shadow] } else { Seq::empty() })
}

/// Lists the decoration quads of one window in front-to-back order.
pub fn decoration_layers(border: bool, title_bar: bool, shadow: bool) -> (r: Vec<DecorationLayer>)
    ensures
        r@ == layers_spec(border, title_bar, shadow),
{
    let mut r: Vec<DecorationLayer> = Vec::new();
    if border {
        r.push(DecorationLayer::Border);
    }
    if title_bar {
        r.push(DecorationLayer::TitleBar);
    }
    if shadow {
        r.push(DecorationLayer::Shadow);
    }
    assert(r@ == layers_spec(border, title_bar, shadow));
    r
}

/// The shadow, when drawn, is always the backmost quad.
pub proof fn law_shadow_is_backmost(border: bool, title_bar: bool)
    ensures
        layers_spec(border, title_bar, true).last() == DecorationLayer::Shadow,
        forall|k: int|
            0 <= k < layers_spec(border, title_bar, true).len() - 1 ==> #[trigger] layers_spec(
                border,
                title_bar,
                true,
            )[k] != DecorationLayer::Shadow,
{
}

/// The decoration quads of `n` windows, front to back: window after window,
/// each with its own quads in the order `layers` gives, tagged with the
/// window's index.
pub open spec fn window_decorations(n: nat, layers: Seq<DecorationLayer>) -> Seq<
    (usize, DecorationLayer),
>
    decreases n,
{
    if n == 0 {
        Seq::empty()
    } else {
        window_decorations((n - 1) as nat, layers) + layers.map_values(
            |l: DecorationLayer| ((n - 1) as usize, l),
        )
    }
}

/// Lists the decoration quads of `window_count` windows that share the same
/// decoration settings, in front-to-back order.
pub fn decoration_order(window_count: usize, border: bool, title_bar: bool, shadow: bool) -> (r: Vec<
    (usize, DecorationLayer),
>)
    ensures
        r@ == window_decorations(window_count as nat, layers_spec(border, title_bar, shadow)),
{
    let layers = decoration_layers(border, title_bar, shadow);
    let mut r: Vec<(usize, DecorationLayer)> = Vec::new();
    let mut i: usize = 0;
    while i < window_count
        invariant
            i <= window_count,
            layers@ == layers_spec(border, title_bar, shadow),
            r@ == window_decorations(i as nat, layers@),
        decreases window_count - i,
    {
        let k = layers.len();
        let mut j: usize = 0;
        while j < k
            invariant
                k == layers@.len(),
                j <= k,
                i < window_count,
                r@ == window_decorations(i as nat, layers@) + layers@.take(j as int).map_values(
                    |l: DecorationLayer| (i, l),
                ),
            decreases k - j,
        {
            r.push((i, layers[j]));
            j = j + 1;
            assert(layers@.take(j as int).map_values(|l: DecorationLayer| (i, l))
                =~= layers@.take(j - 1).map_values(|l: DecorationLayer| (i, l)).push(
                (i, layers@[j - 1]),
            ));
        }
        assert(layers@.take(k as int) == layers@);
        i = i + 1;
        assert(window_decorations(i as nat, layers@) == window_decorations((i - 1) as nat, layers@)
            + layers@.map_values(|l: DecorationLayer| ((i - 1) as usize, l)));
    }
    r
}

proof fn lemma_window_decorations(n: nat, layers: Seq<DecorationLayer>)
    requires
        n <= usize::MAX + 1,
    ensures
        window_decorations(n, layers).len() == n * layers.len(),
        forall|i: int, j: int|
            0 <= i < n && 0 <= j < layers.len() ==> #[trigger] window_decorations(n, layers)[i
                * layers.len() + j] == (i as usize, layers[j]),
    decreases n,
{
    let k = layers.len();
    if n > 0 {
        let m = (n - 1) as nat;
        lemma_window_decorations(m, layers);
        assert(n * k == m * k + k) by (nonlinear_arith)
            requires m == n - 1;
        assert forall|i: int, j: int| 0 <= i < n && 0 <= j < k implies #[trigger] window_decorations(
            n,
            layers,
        )[i * k + j] == (i as usize, layers[j]) by {
            if i < m {
                assert(i * k + j < m * k) by (nonlinear_arith)
                    requires i < m, 0 <= j < k;
                assert(window_decorations(m, layers)[i * k + j] == (i as usize, layers[j]));
            } else {
                assert(i * k == m * k) by (nonlinear_arith)
                    requires i == m;
            }
        }
    }
}

/// Across windows the decoration quads stay grouped: `n` windows with `k`
/// quads each give `n * k` quads, and window `i`'s quad `j` stands at
/// position `i * k + j`.
pub proof fn law_decorations_grouped_by_window(n: nat, border: bool, title_bar: bool, shadow: bool)
    requires
        n <= usize::MAX + 1,
    ensures
        ({
            let layers = layers_spec(border, title_bar, shadow);
            &&& window_decorations(n, layers).len() == n * layers.len()
            &&& forall|i: int, j: int|
                0 <= i < n && 0 <= j < layers.len() ==> #[trigger] window_decorations(n, layers)[i
                    * layers.len() + j] == (i as usize, layers[j])
        }),
{
    lemma_window_decorations(n, layers_spec(border, title_bar, shadow));
}

/// The rectangle `(x, y, w, h)` grown by `d` on every side.
pub fn outset(x: i32, y: i32, w: i32, h: i32, d: i32) -> (r: ScreenRect)
    requires
        i32::MIN <= x - d <= i32::MAX,
        i32::MIN <= y - d <= i32::MAX,
        i32::MIN <= w + 2 * d <= i32::MAX,
        i32::MIN <= h + 2 * d <= i32::MAX,
        i32::MIN <= 2 * d <= i32::MAX,
    ensures
        r == (ScreenRect { x: (x - d) as i32, y: (y - d) as i32, w: (w + 2 * d) as i32, h: (h + 2 * d) as i32 }),
{
    ScreenRect { x: x - d, y: y - d, w: w + d * 2, h: h + d * 2 }
}

/// Border thickness in screen pixels from its rounded-up scaled width:
/// never thinner than one pixel.
pub fn border_pixels(scaled_ceil: i32) -> (r: i32)
    ensures
        r == (if scaled_ceil > MIN_SCREEN_BORDER { scaled_ceil } else { MIN_SCREEN_BORDER }),
        r >= MIN_SCREEN_BORDER,
{
    if scaled_ceil > MIN_SCREEN_BORDER { scaled_ceil } else { MIN_SCREEN_BORDER }
}

/// The server-side title bar of a window at `(x, y)` of width `w`: a bar of
/// height `th` right above it, or nothing when the height is not positive.
pub fn title_bar_rect(x: i32, y: i32, w: i32, th: i32) -> (r: Option<ScreenRect>)
    requires
        th > 0 ==> y - th >= i32::MIN,
    ensures
        th <= 0 ==> r is None,
        th > 0 ==> r == Some(ScreenRect { x, y: (y - th) as i32, w, h: th }),
{
    if th > 0 {
        Some(ScreenRect { x, y: y - th, w, h: th })
    } else {
        None
    }
}

} // verus!
