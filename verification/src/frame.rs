//! The order in which a frame's render elements are handed to the renderer.

use vstd::prelude::*;

verus! {

/// The element groups of one frame.
pub struct FrameLayers<T> {
    /// Rounded-corner masks of the panel.
    pub panel_clip: Vec<T>,
    /// The panel bar and its pills.
    pub panel: Vec<T>,
    /// Rounded-corner mask of the minimap.
    pub minimap_clip: Vec<T>,
    /// The minimap.
    pub minimap: Vec<T>,
    /// Masks that round the windows' corners.
    pub corner_clips: Vec<T>,
    /// The windows themselves.
    pub windows: Vec<T>,
    /// Borders, title bars and shadows.
    pub decorations: Vec<T>,
    /// The canvas background.
    pub background: Vec<T>,
}

/// All elements of a frame, front to back: the panel's mask and the panel,
/// the minimap's mask and the minimap, the window corner masks, the windows,
/// their decorations, and the background last.
pub open spec fn frame_spec<T>(l: FrameLayers<T>) -> Seq<T> {
    l.panel_clip@ + l.panel@ + l.minimap_clip@ + l.minimap@ + l.corner_clips@ + l.windows@
        + l.decorations@ + l.background@
}

/// Joins a frame's element groups into the front-to-back list the renderer
/// draws, the first element on top.
pub fn compose_frame<T>(layers: FrameLayers<T>) -> (r: Vec<T>)
    ensures
        r@ == frame_spec(layers),
{
    let FrameLayers {
        panel_clip,
        mut panel,
        mut minimap_clip,
        mut minimap,
        mut corner_clips,
        mut windows,
        mut decorations,
        mut background,
    } = layers;
    let mut all = panel_clip;
    all.append(&mut panel);
    all.append(&mut minimap_clip);
    all.append(&mut minimap);
    all.append(&mut corner_clips);
    all.append(&mut windows);
    all.append(&mut decorations);
    all.append(&mut background);
    all
}

} // verus!
