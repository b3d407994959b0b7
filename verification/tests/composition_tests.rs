use canvaswm::decor::{decoration_order, DecorationLayer};
use canvaswm::frame::{compose_frame, FrameLayers};
use canvaswm::minimap::{minimap_layout, MiniElement, MiniPaint, MiniRect, MiniWindow};

#[test]
fn decorations_grouped_per_window() {
    let r = decoration_order(2, true, true, true);
    assert_eq!(
        r,
        vec![
            (0, DecorationLayer::Border),
            (0, DecorationLayer::TitleBar),
            (0, DecorationLayer::Shadow),
            (1, DecorationLayer::Border),
            (1, DecorationLayer::TitleBar),
            (1, DecorationLayer::Shadow),
        ]
    );
    assert_eq!(decoration_order(3, true, false, true).len(), 6);
    assert_eq!(decoration_order(3, true, false, true)[5], (2, DecorationLayer::Shadow));
    assert!(decoration_order(0, true, true, true).is_empty());
    assert!(decoration_order(4, false, false, false).is_empty());
}

#[test]
fn minimap_without_windows_draws_nothing() {
    assert!(minimap_layout(720, &vec![], (20, 570, 50, 40)).is_empty());
}

#[test]
fn minimap_backdrop_windows_then_outline() {
    let ws = vec![
        MiniWindow { x: 20, y: 570, w: 10, h: 10, focused: false },
        MiniWindow { x: 1000, y: 570, w: 10, h: 10, focused: false },
        MiniWindow { x: 40, y: 600, w: 1, h: 1, focused: true },
    ];
    let r = minimap_layout(720, &ws, (30, 580, 50, 40));
    assert_eq!(r.len(), 1 + 2 + 4);
    assert_eq!(
        r[0],
        MiniElement { rect: MiniRect { x: 16, y: 564, w: 200, h: 140 }, paint: MiniPaint::Background }
    );
    assert_eq!(
        r[1],
        MiniElement { rect: MiniRect { x: 20, y: 570, w: 10, h: 10 }, paint: MiniPaint::Window }
    );
    assert_eq!(
        r[2],
        MiniElement { rect: MiniRect { x: 40, y: 600, w: 2, h: 2 }, paint: MiniPaint::FocusedWindow }
    );
    assert_eq!(
        r[3],
        MiniElement { rect: MiniRect { x: 30, y: 580, w: 50, h: 1 }, paint: MiniPaint::Viewport }
    );
    assert_eq!(r[6].rect, MiniRect { x: 79, y: 581, w: 1, h: 38 });
}

#[test]
fn frame_is_front_to_back() {
    let layers = FrameLayers {
        panel_clip: vec![1],
        panel: vec![2, 3],
        minimap_clip: vec![],
        minimap: vec![4],
        corner_clips: vec![5],
        windows: vec![6, 7],
        decorations: vec![8],
        background: vec![9],
    };
    assert_eq!(compose_frame(layers), vec![1, 2, 3, 4, 5, 6, 7, 8, 9]);
}
