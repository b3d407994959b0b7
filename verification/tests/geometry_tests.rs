use canvaswm::decor::{decoration_layers, DecorationLayer::{Border, Shadow, TitleBar}};
use canvaswm::decor::{border_pixels, outset, title_bar_rect, ScreenRect};
use canvaswm::grid::{dot_on_screen, grid_last};
use canvaswm::minimap::{clamp_to_minimap, minimap_origin, viewport_outline, MiniRect};
use canvaswm::x11::{configure_geometry, Geometry};

#[test]
fn minimap_sits_bottom_left() {
    assert_eq!(minimap_origin(720), (16, 564));
}

#[test]
fn window_rects_are_clamped() {
    let o = (16, 564);
    assert_eq!(clamp_to_minimap(o, 20, 570, 10, 10), Some(MiniRect { x: 20, y: 570, w: 10, h: 10 }));
    assert_eq!(clamp_to_minimap(o, 20, 570, 0, 1), Some(MiniRect { x: 20, y: 570, w: 2, h: 2 }));
    assert_eq!(clamp_to_minimap(o, 0, 560, 300, 300), Some(MiniRect { x: 16, y: 564, w: 200, h: 140 }));
    assert_eq!(clamp_to_minimap(o, 215, 570, 10, 10), Some(MiniRect { x: 215, y: 570, w: 1, h: 10 }));
    assert_eq!(clamp_to_minimap(o, 216, 570, 10, 10), None);
}

#[test]
fn viewport_outline_has_four_edges() {
    let e = viewport_outline((16, 564), 30, 580, 20, 10);
    assert_eq!(
        e,
        vec![
            MiniRect { x: 30, y: 580, w: 20, h: 1 },
            MiniRect { x: 30, y: 589, w: 20, h: 1 },
            MiniRect { x: 30, y: 581, w: 1, h: 8 },
            MiniRect { x: 49, y: 581, w: 1, h: 8 },
        ]
    );
    assert!(viewport_outline((16, 564), 500, 580, 20, 10).is_empty());
}

#[test]
fn configure_requests() {
    let cur = Geometry { x: 1, y: 2, w: 300, h: 200 };
    assert_eq!(configure_geometry(None, None, None, None, cur), cur);
    assert_eq!(
        configure_geometry(Some(10), None, Some(640), None, cur),
        Geometry { x: 10, y: 2, w: 640, h: 200 }
    );
    assert_eq!(configure_geometry(None, Some(-5), None, Some(u32::MAX), cur).h, -1);
}

#[test]
fn decoration_layer_order() {
    assert_eq!(decoration_layers(true, true, true), vec![Border, TitleBar, Shadow]);
    assert_eq!(decoration_layers(true, false, true), vec![Border, Shadow]);
    assert_eq!(decoration_layers(false, false, false), vec![]);
}

#[test]
fn decoration_rects() {
    assert_eq!(outset(10, 20, 100, 50, 3), ScreenRect { x: 7, y: 17, w: 106, h: 56 });
    assert_eq!(border_pixels(0), 1);
    assert_eq!(border_pixels(4), 4);
    assert_eq!(title_bar_rect(10, 40, 100, 25), Some(ScreenRect { x: 10, y: 15, w: 100, h: 25 }));
    assert_eq!(title_bar_rect(10, 40, 100, 0), None);
}

#[test]
fn grid_bounds() {
    assert_eq!(grid_last(-3, 10), 10);
    assert_eq!(grid_last(0, 10_000), 500);
    assert_eq!(grid_last(5, 2), 2);
    assert!(dot_on_screen(0, 0, 2, 100, 100));
    assert!(dot_on_screen(-2, 5, 2, 100, 100));
    assert!(!dot_on_screen(-3, 5, 2, 100, 100));
    assert!(!dot_on_screen(101, 5, 2, 100, 100));
}
