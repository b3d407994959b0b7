use canvaswm::navigation::all_windows_bbox;

fn as_f64(b: Option<(i64, i64, i64, i64)>) -> Option<(f64, f64, f64, f64)> {
    b.map(|(x, y, w, h)| (x as f64, y as f64, w as f64, h as f64))
}

#[test]
fn bbox_computation() {
    let windows = vec![(0, 0, 100, 100), (200, 200, 50, 50)];
    let bbox = as_f64(all_windows_bbox(&windows));
    assert_eq!(bbox, Some((0.0, 0.0, 250.0, 250.0)));
}

#[test]
fn bbox_of_nothing() {
    assert_eq!(all_windows_bbox(&vec![]), None);
}

#[test]
fn bbox_with_negative_positions() {
    let windows = vec![(-50, 10, 20, 20), (30, -40, 10, 100), (0, 0, 1, 1)];
    assert_eq!(all_windows_bbox(&windows), Some((-50, -40, 90, 100)));
}

#[test]
fn bbox_does_not_overflow() {
    let windows = vec![(i32::MAX, 0, i32::MAX, 1), (i32::MIN, 0, 0, 1)];
    assert_eq!(
        all_windows_bbox(&windows),
        Some((i32::MIN as i64, 0, 2 * i32::MAX as i64 - i32::MIN as i64, 1))
    );
}
