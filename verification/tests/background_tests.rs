use canvaswm::background::{
    background_plan, image_from_decoded, load_image, resolve_config_relative, settle_background, BackgroundKind,
};

fn png_bytes() -> Vec<u8> {
    let mut img = image::RgbaImage::new(2, 1);
    img.put_pixel(0, 0, image::Rgba([1, 2, 3, 4]));
    img.put_pixel(1, 0, image::Rgba([5, 6, 7, 8]));
    let mut out = std::io::Cursor::new(Vec::new());
    img.write_to(&mut out, image::ImageFormat::Png).unwrap();
    out.into_inner()
}

#[test]
fn paths_resolve_under_config_dir() {
    assert_eq!(resolve_config_relative("/abs/bg.png", Some("/home/u/.config")), "/abs/bg.png");
    assert_eq!(
        resolve_config_relative("bg.png", Some("/home/u/.config")),
        "/home/u/.config/canvaswm/bg.png"
    );
    assert_eq!(resolve_config_relative("imgs/bg.png", None), "imgs/bg.png");
}

#[test]
fn decodes_png() {
    let img = load_image("wall.png", &png_bytes()).unwrap();
    assert_eq!((img.width, img.height), (2, 1));
    assert_eq!(img.data, vec![1, 2, 3, 4, 5, 6, 7, 8]);
}

#[test]
fn extension_case_does_not_matter() {
    let img = load_image("WALL.PNG", &png_bytes()).unwrap();
    assert_eq!((img.width, img.height), (2, 1));
    assert_eq!(img.data.len(), 4 * 2 * 1);
}

#[test]
fn named_format_without_decoder_fails() {
    let e = load_image("wall.gif", &png_bytes()).err().unwrap();
    assert!(e.starts_with("Failed to load image 'wall.gif': "));
    assert!(load_image("wall", &png_bytes()).is_err());
}

#[test]
fn unknown_extension_fails() {
    let e = load_image("wall.xyz", &png_bytes()).err().unwrap();
    assert!(e.starts_with("Failed to load image 'wall.xyz': "));
}

#[test]
fn corrupt_data_fails() {
    let e = load_image("wall.png", &[1, 2, 3]).err().unwrap();
    assert!(e.starts_with("Failed to load image 'wall.png': "));
}

#[test]
fn decoded_outcome_becomes_image_or_error() {
    let img = image_from_decoded("a.png", Ok((vec![9, 9, 9, 9], 1, 1))).ok().unwrap();
    assert_eq!((img.data, img.width, img.height), (vec![9, 9, 9, 9], 1, 1));
    let e = image_from_decoded("a.png", Err("bad header".to_string())).err().unwrap();
    assert_eq!(e, "Failed to load image 'a.png': bad header");
}

#[test]
fn background_modes() {
    assert_eq!(background_plan("shader", false), BackgroundKind::Shader);
    assert_eq!(background_plan("image", true), BackgroundKind::Image);
    assert_eq!(background_plan("image", false), BackgroundKind::Solid);
    assert_eq!(background_plan("dots", true), BackgroundKind::Dots);
    assert_eq!(background_plan("gradient", true), BackgroundKind::Solid);
    assert_eq!(settle_background(BackgroundKind::Shader, false), BackgroundKind::Dots);
    assert_eq!(settle_background(BackgroundKind::Image, false), BackgroundKind::Solid);
    assert_eq!(settle_background(BackgroundKind::Image, true), BackgroundKind::Image);
}
