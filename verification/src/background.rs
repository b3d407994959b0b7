//! Canvas background: which kind is drawn, where user-supplied background
//! files are looked up, and decoding of still background images.

use vstd::prelude::*;
use vstd::string::StringExecFns;
use crate::config::path_extension;
use crate::text::{is_absolute, is_absolute_spec, join_path, join_path_spec, str_eq};

verus! {

#[verifier::external_type_specification]
#[verifier::external_body]
pub struct ExImageError(image::ImageError);

/// Loaded background image in RGBA format.
pub struct BgImage {
    pub data: Vec<u8>,
    pub width: u32,
    pub height: u32,
}

/// Where a user-supplied file is looked up: absolute paths as given,
/// relative ones under `<config dir>/canvaswm/` when the config directory is
/// known, else as given.
pub open spec fn resolved_path(path: Seq<char>, config_dir: Option<Seq<char>>) -> Seq<char> {
    if is_absolute_spec(path) {
        path
    } else {
        match config_dir {
            Some(d) => join_path_spec(join_path_spec(d, "canvaswm"@), path),
            None => path,
        }
    }
}

/// Resolves a background file path (image or shader) against the config
/// directory.
pub fn resolve_config_relative(path: &str, config_dir: Option<&str>) -> (r: String)
    ensures
        r@ == resolved_path(
            path@,
            match config_dir {
                Some(d) => Some(d@),
                None => None,
            },
        ),
{
    if is_absolute(path) {
        String::from_str(path)
    } else {
        match config_dir {
            Some(d) => {
                let base = join_path(d, "canvaswm");
                join_path(base.as_str(), path)
            },
            None => String::from_str(path),
        }
    }
}

/// `s` with the ASCII capitals `A`..`Z` made small.
pub open spec fn ascii_lowercase(s: Seq<char>) -> Seq<char> {
    s.map_values(
        |c: char|
            if 65 <= (c as u32) <= 90 {
                ((c as u32) + 32) as char
            } else {
                c
            },
    )
}

/// The file extensions the image crate names a format for, compared without
/// regard to ASCII case (`ImageFormat::from_extension`).
pub open spec fn image_extension(ext: Seq<char>) -> bool {
    let e = ascii_lowercase(ext);
    ||| e == "avif"@
    ||| e == "jpg"@ || e == "jpeg"@ || e == "jfif"@
    ||| e == "png"@ || e == "apng"@
    ||| e == "gif"@
    ||| e == "webp"@
    ||| e == "tif"@ || e == "tiff"@
    ||| e == "tga"@
    ||| e == "dds"@
    ||| e == "bmp"@
    ||| e == "ico"@
    ||| e == "hdr"@
    ||| e == "exr"@
    ||| e == "pbm"@ || e == "pam"@ || e == "ppm"@ || e == "pgm"@ || e == "pnm"@
    ||| e == "ff"@
    ||| e == "qoi"@
}

/// Whether `image::ImageFormat::from_path` names a format for a path: its
/// extension is one of the image crate's.
pub open spec fn has_image_format(path: Seq<char>) -> bool {
    match path_extension(path) {
        Some(e) => image_extension(e),
        None => false,
    }
}

/// The width and height of the image that `bytes` decode to in the format
/// that the extension of `path` names, under the image crate's default
/// limits; `None` where they do not decode.
pub uninterp spec fn decoded_size(path: Seq<char>, bytes: Seq<u8>) -> Option<(u32, u32)>;

/// `image::ImageFormat::from_path`, then `image::load_from_memory_with_format`
/// on `bytes` with that format, then `to_rgba8`, `dimensions` and `into_raw`:
/// on success, the RGBA8 pixels (four bytes per pixel, row by row), the width
/// and the height. It succeeds exactly when the path names a format and the
/// bytes decode as it. Which bytes decode, and to which size, is only named;
/// which pixels they give is left unsaid, as the decoders may take
/// machine-dependent paths.
#[verifier::external_body]
fn decode_image_file(path: &str, bytes: &[u8]) -> (r: Result<
    (Vec<u8>, u32, u32),
    image::ImageError,
>)
    ensures
        r is Ok <==> (has_image_format(path@) && decoded_size(path@, bytes@) is Some),
        r matches Ok((d, w, h)) ==> (decoded_size(path@, bytes@) == Some((w, h)) && d@.len() == 4
            * w * h),
{
    let format = image::ImageFormat::from_path(path)?;
    let rgba = image::load_from_memory_with_format(bytes, format)?.to_rgba8();
    let (w, h) = rgba.dimensions();
    Ok((rgba.into_raw(), w, h))
}

/// The display text of an `image::ImageError`. Nothing is stated of it.
#[verifier::external_body]
fn image_error_text(e: &image::ImageError) -> (r: String) {
    format!("{e}")
}

/// The first words of the error for an image that cannot be loaded.
pub open spec fn load_error_prefix(path: Seq<char>) -> Seq<char> {
    "Failed to load image '"@ + path + "': "@
}

/// Whether `m` begins with `prefix`.
pub open spec fn starts_with(m: Seq<char>, prefix: Seq<char>) -> bool {
    m.len() >= prefix.len() && m.take(prefix.len() as int) == prefix
}

/// Turns the outcome of decoding the image file at `path` into the loaded
/// image, or into the error reported for it: the decoder's message after
/// `Failed to load image '<path>': `.
pub fn image_from_decoded(path: &str, decoded: Result<(Vec<u8>, u32, u32), String>) -> (r: Result<
    BgImage,
    String,
>)
    ensures
        decoded matches Ok((d, w, h)) ==> (r matches Ok(img) && img.data@ == d@ && img.width == w
            && img.height == h),
        decoded matches Err(t) ==> (r matches Err(m) && m@ == load_error_prefix(path@) + t@),
{
    match decoded {
        Ok((data, width, height)) => Ok(BgImage { data, width, height }),
        Err(text) => {
            let mut m = String::from_str("Failed to load image '");
            m.append(path);
            m.append("': ");
            m.append(text.as_str());
            Err(m)
        },
    }
}

/// Decodes the contents of a background image file (PNG, JPEG or WebP,
/// chosen by the file's extension) into RGBA8 pixels. A path whose format
/// is not recognised, or bytes that do not decode, give an error that
/// begins `Failed to load image '<path>': `.
pub fn load_image(path: &str, bytes: &[u8]) -> (r: Result<BgImage, String>)
    ensures
        r is Ok <==> (has_image_format(path@) && decoded_size(path@, bytes@) is Some),
        r matches Ok(img) ==> (decoded_size(path@, bytes@) == Some((img.width, img.height))
            && img.data@.len() == 4 * img.width * img.height),
        r matches Err(m) ==> starts_with(m@, load_error_prefix(path@)),
{
    let decoded: Result<(Vec<u8>, u32, u32), String> = match decode_image_file(path, bytes) {
        Ok(pixels) => Ok(pixels),
        Err(e) => Err(image_error_text(&e)),
    };
    let r = image_from_decoded(path, decoded);
    assert(r matches Err(m) ==> m@.take(load_error_prefix(path@).len() as int)
        == load_error_prefix(path@));
    r
}

/// The kinds of canvas background.
#[derive(Debug, Clone, Copy, PartialEq, Eq, Structural)]
pub enum BackgroundKind {
    /// A custom (or the built-in) GLSL fragment shader.
    Shader,
    /// A still image.
    Image,
    /// A scrolling dot grid.
    Dots,
    /// A solid colour.
    Solid,
}

/// The background a configured mode asks for, before any file is loaded:
/// "shader" asks for a shader, "image" for an image when a path is given
/// (solid otherwise), "dots" for dots, anything else for solid.
pub open spec fn requested_background(mode: Seq<char>, has_image_path: bool) -> BackgroundKind {
    if mode == "shader"@ {
        BackgroundKind::Shader
    } else if mode == "image"@ {
        if has_image_path { BackgroundKind::Image } else { BackgroundKind::Solid }
    } else if mode == "dots"@ {
        BackgroundKind::Dots
    } else {
        BackgroundKind::Solid
    }
}

/// Chooses the background to set up from the configured mode.
pub fn background_plan(mode: &str, has_image_path: bool) -> (r: BackgroundKind)
    ensures
        r == requested_background(mode@, has_image_path),
{
    proof {
        reveal_strlit("shader");
        reveal_strlit("image");
        reveal_strlit("dots");
        assert("shader"@.len() == 6);
        assert("image"@.len() == 5);
        assert("dots"@.len() == 4);
    }
    if str_eq(mode, "shader") {
        BackgroundKind::Shader
    } else if str_eq(mode, "image") {
        if has_image_path { BackgroundKind::Image } else { BackgroundKind::Solid }
    } else if str_eq(mode, "dots") {
        BackgroundKind::Dots
    } else {
        BackgroundKind::Solid
    }
}

/// The background actually used once setup of the planned one succeeded or
/// failed: a shader that fails to compile falls back to dots, an image that
/// fails to load falls back to solid.
pub fn settle_background(planned: BackgroundKind, setup_ok: bool) -> (r: BackgroundKind)
    ensures
        setup_ok ==> r == planned,
        !setup_ok ==> r == match planned {
            BackgroundKind::Shader => BackgroundKind::Dots,
            BackgroundKind::Image => BackgroundKind::Solid,
            other => other,
        },
{
    if setup_ok {
        planned
    } else {
        match planned {
            BackgroundKind::Shader => BackgroundKind::Dots,
            BackgroundKind::Image => BackgroundKind::Solid,
            other => other,
        }
    }
}

} // verus!
