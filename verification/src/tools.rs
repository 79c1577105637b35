//! The image input of the tools engine: where a `~` path points, and the
//! image's pixels, decoded and scaled down to fit the analysis size.

use vstd::prelude::*;
use image::error::ImageFormatHint;

verus! {

/// `path` with a leading `~` replaced by the home directory's text.
pub open spec fn expand_home_text(path: Seq<char>, home: Seq<char>) -> Seq<char> {
    if path.len() > 0 && path[0] == '~' {
        home + path.skip(1)
    } else {
        path
    }
}

/// Expands a leading `~` in an image path to `home`.
pub fn expand_home(path: &str, home: &str) -> (r: String)
    ensures
        r@ == expand_home_text(path@, home@),
{
    let n = path.unicode_len();
    if n > 0 && path.get_char(0) == '~' {
        let mut s = String::from_str(home);
        s.append(path.substring_char(1, n));
        assert(path@.subrange(1, n as int) =~= path@.skip(1));
        s
    } else {
        String::from_str(path)
    }
}

/// Whether an image of `width`×`height` is scaled down to fit `max_dim` on
/// its longest side.
pub fn needs_thumbnail(width: u32, height: u32, max_dim: u32) -> (r: bool)
    ensures
        r == (width > max_dim || height > max_dim),
{
    let longest = if width >= height { width } else { height };
    longest > max_dim
}

/// The RGBA8 pixels (width, height, bytes row by row) of `bytes` decoded by
/// the `image` crate in the format its extension `ext` names, or `None`
/// where the extension names no format or the bytes do not decode.
pub uninterp spec fn decoded_rgba(bytes: Seq<u8>, ext: Seq<char>) -> Option<(u32, u32, Seq<u8>)>;

/// The message (`Display` of the `ImageError`) with which that decoding
/// fails.
pub uninterp spec fn image_error_text(bytes: Seq<u8>, ext: Seq<char>) -> Seq<char>;

/// The RGBA8 pixels of the same decoded image after
/// `DynamicImage::thumbnail(max, max)` (scaled down, aspect ratio kept, to fit
/// `max`×`max`).
pub uninterp spec fn thumbnail_rgba(bytes: Seq<u8>, ext: Seq<char>, max: u32) -> Option<(u32, u32, Seq<u8>)>;

/// Decodes with `image::load_from_memory_with_format` in the format of
/// `ImageFormat::from_extension(ext)` (the format and decoder `image::open`
/// picks for a file of that extension) and converts with `to_rgba8`.
#[verifier::external_body]
fn decode_rgba(bytes: &[u8], ext: &str) -> (r: Result<(u32, u32, Vec<u8>), String>)
    ensures
        match decoded_rgba(bytes@, ext@) {
            Some((w, h, p)) => r matches Ok((w2, h2, v)) && w2 == w && h2 == h && v@ == p,
            None => r matches Err(m) && m@ == image_error_text(bytes@, ext@),
        },
{
    let format = image::ImageFormat::from_extension(ext)
        .ok_or_else(|| image::ImageError::Unsupported(ImageFormatHint::PathExtension(ext.into()).into()));
    let img = format.and_then(|f| image::load_from_memory_with_format(bytes, f)).map_err(|e| e.to_string())?;
    let rgba = img.to_rgba8();
    Ok((rgba.width(), rgba.height(), rgba.into_raw()))
}

/// Decodes as `decode_rgba` does, then `thumbnail(max, max)` and `to_rgba8`.
/// The decoding is the same call on the same bytes, so it succeeds exactly
/// when `decoded_rgba` is `Some`.
#[verifier::external_body]
fn thumbnail_of(bytes: &[u8], ext: &str, max: u32) -> (r: Option<(u32, u32, Vec<u8>)>)
    ensures
        match thumbnail_rgba(bytes@, ext@, max) {
            Some((w, h, p)) => r matches Some((w2, h2, v)) && w2 == w && h2 == h && v@ == p,
            None => r is None,
        },
        r is Some <==> decoded_rgba(bytes@, ext@) is Some,
{
    let format = image::ImageFormat::from_extension(ext)?;
    let img = image::load_from_memory_with_format(bytes, format).ok()?;
    let small = img.thumbnail(max, max).to_rgba8();
    Some((small.width(), small.height(), small.into_raw()))
}

/// The pixels that the tools engine analyses from an image file at `path`
/// holding `bytes` with extension `ext`: decoded, and scaled down to fit
/// `max_dim` when its longest side is larger; an image that does not decode
/// gives `could not open image <path>: <reason>`.
pub open spec fn image_pixels_ok(
    path: Seq<char>,
    bytes: Seq<u8>,
    ext: Seq<char>,
    max_dim: u32,
    r: Result<(u32, u32, Vec<u8>), String>,
) -> bool {
    match decoded_rgba(bytes, ext) {
        None => r matches Err(m) && m@ == "could not open image "@ + path + ": "@ + image_error_text(bytes, ext),
        Some((w, h, p)) => if w > max_dim || h > max_dim {
            match thumbnail_rgba(bytes, ext, max_dim) {
                Some((a, b, q)) => r matches Ok((a2, b2, v)) && a2 == a && b2 == b && v@ == q,
                None => false,
            }
        } else {
            r matches Ok((w2, h2, v)) && w2 == w && h2 == h && v@ == p
        },
    }
}

/// Decodes an image file's bytes for analysis, scaling it down to fit
/// `max_dim` on its longest side.
pub fn image_pixels(path: &str, bytes: &[u8], ext: &str, max_dim: u32) -> (r: Result<(u32, u32, Vec<u8>), String>)
    ensures
        image_pixels_ok(path@, bytes@, ext@, max_dim, r),
{
    match decode_rgba(bytes, ext) {
        Err(e) => {
            let mut m = String::from_str("could not open image ");
            m.append(path);
            m.append(": ");
            m.append(e.as_str());
            Err(m)
        },
        Ok((w, h, px)) => if needs_thumbnail(w, h, max_dim) {
            match thumbnail_of(bytes, ext, max_dim) {
                Some(t) => Ok(t),
                None => Err(String::new()),
            }
        } else {
            Ok((w, h, px))
        },
    }
}

} // verus!
