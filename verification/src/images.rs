//! The budgets of attached images: which pixels a clipboard may hand over,
//! which files are sent as they are, and how a picture shrinks until its
//! encoding fits.

use vstd::prelude::*;
use crate::text::owned;

verus! {

/// The most bytes read from an image file.
pub const MAX_SOURCE_BYTES: usize = 16777216;

/// The most bytes of an encoded image sent to the model.
pub const MAX_NORMALIZED_BYTES: usize = 3145728;

/// The largest width or height sent to the model.
pub const MAX_DIMENSION: u32 = 2048;

/// The largest width or height of clipboard pixels.
pub const MAX_CLIPBOARD_DIMENSION: u32 = 8192;

/// The most bytes of clipboard pixels.
pub const MAX_CLIPBOARD_BYTES: u64 = 134217728;

/// The encodings of an image file.
#[derive(Clone, Copy, Debug, PartialEq, Eq, Structural)]
pub enum ImageFormatKind {
    Png,
    Jpeg,
    Gif,
    WebP,
    /// Any other encoding that a decoder recognises.
    Other,
}

/// Why clipboard pixels are refused, if they are: each side between 1 and
/// 8192, and four bytes a pixel, at most 128 MiB in all.
pub open spec fn rgba_spec(width: u32, height: u32, len: usize) -> Result<(), Seq<char>> {
    if width == 0 || height == 0 || width > MAX_CLIPBOARD_DIMENSION || height > MAX_CLIPBOARD_DIMENSION {
        Err("invalid clipboard image dimensions"@)
    } else if width * height * 4 > MAX_CLIPBOARD_BYTES || width * height * 4 != len {
        Err("invalid clipboard image byte budget"@)
    } else {
        Ok(())
    }
}

/// Check clipboard RGBA pixels before they are encoded.
pub fn check_rgba(width: u32, height: u32, len: usize) -> (r: Result<(), String>)
    ensures
        match r {
            Ok(()) => rgba_spec(width, height, len) is Ok,
            Err(e) => rgba_spec(width, height, len) == Err::<(), Seq<char>>(e@),
        },
{
    if width == 0 || height == 0 || width > MAX_CLIPBOARD_DIMENSION || height > MAX_CLIPBOARD_DIMENSION {
        return Err(owned("invalid clipboard image dimensions"));
    }
    proof {
        assert(width * height <= 8192 * 8192) by (nonlinear_arith)
            requires
                width <= 8192,
                height <= 8192,
        ;
    }
    let expected: u64 = width as u64 * height as u64 * 4;
    if expected > MAX_CLIPBOARD_BYTES || expected != len as u64 {
        return Err(owned("invalid clipboard image byte budget"));
    }
    Ok(())
}

/// The media type of an image sent as it is, for the encodings that the
/// model reads.
pub open spec fn media_type_spec(format: ImageFormatKind) -> Option<Seq<char>> {
    match format {
        ImageFormatKind::Png => Some("image/png"@),
        ImageFormatKind::Jpeg => Some("image/jpeg"@),
        ImageFormatKind::Gif => Some("image/gif"@),
        ImageFormatKind::WebP => Some("image/webp"@),
        ImageFormatKind::Other => None,
    }
}

/// Whether an image file is sent as it is: both sides at most 2048 and its
/// bytes at most 3 MiB; otherwise it is decoded and encoded again.
pub open spec fn keeps_source_spec(width: u32, height: u32, byte_len: usize) -> bool {
    width <= MAX_DIMENSION && height <= MAX_DIMENSION && byte_len <= MAX_NORMALIZED_BYTES
}

/// How an image file is sent: as it is, with its media type (an error for
/// an encoding that the model does not read), or re-encoded (`None`).
pub fn source_media_type(format: ImageFormatKind, width: u32, height: u32, byte_len: usize) -> (r: Result<
    Option<String>,
    String,
>)
    ensures
        match r {
            Ok(Some(t)) => keeps_source_spec(width, height, byte_len) && media_type_spec(format) == Some(
                t@,
            ),
            Ok(None) => !keeps_source_spec(width, height, byte_len),
            Err(e) => keeps_source_spec(width, height, byte_len) && media_type_spec(format) is None && e@
                == "unsupported image format"@,
        },
{
    if !(width <= MAX_DIMENSION && height <= MAX_DIMENSION && byte_len <= MAX_NORMALIZED_BYTES) {
        return Ok(None);
    }
    match format {
        ImageFormatKind::Png => Ok(Some(owned("image/png"))),
        ImageFormatKind::Jpeg => Ok(Some(owned("image/jpeg"))),
        ImageFormatKind::Gif => Ok(Some(owned("image/gif"))),
        ImageFormatKind::WebP => Ok(Some(owned("image/webp"))),
        ImageFormatKind::Other => Err(owned("unsupported image format")),
    }
}

/// Three quarters of a side, at least 1.
pub open spec fn shrunk(side: u32) -> int {
    if side * 3 / 4 >= 1 {
        side * 3 / 4
    } else {
        1
    }
}

/// The size an image shrinks to when its encoding is still too large:
/// three quarters of each side, at least 1; `None` when that changes
/// nothing, and the image cannot fit.
pub open spec fn shrink_spec(width: u32, height: u32) -> Option<(u32, u32)> {
    if shrunk(width) == width && shrunk(height) == height {
        None
    } else {
        Some((shrunk(width) as u32, shrunk(height) as u32))
    }
}

/// The next size to try for an image whose encoding does not fit.
pub fn shrink_dimensions(width: u32, height: u32) -> (r: Option<(u32, u32)>)
    ensures
        r == shrink_spec(width, height),
{
    let w64 = width as u64 * 3 / 4;
    let h64 = height as u64 * 3 / 4;
    let w: u32 = if w64 >= 1 {
        w64 as u32
    } else {
        1
    };
    let h: u32 = if h64 >= 1 {
        h64 as u32
    } else {
        1
    };
    if w == width && h == height {
        None
    } else {
        Some((w, h))
    }
}

/// A side of at least 1 shrinks to at least 1 and at most itself, and
/// stays only at 1.
proof fn lemma_shrunk(side: u32)
    requires
        side >= 1,
    ensures
        1 <= shrunk(side) <= side,
        shrunk(side) == side ==> side == 1,
{
    assert((side * 3) / 4 < side) by (nonlinear_arith)
        requires
            side >= 1,
    ;
}

/// Shrinking never grows a side and always shrinks one, so the loop that
/// re-encodes a picture until it fits ends: after at most `width + height`
/// steps no step is left. (An empty side would grow to 1.)
pub proof fn lemma_shrinking_ends(width: u32, height: u32)
    requires
        width >= 1,
        height >= 1,
    ensures
        match shrink_spec(width, height) {
            Some((w, h)) => 1 <= w <= width && 1 <= h <= height && w + h < width + height,
            None => width == 1 && height == 1,
        },
{
    lemma_shrunk(width);
    lemma_shrunk(height);
}

} // verus!
