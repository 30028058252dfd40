//! Container-format detection over a buffer's leading magic bytes.
//!
//! Detection inspects a fixed-size prefix of the buffer and never depends on
//! a filename or a declared content type. The recognized signatures are
//! PNG's eight-byte signature, JPEG's three-byte start-of-image marker,
//! GIF's six-byte version header, and the WebP RIFF container tag.

use vstd::prelude::*;
use vstd::slice::slice_index_get;

verus! {

/// The container formats this library detects, decodes and encodes.
#[derive(Clone, Copy, Debug, PartialEq, Eq, Structural)]
pub enum ImageFormatKind {
    Png,
    Jpeg,
    Webp,
    Gif,
}

/// The length of the shortest recognized signature (JPEG's start-of-image
/// marker): shorter buffers never match any format.
pub const SHORTEST_SIGNATURE: usize = 3;

/// The buffer begins with the eight-byte PNG signature.
pub open spec fn is_png_sig(s: Seq<u8>) -> bool {
    &&& s.len() >= 8
    &&& s[0] == 0x89u8
    &&& s[1] == 0x50u8
    &&& s[2] == 0x4eu8
    &&& s[3] == 0x47u8
    &&& s[4] == 0x0du8
    &&& s[5] == 0x0au8
    &&& s[6] == 0x1au8
    &&& s[7] == 0x0au8
}

/// The buffer begins with JPEG's start-of-image marker followed by a marker
/// introducer.
pub open spec fn is_jpeg_sig(s: Seq<u8>) -> bool {
    &&& s.len() >= 3
    &&& s[0] == 0xffu8
    &&& s[1] == 0xd8u8
    &&& s[2] == 0xffu8
}

/// The buffer begins with a GIF version header, either `GIF87a` or `GIF89a`.
pub open spec fn is_gif_sig(s: Seq<u8>) -> bool {
    &&& s.len() >= 6
    &&& s[0] == 0x47u8
    &&& s[1] == 0x49u8
    &&& s[2] == 0x46u8
    &&& s[3] == 0x38u8
    &&& (s[4] == 0x37u8 || s[4] == 0x39u8)
    &&& s[5] == 0x61u8
}

/// The buffer begins with a RIFF chunk whose form tag is `WEBP`; the four
/// bytes between the two tags hold the chunk size and may be anything.
pub open spec fn is_webp_sig(s: Seq<u8>) -> bool {
    &&& s.len() >= 12
    &&& s[0] == 0x52u8
    &&& s[1] == 0x49u8
    &&& s[2] == 0x46u8
    &&& s[3] == 0x46u8
    &&& s[8] == 0x57u8
    &&& s[9] == 0x45u8
    &&& s[10] == 0x42u8
    &&& s[11] == 0x50u8
}

/// What detection returns for a buffer: the first matching signature, or
/// nothing when no signature matches.
pub open spec fn spec_detect(s: Seq<u8>) -> Option<ImageFormatKind> {
    if is_png_sig(s) {
        Some(ImageFormatKind::Png)
    } else if is_jpeg_sig(s) {
        Some(ImageFormatKind::Jpeg)
    } else if is_gif_sig(s) {
        Some(ImageFormatKind::Gif)
    } else if is_webp_sig(s) {
        Some(ImageFormatKind::Webp)
    } else {
        None
    }
}

/// The byte at `i` equals `b`.
fn byte_is(bytes: &[u8], i: usize, b: u8) -> (r: bool)
    requires
        i < bytes@.len(),
    ensures
        r == (bytes@[i as int] == b),
{
    *slice_index_get(bytes, i) == b
}

fn matches_png(bytes: &[u8]) -> (r: bool)
    ensures
        r == is_png_sig(bytes@),
{
    bytes.len() >= 8 && byte_is(bytes, 0, 0x89) && byte_is(bytes, 1, 0x50) && byte_is(bytes, 2, 0x4e)
        && byte_is(bytes, 3, 0x47) && byte_is(bytes, 4, 0x0d) && byte_is(bytes, 5, 0x0a)
        && byte_is(bytes, 6, 0x1a) && byte_is(bytes, 7, 0x0a)
}

fn matches_jpeg(bytes: &[u8]) -> (r: bool)
    ensures
        r == is_jpeg_sig(bytes@),
{
    bytes.len() >= 3 && byte_is(bytes, 0, 0xff) && byte_is(bytes, 1, 0xd8) && byte_is(bytes, 2, 0xff)
}

fn matches_gif(bytes: &[u8]) -> (r: bool)
    ensures
        r == is_gif_sig(bytes@),
{
    bytes.len() >= 6 && byte_is(bytes, 0, 0x47) && byte_is(bytes, 1, 0x49) && byte_is(bytes, 2, 0x46)
        && byte_is(bytes, 3, 0x38) && (byte_is(bytes, 4, 0x37) || byte_is(bytes, 4, 0x39))
        && byte_is(bytes, 5, 0x61)
}

fn matches_webp(bytes: &[u8]) -> (r: bool)
    ensures
        r == is_webp_sig(bytes@),
{
    bytes.len() >= 12 && byte_is(bytes, 0, 0x52) && byte_is(bytes, 1, 0x49) && byte_is(bytes, 2, 0x46)
        && byte_is(bytes, 3, 0x46) && byte_is(bytes, 8, 0x57) && byte_is(bytes, 9, 0x45)
        && byte_is(bytes, 10, 0x42) && byte_is(bytes, 11, 0x50)
}

/// Inspects the buffer's leading bytes and returns the container format of
/// the first matching signature, or nothing when no signature matches or the
/// buffer is shorter than the shortest signature.
pub fn detect(bytes: &[u8]) -> (r: Option<ImageFormatKind>)
    ensures
        r == spec_detect(bytes@),
{
    if matches_png(bytes) {
        Some(ImageFormatKind::Png)
    } else if matches_jpeg(bytes) {
        Some(ImageFormatKind::Jpeg)
    } else if matches_gif(bytes) {
        Some(ImageFormatKind::Gif)
    } else if matches_webp(bytes) {
        Some(ImageFormatKind::Webp)
    } else {
        None
    }
}

/// Detection correctness, per format: a buffer that carries a format's
/// signature is detected as exactly that format. The four signatures pin
/// distinct leading bytes, so no buffer carries two of them.
pub proof fn lemma_detect_by_signature(s: Seq<u8>)
    ensures
        is_png_sig(s) ==> spec_detect(s) == Some(ImageFormatKind::Png),
        is_jpeg_sig(s) ==> spec_detect(s) == Some(ImageFormatKind::Jpeg),
        is_gif_sig(s) ==> spec_detect(s) == Some(ImageFormatKind::Gif),
        is_webp_sig(s) ==> spec_detect(s) == Some(ImageFormatKind::Webp),
{
}

/// A buffer shorter than the shortest recognized signature matches no
/// format: detection reports it as unknown.
pub proof fn lemma_short_buffer_unknown(s: Seq<u8>)
    requires
        s.len() < SHORTEST_SIGNATURE,
    ensures
        spec_detect(s) is None,
{
}

/// A buffer of all-zero bytes matches no signature: every recognized
/// signature demands a nonzero first byte.
pub proof fn lemma_zero_bytes_unknown(s: Seq<u8>)
    requires
        forall|i: int| 0 <= i < s.len() ==> s[i] == 0u8,
    ensures
        spec_detect(s) is None,
{
    if s.len() > 0 {
        assert(s[0] == 0u8);
    }
}

} // verus!
