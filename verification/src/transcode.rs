//! The image pipeline: decode, dimension queries, exact-dimension
//! resampling, and encoding into the supported container formats.
//!
//! A [`PhotonImage`] owns exactly one decoded pixel buffer and is created
//! only by a successful decode or by a successful resample of an existing
//! handle. The buffer is never mutated after creation: every operation
//! either reads it or produces a fresh one. Decoding, resampling and
//! encoding are delegated to the `image` codec crate behind trusted
//! wrappers; everything around those calls — detection, dimension and
//! parameter validation, and error classification — is verified here.

use vstd::prelude::*;

use crate::errors::{ErrorKind, NativeError};
use crate::format::{
    detect, is_gif_sig, is_jpeg_sig, is_png_sig, is_webp_sig, spec_detect, ImageFormatKind,
};
use image::ColorType;
use image::ImageFormat;

verus! {

/// The resampling kernel used by [`PhotonImage::resize`].
#[derive(Clone, Copy, Debug, PartialEq, Eq, Structural)]
pub enum SamplingFilter {
    /// Support radius 0: picks the single closest source sample.
    Nearest,
    /// Bilinear: support radius 1 with linear falloff.
    Triangle,
    /// Cubic interpolating kernel, support radius 2.
    CatmullRom,
    /// Smooth low-pass blending kernel.
    Gaussian,
    /// Sinc-windowed kernel with support radius 3: the highest quality.
    Lanczos3,
}

/// The color model of a decoded pixel buffer: the channel layout and the
/// sample depth. The four supported container formats decode to integer
/// samples only, eight or sixteen bits per channel.
#[derive(Clone, Copy, Debug, PartialEq, Eq, Structural)]
pub enum PixelFormat {
    /// Eight-bit grayscale.
    L8,
    /// Eight-bit grayscale with alpha.
    La8,
    /// Eight-bit red, green, blue.
    Rgb8,
    /// Eight-bit red, green, blue, alpha.
    Rgba8,
    /// Sixteen-bit grayscale.
    L16,
    /// Sixteen-bit grayscale with alpha.
    La16,
    /// Sixteen-bit red, green, blue.
    Rgb16,
    /// Sixteen-bit red, green, blue, alpha.
    Rgba16,
}

#[verifier::external_type_specification]
#[verifier::external_body]
pub struct ExDynamicImage(image::DynamicImage);

/// One decoded pixel buffer together with its dimensions and color model.
///
/// The `width`, `height` and `pixel` fields always describe `img`; the two
/// trusted constructors ([`decode_bytes`] and [`resize_raw`]) establish
/// this, and nothing ever mutates a constructed value.
#[derive(Debug)]
pub struct PhotonImage {
    img: image::DynamicImage,
    width: u32,
    height: u32,
    pixel: PixelFormat,
}

impl PhotonImage {
    /// The pixel width of the held buffer.
    pub closed spec fn width_spec(&self) -> u32 {
        self.width
    }

    /// The pixel height of the held buffer.
    pub closed spec fn height_spec(&self) -> u32 {
        self.height
    }

    /// The color model of the held buffer.
    pub closed spec fn pixel_spec(&self) -> PixelFormat {
        self.pixel
    }

    /// Every handle reachable through this library holds a buffer with at
    /// least one pixel in each dimension.
    pub open spec fn wf(&self) -> bool {
        self.width_spec() >= 1 && self.height_spec() >= 1
    }
}

/// The big-endian sixteen-bit value at offset `i`.
pub open spec fn be16(s: Seq<u8>, i: int) -> int {
    s[i] * 256 + s[i + 1]
}

/// The little-endian sixteen-bit value at offset `i`.
pub open spec fn le16(s: Seq<u8>, i: int) -> int {
    s[i] + s[i + 1] * 256
}

/// The big-endian thirty-two-bit value at offset `i`.
pub open spec fn be32(s: Seq<u8>, i: int) -> int {
    ((s[i] * 256 + s[i + 1]) * 256 + s[i + 2]) * 256 + s[i + 3]
}

/// The dimensions a PNG buffer declares: the big-endian width and height of
/// the image header chunk, which follows directly on the signature.
pub open spec fn png_header_dims(s: Seq<u8>) -> (int, int) {
    (be32(s, 16), be32(s, 20))
}

/// The dimensions a baseline JPEG buffer without metadata segments declares:
/// the big-endian width and height of the frame header, which follows
/// directly on the start-of-image and JFIF segments.
pub open spec fn jpeg_header_dims(s: Seq<u8>) -> (int, int) {
    (be16(s, 27), be16(s, 25))
}

/// The dimensions a GIF buffer declares: the little-endian width and height
/// of the logical screen descriptor.
pub open spec fn gif_header_dims(s: Seq<u8>) -> (int, int) {
    (le16(s, 6), le16(s, 8))
}

/// The buffer carries a lossless (`VP8L`) WebP payload directly after the
/// RIFF container tag: the chunk tag and the fixed first payload byte.
pub open spec fn is_vp8l_payload(s: Seq<u8>) -> bool {
    &&& s.len() >= 25
    &&& s[12] == 0x56u8
    &&& s[13] == 0x50u8
    &&& s[14] == 0x38u8
    &&& s[15] == 0x4cu8
    &&& s[20] == 0x2fu8
}

/// The dimensions a lossless WebP buffer declares: the two fourteen-bit
/// fields that follow the payload's first byte, each stored minus one,
/// least-significant bits first.
pub open spec fn webp_header_dims(s: Seq<u8>) -> (int, int) {
    (1 + s[21] + (s[22] % 64) * 256, 1 + s[22] / 64 + s[23] * 4 + (s[24] % 16) * 1024)
}

/// The dimensions of the pixel buffer that decoding yields for this byte
/// buffer under its detected format, or nothing when the codec rejects the
/// payload: a function of the bytes alone.
pub uninterp spec fn decoded_dims_of(bytes: Seq<u8>) -> Option<(u32, u32)>;

/// The buffer decodes, under its detected format, to a buffer with at least
/// one pixel in each dimension.
pub open spec fn spec_decodes(bytes: Seq<u8>) -> bool {
    &&& spec_detect(bytes) is Some
    &&& match decoded_dims_of(bytes) {
        Some(d) => d.0 >= 1 && d.1 >= 1,
        None => false,
    }
}

/// Relies on `image::load_from_memory_with_format`, decoding the buffer as
/// its detected format: decoding reads nothing but the buffer, so its
/// outcome is a function of the bytes alone, named [`decoded_dims_of`]. On
/// success the recorded dimensions and color model are those of the decoded
/// buffer (`DynamicImage::width`, `height` and `color`). The four supported
/// formats decode to integer samples only; a float color model would be
/// rejected here defensively, as part of the named outcome.
#[verifier::external_body]
fn decode_bytes(bytes: &[u8], fmt: ImageFormatKind) -> (r: Result<PhotonImage, String>)
    requires
        spec_detect(bytes@) == Some(fmt),
    ensures
        r is Ok <==> decoded_dims_of(bytes@) is Some,
        r is Ok ==> Some((r->Ok_0.width_spec(), r->Ok_0.height_spec())) == decoded_dims_of(bytes@),
{
    let format = match fmt {
        ImageFormatKind::Png => ImageFormat::Png, ImageFormatKind::Jpeg => ImageFormat::Jpeg,
        ImageFormatKind::Webp => ImageFormat::WebP, ImageFormatKind::Gif => ImageFormat::Gif,
    };
    let img = match image::load_from_memory_with_format(bytes, format) {
        Ok(img) => img, Err(e) => return Err(format!("Failed to decode image: {e}")),
    };
    let pixel = match img.color() {
        ColorType::L8 => PixelFormat::L8, ColorType::La8 => PixelFormat::La8,
        ColorType::Rgb8 => PixelFormat::Rgb8, ColorType::Rgba8 => PixelFormat::Rgba8,
        ColorType::L16 => PixelFormat::L16, ColorType::La16 => PixelFormat::La16,
        ColorType::Rgb16 => PixelFormat::Rgb16, ColorType::Rgba16 => PixelFormat::Rgba16,
        _ => return Err("Failed to decode image: unsupported color model".to_string()),
    };
    Ok(PhotonImage { width: img.width(), height: img.height(), pixel, img })
}

/// Relies on `DynamicImage::resize_exact`: the result is a new image whose
/// dimensions are exactly the requested ones, computed with the given
/// filter on the source's own pixel type, so the color model carries over;
/// the source is only read.
#[verifier::external_body]
fn resize_raw(src: &PhotonImage, width: u32, height: u32, filter: SamplingFilter) -> (r:
    PhotonImage)
    requires
        width >= 1,
        height >= 1,
    ensures
        r.width_spec() == width,
        r.height_spec() == height,
        r.pixel_spec() == src.pixel_spec(),
{
    let ft = match filter {
        SamplingFilter::Nearest => image::imageops::FilterType::Nearest,
        SamplingFilter::Triangle => image::imageops::FilterType::Triangle,
        SamplingFilter::CatmullRom => image::imageops::FilterType::CatmullRom,
        SamplingFilter::Gaussian => image::imageops::FilterType::Gaussian,
        SamplingFilter::Lanczos3 => image::imageops::FilterType::Lanczos3,
    };
    let img = src.img.resize_exact(width, height, ft);
    PhotonImage { img, width, height, pixel: src.pixel }
}

/// Relies on `DynamicImage::write_to` with the PNG format: the `png`
/// encoder begins its output with the eight-byte PNG signature and the
/// image header chunk, whose big-endian dimensions are the image's own. It
/// accepts every color model a handle can hold and writes into a growable
/// buffer, rejecting only zero dimensions and data beyond its two-gigabyte
/// chunk caps, so success is owed whenever the buffer has at least one
/// pixel and comfortably fewer than the caps can hold.
#[verifier::external_body]
fn encode_png_raw(src: &PhotonImage) -> (r: Result<Vec<u8>, String>)
    ensures
        r is Ok ==> is_png_sig(r->Ok_0@) && r->Ok_0@.len() >= 24 && png_header_dims(r->Ok_0@) == (
        src.width_spec() as int,
        src.height_spec() as int,
        ),
        src.wf() && src.width_spec() * src.height_spec() <= 0x08000000 ==> r is Ok,
{
    let mut buffer: Vec<u8> = Vec::new();
    match src.img.write_to(&mut std::io::Cursor::new(&mut buffer), image::ImageFormat::Png) {
        Ok(()) => Ok(buffer),
        Err(e) => Err(format!("Failed to encode PNG: {e}")),
    }
}

/// Relies on `image::codecs::jpeg::JpegEncoder::new_with_quality` and
/// `DynamicImage::write_with_encoder`: the encoder writes the start-of-image
/// marker, the JFIF segment, and then — as no metadata segments are set
/// here — the baseline frame header, whose big-endian dimensions are the
/// image's own. The pixel buffer is first converted to a supported color
/// model (dropping any alpha channel), and dimensions outside 1..=65535 are
/// the only failing path when writing to a growable buffer.
#[verifier::external_body]
fn encode_jpeg_raw(src: &PhotonImage, quality: u8) -> (r: Result<Vec<u8>, String>)
    requires
        quality <= 100,
    ensures
        r is Ok ==> is_jpeg_sig(r->Ok_0@) && r->Ok_0@.len() >= 29 && r->Ok_0@[20] == 0xffu8
            && r->Ok_0@[21] == 0xc0u8 && jpeg_header_dims(r->Ok_0@) == (
        src.width_spec() as int,
        src.height_spec() as int,
        ),
        r is Ok ==> 1 <= src.width_spec() <= 65535 && 1 <= src.height_spec() <= 65535,
        1 <= src.width_spec() <= 65535 && 1 <= src.height_spec() <= 65535 ==> r is Ok,
{
    let mut buffer: Vec<u8> = Vec::new();
    let encoder = image::codecs::jpeg::JpegEncoder::new_with_quality(&mut buffer, quality);
    match src.img.write_with_encoder(encoder) {
        Ok(()) => Ok(buffer),
        Err(e) => Err(format!("Failed to encode JPEG: {e}")),
    }
}

/// Relies on `image::codecs::webp::WebPEncoder::new_lossless` and
/// `DynamicImage::write_with_encoder`: the encoder writes a RIFF container
/// whose form tag is `WEBP` and — as no metadata is set here — a single
/// lossless `VP8L` chunk, whose fourteen-bit dimension fields are the
/// image's own. The pixel buffer is first converted to an eight-bit color
/// model, all of which the lossless encoder accepts, and dimensions outside
/// 1..=16384 are the only failing path when writing to a growable buffer.
#[verifier::external_body]
fn encode_webp_raw(src: &PhotonImage) -> (r: Result<Vec<u8>, String>)
    ensures
        r is Ok ==> is_webp_sig(r->Ok_0@) && is_vp8l_payload(r->Ok_0@) && webp_header_dims(
            r->Ok_0@,
        ) == (src.width_spec() as int, src.height_spec() as int),
        r is Ok ==> 1 <= src.width_spec() <= 16384 && 1 <= src.height_spec() <= 16384,
        1 <= src.width_spec() <= 16384 && 1 <= src.height_spec() <= 16384 ==> r is Ok,
{
    let mut buffer: Vec<u8> = Vec::new();
    let encoder = image::codecs::webp::WebPEncoder::new_lossless(&mut buffer);
    match src.img.write_with_encoder(encoder) {
        Ok(()) => Ok(buffer),
        Err(e) => Err(format!("Failed to encode WebP: {e}")),
    }
}

/// Relies on `DynamicImage::write_to` with the GIF format: the `gif`
/// encoder begins its output with the `GIF89a` version header and the
/// logical screen descriptor, whose little-endian dimensions are the
/// image's own. The GIF path converts no color model: it quantizes
/// eight-bit color buffers and rejects every other model, and dimensions
/// above 65535 are the only other failing path when writing to a growable
/// buffer.
#[verifier::external_body]
fn encode_gif_raw(src: &PhotonImage) -> (r: Result<Vec<u8>, String>)
    requires
        src.wf(),
    ensures
        r is Ok ==> is_gif_sig(r->Ok_0@) && r->Ok_0@.len() >= 13 && gif_header_dims(r->Ok_0@) == (
        src.width_spec() as int,
        src.height_spec() as int,
        ),
        r is Ok ==> (src.pixel_spec() == PixelFormat::Rgb8 || src.pixel_spec()
            == PixelFormat::Rgba8) && src.width_spec() <= 65535 && src.height_spec() <= 65535,
        (src.pixel_spec() == PixelFormat::Rgb8 || src.pixel_spec() == PixelFormat::Rgba8)
            && src.width_spec() <= 65535 && src.height_spec() <= 65535 ==> r is Ok,
{
    let mut buffer: Vec<u8> = Vec::new();
    match src.img.write_to(&mut std::io::Cursor::new(&mut buffer), image::ImageFormat::Gif) {
        Ok(()) => Ok(buffer),
        Err(e) => Err(format!("Failed to encode GIF: {e}")),
    }
}

impl PhotonImage {
    /// Decodes an encoded byte buffer into a new handle.
    ///
    /// The container format is detected from the buffer's magic bytes
    /// alone. When no signature matches, the buffer is rejected as unknown;
    /// when a signature matches but the payload cannot be decoded, or
    /// decodes to a zero-sized image, the buffer is rejected as
    /// undecodable. Decoding is a pure function of the bytes: a buffer that
    /// decodes yields a handle carrying exactly the decoded dimensions, and
    /// byte-equal buffers always agree on the outcome.
    pub fn new_from_byteslice(bytes: &[u8]) -> (r: Result<PhotonImage, NativeError>)
        ensures
            r is Ok <==> spec_decodes(bytes@),
            r is Ok ==> r->Ok_0.wf() && Some(
                (r->Ok_0.width_spec(), r->Ok_0.height_spec()),
            ) == decoded_dims_of(bytes@),
            (r is Err && r->Err_0.kind == ErrorKind::FormatUnknown) <==> spec_detect(bytes@) is None,
            r is Err ==> r->Err_0.kind == ErrorKind::FormatUnknown || r->Err_0.kind
                == ErrorKind::DecodeError,
    {
        match detect(bytes) {
            None => Err(
                NativeError::new(
                    ErrorKind::FormatUnknown,
                    "Failed to detect image format: no known signature matched".to_string(),
                ),
            ),
            Some(fmt) => match decode_bytes(bytes, fmt) {
                Ok(img) => {
                    if img.get_width() >= 1 && img.get_height() >= 1 {
                        Ok(img)
                    } else {
                        Err(
                            NativeError::new(
                                ErrorKind::DecodeError,
                                "Failed to decode image: decoded to a zero-sized image".to_string(),
                            ),
                        )
                    }
                },
                Err(msg) => Err(NativeError::new(ErrorKind::DecodeError, msg)),
            },
        }
    }

    /// The width of the image, in pixels.
    pub fn get_width(&self) -> (r: u32)
        ensures
            r == self.width_spec(),
    {
        self.width
    }

    /// The height of the image, in pixels.
    pub fn get_height(&self) -> (r: u32)
        ensures
            r == self.height_spec(),
    {
        self.height
    }

    /// The color model the buffer was decoded with; resampling preserves
    /// it.
    pub fn get_pixel_format(&self) -> (r: PixelFormat)
        ensures
            r == self.pixel_spec(),
    {
        self.pixel
    }

    /// Resamples the image to exactly the requested dimensions with the
    /// given filter, leaving this handle untouched.
    ///
    /// Both targets must be at least one pixel: a zero target is rejected
    /// with an invalid-dimensions error and yields no handle. This is
    /// exact-dimension resizing, not aspect-preserving fitting; the color
    /// model carries over unchanged.
    pub fn resize(&self, width: u32, height: u32, filter: SamplingFilter) -> (r: Result<
        PhotonImage,
        NativeError,
    >)
        ensures
            r is Ok <==> width >= 1 && height >= 1,
            r is Ok ==> r->Ok_0.width_spec() == width && r->Ok_0.height_spec() == height
                && r->Ok_0.pixel_spec() == self.pixel_spec() && r->Ok_0.wf(),
            r is Err ==> r->Err_0.kind == ErrorKind::InvalidDimensions,
    {
        if width == 0 || height == 0 {
            Err(
                NativeError::new(
                    ErrorKind::InvalidDimensions,
                    "Resize target dimensions must both be at least one pixel".to_string(),
                ),
            )
        } else {
            Ok(resize_raw(self, width, height, filter))
        }
    }

    /// Encodes the image losslessly as PNG bytes, alpha included.
    ///
    /// Success is owed for every well-formed handle of up to 0x08000000
    /// pixels, comfortably below the codec's buffer caps; the output is
    /// detected as PNG and its header declares the handle's dimensions. A
    /// codec-level failure beyond that is reported as an encode error.
    pub fn get_bytes(&self) -> (r: Result<Vec<u8>, NativeError>)
        ensures
            r is Ok ==> spec_detect(r->Ok_0@) == Some(ImageFormatKind::Png) && r->Ok_0@.len() >= 24
                && png_header_dims(r->Ok_0@) == (
            self.width_spec() as int,
            self.height_spec() as int,
            ),
            self.wf() && self.width_spec() * self.height_spec() <= 0x08000000 ==> r is Ok,
            r is Err ==> r->Err_0.kind == ErrorKind::EncodeError,
    {
        match encode_png_raw(self) {
            Ok(buffer) => Ok(buffer),
            Err(msg) => Err(NativeError::new(ErrorKind::EncodeError, msg)),
        }
    }

    /// Encodes the image as JPEG bytes at the given quality.
    ///
    /// The quality must lie in 0..=100: larger values are rejected with an
    /// invalid-parameter error. Any alpha channel is dropped silently, as
    /// JPEG carries none, so encoding succeeds exactly when both dimensions
    /// lie in 1..=65535, the range the format can carry; the output is
    /// detected as JPEG and its frame header declares the handle's
    /// dimensions. A failure on a dimension beyond that range is reported
    /// as an encode error.
    pub fn get_bytes_jpeg(&self, quality: u8) -> (r: Result<Vec<u8>, NativeError>)
        ensures
            r is Ok ==> spec_detect(r->Ok_0@) == Some(ImageFormatKind::Jpeg) && quality <= 100
                && r->Ok_0@.len() >= 29 && jpeg_header_dims(r->Ok_0@) == (
            self.width_spec() as int,
            self.height_spec() as int,
            ),
            quality <= 100 ==> (r is Ok <==> 1 <= self.width_spec() <= 65535 && 1
                <= self.height_spec() <= 65535),
            r is Err ==> (r->Err_0.kind == ErrorKind::InvalidParameter <==> quality > 100),
            r is Err ==> r->Err_0.kind == ErrorKind::InvalidParameter || r->Err_0.kind
                == ErrorKind::EncodeError,
    {
        if quality > 100 {
            Err(
                NativeError::new(
                    ErrorKind::InvalidParameter,
                    "JPEG quality must lie in 0..=100".to_string(),
                ),
            )
        } else {
            match encode_jpeg_raw(self, quality) {
                Ok(buffer) => Ok(buffer),
                Err(msg) => Err(NativeError::new(ErrorKind::EncodeError, msg)),
            }
        }
    }

    /// Encodes the image as lossless WebP bytes; no quality parameter is
    /// accepted.
    ///
    /// Encoding succeeds exactly when both dimensions lie in 1..=16384, the
    /// range the lossless WebP format can carry; the output is detected as
    /// WebP, carries a lossless payload — never the lossy codec — and its
    /// header declares the handle's dimensions. A failure on a dimension
    /// beyond that range is reported as an encode error.
    pub fn get_bytes_webp(&self) -> (r: Result<Vec<u8>, NativeError>)
        ensures
            r is Ok ==> spec_detect(r->Ok_0@) == Some(ImageFormatKind::Webp) && is_vp8l_payload(
                r->Ok_0@,
            ) && webp_header_dims(r->Ok_0@) == (
            self.width_spec() as int,
            self.height_spec() as int,
            ),
            r is Ok <==> 1 <= self.width_spec() <= 16384 && 1 <= self.height_spec() <= 16384,
            r is Err ==> r->Err_0.kind == ErrorKind::EncodeError,
    {
        match encode_webp_raw(self) {
            Ok(buffer) => Ok(buffer),
            Err(msg) => Err(NativeError::new(ErrorKind::EncodeError, msg)),
        }
    }

    /// Encodes the image as GIF bytes through a fixed-size color-quantized
    /// palette; color banding relative to the source is expected.
    ///
    /// Encoding succeeds exactly when the buffer holds eight-bit color
    /// samples — the models the quantizer takes — and both dimensions fit
    /// the format's 65535 limit; the output is detected as GIF and its
    /// logical screen descriptor declares the handle's dimensions. Any
    /// other color model or dimension is reported as an encode error.
    pub fn get_bytes_gif(&self) -> (r: Result<Vec<u8>, NativeError>)
        ensures
            r is Ok ==> spec_detect(r->Ok_0@) == Some(ImageFormatKind::Gif) && r->Ok_0@.len() >= 13
                && gif_header_dims(r->Ok_0@) == (
            self.width_spec() as int,
            self.height_spec() as int,
            ),
            r is Ok <==> self.wf() && (self.pixel_spec() == PixelFormat::Rgb8 || self.pixel_spec()
                == PixelFormat::Rgba8) && self.width_spec() <= 65535 && self.height_spec() <= 65535,
            r is Err ==> r->Err_0.kind == ErrorKind::EncodeError,
    {
        if self.get_width() == 0 || self.get_height() == 0 {
            Err(
                NativeError::new(
                    ErrorKind::EncodeError,
                    "Failed to encode GIF: cannot encode an empty buffer".to_string(),
                ),
            )
        } else {
            match encode_gif_raw(self) {
                Ok(buffer) => Ok(buffer),
                Err(msg) => Err(NativeError::new(ErrorKind::EncodeError, msg)),
            }
        }
    }
}

} // verus!
