//! Native utilities: image transcoding and resampling, and HTML-to-Markdown
//! conversion.
//!
//! The image pipeline decodes an encoded byte buffer (PNG, JPEG, WebP or GIF),
//! exposes its pixel dimensions, resamples it to exact target dimensions under
//! a selectable filter kernel, and re-encodes it into one of the supported
//! container formats. Format detection is done here, over the buffers' magic
//! bytes; decoding, resampling and encoding are delegated to the `image` codec
//! crate behind a small set of trusted wrappers. HTML-to-Markdown conversion
//! forwards to the `html_to_markdown_rs` converter, treated as a black box.

pub mod errors;
pub mod format;
pub mod html;
pub mod transcode;
