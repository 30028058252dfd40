//! The error taxonomy of the library.
//!
//! Every failing operation returns a typed error value carrying a
//! human-readable cause string; no operation panics or terminates the process.

use vstd::prelude::*;

verus! {

/// The ways an operation of this library can fail.
#[derive(Clone, Copy, Debug, PartialEq, Eq, Structural)]
pub enum ErrorKind {
    /// No known container signature matched the input bytes.
    FormatUnknown,
    /// A signature matched but the payload is malformed, truncated, or an
    /// unsupported variant.
    DecodeError,
    /// A resize target dimension was zero.
    InvalidDimensions,
    /// An encode parameter was out of its documented range.
    InvalidParameter,
    /// The codec could not encode the pixel buffer.
    EncodeError,
    /// The HTML-to-Markdown converter reported a failure.
    ConversionFailed,
}

/// A typed failure value: the condition that occurred, and a human-readable
/// cause.
#[derive(Debug)]
pub struct NativeError {
    pub kind: ErrorKind,
    pub message: String,
}

impl NativeError {
    /// Builds an error of the given kind with the given cause string.
    pub fn new(kind: ErrorKind, message: String) -> (r: NativeError)
        ensures
            r.kind == kind,
            r.message == message,
    {
        NativeError { kind, message }
    }

    /// The condition that this error reports.
    pub fn kind(&self) -> (r: ErrorKind)
        ensures
            r == self.kind,
    {
        self.kind
    }
}

} // verus!
