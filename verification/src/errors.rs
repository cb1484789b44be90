use vstd::prelude::*;

verus! {

/// The failures a conversion request can surface.
///
/// Every operation either returns a complete output or one of these; no
/// partial output is ever handed back.
#[derive(Debug, PartialEq, Eq)]
pub enum ConvertError {
    /// A declared source or target format name was not recognized.
    /// Holds the offending string exactly as the caller supplied it.
    UnsupportedFormat(String),
    /// A container was structurally invalid or a frame failed to decode.
    /// Holds the format name and the underlying detail.
    Decode(String, String),
    /// A container could not be serialized.
    /// Holds the format name and the underlying detail.
    Encode(String, String),
    /// A composited pixel buffer's length disagrees with width * height * 4.
    /// Holds the declared width and height and the actual buffer length.
    DimensionMismatch(u32, u32, usize),
    /// A single-use resource (the cached first-frame preview) was requested
    /// a second time.
    AlreadyConsumed,
    /// The progress sink rejected a report; fatal for the whole operation.
    ReporterFailure,
}

} // verus!
