//! Flattening of a layered static image (PSD) into a still PNG.

use vstd::prelude::*;

use crate::codecs::{png_still_of, psd_decode, psd_raster_of};
use crate::errors::ConvertError;
use crate::frame::buffer_len_matches;
use crate::report::Reporter;

verus! {

/// Decodes a layered-image (PSD) stream, checks that its composited RGBA
/// raster agrees with the declared dimensions, and re-encodes it as a
/// still PNG, reporting milestones to `logs`. The parse runs on the
/// prepared document of [`crate::psd_check::psd_prepare`], whose image
/// data is the original's byte for byte.
///
/// A raster whose byte length does not equal width * height * 4 fails with
/// a dimension mismatch and produces no output bytes.
pub fn decode_psd<R: Reporter>(image_data: &[u8], logs: &mut R) -> (r: Result<
    Vec<u8>,
    ConvertError,
>)
    ensures
        r matches Ok(b) ==> {
            let t = psd_raster_of(crate::psd_check::psd_doc_of(image_data@));
            &&& t.2.len() == t.0 * t.1 * 4
            &&& b@ == png_still_of(t.0, t.1, t.2)
        },
        (r matches Err(e) && e is DimensionMismatch) ==> {
            let t = psd_raster_of(crate::psd_check::psd_doc_of(image_data@));
            t.2.len() != t.0 * t.1 * 4
        },
        r matches Err(e) ==> ((e is Decode || e is DimensionMismatch || e is Encode
            || e is ReporterFailure) && (e matches ConvertError::Decode(f, _) ==> f@ == "PSD"@) && (
        e matches ConvertError::Encode(f2, _) ==> f2@ == "PNG"@)),
{
    if logs.report("Starting PSD decoding...").is_err() {
        return Err(ConvertError::ReporterFailure);
    }
    let doc = match crate::psd_check::psd_prepare(image_data) {
        Some(v) => v,
        None => {
            return Err(
                ConvertError::Decode(
                    "PSD".to_owned(),
                    "a section length runs past the end of the document".to_owned(),
                ),
            );
        },
    };
    if !crate::psd_check::psd_structure_check(&doc) {
        return Err(
            ConvertError::Decode(
                "PSD".to_owned(),
                "the image data does not fit the declared canvas".to_owned(),
            ),
        );
    }
    let parsed = match psd_decode(&doc) {
        Ok(t) => t,
        Err(m) => {
            return Err(ConvertError::Decode("PSD".to_owned(), m));
        },
    };
    let (width, height, pixels) = parsed;
    if logs.report("PSD image data parsed successfully.").is_err() {
        return Err(ConvertError::ReporterFailure);
    }
    if !buffer_len_matches(width, height, pixels.len()) {
        return Err(ConvertError::DimensionMismatch(width, height, pixels.len()));
    }
    if logs.report("Creating the still image from PSD data.").is_err() {
        return Err(ConvertError::ReporterFailure);
    }
    match crate::codecs::png_encode_still(width, height, &pixels) {
        Ok(b) => Ok(b),
        Err(m) => Err(ConvertError::Encode("PNG".to_owned(), m)),
    }
}

} // verus!
