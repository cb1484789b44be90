//! One-shot conversion of a layered static image (PSD) to a still PNG,
//! without a progress sink: parse, validate the raster, encode.

use vstd::prelude::*;
use vstd::string::StringSliceAdditionalSpecFns;

use crate::codecs::{image_png_encode_still, image_png_still_of, psd_parses, psd_raster_of};
use crate::errors::ConvertError;
use crate::formats::{format_of, spec_format_of, FormatName};
use crate::frame::buffer_len_matches;
use crate::psd_check::{psd_doc_of, psd_doc_ok, spec_psd_safe};

verus! {

/// Parses a layered-image (PSD) stream into its width, height and
/// composited RGBA raster.
///
/// The raster comes from the document's image-data section alone, so the
/// parse runs on the prepared document of [`crate::psd_check::psd_prepare`]:
/// the original bytes with the image-resource and layer-and-mask sections
/// emptied, which the parser handles without aborting (see
/// [`crate::psd_check`]). A document whose section lengths overrun the
/// data, or whose image data does not fit the declared canvas, or that
/// the parser rejects, is a decode error naming the PSD format.
pub fn decode_psd(image_data: &[u8]) -> (r: Result<(u32, u32, Vec<u8>), ConvertError>)
    ensures
        r matches Ok(t) ==> {
            &&& (t.0, t.1, t.2@) == psd_raster_of(psd_doc_of(image_data@))
            &&& t.2@.len() == t.0 * t.1 * 4
            &&& 1 <= t.0 <= 30000
            &&& 1 <= t.1 <= 30000
        },
        (r is Ok) <==> (psd_doc_ok(image_data@) && spec_psd_safe(psd_doc_of(image_data@))
            && psd_parses(psd_doc_of(image_data@))),
        r matches Err(e) ==> (e matches ConvertError::Decode(f, _) && f@ == "PSD"@),
{
    let doc = match crate::psd_check::psd_prepare(image_data) {
        Some(v) => v,
        None => {
            return Err(
                ConvertError::Decode(
                    "PSD".to_owned(),
                    "a section length runs past the end of the document".to_owned(),
                ),
            );
        },
    };
    if !crate::psd_check::psd_structure_check(&doc) {
        return Err(
            ConvertError::Decode(
                "PSD".to_owned(),
                "the image data does not fit the declared canvas".to_owned(),
            ),
        );
    }
    match crate::codecs::psd_decode(&doc) {
        Ok(t) => Ok(t),
        Err(m) => Err(ConvertError::Decode("PSD".to_owned(), m)),
    }
}

/// Encodes a raw raster triple as a still PNG, rejecting a buffer whose
/// length disagrees with the declared dimensions.
pub fn encode_image(bitmap: (u32, u32, Vec<u8>)) -> (r: Result<Vec<u8>, ConvertError>)
    ensures
        (bitmap.2@.len() != bitmap.0 * bitmap.1 * 4) <==> (r matches Err(e)
            && e is DimensionMismatch),
        bitmap.2@.len() == bitmap.0 * bitmap.1 * 4 && bitmap.0 >= 1 && bitmap.1 >= 1 ==> r is Ok,
        r matches Ok(b) ==> b@ == image_png_still_of(bitmap.0, bitmap.1, bitmap.2@),
        r matches Err(e) ==> (e is DimensionMismatch || (e matches ConvertError::Encode(f, _)
            && f@ == "PNG"@)),
{
    let (width, height, pixels) = bitmap;
    if !buffer_len_matches(width, height, pixels.len()) {
        return Err(ConvertError::DimensionMismatch(width, height, pixels.len()));
    }
    match image_png_encode_still(width, height, &pixels) {
        Ok(b) => Ok(b),
        Err(m) => Err(ConvertError::Encode("PNG".to_owned(), m)),
    }
}

/// Converts a static layered image to a still PNG, given the format the
/// caller claims the bytes are in; only `psd` is supported, matched
/// case-insensitively.
pub fn convert_image(image_data: &[u8], source_type: &str) -> (r: Result<Vec<u8>, ConvertError>)
    ensures
        spec_format_of(source_type.spec_bytes()) != FormatName::Psd ==> (r matches Err(e)
            && e matches ConvertError::UnsupportedFormat(f) && f@ == source_type@),
        r matches Ok(b) ==> {
            let t = psd_raster_of(psd_doc_of(image_data@));
            &&& t.2.len() == t.0 * t.1 * 4
            &&& b@ == image_png_still_of(t.0, t.1, t.2)
        },
        (spec_format_of(source_type.spec_bytes()) == FormatName::Psd && psd_doc_ok(image_data@)
            && spec_psd_safe(psd_doc_of(image_data@)) && psd_parses(
            psd_doc_of(image_data@),
        )) ==> r is Ok,
{
    let bitmap = match format_of(source_type) {
        FormatName::Psd => decode_psd(image_data),
        _ => Err(ConvertError::UnsupportedFormat(source_type.to_owned())),
    };
    match bitmap {
        Ok(t) => encode_image(t),
        Err(e) => Err(e),
    }
}

} // verus!
