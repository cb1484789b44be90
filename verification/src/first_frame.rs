//! Extraction of a single still frame from an animated container.
//!
//! Each extractor decodes its container, takes the first frame, and encodes
//! it as a standalone still PNG — the same still image the full decoders
//! cache as their one-shot preview.

use vstd::prelude::*;

use crate::animation_decoder::{frame_of_raw, frames_of_raw};
use crate::codecs::{
    apng_decode_frames, apng_decode_ok, apng_frames_of, gif_decode_frames, gif_decode_ok,
    gif_frames_of, png_encode_still, png_still_of, webp_decode_frames, webp_decode_ok,
    webp_frames_of,
};
use crate::errors::ConvertError;
use crate::frame::{raw_wf, RawFrame, RawFrameV, FrameV};

verus! {

/// Encodes one RGBA buffer as a standalone still PNG, first checking that
/// the buffer length agrees with the dimensions: the still-image encoding
/// every extraction and flattening path ends in.
pub fn encode_png(width: u32, height: u32, pixels: &Vec<u8>) -> (r: Result<Vec<u8>, ConvertError>)
    ensures
        (pixels@.len() != width * height * 4) <==> (r matches Err(e) && e is DimensionMismatch),
        pixels@.len() == width * height * 4 && width >= 1 && height >= 1 ==> r is Ok,
        r matches Ok(b) ==> b@ == png_still_of(width, height, pixels@),
        r matches Err(e) ==> (e is DimensionMismatch || (e matches ConvertError::Encode(f, _)
            && f@ == "PNG"@)),
{
    if !crate::frame::buffer_len_matches(width, height, pixels.len()) {
        return Err(ConvertError::DimensionMismatch(width, height, pixels.len()));
    }
    match png_encode_still(width, height, pixels) {
        Ok(b) => Ok(b),
        Err(m) => Err(ConvertError::Encode("PNG".to_owned(), m)),
    }
}

/// The still image every first-frame path produces for a decoded sequence:
/// the PNG encoding of element 0.
pub open spec fn first_still(fs: Seq<FrameV>) -> Seq<u8> {
    png_still_of(fs[0].width, fs[0].height, fs[0].pixels)
}

/// Extracting the first frame agrees with decoding the full sequence and
/// taking element 0: the still image both paths describe is the PNG
/// encoding of the same pixels — the value the full decoder also caches as
/// its preview.
pub proof fn lemma_first_frame_matches_full_decode(rs: Seq<RawFrameV>)
    requires
        rs.len() >= 1,
    ensures
        first_still(frames_of_raw(rs)) == png_still_of(rs[0].width, rs[0].height, rs[0].pixels),
{
    assert(frames_of_raw(rs)[0] == frame_of_raw(rs[0]));
}

/// Decodes only the first frame of an APNG stream and returns it as a
/// still PNG; fails if the stream is invalid or holds no frames.
pub fn apng_first_frame(image_data: &[u8]) -> (r: Result<Vec<u8>, ConvertError>)
    ensures
        r matches Ok(b) ==> {
            let fs = frames_of_raw(apng_frames_of(image_data@));
            &&& fs.len() >= 1
            &&& b@ == first_still(fs)
        },
        ({
            let rs = apng_frames_of(image_data@);
            &&& apng_decode_ok(image_data@)
            &&& rs.len() >= 1
            &&& rs[0].width >= 1
            &&& rs[0].height >= 1
        }) ==> r is Ok,
        apng_frames_of(image_data@).len() == 0 ==> r is Err,
        r matches Err(e) ==> ((e is Decode || e is Encode) && (e matches ConvertError::Decode(
            f,
            _,
        ) ==> f@ == "APNG"@) && (e matches ConvertError::Encode(f2, _) ==> f2@ == "PNG"@)),
{
    let raws = match apng_decode_frames(image_data) {
        Ok(v) => v,
        Err(m) => {
            return Err(ConvertError::Decode("APNG".to_owned(), m));
        },
    };
    first_raw_still(raws, Ghost(apng_frames_of(image_data@)), "APNG")
}

/// Decodes only the first frame of a GIF stream and returns it as a still
/// PNG; fails if the stream is invalid or holds no frames.
pub fn gif_first_frame(image_data: &[u8]) -> (r: Result<Vec<u8>, ConvertError>)
    ensures
        r matches Ok(b) ==> {
            let fs = frames_of_raw(gif_frames_of(image_data@));
            &&& fs.len() >= 1
            &&& b@ == first_still(fs)
        },
        ({
            let rs = gif_frames_of(image_data@);
            &&& gif_decode_ok(image_data@)
            &&& rs.len() >= 1
            &&& rs[0].width >= 1
            &&& rs[0].height >= 1
        }) ==> r is Ok,
        gif_frames_of(image_data@).len() == 0 ==> r is Err,
        r matches Err(e) ==> ((e is Decode || e is Encode) && (e matches ConvertError::Decode(
            f,
            _,
        ) ==> f@ == "GIF"@) && (e matches ConvertError::Encode(f2, _) ==> f2@ == "PNG"@)),
{
    let raws = match gif_decode_frames(image_data) {
        Ok(v) => v,
        Err(m) => {
            return Err(ConvertError::Decode("GIF".to_owned(), m));
        },
    };
    first_raw_still(raws, Ghost(gif_frames_of(image_data@)), "GIF")
}

/// Decodes only the first frame of a WebP stream and returns it as a still
/// PNG; fails if the stream is invalid or holds no frames.
pub fn webp_first_frame(image_data: &[u8]) -> (r: Result<Vec<u8>, ConvertError>)
    ensures
        r matches Ok(b) ==> {
            let fs = frames_of_raw(webp_frames_of(image_data@));
            &&& fs.len() >= 1
            &&& b@ == first_still(fs)
        },
        ({
            let rs = webp_frames_of(image_data@);
            &&& webp_decode_ok(image_data@)
            &&& rs.len() >= 1
            &&& rs[0].width >= 1
            &&& rs[0].height >= 1
        }) ==> r is Ok,
        webp_frames_of(image_data@).len() == 0 ==> r is Err,
        r matches Err(e) ==> ((e is Decode || e is Encode) && (e matches ConvertError::Decode(
            f,
            _,
        ) ==> f@ == "WebP"@) && (e matches ConvertError::Encode(f2, _) ==> f2@ == "PNG"@)),
{
    let raws = match webp_decode_frames(image_data) {
        Ok(v) => v,
        Err(m) => {
            return Err(ConvertError::Decode("WebP".to_owned(), m));
        },
    };
    first_raw_still(raws, Ghost(webp_frames_of(image_data@)), "WebP")
}

/// Encodes the first codec-delivered frame as a still PNG.
fn first_raw_still(raws: Vec<RawFrame>, expected: Ghost<Seq<RawFrameV>>, format_name: &str) -> (r:
    Result<Vec<u8>, ConvertError>)
    requires
        raws@.map_values(|x: RawFrame| x@) == expected@,
        forall|i: int| 0 <= i < raws@.len() ==> raw_wf(#[trigger] raws@[i]@),
    ensures
        r matches Ok(b) ==> {
            &&& expected@.len() >= 1
            &&& b@ == first_still(frames_of_raw(expected@))
        },
        expected@.len() >= 1 && expected@[0].width >= 1 && expected@[0].height >= 1 ==> r is Ok,
        expected@.len() == 0 ==> r is Err,
        r matches Err(e) ==> ((e is Decode || e is Encode) && (e matches ConvertError::Decode(
            f,
            _,
        ) ==> f@ == format_name@) && (e matches ConvertError::Encode(f2, _) ==> f2@ == "PNG"@)),
{
    if raws.len() == 0 {
        return Err(
            ConvertError::Decode(format_name.to_owned(), "the stream holds no frames".to_owned()),
        );
    }
    let first = &raws[0];
    proof {
        assert(first@ == expected@[0]);
        assert(raw_wf(first@));
        lemma_first_frame_matches_full_decode(expected@);
    }
    match png_encode_still(first.width, first.height, &first.pixels) {
        Ok(b) => Ok(b),
        Err(m) => Err(ConvertError::Encode("PNG".to_owned(), m)),
    }
}

} // verus!
