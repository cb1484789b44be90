//! Transcoding of animated raster images between container formats.
//!
//! The library models an animation as an ordered sequence of frames, each an
//! owned 8-bit RGBA pixel buffer with a display duration in milliseconds.
//! Decoders populate that model from GIF, APNG and WebP containers, encoders
//! serialize it back into GIF and APNG containers, and byte-level sniffers
//! classify raw bytes as animated or static without a full decode. A layered
//! static image (PSD) is flattened to a still PNG on a separate path.

pub mod animation_convert;
pub mod animation_decoder;
pub mod animation_encode;
pub mod codecs;
pub mod detect_animation;
pub mod errors;
pub mod first_frame;
pub mod formats;
pub mod frame;
pub mod image_decode;
pub mod psd_check;
pub mod report;
pub mod static_convert;

pub use errors::ConvertError;
pub use formats::FormatName;
pub use report::{NullReporter, Reporter};

use vstd::prelude::*;
use vstd::string::StringSliceAdditionalSpecFns;

use crate::animation_decoder::{
    decoded_frames_for, FormatChoice, FrameDecoder, ImgprocFrameDecoder,
};
use crate::animation_encode::{apng_staged, encode_apng, encode_gif, gif_staged};
use crate::codecs::{apng_container_of, gif_container_of, png_still_of, psd_raster_of};
use crate::first_frame::{apng_first_frame, first_still, gif_first_frame, webp_first_frame};
use crate::formats::{format_of, spec_format_of};
use crate::frame::clone_bytes;

verus! {

/// Whether a boundary-supplied format name denotes one of the animated
/// source formats a conversion can decode.
pub open spec fn is_animated_source(f: FormatName) -> bool {
    f == FormatName::Apng || f == FormatName::Gif || f == FormatName::Webp
}

/// Answers whether raw bytes hold an animated image, given the format the
/// caller claims they are in. The name is matched case-insensitively;
/// `gif`, `webp`, `png` and `apng` are supported here.
pub fn detect_animation(image_data: &[u8], source_type: &str) -> (r: Result<bool, ConvertError>)
    ensures
        spec_format_of(source_type.spec_bytes()) == FormatName::Gif ==> {
            &&& detect_animation::spec_gif_scan(image_data@)
                is Animated ==> (r matches Ok(b) && b)
            &&& detect_animation::spec_gif_scan(image_data@) is Static ==> (r matches Ok(b) && !b)
            &&& detect_animation::spec_gif_scan(image_data@) is Malformed ==> (r matches Err(e)
                && e is Decode)
        },
        spec_format_of(source_type.spec_bytes()) == FormatName::Webp ==> (r matches Ok(b) && b
            == detect_animation::spec_is_animated_webp(image_data@)),
        (spec_format_of(source_type.spec_bytes()) == FormatName::Png || spec_format_of(
            source_type.spec_bytes(),
        ) == FormatName::Apng) ==> {
            &&& detect_animation::spec_png_scan(image_data@)
                is Animated ==> (r matches Ok(b) && b)
            &&& detect_animation::spec_png_scan(image_data@) is Static ==> (r matches Ok(b) && !b)
            &&& detect_animation::spec_png_scan(image_data@) is Malformed ==> (r matches Err(e)
                && e is Decode)
        },
        (spec_format_of(source_type.spec_bytes()) == FormatName::Psd || spec_format_of(
            source_type.spec_bytes(),
        ) == FormatName::Other) ==> (r matches Err(e) && e matches ConvertError::UnsupportedFormat(
            f,
        ) && f@ == source_type@),
{
    detect_animation::detect_animation(image_data, source_type)
}

/// Selects and runs the decoder for a declared animated source format,
/// reporting milestones to `logs`; sources are `apng`, `gif` and `webp`,
/// matched case-insensitively.
pub fn animated_image_decode<R: Reporter>(format: &str, image_data: &[u8], logs: &mut R) -> (r:
    Result<ImgprocFrameDecoder, ConvertError>)
    ensures
        !is_animated_source(spec_format_of(format.spec_bytes())) ==> (r matches Err(e)
            && e matches ConvertError::UnsupportedFormat(f) && f@ == format@),
        r matches Ok(d) ==> {
            &&& d.wf()
            &&& d.seq_all() == decoded_frames_for(spec_format_of(format.spec_bytes()), image_data@)
            &&& d.delivered() == 0
            &&& d.preview_available()
        },
        r matches Err(e) ==> (e is Decode || e is Encode || e is ReporterFailure || (e
            matches ConvertError::UnsupportedFormat(f) && f@ == format@)),
        is_animated_source(spec_format_of(format.spec_bytes())) ==> (r matches Err(e) ==> (
        e is Decode || e is Encode || e is ReporterFailure)),
        (is_animated_source(spec_format_of(format.spec_bytes()))
            && !animation_convert::source_decode_ok(
            spec_format_of(format.spec_bytes()),
            image_data@,
        )) ==> r is Err,
        spec_format_of(format.spec_bytes()) == FormatName::Gif ==> (r matches Err(e) ==> (e
            matches ConvertError::Decode(f, _) ==> f@ == "GIF"@)),
        spec_format_of(format.spec_bytes()) == FormatName::Apng ==> (r matches Err(e) ==> (e
            matches ConvertError::Decode(f, _) ==> f@ == "APNG"@)),
        spec_format_of(format.spec_bytes()) == FormatName::Webp ==> (r matches Err(e) ==> (e
            matches ConvertError::Decode(f, _) ==> f@ == "WebP"@)),
{
    let choice = match format_of(format) {
        FormatName::Apng => FormatChoice::Apng,
        FormatName::Gif => FormatChoice::Gif,
        FormatName::Webp => FormatChoice::Webp,
        _ => {
            return Err(ConvertError::UnsupportedFormat(format.to_owned()));
        },
    };
    ImgprocFrameDecoder::decode(choice, image_data, logs)
}

/// The two byte buffers one conversion call produces: the converted
/// container and, independently of it, a still PNG preview of the first
/// decoded frame.
#[derive(Debug)]
pub struct ConvertedAnimatedImage {
    pub converted_file: Vec<u8>,
    pub first_frame: Vec<u8>,
}

impl ConvertedAnimatedImage {
    /// A copy of the still preview of the animation's first frame.
    pub fn first_frame(&self) -> (r: Vec<u8>)
        ensures
            r@ == self.first_frame@,
    {
        clone_bytes(&self.first_frame)
    }

    /// The converted container bytes, handing ownership to the caller.
    pub fn converted_file(self) -> (r: Vec<u8>)
        ensures
            r@ == self.converted_file@,
    {
        self.converted_file
    }
}

/// Converts an animated image between container formats and also returns a
/// still preview of its first frame, reporting milestones to `callback`.
/// Sources are `apng`, `gif` and `webp`; targets `gif` and `apng`; names
/// are matched case-insensitively. The call either yields both buffers
/// complete or fails as a whole at its first error.
pub fn convert_animated_image<R: Reporter>(
    image_data: &[u8],
    source_type: &str,
    target_type: &str,
    callback: &mut R,
) -> (r: Result<ConvertedAnimatedImage, ConvertError>)
    ensures
        !is_animated_source(spec_format_of(source_type.spec_bytes())) ==> (r matches Err(e)
            && e matches ConvertError::UnsupportedFormat(f) && f@ == source_type@),
        r matches Ok(c) ==> ({
            let fs = decoded_frames_for(spec_format_of(source_type.spec_bytes()), image_data@);
            &&& fs.len() >= 1
            &&& c.first_frame@ == first_still(fs)
            &&& (spec_format_of(target_type.spec_bytes()) == FormatName::Gif ==> c.converted_file@
                == gif_container_of(fs[0].width, fs[0].height, gif_staged(fs)))
            &&& (spec_format_of(target_type.spec_bytes()) == FormatName::Apng
                ==> c.converted_file@ == apng_container_of(
                fs[0].width,
                fs[0].height,
                apng_staged(fs),
            ))
            &&& (spec_format_of(target_type.spec_bytes()) == FormatName::Gif || spec_format_of(
                target_type.spec_bytes(),
            ) == FormatName::Apng)
        }),
        (is_animated_source(spec_format_of(source_type.spec_bytes())) && !(spec_format_of(
            target_type.spec_bytes(),
        ) == FormatName::Gif || spec_format_of(target_type.spec_bytes())
            == FormatName::Apng)) ==> (r matches Err(e) && (e is Decode || e is Encode
            || e is ReporterFailure || (e matches ConvertError::UnsupportedFormat(f) && f@
            == target_type@))),
{
    let mut decoder = match animated_image_decode(source_type, image_data, callback) {
        Ok(d) => d,
        Err(e) => {
            return Err(e);
        },
    };
    proof {
        decoder.bounds();
    }
    let first = match decoder.first_frame() {
        Ok(b) => b,
        Err(e) => {
            return Err(e);
        },
    };
    let ghost fs = decoder.seq_all();
    proof {
        decoder.bounds();
        assert(fs.skip(0) =~= fs);
    }
    let encoded = match format_of(target_type) {
        FormatName::Gif => encode_gif(decoder, callback),
        FormatName::Apng => encode_apng(decoder, callback),
        _ => {
            return Err(ConvertError::UnsupportedFormat(target_type.to_owned()));
        },
    };
    let converted = match encoded {
        Ok(b) => b,
        Err(e) => {
            return Err(e);
        },
    };
    Ok(ConvertedAnimatedImage { converted_file: converted, first_frame: first })
}

/// Extracts the first frame of an animated image as a still PNG; sources
/// are `apng`, `gif` and `webp`, matched case-insensitively.
pub fn get_first_frame(image_data: &[u8], source_type: &str) -> (r: Result<Vec<u8>, ConvertError>)
    ensures
        !is_animated_source(spec_format_of(source_type.spec_bytes())) ==> (r matches Err(e)
            && e matches ConvertError::UnsupportedFormat(f) && f@ == source_type@),
        r matches Ok(b) ==> ({
            let fs = decoded_frames_for(spec_format_of(source_type.spec_bytes()), image_data@);
            &&& fs.len() >= 1
            &&& b@ == first_still(fs)
        }),
        ({
            let sfmt = spec_format_of(source_type.spec_bytes());
            let fs = decoded_frames_for(sfmt, image_data@);
            &&& is_animated_source(sfmt)
            &&& animation_convert::source_decode_ok(sfmt, image_data@)
            &&& fs.len() >= 1
            &&& fs[0].width >= 1
            &&& fs[0].height >= 1
        }) ==> r is Ok,
{
    match format_of(source_type) {
        FormatName::Apng => apng_first_frame(image_data),
        FormatName::Gif => gif_first_frame(image_data),
        FormatName::Webp => webp_first_frame(image_data),
        _ => Err(ConvertError::UnsupportedFormat(source_type.to_owned())),
    }
}

/// Decodes a static layered image to a still PNG, reporting milestones to
/// `callback`; only `psd` is supported, matched case-insensitively.
pub fn decode_image<R: Reporter>(image_data: &[u8], source_type: &str, callback: &mut R) -> (r:
    Result<Vec<u8>, ConvertError>)
    ensures
        spec_format_of(source_type.spec_bytes()) != FormatName::Psd ==> (r matches Err(e)
            && e matches ConvertError::UnsupportedFormat(f) && f@ == source_type@),
        r matches Ok(b) ==> ({
            let t = psd_raster_of(crate::psd_check::psd_doc_of(image_data@));
            &&& t.2.len() == t.0 * t.1 * 4
            &&& b@ == png_still_of(t.0, t.1, t.2)
        }),
{
    match format_of(source_type) {
        FormatName::Psd => image_decode::decode_psd(image_data, callback),
        _ => Err(ConvertError::UnsupportedFormat(source_type.to_owned())),
    }
}

} // verus!
