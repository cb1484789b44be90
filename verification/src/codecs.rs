//! The boundary to the image codec crates.
//!
//! Everything the library takes on trust about the codecs lives here: each
//! wrapper's contract names an outside call and states only what that call's
//! source or documentation shows. The pixel work itself (LZW, deflate, VP8)
//! is the codecs' business; its results are given names so that verified
//! code can relate one call's output to another's.

use vstd::prelude::*;

use crate::frame::{raw_wf, RawFrame, RawFrameV};

verus! {

/// One frame staged for the APNG encoder: the pixel buffer and the value of
/// the 16-bit frame-control delay numerator (the denominator is always
/// written as 1000, so the numerator is the duration in milliseconds).
pub struct ApngFrameData {
    pub delay_num: u16,
    pub pixels: Vec<u8>,
}

/// The mathematical value of an [`ApngFrameData`].
pub ghost struct ApngFrameV {
    pub delay_num: u16,
    pub pixels: Seq<u8>,
}

impl View for ApngFrameData {
    type V = ApngFrameV;

    open spec fn view(&self) -> ApngFrameV {
        ApngFrameV { delay_num: self.delay_num, pixels: self.pixels@ }
    }
}

/// One frame staged for the GIF encoder: the pixel buffer and the duration
/// handed to the codec, in whole milliseconds (already quantized to the
/// container's centisecond grid).
pub struct GifFrameData {
    pub delay_ms: u32,
    pub pixels: Vec<u8>,
}

/// The mathematical value of a [`GifFrameData`].
pub ghost struct GifFrameV {
    pub delay_ms: u32,
    pub pixels: Seq<u8>,
}

impl View for GifFrameData {
    type V = GifFrameV;

    open spec fn view(&self) -> GifFrameV {
        GifFrameV { delay_ms: self.delay_ms, pixels: self.pixels@ }
    }
}

/// The frames a GIF byte stream decodes to; decoding is a pure function of
/// the bytes.
pub uninterp spec fn gif_frames_of(data: Seq<u8>) -> Seq<RawFrameV>;

/// The frames an APNG byte stream decodes to; decoding is a pure function of
/// the bytes.
pub uninterp spec fn apng_frames_of(data: Seq<u8>) -> Seq<RawFrameV>;

/// The frames a WebP byte stream decodes to; decoding is a pure function of
/// the bytes.
pub uninterp spec fn webp_frames_of(data: Seq<u8>) -> Seq<RawFrameV>;

/// The still PNG container produced for one RGBA buffer (8-bit depth, fast
/// compression, Sub filter); encoding is a pure function of its inputs.
pub uninterp spec fn png_still_of(width: u32, height: u32, pixels: Seq<u8>) -> Seq<u8>;

/// The APNG container produced for a staged frame sequence (8-bit RGBA,
/// fast compression, Sub filter, infinite loop); a pure function of its
/// inputs.
pub uninterp spec fn apng_container_of(width: u32, height: u32, frames: Seq<ApngFrameV>) -> Seq<
    u8,
>;

/// The GIF container produced for a staged frame sequence (infinite loop);
/// a pure function of its inputs.
pub uninterp spec fn gif_container_of(width: u32, height: u32, frames: Seq<GifFrameV>) -> Seq<u8>;

/// The still PNG container the `image` crate's PNG encoder produces for one
/// RGBA buffer; a pure function of its inputs.
pub uninterp spec fn image_png_still_of(width: u32, height: u32, pixels: Seq<u8>) -> Seq<u8>;

/// The width, height and composited RGBA raster a layered-image (PSD)
/// stream parses to; a pure function of the bytes.
pub uninterp spec fn psd_raster_of(data: Seq<u8>) -> (u32, u32, Seq<u8>);

/// Whether a GIF byte stream decodes without error; a pure function of the
/// bytes.
pub uninterp spec fn gif_decode_ok(data: Seq<u8>) -> bool;

/// Whether an APNG byte stream decodes without error; a pure function of
/// the bytes.
pub uninterp spec fn apng_decode_ok(data: Seq<u8>) -> bool;

/// Whether a WebP byte stream decodes without error; a pure function of
/// the bytes.
pub uninterp spec fn webp_decode_ok(data: Seq<u8>) -> bool;

/// Whether a layered-image (PSD) stream parses without error; a pure
/// function of the bytes.
pub uninterp spec fn psd_parses(data: Seq<u8>) -> bool;

/// Relies on image's `GifDecoder` and `AnimationDecoder::collect_frames`:
/// every decoded frame is the full canvas as 8-bit RGBA (its buffer holds
/// width * height * 4 samples, and all frames share the canvas size), and
/// its delay is the container's centisecond count times ten, over a
/// denominator of one. Whether the decode succeeds depends on the bytes
/// alone.
#[verifier::external_body]
pub(crate) fn gif_decode_frames(data: &[u8]) -> (r: Result<Vec<RawFrame>, String>)
    ensures
        (r is Ok) <==> gif_decode_ok(data@),
        r matches Ok(v) ==> {
            &&& v@.map_values(|f: RawFrame| f@) == gif_frames_of(data@)
            &&& forall|i: int| 0 <= i < v@.len() ==> raw_wf(#[trigger] v@[i]@)
            &&& forall|i: int|
                0 <= i < v@.len() ==> {
                    &&& (#[trigger] v@[i]@).width == v@[0]@.width
                    &&& v@[i]@.height == v@[0]@.height
                    &&& v@[i]@.denom == 1
                    &&& v@[i]@.numer % 10 == 0
                }
        },
{
    let dec = image::codecs::gif::GifDecoder::new(std::io::Cursor::new(data)).map_err(|e| e.to_string())?;
    let frames = image::AnimationDecoder::into_frames(dec).collect_frames().map_err(|e| e.to_string())?;
    Ok(frames.into_iter().map(|f: image::Frame| {
        let (numer, denom) = f.delay().numer_denom_ms();
        let b = f.into_buffer();
        RawFrame { width: b.width(), height: b.height(), numer, denom, pixels: b.into_raw() }
    }).collect())
}

/// Relies on image's `PngDecoder`, its `apng` view of the stream and
/// `AnimationDecoder::collect_frames`: every decoded frame is the full
/// canvas as 8-bit RGBA (all frames share the canvas size) and its delay
/// is a millisecond rational with a positive denominator (`delay_num *
/// 1000` over a non-zero `delay_den`, reduced). Whether the decode
/// succeeds depends on the bytes alone.
#[verifier::external_body]
pub(crate) fn apng_decode_frames(data: &[u8]) -> (r: Result<Vec<RawFrame>, String>)
    ensures
        (r is Ok) <==> apng_decode_ok(data@),
        r matches Ok(v) ==> {
            &&& v@.map_values(|f: RawFrame| f@) == apng_frames_of(data@)
            &&& forall|i: int| 0 <= i < v@.len() ==> raw_wf(#[trigger] v@[i]@)
            &&& forall|i: int|
                0 <= i < v@.len() ==> {
                    &&& (#[trigger] v@[i]@).width == v@[0]@.width
                    &&& v@[i]@.height == v@[0]@.height
                }
        },
{
    let dec = image::codecs::png::PngDecoder::new(std::io::Cursor::new(data)).map_err(|e| e.to_string())?;
    let apng = dec.apng().map_err(|e| e.to_string())?;
    let frames = image::AnimationDecoder::into_frames(apng).collect_frames().map_err(|e| e.to_string())?;
    Ok(frames.into_iter().map(|f: image::Frame| {
        let (numer, denom) = f.delay().numer_denom_ms();
        let b = f.into_buffer();
        RawFrame { width: b.width(), height: b.height(), numer, denom, pixels: b.into_raw() }
    }).collect())
}

/// Relies on image's `WebPDecoder` and `AnimationDecoder::collect_frames`:
/// every decoded frame is the full canvas as 8-bit RGBA (all frames share
/// the canvas size) and its delay is a whole number of milliseconds over a
/// denominator of 1. Whether the decode succeeds depends on the bytes
/// alone.
#[verifier::external_body]
pub(crate) fn webp_decode_frames(data: &[u8]) -> (r: Result<Vec<RawFrame>, String>)
    ensures
        (r is Ok) <==> webp_decode_ok(data@),
        r matches Ok(v) ==> {
            &&& v@.map_values(|f: RawFrame| f@) == webp_frames_of(data@)
            &&& forall|i: int| 0 <= i < v@.len() ==> raw_wf(#[trigger] v@[i]@)
            &&& forall|i: int|
                0 <= i < v@.len() ==> {
                    &&& (#[trigger] v@[i]@).width == v@[0]@.width
                    &&& v@[i]@.height == v@[0]@.height
                    &&& v@[i]@.denom == 1
                }
        },
{
    let dec = image::codecs::webp::WebPDecoder::new(std::io::Cursor::new(data)).map_err(|e| e.to_string())?;
    let frames = image::AnimationDecoder::into_frames(dec).collect_frames().map_err(|e| e.to_string())?;
    Ok(frames.into_iter().map(|f: image::Frame| {
        let (numer, denom) = f.delay().numer_denom_ms();
        let b = f.into_buffer();
        RawFrame { width: b.width(), height: b.height(), numer, denom, pixels: b.into_raw() }
    }).collect())
}

/// Relies on png's `Encoder` and `Writer`: 8-bit RGBA color, fast
/// compression, the Sub filter; writing to an in-memory buffer. With a
/// buffer of the exact size, the only failures are a zero width or height,
/// so nonzero dimensions encode successfully.
#[verifier::external_body]
pub(crate) fn png_encode_still(width: u32, height: u32, pixels: &Vec<u8>) -> (r: Result<
    Vec<u8>,
    String,
>)
    requires
        pixels@.len() == width * height * 4,
    ensures
        r matches Ok(b) ==> b@ == png_still_of(width, height, pixels@),
        width >= 1 && height >= 1 ==> r is Ok,
{
    let mut out: Vec<u8> = Vec::new();
    let mut enc = png::Encoder::new(&mut out, width, height);
    enc.set_color(png::ColorType::Rgba);
    enc.set_depth(png::BitDepth::Eight);
    enc.set_compression(png::Compression::Fast);
    enc.set_filter(png::FilterType::Sub);
    let mut writer = enc.write_header().map_err(|e| e.to_string())?;
    writer.write_image_data(pixels).map_err(|e| e.to_string())?;
    writer.finish().map_err(|e| e.to_string())?;
    Ok(out)
}

/// Relies on png's `Encoder` with `set_animated` and per-frame
/// `set_frame_delay` and `write_image_data`: the container declares
/// `frames.len()` frames looping forever, and each frame's delay is its
/// staged numerator over 1000. With at least one frame of the exact
/// buffer size, the only failures are a zero width or height.
#[verifier::external_body]
pub(crate) fn apng_encode_frames(width: u32, height: u32, frames: &Vec<ApngFrameData>) -> (r:
    Result<Vec<u8>, String>)
    requires
        1 <= frames@.len() <= u32::MAX,
        forall|i: int|
            0 <= i < frames@.len() ==> (#[trigger] frames@[i]@.pixels).len() == width * height * 4,
    ensures
        r matches Ok(b) ==> b@ == apng_container_of(
            width,
            height,
            frames@.map_values(|f: ApngFrameData| f@),
        ),
        width >= 1 && height >= 1 ==> r is Ok,
{
    let err = |e: png::EncodingError| e.to_string();
    let mut out = Vec::new();
    let mut enc = png::Encoder::new(&mut out, width, height);
    enc.set_color(png::ColorType::Rgba);
    enc.set_depth(png::BitDepth::Eight);
    enc.set_compression(png::Compression::Fast);
    enc.set_filter(png::FilterType::Sub);
    enc.set_animated(frames.len() as u32, 0).map_err(&err)?;
    let mut w = enc.write_header().map_err(&err)?;
    for f in frames {
        w.set_frame_delay(f.delay_num, 1000).map_err(&err)?;
        w.write_image_data(&f.pixels).map_err(&err)?;
    }
    w.finish().map_err(&err)?;
    Ok(out)
}

/// Relies on image's `GifEncoder`: an infinite repeat count, and one
/// `encode_frame` call per staged frame with its delay given as a
/// millisecond rational over 1. With exact buffer sizes, the only failure
/// is a dimension outside the container's 16-bit range.
#[verifier::external_body]
pub(crate) fn gif_encode_frames(width: u32, height: u32, frames: &Vec<GifFrameData>) -> (r: Result<
    Vec<u8>,
    String,
>)
    requires
        forall|i: int|
            0 <= i < frames@.len() ==> (#[trigger] frames@[i]@.pixels).len() == width * height * 4,
    ensures
        r matches Ok(b) ==> b@ == gif_container_of(
            width,
            height,
            frames@.map_values(|f: GifFrameData| f@),
        ),
        1 <= width <= 0xFFFF && 1 <= height <= 0xFFFF ==> r is Ok,
{
    let mut out: Vec<u8> = Vec::new();
    let mut enc = image::codecs::gif::GifEncoder::new(&mut out);
    enc.set_repeat(image::codecs::gif::Repeat::Infinite).map_err(|e| e.to_string())?;
    for f in frames {
        let buf = image::RgbaImage::from_raw(width, height, f.pixels.clone()).unwrap();
        let delay = image::Delay::from_numer_denom_ms(f.delay_ms, 1);
        enc.encode_frame(image::Frame::from_parts(buf, 0, 0, delay)).map_err(|e| e.to_string())?;
    }
    drop(enc);
    Ok(out)
}

/// Relies on image's `PngEncoder` and `ImageEncoder::write_image` with
/// 8-bit RGBA color; with a buffer of the exact size, the only failures
/// are a zero width or height.
#[verifier::external_body]
pub(crate) fn image_png_encode_still(width: u32, height: u32, pixels: &Vec<u8>) -> (r: Result<
    Vec<u8>,
    String,
>)
    requires
        pixels@.len() == width * height * 4,
    ensures
        r matches Ok(b) ==> b@ == image_png_still_of(width, height, pixels@),
        width >= 1 && height >= 1 ==> r is Ok,
{
    let mut out: Vec<u8> = Vec::new();
    let encoder = image::codecs::png::PngEncoder::new(&mut out);
    image::ImageEncoder::write_image(encoder, pixels, width, height, image::ExtendedColorType::Rgba8)
        .map_err(|e| e.to_string())?;
    Ok(out)
}

/// Relies on psd's `Psd::from_bytes`, `width`, `height` and `rgba`: the
/// parse and the composited raster are pure functions of the bytes, and
/// `rgba` always returns exactly width * height * 4 samples (dimensions
/// are capped at 30000). The parser indexes its input with
/// data-supplied lengths and aborts rather than erring when they overrun,
/// so the precondition demands the structural pre-check that excludes
/// every such input.
#[verifier::external_body]
pub(crate) fn psd_decode(data: &[u8]) -> (r: Result<(u32, u32, Vec<u8>), String>)
    requires
        crate::psd_check::spec_psd_safe(data@),
    ensures
        (r is Ok) <==> psd_parses(data@),
        r matches Ok(t) ==> {
            &&& (t.0, t.1, t.2@) == psd_raster_of(data@)
            &&& t.2@.len() == t.0 * t.1 * 4
            &&& 1 <= t.0 <= 30000
            &&& 1 <= t.1 <= 30000
        },
{
    let psd = psd::Psd::from_bytes(data).map_err(|e| e.to_string())?;
    Ok((psd.width(), psd.height(), psd.rgba()))
}

} // verus!
