//! Whole-sequence conversion: decode a container into a frame list, then
//! encode that list into a target container, without a progress sink and
//! without a preview.

use vstd::prelude::*;
use vstd::string::StringSliceAdditionalSpecFns;

use crate::animation_decoder::{decoded_frames_for, frame_of_raw, frames_of_raw};
use crate::animation_encode::{apng_staged, gif_staged};
use crate::codecs::{
    apng_container_of, apng_decode_frames, apng_encode_frames, apng_frames_of, gif_container_of,
    gif_decode_frames, gif_encode_frames, gif_frames_of, webp_decode_frames, webp_frames_of,
    apng_decode_ok, gif_decode_ok, webp_decode_ok, ApngFrameData, ApngFrameV, GifFrameData,
    GifFrameV,
};
use crate::errors::ConvertError;
use crate::formats::{format_of, spec_format_of, FormatName};
use crate::frame::{
    apng_delay_of_duration, apng_delay_num, buffer_len_matches, clone_bytes, duration_from_raw,
    frame_wf, gif_quantize_duration, gif_quantized_ms, raw_wf, Frame, FrameV, RawFrame,
};

verus! {

/// Normalizes a codec-delivered sequence into model frames, keeping order.
fn frames_from_raws(raws: &Vec<RawFrame>) -> (v: Vec<Frame>)
    ensures
        v@.map_values(|f: Frame| f@) == frames_of_raw(raws@.map_values(|x: RawFrame| x@)),
        v@.len() == raws@.len(),
        forall|i: int| 0 <= i < v@.len() ==> #[trigger] v@[i]@ == frame_of_raw(raws@[i]@),
{
    let ghost rvv = raws@.map_values(|x: RawFrame| x@);
    let mut out: Vec<Frame> = Vec::new();
    proof {
        assert(out@.map_values(|f: Frame| f@) =~= frames_of_raw(rvv.take(0)));
    }
    let n = raws.len();
    let mut i: usize = 0;
    while i < n
        invariant
            n == raws@.len(),
            rvv == raws@.map_values(|x: RawFrame| x@),
            i <= n,
            out@.len() == i,
            out@.map_values(|f: Frame| f@) == frames_of_raw(rvv.take(i as int)),
        decreases n - i,
    {
        let rf = &raws[i];
        let ghost out0 = out@;
        let d = duration_from_raw(rf.numer, rf.denom);
        out.push(
            Frame {
                width: rf.width,
                height: rf.height,
                duration_ms: d,
                pixels: clone_bytes(&rf.pixels),
            },
        );
        proof {
            assert(rf@ == rvv[i as int]);
            assert(out@[out0.len() as int]@ == frame_of_raw(rvv[i as int]));
            assert(rvv.take(i as int + 1) =~= rvv.take(i as int).push(rvv[i as int]));
            assert forall|j: int| 0 <= j < out@.len() implies out@.map_values(|f: Frame| f@)[j]
                == #[trigger] frames_of_raw(rvv.take(i as int + 1))[j] by {
                if j < out0.len() {
                    assert(out@[j] == out0[j]);
                    assert(out0.map_values(|f: Frame| f@)[j] == frames_of_raw(
                        rvv.take(i as int),
                    )[j]);
                    assert(rvv.take(i as int + 1)[j] == rvv.take(i as int)[j]);
                }
            }
            assert(out@.map_values(|f: Frame| f@) =~= frames_of_raw(rvv.take(i as int + 1)));
        }
        i = i + 1;
    }
    proof {
        assert(rvv.take(n as int) =~= rvv);
        assert forall|j: int| 0 <= j < out@.len() implies #[trigger] out@[j]@ == frame_of_raw(
            raws@[j]@,
        ) by {
            assert(out@.map_values(|f: Frame| f@)[j] == frames_of_raw(rvv)[j]);
            assert(rvv[j] == raws@[j]@);
        }
    }
    out
}

/// Decodes a whole GIF stream into the frame model, in playback order.
pub fn decode_gif(image_data: &[u8]) -> (r: Result<Vec<Frame>, ConvertError>)
    ensures
        (r is Ok) <==> gif_decode_ok(image_data@),
        r matches Ok(v) ==> {
            &&& v@.map_values(|f: Frame| f@) == frames_of_raw(gif_frames_of(image_data@))
            &&& forall|i: int|
                0 <= i < v@.len() ==> {
                    &&& (#[trigger] v@[i]@).width == v@[0]@.width
                    &&& v@[i]@.height == v@[0]@.height
                    &&& v@[i]@.duration_ms % 10 == 0
                    &&& frame_wf(v@[i]@)
                }
        },
        r matches Err(e) ==> (e matches ConvertError::Decode(f, _) && f@ == "GIF"@),
{
    match gif_decode_frames(image_data) {
        Ok(raws) => {
            let v = frames_from_raws(&raws);
            proof {
                assert forall|i: int| 0 <= i < v@.len() implies {
                    &&& (#[trigger] v@[i]@).width == v@[0]@.width
                    &&& v@[i]@.height == v@[0]@.height
                    &&& v@[i]@.duration_ms % 10 == 0
                    &&& frame_wf(v@[i]@)
                } by {
                    assert(v@[i]@ == frame_of_raw(raws@[i]@));
                    assert(v@[0]@ == frame_of_raw(raws@[0]@));
                    assert(raws@[i]@.denom == 1 && raws@[i]@.numer % 10 == 0);
                    assert(raw_wf(raws@[i]@));
                }
            }
            Ok(v)
        },
        Err(m) => Err(ConvertError::Decode("GIF".to_owned(), m)),
    }
}

/// Decodes a whole APNG stream into the frame model, in playback order.
pub fn decode_apng(image_data: &[u8]) -> (r: Result<Vec<Frame>, ConvertError>)
    ensures
        (r is Ok) <==> apng_decode_ok(image_data@),
        r matches Ok(v) ==> {
            &&& v@.map_values(|f: Frame| f@) == frames_of_raw(apng_frames_of(image_data@))
            &&& forall|i: int|
                0 <= i < v@.len() ==> {
                    &&& (#[trigger] v@[i]@).width == v@[0]@.width
                    &&& v@[i]@.height == v@[0]@.height
                    &&& frame_wf(v@[i]@)
                }
        },
        r matches Err(e) ==> (e matches ConvertError::Decode(f, _) && f@ == "APNG"@),
{
    match apng_decode_frames(image_data) {
        Ok(raws) => {
            let v = frames_from_raws(&raws);
            proof {
                assert forall|i: int| 0 <= i < v@.len() implies {
                    &&& (#[trigger] v@[i]@).width == v@[0]@.width
                    &&& v@[i]@.height == v@[0]@.height
                    &&& frame_wf(v@[i]@)
                } by {
                    assert(v@[i]@ == frame_of_raw(raws@[i]@));
                    assert(v@[0]@ == frame_of_raw(raws@[0]@));
                    assert(raws@[i]@.width == raws@[0]@.width);
                    assert(raw_wf(raws@[i]@));
                }
            }
            Ok(v)
        },
        Err(m) => Err(ConvertError::Decode("APNG".to_owned(), m)),
    }
}

/// Decodes a whole WebP stream into the frame model, in playback order.
pub fn decode_webp(image_data: &[u8]) -> (r: Result<Vec<Frame>, ConvertError>)
    ensures
        (r is Ok) <==> webp_decode_ok(image_data@),
        r matches Ok(v) ==> {
            &&& v@.map_values(|f: Frame| f@) == frames_of_raw(webp_frames_of(image_data@))
            &&& forall|i: int|
                0 <= i < v@.len() ==> {
                    &&& (#[trigger] v@[i]@).width == v@[0]@.width
                    &&& v@[i]@.height == v@[0]@.height
                    &&& v@[i]@.duration_ms == webp_frames_of(image_data@)[i].numer
                    &&& frame_wf(v@[i]@)
                }
        },
        r matches Err(e) ==> (e matches ConvertError::Decode(f, _) && f@ == "WebP"@),
{
    match webp_decode_frames(image_data) {
        Ok(raws) => {
            let v = frames_from_raws(&raws);
            proof {
                assert forall|i: int| 0 <= i < v@.len() implies {
                    &&& (#[trigger] v@[i]@).width == v@[0]@.width
                    &&& v@[i]@.height == v@[0]@.height
                    &&& v@[i]@.duration_ms == webp_frames_of(image_data@)[i].numer
                    &&& frame_wf(v@[i]@)
                } by {
                    assert(v@[i]@ == frame_of_raw(raws@[i]@));
                    assert(v@[0]@ == frame_of_raw(raws@[0]@));
                    assert(raws@[i]@.denom == 1);
                    assert(raws@.map_values(|x: RawFrame| x@)[i] == webp_frames_of(image_data@)[i]);
                    assert(raw_wf(raws@[i]@));
                }
            }
            Ok(v)
        },
        Err(m) => Err(ConvertError::Decode("WebP".to_owned(), m)),
    }
}

/// Stages a frame list for the APNG encoder, keeping order.
fn stage_apng_frames(frames: &Vec<Frame>) -> (v: Vec<ApngFrameData>)
    ensures
        v@.map_values(|x: ApngFrameData| x@) == apng_staged(frames@.map_values(|f: Frame| f@)),
{
    let ghost fs = frames@.map_values(|f: Frame| f@);
    let mut out: Vec<ApngFrameData> = Vec::new();
    proof {
        assert(out@.map_values(|x: ApngFrameData| x@) =~= apng_staged(fs.take(0)));
    }
    let n = frames.len();
    let mut i: usize = 0;
    while i < n
        invariant
            n == frames@.len(),
            fs == frames@.map_values(|f: Frame| f@),
            i <= n,
            out@.len() == i,
            out@.map_values(|x: ApngFrameData| x@) == apng_staged(fs.take(i as int)),
        decreases n - i,
    {
        let f = &frames[i];
        let ghost out0 = out@;
        let num = apng_delay_of_duration(f.duration_ms);
        out.push(ApngFrameData { delay_num: num, pixels: clone_bytes(&f.pixels) });
        proof {
            assert(f@ == fs[i as int]);
            assert(out@[out0.len() as int]@ == ApngFrameV {
                delay_num: apng_delay_num(fs[i as int].duration_ms),
                pixels: fs[i as int].pixels,
            });
            assert(fs.take(i as int + 1) =~= fs.take(i as int).push(fs[i as int]));
            assert forall|j: int| 0 <= j < out@.len() implies out@.map_values(
                |x: ApngFrameData| x@,
            )[j] == #[trigger] apng_staged(fs.take(i as int + 1))[j] by {
                if j < out0.len() {
                    assert(out@[j] == out0[j]);
                    assert(out0.map_values(|x: ApngFrameData| x@)[j] == apng_staged(
                        fs.take(i as int),
                    )[j]);
                    assert(fs.take(i as int + 1)[j] == fs.take(i as int)[j]);
                }
            }
            assert(out@.map_values(|x: ApngFrameData| x@) =~= apng_staged(fs.take(i as int + 1)));
        }
        i = i + 1;
    }
    proof {
        assert(fs.take(n as int) =~= fs);
    }
    out
}

/// Stages a frame list for the GIF encoder, keeping order.
fn stage_gif_frames(frames: &Vec<Frame>) -> (v: Vec<GifFrameData>)
    ensures
        v@.map_values(|x: GifFrameData| x@) == gif_staged(frames@.map_values(|f: Frame| f@)),
{
    let ghost fs = frames@.map_values(|f: Frame| f@);
    let mut out: Vec<GifFrameData> = Vec::new();
    proof {
        assert(out@.map_values(|x: GifFrameData| x@) =~= gif_staged(fs.take(0)));
    }
    let n = frames.len();
    let mut i: usize = 0;
    while i < n
        invariant
            n == frames@.len(),
            fs == frames@.map_values(|f: Frame| f@),
            i <= n,
            out@.len() == i,
            out@.map_values(|x: GifFrameData| x@) == gif_staged(fs.take(i as int)),
        decreases n - i,
    {
        let f = &frames[i];
        let ghost out0 = out@;
        let q = gif_quantize_duration(f.duration_ms);
        out.push(GifFrameData { delay_ms: q, pixels: clone_bytes(&f.pixels) });
        proof {
            assert(f@ == fs[i as int]);
            assert(out@[out0.len() as int]@ == GifFrameV {
                delay_ms: gif_quantized_ms(fs[i as int].duration_ms),
                pixels: fs[i as int].pixels,
            });
            assert(fs.take(i as int + 1) =~= fs.take(i as int).push(fs[i as int]));
            assert forall|j: int| 0 <= j < out@.len() implies out@.map_values(
                |x: GifFrameData| x@,
            )[j] == #[trigger] gif_staged(fs.take(i as int + 1))[j] by {
                if j < out0.len() {
                    assert(out@[j] == out0[j]);
                    assert(out0.map_values(|x: GifFrameData| x@)[j] == gif_staged(
                        fs.take(i as int),
                    )[j]);
                    assert(fs.take(i as int + 1)[j] == fs.take(i as int)[j]);
                }
            }
            assert(out@.map_values(|x: GifFrameData| x@) =~= gif_staged(fs.take(i as int + 1)));
        }
        i = i + 1;
    }
    proof {
        assert(fs.take(n as int) =~= fs);
    }
    out
}

/// Checks every frame's buffer against the canvas dimensions taken from
/// the first frame, as the container encoders demand.
fn check_canvas(frames: &Vec<Frame>) -> (r: bool)
    requires
        frames@.len() >= 1,
    ensures
        r == (forall|i: int|
            0 <= i < frames@.len() ==> (#[trigger] frames@[i]@.pixels).len() == frames@[0]@.width
                * frames@[0]@.height * 4),
{
    let width = frames[0].width;
    let height = frames[0].height;
    let n = frames.len();
    let mut i: usize = 0;
    while i < n
        invariant
            n == frames@.len(),
            n >= 1,
            i <= n,
            width == frames@[0]@.width,
            height == frames@[0]@.height,
            forall|j: int|
                0 <= j < i ==> (#[trigger] frames@[j]@.pixels).len() == width * height * 4,
        decreases n - i,
    {
        if !buffer_len_matches(width, height, frames[i].pixels.len()) {
            proof {
                assert(frames@[i as int]@.pixels.len() != width * height * 4);
            }
            return false;
        }
        i = i + 1;
    }
    true
}

/// Whether the named source format's codec accepts the bytes.
pub open spec fn source_decode_ok(f: FormatName, data: Seq<u8>) -> bool {
    if f == FormatName::Gif {
        gif_decode_ok(data)
    } else if f == FormatName::Apng {
        apng_decode_ok(data)
    } else if f == FormatName::Webp {
        webp_decode_ok(data)
    } else {
        false
    }
}

/// Whether a decoded frame sequence fits the named target container: at
/// least one frame, a nonzero canvas taken from the first frame (within
/// GIF's 16-bit range for a GIF target, and within the 32-bit frame count
/// for an APNG target), and every buffer of exactly that canvas's size.
pub open spec fn canvas_ok_for(t: FormatName, fs: Seq<FrameV>) -> bool {
    &&& fs.len() >= 1
    &&& 1 <= fs[0].width
    &&& 1 <= fs[0].height
    &&& (t == FormatName::Gif ==> fs[0].width <= 0xFFFF && fs[0].height <= 0xFFFF)
    &&& (t == FormatName::Apng ==> fs.len() <= u32::MAX)
    &&& forall|i: int|
        0 <= i < fs.len() ==> (#[trigger] fs[i]).pixels.len() == fs[0].width * fs[0].height * 4
}

/// Serializes a frame list into an APNG container that declares exactly
/// the list's frame count, loops forever, and carries every duration
/// millisecond-exact (up to the container's 16-bit delay field). An empty
/// list is rejected.
pub fn encode_apng(frames: Vec<Frame>) -> (r: Result<Vec<u8>, ConvertError>)
    ensures
        frames@.len() == 0 ==> r is Err,
        canvas_ok_for(FormatName::Apng, frames@.map_values(|f: Frame| f@)) ==> r is Ok,
        r matches Ok(b) ==> ({
            let fs = frames@.map_values(|f: Frame| f@);
            &&& fs.len() >= 1
            &&& b@ == apng_container_of(fs[0].width, fs[0].height, apng_staged(fs))
            &&& apng_staged(fs).len() == fs.len()
        }),
        r matches Err(e) ==> (e matches ConvertError::Encode(f, _) && f@ == "APNG"@),
{
    if frames.len() == 0 {
        return Err(
            ConvertError::Encode("APNG".to_owned(), "there are no frames to encode".to_owned()),
        );
    }
    if frames.len() as u64 > u32::MAX as u64 {
        return Err(
            ConvertError::Encode("APNG".to_owned(), "there are more frames than supported".to_owned()),
        );
    }
    if !check_canvas(&frames) {
        proof {
            let fs = frames@.map_values(|f: Frame| f@);
            if canvas_ok_for(FormatName::Apng, fs) {
                assert forall|i: int| 0 <= i < frames@.len() implies (#[trigger] frames@[
                    i
                ]@.pixels).len() == frames@[0]@.width * frames@[0]@.height * 4 by {
                    assert(fs[i] == frames@[i]@);
                    assert(fs[0] == frames@[0]@);
                    assert(fs[i].pixels.len() == fs[0].width * fs[0].height * 4);
                }
            }
        }
        return Err(
            ConvertError::Encode(
                "APNG".to_owned(),
                "a frame buffer disagrees with the canvas dimensions".to_owned(),
            ),
        );
    }
    let width = frames[0].width;
    let height = frames[0].height;
    let staged = stage_apng_frames(&frames);
    proof {
        let fs = frames@.map_values(|f: Frame| f@);
        assert(staged@.map_values(|x: ApngFrameData| x@) == apng_staged(fs));
        assert(staged@.len() == fs.len());
        assert forall|i: int| 0 <= i < staged@.len() implies (#[trigger] staged@[i]@.pixels).len()
            == width * height * 4 by {
            assert(fs[i] == frames@[i]@);
            assert(apng_staged(fs)[i] == ApngFrameV {
                delay_num: apng_delay_num(fs[i].duration_ms),
                pixels: fs[i].pixels,
            });
            assert(staged@.map_values(|x: ApngFrameData| x@)[i] == staged@[i]@);
            assert(staged@[i]@.pixels == fs[i].pixels);
        }
    }
    match apng_encode_frames(width, height, &staged) {
        Ok(b) => Ok(b),
        Err(m) => Err(ConvertError::Encode("APNG".to_owned(), m)),
    }
}

/// Serializes a frame list into a GIF container that loops forever and
/// carries every duration quantized to the container's centisecond grid.
/// An empty list is rejected.
pub fn encode_gif(frames: Vec<Frame>) -> (r: Result<Vec<u8>, ConvertError>)
    ensures
        frames@.len() == 0 ==> r is Err,
        canvas_ok_for(FormatName::Gif, frames@.map_values(|f: Frame| f@)) ==> r is Ok,
        r matches Ok(b) ==> ({
            let fs = frames@.map_values(|f: Frame| f@);
            &&& fs.len() >= 1
            &&& b@ == gif_container_of(fs[0].width, fs[0].height, gif_staged(fs))
            &&& gif_staged(fs).len() == fs.len()
        }),
        r matches Err(e) ==> (e matches ConvertError::Encode(f, _) && f@ == "GIF"@),
{
    if frames.len() == 0 {
        return Err(
            ConvertError::Encode("GIF".to_owned(), "there are no frames to encode".to_owned()),
        );
    }
    if !check_canvas(&frames) {
        proof {
            let fs = frames@.map_values(|f: Frame| f@);
            if canvas_ok_for(FormatName::Gif, fs) {
                assert forall|i: int| 0 <= i < frames@.len() implies (#[trigger] frames@[
                    i
                ]@.pixels).len() == frames@[0]@.width * frames@[0]@.height * 4 by {
                    assert(fs[i] == frames@[i]@);
                    assert(fs[0] == frames@[0]@);
                    assert(fs[i].pixels.len() == fs[0].width * fs[0].height * 4);
                }
            }
        }
        return Err(
            ConvertError::Encode(
                "GIF".to_owned(),
                "a frame buffer disagrees with the canvas dimensions".to_owned(),
            ),
        );
    }
    let width = frames[0].width;
    let height = frames[0].height;
    let staged = stage_gif_frames(&frames);
    proof {
        let fs = frames@.map_values(|f: Frame| f@);
        assert(staged@.map_values(|x: GifFrameData| x@) == gif_staged(fs));
        assert(staged@.len() == fs.len());
        assert forall|i: int| 0 <= i < staged@.len() implies (#[trigger] staged@[i]@.pixels).len()
            == width * height * 4 by {
            assert(fs[i] == frames@[i]@);
            assert(gif_staged(fs)[i] == GifFrameV {
                delay_ms: gif_quantized_ms(fs[i].duration_ms),
                pixels: fs[i].pixels,
            });
            assert(staged@.map_values(|x: GifFrameData| x@)[i] == staged@[i]@);
            assert(staged@[i]@.pixels == fs[i].pixels);
        }
    }
    match gif_encode_frames(width, height, &staged) {
        Ok(b) => Ok(b),
        Err(m) => Err(ConvertError::Encode("GIF".to_owned(), m)),
    }
}

/// Converts an animated image from one container format to another in one
/// shot: decode the whole source, then encode the whole frame list.
/// Source and target format names are matched case-insensitively; sources
/// are `gif`, `webp` and `apng`, targets `gif` and `apng`.
pub fn decode(image_data: &[u8], source_format: &str, target_format: &str) -> (r: Result<
    Vec<u8>,
    ConvertError,
>)
    ensures
        !(spec_format_of(source_format.spec_bytes()) == FormatName::Gif || spec_format_of(
            source_format.spec_bytes(),
        ) == FormatName::Webp || spec_format_of(source_format.spec_bytes())
            == FormatName::Apng) ==> (r matches Err(e)
            && e matches ConvertError::UnsupportedFormat(f) && f@ == source_format@),
        r matches Ok(b) ==> ({
            let fs = decoded_frames_for(spec_format_of(source_format.spec_bytes()), image_data@);
            &&& fs.len() >= 1
            &&& (spec_format_of(target_format.spec_bytes()) == FormatName::Gif ==> b@
                == gif_container_of(fs[0].width, fs[0].height, gif_staged(fs)))
            &&& (spec_format_of(target_format.spec_bytes()) == FormatName::Apng ==> b@
                == apng_container_of(fs[0].width, fs[0].height, apng_staged(fs)))
            &&& (spec_format_of(target_format.spec_bytes()) == FormatName::Gif || spec_format_of(
                target_format.spec_bytes(),
            ) == FormatName::Apng)
        }),
        (crate::is_animated_source(spec_format_of(source_format.spec_bytes())) && !(spec_format_of(
            target_format.spec_bytes(),
        ) == FormatName::Gif || spec_format_of(target_format.spec_bytes())
            == FormatName::Apng)) ==> (r matches Err(e) && (e is Decode || (e
            matches ConvertError::UnsupportedFormat(f) && f@ == target_format@))),
        ({
            let sfmt = spec_format_of(source_format.spec_bytes());
            let tfmt = spec_format_of(target_format.spec_bytes());
            &&& crate::is_animated_source(sfmt)
            &&& source_decode_ok(sfmt, image_data@)
            &&& !(tfmt == FormatName::Gif || tfmt == FormatName::Apng)
        }) ==> (r matches Err(e) && e matches ConvertError::UnsupportedFormat(f) && f@
            == target_format@),
        ({
            let sfmt = spec_format_of(source_format.spec_bytes());
            let tfmt = spec_format_of(target_format.spec_bytes());
            &&& crate::is_animated_source(sfmt)
            &&& source_decode_ok(sfmt, image_data@)
            &&& (tfmt == FormatName::Gif || tfmt == FormatName::Apng)
            &&& canvas_ok_for(tfmt, decoded_frames_for(sfmt, image_data@))
        }) ==> r is Ok,
{
    let frames = match format_of(source_format) {
        FormatName::Gif => decode_gif(image_data),
        FormatName::Webp => decode_webp(image_data),
        FormatName::Apng => decode_apng(image_data),
        _ => {
            return Err(ConvertError::UnsupportedFormat(source_format.to_owned()));
        },
    };
    let frames = match frames {
        Ok(v) => v,
        Err(e) => {
            return Err(e);
        },
    };
    match format_of(target_format) {
        FormatName::Gif => encode_gif(frames),
        FormatName::Apng => encode_apng(frames),
        _ => Err(ConvertError::UnsupportedFormat(target_format.to_owned())),
    }
}

} // verus!
