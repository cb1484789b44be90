//! Encoders that drain a decoder's forward-only frame cursor into a target
//! container.
//!
//! Each encoder consumes the cursor until it is exhausted, writing frames in
//! delivery order, converts every millisecond duration back into the target
//! container's native timing, and reports per-frame progress; a rejected
//! progress report aborts the encode.

use vstd::prelude::*;

use crate::animation_decoder::{FrameDecoder, ImgprocFrameDecoder};
use crate::codecs::{
    apng_container_of, apng_encode_frames, gif_container_of, gif_encode_frames, ApngFrameData,
    ApngFrameV, GifFrameData, GifFrameV,
};
use crate::errors::ConvertError;
use crate::frame::{
    apng_delay_num, apng_delay_of_duration, gif_quantize_duration, gif_quantized_ms, FrameV,
};
use crate::report::Reporter;

verus! {

/// The APNG staging of a model frame sequence: each frame keeps its pixels,
/// and its duration becomes the 16-bit delay numerator that is written over
/// a denominator of 1000.
pub open spec fn apng_staged(fs: Seq<FrameV>) -> Seq<ApngFrameV> {
    fs.map_values(
        |f: FrameV| ApngFrameV { delay_num: apng_delay_num(f.duration_ms), pixels: f.pixels },
    )
}

/// The GIF staging of a model frame sequence: each frame keeps its pixels,
/// and its duration is quantized to the container's centisecond grid.
pub open spec fn gif_staged(fs: Seq<FrameV>) -> Seq<GifFrameV> {
    fs.map_values(
        |f: FrameV| GifFrameV { delay_ms: gif_quantized_ms(f.duration_ms), pixels: f.pixels },
    )
}

/// Frame-count round trip: for every animated source format, re-encoding a
/// decoded N-frame animation stages exactly N frames for the target
/// container — the GIF encoder writes one container frame per staged frame,
/// and the APNG encoder additionally declares that count in its
/// animation-control chunk.
pub proof fn lemma_frame_count_roundtrip(fmt: crate::formats::FormatName, data: Seq<u8>)
    ensures
        apng_staged(crate::animation_decoder::decoded_frames_for(fmt, data)).len()
            == crate::animation_decoder::decoded_frames_for(fmt, data).len(),
        gif_staged(crate::animation_decoder::decoded_frames_for(fmt, data)).len()
            == crate::animation_decoder::decoded_frames_for(fmt, data).len(),
{
}

/// Drains the decoder's cursor into an APNG container that declares exactly
/// the drained frame count, loops forever, and carries every duration
/// millisecond-exact (up to the container's 16-bit delay field).
///
/// The container holds one frame per undelivered frame of the decoder, so a
/// freshly constructed decoder round-trips its full frame count.
pub fn encode_apng<R: Reporter>(decoder: ImgprocFrameDecoder, logs: &mut R) -> (r: Result<
    Vec<u8>,
    ConvertError,
>)
    requires
        decoder.wf(),
    ensures
        r matches Ok(b) ==> {
            let rest = decoder.seq_all().skip(decoder.delivered() as int);
            &&& rest.len() >= 1
            &&& b@ == apng_container_of(
                decoder.canvas_width(),
                decoder.canvas_height(),
                apng_staged(rest),
            )
            &&& apng_staged(rest).len() == rest.len()
        },
        decoder.delivered() == decoder.seq_all().len() ==> r is Err,
        r matches Err(e) ==> ((e is Encode || e is ReporterFailure) && (e
            matches ConvertError::Encode(f, _) ==> f@ == "APNG"@)),
{
    let ghost d0 = decoder.delivered();
    let ghost all = decoder.seq_all();
    let mut dec = decoder;
    if logs.report("Starting APNG encoding...").is_err() {
        return Err(ConvertError::ReporterFailure);
    }
    let width = dec.width();
    let height = dec.height();
    let num_frames = dec.num_frames();
    if logs.report("Read the image dimensions and frame count.").is_err() {
        return Err(ConvertError::ReporterFailure);
    }
    let mut staged: Vec<ApngFrameData> = Vec::new();
    proof {
        dec.bounds();
        assert(staged@.map_values(|x: ApngFrameData| x@) =~= apng_staged(
            all.subrange(d0 as int, d0 as int),
        ));
    }
    loop
        invariant
            dec.wf(),
            dec.seq_all() == all,
            dec.canvas_width() == decoder.canvas_width(),
            dec.canvas_height() == decoder.canvas_height(),
            d0 <= dec.delivered() <= all.len(),
            staged@.len() == dec.delivered() - d0,
            staged@.map_values(|x: ApngFrameData| x@) == apng_staged(
                all.subrange(d0 as int, dec.delivered() as int),
            ),
            forall|i: int|
                0 <= i < staged@.len() ==> (#[trigger] staged@[i]@.pixels).len()
                    == decoder.canvas_width() * decoder.canvas_height() * 4,
            width == decoder.canvas_width(),
            height == decoder.canvas_height(),
        ensures
            dec.delivered() == all.len(),
            staged@.len() == all.len() - d0,
            staged@.map_values(|x: ApngFrameData| x@) == apng_staged(all.skip(d0 as int)),
            forall|i: int|
                0 <= i < staged@.len() ==> (#[trigger] staged@[i]@.pixels).len()
                    == decoder.canvas_width() * decoder.canvas_height() * 4,
        decreases all.len() - dec.delivered(),
    {
        let ghost k = dec.delivered();
        match dec.next_frame() {
            Some(f) => {
                let ghost fv = f@;
                if logs.report("Encoding one frame...").is_err() {
                    return Err(ConvertError::ReporterFailure);
                }
                let num = apng_delay_of_duration(f.duration_ms);
                let ghost staged0 = staged@;
                staged.push(ApngFrameData { delay_num: num, pixels: f.pixels });
                proof {
                    dec.bounds();
                    let ghost sub1 = all.subrange(d0 as int, k as int);
                    let ghost sub2 = all.subrange(d0 as int, k as int + 1);
                    assert(sub2 =~= sub1.push(all[k as int]));
                    assert(staged@[staged0.len() as int]@ == ApngFrameV {
                        delay_num: apng_delay_num(fv.duration_ms),
                        pixels: fv.pixels,
                    });
                    assert(fv == all[k as int]);
                    assert forall|i: int| 0 <= i < staged@.len() implies staged@.map_values(
                        |x: ApngFrameData| x@,
                    )[i] == apng_staged(sub2)[i] by {
                        if i < staged0.len() {
                            assert(staged@[i] == staged0[i]);
                            assert(staged0.map_values(|x: ApngFrameData| x@)[i] == apng_staged(
                                sub1,
                            )[i]);
                            assert(sub2[i] == sub1[i]);
                        } else {
                            assert(sub2[i] == all[k as int]);
                        }
                    }
                    assert(staged@.map_values(|x: ApngFrameData| x@) =~= apng_staged(sub2));
                }
            },
            None => {
                proof {
                    assert(all.subrange(d0 as int, all.len() as int) =~= all.skip(d0 as int));
                }
                break ;
            },
        }
    }
    if staged.len() == 0 {
        return Err(
            ConvertError::Encode("APNG".to_owned(), "there are no frames to encode".to_owned()),
        );
    }
    proof {
        assert(staged@.len() <= all.len());
        assert(all.len() <= u32::MAX) by {
            assert(num_frames == all.len());
        }
    }
    let bytes = match apng_encode_frames(width, height, &staged) {
        Ok(b) => b,
        Err(m) => {
            return Err(ConvertError::Encode("APNG".to_owned(), m));
        },
    };
    if logs.report("APNG encoding finished successfully.").is_err() {
        return Err(ConvertError::ReporterFailure);
    }
    Ok(bytes)
}

/// Drains the decoder's cursor into a GIF container that loops forever and
/// carries every duration quantized to the container's centisecond grid
/// (the nearest multiple of ten milliseconds).
///
/// The container holds one frame per undelivered frame of the decoder, so a
/// freshly constructed decoder round-trips its full frame count.
pub fn encode_gif<R: Reporter>(decoder: ImgprocFrameDecoder, logs: &mut R) -> (r: Result<
    Vec<u8>,
    ConvertError,
>)
    requires
        decoder.wf(),
    ensures
        r matches Ok(b) ==> {
            let rest = decoder.seq_all().skip(decoder.delivered() as int);
            &&& rest.len() >= 1
            &&& b@ == gif_container_of(
                decoder.canvas_width(),
                decoder.canvas_height(),
                gif_staged(rest),
            )
            &&& gif_staged(rest).len() == rest.len()
        },
        decoder.delivered() == decoder.seq_all().len() ==> r is Err,
        r matches Err(e) ==> ((e is Encode || e is ReporterFailure) && (e
            matches ConvertError::Encode(f, _) ==> f@ == "GIF"@)),
{
    let ghost d0 = decoder.delivered();
    let ghost all = decoder.seq_all();
    let mut dec = decoder;
    if logs.report("Starting GIF encoding...").is_err() {
        return Err(ConvertError::ReporterFailure);
    }
    let width = dec.width();
    let height = dec.height();
    let num_frames = dec.num_frames();
    if logs.report("Read the image dimensions and frame count.").is_err() {
        return Err(ConvertError::ReporterFailure);
    }
    let mut staged: Vec<GifFrameData> = Vec::new();
    proof {
        dec.bounds();
        assert(staged@.map_values(|x: GifFrameData| x@) =~= gif_staged(
            all.subrange(d0 as int, d0 as int),
        ));
    }
    loop
        invariant
            dec.wf(),
            dec.seq_all() == all,
            dec.canvas_width() == decoder.canvas_width(),
            dec.canvas_height() == decoder.canvas_height(),
            d0 <= dec.delivered() <= all.len(),
            staged@.len() == dec.delivered() - d0,
            staged@.map_values(|x: GifFrameData| x@) == gif_staged(
                all.subrange(d0 as int, dec.delivered() as int),
            ),
            forall|i: int|
                0 <= i < staged@.len() ==> (#[trigger] staged@[i]@.pixels).len()
                    == decoder.canvas_width() * decoder.canvas_height() * 4,
            width == decoder.canvas_width(),
            height == decoder.canvas_height(),
        ensures
            dec.delivered() == all.len(),
            staged@.len() == all.len() - d0,
            staged@.map_values(|x: GifFrameData| x@) == gif_staged(all.skip(d0 as int)),
            forall|i: int|
                0 <= i < staged@.len() ==> (#[trigger] staged@[i]@.pixels).len()
                    == decoder.canvas_width() * decoder.canvas_height() * 4,
        decreases all.len() - dec.delivered(),
    {
        let ghost k = dec.delivered();
        match dec.next_frame() {
            Some(f) => {
                let ghost fv = f@;
                if logs.report("Encoding one frame...").is_err() {
                    return Err(ConvertError::ReporterFailure);
                }
                let q = gif_quantize_duration(f.duration_ms);
                let ghost staged0 = staged@;
                staged.push(GifFrameData { delay_ms: q, pixels: f.pixels });
                proof {
                    dec.bounds();
                    let ghost sub1 = all.subrange(d0 as int, k as int);
                    let ghost sub2 = all.subrange(d0 as int, k as int + 1);
                    assert(sub2 =~= sub1.push(all[k as int]));
                    assert(staged@[staged0.len() as int]@ == GifFrameV {
                        delay_ms: gif_quantized_ms(fv.duration_ms),
                        pixels: fv.pixels,
                    });
                    assert(fv == all[k as int]);
                    assert forall|i: int| 0 <= i < staged@.len() implies staged@.map_values(
                        |x: GifFrameData| x@,
                    )[i] == gif_staged(sub2)[i] by {
                        if i < staged0.len() {
                            assert(staged@[i] == staged0[i]);
                            assert(staged0.map_values(|x: GifFrameData| x@)[i] == gif_staged(
                                sub1,
                            )[i]);
                            assert(sub2[i] == sub1[i]);
                        } else {
                            assert(sub2[i] == all[k as int]);
                        }
                    }
                    assert(staged@.map_values(|x: GifFrameData| x@) =~= gif_staged(sub2));
                }
            },
            None => {
                proof {
                    assert(all.subrange(d0 as int, all.len() as int) =~= all.skip(d0 as int));
                }
                break ;
            },
        }
    }
    if staged.len() == 0 {
        return Err(
            ConvertError::Encode("GIF".to_owned(), "there are no frames to encode".to_owned()),
        );
    }
    let bytes = match gif_encode_frames(width, height, &staged) {
        Ok(b) => b,
        Err(m) => {
            return Err(ConvertError::Encode("GIF".to_owned(), m));
        },
    };
    if logs.report("GIF encoding finished successfully.").is_err() {
        return Err(ConvertError::ReporterFailure);
    }
    Ok(bytes)
}

} // verus!
