//! Decoders that turn a container's bytes into the library's frame model.
//!
//! Each decoder walks its container once, normalizes every frame to 8-bit
//! RGBA with a millisecond duration, caches a PNG still of the first frame
//! as a one-shot preview, and then hands the frames out through a
//! forward-only cursor.

use vstd::prelude::*;

use crate::codecs::{
    apng_decode_frames, apng_decode_ok, apng_frames_of, gif_decode_frames, gif_decode_ok,
    gif_frames_of, png_encode_still, png_still_of, webp_decode_frames, webp_decode_ok,
    webp_frames_of,
};
use crate::errors::ConvertError;
use crate::frame::{frame_wf, ms_of_raw, raw_wf, Frame, FrameV, RawFrame, RawFrameV};
use crate::report::Reporter;

verus! {

/// The model frame a codec-delivered frame denotes: the same pixels, with
/// the delay rational collapsed to whole milliseconds.
pub open spec fn frame_of_raw(r: RawFrameV) -> FrameV {
    FrameV {
        width: r.width,
        height: r.height,
        duration_ms: ms_of_raw(r.numer, r.denom),
        pixels: r.pixels,
    }
}

/// The model frames a whole codec-delivered sequence denotes.
pub open spec fn frames_of_raw(rs: Seq<RawFrameV>) -> Seq<FrameV> {
    rs.map_values(|r: RawFrameV| frame_of_raw(r))
}

/// The model frame sequence that decoding `data` as the named format
/// yields; empty for a name that is not an animated source format.
pub open spec fn decoded_frames_for(f: crate::formats::FormatName, data: Seq<u8>) -> Seq<FrameV> {
    if f == crate::formats::FormatName::Gif {
        frames_of_raw(gif_frames_of(data))
    } else if f == crate::formats::FormatName::Apng {
        frames_of_raw(apng_frames_of(data))
    } else if f == crate::formats::FormatName::Webp {
        frames_of_raw(webp_frames_of(data))
    } else {
        Seq::empty()
    }
}

/// The shared state of every decoder: the canvas size, the full decoded
/// sequence (as a ghost record), the frames not yet delivered, and the
/// one-shot preview.
pub struct DecoderCore {
    width: u32,
    height: u32,
    num_frames: u32,
    /// Frames not yet delivered by the cursor, in reverse playback order.
    pending: Vec<Frame>,
    /// The full decoded sequence, in playback order.
    all: Ghost<Seq<FrameV>>,
    /// The cached PNG still of the first frame, until taken.
    preview: Option<Vec<u8>>,
}

/// How many frames the cursor has already delivered.
spec fn core_delivered(c: DecoderCore) -> nat {
    (c.all@.len() - c.pending@.len()) as nat
}

/// The decoder invariant: a non-empty sequence of well-formed frames that
/// all share the canvas size, a pending stack holding exactly the frames
/// not yet delivered (reversed), and a preview that, while present, is the
/// PNG still of the first frame.
spec fn core_wf(c: DecoderCore) -> bool {
    &&& 1 <= c.all@.len() <= u32::MAX
    &&& c.num_frames == c.all@.len()
    &&& c.pending@.len() <= c.all@.len()
    &&& forall|i: int|
        0 <= i < c.pending@.len() ==> #[trigger] c.pending@[i]@ == c.all@[c.all@.len() - 1 - i]
    &&& forall|i: int|
        0 <= i < c.all@.len() ==> {
            &&& frame_wf(#[trigger] c.all@[i])
            &&& c.all@[i].width == c.width
            &&& c.all@[i].height == c.height
        }
    &&& (c.preview matches Some(b) ==> b@ == png_still_of(c.width, c.height, c.all@[0].pixels))
}

/// Builds the shared decoder state from a codec-delivered frame sequence:
/// rejects an empty sequence and frames that disagree on the canvas size,
/// normalizes every duration to whole milliseconds, and caches a PNG still
/// of the first frame.
fn core_from_raw(format_name: &str, raws: Vec<RawFrame>) -> (r: Result<DecoderCore, ConvertError>)
    requires
        forall|i: int| 0 <= i < raws@.len() ==> raw_wf(#[trigger] raws@[i]@),
    ensures
        r matches Ok(c) ==> {
            &&& core_wf(c)
            &&& c.all@ == frames_of_raw(raws@.map_values(|x: RawFrame| x@))
            &&& core_delivered(c) == 0
            &&& c.preview is Some
        },
        raws@.len() == 0 ==> (r matches Err(e) && e is Decode),
        r matches Err(e) ==> ((e is Decode || e is Encode) && (e matches ConvertError::Decode(
            f,
            _,
        ) ==> f@ == format_name@) && (e matches ConvertError::Encode(f2, _) ==> f2@ == "PNG"@)),
{
    let ghost rv: Seq<RawFrameV> = raws@.map_values(|x: RawFrame| x@);
    let mut raws = raws;
    let n = raws.len();
    if n == 0 {
        return Err(
            ConvertError::Decode(format_name.to_owned(), "the stream holds no frames".to_owned()),
        );
    }
    if n as u64 > u32::MAX as u64 {
        return Err(
            ConvertError::Decode(
                format_name.to_owned(),
                "the stream declares more frames than supported".to_owned(),
            ),
        );
    }
    let width = raws[0].width;
    let height = raws[0].height;
    let mut pending: Vec<Frame> = Vec::new();
    while raws.len() > 0
        invariant
            n == rv.len(),
            1 <= n <= u32::MAX,
            raws@.len() + pending@.len() == n,
            raws@.map_values(|x: RawFrame| x@) == rv.take(raws@.len() as int),
            forall|i: int| 0 <= i < rv.len() ==> raw_wf(#[trigger] rv[i]),
            width == rv[0].width,
            height == rv[0].height,
            forall|i: int|
                0 <= i < pending@.len() ==> #[trigger] pending@[i]@ == frame_of_raw(rv[n - 1 - i]),
            forall|i: int|
                0 <= i < pending@.len() ==> {
                    &&& (#[trigger] pending@[i]@).width == width
                    &&& pending@[i]@.height == height
                },
        decreases raws@.len(),
    {
        let ghost k = raws@.len() - 1;
        proof {
            assert(raws@.map_values(|x: RawFrame| x@)[k] == rv.take(k + 1)[k]);
        }
        let rf = raws.pop().unwrap();
        proof {
            assert(rf@ == rv[k]);
            assert(raws@.map_values(|x: RawFrame| x@) =~= rv.take(raws@.len() as int));
        }
        if rf.width != width || rf.height != height {
            return Err(
                ConvertError::Decode(
                    format_name.to_owned(),
                    "frames disagree on the canvas dimensions".to_owned(),
                ),
            );
        }
        let d = crate::frame::duration_from_raw(rf.numer, rf.denom);
        let f = Frame { width: rf.width, height: rf.height, duration_ms: d, pixels: rf.pixels };
        proof {
            assert(f@ == frame_of_raw(rv[k]));
        }
        pending.push(f);
    }
    let first = &pending[pending.len() - 1];
    proof {
        assert(first@ == frame_of_raw(rv[0]));
        assert(raw_wf(rv[0]));
    }
    let preview = match png_encode_still(width, height, &first.pixels) {
        Ok(b) => b,
        Err(m) => {
            return Err(ConvertError::Encode("PNG".to_owned(), m));
        },
    };
    let ghost all: Seq<FrameV> = frames_of_raw(rv);
    let core = DecoderCore {
        width,
        height,
        num_frames: n as u32,
        pending,
        all: Ghost(all),
        preview: Some(preview),
    };
    proof {
        assert forall|i: int| 0 <= i < all.len() implies {
            &&& frame_wf(#[trigger] all[i])
            &&& all[i].width == width
            &&& all[i].height == height
        } by {
            assert(all[i] == frame_of_raw(rv[i]));
            assert(core.pending@[n - 1 - i]@ == frame_of_raw(rv[i]));
            assert(raw_wf(rv[i]));
        }
        assert(core_wf(core));
    }
    Ok(core)
}

/// Delivers the next undelivered frame, or `None` once the sequence is
/// exhausted; the cursor only moves forward.
fn core_next_frame(c: &mut DecoderCore) -> (r: Option<Frame>)
    requires
        core_wf(*old(c)),
    ensures
        core_wf(*final(c)),
        final(c).all@ == old(c).all@,
        final(c).width == old(c).width,
        final(c).height == old(c).height,
        (final(c).preview is Some) == (old(c).preview is Some),
        core_delivered(*old(c)) < old(c).all@.len() ==> {
            &&& r matches Some(f)
            &&& f@ == old(c).all@[core_delivered(*old(c)) as int]
            &&& core_delivered(*final(c)) == core_delivered(*old(c)) + 1
        },
        core_delivered(*old(c)) == old(c).all@.len() ==> {
            &&& r is None
            &&& core_delivered(*final(c)) == core_delivered(*old(c))
        },
{
    match c.pending.pop() {
        Some(f) => Some(f),
        None => None,
    }
}

/// Hands out the cached preview exactly once; a second request fails with
/// an already-consumed error.
fn core_first_frame(c: &mut DecoderCore) -> (r: Result<Vec<u8>, ConvertError>)
    requires
        core_wf(*old(c)),
    ensures
        core_wf(*final(c)),
        final(c).all@ == old(c).all@,
        final(c).pending@ == old(c).pending@,
        final(c).width == old(c).width,
        final(c).height == old(c).height,
        core_delivered(*final(c)) == core_delivered(*old(c)),
        old(c).preview is Some ==> {
            &&& r matches Ok(b)
            &&& b@ == png_still_of(final(c).width, final(c).height, final(c).all@[0].pixels)
            &&& final(c).preview is None
        },
        old(c).preview is None ==> {
            &&& r matches Err(e)
            &&& e is AlreadyConsumed
            &&& final(c).preview is None
        },
{
    match c.preview.take() {
        Some(b) => Ok(b),
        None => Err(ConvertError::AlreadyConsumed),
    }
}

/// The shared capability set of the source-format decoders: canvas
/// metadata, the forward-only frame cursor, and the one-shot preview.
pub trait FrameDecoder: Sized {
    /// The decoder invariant.
    spec fn wf(&self) -> bool;

    /// The full decoded sequence, in playback order.
    spec fn seq_all(&self) -> Seq<FrameV>;

    /// How many frames the cursor has already delivered.
    spec fn delivered(&self) -> nat;

    /// Whether the cached preview is still available.
    spec fn preview_available(&self) -> bool;

    /// The canvas width every frame shares.
    spec fn canvas_width(&self) -> u32;

    /// The canvas height every frame shares.
    spec fn canvas_height(&self) -> u32;

    /// A well-formed decoder's cursor never runs past its sequence, and the
    /// sequence is non-empty and fits the 32-bit frame counter.
    proof fn bounds(&self)
        requires
            self.wf(),
        ensures
            self.delivered() <= self.seq_all().len(),
            1 <= self.seq_all().len() <= u32::MAX,
            forall|i: int|
                0 <= i < self.seq_all().len() ==> {
                    &&& frame_wf(#[trigger] self.seq_all()[i])
                    &&& self.seq_all()[i].width == self.canvas_width()
                    &&& self.seq_all()[i].height == self.canvas_height()
                },
    ;

    /// The canvas width.
    fn width(&self) -> (w: u32)
        requires
            self.wf(),
        ensures
            w == self.canvas_width(),
    ;

    /// The canvas height.
    fn height(&self) -> (h: u32)
        requires
            self.wf(),
        ensures
            h == self.canvas_height(),
    ;

    /// How many frames the animation holds.
    fn num_frames(&self) -> (n: u32)
        requires
            self.wf(),
        ensures
            n == self.seq_all().len(),
    ;

    /// The next undelivered frame, or `None` once the sequence is
    /// exhausted; the cursor is not rewindable.
    fn next_frame(&mut self) -> (r: Option<Frame>)
        requires
            old(self).wf(),
        ensures
            final(self).wf(),
            final(self).seq_all() == old(self).seq_all(),
            final(self).canvas_width() == old(self).canvas_width(),
            final(self).canvas_height() == old(self).canvas_height(),
            final(self).preview_available() == old(self).preview_available(),
            old(self).delivered() < old(self).seq_all().len() ==> {
                &&& r matches Some(f)
                &&& f@ == old(self).seq_all()[old(self).delivered() as int]
                &&& frame_wf(f@)
                &&& f@.width == old(self).canvas_width()
                &&& f@.height == old(self).canvas_height()
                &&& final(self).delivered() == old(self).delivered() + 1
            },
            old(self).delivered() == old(self).seq_all().len() ==> {
                &&& r is None
                &&& final(self).delivered() == old(self).delivered()
            },
    ;

    /// The cached PNG still of the first frame; it may be taken exactly
    /// once, and a second request fails with an already-consumed error.
    fn first_frame(&mut self) -> (r: Result<Vec<u8>, ConvertError>)
        requires
            old(self).wf(),
        ensures
            final(self).wf(),
            final(self).seq_all() == old(self).seq_all(),
            final(self).delivered() == old(self).delivered(),
            final(self).canvas_width() == old(self).canvas_width(),
            final(self).canvas_height() == old(self).canvas_height(),
            !final(self).preview_available(),
            old(self).preview_available() ==> {
                &&& r matches Ok(b)
                &&& b@ == png_still_of(
                    final(self).canvas_width(),
                    final(self).canvas_height(),
                    final(self).seq_all()[0].pixels,
                )
            },
            !old(self).preview_available() ==> (r matches Err(e) && e is AlreadyConsumed),
    ;
}

/// Decodes an APNG stream into the frame model.
pub struct ImgprocApngDecoder {
    core: DecoderCore,
}

/// Decodes a GIF stream into the frame model.
pub struct ImgprocGifDecoder {
    core: DecoderCore,
}

/// Decodes a WebP stream into the frame model.
pub struct ImgprocWebpDecoder {
    core: DecoderCore,
}

/// A decoder for whichever source format was selected at run time; the
/// shared capability set behaves identically through it.
pub struct ImgprocFrameDecoder {
    core: DecoderCore,
}

impl ImgprocApngDecoder {
    /// Decodes a whole APNG stream, reporting milestones to `logs`.
    pub fn new<R: Reporter>(image_data: &[u8], logs: &mut R) -> (r: Result<
        ImgprocApngDecoder,
        ConvertError,
    >)
        ensures
            r matches Ok(d) ==> {
                &&& d.wf()
                &&& d.seq_all() == frames_of_raw(apng_frames_of(image_data@))
                &&& d.delivered() == 0
                &&& d.preview_available()
            },
            apng_frames_of(image_data@).len() == 0 ==> r is Err,
            !apng_decode_ok(image_data@) ==> r is Err,
            r matches Err(e) ==> ((e is Decode || e is Encode || e is ReporterFailure) && (e
                matches ConvertError::Decode(f, _) ==> f@ == "APNG"@)),
    {
        match decode_with_reports(FormatChoice::Apng, image_data, logs) {
            Ok(core) => Ok(ImgprocApngDecoder { core }),
            Err(e) => Err(e),
        }
    }
}

impl ImgprocGifDecoder {
    /// Decodes a whole GIF stream, reporting milestones to `logs`.
    pub fn new<R: Reporter>(image_data: &[u8], logs: &mut R) -> (r: Result<
        ImgprocGifDecoder,
        ConvertError,
    >)
        ensures
            r matches Ok(d) ==> {
                &&& d.wf()
                &&& d.seq_all() == frames_of_raw(gif_frames_of(image_data@))
                &&& d.delivered() == 0
                &&& d.preview_available()
                &&& forall|i: int|
                    0 <= i < d.seq_all().len() ==> (#[trigger] d.seq_all()[i]).duration_ms % 10
                        == 0
            },
            gif_frames_of(image_data@).len() == 0 ==> r is Err,
            !gif_decode_ok(image_data@) ==> r is Err,
            r matches Err(e) ==> ((e is Decode || e is Encode || e is ReporterFailure) && (e
                matches ConvertError::Decode(f, _) ==> f@ == "GIF"@)),
    {
        match decode_with_reports(FormatChoice::Gif, image_data, logs) {
            Ok(core) => Ok(ImgprocGifDecoder { core }),
            Err(e) => Err(e),
        }
    }
}

impl ImgprocWebpDecoder {
    /// Decodes a whole WebP stream, reporting milestones to `logs`.
    pub fn new<R: Reporter>(image_data: &[u8], logs: &mut R) -> (r: Result<
        ImgprocWebpDecoder,
        ConvertError,
    >)
        ensures
            r matches Ok(d) ==> {
                &&& d.wf()
                &&& d.seq_all() == frames_of_raw(webp_frames_of(image_data@))
                &&& d.delivered() == 0
                &&& d.preview_available()
                &&& forall|i: int|
                    0 <= i < d.seq_all().len() ==> (#[trigger] d.seq_all()[i]).duration_ms
                        == webp_frames_of(image_data@)[i].numer
            },
            webp_frames_of(image_data@).len() == 0 ==> r is Err,
            !webp_decode_ok(image_data@) ==> r is Err,
            r matches Err(e) ==> ((e is Decode || e is Encode || e is ReporterFailure) && (e
                matches ConvertError::Decode(f, _) ==> f@ == "WebP"@)),
    {
        match decode_with_reports(FormatChoice::Webp, image_data, logs) {
            Ok(core) => Ok(ImgprocWebpDecoder { core }),
            Err(e) => Err(e),
        }
    }
}

/// Which animated source format a decoder walks.
#[derive(Clone, Copy, PartialEq, Eq, Structural)]
pub(crate) enum FormatChoice {
    Gif,
    Apng,
    Webp,
}

/// The frames the chosen codec delivers for `data`.
pub(crate) open spec fn raw_frames_for(choice: FormatChoice, data: Seq<u8>) -> Seq<RawFrameV> {
    match choice {
        FormatChoice::Gif => gif_frames_of(data),
        FormatChoice::Apng => apng_frames_of(data),
        FormatChoice::Webp => webp_frames_of(data),
    }
}

/// Whether the chosen codec accepts `data`.
pub(crate) open spec fn raw_decode_ok_for(choice: FormatChoice, data: Seq<u8>) -> bool {
    match choice {
        FormatChoice::Gif => gif_decode_ok(data),
        FormatChoice::Apng => apng_decode_ok(data),
        FormatChoice::Webp => webp_decode_ok(data),
    }
}

/// The format name the chosen codec's decode errors carry.
pub(crate) open spec fn spec_format_label(choice: FormatChoice) -> Seq<char> {
    match choice {
        FormatChoice::Gif => "GIF"@,
        FormatChoice::Apng => "APNG"@,
        FormatChoice::Webp => "WebP"@,
    }
}

/// Runs one codec over `data` and builds the shared decoder state,
/// reporting the decode start and completion milestones.
fn decode_with_reports<R: Reporter>(choice: FormatChoice, data: &[u8], logs: &mut R) -> (r: Result<
    DecoderCore,
    ConvertError,
>)
    ensures
        r matches Ok(c) ==> {
            &&& core_wf(c)
            &&& c.all@ == frames_of_raw(raw_frames_for(choice, data@))
            &&& core_delivered(c) == 0
            &&& c.preview is Some
            &&& (choice == FormatChoice::Gif ==> forall|i: int|
                0 <= i < c.all@.len() ==> (#[trigger] c.all@[i]).duration_ms % 10 == 0)
            &&& (choice == FormatChoice::Webp ==> forall|i: int|
                0 <= i < c.all@.len() ==> (#[trigger] c.all@[i]).duration_ms == webp_frames_of(
                    data@,
                )[i].numer)
        },
        raw_frames_for(choice, data@).len() == 0 ==> r is Err,
        !raw_decode_ok_for(choice, data@) ==> r is Err,
        r matches Err(e) ==> ((e is Decode || e is Encode || e is ReporterFailure) && (e
            matches ConvertError::Decode(f, _) ==> f@ == spec_format_label(choice)) && (e
            matches ConvertError::Encode(f2, _) ==> f2@ == "PNG"@)),
{
    let start_msg: &str = match choice {
        FormatChoice::Gif => "Decoding GIF image...",
        FormatChoice::Apng => "Decoding APNG image...",
        FormatChoice::Webp => "Decoding WebP image...",
    };
    if logs.report(start_msg).is_err() {
        return Err(ConvertError::ReporterFailure);
    }
    let decoded = match choice {
        FormatChoice::Gif => gif_decode_frames(data),
        FormatChoice::Apng => apng_decode_frames(data),
        FormatChoice::Webp => webp_decode_frames(data),
    };
    let raws = match decoded {
        Ok(v) => v,
        Err(m) => {
            let name: &str = format_label(choice);
            return Err(ConvertError::Decode(name.to_owned(), m));
        },
    };
    let ghost rws = raws@;
    let core = match core_from_raw(format_label(choice), raws) {
        Ok(c) => c,
        Err(e) => {
            return Err(e);
        },
    };
    proof {
        if choice == FormatChoice::Gif {
            let rvv = rws.map_values(|x: RawFrame| x@);
            assert forall|i: int| 0 <= i < core.all@.len() implies (#[trigger] core.all@[
                i
            ]).duration_ms % 10 == 0 by {
                assert(core.all@[i] == frames_of_raw(rvv)[i]);
                assert(frames_of_raw(rvv)[i] == frame_of_raw(rvv[i]));
                assert(rvv[i] == rws[i]@);
                assert(rws[i]@.denom == 1 && rws[i]@.numer % 10 == 0);
            }
        }
        if choice == FormatChoice::Webp {
            let rvv = rws.map_values(|x: RawFrame| x@);
            assert forall|i: int| 0 <= i < core.all@.len() implies (#[trigger] core.all@[
                i
            ]).duration_ms == webp_frames_of(data@)[i].numer by {
                assert(core.all@[i] == frames_of_raw(rvv)[i]);
                assert(frames_of_raw(rvv)[i] == frame_of_raw(rvv[i]));
                assert(rvv[i] == rws[i]@);
                assert(rws[i]@.denom == 1);
            }
        }
    }
    if logs.report("Successfully encoded the first frame as PNG.").is_err() {
        return Err(ConvertError::ReporterFailure);
    }
    if logs.report("Decoded all frames.").is_err() {
        return Err(ConvertError::ReporterFailure);
    }
    Ok(core)
}

/// The format name used in error values for the chosen codec.
fn format_label(choice: FormatChoice) -> (r: &'static str)
    ensures
        r@ == spec_format_label(choice),
{
    match choice {
        FormatChoice::Gif => "GIF",
        FormatChoice::Apng => "APNG",
        FormatChoice::Webp => "WebP",
    }
}

impl FrameDecoder for ImgprocApngDecoder {
    closed spec fn wf(&self) -> bool {
        core_wf(self.core)
    }

    closed spec fn seq_all(&self) -> Seq<FrameV> {
        self.core.all@
    }

    closed spec fn delivered(&self) -> nat {
        core_delivered(self.core)
    }

    closed spec fn preview_available(&self) -> bool {
        self.core.preview is Some
    }

    closed spec fn canvas_width(&self) -> u32 {
        self.core.width
    }

    closed spec fn canvas_height(&self) -> u32 {
        self.core.height
    }

    proof fn bounds(&self) {
    }

    fn width(&self) -> u32 {
        self.core.width
    }

    fn height(&self) -> u32 {
        self.core.height
    }

    fn num_frames(&self) -> u32 {
        self.core.num_frames
    }

    fn next_frame(&mut self) -> Option<Frame> {
        core_next_frame(&mut self.core)
    }

    fn first_frame(&mut self) -> Result<Vec<u8>, ConvertError> {
        core_first_frame(&mut self.core)
    }
}

impl FrameDecoder for ImgprocGifDecoder {
    closed spec fn wf(&self) -> bool {
        core_wf(self.core)
    }

    closed spec fn seq_all(&self) -> Seq<FrameV> {
        self.core.all@
    }

    closed spec fn delivered(&self) -> nat {
        core_delivered(self.core)
    }

    closed spec fn preview_available(&self) -> bool {
        self.core.preview is Some
    }

    closed spec fn canvas_width(&self) -> u32 {
        self.core.width
    }

    closed spec fn canvas_height(&self) -> u32 {
        self.core.height
    }

    proof fn bounds(&self) {
    }

    fn width(&self) -> u32 {
        self.core.width
    }

    fn height(&self) -> u32 {
        self.core.height
    }

    fn num_frames(&self) -> u32 {
        self.core.num_frames
    }

    fn next_frame(&mut self) -> Option<Frame> {
        core_next_frame(&mut self.core)
    }

    fn first_frame(&mut self) -> Result<Vec<u8>, ConvertError> {
        core_first_frame(&mut self.core)
    }
}

impl FrameDecoder for ImgprocWebpDecoder {
    closed spec fn wf(&self) -> bool {
        core_wf(self.core)
    }

    closed spec fn seq_all(&self) -> Seq<FrameV> {
        self.core.all@
    }

    closed spec fn delivered(&self) -> nat {
        core_delivered(self.core)
    }

    closed spec fn preview_available(&self) -> bool {
        self.core.preview is Some
    }

    closed spec fn canvas_width(&self) -> u32 {
        self.core.width
    }

    closed spec fn canvas_height(&self) -> u32 {
        self.core.height
    }

    proof fn bounds(&self) {
    }

    fn width(&self) -> u32 {
        self.core.width
    }

    fn height(&self) -> u32 {
        self.core.height
    }

    fn num_frames(&self) -> u32 {
        self.core.num_frames
    }

    fn next_frame(&mut self) -> Option<Frame> {
        core_next_frame(&mut self.core)
    }

    fn first_frame(&mut self) -> Result<Vec<u8>, ConvertError> {
        core_first_frame(&mut self.core)
    }
}

impl FrameDecoder for ImgprocFrameDecoder {
    closed spec fn wf(&self) -> bool {
        core_wf(self.core)
    }

    closed spec fn seq_all(&self) -> Seq<FrameV> {
        self.core.all@
    }

    closed spec fn delivered(&self) -> nat {
        core_delivered(self.core)
    }

    closed spec fn preview_available(&self) -> bool {
        self.core.preview is Some
    }

    closed spec fn canvas_width(&self) -> u32 {
        self.core.width
    }

    closed spec fn canvas_height(&self) -> u32 {
        self.core.height
    }

    proof fn bounds(&self) {
    }

    fn width(&self) -> u32 {
        self.core.width
    }

    fn height(&self) -> u32 {
        self.core.height
    }

    fn num_frames(&self) -> u32 {
        self.core.num_frames
    }

    fn next_frame(&mut self) -> Option<Frame> {
        core_next_frame(&mut self.core)
    }

    fn first_frame(&mut self) -> Result<Vec<u8>, ConvertError> {
        core_first_frame(&mut self.core)
    }
}

impl ImgprocFrameDecoder {
    /// Selects and runs the decoder for `choice`, reporting milestones to
    /// `logs`.
    pub(crate) fn decode<R: Reporter>(choice: FormatChoice, image_data: &[u8], logs: &mut R) -> (r:
        Result<ImgprocFrameDecoder, ConvertError>)
        ensures
            r matches Ok(d) ==> {
                &&& d.wf()
                &&& d.seq_all() == frames_of_raw(raw_frames_for(choice, image_data@))
                &&& d.delivered() == 0
                &&& d.preview_available()
                &&& (choice == FormatChoice::Gif ==> forall|i: int|
                    0 <= i < d.seq_all().len() ==> (#[trigger] d.seq_all()[i]).duration_ms % 10
                        == 0)
                &&& (choice == FormatChoice::Webp ==> forall|i: int|
                    0 <= i < d.seq_all().len() ==> (#[trigger] d.seq_all()[i]).duration_ms
                        == webp_frames_of(image_data@)[i].numer)
            },
            raw_frames_for(choice, image_data@).len() == 0 ==> r is Err,
            !raw_decode_ok_for(choice, image_data@) ==> r is Err,
            r matches Err(e) ==> ((e is Decode || e is Encode || e is ReporterFailure) && (e
                matches ConvertError::Decode(f, _) ==> f@ == spec_format_label(choice))),
    {
        match decode_with_reports(choice, image_data, logs) {
            Ok(core) => Ok(ImgprocFrameDecoder { core }),
            Err(e) => Err(e),
        }
    }
}

} // verus!
