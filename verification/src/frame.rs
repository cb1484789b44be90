use vstd::prelude::*;

verus! {

/// One logical animation frame: an owned width x height buffer of 8-bit RGBA
/// samples, row-major and without padding, plus its display duration in whole
/// milliseconds. A duration of 0 is legal and means "display instantaneously".
pub struct Frame {
    pub width: u32,
    pub height: u32,
    pub duration_ms: u32,
    pub pixels: Vec<u8>,
}

/// The mathematical value of a [`Frame`].
pub ghost struct FrameV {
    pub width: u32,
    pub height: u32,
    pub duration_ms: u32,
    pub pixels: Seq<u8>,
}

impl View for Frame {
    type V = FrameV;

    open spec fn view(&self) -> FrameV {
        FrameV {
            width: self.width,
            height: self.height,
            duration_ms: self.duration_ms,
            pixels: self.pixels@,
        }
    }
}

/// A frame is well formed when its buffer holds exactly four samples per pixel.
pub open spec fn frame_wf(f: FrameV) -> bool {
    f.pixels.len() == f.width * f.height * 4
}

/// An owned copy of a byte buffer, equal to the original.
pub fn clone_bytes(v: &Vec<u8>) -> (r: Vec<u8>)
    ensures
        r@ == v@,
{
    let r = v.clone();
    proof {
        assert forall|i: int| 0 <= i < r@.len() implies r@[i] == v@[i] by {
            assert(vstd::pervasive::cloned::<u8>(v@[i], r@[i]));
        }
        assert(r@ =~= v@);
    }
    r
}

/// Whether a pixel buffer length equals `width * height * 4`, decided
/// without overflowing machine arithmetic.
pub fn buffer_len_matches(width: u32, height: u32, len: usize) -> (r: bool)
    ensures
        r == (len == width * height * 4),
{
    proof {
        vstd::arithmetic::mul::lemma_mul_upper_bound(
            width as int,
            u32::MAX as int,
            height as int,
            u32::MAX as int,
        );
    }
    (len as u128) == (width as u128) * (height as u128) * 4
}

/// One frame as a codec delivers it, before the display duration has been
/// normalized to whole milliseconds: the duration is still the codec's
/// rational number of milliseconds, `numer / denom`.
pub struct RawFrame {
    pub width: u32,
    pub height: u32,
    pub numer: u32,
    pub denom: u32,
    pub pixels: Vec<u8>,
}

/// The mathematical value of a [`RawFrame`].
pub ghost struct RawFrameV {
    pub width: u32,
    pub height: u32,
    pub numer: u32,
    pub denom: u32,
    pub pixels: Seq<u8>,
}

impl View for RawFrame {
    type V = RawFrameV;

    open spec fn view(&self) -> RawFrameV {
        RawFrameV {
            width: self.width,
            height: self.height,
            numer: self.numer,
            denom: self.denom,
            pixels: self.pixels@,
        }
    }
}

/// A codec-delivered frame is well formed when its buffer holds exactly
/// four samples per pixel and its delay denominator is positive.
pub open spec fn raw_wf(f: RawFrameV) -> bool {
    f.pixels.len() == f.width * f.height * 4 && f.denom >= 1
}

/// Whole milliseconds denoted by a codec's rational `numer / denom`
/// milliseconds, rounded down. A zero denominator denotes `numer` itself;
/// the decoders in use always deliver a positive denominator.
pub open spec fn ms_of_raw(numer: u32, denom: u32) -> u32 {
    if denom == 0 {
        numer
    } else {
        (numer as int / denom as int) as u32
    }
}

/// Exec counterpart of [`ms_of_raw`].
pub fn duration_from_raw(numer: u32, denom: u32) -> (ms: u32)
    ensures
        ms == ms_of_raw(numer, denom),
{
    if denom == 0 {
        numer
    } else {
        numer / denom
    }
}

/// The millisecond duration a GIF container carries after encoding a frame of
/// `ms` milliseconds: GIF stores whole centiseconds, so the duration is
/// quantized to the nearest multiple of ten (half rounds up), capped at the
/// largest representable value. The container's own delay field is a
/// 16-bit centisecond count, so the codec additionally saturates any
/// duration above 655350 milliseconds when it writes the frame; that
/// saturation happens inside the codec and is absorbed by the container's
/// named encoding, not modeled here.
pub open spec fn gif_quantized_ms(ms: u32) -> u32 {
    if (ms + 5) / 10 * 10 > u32::MAX {
        u32::MAX
    } else {
        ((ms + 5) / 10 * 10) as u32
    }
}

/// Exec counterpart of [`gif_quantized_ms`].
pub fn gif_quantize_duration(ms: u32) -> (q: u32)
    ensures
        q == gif_quantized_ms(ms),
{
    let cs: u64 = (ms as u64 + 5) / 10;
    let n: u64 = cs * 10;
    if n > u32::MAX as u64 {
        u32::MAX
    } else {
        n as u32
    }
}

/// The value written into the APNG frame-control delay numerator for a frame
/// of `ms` milliseconds; the container field is 16 bits wide, so the duration
/// is reduced modulo 2^16. The matching denominator is always 1000.
pub open spec fn apng_delay_num(ms: u32) -> u16 {
    (ms % 0x10000) as u16
}

/// Exec counterpart of [`apng_delay_num`].
pub fn apng_delay_of_duration(ms: u32) -> (num: u16)
    ensures
        num == apng_delay_num(ms),
{
    (ms % 0x10000) as u16
}

/// GIF duration round trip. Encoding a frame of `ms` milliseconds stores the
/// nearest whole centisecond, and decoding reports that centisecond count
/// back as milliseconds; so the round trip yields `round(ms / 10) * 10`,
/// which equals `ms` exactly when `ms` is a multiple of ten and otherwise
/// differs from it by at most five.
pub proof fn lemma_gif_duration_roundtrip(ms: u32)
    requires
        ms + 5 <= u32::MAX,
    ensures
        gif_quantized_ms(ms) == (ms + 5) / 10 * 10,
        ms_of_raw(gif_quantized_ms(ms), 1) == gif_quantized_ms(ms),
        gif_quantized_ms(ms) % 10 == 0,
        ms % 10 == 0 <==> gif_quantized_ms(ms) == ms,
        gif_quantized_ms(ms) <= ms + 5 < gif_quantized_ms(ms) + 10,
{
}

/// APNG duration round trip. A duration that fits the container's 16-bit
/// delay field is written as the rational (ms, 1000) and reported back
/// exactly, for every non-negative integer millisecond value.
pub proof fn lemma_apng_duration_roundtrip(ms: u32)
    requires
        ms <= 0xFFFF,
    ensures
        apng_delay_num(ms) == ms,
        ms_of_raw((apng_delay_num(ms) * 1000) as u32, 1000) == ms,
{
}

} // verus!
