use vstd::prelude::*;
use vstd::string::StringSliceAdditionalSpecFns;

use crate::errors::ConvertError;
use crate::formats::{format_of, spec_format_of, FormatName};

verus! {

/// What a structural walk over a container's bytes found.
#[derive(Clone, Copy, Debug, PartialEq, Eq, Structural)]
pub enum ScanVerdict {
    /// The container declares an animation (or a second image).
    Animated,
    /// The container is a complete, single-image stream.
    Static,
    /// The walk ran off the end of the data or met a byte it does not
    /// understand.
    Malformed,
}

/// The 32-bit little-endian integer stored at `pos`.
pub open spec fn le32_at(d: Seq<u8>, pos: int) -> u32 {
    (d[pos] as int + d[pos + 1] as int * 0x100 + d[pos + 2] as int * 0x10000 + d[pos
        + 3] as int * 0x1000000) as u32
}

/// The 32-bit big-endian integer stored at `pos`.
pub open spec fn be32_at(d: Seq<u8>, pos: int) -> u32 {
    (d[pos] as int * 0x1000000 + d[pos + 1] as int * 0x10000 + d[pos + 2] as int * 0x100 + d[pos
        + 3] as int) as u32
}

fn read_le32(d: &[u8], pos: usize) -> (r: u32)
    requires
        pos + 4 <= d@.len(),
    ensures
        r == le32_at(d@, pos as int),
{
    let b0 = d[pos] as u32;
    let b1 = d[pos + 1] as u32;
    let b2 = d[pos + 2] as u32;
    let b3 = d[pos + 3] as u32;
    b0 + b1 * 0x100 + b2 * 0x10000 + b3 * 0x1000000
}

fn read_be32(d: &[u8], pos: usize) -> (r: u32)
    requires
        pos + 4 <= d@.len(),
    ensures
        r == be32_at(d@, pos as int),
{
    let b0 = d[pos] as u32;
    let b1 = d[pos + 1] as u32;
    let b2 = d[pos + 2] as u32;
    let b3 = d[pos + 3] as u32;
    b0 * 0x1000000 + b1 * 0x10000 + b2 * 0x100 + b3
}

/// True when the four bytes at `pos` spell the RIFF chunk tag `ANIM` or
/// `ANMF`, the two chunk kinds that only animated WebP containers carry.
pub open spec fn webp_anim_tag_at(d: Seq<u8>, pos: int) -> bool {
    &&& d[pos] == 0x41u8
    &&& d[pos + 1] == 0x4Eu8
    &&& ((d[pos + 2] == 0x49u8 && d[pos + 3] == 0x4Du8) || (d[pos + 2] == 0x4Du8 && d[pos + 3]
        == 0x46u8))
}

/// The RIFF chunk walk from `pos`: read a 4-byte tag and a 4-byte
/// little-endian size; an `ANIM` or `ANMF` tag means animated; otherwise skip
/// the payload plus one pad byte when the size is odd, and continue. The walk
/// answers "not animated" as soon as the data runs out; it is a best-effort
/// heuristic, never an error.
pub open spec fn webp_anim_from(d: Seq<u8>, pos: int) -> bool
    decreases d.len() - pos
        when 0 <= pos <= d.len()
{
    if pos + 8 > d.len() {
        false
    } else if webp_anim_tag_at(d, pos) {
        true
    } else {
        let size = le32_at(d, pos + 4) as int;
        let padded = size + size % 2;
        if pos + 8 + padded > d.len() {
            false
        } else {
            webp_anim_from(d, pos + 8 + padded)
        }
    }
}

/// An `ANIM` or `ANMF` chunk tag whose header lies inside the data decides
/// the walk on the spot: reaching such a tag by well-formed chunk traversal
/// means animated, whatever the rest of the stream holds.
pub proof fn lemma_webp_tag_decides(d: Seq<u8>, pos: int)
    requires
        0 <= pos,
        pos + 8 <= d.len(),
        webp_anim_tag_at(d, pos),
    ensures
        webp_anim_from(d, pos),
{
}

/// A WebP byte stream counts as animated when it opens with `RIFF` at offset
/// 0 and `WEBP` at offset 8 and its chunk list, walked from offset 12,
/// reaches an `ANIM` or `ANMF` chunk tag.
pub open spec fn spec_is_animated_webp(d: Seq<u8>) -> bool {
    &&& d.len() >= 12
    &&& d[0] == 0x52u8
    &&& d[1] == 0x49u8
    &&& d[2] == 0x46u8
    &&& d[3] == 0x46u8
    &&& d[8] == 0x57u8
    &&& d[9] == 0x45u8
    &&& d[10] == 0x42u8
    &&& d[11] == 0x50u8
    &&& webp_anim_from(d, 12)
}

/// Answers whether `data` is an animated WebP stream.
///
/// Bytes that do not open with `RIFF....WEBP` are simply "not animated",
/// never an error, and a truncated or malformed chunk list ends the walk
/// with "not animated" as well.
pub fn is_animated_webp(data: &[u8]) -> (r: Result<bool, ConvertError>)
    ensures
        r matches Ok(b) && b == spec_is_animated_webp(data@),
{
    let n = data.len();
    if n < 12 {
        return Ok(false);
    }
    if !(data[0] == 0x52 && data[1] == 0x49 && data[2] == 0x46 && data[3] == 0x46) {
        return Ok(false);
    }
    if !(data[8] == 0x57 && data[9] == 0x45 && data[10] == 0x42 && data[11] == 0x50) {
        return Ok(false);
    }
    let mut pos: usize = 12;
    loop
        invariant
            12 <= pos <= n,
            n == data@.len(),
            spec_is_animated_webp(data@) == webp_anim_from(data@, pos as int),
        decreases n - pos,
    {
        if pos > n - 8 {
            return Ok(false);
        }
        if data[pos] == 0x41 && data[pos + 1] == 0x4E && ((data[pos + 2] == 0x49 && data[pos + 3]
            == 0x4D) || (data[pos + 2] == 0x4D && data[pos + 3] == 0x46)) {
            return Ok(true);
        }
        let size = read_le32(data, pos + 4);
        let padded: u64 = size as u64 + (size % 2) as u64;
        let avail: u64 = (n - (pos + 8)) as u64;
        if padded > avail {
            return Ok(false);
        }
        let step: usize = (padded as usize) + 8;
        pos = pos + step;
    }
}

/// The number of entries in a GIF color table whose size field is `e`
/// (the table holds 2^(e+1) entries of three bytes each).
pub open spec fn gif_table_entries(e: u8) -> int {
    if e == 0 {
        2
    } else if e == 1 {
        4
    } else if e == 2 {
        8
    } else if e == 3 {
        16
    } else if e == 4 {
        32
    } else if e == 5 {
        64
    } else if e == 6 {
        128
    } else {
        256
    }
}

/// The byte length of the color table announced by a GIF packed-fields byte:
/// zero when the table-present flag (the top bit) is clear, otherwise three
/// bytes per entry.
pub open spec fn gif_color_table_bytes(packed: u8) -> int {
    if packed >= 128 {
        3 * gif_table_entries(packed % 8)
    } else {
        0
    }
}

fn gif_color_table_len(packed: u8) -> (r: u32)
    ensures
        r == gif_color_table_bytes(packed),
{
    if packed >= 128 {
        let e = packed % 8;
        let entries: u32 = if e == 0 {
            2
        } else if e == 1 {
            4
        } else if e == 2 {
            8
        } else if e == 3 {
            16
        } else if e == 4 {
            32
        } else if e == 5 {
            64
        } else if e == 6 {
            128
        } else {
            256
        };
        3 * entries
    } else {
        0
    }
}

/// Skips a chain of GIF data sub-blocks starting at `pos`: each sub-block is
/// a length byte followed by that many data bytes, and a zero length byte
/// ends the chain. Yields the position just past the terminator, or `None`
/// when the data ends first.
pub open spec fn gif_skip_subblocks(d: Seq<u8>, pos: int) -> Option<int>
    decreases d.len() - pos
        when 0 <= pos <= d.len()
{
    if pos >= d.len() {
        None
    } else if d[pos] == 0 {
        Some(pos + 1)
    } else if pos + 1 + d[pos] > d.len() {
        None
    } else {
        gif_skip_subblocks(d, pos + 1 + d[pos])
    }
}

/// A successful sub-block skip always moves forward and stays inside the
/// data.
pub proof fn lemma_skip_subblocks_bounds(d: Seq<u8>, pos: int)
    requires
        0 <= pos <= d.len(),
    ensures
        gif_skip_subblocks(d, pos) matches Option::Some(p) ==> pos < p <= d.len(),
    decreases d.len() - pos,
{
    if pos >= d.len() {
    } else if d[pos] == 0 {
    } else if pos + 1 + d[pos] > d.len() {
    } else {
        lemma_skip_subblocks_bounds(d, pos + 1 + d[pos]);
    }
}

/// The GIF block walk from `pos`, with `count` image blocks already seen
/// (0 or 1). An image separator (0x2C) with one image already seen means
/// animated, immediately, without looking at anything after that byte.
/// A trailer (0x3B) ends a single-image stream; extension blocks (0x21) are
/// skipped; anything else, or running off the end, is malformed.
pub open spec fn gif_scan_blocks(d: Seq<u8>, pos: int, count: nat) -> ScanVerdict
    decreases d.len() - pos
        when 0 <= pos <= d.len()
        via gif_scan_blocks_decreases
{
    if pos >= d.len() {
        ScanVerdict::Malformed
    } else if d[pos] == 0x3Bu8 {
        ScanVerdict::Static
    } else if d[pos] == 0x21u8 {
        if pos + 2 > d.len() {
            ScanVerdict::Malformed
        } else {
            match gif_skip_subblocks(d, pos + 2) {
                Option::None => ScanVerdict::Malformed,
                Option::Some(p) => gif_scan_blocks(d, p, count),
            }
        }
    } else if d[pos] == 0x2Cu8 {
        if count >= 1 {
            ScanVerdict::Animated
        } else if pos + 10 > d.len() {
            ScanVerdict::Malformed
        } else {
            let after = pos + 10 + gif_color_table_bytes(d[pos + 9]) + 1;
            if after > d.len() {
                ScanVerdict::Malformed
            } else {
                match gif_skip_subblocks(d, after) {
                    Option::None => ScanVerdict::Malformed,
                    Option::Some(p) => gif_scan_blocks(d, p, (count + 1) as nat),
                }
            }
        }
    } else {
        ScanVerdict::Malformed
    }
}

#[via_fn]
proof fn gif_scan_blocks_decreases(d: Seq<u8>, pos: int, count: nat) {
    if 0 <= pos <= d.len() && pos < d.len() {
        if d[pos] == 0x21u8 && pos + 2 <= d.len() {
            lemma_skip_subblocks_bounds(d, pos + 2);
        }
        if d[pos] == 0x2Cu8 && count < 1 && pos + 10 <= d.len() {
            let after = pos + 10 + gif_color_table_bytes(d[pos + 9]) + 1;
            if after <= d.len() {
                lemma_skip_subblocks_bounds(d, after);
            }
        }
    }
}

/// A second image separator decides the scan on the spot: with one image
/// block already seen, the verdict at a separator byte is animated without
/// looking at anything after that byte, well-formed or not.
pub proof fn lemma_gif_second_separator_decides(d: Seq<u8>, pos: int)
    requires
        0 <= pos < d.len(),
        d[pos] == 0x2Cu8,
    ensures
        gif_scan_blocks(d, pos, 1) == ScanVerdict::Animated,
{
}

/// The structural scan of a whole GIF stream: a `GIF87a` or `GIF89a`
/// signature, the logical screen descriptor and its optional global color
/// table, then the block walk counting image blocks.
pub open spec fn spec_gif_scan(d: Seq<u8>) -> ScanVerdict {
    if d.len() < 13 {
        ScanVerdict::Malformed
    } else if !(d[0] == 0x47u8 && d[1] == 0x49u8 && d[2] == 0x46u8 && d[3] == 0x38u8 && (d[4]
        == 0x37u8 || d[4] == 0x39u8) && d[5] == 0x61u8) {
        ScanVerdict::Malformed
    } else {
        let gct = gif_color_table_bytes(d[10]);
        if 13 + gct > d.len() {
            ScanVerdict::Malformed
        } else {
            gif_scan_blocks(d, 13 + gct, 0)
        }
    }
}

/// Skips the sub-block chain that starts at `pos`, returning the position
/// just past its zero terminator, or `None` when the data ends first.
fn skip_subblocks(data: &[u8], pos: usize) -> (r: Option<usize>)
    requires
        pos <= data@.len(),
    ensures
        match r {
            Option::Some(p) => gif_skip_subblocks(data@, pos as int) == Option::Some(p as int)
                && pos < p <= data@.len(),
            Option::None => gif_skip_subblocks(data@, pos as int) is None,
        },
{
    let n = data.len();
    let mut p = pos;
    loop
        invariant
            pos <= p <= n,
            n == data@.len(),
            gif_skip_subblocks(data@, pos as int) == gif_skip_subblocks(data@, p as int),
            pos == p || pos < p,
        decreases n - p,
    {
        if p >= n {
            return Option::None;
        }
        let s = data[p];
        if s == 0 {
            return Option::Some(p + 1);
        }
        if s as usize > n - 1 - p {
            return Option::None;
        }
        p = p + 1 + s as usize;
    }
}

/// Answers whether `data` is an animated GIF: true as soon as a second image
/// separator is seen, false for a complete single-image stream, and a decode
/// error for a stream whose structure the walk cannot follow.
pub fn is_animated_gif(data: &[u8]) -> (r: Result<bool, ConvertError>)
    ensures
        spec_gif_scan(data@) is Animated ==> (r matches Ok(b) && b),
        spec_gif_scan(data@) is Static ==> (r matches Ok(b) && !b),
        spec_gif_scan(data@) is Malformed ==> (r matches Err(e) && e is Decode),
{
    let n = data.len();
    if n < 13 {
        return Err(gif_decode_error());
    }
    if !(data[0] == 0x47 && data[1] == 0x49 && data[2] == 0x46 && data[3] == 0x38 && (data[4]
        == 0x37 || data[4] == 0x39) && data[5] == 0x61) {
        return Err(gif_decode_error());
    }
    let gct = gif_color_table_len(data[10]);
    if gct as usize > n - 13 {
        return Err(gif_decode_error());
    }
    let mut pos: usize = 13 + gct as usize;
    let mut seen_image = false;
    loop
        invariant
            pos <= n,
            n == data@.len(),
            n >= 13,
            spec_gif_scan(data@) == gif_scan_blocks(
                data@,
                pos as int,
                if seen_image {
                    1nat
                } else {
                    0nat
                },
            ),
        decreases n - pos,
    {
        if pos >= n {
            return Err(gif_decode_error());
        }
        let b = data[pos];
        if b == 0x3B {
            return Ok(false);
        } else if b == 0x21 {
            if pos + 1 >= n {
                return Err(gif_decode_error());
            }
            match skip_subblocks(data, pos + 2) {
                Option::Some(p) => {
                    pos = p;
                },
                Option::None => {
                    return Err(gif_decode_error());
                },
            }
        } else if b == 0x2C {
            if seen_image {
                return Ok(true);
            }
            if pos >= n - 9 {
                return Err(gif_decode_error());
            }
            let lct = gif_color_table_len(data[pos + 9]);
            if lct as usize + 1 > n - (pos + 10) {
                return Err(gif_decode_error());
            }
            let after = pos + 10 + lct as usize + 1;
            match skip_subblocks(data, after) {
                Option::Some(p) => {
                    pos = p;
                    seen_image = true;
                },
                Option::None => {
                    return Err(gif_decode_error());
                },
            }
        } else {
            return Err(gif_decode_error());
        }
    }
}

/// The PNG chunk walk from `pos`: each chunk is a 4-byte big-endian data
/// length, a 4-byte type, the data, and a 4-byte checksum. An `acTL`
/// (animation control) chunk means animated; the first `IDAT` or `IEND`
/// chunk ends the walk of the header chunks, so a stream without `acTL`
/// before its image data is static; running off the end is malformed.
pub open spec fn png_scan_chunks(d: Seq<u8>, pos: int) -> ScanVerdict
    decreases d.len() - pos
        when 0 <= pos <= d.len()
{
    if pos + 8 > d.len() {
        ScanVerdict::Malformed
    } else if d[pos + 4] == 0x61u8 && d[pos + 5] == 0x63u8 && d[pos + 6] == 0x54u8 && d[pos + 7]
        == 0x4Cu8 {
        ScanVerdict::Animated
    } else if d[pos + 4] == 0x49u8 && ((d[pos + 5] == 0x44u8 && d[pos + 6] == 0x41u8 && d[pos + 7]
        == 0x54u8) || (d[pos + 5] == 0x45u8 && d[pos + 6] == 0x4Eu8 && d[pos + 7] == 0x44u8)) {
        ScanVerdict::Static
    } else {
        let size = be32_at(d, pos) as int;
        if pos + 12 + size > d.len() {
            ScanVerdict::Malformed
        } else {
            png_scan_chunks(d, pos + 12 + size)
        }
    }
}

/// The structural scan of a whole PNG stream: the 8-byte PNG signature, an
/// `IHDR` chunk of length 13 first, then the chunk walk looking for `acTL`.
pub open spec fn spec_png_scan(d: Seq<u8>) -> ScanVerdict {
    if d.len() < 16 {
        ScanVerdict::Malformed
    } else if !(d[0] == 137u8 && d[1] == 80u8 && d[2] == 78u8 && d[3] == 71u8 && d[4] == 13u8
        && d[5] == 10u8 && d[6] == 26u8 && d[7] == 10u8) {
        ScanVerdict::Malformed
    } else if !(be32_at(d, 8) == 13 && d[12] == 0x49u8 && d[13] == 0x48u8 && d[14] == 0x44u8
        && d[15] == 0x52u8) {
        ScanVerdict::Malformed
    } else {
        png_scan_chunks(d, 8)
    }
}

/// Answers whether `data` is an animated PNG: true exactly when an
/// animation-control chunk precedes the image data, false for a static PNG,
/// and a decode error for a stream that is not structurally a PNG.
pub fn is_animated_apng(data: &[u8]) -> (r: Result<bool, ConvertError>)
    ensures
        spec_png_scan(data@) is Animated ==> (r matches Ok(b) && b),
        spec_png_scan(data@) is Static ==> (r matches Ok(b) && !b),
        spec_png_scan(data@) is Malformed ==> (r matches Err(e) && e is Decode),
{
    let n = data.len();
    if n < 16 {
        return Err(png_decode_error());
    }
    if !(data[0] == 137 && data[1] == 80 && data[2] == 78 && data[3] == 71 && data[4] == 13
        && data[5] == 10 && data[6] == 26 && data[7] == 10) {
        return Err(png_decode_error());
    }
    if !(read_be32(data, 8) == 13 && data[12] == 0x49 && data[13] == 0x48 && data[14] == 0x44
        && data[15] == 0x52) {
        return Err(png_decode_error());
    }
    let mut pos: usize = 8;
    loop
        invariant
            8 <= pos <= n,
            n == data@.len(),
            n >= 16,
            spec_png_scan(data@) == png_scan_chunks(data@, pos as int),
        decreases n - pos,
    {
        if pos > n - 8 {
            return Err(png_decode_error());
        }
        if data[pos + 4] == 0x61 && data[pos + 5] == 0x63 && data[pos + 6] == 0x54 && data[pos + 7]
            == 0x4C {
            return Ok(true);
        }
        if data[pos + 4] == 0x49 && ((data[pos + 5] == 0x44 && data[pos + 6] == 0x41 && data[pos
            + 7] == 0x54) || (data[pos + 5] == 0x45 && data[pos + 6] == 0x4E && data[pos + 7]
            == 0x44)) {
            return Ok(false);
        }
        let size = read_be32(data, pos);
        let avail: usize = n - pos;
        if avail < 12 || size as u64 > (avail - 12) as u64 {
            return Err(png_decode_error());
        }
        pos = pos + 12 + size as usize;
    }
}

/// The decode error every malformed PNG stream surfaces here.
fn png_decode_error() -> (e: ConvertError)
    ensures
        e is Decode,
{
    ConvertError::Decode("PNG".to_owned(), "the stream is not a well-formed PNG container".to_owned())
}

/// Answers whether raw bytes hold an animated image, given the format the
/// caller claims they are in; the format name is matched case-insensitively.
/// `gif` and `png`/`apng` streams that cannot be walked structurally are
/// decode errors; any other claimed format is unsupported.
pub fn detect_animation(data: &[u8], source_type: &str) -> (r: Result<bool, ConvertError>)
    ensures
        spec_format_of(source_type.spec_bytes()) == FormatName::Gif ==> {
            &&& spec_gif_scan(data@) is Animated ==> (r matches Ok(b) && b)
            &&& spec_gif_scan(data@) is Static ==> (r matches Ok(b) && !b)
            &&& spec_gif_scan(data@) is Malformed ==> (r matches Err(e) && e is Decode)
        },
        spec_format_of(source_type.spec_bytes()) == FormatName::Webp ==> (r matches Ok(b) && b
            == spec_is_animated_webp(data@)),
        (spec_format_of(source_type.spec_bytes()) == FormatName::Png || spec_format_of(
            source_type.spec_bytes(),
        ) == FormatName::Apng) ==> {
            &&& spec_png_scan(data@) is Animated ==> (r matches Ok(b) && b)
            &&& spec_png_scan(data@) is Static ==> (r matches Ok(b) && !b)
            &&& spec_png_scan(data@) is Malformed ==> (r matches Err(e) && e is Decode)
        },
        (spec_format_of(source_type.spec_bytes()) == FormatName::Psd || spec_format_of(
            source_type.spec_bytes(),
        ) == FormatName::Other) ==> (r matches Err(e) && e matches ConvertError::UnsupportedFormat(f)
            && f@ == source_type@),
{
    match format_of(source_type) {
        FormatName::Gif => is_animated_gif(data),
        FormatName::Webp => is_animated_webp(data),
        FormatName::Png => is_animated_apng(data),
        FormatName::Apng => is_animated_apng(data),
        FormatName::Psd => Err(ConvertError::UnsupportedFormat(source_type.to_owned())),
        FormatName::Other => Err(ConvertError::UnsupportedFormat(source_type.to_owned())),
    }
}

/// The decode error every malformed GIF stream surfaces here.
fn gif_decode_error() -> (e: ConvertError)
    ensures
        e is Decode,
{
    ConvertError::Decode("GIF".to_owned(), "the stream is not a well-formed GIF container".to_owned())
}

} // verus!
