//! A structural pre-check over PSD bytes, and the preparation of a
//! document the parser handles without aborting.
//!
//! The layered-image parser indexes its input with lengths taken from the
//! data itself and aborts, rather than erring, when they overrun; it also
//! writes a raw image-data channel into the composited raster without
//! checking it against the canvas, and aborts on the two compression modes
//! it does not implement. [`spec_psd_safe`] admits exactly the inputs the
//! parser handles without aborting: inputs it rejects outright before
//! touching those paths (short, wrong signature, out-of-range header
//! fields), and otherwise inputs whose major-section lengths lie within the
//! data, whose image-resource and layer sections are empty, and whose
//! image-data section stays inside the data and the canvas. The PSD
//! wrapper's precondition demands this predicate, so the library's
//! verified paths never reach an aborting parse.
//!
//! Real documents carry non-empty image-resource and layer sections, and
//! the parser walks both with the same unchecked indexing, even though the
//! composited raster it flattens comes from the image-data section alone.
//! So [`psd_prepare`] locates the major sections and hands on a copy of
//! the document with those two sections emptied and everything else — the
//! header, the color-mode section and the whole image-data section —
//! kept byte for byte; the pre-check and the parse then run on that
//! prepared document.

use vstd::prelude::*;

use crate::detect_animation::be32_at;

verus! {

/// The 16-bit big-endian integer stored at `pos`.
pub open spec fn be16_at(d: Seq<u8>, pos: int) -> u32 {
    (d[pos] as int * 0x100 + d[pos + 1] as int) as u32
}

fn read_be16(d: &[u8], pos: usize) -> (r: u32)
    requires
        pos + 2 <= d@.len(),
    ensures
        r == be16_at(d@, pos as int),
{
    let b0 = d[pos] as u32;
    let b1 = d[pos + 1] as u32;
    b0 * 0x100 + b1
}

fn read_be32_at(d: &[u8], pos: usize) -> (r: u32)
    requires
        pos + 4 <= d@.len(),
    ensures
        r == be32_at(d@, pos as int),
{
    let b0 = d[pos] as u32;
    let b1 = d[pos + 1] as u32;
    let b2 = d[pos + 2] as u32;
    let b3 = d[pos + 3] as u32;
    b0 * 0x1000000 + b1 * 0x10000 + b2 * 0x100 + b3
}

/// The sum of `count` 16-bit big-endian integers laid out from `pos`: the
/// total compressed length a PSD run-length image-data section declares in
/// its per-scan-line byte counts.
pub open spec fn psd_sum16(d: Seq<u8>, pos: int, count: int) -> int
    decreases count,
{
    if count <= 0 {
        0
    } else {
        be16_at(d, pos) + psd_sum16(d, pos + 2, count - 1)
    }
}

/// A value built from a high and a low byte reduces to its low byte
/// modulo 256.
proof fn lemma_low_byte(a: int, b: int)
    requires
        0 <= a < 256,
        0 <= b < 256,
    ensures
        (a * 0x100 + b) % 256 == b,
{
    assert((a * 0x100 + b) % 256 == b) by (nonlinear_arith)
        requires
            a >= 0,
            a < 256,
            b >= 0,
            b < 256,
    ;
}

/// The declared run-length totals are never negative.
proof fn lemma_psd_sum16_nonneg(d: Seq<u8>, pos: int, count: int)
    ensures
        psd_sum16(d, pos, count) >= 0,
    decreases count,
{
    if count > 0 {
        lemma_psd_sum16_nonneg(d, pos + 2, count - 1);
    }
}

/// Whether the image-data section starting at `q` stays inside the data
/// and the canvas, for a canvas of `w` x `h` pixels and `cc` channels.
/// Raw data (compression 0) may not hold more bytes per channel than the
/// canvas has pixels; run-length data (compression 1) must fit its declared
/// per-scan-line byte counts inside the section; the two unimplemented
/// compression modes (2 and 3) are excluded; anything else the parser
/// rejects on its own.
pub open spec fn psd_image_data_ok(d: Seq<u8>, q: int, cc: int, h: int, w: int) -> bool {
    &&& q + 2 <= d.len()
    &&& {
        let comp = be16_at(d, q) as int;
        if comp == 0 {
            (d.len() - q - 2) / cc <= w * h
        } else if comp == 1 {
            let cnt = h * cc;
            q + 2 + 2 * cnt + psd_sum16(d, q + 2, cnt) <= d.len()
        } else {
            comp >= 4
        }
    }
}

/// Whether the layered-image parser handles `d` without aborting: either
/// it rejects the input before walking any section (too short, wrong
/// signature, or a header field out of its documented range), or the three
/// major-section lengths lie within the data, the image-resource and layer
/// sections are empty, and the image-data section is well bounded.
pub open spec fn spec_psd_safe(d: Seq<u8>) -> bool {
    if d.len() < 26 {
        true
    } else if !(d[0] == 0x38u8 && d[1] == 0x42u8 && d[2] == 0x50u8 && d[3] == 0x53u8) {
        true
    } else if 30 > d.len() {
        false
    } else {
        let l1 = be32_at(d, 26) as int;
        if 30 + l1 > d.len() {
            false
        } else {
            let p2 = 30 + l1;
            if p2 + 4 > d.len() {
                false
            } else {
                let l2 = be32_at(d, p2) as int;
                if p2 + 4 + l2 > d.len() {
                    false
                } else {
                    let p3 = p2 + 4 + l2;
                    if p3 + 4 > d.len() {
                        false
                    } else {
                        let l3 = be32_at(d, p3) as int;
                        if p3 + 4 + l3 > d.len() {
                            false
                        } else {
                            let q = p3 + 4 + l3;
                            let cc = be16_at(d, 12) as int % 256;
                            let h = be32_at(d, 14) as int;
                            let w = be32_at(d, 18) as int;
                            if !(1 <= cc <= 56 && 1 <= h <= 30000 && 1 <= w <= 30000) {
                                true
                            } else {
                                l2 == 0 && l3 == 0 && psd_image_data_ok(d, q, cc, h, w)
                            }
                        }
                    }
                }
            }
        }
    }
}

/// Decides [`spec_psd_safe`] over the raw bytes.
#[verifier::loop_isolation(false)]
pub fn psd_structure_check(data: &[u8]) -> (r: bool)
    ensures
        r == spec_psd_safe(data@),
{
    let n = data.len();
    if n < 26 {
        return true;
    }
    if !(data[0] == 0x38 && data[1] == 0x42 && data[2] == 0x50 && data[3] == 0x53) {
        return true;
    }
    if n < 30 {
        return false;
    }
    let l1 = read_be32_at(data, 26);
    if l1 as u64 > (n - 30) as u64 {
        return false;
    }
    let p2: usize = 30 + l1 as usize;
    if n - p2 < 4 {
        return false;
    }
    let l2 = read_be32_at(data, p2);
    if l2 as u64 > (n - p2 - 4) as u64 {
        return false;
    }
    let p3: usize = p2 + 4 + l2 as usize;
    if n - p3 < 4 {
        return false;
    }
    let l3 = read_be32_at(data, p3);
    if l3 as u64 > (n - p3 - 4) as u64 {
        return false;
    }
    let q: usize = p3 + 4 + l3 as usize;
    let cc: u32 = data[13] as u32;
    let h = read_be32_at(data, 14);
    let w = read_be32_at(data, 18);
    proof {
        assert(be16_at(data@, 12) as int == data@[12] as int * 0x100 + data@[13] as int);
        lemma_low_byte(data@[12] as int, data@[13] as int);
        assert(cc == be16_at(data@, 12) as int % 256);
    }
    if !(1 <= cc && cc <= 56 && 1 <= h && h <= 30000 && 1 <= w && w <= 30000) {
        return true;
    }
    if l2 != 0 || l3 != 0 {
        return false;
    }
    if n - q < 2 {
        return false;
    }
    let comp = read_be16(data, q);
    proof {
        assert(spec_psd_safe(data@) == psd_image_data_ok(
            data@,
            q as int,
            cc as int,
            h as int,
            w as int,
        ));
    }
    if comp == 0 {
        proof {
            vstd::arithmetic::mul::lemma_mul_upper_bound(w as int, 30000, h as int, 30000);
        }
        let bpc: u64 = ((n - q - 2) as u64) / (cc as u64);
        bpc <= (w as u64) * (h as u64)
    } else if comp == 1 {
        proof {
            vstd::arithmetic::mul::lemma_mul_upper_bound(h as int, 30000, cc as int, 56);
        }
        let cnt: u64 = (h as u64) * (cc as u64);
        if ((n - q - 2) as u64) < 2 * cnt {
            proof {
                lemma_psd_sum16_nonneg(data@, q + 2, cnt as int);
                assert(!psd_image_data_ok(data@, q as int, cc as int, h as int, w as int));
            }
            return false;
        }
        let rem: u64 = (n - q - 2) as u64 - 2 * cnt;
        let mut sum: u64 = 0;
        let mut i: u64 = 0;
        while i < cnt
            invariant
                cnt == h * cc,
                cnt <= 0x19A280,
                n == data@.len(),
                q + 2 + 2 * cnt <= n,
                i <= cnt,
                sum <= 0xFFFF * i,
                psd_sum16(data@, q + 2, cnt as int) == sum + psd_sum16(
                    data@,
                    q + 2 + 2 * i,
                    (cnt - i) as int,
                ),
            decreases cnt - i,
        {
            let pos: usize = q + 2 + 2 * (i as usize);
            let v = read_be16(data, pos);
            proof {
                assert(psd_sum16(data@, q + 2 + 2 * i, (cnt - i) as int) == be16_at(
                    data@,
                    q + 2 + 2 * i,
                ) + psd_sum16(data@, q + 2 + 2 * (i + 1), (cnt - (i + 1)) as int));
            }
            sum = sum + v as u64;
            i = i + 1;
        }
        proof {
            assert(psd_sum16(data@, q + 2 + 2 * cnt, 0) == 0);
            assert(sum == psd_sum16(data@, q + 2, cnt as int));
        }
        sum <= rem
    } else {
        comp >= 4
    }
}

/// Whether the bytes open with the layered-image signature the parser
/// demands before it walks any section; without it the parse stops with
/// an error at once.
pub open spec fn psd_has_signature(d: Seq<u8>) -> bool {
    d.len() >= 26 && d[0] == 0x38u8 && d[1] == 0x42u8 && d[2] == 0x50u8 && d[3] == 0x53u8
}

/// The position of the image-resources section's length field.
pub open spec fn psd_p2(d: Seq<u8>) -> int {
    30 + be32_at(d, 26)
}

/// The position of the layer-and-mask section's length field.
pub open spec fn psd_p3(d: Seq<u8>) -> int {
    psd_p2(d) + 4 + be32_at(d, psd_p2(d))
}

/// The position of the image-data section.
pub open spec fn psd_q(d: Seq<u8>) -> int {
    psd_p3(d) + 4 + be32_at(d, psd_p3(d))
}

/// Whether the three major-section length fields lie within the data, so
/// that the sections can be located.
pub open spec fn psd_walk_ok(d: Seq<u8>) -> bool {
    &&& d.len() >= 30
    &&& psd_p2(d) + 4 <= d.len()
    &&& psd_p3(d) + 4 <= d.len()
    &&& psd_q(d) <= d.len()
}

/// The document with its image-resource and layer-and-mask sections
/// emptied: the header and color-mode section, two zero length fields,
/// then the image-data section, all byte for byte.
pub open spec fn psd_flattened(d: Seq<u8>) -> Seq<u8> {
    d.take(psd_p2(d)) + seq![0u8, 0u8, 0u8, 0u8, 0u8, 0u8, 0u8, 0u8] + d.skip(psd_q(d))
}

/// The document handed to the parser: the original when it lacks the
/// signature (the parser rejects it safely on its own), otherwise the
/// flattened document.
pub open spec fn psd_doc_of(d: Seq<u8>) -> Seq<u8> {
    if psd_has_signature(d) {
        psd_flattened(d)
    } else {
        d
    }
}

/// Whether a document to parse can be prepared at all: anything without
/// the signature can (it is rejected safely as it stands), and a signed
/// document can exactly when its major sections can be located.
pub open spec fn psd_doc_ok(d: Seq<u8>) -> bool {
    !psd_has_signature(d) || psd_walk_ok(d)
}

/// Prepares the document to parse: a copy of the input when it lacks the
/// signature, otherwise a copy with the image-resource and layer sections
/// emptied; `None` when a major-section length overruns the data.
pub fn psd_prepare(data: &[u8]) -> (r: Option<Vec<u8>>)
    ensures
        (r is Some) <==> psd_doc_ok(data@),
        r matches Some(v) ==> v@ == psd_doc_of(data@),
{
    let n = data.len();
    if !(n >= 26 && data[0] == 0x38 && data[1] == 0x42 && data[2] == 0x50 && data[3] == 0x53) {
        return Some(vstd::slice::slice_to_vec(data));
    }
    if n < 34 {
        return None;
    }
    let l1 = read_be32_at(data, 26);
    if l1 as u64 > (n - 34) as u64 {
        return None;
    }
    let p2: usize = 30 + l1 as usize;
    if n - p2 < 8 {
        return None;
    }
    let l2 = read_be32_at(data, p2);
    if l2 as u64 > (n - p2 - 8) as u64 {
        return None;
    }
    let p3: usize = p2 + 4 + l2 as usize;
    if n - p3 < 4 {
        return None;
    }
    let l3 = read_be32_at(data, p3);
    if l3 as u64 > (n - p3 - 4) as u64 {
        return None;
    }
    let q: usize = p3 + 4 + l3 as usize;
    let mut v: Vec<u8> = Vec::new();
    v.extend_from_slice(vstd::slice::slice_subrange(data, 0, p2));
    v.extend_from_slice(&[0u8, 0u8, 0u8, 0u8, 0u8, 0u8, 0u8, 0u8]);
    v.extend_from_slice(vstd::slice::slice_subrange(data, q, n));
    proof {
        assert(v@ =~= psd_flattened(data@));
    }
    Some(v)
}

} // verus!
