//! Video geometry and coded-frame checks.
use vstd::prelude::*;

verus! {

/// Whether `bytes` begins with `prefix`.
pub open spec fn spec_starts_with(bytes: Seq<u8>, prefix: Seq<u8>) -> bool {
    prefix.len() <= bytes.len() && bytes.subrange(0, prefix.len() as int) == prefix
}

/// Whether an access unit begins with a three- or four-byte Annex B start code.
pub open spec fn spec_is_annex_b(bytes: Seq<u8>) -> bool {
    spec_starts_with(bytes, seq![0u8, 0u8, 1u8]) || spec_starts_with(bytes, seq![0u8, 0u8, 0u8, 1u8])
}

/// Test whether an H.264 access unit uses Annex B framing.
pub fn is_annex_b(access_unit: &[u8]) -> (res: bool)
    ensures
        res == spec_is_annex_b(access_unit@),
{
    let n = access_unit.len();
    let three = n >= 3 && access_unit[0] == 0 && access_unit[1] == 0 && access_unit[2] == 1;
    let four = n >= 4 && access_unit[0] == 0 && access_unit[1] == 0 && access_unit[2] == 0
        && access_unit[3] == 1;
    proof {
        if n >= 3 {
            assert(three == (access_unit@.subrange(0, 3) =~= seq![0u8, 0u8, 1u8]));
        }
        if n >= 4 {
            assert(four == (access_unit@.subrange(0, 4) =~= seq![0u8, 0u8, 0u8, 1u8]));
        }
    }
    three || four
}

/// The size at which a source image is drawn in a destination: as large as
/// fits with the source's aspect ratio, at least one pixel along the
/// shorter fit, and nothing when either is empty.
pub open spec fn spec_fit_size(source_width: u32, source_height: u32, destination_width: u32, destination_height: u32) -> (u32, u32) {
    if source_width == 0 || source_height == 0 || destination_width == 0 || destination_height == 0 {
        (0, 0)
    } else if destination_width * source_height <= destination_height * source_width {
        let height = destination_width * source_height / (source_width as int);
        (destination_width, if height < 1 { 1 } else { height as u32 })
    } else {
        let width = destination_height * source_width / (source_height as int);
        (if width < 1 { 1 } else { width as u32 }, destination_height)
    }
}

proof fn lemma_scaled_fits(a: int, b: int, c: int, d: int)
    requires
        0 <= a,
        0 <= b,
        0 < c,
        0 <= d,
        a * b <= d * c,
    ensures
        a * b / c <= d,
        0 <= a * b / c,
{
    vstd::arithmetic::div_mod::lemma_div_is_ordered(a * b, d * c, c);
    vstd::arithmetic::div_mod::lemma_div_multiples_vanish(d, c);
    vstd::arithmetic::mul::lemma_mul_is_commutative(d, c);
    vstd::arithmetic::div_mod::lemma_div_pos_is_pos(a * b, c);
    vstd::arithmetic::mul::lemma_mul_nonnegative(a, b);
}

/// The draw size of a video image in a surface; the image always fits.
pub fn fit_size(source_width: u32, source_height: u32, destination_width: u32, destination_height: u32) -> (res: (
    u32,
    u32,
))
    ensures
        res == spec_fit_size(source_width, source_height, destination_width, destination_height),
        res.0 <= destination_width,
        res.1 <= destination_height,
{
    if source_width == 0 || source_height == 0 || destination_width == 0 || destination_height == 0 {
        return (0, 0);
    }
    let dw = destination_width as u64;
    let dh = destination_height as u64;
    let sw = source_width as u64;
    let sh = source_height as u64;
    proof {
        vstd::arithmetic::mul::lemma_mul_upper_bound(dw as int, 0xffff_ffff, sh as int, 0xffff_ffff);
        vstd::arithmetic::mul::lemma_mul_upper_bound(dh as int, 0xffff_ffff, sw as int, 0xffff_ffff);
    }
    let width_limited = dw * sh <= dh * sw;
    if width_limited {
        proof {
            lemma_scaled_fits(dw as int, sh as int, sw as int, dh as int);
        }
        let height = (dw * sh / sw) as u32;
        (destination_width, if height < 1 { 1 } else { height })
    } else {
        proof {
            vstd::arithmetic::mul::lemma_mul_is_commutative(dh as int, sw as int);
            vstd::arithmetic::mul::lemma_mul_is_commutative(dw as int, sh as int);
            lemma_scaled_fits(dh as int, sw as int, sh as int, dw as int);
        }
        let width = (dh * sw / sh) as u32;
        (if width < 1 { 1 } else { width }, destination_height)
    }
}

} // verus!
