use vstd::prelude::*;

use vstd::arithmetic::div_mod::lemma_div_is_ordered;
use vstd::arithmetic::div_mod::lemma_div_multiples_vanish;
use vstd::arithmetic::div_mod::lemma_div_pos_is_pos;
use vstd::arithmetic::div_mod::lemma_fundamental_div_mod;
use vstd::arithmetic::div_mod::lemma_fundamental_div_mod_converse;
use vstd::arithmetic::div_mod::lemma_mod_division_less_than_divisor;

use crate::error::Error;

verus! {

/// One output channel of the fixed-point BT.601 transform: the numerator
/// divided by 256 (flooring) and clamped to [0, 255].
pub open spec fn clamp_channel(num: int) -> u8 {
    if num < 0 {
        0
    } else if num / 256 > 255 {
        255
    } else {
        (num / 256) as u8
    }
}

/// The red channel of a YUV 4:4:4 triple; it does not depend on U.
pub open spec fn rgb_r(y: u8, v: u8) -> u8 {
    clamp_channel(298 * (y - 16) + 409 * (v - 128) + 128)
}

/// The green channel of a YUV 4:4:4 triple.
pub open spec fn rgb_g(y: u8, u: u8, v: u8) -> u8 {
    clamp_channel(298 * (y - 16) - 100 * (u - 128) - 208 * (v - 128) + 128)
}

/// The blue channel of a YUV 4:4:4 triple; it does not depend on V.
pub open spec fn rgb_b(y: u8, u: u8) -> u8 {
    clamp_channel(298 * (y - 16) + 516 * (u - 128) + 128)
}

/// The luma byte of pixel `p` in a packed 4:2:2 buffer.
pub open spec fn luma_at(src: Seq<u8>, p: int) -> u8 {
    src[2 * p]
}

/// The shared U byte of the pixel pair that pixel `p` belongs to.
pub open spec fn chroma_u_at(src: Seq<u8>, p: int) -> u8 {
    src[4 * (p / 2) + 1]
}

/// The shared V byte of the pixel pair that pixel `p` belongs to.
pub open spec fn chroma_v_at(src: Seq<u8>, p: int) -> u8 {
    src[4 * (p / 2) + 3]
}

/// A well-formed packed-YUV-4:2:2 buffer for the given resolution: two
/// bytes per pixel, whole 4-byte groups, and an RGB output that fits in
/// memory (the image library computes `3*width` first, so that product
/// must fit as well).
pub open spec fn yuv422_frame_ok(src: Seq<u8>, width: u32, height: u32) -> bool {
    &&& src.len() == 2 * width * height
    &&& src.len() % 4 == 0
    &&& 3 * width <= usize::MAX
    &&& 3 * width * height <= usize::MAX
}

/// Pixel `p` of the output raster holds the transform of pixel `p` of the
/// input buffer.
pub open spec fn pixel_converted(src: Seq<u8>, rgb: Seq<u8>, p: int) -> bool {
    &&& rgb[3 * p] == rgb_r(luma_at(src, p), chroma_v_at(src, p))
    &&& rgb[3 * p + 1] == rgb_g(luma_at(src, p), chroma_u_at(src, p), chroma_v_at(src, p))
    &&& rgb[3 * p + 2] == rgb_b(luma_at(src, p), chroma_u_at(src, p))
}

/// Byte `i` of the output raster: one channel of pixel `i / 3`.
pub open spec fn raster_byte(src: Seq<u8>, i: int) -> u8 {
    let p = i / 3;
    if i % 3 == 0 {
        rgb_r(luma_at(src, p), chroma_v_at(src, p))
    } else if i % 3 == 1 {
        rgb_g(luma_at(src, p), chroma_u_at(src, p), chroma_v_at(src, p))
    } else {
        rgb_b(luma_at(src, p), chroma_u_at(src, p))
    }
}

/// The whole RGB raster a packed 4:2:2 buffer converts to: three bytes
/// per pixel, row-major, no padding.
pub open spec fn yuv422_raster(src: Seq<u8>) -> Seq<u8> {
    Seq::new((src.len() / 2 * 3) as nat, |i: int| raster_byte(src, i))
}

/// Divide the fixed-point numerator by 256 and clamp to a byte.
fn clamp_channel_exec(num: i32) -> (r: u8)
    ensures
        r == clamp_channel(num as int),
{
    if num < 0 {
        0
    } else if num >= 65536 {
        proof {
            lemma_div_is_ordered(65536, num as int, 256);
        }
        255
    } else {
        ((num as u32) / 256) as u8
    }
}

/// Convert one packed group `[Y0, U, Y1, V]` into the two RGB pixels it
/// encodes, appending six bytes.
fn convert_pair(y0: u8, u: u8, y1: u8, v: u8, out: &mut Vec<u8>)
    ensures
        final(out)@ == old(out)@ + seq![
            rgb_r(y0, v),
            rgb_g(y0, u, v),
            rgb_b(y0, u),
            rgb_r(y1, v),
            rgb_g(y1, u, v),
            rgb_b(y1, u),
        ],
{
    let d: i32 = u as i32 - 128;
    let e: i32 = v as i32 - 128;
    let c0: i32 = y0 as i32 - 16;
    out.push(clamp_channel_exec(298 * c0 + 409 * e + 128));
    out.push(clamp_channel_exec(298 * c0 - 100 * d - 208 * e + 128));
    out.push(clamp_channel_exec(298 * c0 + 516 * d + 128));
    let c1: i32 = y1 as i32 - 16;
    out.push(clamp_channel_exec(298 * c1 + 409 * e + 128));
    out.push(clamp_channel_exec(298 * c1 - 100 * d - 208 * e + 128));
    out.push(clamp_channel_exec(298 * c1 + 516 * d + 128));
    proof {
        assert(final(out)@ =~= old(out)@ + seq![
            rgb_r(y0, v),
            rgb_g(y0, u, v),
            rgb_b(y0, u),
            rgb_r(y1, v),
            rgb_g(y1, u, v),
            rgb_b(y1, u),
        ]);
    }
}

/// Convert a packed-YUV-4:2:2 capture buffer into a tightly packed RGB
/// raster. Every pixel of the output is the fixed-point BT.601 transform
/// of the corresponding input pixel; a buffer whose length does not match
/// the resolution is rejected as `DecodeFailure`.
pub fn yuv422_to_rgb(src: &[u8], width: u32, height: u32) -> (r: Result<Vec<u8>, Error>)
    ensures
        r is Ok <==> yuv422_frame_ok(src@, width, height),
        r matches Err(e) ==> e == Error::DecodeFailure,
        r matches Ok(rgb) ==> {
            &&& rgb@.len() == 3 * width * height
            &&& forall|p: int| 0 <= p < width * height ==> pixel_converted(src@, rgb@, p)
            &&& rgb@ == yuv422_raster(src@)
        },
{
    proof {
        assert((width as int) * (height as int) <= 0xffffffff * 0xffffffff) by (nonlinear_arith)
            requires
                width <= 0xffffffff,
                height <= 0xffffffff,
        ;
    }
    let wh: u128 = (width as u128) * (height as u128);
    proof {
        assert(wh == (width as int) * (height as int));
        assert(2 * wh == 2 * (width as int) * (height as int) && 3 * wh == 3 * (width as int) * (
        height as int)) by (nonlinear_arith)
            requires
                wh == (width as int) * (height as int),
        ;
    }
    if (src.len() as u128) != 2 * wh {
        return Err(Error::DecodeFailure);
    }
    if src.len() % 4 != 0 {
        return Err(Error::DecodeFailure);
    }
    if 3 * (width as u128) > usize::MAX as u128 {
        return Err(Error::DecodeFailure);
    }
    if 3 * wh > usize::MAX as u128 {
        return Err(Error::DecodeFailure);
    }
    let n_pairs: usize = src.len() / 4;
    proof {
        lemma_fundamental_div_mod(src@.len() as int, 4);
    }
    let mut out: Vec<u8> = Vec::new();
    let mut q: usize = 0;
    while q < n_pairs
        invariant
            q <= n_pairs,
            src@.len() <= usize::MAX,
            src@.len() == 4 * n_pairs,
            src@.len() == 2 * width * height,
            out@.len() == 6 * q,
            forall|p: int| 0 <= p < 2 * q ==> pixel_converted(src@, out@, p),
        decreases n_pairs - q,
    {
        let y0 = src[4 * q];
        let u = src[4 * q + 1];
        let y1 = src[4 * q + 2];
        let v = src[4 * q + 3];
        let ghost prev = out@;
        convert_pair(y0, u, y1, v, &mut out);
        proof {
            lemma_fundamental_div_mod_converse(2 * q as int, 2, q as int, 0);
            lemma_fundamental_div_mod_converse(2 * q as int + 1, 2, q as int, 1);
            assert(pixel_converted(src@, out@, 2 * q as int));
            assert(pixel_converted(src@, out@, 2 * q as int + 1));
            assert forall|p: int| 0 <= p < 2 * q implies pixel_converted(src@, out@, p) by {
                assert(pixel_converted(src@, prev, p));
                assert(out@[3 * p] == prev[3 * p]);
                assert(out@[3 * p + 1] == prev[3 * p + 1]);
                assert(out@[3 * p + 2] == prev[3 * p + 2]);
            }
        }
        q = q + 1;
    }
    proof {
        lemma_div_multiples_vanish((width as int) * (height as int), 2);
        assert forall|i: int| 0 <= i < out@.len() implies out@[i] == raster_byte(src@, i) by {
            let p = i / 3;
            lemma_fundamental_div_mod(i, 3);
            lemma_div_pos_is_pos(i, 3);
            lemma_mod_division_less_than_divisor(i, 3);
            assert(3 * p <= i);
            assert(p < (width as int) * (height as int));
            assert(pixel_converted(src@, out@, p));
        }
        assert(out@ =~= yuv422_raster(src@));
    }
    Ok(out)
}

} // verus!
