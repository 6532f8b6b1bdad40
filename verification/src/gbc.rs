//! Structure of the colour subpixel LCD filter: point sampling with
//! half-texel centring, the six-step horizontal subpixel cycle, the
//! vertical scanline-phase bands, and output sizing.

use vstd::prelude::*;

verus! {

/// Steps in the horizontal subpixel cycle.
pub const GBC_SUBPIXEL_STEPS: u32 = 6;

/// The point-sampled source column (or row) for output position `x`,
/// shifted by `off` whole source texels and clamped to the image:
/// `clamp(floor((x + 1/2) * src / out) + off, 0, src - 1)`.
pub open spec fn spec_point_sample_coord(x: int, out: int, src: int, off: int) -> int {
    let s = ((2 * x + 1) * src + 2 * out * off) / (2 * out);
    if s < 0 {
        0
    } else if s > src - 1 {
        src - 1
    } else {
        s
    }
}

/// Point-samples with the half-texel offset, shifted by a whole number
/// of source texels and clamped at the edges.
pub fn point_sample_coord(x: u32, out: u32, src: u32, off: i64) -> (c: u32)
    requires
        1 <= out,
        1 <= src,
        -1 <= off <= 1,
    ensures
        c == spec_point_sample_coord(x as int, out as int, src as int, off as int),
        c < src,
{
    proof {
        assert((2 * (x as int) + 1) * (src as int) <= u64::MAX * 2) by (nonlinear_arith);
    }
    let two_out: u128 = 2 * (out as u128);
    let pos: u128 = (2 * (x as u128) + 1) * (src as u128);
    let ghost n = (2 * (x as int) + 1) * (src as int) + 2 * (out as int) * (off as int);
    let s: u128 = if off < 0 {
        if pos >= two_out {
            (pos - two_out) / two_out
        } else {
            // the sample index is -1, which clamps to the first texel
            proof {
                assert((2 * (x as int) + 1) * (src as int) >= 1) by (nonlinear_arith)
                    requires
                        x >= 0,
                        src >= 1,
                ;
                vstd::arithmetic::mul::lemma_mul_is_commutative(-1, 2 * (out as int));
                vstd::arithmetic::div_mod::lemma_fundamental_div_mod_converse(
                    n,
                    2 * (out as int),
                    -1,
                    n + 2 * (out as int),
                );
            }
            return 0;
        }
    } else if off == 0 {
        pos / two_out
    } else {
        (pos + two_out) / two_out
    };
    proof {
        vstd::arithmetic::div_mod::lemma_div_pos_is_pos(
            n,
            2 * (out as int),
        );
    }
    if s > (src - 1) as u128 {
        src - 1
    } else {
        s as u32
    }
}

/// The position of output column `x` within the six-step horizontal
/// subpixel cycle: the fractional part of the sampling coordinate,
/// scaled by six and truncated.
pub open spec fn spec_subpixel_step(x: int, src: int, out: int) -> int {
    6 * (((2 * x + 1) * src) % (2 * out)) / (2 * out)
}

/// Classifies an output column within the six-step subpixel cycle.
pub fn subpixel_step(x: u32, src: u32, out: u32) -> (step: u8)
    requires
        1 <= src,
        1 <= out,
    ensures
        step == spec_subpixel_step(x as int, src as int, out as int),
        step < 6,
{
    proof {
        assert((2 * (x as int) + 1) * (src as int) <= u64::MAX * 2) by (nonlinear_arith);
    }
    let two_out: u128 = 2 * (out as u128);
    let m: u128 = ((2 * (x as u128) + 1) * (src as u128)) % two_out;
    let step: u128 = 6 * m / two_out;
    proof {
        vstd::arithmetic::div_mod::lemma_multiply_divide_lt(
            6 * (((2 * (x as int) + 1) * (src as int)) % (2 * (out as int))),
            2 * (out as int),
            6,
        );
        vstd::arithmetic::div_mod::lemma_div_pos_is_pos(
            6 * (((2 * (x as int) + 1) * (src as int)) % (2 * (out as int))),
            2 * (out as int),
        );
    }
    step as u8
}

/// The vertical scanline phase of output row `y`: the top sixth of a
/// source row, the bottom sixth, or the middle.
pub open spec fn spec_scanline_band(y: int, src: int, out: int) -> int {
    let m = ((2 * y + 1) * src) % (2 * out);
    if 6 * m < 2 * out {
        0
    } else if 6 * m > 5 * (2 * out) {
        2
    } else {
        1
    }
}

/// Classifies an output row against the scanline bands: zero near the
/// row above, two near the row below, one in the middle.
pub fn scanline_band(y: u32, src: u32, out: u32) -> (band: u8)
    requires
        1 <= src,
        1 <= out,
    ensures
        band == spec_scanline_band(y as int, src as int, out as int),
        band <= 2,
{
    proof {
        assert((2 * (y as int) + 1) * (src as int) <= u64::MAX * 2) by (nonlinear_arith);
    }
    let two_out: u128 = 2 * (out as u128);
    let m: u128 = ((2 * (y as u128) + 1) * (src as u128)) % two_out;
    if 6 * m < two_out {
        0
    } else if 6 * m > 5 * two_out {
        2
    } else {
        1
    }
}

/// The output size of the subpixel filter: the reconstructed source
/// scaled by the integer factor.
pub fn gbc_output_size(src_width: u32, src_height: u32, scale: u32) -> (r: (u32, u32))
    requires
        src_width * scale <= u32::MAX,
        src_height * scale <= u32::MAX,
    ensures
        r.0 == src_width * scale,
        r.1 == src_height * scale,
{
    (src_width * scale, src_height * scale)
}

/// Point mode reproduces exact nearest-neighbour magnification: on an
/// output exactly `scale` times the source, every output pixel samples
/// the source pixel whose block it belongs to, with no blending.
pub proof fn lemma_point_sample_nearest(x: int, scale: int, src: int)
    requires
        1 <= scale,
        1 <= src,
        0 <= x < scale * src,
    ensures
        spec_point_sample_coord(x, scale * src, src, 0) == x / scale,
{
    let out = scale * src;
    let q = x / scale;
    let r = x % scale;
    vstd::arithmetic::div_mod::lemma_fundamental_div_mod(x, scale);
    assert((2 * x + 1) * src + 2 * out * 0 == q * (2 * (scale * src)) + (2 * r + 1) * src
        && 0 <= (2 * r + 1) * src < 2 * (scale * src)) by (nonlinear_arith)
        requires
            x == scale * q + r,
            0 <= r < scale,
            1 <= src,
            1 <= scale,
            out == scale * src,
    ;
    vstd::arithmetic::div_mod::lemma_fundamental_div_mod_converse(
        (2 * x + 1) * src + 2 * out * 0,
        2 * (scale * src),
        q,
        (2 * r + 1) * src,
    );
    vstd::arithmetic::div_mod::lemma_multiply_divide_lt(x, scale, src);
    vstd::arithmetic::div_mod::lemma_div_pos_is_pos(x, scale);
}

} // verus!
