//! Geometry of the CRT filter: letterbox padding, margins, aspect-ratio
//! width factor, output sizing, and the coordinate maps used by the
//! native-resolution reconstruction and the horizontal Lanczos resample.

use crate::scaling::{spec_conservative_ceil, ScaleInfo};
use vstd::prelude::*;

verus! {

/// Fixed pixel margin added on all sides of the reconstructed source.
pub const CRT_MARGIN: u32 = 4;

/// Half-width of the horizontal Lanczos kernel, in source texels.
pub const CRT_LANCZOS_SIZE: u32 = 2;

/// Ceiling of `a / b`.
pub open spec fn spec_ceil_div(a: int, b: int) -> int {
    (a + b - 1) / b
}

/// The ceiling is the quotient, plus one when the division is inexact.
pub proof fn lemma_ceil_div(a: int, b: int)
    requires
        a >= 0,
        b >= 1,
    ensures
        spec_ceil_div(a, b) == a / b + (if a % b == 0 {
            0int
        } else {
            1int
        }),
{
    let q = a / b;
    let r = a % b;
    vstd::arithmetic::div_mod::lemma_fundamental_div_mod(a, b);
    vstd::arithmetic::mul::lemma_mul_is_commutative(b, q);
    if r == 0 {
        vstd::arithmetic::div_mod::lemma_fundamental_div_mod_converse(a + b - 1, b, q, b - 1);
    } else {
        vstd::arithmetic::mul::lemma_mul_is_distributive_add_other_way(b, q, 1);
        vstd::arithmetic::div_mod::lemma_fundamental_div_mod_converse(a + b - 1, b, q + 1, r - 1);
    }
}

/// A negative value divided by a positive one stays negative.
pub proof fn lemma_div_neg(n: int, d: int)
    requires
        n < 0,
        d >= 1,
    ensures
        n / d < 0,
{
    vstd::arithmetic::div_mod::lemma_fundamental_div_mod(n, d);
    if n / d >= 0 {
        assert(d * (n / d) >= 0) by (nonlinear_arith)
            requires
                d >= 1,
                n / d >= 0,
        ;
        assert(false);
    }
}

/// Letterbox padding: a native height just below 240 lines is padded up
/// to 240, split evenly with the remainder at the bottom.
pub open spec fn spec_crt_vertical_padding(target_height: int) -> (int, int) {
    if 224 <= target_height < 240 {
        let total = 240 - target_height;
        (total / 2, total - total / 2)
    } else {
        (0, 0)
    }
}

/// Computes the letterbox padding for the reconstructed native height.
pub fn crt_vertical_padding(target_height: u32) -> (r: (u32, u32))
    ensures
        (r.0 as int, r.1 as int) == spec_crt_vertical_padding(target_height as int),
        r.0 <= 8 && r.1 <= 8,
{
    if target_height < 240 && target_height >= 224 {
        let total = 240 - target_height;
        let top = total / 2;
        (top, total - top)
    } else {
        (0, 0)
    }
}

/// The horizontal stretch applied to the output, as an exact rational:
/// an explicit pixel aspect ratio wins; otherwise an aspect-respecting
/// source keeps its own aspect ratio (desired over reconstructed); an
/// ordinary source is not stretched.
pub open spec fn spec_crt_owf(
    explicit: bool,
    par_num: int,
    par_den: int,
    respect: bool,
    src_w: int,
    src_h: int,
    target_w: int,
    target_h: int,
) -> (int, int) {
    if explicit {
        (par_num, par_den)
    } else if respect {
        (src_w * target_h, src_h * target_w)
    } else {
        (1, 1)
    }
}

/// Every size the CRT filter derives from its input dimensions.
#[derive(Clone, Copy, PartialEq, Eq, Structural, Debug)]
pub struct CrtGeometry {
    /// Inferred native size of the source.
    pub target_width: u32,
    pub target_height: u32,
    /// Letterbox padding above and below the native image.
    pub pad_top: u32,
    pub pad_bottom: u32,
    /// Margins around the native image inside the reconstruction buffer.
    pub left_margin: u32,
    pub top_margin: u32,
    /// Size of the reconstruction buffer (native image plus margins).
    pub buff_width: u32,
    pub buff_height: u32,
    /// Output width factor, an exact rational.
    pub owf_num: u64,
    pub owf_den: u64,
    /// Size of the filter's output.
    pub out_width: u32,
    pub out_height: u32,
}

/// The geometry derived from the source dimensions, inferred scale,
/// integer output scale and pixel aspect ratio.
pub open spec fn spec_crt_geometry(
    src_w: u32,
    src_h: u32,
    scale_info: ScaleInfo,
    scale: u32,
    explicit_aspect_ratio: bool,
    par_num: u32,
    par_den: u32,
) -> CrtGeometry {
    let tw = spec_conservative_ceil(
        src_w as int * scale_info.scale_x_den as int,
        scale_info.scale_x_num as int,
    );
    let th = spec_conservative_ceil(
        src_h as int * scale_info.scale_y_den as int,
        scale_info.scale_y_num as int,
    );
    let pads = spec_crt_vertical_padding(th);
    let owf = spec_crt_owf(
        explicit_aspect_ratio,
        par_num as int,
        par_den as int,
        scale_info.respect_input_aspect_ratio,
        src_w as int,
        src_h as int,
        tw,
        th,
    );
    let lm = spec_ceil_div(CRT_MARGIN as int * owf.1, owf.0);
    let bw = tw + 2 * lm;
    let bh = th + 2 * CRT_MARGIN as int + pads.0 + pads.1;
    CrtGeometry {
        target_width: tw as u32,
        target_height: th as u32,
        pad_top: pads.0 as u32,
        pad_bottom: pads.1 as u32,
        left_margin: lm as u32,
        top_margin: (CRT_MARGIN as int + pads.0) as u32,
        buff_width: bw as u32,
        buff_height: bh as u32,
        owf_num: owf.0 as u64,
        owf_den: owf.1 as u64,
        out_width: spec_ceil_div(bw * scale as int * owf.0, owf.1) as u32,
        out_height: (bh * scale as int) as u32,
    }
}

/// Every derived size of the CRT geometry fits in a 32-bit dimension and
/// the native size is nonempty.
pub open spec fn spec_crt_geometry_fits(
    src_w: u32,
    src_h: u32,
    scale_info: ScaleInfo,
    scale: u32,
    explicit_aspect_ratio: bool,
    par_num: u32,
    par_den: u32,
) -> bool {
    let tw = spec_conservative_ceil(
        src_w as int * scale_info.scale_x_den as int,
        scale_info.scale_x_num as int,
    );
    let th = spec_conservative_ceil(
        src_h as int * scale_info.scale_y_den as int,
        scale_info.scale_y_num as int,
    );
    let owf = spec_crt_owf(
        explicit_aspect_ratio,
        par_num as int,
        par_den as int,
        scale_info.respect_input_aspect_ratio,
        src_w as int,
        src_h as int,
        tw,
        th,
    );
    let lm = spec_ceil_div(CRT_MARGIN as int * owf.1, owf.0);
    let bw = tw + 2 * lm;
    let bh = th + 2 * CRT_MARGIN as int + spec_crt_vertical_padding(th).0
        + spec_crt_vertical_padding(th).1;
    &&& 1 <= tw <= u32::MAX
    &&& 1 <= th <= u32::MAX
    &&& bw <= u32::MAX
    &&& spec_ceil_div(bw * scale as int * owf.0, owf.1) <= u32::MAX
    &&& bh * scale as int <= u32::MAX
}

/// Derives every buffer and output size of the CRT filter. The output is
/// the margin buffer scaled by the integer factor and stretched
/// horizontally by the output width factor, rounded up.
pub fn crt_geometry(
    src_width: u32,
    src_height: u32,
    scale_info: &ScaleInfo,
    scale: u32,
    explicit_aspect_ratio: bool,
    par_num: u32,
    par_den: u32,
) -> (g: CrtGeometry)
    requires
        1 <= src_width,
        1 <= src_height,
        scale_info.wf(),
        1 <= scale,
        1 <= par_num,
        1 <= par_den,
        spec_crt_geometry_fits(
            src_width,
            src_height,
            *scale_info,
            scale,
            explicit_aspect_ratio,
            par_num,
            par_den,
        ),
    ensures
        g == spec_crt_geometry(
            src_width,
            src_height,
            *scale_info,
            scale,
            explicit_aspect_ratio,
            par_num,
            par_den,
        ),
{
    let (tw, th) = crate::scaling::calculate_scaled_buffer_size(src_width, src_height, scale_info);
    let (pad_top, pad_bottom) = crt_vertical_padding(th);

    let (owf_num, owf_den): (u64, u64) = if explicit_aspect_ratio {
        (par_num as u64, par_den as u64)
    } else if scale_info.respect_input_aspect_ratio {
        proof {
            assert((src_width as int) * (th as int) <= u64::MAX && (src_height as int) * (tw
                as int) <= u64::MAX) by (nonlinear_arith);
        }
        ((src_width as u64) * (th as u64), (src_height as u64) * (tw as u64))
    } else {
        (1, 1)
    };
    proof {
        if scale_info.respect_input_aspect_ratio && !explicit_aspect_ratio {
            assert((src_width as int) * (th as int) >= 1 && (src_height as int) * (tw as int) >= 1)
                by (nonlinear_arith)
                requires
                    src_width >= 1,
                    th >= 1,
                    src_height >= 1,
                    tw >= 1,
            ;
        }
    }

    // left margin: the fixed margin divided by the width factor, rounded up
    let lm_num: u128 = (CRT_MARGIN as u128) * (owf_den as u128);
    let lm_q: u128 = lm_num / (owf_num as u128);
    let lm_r: u128 = lm_num % (owf_num as u128);
    let lm128: u128 = if lm_r == 0 {
        lm_q
    } else {
        lm_q + 1
    };
    proof {
        lemma_ceil_div(lm_num as int, owf_num as int);
        assert(spec_ceil_div(lm_num as int, owf_num as int) <= u32::MAX);
    }
    let left_margin: u32 = lm128 as u32;

    let buff_width: u32 = ((tw as u64) + 2 * (left_margin as u64)) as u32;
    proof {
        let bh = th as int + 2 * CRT_MARGIN as int + pad_top as int + pad_bottom as int;
        assert(bh <= bh * (scale as int)) by (nonlinear_arith)
            requires
                scale >= 1,
                bh >= 0,
        ;
    }
    let buff_height: u32 = th + 2 * CRT_MARGIN + pad_top + pad_bottom;

    // output size: margin buffer, scaled and stretched, rounded up
    proof {
        assert((buff_width as int) * (scale as int) <= u128::MAX && (buff_width as int) * (scale
            as int) * (owf_num as int) <= u128::MAX) by (nonlinear_arith)
            requires
                0 <= buff_width <= u32::MAX,
                0 <= scale <= u32::MAX,
                0 <= owf_num <= u64::MAX,
        ;
    }
    let ow_num: u128 = (buff_width as u128) * (scale as u128) * (owf_num as u128);
    let ow_q: u128 = ow_num / (owf_den as u128);
    let ow_r: u128 = ow_num % (owf_den as u128);
    proof {
        lemma_ceil_div(ow_num as int, owf_den as int);
        assert(spec_ceil_div(ow_num as int, owf_den as int) <= u32::MAX);
    }
    let ow128: u128 = if ow_r == 0 {
        ow_q
    } else {
        ow_q + 1
    };
    let out_width: u32 = ow128 as u32;
    let out_height: u32 = ((buff_height as u64) * (scale as u64)) as u32;

    CrtGeometry {
        target_width: tw,
        target_height: th,
        pad_top,
        pad_bottom,
        left_margin,
        top_margin: CRT_MARGIN + pad_top,
        buff_width,
        buff_height,
        owf_num,
        owf_den,
        out_width,
        out_height,
    }
}

/// Derives the CRT geometry after checking that every derived size fits
/// a 32-bit dimension, and reports an oversized request as `None`.
pub fn try_crt_geometry(
    src_width: u32,
    src_height: u32,
    scale_info: &ScaleInfo,
    scale: u32,
    explicit_aspect_ratio: bool,
    par_num: u32,
    par_den: u32,
) -> (r: Option<CrtGeometry>)
    requires
        1 <= src_width,
        1 <= src_height,
        scale_info.wf(),
        1 <= scale,
        1 <= par_num,
        1 <= par_den,
    ensures
        match r {
            Some(g) => spec_crt_geometry_fits(
                src_width,
                src_height,
                *scale_info,
                scale,
                explicit_aspect_ratio,
                par_num,
                par_den,
            ) && g == spec_crt_geometry(
                src_width,
                src_height,
                *scale_info,
                scale,
                explicit_aspect_ratio,
                par_num,
                par_den,
            ),
            None => !spec_crt_geometry_fits(
                src_width,
                src_height,
                *scale_info,
                scale,
                explicit_aspect_ratio,
                par_num,
                par_den,
            ),
        },
{
    proof {
        assert((src_width as int) * (scale_info.scale_x_den as int) < u64::MAX && (src_height
            as int) * (scale_info.scale_y_den as int) < u64::MAX) by (nonlinear_arith);
    }
    let tw64 = crate::scaling::conservative_ceil(
        (src_width as u64) * (scale_info.scale_x_den as u64),
        scale_info.scale_x_num as u64,
    );
    let th64 = crate::scaling::conservative_ceil(
        (src_height as u64) * (scale_info.scale_y_den as u64),
        scale_info.scale_y_num as u64,
    );
    if tw64 < 1 || tw64 > u32::MAX as u64 || th64 < 1 || th64 > u32::MAX as u64 {
        return None;
    }
    let tw = tw64 as u32;
    let th = th64 as u32;
    let (pad_top, pad_bottom) = crt_vertical_padding(th);

    proof {
        assert((src_width as int) * (th as int) <= u128::MAX && (src_height as int) * (tw as int)
            <= u128::MAX) by (nonlinear_arith);
    }
    let (owf_num, owf_den): (u128, u128) = if explicit_aspect_ratio {
        (par_num as u128, par_den as u128)
    } else if scale_info.respect_input_aspect_ratio {
        ((src_width as u128) * (th as u128), (src_height as u128) * (tw as u128))
    } else {
        (1, 1)
    };
    proof {
        if scale_info.respect_input_aspect_ratio && !explicit_aspect_ratio {
            assert((src_width as int) * (th as int) >= 1 && (src_height as int) * (tw as int) >= 1)
                by (nonlinear_arith)
                requires
                    src_width >= 1,
                    th >= 1,
                    src_height >= 1,
                    tw >= 1,
            ;
        }
        assert((src_width as int) * (th as int) <= u64::MAX && (src_height as int) * (tw as int)
            <= u64::MAX) by (nonlinear_arith);
        assert(owf_num <= u64::MAX && owf_den <= u64::MAX);
    }

    proof {
        assert((CRT_MARGIN as int) * (owf_den as int) <= u128::MAX) by (nonlinear_arith)
            requires
                0 <= owf_den <= u64::MAX,
        ;
    }
    let lm_num: u128 = (CRT_MARGIN as u128) * owf_den;
    proof {
        lemma_ceil_div(lm_num as int, owf_num as int);
    }
    let lm_q: u128 = lm_num / owf_num;
    let lm_r: u128 = lm_num % owf_num;
    let lm: u128 = if lm_r == 0 {
        lm_q
    } else {
        lm_q + 1
    };

    let bw: u128 = (tw as u128) + 2 * lm;
    if bw > u32::MAX as u128 {
        return None;
    }
    let bh: u64 = (th as u64) + 2 * (CRT_MARGIN as u64) + (pad_top as u64) + (pad_bottom as u64);
    proof {
        assert((bh as int) * (scale as int) <= u128::MAX) by (nonlinear_arith);
    }
    if (bh as u128) * (scale as u128) > u32::MAX as u128 {
        return None;
    }

    proof {
        assert((bw as int) * (scale as int) <= u128::MAX && (bw as int) * (scale as int) * (owf_num
            as int) < u128::MAX) by (nonlinear_arith)
            requires
                0 <= bw <= u32::MAX,
                0 <= scale <= u32::MAX,
                0 <= owf_num <= u64::MAX,
        ;
    }
    let ow_num: u128 = bw * (scale as u128) * owf_num;
    let ow_q: u128 = ow_num / owf_den;
    let ow_r: u128 = ow_num % owf_den;
    proof {
        lemma_ceil_div(ow_num as int, owf_den as int);
        vstd::arithmetic::div_mod::lemma_div_nonincreasing(ow_num as int, owf_den as int);
    }
    let ow: u128 = if ow_r == 0 {
        ow_q
    } else {
        ow_q + 1
    };
    if ow > u32::MAX as u128 {
        return None;
    }
    Some(
        crt_geometry(
            src_width,
            src_height,
            scale_info,
            scale,
            explicit_aspect_ratio,
            par_num,
            par_den,
        ),
    )
}

/// Nearest-neighbour source column for reconstruction-buffer column `x`:
/// the native image starts `left_margin` columns in, and the sample is
/// taken at the half-texel-offset centre, `floor((x - lm + 1/2) * src / target)`.
pub open spec fn spec_crt_source_x(x: int, left_margin: int, target_w: int, src_w: int) -> int {
    ((2 * (x - left_margin) + 1) * src_w) / (2 * target_w)
}

/// The source pixel behind position `(x, y)` of the reconstruction
/// buffer, or nothing where the position falls in the margin (such
/// positions are rendered black).
pub fn crt_source_coord(
    x: u32,
    y: u32,
    left_margin: u32,
    top_margin: u32,
    target_w: u32,
    target_h: u32,
    src_w: u32,
    src_h: u32,
) -> (r: Option<(u32, u32)>)
    requires
        1 <= target_w,
        1 <= target_h,
        1 <= src_w,
        1 <= src_h,
    ensures
        ({
            let sx = spec_crt_source_x(x as int, left_margin as int, target_w as int, src_w as int);
            let sy = spec_crt_source_x(y as int, top_margin as int, target_h as int, src_h as int);
            match r {
                Some(c) => 0 <= sx < src_w && 0 <= sy < src_h && c.0 == sx && c.1 == sy,
                None => !(0 <= sx < src_w && 0 <= sy < src_h),
            }
        }),
{
    let sx = crt_axis_coord(x, left_margin, target_w, src_w);
    let sy = crt_axis_coord(y, top_margin, target_h, src_h);
    match (sx, sy) {
        (Some(cx), Some(cy)) => Some((cx, cy)),
        _ => None,
    }
}

/// One axis of `crt_source_coord`: the in-bounds source position, if any.
fn crt_axis_coord(x: u32, margin: u32, target: u32, src: u32) -> (r: Option<u32>)
    requires
        1 <= target,
        1 <= src,
    ensures
        ({
            let s = spec_crt_source_x(x as int, margin as int, target as int, src as int);
            match r {
                Some(c) => 0 <= s < src && c == s,
                None => !(0 <= s < src),
            }
        }),
{
    if x < margin {
        proof {
            assert((2 * ((x as int) - (margin as int)) + 1) * (src as int) < 0)
                by (nonlinear_arith)
                requires
                    (x as int) < (margin as int),
                    src >= 1,
            ;
            lemma_div_neg(
                (2 * ((x as int) - (margin as int)) + 1) * (src as int),
                2 * (target as int),
            );
        }
        None
    } else {
        let dx: u64 = (x - margin) as u64;
        proof {
            assert((2 * (dx as int) + 1) * (src as int) <= u128::MAX) by (nonlinear_arith);
        }
        let n: u128 = (2 * (dx as u128) + 1) * (src as u128);
        let s: u128 = n / (2 * (target as u128));
        proof {
            vstd::arithmetic::div_mod::lemma_div_pos_is_pos(n as int, 2 * (target as int));
        }
        if s < (src as u128) {
            Some(s as u32)
        } else {
            None
        }
    }
}

/// The leftmost-tap anchor of the horizontal Lanczos resample for output
/// column `x`: `floor((x + 1/2) * src / out - 1/2)`, which may be one
/// texel left of the image.
pub open spec fn spec_lanczos_center(x: int, src_w: int, out_w: int) -> int {
    ((2 * x + 1) * src_w - out_w) / (2 * out_w)
}

/// Computes the Lanczos anchor column exactly.
pub fn lanczos_center(x: u32, src_w: u32, out_w: u32) -> (c: i64)
    requires
        1 <= src_w,
        1 <= out_w,
        x < out_w,
    ensures
        c as int == spec_lanczos_center(x as int, src_w as int, out_w as int),
        -1 <= c < src_w,
{
    proof {
        assert(1 <= (2 * (x as int) + 1) * (src_w as int) <= u128::MAX) by (nonlinear_arith)
            requires
                src_w >= 1,
                0 <= x <= u32::MAX,
        ;
    }
    let num_pos: u128 = (2 * (x as u128) + 1) * (src_w as u128);
    if num_pos >= (out_w as u128) {
        let c: u128 = (num_pos - (out_w as u128)) / (2 * (out_w as u128));
        proof {
            let n = (2 * (x as int) + 1) * (src_w as int) - (out_w as int);
            assert(n < 2 * (out_w as int) * (src_w as int)) by (nonlinear_arith)
                requires
                    x < out_w,
                    src_w >= 1,
                    out_w >= 1,
                    n == (2 * (x as int) + 1) * (src_w as int) - (out_w as int),
            ;
            vstd::arithmetic::div_mod::lemma_multiply_divide_lt(n, 2 * (out_w as int), src_w as int);
            vstd::arithmetic::div_mod::lemma_div_pos_is_pos(n, 2 * (out_w as int));
        }
        c as i64
    } else {
        proof {
            let n = (2 * (x as int) + 1) * (src_w as int) - (out_w as int);
            assert(1 - (out_w as int) <= n <= -1);
            vstd::arithmetic::mul::lemma_mul_is_commutative(-1, 2 * (out_w as int));
            vstd::arithmetic::div_mod::lemma_fundamental_div_mod_converse(
                n,
                2 * (out_w as int),
                -1,
                n + 2 * (out_w as int),
            );
        }
        -1
    }
}

} // verus!
