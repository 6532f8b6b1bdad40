//! Structure of the monochrome LCD filter: four-level luminance
//! quantization with its alpha table, the ordered-dither threshold matrix,
//! the fixed pixel-grid upsample with margins, and the custom-colour
//! parser.
//!
//! Luminance and threshold values are carried as fixed-point integers in
//! millionths of the nominal [0, 1] range; a value may lie outside that
//! range after edge enhancement, so positions are signed.

use vstd::prelude::*;

verus! {

/// Fixed upsample factor of the pixel grid.
pub const GB_SCALE: u32 = 5;

/// Margin around the native image, in native pixels.
pub const GB_NATIVE_MARGIN: u32 = 5;

/// Margin around the upscaled image, in output pixels.
pub const GB_MARGIN: u32 = GB_SCALE * GB_NATIVE_MARGIN;

/// Denominator of the quantization-level alpha table.
pub const GB_ALPHA_DEN: u32 = 300;

/// The quantization level of luminance `l` against the sorted thresholds:
/// the number of thresholds strictly below `l`.
pub open spec fn spec_quantize_level(l: int, t0: int, t1: int, t2: int) -> int {
    if l <= t0 {
        0
    } else if l <= t1 {
        1
    } else if l <= t2 {
        2
    } else {
        3
    }
}

/// Quantizes a luminance value to one of four levels.
pub fn quantize_level(l: i64, t0: i64, t1: i64, t2: i64) -> (level: u8)
    requires
        t0 <= t1 <= t2,
    ensures
        level == spec_quantize_level(l as int, t0 as int, t1 as int, t2 as int),
        level <= 3,
{
    if l <= t0 {
        0
    } else if l <= t1 {
        1
    } else if l <= t2 {
        2
    } else {
        3
    }
}

/// The output alpha of a quantization level, in three-hundredths:
/// darker input means more foreground ink, so the alpha falls from
/// full opacity to a faint seven percent as the level rises; inverting
/// reverses the table.
pub open spec fn spec_level_alpha_num(level: int, invert: bool) -> int {
    if invert {
        if level == 0 {
            21
        } else if level == 1 {
            100
        } else if level == 2 {
            200
        } else {
            300
        }
    } else {
        if level == 0 {
            300
        } else if level == 1 {
            200
        } else if level == 2 {
            100
        } else {
            21
        }
    }
}

/// The alpha numerator (over `GB_ALPHA_DEN`) for a quantization level.
pub fn level_alpha_num(level: u8, invert: bool) -> (num: u32)
    requires
        level <= 3,
    ensures
        num == spec_level_alpha_num(level as int, invert),
        num <= GB_ALPHA_DEN,
{
    if invert {
        if level == 0 {
            21
        } else if level == 1 {
            100
        } else if level == 2 {
            200
        } else {
            300
        }
    } else {
        if level == 0 {
            300
        } else if level == 1 {
            200
        } else if level == 2 {
            100
        } else {
            21
        }
    }
}

/// Quantization is monotonic: with the thresholds fixed and sorted, a
/// brighter input never selects a lower level. With `invert` the level's
/// alpha rises with the level, so brighter input never lowers the output
/// alpha; without it the table is reversed and brighter input never
/// raises the alpha.
pub proof fn lemma_quantize_monotonic(l1: int, l2: int, t0: int, t1: int, t2: int)
    requires
        t0 <= t1 <= t2,
        l1 <= l2,
    ensures
        spec_quantize_level(l1, t0, t1, t2) <= spec_quantize_level(l2, t0, t1, t2),
        spec_level_alpha_num(spec_quantize_level(l1, t0, t1, t2), true) <= spec_level_alpha_num(
            spec_quantize_level(l2, t0, t1, t2),
            true,
        ),
        spec_level_alpha_num(spec_quantize_level(l1, t0, t1, t2), false) >= spec_level_alpha_num(
            spec_quantize_level(l2, t0, t1, t2),
            false,
        ),
{
}

/// The 4x4 ordered-dither threshold matrix, in sixteenths: entry
/// `(x % 4, y % 4)` spreads the quantization error spatially.
pub open spec fn spec_bayer_threshold_16(x: int, y: int) -> int {
    let i = x % 4;
    let j = y % 4;
    if i == 0 {
        if j == 0 { 0 } else if j == 1 { 8 } else if j == 2 { 2 } else { 10 }
    } else if i == 1 {
        if j == 0 { 12 } else if j == 1 { 4 } else if j == 2 { 14 } else { 6 }
    } else if i == 2 {
        if j == 0 { 3 } else if j == 1 { 11 } else if j == 2 { 1 } else { 9 }
    } else {
        if j == 0 { 15 } else if j == 1 { 7 } else if j == 2 { 13 } else { 5 }
    }
}

/// Looks up the ordered-dither threshold for a pixel position, as a
/// numerator over sixteen.
pub fn bayer_threshold_16(x: u32, y: u32) -> (t: u8)
    ensures
        t == spec_bayer_threshold_16(x as int, y as int),
        t <= 15,
{
    let i = x % 4;
    let j = y % 4;
    if i == 0 {
        if j == 0 { 0 } else if j == 1 { 8 } else if j == 2 { 2 } else { 10 }
    } else if i == 1 {
        if j == 0 { 12 } else if j == 1 { 4 } else if j == 2 { 14 } else { 6 }
    } else if i == 2 {
        if j == 0 { 3 } else if j == 1 { 11 } else if j == 2 { 1 } else { 9 }
    } else {
        if j == 0 { 15 } else if j == 1 { 7 } else if j == 2 { 13 } else { 5 }
    }
}

/// The output size of the monochrome filter: the native image upscaled
/// by the fixed grid factor, plus the margin on every side.
pub fn gb_output_size(src_width: u32, src_height: u32) -> (r: (u32, u32))
    requires
        GB_SCALE * src_width + 2 * GB_MARGIN <= u32::MAX,
        GB_SCALE * src_height + 2 * GB_MARGIN <= u32::MAX,
    ensures
        r.0 == GB_SCALE * src_width + 2 * GB_MARGIN,
        r.1 == GB_SCALE * src_height + 2 * GB_MARGIN,
{
    (GB_SCALE * src_width + 2 * GB_MARGIN, GB_SCALE * src_height + 2 * GB_MARGIN)
}

/// The native pixel behind output position `(x, y)`, if any: the margin
/// frame and the one-pixel gap on the right and bottom edge of every
/// five-by-five block carry no ink (they render as zero alpha).
pub open spec fn spec_gb_grid_source(x: int, y: int, src_w: int, src_h: int) -> Option<(int, int)> {
    let xi = x - GB_MARGIN as int;
    let yi = y - GB_MARGIN as int;
    if xi < 0 || yi < 0 || xi >= GB_SCALE as int * src_w || yi >= GB_SCALE as int * src_h {
        None
    } else if xi % (GB_SCALE as int) >= 4 || yi % (GB_SCALE as int) >= 4 {
        None
    } else {
        Some((xi / (GB_SCALE as int), yi / (GB_SCALE as int)))
    }
}

/// Maps an output position of the monochrome filter to the native pixel
/// it displays, or to nothing over the margin and the grid gaps. A mapped
/// position always lands inside the native image.
pub fn gb_grid_source(x: u32, y: u32, src_width: u32, src_height: u32) -> (r: Option<(u32, u32)>)
    requires
        GB_SCALE * src_width <= u32::MAX,
        GB_SCALE * src_height <= u32::MAX,
    ensures
        ({
            let s = spec_gb_grid_source(x as int, y as int, src_width as int, src_height as int);
            match r {
                Some(c) => s == Some((c.0 as int, c.1 as int)) && c.0 < src_width && c.1
                    < src_height,
                None => s is None,
            }
        }),
{
    if x < GB_MARGIN || y < GB_MARGIN {
        return None;
    }
    let xi = x - GB_MARGIN;
    let yi = y - GB_MARGIN;
    if xi >= GB_SCALE * src_width || yi >= GB_SCALE * src_height {
        return None;
    }
    if xi % GB_SCALE >= 4 || yi % GB_SCALE >= 4 {
        return None;
    }
    let cx = xi / GB_SCALE;
    let cy = yi / GB_SCALE;
    proof {
        vstd::arithmetic::div_mod::lemma_multiply_divide_lt(
            xi as int,
            GB_SCALE as int,
            src_width as int,
        );
        vstd::arithmetic::div_mod::lemma_multiply_divide_lt(
            yi as int,
            GB_SCALE as int,
            src_height as int,
        );
        assert((GB_SCALE as int) * (src_width as int) == GB_SCALE as int * src_width as int);
    }
    Some((cx, cy))
}

/// The value of an ASCII hexadecimal digit.
pub open spec fn spec_hex_digit(c: u8) -> Option<int> {
    if 48 <= c <= 57 {
        Some(c - 48int)
    } else if 97 <= c <= 102 {
        Some(c - 87int)
    } else if 65 <= c <= 70 {
        Some(c - 55int)
    } else {
        None
    }
}

/// Parses one hexadecimal digit (both letter cases).
fn hex_digit(c: u8) -> (r: Option<u8>)
    ensures
        match r {
            Some(v) => spec_hex_digit(c) == Some(v as int) && v < 16,
            None => spec_hex_digit(c) is None,
        },
{
    if 48 <= c && c <= 57 {
        Some(c - 48)
    } else if 97 <= c && c <= 102 {
        Some(c - 87)
    } else if 65 <= c && c <= 70 {
        Some(c - 55)
    } else {
        None
    }
}

/// A custom display colour is well-formed when it is a hash sign
/// followed by six hexadecimal digits.
pub open spec fn spec_hex_color_ok(s: Seq<u8>) -> bool {
    &&& s.len() == 7
    &&& s[0] == 35
    &&& forall|i: int| 1 <= i < 7 ==> #[trigger] spec_hex_digit(s[i]) is Some
}

/// The channel value of the two digits at positions `i` and `i + 1`.
pub open spec fn spec_hex_byte(s: Seq<u8>, i: int) -> int
    recommends
        spec_hex_digit(s[i]) is Some,
        spec_hex_digit(s[i + 1]) is Some,
{
    16 * spec_hex_digit(s[i]).unwrap() + spec_hex_digit(s[i + 1]).unwrap()
}

/// Parses a `#RRGGBB` colour into its three channels. Returns nothing
/// exactly when the text is not a hash sign followed by six hexadecimal
/// digits.
pub fn parse_hex_color(s: &[u8]) -> (r: Option<(u8, u8, u8)>)
    ensures
        match r {
            Some(c) => spec_hex_color_ok(s@) && c.0 == spec_hex_byte(s@, 1) && c.1 == spec_hex_byte(
                s@,
                3,
            ) && c.2 == spec_hex_byte(s@, 5),
            None => !spec_hex_color_ok(s@),
        },
{
    if s.len() != 7 {
        return None;
    }
    if s[0] != 35 {
        return None;
    }
    let d1 = hex_digit(s[1]);
    let d2 = hex_digit(s[2]);
    let d3 = hex_digit(s[3]);
    let d4 = hex_digit(s[4]);
    let d5 = hex_digit(s[5]);
    let d6 = hex_digit(s[6]);
    match (d1, d2, d3, d4, d5, d6) {
        (Some(a), Some(b), Some(c), Some(d), Some(e), Some(f)) => {
            assert forall|i: int| 1 <= i < 7 implies #[trigger] spec_hex_digit(s@[i]) is Some by {
                if i == 1 || i == 2 || i == 3 || i == 4 || i == 5 || i == 6 {
                }
            }
            Some((16 * a + b, 16 * c + d, 16 * e + f))
        },
        _ => None,
    }
}

} // verus!
