//! Retro-display rendering core: source-scale inference, orientation-aware
//! coordinate transforms, buffer geometry and quantization rules for the
//! CRT, monochrome LCD and subpixel LCD filters.

pub mod buffer;
pub mod crt;
pub mod gb;
pub mod gbc;
pub mod scaling;

use vstd::prelude::*;

verus! {

/// Maps a raw orientation value read from image metadata to a legal
/// orientation code: values outside 1..=8 (or a missing value) mean
/// "no transform".
pub fn normalize_orientation(raw: Option<u32>) -> (r: u32)
    ensures
        r == spec_normalize_orientation(raw),
        1 <= r <= 8,
{
    match raw {
        Some(v) => {
            if 1 <= v && v <= 8 {
                v
            } else {
                1
            }
        },
        None => 1,
    }
}

/// A raw orientation value outside 1..=8 falls back to 1 (identity).
pub open spec fn spec_normalize_orientation(raw: Option<u32>) -> u32 {
    match raw {
        Some(v) => if 1 <= v && v <= 8 { v } else { 1 },
        None => 1,
    }
}

} // verus!
