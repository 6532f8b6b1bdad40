//! Source-scale inference and scaled-buffer sizing.
//!
//! The inference compares the input's aspect ratio against a fixed,
//! priority-ordered list of known console families; each comparison uses a
//! small absolute tolerance. Scale factors are exact rationals (numerator
//! over denominator), so every comparison and every derived size is computed
//! without rounding.

use vstd::prelude::*;

verus! {

broadcast use vstd::string::group_string_axioms;

/// The console family inferred from the input's dimensions.
#[derive(Clone, Copy, PartialEq, Eq, Structural, Debug)]
pub enum SourceDevice {
    Gba,
    GbGbc,
    GbCamera,
    NesSnes,
    Nes,
    CrtPar224,
    CrtPar240,
    SnesAgg23,
    Unknown,
}

/// How an input image maps back to the native resolution of the device
/// that produced it. Both scale factors are exact rationals.
#[derive(Clone, Copy, PartialEq, Eq, Structural, Debug)]
pub struct ScaleInfo {
    pub scale_x_num: u32,
    pub scale_x_den: u32,
    pub scale_y_num: u32,
    pub scale_y_den: u32,
    pub respect_input_aspect_ratio: bool,
    pub detected: bool,
    pub bilinear_recommended: bool,
    pub device: SourceDevice,
}

impl ScaleInfo {
    /// Numerators and denominators are positive, so both factors are
    /// well-defined positive rationals.
    pub open spec fn wf(&self) -> bool {
        &&& self.scale_x_num >= 1
        &&& self.scale_x_den >= 1
        &&& self.scale_y_num >= 1
        &&& self.scale_y_den >= 1
    }
}

/// `|w/h - num/den| < 1/tol_den`, stated without division:
/// `tol_den * |w*den - h*num| < h*den`.
pub open spec fn aspect_close(w: int, h: int, num: int, den: int, tol_den: int) -> bool {
    let d = w * den - h * num;
    tol_den * (if d < 0 { -d } else { d }) < h * den
}

/// The console family for the given dimensions, in the fixed priority
/// order of the recognizer.
pub open spec fn spec_detect_device(w: int, h: int) -> SourceDevice {
    if aspect_close(w, h, 240, 160, 1000) {
        SourceDevice::Gba
    } else if aspect_close(w, h, 160, 144, 1000) {
        SourceDevice::GbGbc
    } else if aspect_close(w, h, 256, 224, 1000) || aspect_close(w, h, 256, 240, 100) {
        if w == 128 && h == 112 {
            SourceDevice::GbCamera
        } else {
            SourceDevice::NesSnes
        }
    } else if aspect_close(w, h, 252, 238, 1000) {
        SourceDevice::Nes
    } else if aspect_close(w, h, 240, 224, 1000) || aspect_close(w, h, 240, 238, 1000) {
        SourceDevice::Nes
    } else if aspect_close(w, h, 64, 49, 1000) || aspect_close(w, h, 8, 7, 1000) {
        SourceDevice::CrtPar224
    } else if aspect_close(w, h, 128, 105, 1000) || aspect_close(w, h, 16, 15, 1000) {
        SourceDevice::CrtPar240
    } else if w == 512 && (h == 240 || h == 224) {
        SourceDevice::SnesAgg23
    } else {
        SourceDevice::Unknown
    }
}

/// A uniform scale of `max(w, native) / native` against a family's native
/// width (never below one).
pub open spec fn spec_uniform_scale(w: u32, native: u32, device: SourceDevice) -> ScaleInfo {
    ScaleInfo {
        scale_x_num: if w >= native { w } else { native },
        scale_x_den: native,
        scale_y_num: if w >= native { w } else { native },
        scale_y_den: native,
        respect_input_aspect_ratio: false,
        detected: true,
        bilinear_recommended: false,
        device,
    }
}

/// The full result of scale inference for the given dimensions and
/// fallback height.
pub open spec fn spec_detect_src_scale(w: u32, h: u32, fallback_height: u32) -> ScaleInfo {
    let wi = w as int;
    let hi = h as int;
    if aspect_close(wi, hi, 240, 160, 1000) {
        spec_uniform_scale(w, 240, SourceDevice::Gba)
    } else if aspect_close(wi, hi, 160, 144, 1000) {
        spec_uniform_scale(w, 160, SourceDevice::GbGbc)
    } else if aspect_close(wi, hi, 256, 224, 1000) || aspect_close(wi, hi, 256, 240, 100) {
        spec_uniform_scale(
            w,
            256,
            if w == 128 && h == 112 {
                SourceDevice::GbCamera
            } else {
                SourceDevice::NesSnes
            },
        )
    } else if aspect_close(wi, hi, 252, 238, 1000) {
        spec_uniform_scale(w, 252, SourceDevice::Nes)
    } else if aspect_close(wi, hi, 240, 224, 1000) || aspect_close(wi, hi, 240, 238, 1000) {
        spec_uniform_scale(w, 240, SourceDevice::Nes)
    } else if aspect_close(wi, hi, 64, 49, 1000) || aspect_close(wi, hi, 8, 7, 1000) {
        ScaleInfo {
            scale_x_num: w,
            scale_x_den: 256,
            scale_y_num: h,
            scale_y_den: 224,
            respect_input_aspect_ratio: true,
            detected: true,
            bilinear_recommended: false,
            device: SourceDevice::CrtPar224,
        }
    } else if aspect_close(wi, hi, 128, 105, 1000) || aspect_close(wi, hi, 16, 15, 1000) {
        ScaleInfo {
            scale_x_num: w,
            scale_x_den: 256,
            scale_y_num: h,
            scale_y_den: 240,
            respect_input_aspect_ratio: true,
            detected: true,
            bilinear_recommended: false,
            device: SourceDevice::CrtPar240,
        }
    } else if w == 512 && (h == 240 || h == 224) {
        ScaleInfo {
            scale_x_num: 2,
            scale_x_den: 1,
            scale_y_num: 1,
            scale_y_den: 1,
            respect_input_aspect_ratio: false,
            detected: true,
            bilinear_recommended: false,
            device: SourceDevice::SnesAgg23,
        }
    } else {
        ScaleInfo {
            scale_x_num: if h >= fallback_height { h } else { fallback_height },
            scale_x_den: fallback_height,
            scale_y_num: if h >= fallback_height { h } else { fallback_height },
            scale_y_den: fallback_height,
            respect_input_aspect_ratio: false,
            detected: false,
            bilinear_recommended: h > fallback_height,
            device: SourceDevice::Unknown,
        }
    }
}

/// Decides `aspect_close` exactly in integer arithmetic.
fn aspect_close_exec(w: u32, h: u32, num: u32, den: u32, tol_den: u32) -> (b: bool)
    ensures
        b == aspect_close(w as int, h as int, num as int, den as int, tol_den as int),
{
    proof {
        assert((w as int) * (den as int) <= u64::MAX && (h as int) * (num as int) <= u64::MAX)
            by (nonlinear_arith);
    }
    let wd: u128 = (w as u128) * (den as u128);
    let hn: u128 = (h as u128) * (num as u128);
    let d: u128 = if wd >= hn { wd - hn } else { hn - wd };
    proof {
        assert((tol_den as int) * (d as int) <= u128::MAX) by (nonlinear_arith)
            requires
                0 <= d <= u64::MAX,
                0 <= tol_den <= u32::MAX,
        ;
        assert((h as int) * (den as int) <= u128::MAX) by (nonlinear_arith);
    }
    (tol_den as u128) * d < (h as u128) * (den as u128)
}

/// Builds the uniform-scale result for a family with the given native
/// width.
fn uniform_scale(w: u32, native: u32, device: SourceDevice) -> (info: ScaleInfo)
    requires
        native >= 1,
    ensures
        info == spec_uniform_scale(w, native, device),
{
    let num: u32 = if w >= native { w } else { native };
    ScaleInfo {
        scale_x_num: num,
        scale_x_den: native,
        scale_y_num: num,
        scale_y_den: native,
        respect_input_aspect_ratio: false,
        detected: true,
        bilinear_recommended: false,
        device,
    }
}

/// Infers which console family produced an image of the given dimensions
/// and how far it was upscaled. The first matching family in the fixed
/// priority order wins; an unmatched image falls back to a scale derived
/// from the height alone, clamped to a minimum of one.
///
/// The result is total and deterministic: for every positive input the
/// scale factors are positive, and at least one whenever the family does
/// not respect the input's own pixel aspect ratio.
pub fn detect_src_scale(width: u32, height: u32, fallback_height: u32) -> (info: ScaleInfo)
    requires
        width >= 1,
        height >= 1,
        fallback_height >= 1,
    ensures
        info == spec_detect_src_scale(width, height, fallback_height),
        info.device == spec_detect_device(width as int, height as int),
        info.wf(),
        !info.respect_input_aspect_ratio ==> info.scale_x_num >= info.scale_x_den
            && info.scale_y_num >= info.scale_y_den,
{
    if aspect_close_exec(width, height, 240, 160, 1000) {
        uniform_scale(width, 240, SourceDevice::Gba)
    } else if aspect_close_exec(width, height, 160, 144, 1000) {
        uniform_scale(width, 160, SourceDevice::GbGbc)
    } else if aspect_close_exec(width, height, 256, 224, 1000)
        || aspect_close_exec(width, height, 256, 240, 100) {
        let device = if width == 128 && height == 112 {
            SourceDevice::GbCamera
        } else {
            SourceDevice::NesSnes
        };
        uniform_scale(width, 256, device)
    } else if aspect_close_exec(width, height, 252, 238, 1000) {
        uniform_scale(width, 252, SourceDevice::Nes)
    } else if aspect_close_exec(width, height, 240, 224, 1000)
        || aspect_close_exec(width, height, 240, 238, 1000) {
        uniform_scale(width, 240, SourceDevice::Nes)
    } else if aspect_close_exec(width, height, 64, 49, 1000)
        || aspect_close_exec(width, height, 8, 7, 1000) {
        ScaleInfo {
            scale_x_num: width,
            scale_x_den: 256,
            scale_y_num: height,
            scale_y_den: 224,
            respect_input_aspect_ratio: true,
            detected: true,
            bilinear_recommended: false,
            device: SourceDevice::CrtPar224,
        }
    } else if aspect_close_exec(width, height, 128, 105, 1000)
        || aspect_close_exec(width, height, 16, 15, 1000) {
        ScaleInfo {
            scale_x_num: width,
            scale_x_den: 256,
            scale_y_num: height,
            scale_y_den: 240,
            respect_input_aspect_ratio: true,
            detected: true,
            bilinear_recommended: false,
            device: SourceDevice::CrtPar240,
        }
    } else if width == 512 && (height == 240 || height == 224) {
        ScaleInfo {
            scale_x_num: 2,
            scale_x_den: 1,
            scale_y_num: 1,
            scale_y_den: 1,
            respect_input_aspect_ratio: false,
            detected: true,
            bilinear_recommended: false,
            device: SourceDevice::SnesAgg23,
        }
    } else {
        let num: u32 = if height >= fallback_height { height } else { fallback_height };
        ScaleInfo {
            scale_x_num: num,
            scale_x_den: fallback_height,
            scale_y_num: num,
            scale_y_den: fallback_height,
            respect_input_aspect_ratio: false,
            detected: false,
            bilinear_recommended: height > fallback_height,
            device: SourceDevice::Unknown,
        }
    }
}

/// The human-readable label of each recognized family.
pub open spec fn spec_device_name(device: SourceDevice) -> Seq<char> {
    match device {
        SourceDevice::Gba => "GBA"@,
        SourceDevice::GbGbc => "GB/GBC"@,
        SourceDevice::GbCamera => "GB Camera"@,
        SourceDevice::NesSnes => "NES/SNES"@,
        SourceDevice::Nes => "NES"@,
        SourceDevice::CrtPar224 => "CRT (224) - PAR (8:7)"@,
        SourceDevice::CrtPar240 => "CRT (240) - PAR (8:7)"@,
        SourceDevice::SnesAgg23 => "SNES (agg23)"@,
        SourceDevice::Unknown => "Unknown"@,
    }
}

impl SourceDevice {
    /// The family's human-readable label.
    pub fn name(&self) -> (r: String)
        ensures
            r@ == spec_device_name(*self),
    {
        match self {
            SourceDevice::Gba => "GBA".to_string(),
            SourceDevice::GbGbc => "GB/GBC".to_string(),
            SourceDevice::GbCamera => "GB Camera".to_string(),
            SourceDevice::NesSnes => "NES/SNES".to_string(),
            SourceDevice::Nes => "NES".to_string(),
            SourceDevice::CrtPar224 => "CRT (224) - PAR (8:7)".to_string(),
            SourceDevice::CrtPar240 => "CRT (240) - PAR (8:7)".to_string(),
            SourceDevice::SnesAgg23 => "SNES (agg23)".to_string(),
            SourceDevice::Unknown => "Unknown".to_string(),
        }
    }
}

/// The label chosen by scale inference for the given dimensions, using
/// the default fallback height for colour displays.
pub fn get_source_device_name(width: u32, height: u32) -> (r: String)
    requires
        width >= 1,
        height >= 1,
    ensures
        r@ == spec_device_name(spec_detect_device(width as int, height as int)),
{
    let info = detect_src_scale(width, height, 240);
    info.device.name()
}

/// Division that drops a fractional part within one percent of zero and
/// otherwise takes the ceiling. Keeps near-integral scale factors from
/// producing an off-by-one buffer size.
pub open spec fn spec_conservative_ceil(num: int, den: int) -> int
    recommends
        den >= 1,
{
    if 100 * (num % den) < den {
        num / den
    } else {
        num / den + 1
    }
}

/// Computes `spec_conservative_ceil` exactly.
pub fn conservative_ceil(num: u64, den: u64) -> (r: u64)
    requires
        den >= 1,
        num < u64::MAX,
    ensures
        r == spec_conservative_ceil(num as int, den as int),
{
    let q: u64 = num / den;
    let m: u64 = num % den;
    if 100 * (m as u128) < (den as u128) {
        q
    } else {
        q + 1
    }
}

/// The buffer size that holds an image of the given dimensions scaled
/// down by the inferred factors.
pub fn calculate_scaled_buffer_size(width: u32, height: u32, scale: &ScaleInfo) -> (r: (u32, u32))
    requires
        scale.wf(),
        spec_conservative_ceil(
            width as int * scale.scale_x_den as int,
            scale.scale_x_num as int,
        ) <= u32::MAX,
        spec_conservative_ceil(
            height as int * scale.scale_y_den as int,
            scale.scale_y_num as int,
        ) <= u32::MAX,
    ensures
        r.0 == spec_conservative_ceil(
            width as int * scale.scale_x_den as int,
            scale.scale_x_num as int,
        ),
        r.1 == spec_conservative_ceil(
            height as int * scale.scale_y_den as int,
            scale.scale_y_num as int,
        ),
{
    proof {
        assert((width as int) * (scale.scale_x_den as int) < u64::MAX
            && (height as int) * (scale.scale_y_den as int) < u64::MAX) by (nonlinear_arith);
    }
    let w: u64 = conservative_ceil((width as u64) * (scale.scale_x_den as u64), scale.scale_x_num as u64);
    let h: u64 = conservative_ceil((height as u64) * (scale.scale_y_den as u64), scale.scale_y_num as u64);
    (w as u32, h as u32)
}

/// The dimensions of the oriented image: orientation codes five to eight
/// are quarter-turns, which swap width and height.
pub open spec fn spec_exif_orientation_dimension(w: u32, h: u32, orientation: u32) -> (u32, u32) {
    if 5 <= orientation <= 8 {
        (h, w)
    } else {
        (w, h)
    }
}

/// The dimensions of an image after its orientation code is applied.
pub fn exif_orientation_dimension(width: u32, height: u32, orientation: u32) -> (r: (u32, u32))
    ensures
        r == spec_exif_orientation_dimension(width, height, orientation),
{
    match orientation {
        1 => (width, height),
        2 => (width, height),
        3 => (width, height),
        4 => (width, height),
        5 => (height, width),
        6 => (height, width),
        7 => (height, width),
        8 => (height, width),
        _ => (width, height),
    }
}

/// Maps a coordinate of the oriented image (dimensions `w` by `h`) back to
/// the stored image. Codes one to four keep the axes; five to eight swap
/// them; an unknown code is the identity.
pub open spec fn spec_exif_orientation_transform(
    w: int,
    h: int,
    orientation: int,
    x: int,
    y: int,
) -> (int, int) {
    if orientation == 1 {
        (x, y)
    } else if orientation == 2 {
        (w - x - 1, y)
    } else if orientation == 3 {
        (w - x - 1, h - y - 1)
    } else if orientation == 4 {
        (x, h - y - 1)
    } else if orientation == 5 {
        (y, x)
    } else if orientation == 6 {
        (y, w - x - 1)
    } else if orientation == 7 {
        (h - y - 1, w - x - 1)
    } else if orientation == 8 {
        (h - y - 1, x)
    } else {
        (x, y)
    }
}

/// Maps a coordinate of the oriented image back to the stored image.
/// The result stays inside the stored image: within `w` by `h` when the
/// axes are kept, within `h` by `w` when the orientation swaps them.
pub fn exif_orientation_transform_coordinate(
    width: u32,
    height: u32,
    orientation: u32,
    x: i32,
    y: i32,
) -> (r: (i32, i32))
    requires
        width <= i32::MAX,
        height <= i32::MAX,
        0 <= x < width,
        0 <= y < height,
    ensures
        (r.0 as int, r.1 as int) == spec_exif_orientation_transform(
            width as int,
            height as int,
            orientation as int,
            x as int,
            y as int,
        ),
        5 <= orientation <= 8 ==> 0 <= r.0 < height && 0 <= r.1 < width,
        !(5 <= orientation <= 8) ==> 0 <= r.0 < width && 0 <= r.1 < height,
{
    let w: i32 = width as i32;
    let h: i32 = height as i32;
    match orientation {
        1 => (x, y),
        2 => (w - x - 1, y),
        3 => (w - x - 1, h - y - 1),
        4 => (x, h - y - 1),
        5 => (y, x),
        6 => (y, w - x - 1),
        7 => (h - y - 1, w - x - 1),
        8 => (h - y - 1, x),
        _ => (x, y),
    }
}

/// Nearest-neighbour source column (or row) for destination position `x`:
/// the source sampled at the half-texel-offset centre of the destination
/// texel, `floor((x + 1/2) * src / dst)`.
pub open spec fn spec_nn_coord(x: int, src: int, dst: int) -> int {
    ((2 * x + 1) * src) / (2 * dst)
}

/// The nearest-neighbour coordinate lands inside the source.
pub proof fn lemma_nn_coord_bounds(x: int, src: int, dst: int)
    requires
        0 <= x < dst,
        1 <= src,
    ensures
        0 <= spec_nn_coord(x, src, dst) < src,
{
    assert(0 <= (2 * x + 1) * src && (2 * x + 1) * src < (2 * dst) * src) by (nonlinear_arith)
        requires
            0 <= x < dst,
            1 <= src,
    ;
    vstd::arithmetic::div_mod::lemma_multiply_divide_lt((2 * x + 1) * src, 2 * dst, src);
    vstd::arithmetic::div_mod::lemma_div_pos_is_pos((2 * x + 1) * src, 2 * dst);
}

/// The stored-image coordinate sampled for destination pixel `(x, y)`:
/// nearest-neighbour in the oriented image, then mapped through the
/// orientation transform.
pub open spec fn spec_nn_source_coord(
    src_w: int,
    src_h: int,
    o: int,
    dw: int,
    dh: int,
    x: int,
    y: int,
) -> (int, int) {
    let ow = if 5 <= o <= 8 { src_h } else { src_w };
    let oh = if 5 <= o <= 8 { src_w } else { src_h };
    spec_exif_orientation_transform(ow, oh, o, spec_nn_coord(x, ow, dw), spec_nn_coord(y, oh, dh))
}

/// Destination cell `p` (in row-major order) of `data` holds the four
/// channels of its nearest-neighbour source pixel.
pub open spec fn nn_cell_ok(
    data: Seq<u8>,
    src: crate::buffer::Rgba8Image,
    o: int,
    dw: int,
    dh: int,
    p: int,
) -> bool {
    let x = p % dw;
    let y = p / dw;
    let c = spec_nn_source_coord(src.width as int, src.height as int, o, dw, dh, x, y);
    &&& data[4 * p] == src.spec_channel(c.0, c.1, 0)
    &&& data[4 * p + 1] == src.spec_channel(c.0, c.1, 1)
    &&& data[4 * p + 2] == src.spec_channel(c.0, c.1, 2)
    &&& data[4 * p + 3] == src.spec_channel(c.0, c.1, 3)
}

/// The first `n` destination cells are filled correctly.
pub open spec fn nn_prefix_ok(
    data: Seq<u8>,
    src: crate::buffer::Rgba8Image,
    o: int,
    dw: int,
    dh: int,
    n: int,
) -> bool {
    forall|p: int| 0 <= p < n ==> #[trigger] nn_cell_ok(data, src, o, dw, dh, p)
}

/// Reconstructs an inferred native-resolution image from an upscaled
/// capture: every destination pixel is the source pixel at the
/// half-texel-offset centre of its footprint, read through the
/// orientation transform. No interpolation.
pub fn downsample_image_nearest_neighbour(
    src: &crate::buffer::Rgba8Image,
    scale: &ScaleInfo,
    exif_orientation: u32,
) -> (out: crate::buffer::Rgba8Image)
    requires
        src.wf(),
        1 <= src.width <= i32::MAX,
        1 <= src.height <= i32::MAX,
        scale.wf(),
        spec_conservative_ceil(
            spec_exif_orientation_dimension(src.width, src.height, exif_orientation).0 as int
                * scale.scale_x_den as int,
            scale.scale_x_num as int,
        ) <= u32::MAX,
        spec_conservative_ceil(
            spec_exif_orientation_dimension(src.width, src.height, exif_orientation).1 as int
                * scale.scale_y_den as int,
            scale.scale_y_num as int,
        ) <= u32::MAX,
    ensures
        out.wf(),
        out.width as int == spec_conservative_ceil(
            spec_exif_orientation_dimension(src.width, src.height, exif_orientation).0 as int
                * scale.scale_x_den as int,
            scale.scale_x_num as int,
        ),
        out.height as int == spec_conservative_ceil(
            spec_exif_orientation_dimension(src.width, src.height, exif_orientation).1 as int
                * scale.scale_y_den as int,
            scale.scale_y_num as int,
        ),
        forall|x: int, y: int|
            0 <= x < out.width && 0 <= y < out.height ==> out.spec_pixel(x, y) == {
                let c = spec_nn_source_coord(
                    src.width as int,
                    src.height as int,
                    exif_orientation as int,
                    out.width as int,
                    out.height as int,
                    x,
                    y,
                );
                src.spec_pixel(c.0, c.1)
            },
{
    let (ow, oh) = exif_orientation_dimension(src.width, src.height, exif_orientation);
    let (dw, dh) = calculate_scaled_buffer_size(ow, oh, scale);
    let o = exif_orientation;

    let mut data: Vec<u8> = Vec::new();
    let mut y: u32 = 0;
    while y < dh
        invariant
            src.wf(),
            1 <= src.width <= i32::MAX,
            1 <= src.height <= i32::MAX,
            (ow, oh) == spec_exif_orientation_dimension(src.width, src.height, o),
            y <= dh,
            data.len() == 4 * ((y as int) * (dw as int)),
            nn_prefix_ok(data@, *src, o as int, dw as int, dh as int, (y as int) * (dw as int)),
        decreases dh - y,
    {
        let mut x: u32 = 0;
        while x < dw
            invariant
                src.wf(),
                1 <= src.width <= i32::MAX,
                1 <= src.height <= i32::MAX,
                (ow, oh) == spec_exif_orientation_dimension(src.width, src.height, o),
                y < dh,
                x <= dw,
                data.len() == 4 * ((y as int) * (dw as int) + x as int),
                nn_prefix_ok(
                    data@,
                    *src,
                    o as int,
                    dw as int,
                    dh as int,
                    (y as int) * (dw as int) + x as int,
                ),
            decreases dw - x,
        {
            proof {
                lemma_nn_coord_bounds(x as int, ow as int, dw as int);
                lemma_nn_coord_bounds(y as int, oh as int, dh as int);
                assert((2 * (x as int) + 1) * (ow as int) <= u128::MAX && (2 * (y as int) + 1)
                    * (oh as int) <= u128::MAX) by (nonlinear_arith);
            }
            let sx: u128 = ((2 * (x as u128) + 1) * (ow as u128)) / (2 * (dw as u128));
            let sy: u128 = ((2 * (y as u128) + 1) * (oh as u128)) / (2 * (dh as u128));
            let (rx, ry) = exif_orientation_transform_coordinate(
                ow,
                oh,
                o,
                sx as i32,
                sy as i32,
            );
            let px = src.get_pixel(rx as u32, ry as u32);
            let ghost n = (y as int) * (dw as int) + x as int;
            let ghost pre = data@;
            data.push(px.0);
            data.push(px.1);
            data.push(px.2);
            data.push(px.3);
            proof {
                vstd::arithmetic::div_mod::lemma_fundamental_div_mod_converse(
                    n,
                    dw as int,
                    y as int,
                    x as int,
                );
                assert(nn_cell_ok(data@, *src, o as int, dw as int, dh as int, n));
                assert forall|p: int|
                    0 <= p < n + 1 implies #[trigger] nn_cell_ok(
                    data@,
                    *src,
                    o as int,
                    dw as int,
                    dh as int,
                    p,
                ) by {
                    if p < n {
                        assert(nn_cell_ok(pre, *src, o as int, dw as int, dh as int, p));
                        assert(data@[4 * p] == pre[4 * p]);
                        assert(data@[4 * p + 1] == pre[4 * p + 1]);
                        assert(data@[4 * p + 2] == pre[4 * p + 2]);
                        assert(data@[4 * p + 3] == pre[4 * p + 3]);
                    }
                }
            }
            x = x + 1;
        }
        proof {
            assert((y as int) * (dw as int) + dw as int == (y as int + 1) * (dw as int))
                by (nonlinear_arith);
        }
        y = y + 1;
    }
    proof {
        assert(4 * ((dh as int) * (dw as int)) == 4 * (dw as int) * (dh as int))
            by (nonlinear_arith);
    }
    let out = crate::buffer::Rgba8Image { width: dw, height: dh, data };
    proof {
        assert forall|x: int, y: int|
            0 <= x < out.width && 0 <= y < out.height implies out.spec_pixel(x, y) == {
            let c = spec_nn_source_coord(
                src.width as int,
                src.height as int,
                o as int,
                out.width as int,
                out.height as int,
                x,
                y,
            );
            src.spec_pixel(c.0, c.1)
        } by {
            let p = y * (dw as int) + x;
            crate::buffer::lemma_grid_index(dw as int, dh as int, x, y);
            vstd::arithmetic::div_mod::lemma_fundamental_div_mod_converse(p, dw as int, y, x);
            assert(nn_cell_ok(out.data@, *src, o as int, dw as int, dh as int, p));
        }
    }
    out
}

/// One step of the multi-pass bilinear minification schedule: halve
/// (rounding up) while the current width is more than twice the target,
/// otherwise go straight to the target size.
pub fn bilinear_pass_size(cur_w: u32, cur_h: u32, final_w: u32, final_h: u32) -> (r: (u32, u32))
    requires
        final_w >= 1,
    ensures
        cur_w > 2 * final_w ==> r.0 as int == spec_conservative_ceil(cur_w as int, 2) && r.1
            as int == spec_conservative_ceil(cur_h as int, 2),
        !(cur_w > 2 * final_w) ==> r == ((final_w, final_h)),
        cur_w > 2 * final_w ==> final_w <= r.0 < cur_w,
{
    if (cur_w as u64) > 2 * (final_w as u64) {
        let w = conservative_ceil(cur_w as u64, 2);
        let h = conservative_ceil(cur_h as u64, 2);
        (w as u32, h as u32)
    } else {
        (final_w, final_h)
    }
}

} // verus!
