use displayboy::buffer::Rgba8Image;
use displayboy::normalize_orientation;
use displayboy::scaling::{
    bilinear_pass_size, calculate_scaled_buffer_size, conservative_ceil, detect_src_scale,
    downsample_image_nearest_neighbour, exif_orientation_dimension,
    exif_orientation_transform_coordinate, get_source_device_name, ScaleInfo, SourceDevice,
};

fn uniform(num: u32, den: u32) -> ScaleInfo {
    ScaleInfo {
        scale_x_num: num,
        scale_x_den: den,
        scale_y_num: num,
        scale_y_den: den,
        respect_input_aspect_ratio: false,
        detected: true,
        bilinear_recommended: false,
        device: SourceDevice::Unknown,
    }
}

#[test]
fn detect_gba_native() {
    // a 240x160 input is the GBA family at native scale
    let info = detect_src_scale(240, 160, 144);
    assert_eq!(info.device, SourceDevice::Gba);
    assert_eq!(info.scale_x_num, 240);
    assert_eq!(info.scale_x_den, 240);
    assert_eq!(info.scale_y_num, 240);
    assert_eq!(info.scale_y_den, 240);
    assert!(!info.respect_input_aspect_ratio);
    assert!(info.detected);
    assert_eq!(info.device.name(), "GBA");
}

#[test]
fn detect_gba_upscaled() {
    let info = detect_src_scale(720, 480, 144);
    assert_eq!(info.device, SourceDevice::Gba);
    assert_eq!(info.scale_x_num, 720);
    assert_eq!(info.scale_x_den, 240);
}

#[test]
fn detect_gb_gbc() {
    let info = detect_src_scale(160, 144, 144);
    assert_eq!(info.device, SourceDevice::GbGbc);
    assert_eq!(info.scale_x_num, 160);
    assert_eq!(info.scale_x_den, 160);
    let info = detect_src_scale(320, 288, 144);
    assert_eq!(info.device, SourceDevice::GbGbc);
    assert_eq!(info.scale_x_num, 320);
    assert_eq!(info.scale_x_den, 160);
}

#[test]
fn detect_nes_snes() {
    let info = detect_src_scale(256, 224, 240);
    assert_eq!(info.device, SourceDevice::NesSnes);
    assert_eq!(info.scale_x_num, 256);
    assert_eq!(info.scale_x_den, 256);
    assert_eq!(info.device.name(), "NES/SNES");
}

#[test]
fn detect_gb_camera() {
    // 128x112 has the NES/SNES aspect ratio but is labeled as GB Camera
    let info = detect_src_scale(128, 112, 240);
    assert_eq!(info.device, SourceDevice::GbCamera);
    assert_eq!(info.scale_x_num, 256);
    assert_eq!(info.scale_x_den, 256);
    assert_eq!(get_source_device_name(128, 112), "GB Camera");
}

#[test]
fn detect_nes_raw() {
    // 240x238 falls in the second NES window
    let info = detect_src_scale(240, 238, 240);
    assert_eq!(info.device, SourceDevice::Nes);
    assert_eq!(info.scale_x_num, 240);
    assert_eq!(info.scale_x_den, 240);
}

#[test]
fn detect_crt_par_224() {
    // 448x343 is exactly 64:49, an upscaled CRT capture
    let info = detect_src_scale(448, 343, 240);
    assert_eq!(info.device, SourceDevice::CrtPar224);
    assert!(info.respect_input_aspect_ratio);
    assert_eq!(info.scale_x_num, 448);
    assert_eq!(info.scale_x_den, 256);
    assert_eq!(info.scale_y_num, 343);
    assert_eq!(info.scale_y_den, 224);
    assert_eq!(info.device.name(), "CRT (224) - PAR (8:7)");
}

#[test]
fn detect_crt_par_240() {
    // 640x525 is exactly 128:105
    let info = detect_src_scale(640, 525, 240);
    assert_eq!(info.device, SourceDevice::CrtPar240);
    assert!(info.respect_input_aspect_ratio);
    assert_eq!(info.scale_y_den, 240);
}

#[test]
fn detect_snes_agg23() {
    let info = detect_src_scale(512, 240, 240);
    assert_eq!(info.device, SourceDevice::SnesAgg23);
    assert_eq!(info.scale_x_num, 2);
    assert_eq!(info.scale_x_den, 1);
    assert_eq!(info.scale_y_num, 1);
    assert_eq!(info.scale_y_den, 1);
    let info = detect_src_scale(512, 224, 240);
    assert_eq!(info.device, SourceDevice::SnesAgg23);
}

#[test]
fn detect_unknown_fallback() {
    let info = detect_src_scale(100, 100, 50);
    assert_eq!(info.device, SourceDevice::Unknown);
    assert!(!info.detected);
    assert_eq!(info.scale_x_num, 100);
    assert_eq!(info.scale_x_den, 50);
    assert!(info.bilinear_recommended);
    assert_eq!(info.device.name(), "Unknown");
}

#[test]
fn detect_unknown_small_input_clamps_to_one() {
    // a capture smaller than the fallback height still gets scale 1
    let info = detect_src_scale(100, 100, 144);
    assert_eq!(info.device, SourceDevice::Unknown);
    assert_eq!(info.scale_x_num, 144);
    assert_eq!(info.scale_x_den, 144);
    assert!(!info.bilinear_recommended);
}

#[test]
fn detect_is_deterministic() {
    for (w, h) in [(240u32, 160u32), (123, 457), (512, 240), (1, 1)] {
        assert_eq!(detect_src_scale(w, h, 240), detect_src_scale(w, h, 240));
    }
}

#[test]
fn detect_scale_at_least_one_when_aspect_not_respected() {
    // scale factors never drop below one outside the aspect-respecting families
    for w in 1u32..200 {
        for h in 1u32..50 {
            let info = detect_src_scale(w, h, 144);
            assert!(info.scale_x_den >= 1 && info.scale_y_den >= 1);
            if !info.respect_input_aspect_ratio {
                assert!(info.scale_x_num >= info.scale_x_den);
                assert!(info.scale_y_num >= info.scale_y_den);
            } else {
                assert!(info.scale_x_num >= 1 && info.scale_y_num >= 1);
            }
        }
    }
}

#[test]
fn conservative_ceil_rounds_up() {
    assert_eq!(conservative_ceil(100, 3), 34);
    assert_eq!(conservative_ceil(300, 3), 100);
    assert_eq!(conservative_ceil(301, 3), 101);
}

#[test]
fn conservative_ceil_drops_tiny_fraction() {
    // a fractional part within one percent of zero is truncated
    assert_eq!(conservative_ceil(1_000_001, 1_000_000), 1);
    assert_eq!(conservative_ceil(201, 200), 1);
    assert_eq!(conservative_ceil(203, 200), 2);
}

#[test]
fn scaled_buffer_size_exact_and_fractional() {
    assert_eq!(calculate_scaled_buffer_size(100, 60, &uniform(2, 1)), (50, 30));
    // scale 3/2 shrinks 100 to ceil(66.67) = 67
    assert_eq!(calculate_scaled_buffer_size(100, 90, &uniform(3, 2)), (67, 60));
}

#[test]
fn orientation_dimension_swaps_quarter_turns() {
    for o in [1u32, 2, 3, 4] {
        assert_eq!(exif_orientation_dimension(4, 3, o), (4, 3));
    }
    for o in [5u32, 6, 7, 8] {
        assert_eq!(exif_orientation_dimension(4, 3, o), (3, 4));
    }
    assert_eq!(exif_orientation_dimension(4, 3, 0), (4, 3));
    assert_eq!(exif_orientation_dimension(4, 3, 99), (4, 3));
}

#[test]
fn orientation_transform_all_codes() {
    // oriented space is 4 wide, 3 high; the transform maps back to storage
    assert_eq!(exif_orientation_transform_coordinate(4, 3, 1, 1, 2), (1, 2));
    assert_eq!(exif_orientation_transform_coordinate(4, 3, 2, 1, 2), (2, 2));
    assert_eq!(exif_orientation_transform_coordinate(4, 3, 3, 1, 2), (2, 0));
    assert_eq!(exif_orientation_transform_coordinate(4, 3, 4, 1, 2), (1, 0));
    assert_eq!(exif_orientation_transform_coordinate(4, 3, 5, 1, 2), (2, 1));
    assert_eq!(exif_orientation_transform_coordinate(4, 3, 6, 1, 2), (2, 2));
    assert_eq!(exif_orientation_transform_coordinate(4, 3, 7, 1, 2), (0, 2));
    assert_eq!(exif_orientation_transform_coordinate(4, 3, 8, 1, 2), (0, 1));
}

#[test]
fn normalize_orientation_defaults() {
    assert_eq!(normalize_orientation(Some(5)), 5);
    assert_eq!(normalize_orientation(Some(1)), 1);
    assert_eq!(normalize_orientation(Some(8)), 8);
    assert_eq!(normalize_orientation(Some(0)), 1);
    assert_eq!(normalize_orientation(Some(9)), 1);
    assert_eq!(normalize_orientation(None), 1);
}

fn checkerboard(width: u32, height: u32) -> Rgba8Image {
    let mut data = Vec::new();
    for y in 0..height {
        for x in 0..width {
            data.push((10 * x + y) as u8);
            data.push((10 * x + y + 1) as u8);
            data.push((10 * x + y + 2) as u8);
            data.push(255);
        }
    }
    Rgba8Image::from_raw(width, height, data).unwrap()
}

#[test]
fn from_raw_checks_length() {
    assert!(Rgba8Image::from_raw(2, 2, vec![0u8; 16]).is_some());
    assert!(Rgba8Image::from_raw(2, 2, vec![0u8; 15]).is_none());
    assert!(Rgba8Image::from_raw(2, 2, vec![0u8; 17]).is_none());
}

#[test]
fn nearest_neighbour_halves_with_centre_samples() {
    // scaling a 4x4 down by two samples pixels (1,1), (3,1), (1,3), (3,3)
    let src = checkerboard(4, 4);
    let out = downsample_image_nearest_neighbour(&src, &uniform(2, 1), 1);
    assert_eq!(out.width, 2);
    assert_eq!(out.height, 2);
    assert_eq!(out.get_pixel(0, 0), src.get_pixel(1, 1));
    assert_eq!(out.get_pixel(1, 0), src.get_pixel(3, 1));
    assert_eq!(out.get_pixel(0, 1), src.get_pixel(1, 3));
    assert_eq!(out.get_pixel(1, 1), src.get_pixel(3, 3));
}

#[test]
fn nearest_neighbour_identity_scale_copies() {
    let src = checkerboard(3, 2);
    let out = downsample_image_nearest_neighbour(&src, &uniform(1, 1), 1);
    assert_eq!((out.width, out.height), (3, 2));
    for y in 0..2 {
        for x in 0..3 {
            assert_eq!(out.get_pixel(x, y), src.get_pixel(x, y));
        }
    }
}

#[test]
fn nearest_neighbour_applies_orientation() {
    // orientation 3 is a half turn
    let src = checkerboard(4, 4);
    let out = downsample_image_nearest_neighbour(&src, &uniform(2, 1), 3);
    assert_eq!((out.width, out.height), (2, 2));
    assert_eq!(out.get_pixel(0, 0), src.get_pixel(4 - 1 - 1, 4 - 1 - 1));
    assert_eq!(out.get_pixel(1, 1), src.get_pixel(4 - 3 - 1, 4 - 3 - 1));
}

#[test]
fn nearest_neighbour_quarter_turn_dimensions() {
    let src = checkerboard(4, 2);
    // orientation 6: oriented size is 2x4
    let out = downsample_image_nearest_neighbour(&src, &uniform(1, 1), 6);
    assert_eq!((out.width, out.height), (2, 4));
    // oriented (x, y) reads storage (y, width' - x - 1) with width' = 2
    assert_eq!(out.get_pixel(0, 3), src.get_pixel(3, 1));
    assert_eq!(out.get_pixel(1, 0), src.get_pixel(0, 0));
}

#[test]
fn nearest_neighbour_fractional_scale() {
    // scale 3/2 on a 3x3 source: destination 2x2, sampling columns 0 and 2
    let src = checkerboard(3, 3);
    let out = downsample_image_nearest_neighbour(&src, &uniform(3, 2), 1);
    assert_eq!((out.width, out.height), (2, 2));
    assert_eq!(out.get_pixel(0, 0), src.get_pixel(0, 0));
    assert_eq!(out.get_pixel(1, 0), src.get_pixel(2, 0));
    assert_eq!(out.get_pixel(1, 1), src.get_pixel(2, 2));
}

#[test]
fn bilinear_pass_sizes_halve_then_finish() {
    // far from the target: halve, rounding up
    assert_eq!(bilinear_pass_size(1000, 801, 100, 80), (500, 401));
    // within a factor of two: jump to the target
    assert_eq!(bilinear_pass_size(150, 120, 100, 80), (100, 80));
    assert_eq!(bilinear_pass_size(201, 160, 100, 80), (101, 80));
    assert_eq!(bilinear_pass_size(200, 160, 100, 80), (100, 80));
}
