//! Tests of pixel-format normalization.

use face_tracking::models::{CameraFrame, ImageFormat, PluginError};
use face_tracking::pixel::{normalize, nv21_to_rgb, rgba_to_rgb, yuv420_to_rgb};

fn frame(data: Vec<u8>, width: u32, height: u32, format: ImageFormat) -> CameraFrame {
    CameraFrame {
        image_data: data,
        width,
        height,
        format,
        timestamp: 0,
        rotation: 0,
    }
}

#[test]
fn test_yuv420_conversion() {
    // A minimal gray 4x4 YUV420 frame: 16 luma bytes plus two
    // quarter-size chroma planes.
    let width = 4;
    let height = 4;
    let y_size = (width * height) as usize;
    let uv_size = y_size / 4;
    let yuv_data = vec![128u8; y_size + 2 * uv_size];

    let result = yuv420_to_rgb(&yuv_data, width, height);
    assert!(result.is_ok());

    let rgb_data = result.unwrap();
    assert_eq!(rgb_data.len(), (width * height * 3) as usize);
}

#[test]
fn rgb_exact_buffer_passes_through_unchanged() {
    // Every RGB frame whose buffer is exactly w*h*3 comes back as-is.
    let data: Vec<u8> = (0..2 * 2 * 3).map(|i| (i * 7 + 3) as u8).collect();
    let img = normalize(&frame(data.clone(), 2, 2, ImageFormat::RGB)).unwrap();
    assert_eq!(img.data, data);
    assert_eq!(img.width, 2);
    assert_eq!(img.height, 2);
}

#[test]
fn yuv420_gray_frame_normalizes_to_gray() {
    // All-128 luma and chroma decode to (128, 128, 128) everywhere,
    // for even dimensions.
    for (w, h) in [(2u32, 2u32), (4, 4), (6, 2)] {
        let len = (w * h + 2 * (w * h / 4)) as usize;
        let img = normalize(&frame(vec![128u8; len], w, h, ImageFormat::YUV420)).unwrap();
        assert_eq!(img.data.len(), (w * h * 3) as usize);
        assert!(img.data.iter().all(|&b| b == 128));
    }
}

#[test]
fn nv21_known_chroma_decodes_by_formula() {
    // A 4x4 NV21 frame; pixel (1, 0) reads luma index 1 and the VU pair
    // at offset 16.  With Y = 100, V = 180, U = 80 the documented
    // conversion gives, in thousandths:
    //   R = clamp(100000 + 1402 * 52) / 1000   = 172
    //   G = clamp(100000 - 344 * -48 - 714 * 52) / 1000 = 79
    //   B = clamp(100000 + 1772 * -48) / 1000  = 14
    let mut data = vec![128u8; 16 + 8];
    data[1] = 100; // luma of pixel (1, 0)
    data[16] = 180; // V for the top-left 2x2 block
    data[17] = 80; // U for the top-left 2x2 block

    let rgb = nv21_to_rgb(&data, 4, 4).unwrap();
    // Pixel (1, 0) is pixel index 1: bytes 3..6.
    assert_eq!(rgb[3], 172);
    assert_eq!(rgb[4], 79);
    assert_eq!(rgb[5], 14);
}

#[test]
fn rgba_drops_alpha_and_bgra_swaps_channels() {
    // One pixel: RGBA (10, 20, 30, 40) becomes RGB (10, 20, 30).
    let rgba = vec![10u8, 20, 30, 40];
    assert_eq!(rgba_to_rgb(&rgba, 1, 1).unwrap(), vec![10, 20, 30]);
    // The same bytes read as BGRA give RGB (30, 20, 10).
    let img = normalize(&frame(rgba, 1, 1, ImageFormat::BGRA)).unwrap();
    assert_eq!(img.data, vec![30, 20, 10]);
}

#[test]
fn undersized_buffers_are_validation_errors() {
    assert_eq!(
        normalize(&frame(vec![0u8; 11], 2, 2, ImageFormat::RGB)).unwrap_err(),
        PluginError::FrameValidationError
    );
    assert_eq!(
        normalize(&frame(vec![], 2, 2, ImageFormat::RGB)).unwrap_err(),
        PluginError::FrameValidationError
    );
    assert_eq!(
        normalize(&frame(vec![0u8; 12], 0, 2, ImageFormat::RGB)).unwrap_err(),
        PluginError::FrameValidationError
    );
}

#[test]
fn odd_yuv420_chroma_layout_is_a_conversion_error() {
    // A 5x5 YUV420 frame with the minimum declared size (37 bytes) ends
    // before the last chroma sample the index formula reaches.
    let len = (3 * 5 * 5) / 2; // 37
    let err = normalize(&frame(vec![128u8; len], 5, 5, ImageFormat::YUV420)).unwrap_err();
    assert_eq!(err, PluginError::ConversionError);
    // With enough extra chroma bytes the same dimensions convert fine.
    let ok = normalize(&frame(vec![128u8; 40], 5, 5, ImageFormat::YUV420));
    assert!(ok.is_ok());
}

#[test]
fn yuv420_clamps_saturated_channels() {
    // One pixel, maximal luma and chroma: R and B saturate at the byte
    // bounds.  Y = 255, U = 255 (u = 127), V = 255 (v = 127):
    //   R = clamp(255000 + 1402 * 127) / 1000 = 255
    //   G = clamp(255000 - 344 * 127 - 714 * 127) / 1000 = 120
    //   B = clamp(255000 + 1772 * 127) / 1000 = 255
    let data = vec![255u8, 255, 255];
    let rgb = yuv420_to_rgb(&data, 1, 1).unwrap();
    assert_eq!(rgb, vec![255, 120, 255]);
}
