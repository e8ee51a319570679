use screen_stream::errors::ConnectionError;
use screen_stream::frame::{encode_frame, rgba_to_rgb, validate_capture, RawFrame, JPEG_QUALITY};

fn checker_frame(width: u32, height: u32) -> RawFrame {
    let mut rgba = Vec::new();
    for y in 0..height {
        for x in 0..width {
            let on = (x + y) % 2 == 0;
            rgba.push(if on { 0xff } else { 0x00 });
            rgba.push(if on { 0x80 } else { 0x20 });
            rgba.push(if on { 0x00 } else { 0xff });
            rgba.push(0xff);
        }
    }
    RawFrame { width, height, rgba }
}

#[test]
fn rgb_drops_every_fourth_byte() {
    let rgba = [1u8, 2, 3, 4, 5, 6, 7, 8];
    assert_eq!(rgba_to_rgb(&rgba), vec![1, 2, 3, 5, 6, 7]);
}

#[test]
fn rgb_of_empty_is_empty() {
    let rgba: [u8; 0] = [];
    assert_eq!(rgba_to_rgb(&rgba), Vec::<u8>::new());
}

#[test]
fn encoded_frame_starts_with_jpeg_marker() {
    let raw = checker_frame(4, 2);
    let encoded = encode_frame(&raw, JPEG_QUALITY).expect("small frame encodes");
    assert!(encoded.data.len() >= 2);
    assert_eq!(encoded.data[0], 0xff);
    assert_eq!(encoded.data[1], 0xd8);
    assert_eq!(encoded.width, 4);
    assert_eq!(encoded.height, 2);
}

#[test]
fn encoded_frame_decodes_to_captured_dimensions() {
    let raw = checker_frame(16, 9);
    let encoded = encode_frame(&raw, JPEG_QUALITY).expect("frame encodes");
    let img = image::load_from_memory(&encoded.data).expect("valid jpeg");
    assert_eq!(img.width(), 16);
    assert_eq!(img.height(), 9);
}

#[test]
fn encoding_is_not_the_input_buffer() {
    let raw = checker_frame(8, 8);
    let rgb = rgba_to_rgb(&raw.rgba);
    let encoded = encode_frame(&raw, JPEG_QUALITY).expect("frame encodes");
    assert_ne!(encoded.data, rgb);
    assert_ne!(encoded.data, raw.rgba);
}

#[test]
fn zero_width_frame_fails_to_encode() {
    let raw = RawFrame { width: 0, height: 4, rgba: Vec::new() };
    let r = encode_frame(&raw, JPEG_QUALITY);
    assert!(matches!(r, Err(ConnectionError::EncodeFailed)));
}

#[test]
fn oversized_frame_fails_to_encode() {
    let raw = RawFrame { width: 65536, height: 1, rgba: vec![0u8; 4 * 65536] };
    let r = encode_frame(&raw, JPEG_QUALITY);
    assert!(matches!(r, Err(ConnectionError::EncodeFailed)));
}

#[test]
fn well_shaped_capture_is_accepted() {
    let raw = validate_capture(2, 2, vec![0u8; 16]).expect("well-shaped capture");
    assert_eq!(raw.width, 2);
    assert_eq!(raw.height, 2);
    assert_eq!(raw.rgba, vec![0u8; 16]);
}

#[test]
fn out_of_range_dimension_is_an_encode_failure() {
    let r = validate_capture(0, 2, vec![0u8; 16]);
    assert!(matches!(r, Err(ConnectionError::EncodeFailed)));
    let r = validate_capture(2, 65536, vec![0u8; 16]);
    assert!(matches!(r, Err(ConnectionError::EncodeFailed)));
}

#[test]
fn short_capture_buffer_is_a_capture_failure() {
    let r = validate_capture(2, 2, vec![0u8; 15]);
    assert!(matches!(r, Err(ConnectionError::CaptureFailed)));
    let r = validate_capture(2, 2, vec![0u8; 17]);
    assert!(matches!(r, Err(ConnectionError::CaptureFailed)));
}

#[test]
fn one_pixel_frame_encodes() {
    let raw = RawFrame { width: 1, height: 1, rgba: vec![10, 20, 30, 255] };
    let encoded = encode_frame(&raw, JPEG_QUALITY).expect("one pixel encodes");
    assert_eq!(encoded.data[0], 0xff);
    assert_eq!(encoded.data[1], 0xd8);
}
