use rust_image::CodecError;
use rust_image::ImageData;
use rust_image::LibImageFormat;
use rust_image::rust_decode_image;
use rust_image::rust_encode_image;
use rust_image::rust_resize_image;

/// A 4x4 RGBA8 gradient image.
fn gradient_4x4() -> ImageData {
    let mut data = Vec::new();
    for y in 0..4u8 {
        for x in 0..4u8 {
            data.push(x * 60);
            data.push(y * 60);
            data.push(128);
            data.push(255);
        }
    }
    ImageData { width: 4, height: 4, data }
}

#[test]
fn resize_dimension_invariant() {
    let out = rust_resize_image(gradient_4x4(), 2, 3).unwrap();
    assert_eq!(out.width, 2);
    assert_eq!(out.height, 3);
    assert_eq!(out.data.len(), 2 * 3 * 4);
}

#[test]
fn resize_upscale_dimension_invariant() {
    let out = rust_resize_image(gradient_4x4(), 9, 7).unwrap();
    assert_eq!(out.width, 9);
    assert_eq!(out.height, 7);
    assert_eq!(out.data.len(), 9 * 7 * 4);
}

#[test]
fn identity_resize_returns_input() {
    let source = gradient_4x4();
    let expected = source.data.clone();
    let out = rust_resize_image(source, 4, 4).unwrap();
    assert_eq!(out.width, 4);
    assert_eq!(out.height, 4);
    assert_eq!(out.data, expected);
}

#[test]
fn resize_rejects_zero_target() {
    let r = rust_resize_image(gradient_4x4(), 0, 3);
    assert!(matches!(r, Err(CodecError::InvalidDimensions)));
    let r = rust_resize_image(gradient_4x4(), 3, 0);
    assert!(matches!(r, Err(CodecError::InvalidDimensions)));
}

#[test]
fn resize_rejects_zero_source() {
    let empty = ImageData { width: 0, height: 4, data: Vec::new() };
    let r = rust_resize_image(empty, 2, 2);
    assert!(matches!(r, Err(CodecError::InvalidDimensions)));
}

#[test]
fn resize_rejects_wrong_length() {
    let bad = ImageData { width: 4, height: 4, data: vec![0; 10] };
    let r = rust_resize_image(bad, 2, 2);
    assert!(matches!(r, Err(CodecError::InvalidDimensions)));
}

#[test]
fn repeated_calls_release_cleanly() {
    for _ in 0..50 {
        let encoded = rust_encode_image(gradient_4x4(), LibImageFormat::PNG).unwrap();
        let decoded = rust_decode_image(
            ImageData { width: 0, height: 0, data: encoded.data },
            LibImageFormat::PNG,
        )
        .unwrap();
        let resized = rust_resize_image(
            ImageData { width: decoded.width, height: decoded.height, data: decoded.data },
            2,
            2,
        )
        .unwrap();
        assert_eq!(resized.data.len(), 16);
    }
}
