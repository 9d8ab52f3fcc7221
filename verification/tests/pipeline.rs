use image_ops::codec::{decode, encode};
use image_ops::errors::{DecodeError, EncodeError, TransformError};
use image_ops::raster::Raster;
use image_ops::transform::{crop, resize_exact};
use image_ops::{crop_image, resize_image};

fn solid_raster(width: u32, height: u32, rgba: [u8; 4]) -> Raster {
    let mut pixels = Vec::new();
    for _ in 0..(width as usize * height as usize) {
        pixels.extend_from_slice(&rgba);
    }
    Raster { width, height, pixels }
}

fn pattern_raster(width: u32, height: u32) -> Raster {
    let mut pixels = Vec::new();
    for y in 0..height as usize {
        for x in 0..width as usize {
            for c in 0..4usize {
                pixels.push(((x * 7 + y * 13 + c * 3) % 256) as u8);
            }
        }
    }
    Raster { width, height, pixels }
}

fn sample(r: &Raster, x: u32, y: u32, c: u32) -> u8 {
    r.pixels[((y as usize * r.width as usize + x as usize) * 4) + c as usize]
}

#[test]
fn resize_dims_exact() {
    let src = pattern_raster(7, 5);
    let out = resize_exact(&src, 3, 9).unwrap();
    assert_eq!(out.width, 3);
    assert_eq!(out.height, 9);
    assert_eq!(out.pixels.len(), 3 * 9 * 4);
}

#[test]
fn resize_red_100_to_50_stays_red() {
    let src = solid_raster(100, 100, [255, 0, 0, 255]);
    let out = resize_exact(&src, 50, 50).unwrap();
    assert_eq!(out.width, 50);
    assert_eq!(out.height, 50);
    for y in 0..50 {
        for x in 0..50 {
            assert_eq!(sample(&out, x, y, 0), 255);
            assert_eq!(sample(&out, x, y, 1), 0);
            assert_eq!(sample(&out, x, y, 2), 0);
            assert_eq!(sample(&out, x, y, 3), 255);
        }
    }
}

#[test]
fn resize_zero_width_invalid() {
    let src = pattern_raster(4, 4);
    assert!(matches!(resize_exact(&src, 0, 10), Err(TransformError::InvalidParameter)));
    assert!(matches!(resize_exact(&src, 10, 0), Err(TransformError::InvalidParameter)));
}

#[test]
fn crop_subgrid_pixels() {
    let src = pattern_raster(100, 100);
    let out = crop(&src, 10, 10, 20, 20).unwrap();
    assert_eq!(out.width, 20);
    assert_eq!(out.height, 20);
    assert_eq!(out.pixels.len(), 20 * 20 * 4);
    for y in 0..20 {
        for x in 0..20 {
            for c in 0..4 {
                assert_eq!(sample(&out, x, y, c), sample(&src, 10 + x, 10 + y, c));
            }
        }
    }
}

#[test]
fn crop_out_of_bounds() {
    let src = pattern_raster(100, 100);
    assert!(matches!(crop(&src, 95, 95, 10, 10), Err(TransformError::OutOfBounds)));
    assert!(matches!(crop(&src, 0, 0, 101, 5), Err(TransformError::OutOfBounds)));
    assert!(matches!(crop(&src, 0, 0, 5, 101), Err(TransformError::OutOfBounds)));
    assert!(matches!(crop(&src, u32::MAX, 0, 2, 2), Err(TransformError::OutOfBounds)));
    assert!(matches!(crop(&src, 0, u32::MAX, 2, 2), Err(TransformError::OutOfBounds)));
}

#[test]
fn crop_zero_dimension_invalid() {
    let src = pattern_raster(8, 8);
    assert!(matches!(crop(&src, 0, 0, 0, 5), Err(TransformError::InvalidParameter)));
    assert!(matches!(crop(&src, 0, 0, 5, 0), Err(TransformError::InvalidParameter)));
}

#[test]
fn crop_full_frame_is_identity() {
    let src = pattern_raster(9, 4);
    let out = crop(&src, 0, 0, 9, 4).unwrap();
    assert_eq!(out.width, 9);
    assert_eq!(out.height, 4);
    assert_eq!(out.pixels, src.pixels);
}

#[test]
fn encode_decode_roundtrip() {
    let src = pattern_raster(3, 2);
    let bytes = encode(&src).unwrap();
    // A PNG stream, not the raw samples handed back.
    assert_eq!(&bytes[0..8], &[0x89, b'P', b'N', b'G', 0x0d, 0x0a, 0x1a, 0x0a]);
    let back = decode(&Some(bytes)).unwrap();
    assert_eq!(back.width, src.width);
    assert_eq!(back.height, src.height);
    assert_eq!(back.pixels, src.pixels);
}

#[test]
fn missing_file_not_found() {
    let resized = resize_image(None, 10, 10);
    assert_eq!(resized, Err("decode failed: file not found".to_string()));
    let cropped = crop_image(None, 0, 0, 1, 1);
    assert_eq!(cropped, Err("decode failed: file not found".to_string()));
}

#[test]
fn text_bytes_not_an_image() {
    let text = b"This is a plain text file, whatever its extension says.".to_vec();
    let unsupported = "decode failed: unsupported image format".to_string();
    let corrupt = "decode failed: corrupt image data".to_string();
    let resized = resize_image(Some(text.clone()), 10, 10);
    let msg = resized.expect_err("text must not decode to an image");
    assert!(msg == unsupported || msg == corrupt);
    let cropped = crop_image(Some(text), 0, 0, 1, 1);
    let msg = cropped.expect_err("text must not decode to an image");
    assert!(msg == unsupported || msg == corrupt);
}

#[test]
fn resize_image_pipeline_red() {
    let src = solid_raster(100, 100, [255, 0, 0, 255]);
    let png = encode(&src).unwrap();
    let out_png = resize_image(Some(png), 50, 50).unwrap();
    let out = decode(&Some(out_png)).unwrap();
    assert_eq!(out.width, 50);
    assert_eq!(out.height, 50);
    for y in 0..50 {
        for x in 0..50 {
            assert_eq!(sample(&out, x, y, 0), 255);
            assert_eq!(sample(&out, x, y, 1), 0);
            assert_eq!(sample(&out, x, y, 2), 0);
            assert_eq!(sample(&out, x, y, 3), 255);
        }
    }
}

#[test]
fn resize_image_zero_dimension_message() {
    let src = pattern_raster(6, 6);
    let png = encode(&src).unwrap();
    let out = resize_image(Some(png), 0, 10);
    assert_eq!(out, Err("transform failed: invalid parameter".to_string()));
}

#[test]
fn crop_image_pipeline_subgrid() {
    let src = pattern_raster(40, 30);
    let png = encode(&src).unwrap();
    let out_png = crop_image(Some(png), 10, 10, 20, 20).unwrap();
    let out = decode(&Some(out_png)).unwrap();
    assert_eq!(out.width, 20);
    assert_eq!(out.height, 20);
    for y in 0..20 {
        for x in 0..20 {
            for c in 0..4 {
                assert_eq!(sample(&out, x, y, c), sample(&src, 10 + x, 10 + y, c));
            }
        }
    }
}

#[test]
fn crop_image_out_of_bounds_message() {
    let src = pattern_raster(10, 10);
    let png = encode(&src).unwrap();
    let out = crop_image(Some(png), 5, 5, 10, 10);
    assert_eq!(out, Err("transform failed: crop rectangle out of bounds".to_string()));
}

#[test]
fn error_messages_name_stage_and_cause() {
    assert_eq!(DecodeError::NotFound.message(), "decode failed: file not found");
    assert_eq!(DecodeError::UnsupportedFormat.message(), "decode failed: unsupported image format");
    assert_eq!(DecodeError::Corrupt.message(), "decode failed: corrupt image data");
    assert_eq!(TransformError::InvalidParameter.message(), "transform failed: invalid parameter");
    assert_eq!(
        TransformError::OutOfBounds.message(),
        "transform failed: crop rectangle out of bounds"
    );
    assert_eq!(EncodeError::EncodingFailed.message(), "encode failed: could not serialize image");
}
