use image::ImageFormat;
use image::Rgba;
use image::RgbaImage;
use pugaipadam::image_data::DecodeError;
use pugaipadam::image_data::ImageRepresentation;
use std::io::Cursor;

fn png_bytes() -> Vec<u8> {
    let mut im = RgbaImage::new(2, 3);
    im.put_pixel(0, 0, Rgba([10, 20, 30, 255]));
    im.put_pixel(1, 2, Rgba([200, 100, 50, 25]));
    let mut out = Cursor::new(Vec::new());
    im.write_to(&mut out, ImageFormat::Png).expect("png encoding");
    out.into_inner()
}

#[test]
fn decoding_png_builds_representation() {
    let bytes = png_bytes();
    let img = ImageRepresentation::from_bytes("shots/tiny.png".to_string(), &bytes)
        .expect("valid png");
    assert_eq!(img.width, 2);
    assert_eq!(img.height, 3);
    assert_eq!(img.pixel_buffer.len(), 2 * 3 * 4);
    assert_eq!(&img.pixel_buffer[0..4], &[10, 20, 30, 255]);
    let last = (2 * 2 + 1) * 4;
    assert_eq!(&img.pixel_buffer[last..last + 4], &[200, 100, 50, 25]);
    assert_eq!(img.source_path, "shots/tiny.png");
    assert_eq!(img.display_name, "tiny.png");
}

#[test]
fn garbage_bytes_fail_decode() {
    let bytes = vec![1, 2, 3, 4];
    let r = ImageRepresentation::from_bytes("junk.png".to_string(), &bytes);
    assert_eq!(r.unwrap_err(), DecodeError::Undecodable);
}

#[test]
fn empty_bytes_fail_decode() {
    let bytes = Vec::new();
    let r = ImageRepresentation::from_bytes("empty.png".to_string(), &bytes);
    assert_eq!(r.unwrap_err(), DecodeError::Undecodable);
}

#[test]
fn zero_dimension_image_is_rejected() {
    let mut bytes = b"farbfeld".to_vec();
    bytes.extend_from_slice(&[0u8; 8]);
    let r = ImageRepresentation::from_bytes("zero.ff".to_string(), &bytes);
    assert_eq!(r.unwrap_err(), DecodeError::BadDimensions);
}
