//! Decoding real image bytes against a frame.

use std::io::Cursor;

use image::{ImageFormat, RgbaImage};
use zss::decode::{decode, DecodeError};
use zss::geom::FrameSize;

/// An in-memory PNG of the given size.
fn png_bytes(width: u32, height: u32) -> Vec<u8> {
    let img = RgbaImage::from_fn(width, height, |x, y| {
        image::Rgba([(x % 256) as u8, (y % 256) as u8, 0, 255])
    });
    let mut bytes = Vec::new();
    img.write_to(&mut Cursor::new(&mut bytes), ImageFormat::Png)
        .expect("encoding a PNG in memory cannot fail");
    bytes
}

#[test]
fn a_fitting_image_keeps_its_size() {
    // 8x4 in an 4x4 frame: scrolls horizontally, already frame height
    let bytes = png_bytes(8, 4);
    let frame = FrameSize { width: 4, height: 4 };
    let img = decode(&bytes, frame).unwrap();
    assert_eq!((img.width, img.height), (8, 4));
    assert_eq!(img.pixels.len(), 4 * 8 * 4);
}

#[test]
fn an_oversized_image_shrinks_to_the_frame_on_the_non_scroll_axis() {
    // 64x16 in an 8x8 frame: horizontal scroll, height shrinks to 8,
    // width scales proportionally to 32
    let bytes = png_bytes(64, 16);
    let frame = FrameSize { width: 8, height: 8 };
    let img = decode(&bytes, frame).unwrap();
    assert_eq!((img.width, img.height), (32, 8));
    assert_eq!(img.pixels.len(), 4 * 32 * 8);
}

#[test]
fn decoding_twice_yields_identical_dimensions() {
    let bytes = png_bytes(50, 30);
    let frame = FrameSize { width: 16, height: 16 };
    let first = decode(&bytes, frame).unwrap();
    let second = decode(&bytes, frame).unwrap();
    assert_eq!(first.width, second.width);
    assert_eq!(first.height, second.height);
    assert_eq!(first.pixels.len(), second.pixels.len());
}

#[test]
fn format_is_sniffed_from_content() {
    // the same pixels as a BMP: still decoded, no file name in sight
    let img = RgbaImage::from_fn(6, 3, |_, _| image::Rgba([1, 2, 3, 255]));
    let mut bytes = Vec::new();
    img.write_to(&mut Cursor::new(&mut bytes), ImageFormat::Bmp)
        .unwrap();
    let frame = FrameSize { width: 6, height: 6 };
    let decoded = decode(&bytes, frame).unwrap();
    assert_eq!((decoded.width, decoded.height), (6, 3));
}

#[test]
fn flipping_puts_the_bottom_row_first() {
    // two rows: red on top, blue below; after the vertical flip the
    // first stored row is the blue one
    let img = RgbaImage::from_fn(1, 2, |_, y| {
        if y == 0 {
            image::Rgba([255, 0, 0, 255])
        } else {
            image::Rgba([0, 0, 255, 255])
        }
    });
    let mut bytes = Vec::new();
    img.write_to(&mut Cursor::new(&mut bytes), ImageFormat::Png)
        .unwrap();
    let frame = FrameSize { width: 1, height: 2 };
    let decoded = decode(&bytes, frame).unwrap();
    assert_eq!(&decoded.pixels[0..4], &[0, 0, 255, 255]);
    assert_eq!(&decoded.pixels[4..8], &[255, 0, 0, 255]);
}

#[test]
fn garbage_bytes_are_undecodable() {
    let frame = FrameSize { width: 16, height: 16 };
    let r = decode(b"not an image at all", frame);
    assert_eq!(r.unwrap_err(), DecodeError::Undecodable);
    let r = decode(b"", frame);
    assert_eq!(r.unwrap_err(), DecodeError::Undecodable);
}

#[test]
fn a_zero_dimension_image_is_rejected() {
    // a farbfeld header with zero width and height decodes to an empty
    // image, which the pipeline rejects rather than divides by
    let mut bytes: Vec<u8> = Vec::new();
    bytes.extend_from_slice(b"farbfeld");
    bytes.extend_from_slice(&0u32.to_be_bytes());
    bytes.extend_from_slice(&0u32.to_be_bytes());
    let frame = FrameSize { width: 16, height: 16 };
    assert_eq!(decode(&bytes, frame).unwrap_err(), DecodeError::ZeroDimension);
}
