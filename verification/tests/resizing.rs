//! Resize tests: quality search against the real JPEG encoder, and the
//! decode-scale-compress pipeline on a real image.

use aip::resize::{compress_to_fit, do_resize, ResizeError, ResizeOptions};

fn pixels(width: u32, height: u32) -> Vec<u8> {
    // a simple gradient so the encoder has something to work on
    let mut v = Vec::with_capacity((width * height * 3) as usize);
    for y in 0..height {
        for x in 0..width {
            v.push((x * 7 % 256) as u8);
            v.push((y * 11 % 256) as u8);
            v.push(((x + y) % 256) as u8);
        }
    }
    v
}

#[test]
fn compression_fits_the_budget_when_it_can() {
    let px = pixels(32, 32);
    let r = compress_to_fit(&px, 32, 32, 100_000).unwrap();
    assert!(!r.buffer.is_empty());
    assert!(r.buffer.len() <= 100_000);
    // a JPEG stream starts with the SOI marker
    assert_eq!(&r.buffer[0..2], &[0xFF, 0xD8]);
}

#[test]
fn compression_falls_back_to_lowest_quality() {
    let px = pixels(32, 32);
    // an impossible budget: the lowest quality is taken whatever its size
    let r = compress_to_fit(&px, 32, 32, 10).unwrap();
    assert!(r.buffer.len() > 10);
    assert_eq!(&r.buffer[0..2], &[0xFF, 0xD8]);
}

#[test]
fn resize_pipeline_decodes_scales_and_compresses() {
    // build a real JPEG input with the image crate
    let img = image::RgbImage::from_fn(64, 64, |x, y| image::Rgb([(x * 4) as u8, (y * 4) as u8, 0]));
    let mut input = Vec::new();
    img.write_to(&mut std::io::Cursor::new(&mut input), image::ImageFormat::Jpeg).unwrap();

    let r = do_resize(
        &input,
        ResizeOptions {
            width: 16,
            height: 16,
            max_size: 100_000,
            mode: "inside".to_string(),
            verbose: false,
        },
    )
    .unwrap();
    assert!(!r.buffer.is_empty());
    assert_eq!(&r.buffer[0..2], &[0xFF, 0xD8]);

    let c = do_resize(
        &input,
        ResizeOptions {
            width: 16,
            height: 16,
            max_size: 100_000,
            mode: "cover".to_string(),
            verbose: false,
        },
    )
    .unwrap();
    assert!(!c.buffer.is_empty());
}

#[test]
fn undecodable_input_is_a_decode_error() {
    let r = do_resize(
        b"not an image at all",
        ResizeOptions {
            width: 16,
            height: 16,
            max_size: 100_000,
            mode: "inside".to_string(),
            verbose: false,
        },
    );
    assert_eq!(r.unwrap_err(), ResizeError::Decode);
}
