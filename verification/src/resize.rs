//! Image resizing for upload: decode, scale, and compress to a byte
//! budget.  The pixel work happens in the image crate behind trusted
//! wrappers; the search for the best JPEG quality that fits the budget is
//! verified here, over the named encoding of the raw pixel buffer.

use vstd::prelude::*;

verus! {

/// The image crate's decoded image, carried opaquely.
#[verifier::external_type_specification]
#[verifier::external_body]
pub struct ExDynamicImage(image::DynamicImage);

/// What resizing asks for.
#[derive(Clone, Debug)]
pub struct ResizeOptions {
    pub width: u32,
    pub height: u32,
    /// The byte budget of the encoded result.
    pub max_size: usize,
    /// `"inside"` fits within the box, `"cover"` fills it.
    pub mode: String,
    pub verbose: bool,
}

/// What resizing produced.
#[derive(Clone, Debug)]
pub struct ResizeResult {
    pub buffer: Vec<u8>,
}

/// What resizing can fail with.
#[derive(Clone, Copy, Debug, PartialEq, Eq, Structural)]
pub enum ResizeError {
    /// The input bytes did not decode as an image.
    Decode,
    /// The JPEG encoder refused the pixel data.
    Encode,
}

/// The JPEG encoding of an RGB8 pixel buffer at a quality setting.  The
/// encoding depends on the pixels, the dimensions and the quality alone.
pub uninterp spec fn jpeg_of(pixels: Seq<u8>, width: u32, height: u32, quality: u8) -> Seq<u8>;

/// Relies on image's `load_from_memory`: decodes the bytes as an image in
/// any supported format, or fails on bytes that are none.
#[verifier::external_body]
fn load_image(input: &[u8]) -> (r: Option<image::DynamicImage>) {
    image::load_from_memory(input).ok()
}

/// Relies on image's `DynamicImage::resize`: scales to fit inside the box,
/// keeping the aspect ratio.
#[verifier::external_body]
fn resize_inside(img: &image::DynamicImage, width: u32, height: u32) -> (r: image::DynamicImage) {
    img.resize(width, height, image::imageops::FilterType::Triangle)
}

/// Relies on image's `DynamicImage::resize_to_fill`: scales and crops to
/// fill the box exactly.
#[verifier::external_body]
fn resize_to_fill(img: &image::DynamicImage, width: u32, height: u32) -> (r: image::DynamicImage) {
    img.resize_to_fill(width, height, image::imageops::FilterType::Triangle)
}

/// Relies on image's `DynamicImage::to_rgb8` and `ImageBuffer::into_raw`:
/// the RGB8 pixel buffer and its dimensions; an image buffer's raw
/// container holds exactly `width * height * 3` bytes.
#[verifier::external_body]
fn image_to_rgb8(img: &image::DynamicImage) -> (r: (Vec<u8>, u32, u32))
    ensures
        r.0@.len() == 3 * (r.1 as int) * (r.2 as int),
{
    let rgb = img.to_rgb8();
    let (w, h) = (rgb.width(), rgb.height());
    (rgb.into_raw(), w, h)
}

/// Relies on image's `JpegEncoder::new_with_quality` and `encode`: the
/// JPEG bytes of the pixel buffer at the given quality, a function of its
/// arguments alone; dimensions the format refuses yield nothing.  The
/// buffer length must match the dimensions, which is what the encoder
/// demands of its caller.
#[verifier::external_body]
fn encode_jpeg_rgb8(pixels: &Vec<u8>, width: u32, height: u32, quality: u8) -> (r: Option<Vec<u8>>)
    requires
        pixels@.len() == 3 * (width as int) * (height as int),
    ensures
        match r {
            Some(b) => b@ == jpeg_of(pixels@, width, height, quality),
            None => true,
        },
{
    let mut buffer = Vec::new();
    let mut cursor = std::io::Cursor::new(&mut buffer);
    let mut encoder = image::codecs::jpeg::JpegEncoder::new_with_quality(&mut cursor, quality);
    match encoder.encode(pixels.as_slice(), width, height, image::ExtendedColorType::Rgb8) {
        Ok(()) => Some(buffer),
        Err(_) => None,
    }
}

/// Compress an RGB8 pixel buffer to fit a byte budget: a binary search
/// over the JPEG quality range keeps the best encoding that fits; when
/// nothing fit, the lowest quality is taken whatever its size, as a last
/// resort.  The result is always a JPEG encoding of exactly these pixels.
pub fn compress_to_fit(pixels: &Vec<u8>, width: u32, height: u32, max_size: usize) -> (r: Result<
    ResizeResult,
    ResizeError,
>)
    requires
        pixels@.len() == 3 * (width as int) * (height as int),
    ensures
        match r {
            Ok(res) => exists|q: u8|
                1 <= q <= 100 && res.buffer@ == jpeg_of(pixels@, width, height, q) && (
                res.buffer@.len() <= max_size || q == 1),
            Err(e) => e == ResizeError::Encode,
        },
{
    let mut min_quality: u8 = 1;
    let mut max_quality: u8 = 100;
    let mut best: Option<Vec<u8>> = None;
    while max_quality > min_quality + 1
        invariant
            pixels@.len() == 3 * (width as int) * (height as int),
            1 <= min_quality < max_quality <= 100,
            match best {
                Some(b) => exists|q: u8|
                    1 <= q <= 100 && b@ == jpeg_of(pixels@, width, height, q) && b@.len()
                        <= max_size,
                None => min_quality == 1,
            },
        decreases max_quality - min_quality,
    {
        let quality = min_quality + (max_quality - min_quality) / 2;
        let buffer = match encode_jpeg_rgb8(pixels, width, height, quality) {
            Some(b) => b,
            None => {
                return Err(ResizeError::Encode);
            },
        };
        if buffer.len() <= max_size {
            min_quality = quality;
            proof {
                let ghost q0 = quality;
                assert(1 <= q0 <= 100 && buffer@ == jpeg_of(pixels@, width, height, q0)
                    && buffer@.len() <= max_size);
            }
            best = Some(buffer);
        } else {
            max_quality = quality;
        }
    }
    match best {
        Some(b) => Ok(ResizeResult { buffer: b }),
        None => {
            match encode_jpeg_rgb8(pixels, width, height, 1) {
                Some(b) => {
                    proof {
                        assert(b@ == jpeg_of(pixels@, width, height, 1u8));
                    }
                    Ok(ResizeResult { buffer: b })
                },
                None => Err(ResizeError::Encode),
            }
        },
    }
}

/// Resize image bytes to fit the requested box and compress the result
/// under the byte budget: decode, scale by the mode (`"cover"` fills,
/// anything else fits inside), then search for the best fitting JPEG
/// quality.  The result is a JPEG encoding of the scaled image's pixels
/// that fits the budget unless even the lowest quality exceeds it.
pub fn do_resize(input: &[u8], opts: ResizeOptions) -> (r: Result<ResizeResult, ResizeError>)
    ensures
        match r {
            Ok(res) => exists|px: Seq<u8>, w: u32, h: u32, q: u8|
                {
                    &&& px.len() == 3 * (w as int) * (h as int)
                    &&& 1 <= q <= 100
                    &&& res.buffer@ == jpeg_of(px, w, h, q)
                    &&& (res.buffer@.len() <= opts.max_size || q == 1)
                },
            Err(e) => e == ResizeError::Decode || e == ResizeError::Encode,
        },
{
    let img = match load_image(input) {
        Some(img) => img,
        None => {
            return Err(ResizeError::Decode);
        },
    };
    let resized = if crate::text::str_eq(opts.mode.as_str(), "cover") {
        resize_to_fill(&img, opts.width, opts.height)
    } else {
        resize_inside(&img, opts.width, opts.height)
    };
    let rgb = image_to_rgb8(&resized);
    let pixels = rgb.0;
    let result = compress_to_fit(&pixels, rgb.1, rgb.2, opts.max_size);
    proof {
        if result is Ok {
            let res = result->Ok_0;
            let q = choose|q: u8|
                1 <= q <= 100 && res.buffer@ == jpeg_of(pixels@, rgb.1, rgb.2, q) && (
                res.buffer@.len() <= opts.max_size || q == 1);
            assert({
                &&& pixels@.len() == 3 * (rgb.1 as int) * (rgb.2 as int)
                &&& 1 <= q <= 100
                &&& res.buffer@ == jpeg_of(pixels@, rgb.1, rgb.2, q)
                &&& (res.buffer@.len() <= opts.max_size || q == 1)
            });
        }
    }
    result
}

} // verus!
