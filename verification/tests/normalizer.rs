use image::{DynamicImage, GrayImage, ImageOutputFormat, Luma, Rgb, RgbImage, Rgba, RgbaImage};
use image_uploader::normalizer::{normalize, reencode, NormalizeError, WEBP_MAX_DIMENSION};
use std::io::Cursor;

fn encoded(image: &DynamicImage, format: ImageOutputFormat) -> Vec<u8> {
    let mut bytes = Vec::new();
    image.write_to(&mut Cursor::new(&mut bytes), format).unwrap();
    bytes
}

fn red_square() -> DynamicImage {
    DynamicImage::ImageRgb8(RgbImage::from_pixel(10, 10, Rgb([255, 0, 0])))
}

fn gradient() -> DynamicImage {
    DynamicImage::ImageRgba8(RgbaImage::from_fn(17, 9, |x, y| {
        Rgba([(x * 15) as u8, (y * 28) as u8, (x + y) as u8, 255 - (x * y) as u8])
    }))
}

#[test]
fn red_square_round_trips_pixel_for_pixel() {
    let source = red_square();
    let webp = normalize(&encoded(&source, ImageOutputFormat::Png)).unwrap();
    let back = image::load_from_memory(&webp).unwrap();
    assert_eq!((back.width(), back.height()), (10, 10));
    assert_eq!(back.to_rgb8(), source.to_rgb8());
    assert!(back.to_rgba8().pixels().all(|p| *p == Rgba([255, 0, 0, 255])));
}

#[test]
fn output_is_a_webp_container() {
    let png = encoded(&red_square(), ImageOutputFormat::Png);
    let webp = normalize(&png).unwrap();
    assert_ne!(webp, png);
    assert_eq!(&webp[0..4], b"RIFF");
    assert_eq!(&webp[8..12], b"WEBP");
    assert_eq!(image::guess_format(&webp).unwrap(), image::ImageFormat::WebP);
}

#[test]
fn alpha_and_colour_survive_the_round_trip() {
    let source = gradient();
    let webp = normalize(&encoded(&source, ImageOutputFormat::Png)).unwrap();
    let back = image::load_from_memory(&webp).unwrap();
    assert_eq!(back.to_rgba8(), source.to_rgba8());
}

#[test]
fn other_containers_are_accepted() {
    let source = red_square();
    for format in [ImageOutputFormat::Bmp, ImageOutputFormat::Gif, ImageOutputFormat::Tiff] {
        let webp = normalize(&encoded(&source, format)).unwrap();
        let back = image::load_from_memory(&webp).unwrap();
        assert_eq!(back.to_rgb8(), source.to_rgb8());
    }
}

#[test]
fn normalising_is_repeatable() {
    let png = encoded(&gradient(), ImageOutputFormat::Png);
    assert_eq!(normalize(&png), normalize(&png));
}

#[test]
fn normalised_output_normalises_again() {
    let first = normalize(&encoded(&gradient(), ImageOutputFormat::Png)).unwrap();
    let second = normalize(&first).unwrap();
    assert_eq!(
        image::load_from_memory(&second).unwrap().to_rgba8(),
        gradient().to_rgba8()
    );
}

#[test]
fn bytes_that_are_no_image_are_a_decode_error() {
    assert_eq!(normalize(b"this is not an image"), Err(NormalizeError::Decode));
    assert_eq!(normalize(&[]), Err(NormalizeError::Decode));
}

#[test]
fn a_truncated_image_is_a_decode_error() {
    let png = encoded(&gradient(), ImageOutputFormat::Png);
    assert_eq!(normalize(&png[..png.len() / 2]), Err(NormalizeError::Decode));
}

#[test]
fn a_grey_image_is_an_encode_error() {
    let grey = DynamicImage::ImageLuma8(GrayImage::from_pixel(4, 4, Luma([7])));
    assert_eq!(normalize(&encoded(&grey, ImageOutputFormat::Png)), Err(NormalizeError::Encode));
    assert_eq!(reencode(Ok(grey)), Err(NormalizeError::Encode));
}

#[test]
fn a_sixteen_bit_image_is_an_encode_error() {
    let deep = DynamicImage::ImageRgb16(image::ImageBuffer::from_pixel(3, 3, Rgb([1u16, 2, 3])));
    assert_eq!(reencode(Ok(deep)), Err(NormalizeError::Encode));
}

#[test]
fn reencode_passes_a_failed_decoding_on_as_decode_error() {
    let failure = image::load_from_memory(b"junk");
    assert!(failure.is_err());
    assert_eq!(reencode(failure), Err(NormalizeError::Decode));
}

#[test]
fn reencode_writes_a_decoded_image() {
    let webp = reencode(Ok(red_square())).unwrap();
    assert_eq!(image::load_from_memory(&webp).unwrap().to_rgb8(), red_square().to_rgb8());
}

#[test]
fn the_largest_side_is_accepted_and_one_more_refused() {
    assert_eq!(WEBP_MAX_DIMENSION, 16383);
    let widest = DynamicImage::ImageRgb8(RgbImage::from_pixel(16383, 1, Rgb([1, 2, 3])));
    let webp = reencode(Ok(widest)).unwrap();
    assert_eq!(image::load_from_memory(&webp).unwrap().width(), 16383);
    let too_wide = DynamicImage::ImageRgb8(RgbImage::new(16384, 1));
    assert_eq!(reencode(Ok(too_wide)), Err(NormalizeError::Encode));
    let too_tall = DynamicImage::ImageRgba8(RgbaImage::new(1, 16384));
    assert_eq!(reencode(Ok(too_tall)), Err(NormalizeError::Encode));
}

#[test]
fn an_empty_image_is_an_encode_error() {
    assert_eq!(reencode(Ok(DynamicImage::ImageRgb8(RgbImage::new(0, 0)))), Err(NormalizeError::Encode));
    assert_eq!(reencode(Ok(DynamicImage::ImageRgb8(RgbImage::new(5, 0)))), Err(NormalizeError::Encode));
}

#[test]
fn colour_under_full_transparency_is_cleared() {
    let clear = DynamicImage::ImageRgba8(RgbaImage::from_pixel(2, 2, Rgba([255, 0, 0, 0])));
    let webp = normalize(&encoded(&clear, ImageOutputFormat::Png)).unwrap();
    let back = image::load_from_memory(&webp).unwrap().to_rgba8();
    assert!(back.pixels().all(|p| *p == Rgba([0, 0, 0, 0])));
}
