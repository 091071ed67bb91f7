use vstd::prelude::*;

verus! {

/// A decoded image of the `image` crate. Nothing inside it is visible here.
#[verifier::external_type_specification]
#[verifier::external_body]
pub struct ExDynamicImage(image::DynamicImage);

/// The `image` crate's error. Nothing inside it is visible here.
#[verifier::external_type_specification]
#[verifier::external_body]
pub struct ExImageError(image::ImageError);

/// How the samples of a pixel are laid out.
pub enum PixelLayout {
    Luma8,
    LumaA8,
    Rgb8,
    Rgba8,
    Luma16,
    LumaA16,
    Rgb16,
    Rgba16,
    Rgb32F,
    Rgba32F,
}

/// An image as plain values: its size, its pixel layout and its samples row
/// by row, each sample as its bytes, the most significant first.
pub struct Raster {
    pub width: u32,
    pub height: u32,
    pub layout: PixelLayout,
    pub samples: Seq<u8>,
}

/// The largest width and height that the WebP format can hold.
pub const WEBP_MAX_DIMENSION: u32 = 16383;

/// What a decoded image holds: the size, the layout and the samples of the
/// buffer inside it.
pub uninterp spec fn pixels(image: image::DynamicImage) -> Raster;

/// What `image::load_from_memory` makes of a buffer: the image, or nothing
/// where the bytes are no image that it recognises.
pub uninterp spec fn decoded(bytes: Seq<u8>) -> Option<Raster>;

/// The bytes that libwebp's lossless encoder gives for an image.
pub uninterp spec fn lossless_webp(raster: Raster) -> Seq<u8>;

/// Why an image could not be normalised.
#[derive(Clone, Copy, Debug, PartialEq, Eq, Structural)]
pub enum NormalizeError {
    /// The bytes are not an image in a recognised container.
    Decode,
    /// The image cannot be written as WebP.
    Encode,
}

impl Raster {
    /// The WebP encoder takes the layout: 8-bit RGB, with or without alpha.
    pub open spec fn has_webp_layout(self) -> bool {
        self.layout is Rgb8 || self.layout is Rgba8
    }

    /// Neither side is empty or longer than the format allows.
    pub open spec fn has_webp_size(self) -> bool {
        1 <= self.width <= WEBP_MAX_DIMENSION && 1 <= self.height <= WEBP_MAX_DIMENSION
    }
}

/// `image::load_from_memory`: guesses the container from the bytes and
/// decodes them. Its outcome depends on the bytes alone.
#[verifier::external_body]
fn decode(data: &[u8]) -> (loaded: Result<image::DynamicImage, image::ImageError>)
    ensures
        match loaded {
            Ok(image) => decoded(data@) == Some(pixels(image)),
            Err(_) => decoded(data@) is None,
        },
{
    image::load_from_memory(data)
}

/// `image::DynamicImage::width`.
#[verifier::external_body]
fn width(image: &image::DynamicImage) -> (w: u32)
    ensures
        w == pixels(*image).width,
{
    image.width()
}

/// `image::DynamicImage::height`.
#[verifier::external_body]
fn height(image: &image::DynamicImage) -> (h: u32)
    ensures
        h == pixels(*image).height,
{
    image.height()
}

/// `webp::Encoder::from_image` followed by `webp::Encoder::encode_lossless`,
/// with the encoded bytes copied out. The first refuses every layout but
/// 8-bit RGB and RGBA. The second stops the program when libwebp fails,
/// which, memory permitting, it does only for a size outside the format's
/// limits: those sizes are left out. The bytes depend on the image alone.
#[verifier::external_body]
fn encode_lossless(image: &image::DynamicImage) -> (encoded: Option<Vec<u8>>)
    requires
        pixels(*image).has_webp_size(),
    ensures
        encoded is Some == pixels(*image).has_webp_layout(),
        encoded matches Some(bytes) ==> bytes@ == lossless_webp(pixels(*image)),
{
    match webp::Encoder::from_image(image) {
        Ok(encoder) => Some(encoder.encode_lossless().to_vec()),
        Err(_) => None,
    }
}

/// What normalising makes of a decoding attempt's outcome.
pub open spec fn reencoded(outcome: Option<Raster>) -> Result<Seq<u8>, NormalizeError> {
    match outcome {
        None => Err(NormalizeError::Decode),
        Some(raster) => if raster.has_webp_size() && raster.has_webp_layout() {
            Ok(lossless_webp(raster))
        } else {
            Err(NormalizeError::Encode)
        },
    }
}

/// The view of a normalising result.
pub open spec fn bytes_of(result: Result<Vec<u8>, NormalizeError>) -> Result<
    Seq<u8>,
    NormalizeError,
> {
    match result {
        Ok(bytes) => Ok(bytes@),
        Err(error) => Err(error),
    }
}

/// The plain form of a decoding attempt's outcome.
pub open spec fn raster_of(loaded: Result<image::DynamicImage, image::ImageError>) -> Option<
    Raster,
> {
    match loaded {
        Ok(image) => Some(pixels(image)),
        Err(_) => None,
    }
}

/// Writes a decoded image as lossless WebP. A failed decoding is a decode
/// error; an image whose layout or size WebP cannot hold is an encode error.
pub fn reencode(loaded: Result<image::DynamicImage, image::ImageError>) -> (result: Result<
    Vec<u8>,
    NormalizeError,
>)
    ensures
        bytes_of(result) == reencoded(raster_of(loaded)),
{
    match loaded {
        Err(_) => Err(NormalizeError::Decode),
        Ok(image) => {
            let w = width(&image);
            let h = height(&image);
            if w < 1 || w > WEBP_MAX_DIMENSION || h < 1 || h > WEBP_MAX_DIMENSION {
                return Err(NormalizeError::Encode);
            }
            match encode_lossless(&image) {
                Some(bytes) => Ok(bytes),
                None => Err(NormalizeError::Encode),
            }
        },
    }
}

/// Decodes an image in any recognised container and writes it as lossless
/// WebP. The result depends on the bytes alone.
pub fn normalize(data: &[u8]) -> (result: Result<Vec<u8>, NormalizeError>)
    ensures
        bytes_of(result) == reencoded(decoded(data@)),
{
    reencode(decode(data))
}

} // verus!
