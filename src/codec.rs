use vstd::prelude::*;

use crate::error::PipelineError;
use crate::overlay::{canvas_fits, drawable, overlaid, overlay, PixelRect};
use crate::raster::{rgb_len, Raster};

verus! {

#[verifier::external_type_specification]
#[verifier::external_body]
pub struct ExImageError(image::ImageError);

/// What the image crate decodes `bytes` into, as width, height and row-major
/// RGB samples; `None` where it cannot decode them.
pub uninterp spec fn decoded_rgb(bytes: Seq<u8>) -> Option<(u32, u32, Seq<u8>)>;

/// What the image crate's JPEG encoder writes for an RGB image of the given
/// size and samples; `None` where it refuses.
pub uninterp spec fn jpeg_of(width: u32, height: u32, rgb: Seq<u8>) -> Option<Seq<u8>>;

/// Relies on image::load_from_memory (format guessed from the bytes, then
/// decoded), DynamicImage::to_rgb8 and ImageBuffer::into_raw: the outcome is
/// a function of the bytes.
#[verifier::external_body]
fn decode_rgb(bytes: &[u8]) -> (r: Result<(u32, u32, Vec<u8>), image::ImageError>)
    ensures
        match r {
            Ok((w, h, px)) => decoded_rgb(bytes@) == Some((w, h, px@)),
            Err(_) => decoded_rgb(bytes@) is None,
        },
{
    let img = image::load_from_memory(bytes)?.to_rgb8();
    Ok((img.width(), img.height(), img.into_raw()))
}

/// Relies on image::codecs::jpeg::JpegEncoder::new (quality 75) and its
/// `encode` with `ExtendedColorType::Rgb8`, which asserts that the buffer holds
/// `3 * width * height` samples and refuses sides outside `1..=65535`.
#[verifier::external_body]
fn jpeg_encode(width: u32, height: u32, pixels: &[u8]) -> (r: Result<Vec<u8>, image::ImageError>)
    requires
        pixels@.len() == rgb_len(width, height),
    ensures
        match r {
            Ok(b) => jpeg_of(width, height, pixels@) == Some(b@),
            Err(_) => jpeg_of(width, height, pixels@) is None,
        },
        (width == 0 || height == 0 || width > 65535 || height > 65535) ==> r is Err,
{
    let mut out: Vec<u8> = Vec::new();
    image::codecs::jpeg::JpegEncoder::new(&mut out).encode(
        pixels,
        width,
        height,
        image::ExtendedColorType::Rgb8,
    )?;
    Ok(out)
}

/// Decodes an uploaded image into an RGB raster. Bytes that are no image the
/// decoder understands give `PipelineError::Decode`.
pub fn decode_image(bytes: &[u8]) -> (r: Result<Raster, PipelineError>)
    ensures
        r is Ok <==> (decoded_rgb(bytes@) matches Some((w, h, px)) && px.len() == rgb_len(w, h)),
        r matches Ok(img) ==> img.wf() && decoded_rgb(bytes@) == Some(
            (img.width, img.height, img.pixels@),
        ),
        r is Err ==> r == Err::<Raster, PipelineError>(PipelineError::Decode),
{
    match decode_rgb(bytes) {
        Ok((w, h, px)) => Raster::from_rgb(w, h, px),
        Err(_) => Err(PipelineError::Decode),
    }
}

/// Encodes a raster as JPEG. A refusal by the encoder gives
/// `PipelineError::Encode`; so does an image with an empty side or a side
/// over 65535 pixels.
pub fn encode_jpeg(img: &Raster) -> (r: Result<Vec<u8>, PipelineError>)
    requires
        img.wf(),
    ensures
        r is Ok <==> jpeg_of(img.width, img.height, img.pixels@) is Some,
        r matches Ok(b) ==> jpeg_of(img.width, img.height, img.pixels@) == Some(b@),
        r is Err ==> r == Err::<Vec<u8>, PipelineError>(PipelineError::Encode),
        (img.width == 0 || img.height == 0 || img.width > 65535 || img.height > 65535) ==> r is Err,
{
    match jpeg_encode(img.width, img.height, img.pixels.as_slice()) {
        Ok(b) => Ok(b),
        Err(_) => Err(PipelineError::Encode),
    }
}

/// The overlay response body: the image with the rectangles outlined, as JPEG.
pub fn render_and_encode(img: &Raster, rects: &Vec<PixelRect>) -> (r: Result<Vec<u8>, PipelineError>)
    requires
        img.wf(),
        canvas_fits(img.width, img.height) || forall|i: int|
            0 <= i < rects@.len() ==> !drawable(#[trigger] rects@[i]),
    ensures
        r is Ok <==> jpeg_of(img.width, img.height, overlaid(img.width, img.pixels@, rects@)) is Some,
        r matches Ok(b) ==> jpeg_of(img.width, img.height, overlaid(img.width, img.pixels@, rects@))
            == Some(b@),
        r is Err ==> r == Err::<Vec<u8>, PipelineError>(PipelineError::Encode),
{
    let out = overlay(img, rects);
    encode_jpeg(&out)
}

/// Two overlay responses for the same image and the same rectangles agree:
/// both succeed or both fail, and on success they are the same bytes.
pub proof fn overlay_response_is_deterministic(
    a: Raster,
    b: Raster,
    ra: Seq<PixelRect>,
    rb: Seq<PixelRect>,
)
    requires
        a.width == b.width,
        a.height == b.height,
        a.pixels@ == b.pixels@,
        ra == rb,
    ensures
        jpeg_of(a.width, a.height, overlaid(a.width, a.pixels@, ra)) == jpeg_of(
            b.width,
            b.height,
            overlaid(b.width, b.pixels@, rb),
        ),
{
}

} // verus!
