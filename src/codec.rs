use crate::raster::{resample, resampled, RasterImage, Resolution};
use vstd::prelude::*;

verus! {

#[verifier::external_type_specification]
#[verifier::external_body]
pub struct ExImageError(image::ImageError);

/// What decoding `bytes` as a PNG file and converting it to 8-bit RGB gives:
/// the width, the height and the row-major channel bytes, or `None` when the
/// bytes are not a PNG image that can be decoded.
pub uninterp spec fn png_decoded(bytes: Seq<u8>) -> Option<(u32, u32, Seq<u8>)>;

/// The PNG file, with the default compression and filter settings, that holds
/// the RGB raster `data` of the given size, or `None` when it cannot be encoded.
pub uninterp spec fn png_encoded(width: u32, height: u32, data: Seq<u8>) -> Option<Seq<u8>>;

/// Relies on `image::load_from_memory_with_format` with the PNG format, then
/// `DynamicImage::to_rgb8` and `ImageBuffer::into_raw`: the decoded raster
/// (alpha dropped) depends on the bytes alone.
#[verifier::external_body]
fn decode_png(bytes: &[u8]) -> (r: Result<(u32, u32, Vec<u8>), image::ImageError>)
    ensures
        match r {
            Ok((w, h, d)) => png_decoded(bytes@) == Some((w, h, d@)),
            Err(_) => png_decoded(bytes@) is None,
        },
{
    match image::load_from_memory_with_format(bytes, image::ImageFormat::Png) {
        Ok(decoded) => {
            let rgb = decoded.to_rgb8();
            let (w, h) = rgb.dimensions();
            Ok((w, h, rgb.into_raw()))
        },
        Err(e) => Err(e),
    }
}

/// Relies on `PngEncoder::write_image` (default settings, 8-bit RGB) writing
/// into a `Vec`: the file depends on the raster alone. It panics when the
/// buffer is not three bytes per pixel, which `requires` rules out.
#[verifier::external_body]
fn encode_png(width: u32, height: u32, data: &[u8]) -> (r: Result<Vec<u8>, image::ImageError>)
    requires
        data@.len() == width as int * height as int * 3,
    ensures
        match r {
            Ok(v) => png_encoded(width, height, data@) == Some(v@),
            Err(_) => png_encoded(width, height, data@) is None,
        },
{
    let mut out: Vec<u8> = Vec::new();
    let encoder = image::codecs::png::PngEncoder::new(&mut out);
    match image::ImageEncoder::write_image(encoder, data, width, height, image::ExtendedColorType::Rgb8) {
        Ok(()) => Ok(out),
        Err(e) => Err(e),
    }
}

/// Why one frame could not be turned into an output file.
#[derive(Clone, Copy, Debug, PartialEq, Eq, Structural)]
pub enum FrameError {
    /// The input is not a PNG image holding a non-empty raster.
    Decode,
    /// The resized raster could not be encoded.
    Encode,
}

/// The raster held by a PNG file, when it decodes to a non-empty raster
/// with three bytes per pixel.
pub open spec fn decoded_raster(bytes: Seq<u8>) -> Option<(u32, u32, Seq<u8>)> {
    match png_decoded(bytes) {
        Some((w, h, d)) => if w > 0 && h > 0 && d.len() == w as int * h as int * 3 {
            Some((w, h, d))
        } else {
            None
        },
        None => None,
    }
}

/// The output file for one input frame at size `tw` by `th`.
pub open spec fn frame_result(bytes: Seq<u8>, tw: u32, th: u32) -> Result<Seq<u8>, FrameError> {
    match decoded_raster(bytes) {
        Some((w, h, d)) => {
            let img = crate::raster::Raster { width: w as int, height: h as int, data: d };
            match png_encoded(tw, th, resampled(img, tw as int, th as int)) {
                Some(out) => Ok(out),
                None => Err(FrameError::Encode),
            }
        },
        None => Err(FrameError::Decode),
    }
}

/// Decodes a PNG file into an RGB raster.
pub fn decode_frame(bytes: &[u8]) -> (r: Result<RasterImage, FrameError>)
    ensures
        match decoded_raster(bytes@) {
            Some((w, h, d)) => r matches Ok(img) && img.wf() && img.width == w && img.height == h
                && img.data@ == d,
            None => r == Err::<RasterImage, FrameError>(FrameError::Decode),
        },
{
    match decode_png(bytes) {
        Ok((w, h, d)) => match RasterImage::from_raw(w, h, d) {
            Some(img) => Ok(img),
            None => Err(FrameError::Decode),
        },
        Err(_) => Err(FrameError::Decode),
    }
}

/// Encodes an RGB raster as a PNG file.
pub fn encode_frame(img: &RasterImage) -> (r: Result<Vec<u8>, FrameError>)
    requires
        img.wf(),
    ensures
        match png_encoded(img.width, img.height, img.data@) {
            Some(out) => r matches Ok(v) && v@ == out,
            None => r == Err::<Vec<u8>, FrameError>(FrameError::Encode),
        },
{
    match encode_png(img.width, img.height, img.data.as_slice()) {
        Ok(v) => Ok(v),
        Err(_) => Err(FrameError::Encode),
    }
}

/// Turns the bytes of one PNG frame into the bytes of that frame resized to
/// `target` by bilinear resampling.
pub fn process_frame(bytes: &[u8], target: Resolution) -> (r: Result<Vec<u8>, FrameError>)
    requires
        target.valid(),
        target.width as int * target.height as int * 3 <= usize::MAX,
    ensures
        match frame_result(bytes@, target.width, target.height) {
            Ok(out) => r matches Ok(v) && v@ == out,
            Err(e) => r matches Err(e2) && e2 == e,
        },
{
    let img = decode_frame(bytes)?;
    let resized = resample(&img, target);
    encode_frame(&resized)
}

} // verus!
