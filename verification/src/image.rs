//! Where an image's pixels come from, and how they are loaded.
use vstd::prelude::*;
use std::sync::Arc;
use image::{DynamicImage, ImageBuffer, Rgba};

verus! {

/// The source of an image's pixels.
#[derive(Debug, Clone)]
pub enum ImageSource {
    /// An encoded image file at this path.
    Path(String),
    /// An encoded image in memory.
    Bytes(Arc<Vec<u8>>),
    /// Raw RGBA8 pixels of the given width and height.
    Buffer(u32, u32, Arc<Vec<u8>>),
}

impl From<String> for ImageSource {
    fn from(path: String) -> (s: Self) {
        ImageSource::Path(path)
    }
}

impl vstd::std_specs::convert::FromSpecImpl<String> for ImageSource {
    open spec fn obeys_from_spec() -> bool {
        true
    }

    open spec fn from_spec(v: String) -> ImageSource {
        ImageSource::Path(v)
    }
}

impl From<Arc<Vec<u8>>> for ImageSource {
    fn from(bytes: Arc<Vec<u8>>) -> (s: Self) {
        ImageSource::Bytes(bytes)
    }
}

impl vstd::std_specs::convert::FromSpecImpl<Arc<Vec<u8>>> for ImageSource {
    open spec fn obeys_from_spec() -> bool {
        true
    }

    open spec fn from_spec(v: Arc<Vec<u8>>) -> ImageSource {
        ImageSource::Bytes(v)
    }
}

impl ImageSource {
    /// The image file at `path`.
    pub fn path(path: &str) -> (s: Self)
        ensures
            s matches ImageSource::Path(p) && p@ == path@,
    {
        ImageSource::Path(path.to_owned())
    }

    /// An encoded image held in `bytes`.
    pub fn from_bytes(bytes: Vec<u8>) -> (s: Self)
        ensures
            s matches ImageSource::Bytes(b) && b@ == bytes@,
    {
        ImageSource::Bytes(Arc::new(bytes))
    }
}

#[verifier::external_type_specification]
#[verifier::external_body]
pub struct ExImageError(image::ImageError);

/// An image as RGBA8 pixels, row by row.
#[derive(Debug, Clone, PartialEq, Eq)]
pub struct DecodedImage {
    pub width: u32,
    pub height: u32,
    pub rgba: Vec<u8>,
}

/// Why an image could not be loaded.
#[derive(Debug, Clone, Copy, PartialEq, Eq, Structural)]
pub enum ImageLoadError {
    /// The image file could not be read.
    Unreadable,
    /// The bytes are not an image in a supported format.
    Decode,
    /// A raw buffer holds fewer bytes than its width and height call for.
    InvalidBuffer,
}

/// What the `image` crate's built-in decoders make of `bytes`, as RGBA8:
/// the width, the height and the pixels; `None` where it fails.
pub uninterp spec fn spec_decode_rgba8(bytes: Seq<u8>) -> Option<(u32, u32, Seq<u8>)>;

/// `image::guess_format` (the format by the leading signature bytes), then
/// `image::load_from_memory_with_format` with that format, then
/// `DynamicImage::to_rgba8` and `ImageBuffer::into_raw`. Both calls use
/// only the crate's built-in formats and decoders, never the format or
/// decoding hooks a program may register, so the outcome is a function of
/// the bytes alone, named by `spec_decode_rgba8`.
#[verifier::external_body]
fn decode_rgba8(bytes: &Vec<u8>) -> (r: Result<DecodedImage, image::ImageError>)
    ensures
        r is Ok <==> spec_decode_rgba8(bytes@) is Some,
        r matches Ok(d) ==> spec_decode_rgba8(bytes@) == Some((d.width, d.height, d.rgba@)),
{
    match image::guess_format(bytes) {
        Ok(format) => match image::load_from_memory_with_format(bytes, format) {
            Ok(img) => {
                let rgba = img.to_rgba8();
                let (width, height) = rgba.dimensions();
                Ok(DecodedImage { width, height, rgba: rgba.into_raw() })
            },
            Err(e) => Err(e),
        },
        Err(e) => Err(e),
    }
}

/// The bytes an RGBA8 image `width` by `height` needs.
pub open spec fn rgba8_len(width: u32, height: u32) -> int {
    4 * width * height
}

/// Whether the byte count of an RGBA8 image `width` by `height` can be
/// computed in `usize` the way the `image` crate does it: 4 × width first,
/// then × height.
pub open spec fn rgba8_len_fits(width: u32, height: u32) -> bool {
    4 * width <= usize::MAX && rgba8_len(width, height) <= usize::MAX
}

/// `ImageBuffer::<Rgba<u8>, Vec<u8>>::from_raw` on a copy of `data`, then
/// `DynamicImage::to_rgba8` and `into_raw`. `from_raw` accepts the buffer
/// exactly when 4 × width and then 4 × width × height fit `usize` and
/// `data` holds at least that many bytes; it keeps the whole buffer, and `to_rgba8` of an RGBA8
/// image is a clone of it.
#[verifier::external_body]
fn rgba8_from_raw(width: u32, height: u32, data: &Vec<u8>) -> (r: Option<DecodedImage>)
    ensures
        r is Some <==> (rgba8_len_fits(width, height) && data@.len() >= rgba8_len(width, height)),
        r matches Some(d) ==> d.width == width && d.height == height && d.rgba@ == data@,
{
    match ImageBuffer::<Rgba<u8>, Vec<u8>>::from_raw(width, height, data.clone()) {
        Some(buffer) => {
            let rgba = DynamicImage::ImageRgba8(buffer).to_rgba8();
            let (w, h) = rgba.dimensions();
            Some(DecodedImage { width: w, height: h, rgba: rgba.into_raw() })
        },
        None => None,
    }
}

/// Decodes encoded image bytes; a failure is a decode error.
pub fn decode_image(bytes: &Vec<u8>) -> (r: Result<DecodedImage, ImageLoadError>)
    ensures
        r is Ok <==> spec_decode_rgba8(bytes@) is Some,
        r matches Ok(d) ==> spec_decode_rgba8(bytes@) == Some((d.width, d.height, d.rgba@)),
        r matches Err(e) ==> e == ImageLoadError::Decode,
{
    match decode_rgba8(bytes) {
        Ok(d) => Ok(d),
        Err(_) => Err(ImageLoadError::Decode),
    }
}

/// Loads the pixels of `source`. For a path, `file_bytes` holds what the
/// file read gave (`None` when it could not be read); it is not looked at
/// otherwise.
/// - `Path`: the decoded file, a decode error, or `Unreadable`;
/// - `Bytes`: the decoded bytes or a decode error;
/// - `Buffer(w, h, data)`: an image `w` by `h` of the pixels `data`, or
///   `InvalidBuffer` when 4·w or 4·w·h overflows `usize` or `data` is
///   shorter than 4·w·h.
pub fn load_image(source: &ImageSource, file_bytes: Option<Vec<u8>>) -> (r: Result<DecodedImage, ImageLoadError>)
    ensures
        match source {
            ImageSource::Path(_) => match file_bytes {
                None => r == Err::<DecodedImage, ImageLoadError>(ImageLoadError::Unreadable),
                Some(b) => (r is Ok <==> spec_decode_rgba8(b@) is Some)
                    && (r matches Ok(d) ==> spec_decode_rgba8(b@) == Some((d.width, d.height, d.rgba@)))
                    && (r matches Err(e) ==> e == ImageLoadError::Decode),
            },
            ImageSource::Bytes(b) => (r is Ok <==> spec_decode_rgba8(b@) is Some)
                && (r matches Ok(d) ==> spec_decode_rgba8(b@) == Some((d.width, d.height, d.rgba@)))
                && (r matches Err(e) ==> e == ImageLoadError::Decode),
            ImageSource::Buffer(w, h, data) => {
                &&& (r is Ok <==> (rgba8_len_fits(*w, *h) && data@.len() >= rgba8_len(*w, *h)))
                &&& (r matches Ok(d) ==> d.width == *w && d.height == *h && d.rgba@ == data@)
                &&& (r matches Err(e) ==> e == ImageLoadError::InvalidBuffer)
            },
        },
{
    match source {
        ImageSource::Path(_) => match file_bytes {
            None => Err(ImageLoadError::Unreadable),
            Some(b) => decode_image(&b),
        },
        ImageSource::Bytes(b) => decode_image(&**b),
        ImageSource::Buffer(w, h, data) => match rgba8_from_raw(*w, *h, &**data) {
            Some(d) => Ok(d),
            None => Err(ImageLoadError::InvalidBuffer),
        },
    }
}

} // verus!
