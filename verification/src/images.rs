//! Trusted boundary to the `image` crate: decoding, access to RGBA pixel
//! data, and non-owning liveness handles on shared images.
//!
//! Everything here is a thin declaration or wrapper; the logic that works
//! on the pixel bytes is verified elsewhere.

use std::sync::{Arc, Weak};

use vstd::prelude::*;

verus! {

#[verifier::external_type_specification]
#[verifier::external_body]
pub struct ExDynamicImage(image::DynamicImage);

#[verifier::external_type_specification]
#[verifier::external_body]
pub struct ExImageError(image::ImageError);

/// Relies on image::load_from_memory: decodes an encoded image (format
/// guessed from its header) or reports why it cannot.
#[verifier::external_body]
pub(crate) fn decode_image(bytes: &Vec<u8>) -> Result<image::DynamicImage, image::ImageError> {
    image::load_from_memory(bytes)
}

/// Relies on image::DynamicImage::to_rgba8 and ImageBuffer::{dimensions,
/// into_raw}: the RGBA pixel bytes of an image with its width and height.
/// Every `ImageBuffer` holds at least four bytes per pixel of its
/// dimensions, and four times its width alone fits a `usize`: its
/// constructors check exactly that with checked multiplications.
#[verifier::external_body]
pub(crate) fn rgba_pixels(img: &image::DynamicImage) -> (r: (Vec<u8>, u32, u32))
    ensures
        4 * r.1 * r.2 <= r.0@.len(),
        4 * r.1 <= usize::MAX,
{
    let buffer = img.to_rgba8();
    let (width, height) = buffer.dimensions();
    (buffer.into_raw(), width, height)
}

/// Relies on image::ImageBuffer::from_raw: building an RGBA image from a
/// byte buffer succeeds whenever the buffer holds at least four bytes per
/// pixel and the checked size arithmetic (four times the width, then
/// times the height) stays within `usize`.
#[verifier::external_body]
pub(crate) fn rgba_to_image(bytes: Vec<u8>, width: u32, height: u32) -> (r: Option<
    image::DynamicImage,
>)
    requires
        4 * width <= usize::MAX,
        4 * width * height <= bytes@.len(),
    ensures
        r is Some,
{
    image::RgbaImage::from_raw(width, height, bytes).map(image::DynamicImage::ImageRgba8)
}

/// Relies on std::sync::Arc::clone: the clone is a handle to the same
/// image.
#[verifier::external_body]
pub(crate) fn clone_image_arc(img: &Arc<image::DynamicImage>) -> (r: Arc<image::DynamicImage>)
    ensures
        r == *img,
{
    Arc::clone(img)
}

/// A non-owning handle on a shared image, able to report whether any
/// owner is left. It neither keeps the image alive nor can read it.
#[verifier::external_body]
pub struct ImageHandle {
    handle: Weak<image::DynamicImage>,
}

impl ImageHandle {
    /// Relies on std::sync::Arc::downgrade: a non-owning handle on the
    /// image behind the given owning handle.
    #[verifier::external_body]
    pub(crate) fn watch(img: &Arc<image::DynamicImage>) -> ImageHandle {
        ImageHandle { handle: Arc::downgrade(img) }
    }

    /// Relies on std::sync::Weak::upgrade: reports true once no owning
    /// handle to the image is left, false while at least one remains.
    /// Which it is depends on the rest of the process, so nothing more
    /// can be promised of the result here.
    #[verifier::external_body]
    pub(crate) fn is_dead(&self) -> bool {
        self.handle.upgrade().is_none()
    }
}

} // verus!
