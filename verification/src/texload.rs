//! Texture loading: decode an encoded image, optionally merge a separate
//! alpha-mask image into its alpha channel, and wrap the result as a
//! `Texture`.
//!
//! The mask merge is the verified heart of this module: byte for byte,
//! each pixel's alpha is replaced by the mask pixel's red channel, over
//! as many pixels as both images have.

use vstd::prelude::*;

use crate::images::{decode_image, rgba_pixels, rgba_to_image};
use crate::texture::{Texture, TextureConfig, TextureIdAllocator};

verus! {

/// Why a texture could not be loaded.
#[derive(Debug)]
pub enum TextureLoadError {
    /// The base image did not decode.
    BaseImage(image::ImageError),
    /// A mask image was given but did not decode.
    MaskImage(image::ImageError),
}

/// How many pixels the mask merge touches: as many as both byte buffers
/// fully hold.
pub open spec fn mask_pairs(base_len: int, mask_len: int) -> int {
    if base_len / 4 <= mask_len / 4 {
        base_len / 4
    } else {
        mask_len / 4
    }
}

/// Replace the alpha channel of `base` (RGBA bytes, four per pixel) with
/// the red channel of `mask`, pixel by pixel, over as many pixels as both
/// buffers hold; every other byte stays as it was.
pub fn apply_alpha_mask(base: &mut Vec<u8>, mask: &Vec<u8>)
    ensures
        final (base)@.len() == old(base)@.len(),
        forall|j: int|
            0 <= j < old(base)@.len() && j % 4 == 3 && j / 4 < mask_pairs(
                old(base)@.len() as int,
                mask@.len() as int,
            ) ==> (#[trigger] final (base)@[j]) == mask@[j - 3],
        forall|j: int|
            0 <= j < old(base)@.len() && !(j % 4 == 3 && j / 4 < mask_pairs(
                old(base)@.len() as int,
                mask@.len() as int,
            )) ==> (#[trigger] final (base)@[j]) == old(base)@[j],
{
    let base_pixels = base.len() / 4;
    let mask_pixels = mask.len() / 4;
    let pairs = if base_pixels <= mask_pixels {
        base_pixels
    } else {
        mask_pixels
    };
    let mut i: usize = 0;
    while i < pairs
        invariant
            i <= pairs,
            pairs == mask_pairs(old(base)@.len() as int, mask@.len() as int),
            4 * pairs <= old(base)@.len(),
            4 * pairs <= mask@.len(),
            mask@.len() <= usize::MAX,
            old(base)@.len() <= usize::MAX,
            base@.len() == old(base)@.len(),
            forall|j: int|
                0 <= j < old(base)@.len() && j % 4 == 3 && j / 4 < i ==> (#[trigger] base@[j])
                    == mask@[j - 3],
            forall|j: int|
                0 <= j < old(base)@.len() && !(j % 4 == 3 && j / 4 < i) ==> (#[trigger] base@[j])
                    == old(base)@[j],
        decreases pairs - i,
    {
        let value = mask[4 * i];
        base.set(4 * i + 3, value);
        i = i + 1;
    }
}

/// Decode a texture's base image and, when a mask image is given, decode
/// it too and replace the base's alpha channel with the mask's red
/// channel. On success the result is wrapped with a fresh identity and
/// the given sampler configuration and returned with the base image's
/// pixel dimensions; a decode failure of either image is reported without
/// consuming an identity.
pub fn load_texture(
    data: Vec<u8>,
    mask: Option<Vec<u8>>,
    config: TextureConfig,
    ids: &mut TextureIdAllocator,
) -> (r: Result<(Texture, u32, u32), TextureLoadError>)
    requires
        old(ids).next_id() < u32::MAX,
    ensures
        match r {
            Ok(loaded) => {
                &&& loaded.0.spec_id().0 == old(ids).next_id()
                &&& final (ids).next_id() == old(ids).next_id() + 1
                &&& loaded.0.spec_config() == config
            },
            Err(_) => *final (ids) == *old(ids),
        },
{
    let base_img = match decode_image(&data) {
        Ok(img) => img,
        Err(e) => {
            return Err(TextureLoadError::BaseImage(e));
        },
    };
    let (img, width, height) = match mask {
        Some(mask_bytes) => {
            let mask_img = match decode_image(&mask_bytes) {
                Ok(img) => img,
                Err(e) => {
                    return Err(TextureLoadError::MaskImage(e));
                },
            };
            let (mut base_px, width, height) = rgba_pixels(&base_img);
            let (mask_px, _, _) = rgba_pixels(&mask_img);
            apply_alpha_mask(&mut base_px, &mask_px);
            let merged = rgba_to_image(base_px, width, height).unwrap();
            (merged, width, height)
        },
        None => {
            let (_, width, height) = rgba_pixels(&base_img);
            (base_img, width, height)
        },
    };
    Ok((Texture::new(img, config, ids), width, height))
}

} // verus!
