use std::io::Cursor;

use mon3tr_widget::atlas::{AtlasFilter, AtlasWrap};
use mon3tr_widget::cache::TextureCache;
use mon3tr_widget::texload::{apply_alpha_mask, load_texture, TextureLoadError};
use mon3tr_widget::texture::{Texture, TextureConfig, TextureIdAllocator};

fn config() -> TextureConfig {
    TextureConfig {
        mag_filter: AtlasFilter::Linear,
        min_filter: AtlasFilter::Nearest,
        u_wrap: AtlasWrap::ClampToEdge,
        v_wrap: AtlasWrap::Repeat,
    }
}

fn png_bytes(pixels: &[u8], width: u32, height: u32) -> Vec<u8> {
    let img = image::RgbaImage::from_raw(width, height, pixels.to_vec()).unwrap();
    let mut out = Cursor::new(Vec::new());
    image::DynamicImage::ImageRgba8(img)
        .write_to(&mut out, image::ImageFormat::Png)
        .unwrap();
    out.into_inner()
}

#[test]
fn allocator_hands_out_unique_increasing_ids() {
    let mut ids = TextureIdAllocator::new();
    let a = ids.fresh();
    let b = ids.fresh();
    let c = ids.fresh();
    assert_ne!(a, b);
    assert_ne!(b, c);
    assert!(a < b && b < c);
}

#[test]
fn registration_is_idempotent_per_texture() {
    let mut ids = TextureIdAllocator::new();
    let image = image::DynamicImage::new_rgba8(2, 2);
    let texture = Texture::new(image, config(), &mut ids);
    let mut cache = TextureCache::new();
    assert!(!cache.contains(texture.id()));
    assert!(cache.register(&texture));
    assert!(cache.contains(texture.id()));
    assert!(!cache.register(&texture));
    assert!(cache.contains(texture.id()));
}

#[test]
fn should_evict_tracks_image_ownership() {
    // should_evict stays false while any owning handle to the image is
    // alive and turns true once the last one is dropped.
    let mut ids = TextureIdAllocator::new();
    let image = image::DynamicImage::new_rgba8(2, 2);
    let texture = Texture::new(image, config(), &mut ids);
    let id = texture.id();
    let mut cache = TextureCache::new();
    cache.register(&texture);
    assert_eq!(cache.should_evict(id), Some(false));

    let extra_handle = texture.image();
    drop(texture);
    assert_eq!(cache.should_evict(id), Some(false));

    drop(extra_handle);
    assert_eq!(cache.should_evict(id), Some(true));

    assert_eq!(cache.should_evict(mon3tr_widget::texture::TextureID(999)), None);
}

#[test]
fn apply_alpha_mask_replaces_alpha_with_mask_red() {
    let mut base = vec![
        1, 2, 3, 255, //
        4, 5, 6, 255, //
        7, 8, 9, 255,
    ];
    let mask = vec![
        100, 0, 0, 1, //
        150, 0, 0, 2,
    ];
    apply_alpha_mask(&mut base, &mask);
    // Two full pixel pairs exist; the third base pixel keeps its alpha.
    assert_eq!(base, vec![1, 2, 3, 100, 4, 5, 6, 150, 7, 8, 9, 255]);
}

#[test]
fn load_texture_decodes_and_sizes() {
    let pixels: Vec<u8> = (0..16).collect();
    let bytes = png_bytes(&pixels, 2, 2);
    let mut ids = TextureIdAllocator::new();
    let (texture, width, height) = load_texture(bytes, None, config(), &mut ids).unwrap();
    assert_eq!((width, height), (2, 2));
    assert_eq!(texture.id(), mon3tr_widget::texture::TextureID(0));
    let rgba = texture.image().to_rgba8();
    assert_eq!(rgba.into_raw(), pixels);
}

#[test]
fn load_texture_merges_alpha_mask() {
    let base_pixels: Vec<u8> = vec![
        10, 20, 30, 255, //
        40, 50, 60, 255, //
        70, 80, 90, 255, //
        11, 12, 13, 255,
    ];
    let mask_pixels: Vec<u8> = vec![
        1, 0, 0, 255, //
        2, 0, 0, 255, //
        3, 0, 0, 255, //
        4, 0, 0, 255,
    ];
    let base = png_bytes(&base_pixels, 2, 2);
    let mask = png_bytes(&mask_pixels, 2, 2);
    let mut ids = TextureIdAllocator::new();
    let (texture, _, _) = load_texture(base, Some(mask), config(), &mut ids).unwrap();
    let merged = texture.image().to_rgba8().into_raw();
    // Alpha bytes now carry the mask's red channel; colours are untouched.
    assert_eq!(
        merged,
        vec![10, 20, 30, 1, 40, 50, 60, 2, 70, 80, 90, 3, 11, 12, 13, 4],
    );
}

#[test]
fn undecodable_base_image_is_reported() {
    let mut ids = TextureIdAllocator::new();
    let result = load_texture(vec![1, 2, 3], None, config(), &mut ids);
    assert!(matches!(result, Err(TextureLoadError::BaseImage(_))));
    // No identity was consumed.
    assert_eq!(ids.fresh(), mon3tr_widget::texture::TextureID(0));
}

#[test]
fn undecodable_mask_image_is_reported() {
    let pixels: Vec<u8> = (0..16).collect();
    let base = png_bytes(&pixels, 2, 2);
    let mut ids = TextureIdAllocator::new();
    let result = load_texture(base, Some(vec![9, 9, 9]), config(), &mut ids);
    assert!(matches!(result, Err(TextureLoadError::MaskImage(_))));
}

#[test]
fn cache_keeps_the_registration_configuration() {
    let mut ids = TextureIdAllocator::new();
    let image = image::DynamicImage::new_rgba8(1, 1);
    let texture = Texture::new(image, config(), &mut ids);
    let mut cache = TextureCache::new();
    assert!(cache.entry_config(texture.id()).is_none());
    cache.register(&texture);
    assert_eq!(cache.entry_config(texture.id()), Some(&config()));
    // Re-registration changes nothing.
    cache.register(&texture);
    assert_eq!(cache.entry_config(texture.id()), Some(&config()));
}

#[test]
fn texture_keeps_its_configuration() {
    let mut ids = TextureIdAllocator::new();
    let image = image::DynamicImage::new_rgba8(1, 1);
    let texture = Texture::new(image, config(), &mut ids);
    assert_eq!(*texture.config(), config());
}
