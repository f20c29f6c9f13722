//! Texture identities and per-texture sampler configuration.
//!
//! A `TextureID` is an identity key only: process-wide unique, assigned
//! monotonically by a `TextureIdAllocator`, with no meaning beyond
//! uniqueness.

use std::sync::Arc;

use vstd::prelude::*;

use crate::atlas::{AtlasFilter, AtlasWrap};
use crate::images::{clone_image_arc, ImageHandle};

verus! {

/// An opaque identity key for one texture.
#[derive(Clone, Copy, Debug, PartialEq, Eq, Structural, PartialOrd, Ord, Hash)]
pub struct TextureID(pub u32);

/// Sampler configuration derived once, at registration, from the atlas
/// page the texture was declared on; immutable afterwards.
#[derive(Clone, Copy, Debug, PartialEq, Eq, Structural)]
pub struct TextureConfig {
    pub mag_filter: AtlasFilter,
    pub min_filter: AtlasFilter,
    pub u_wrap: AtlasWrap,
    pub v_wrap: AtlasWrap,
}

/// Hands out texture identities, monotonically and without repetition.
pub struct TextureIdAllocator {
    next: u32,
}

impl TextureIdAllocator {
    /// The identity the allocator will hand out next.
    pub closed spec fn next_id(self) -> u32 {
        self.next
    }

    /// A fresh allocator, starting at identity 0.
    pub fn new() -> (r: TextureIdAllocator)
        ensures
            r.next_id() == 0,
    {
        TextureIdAllocator { next: 0 }
    }

    /// Hand out the next identity. Identities are strictly increasing, so
    /// no two calls ever return the same one.
    pub fn fresh(&mut self) -> (r: TextureID)
        requires
            old(self).next_id() < u32::MAX,
        ensures
            r.0 == old(self).next_id(),
            final (self).next_id() == old(self).next_id() + 1,
    {
        let id = self.next;
        self.next = self.next + 1;
        TextureID(id)
    }
}

/// A loaded texture: its identity, shared ownership of the decoded source
/// image, and its immutable sampler configuration.
pub struct Texture {
    id: TextureID,
    image: Arc<image::DynamicImage>,
    config: TextureConfig,
}

impl Texture {
    /// The texture's identity.
    pub closed spec fn spec_id(self) -> TextureID {
        self.id
    }

    /// The texture's shared source image.
    pub closed spec fn spec_image(self) -> Arc<image::DynamicImage> {
        self.image
    }

    /// The texture's sampler configuration.
    pub closed spec fn spec_config(self) -> TextureConfig {
        self.config
    }

    /// Wrap a decoded image with a fresh identity and the sampler
    /// configuration its atlas page declared.
    pub fn new(image: image::DynamicImage, config: TextureConfig, ids: &mut TextureIdAllocator)
        -> (r: Texture)
        requires
            old(ids).next_id() < u32::MAX,
        ensures
            r.spec_id().0 == old(ids).next_id(),
            final (ids).next_id() == old(ids).next_id() + 1,
            r.spec_config() == config,
    {
        Texture { id: ids.fresh(), image: Arc::new(image), config }
    }

    /// The texture's identity.
    pub fn id(&self) -> (r: TextureID)
        ensures
            r == self.spec_id(),
    {
        self.id
    }

    /// A new owning handle to the texture's source image.
    pub fn image(&self) -> (r: Arc<image::DynamicImage>)
        ensures
            r == self.spec_image(),
    {
        clone_image_arc(&self.image)
    }

    /// A non-owning handle on the texture's source image, for liveness
    /// tracking.
    pub(crate) fn watch_image(&self) -> ImageHandle {
        ImageHandle::watch(&self.image)
    }

    /// The texture's sampler configuration.
    pub fn config(&self) -> (r: &TextureConfig)
        ensures
            *r == self.spec_config(),
    {
        &self.config
    }
}

} // verus!
