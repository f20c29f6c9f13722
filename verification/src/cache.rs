//! The texture cache: one entry per texture identity, each owning the
//! GPU-facing record for that texture and watching the source image
//! without owning it.
//!
//! Registration is idempotent per identity. An entry should be evicted
//! exactly when no component holds an owning handle to its source image
//! any more; eviction scanning is a maintenance operation, not a
//! per-frame one.

use std::collections::HashMap;

use vstd::prelude::*;

use crate::images::ImageHandle;
use crate::texture::{Texture, TextureConfig, TextureID};

verus! {

broadcast use vstd::std_specs::hash::group_hash_axioms;

/// One cache entry: a non-owning handle on the source image and the
/// sampler configuration derived once at registration, immutable for the
/// entry's lifetime.
pub struct CacheEntry {
    image: ImageHandle,
    config: TextureConfig,
}

impl CacheEntry {
    /// The sampler configuration the entry was registered with.
    pub closed spec fn spec_config(self) -> TextureConfig {
        self.config
    }

    /// The entry's sampler configuration.
    pub fn config(&self) -> (r: &TextureConfig)
        ensures
            *r == self.spec_config(),
    {
        &self.config
    }

    /// Whether the entry's backing image is unreachable: true exactly
    /// when no component holds an owning handle to it any more. The
    /// answer depends on the rest of the process, so no more is promised
    /// here; the entry may then be dropped to release its resources.
    pub fn should_evict(&self) -> bool {
        self.image.is_dead()
    }
}

/// The texture cache, keyed by texture identity.
pub struct TextureCache {
    entries: HashMap<u32, CacheEntry>,
}

impl TextureCache {
    /// The identities the cache holds entries for.
    pub closed spec fn ids(self) -> Set<u32> {
        self.entries@.dom()
    }

    /// The sampler configuration stored for an identity the cache holds.
    pub closed spec fn config_at(self, id: u32) -> TextureConfig {
        self.entries@[id].config
    }

    /// An empty cache.
    pub fn new() -> (r: TextureCache)
        ensures
            r.ids() == Set::<u32>::empty(),
    {
        let r = TextureCache { entries: HashMap::new() };
        proof {
            assert(r.ids() =~= Set::<u32>::empty());
        }
        r
    }

    /// Whether the cache holds an entry for the given identity.
    pub fn contains(&self, id: TextureID) -> (r: bool)
        ensures
            r == self.ids().contains(id.0),
    {
        self.entries.contains_key(&id.0)
    }

    /// Register a texture: create its entry on first encounter, with a
    /// non-owning handle on its image and its sampler configuration; a
    /// repeated registration of an already-cached identity changes
    /// nothing. Reports whether an entry was created.
    pub fn register(&mut self, texture: &Texture) -> (fresh: bool)
        ensures
            fresh == !old(self).ids().contains(texture.spec_id().0),
            final (self).ids() == old(self).ids().insert(texture.spec_id().0),
            final (self).config_at(texture.spec_id().0) == if old(self).ids().contains(
                texture.spec_id().0,
            ) {
                old(self).config_at(texture.spec_id().0)
            } else {
                texture.spec_config()
            },
            forall|i: u32|
                old(self).ids().contains(i) && i != texture.spec_id().0 ==> final (self).config_at(
                    i,
                ) == old(self).config_at(i),
    {
        let id = texture.id();
        if self.entries.contains_key(&id.0) {
            proof {
                assert(self.ids().insert(id.0) =~= self.ids());
            }
            return false;
        }
        let entry = CacheEntry { image: texture.watch_image(), config: *texture.config() };
        self.entries.insert(id.0, entry);
        true
    }

    /// The sampler configuration registered for an identity: `None` when
    /// the cache holds no entry for it.
    pub fn entry_config(&self, id: TextureID) -> (r: Option<&TextureConfig>)
        ensures
            r is Some <==> self.ids().contains(id.0),
            match r {
                Some(config) => *config == self.config_at(id.0),
                None => true,
            },
    {
        match self.entries.get(&id.0) {
            Some(entry) => Some(entry.config()),
            None => None,
        }
    }

    /// Whether the entry of the given identity should be evicted: `None`
    /// when the cache holds no such entry, otherwise the entry's own
    /// verdict.
    pub fn should_evict(&self, id: TextureID) -> (r: Option<bool>)
        ensures
            r is Some <==> self.ids().contains(id.0),
    {
        match self.entries.get(&id.0) {
            Some(entry) => Some(entry.should_evict()),
            None => None,
        }
    }
}

} // verus!
