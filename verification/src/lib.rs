//! A verified core for a skeletal-animation desktop overlay: per-frame
//! tessellation of posed attachments, texture-keyed draw batching with
//! alignment padding, animation-track sequencing from key triggers, and
//! texture-liveness tracking.
//!
//! Each frame, the `sequencer` turns key events into ordered track
//! commands for the external pose solver, the `tessellate` walk converts
//! the posed `skel` snapshot into geometry inside the `buffer` batcher,
//! and the `pipeline` pads the batches and plans one draw call per
//! texture run. `texload` and `cache` own texture decoding, identity and
//! liveness. The platform shell around all of this — window, input hook,
//! graphics device — stays outside; `hook` and `window_ext` carry the
//! decisions it delegates here.

pub mod anim;
pub mod atlas;
pub mod attachment;
pub mod buffer;
pub mod cache;
pub mod config;
pub mod hook;
pub mod images;
pub mod pipeline;
pub mod sequencer;
pub mod skel;
pub mod spine_state;
pub mod tessellate;
pub mod texload;
pub mod texture;
pub mod vertex;
pub mod window_ext;

pub use vertex::{Tint, Vertex};
