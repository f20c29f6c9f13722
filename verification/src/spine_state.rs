//! The per-model animation session: the loaded skeleton data, the track
//! command queue, and frame timing.
//!
//! The pose solver advances by wall-clock time. This core keeps the time
//! of the previous frame (in microseconds, as the caller's clock reports
//! it) and computes the delta to hand to the solver: zero on the first
//! frame.

use vstd::prelude::*;

use crate::anim::{AnimationState, AnimationStateData, CommandView};
use crate::atlas::Atlas;
use crate::skel::SkeletonData;

verus! {

/// One animated model's session state.
pub struct SpineState {
    pub atlas: Atlas,
    pub skel_data: SkeletonData,
    pub anim_state_data: AnimationStateData,
    pub anim: AnimationState,
    /// The clock reading of the previous frame, if one was rendered.
    pub last_render: Option<u64>,
}

impl SpineState {
    /// Start a session over loaded data, with the idle animation looping
    /// on the first track and no frame rendered yet.
    pub fn new(atlas: Atlas, skel_data: SkeletonData, anim_state_data: AnimationStateData) -> (r:
        SpineState)
        ensures
            r.anim@ == seq![CommandView::SetTrack { track: 0, name: "Idle"@, looping: true }],
            r.last_render is None,
            r.atlas == atlas,
            r.skel_data == skel_data,
            r.anim_state_data == anim_state_data,
    {
        let mut anim = AnimationState::new();
        anim.set_animation_by_name(0, "Idle", true);
        proof {
            assert(anim@ =~= seq![
                CommandView::SetTrack { track: 0, name: "Idle"@, looping: true },
            ]);
        }
        SpineState { atlas, skel_data, anim_state_data, anim, last_render: None }
    }

    /// Begin a frame at the given clock reading: the returned delta is the
    /// time since the previous frame, zero on the first one, and is what
    /// the pose solver advances by. The clock must not run backwards.
    pub fn prepare_render(&mut self, now_micros: u64) -> (delta: u64)
        requires
            match old(self).last_render {
                Some(t) => t <= now_micros,
                None => true,
            },
        ensures
            delta == match old(self).last_render {
                Some(t) => (now_micros - t) as u64,
                None => 0u64,
            },
            final (self).last_render == Some(now_micros),
            final (self).anim == old(self).anim,
            final (self).atlas == old(self).atlas,
            final (self).skel_data == old(self).skel_data,
            final (self).anim_state_data == old(self).anim_state_data,
    {
        let delta = match self.last_render {
            Some(t) => now_micros - t,
            None => 0,
        };
        self.last_render = Some(now_micros);
        delta
    }
}

} // verus!
