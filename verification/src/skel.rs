//! Owned value model of a posed skeleton: slots in draw order, each
//! optionally holding one posed attachment, plus skeleton-level tint.
//!
//! The pointer-based graph of the native pose engine is re-architected as
//! owned snapshot values produced once per frame; the tessellator walks
//! these, never raw memory.

use vstd::prelude::*;

use crate::anim::Animation;
use crate::attachment::Attachment;
use crate::vertex::Tint;

verus! {

/// How a slot's geometry blends over what is already drawn.
#[derive(Clone, Copy, Debug, PartialEq, Eq, Structural)]
pub enum BlendMode {
    Normal,
    Additive,
    Multiply,
    Screen,
}

/// One draw-order position of the posed skeleton, optionally holding a
/// posed attachment.
#[derive(Clone, Debug)]
pub struct Slot {
    pub attachment: Option<Attachment>,
    pub tint: Tint,
    pub blend: BlendMode,
}

impl Slot {
    /// Well-formedness of the slot's attachment, if any.
    pub open spec fn wf(self) -> bool {
        match self.attachment {
            Some(a) => a.kind.wf(),
            None => true,
        }
    }

    /// The slot's posed attachment, if it holds one.
    pub fn attachment(&self) -> (r: Option<&Attachment>)
        ensures
            match r {
                Some(a) => self.attachment is Some && *a == self.attachment->Some_0,
                None => self.attachment is None,
            },
    {
        match &self.attachment {
            Some(a) => Some(a),
            None => None,
        }
    }

    /// The slot-level tint.
    pub fn tint_color(&self) -> (r: Tint)
        ensures
            r == self.tint,
    {
        self.tint
    }

    /// The slot's blend mode.
    pub fn blend_mode(&self) -> (r: BlendMode)
        ensures
            r == self.blend,
    {
        self.blend
    }
}

/// A posed skeleton snapshot: its slots in draw order and its
/// skeleton-level tint.
#[derive(Clone, Debug)]
pub struct Skeleton {
    pub slots: Vec<Slot>,
    pub tint: Tint,
}

impl Skeleton {
    /// Well-formedness: every slot's attachment geometry is well formed.
    pub open spec fn wf(self) -> bool {
        forall|i: int| 0 <= i < self.slots@.len() ==> (#[trigger] self.slots@[i]).wf()
    }

    /// The slots in draw order.
    pub fn slots(&self) -> (r: &Vec<Slot>)
        ensures
            r == &self.slots,
    {
        &self.slots
    }

    /// The skeleton-level tint.
    pub fn tint_color(&self) -> (r: Tint)
        ensures
            r == self.tint,
    {
        self.tint
    }
}

/// The declared (unposed) data of one slot.
#[derive(Clone, Debug)]
pub struct SlotData {
    pub name: String,
    pub attachment_name: String,
}

impl SlotData {
    /// The slot's name.
    pub fn name(&self) -> (r: &str)
        ensures
            r@ == self.name@,
    {
        self.name.as_str()
    }

    /// The name of the attachment the slot starts with.
    pub fn attachment_name(&self) -> (r: &str)
        ensures
            r@ == self.attachment_name@,
    {
        self.attachment_name.as_str()
    }
}

/// A skeleton's declared data: its slots and the animations it offers.
/// Its design-time extent is a pair of opaque scalar codes.
#[derive(Clone, Debug)]
pub struct SkeletonData {
    pub slots: Vec<SlotData>,
    pub animations: Vec<Animation>,
    pub width: u32,
    pub height: u32,
}

impl SkeletonData {
    /// The declared slots.
    pub fn slots(&self) -> (r: &Vec<SlotData>)
        ensures
            r == &self.slots,
    {
        &self.slots
    }

    /// The animations the skeleton offers.
    pub fn animations(&self) -> (r: &Vec<Animation>)
        ensures
            r == &self.animations,
    {
        &self.animations
    }
}

} // verus!
