//! Owned value model of a texture atlas: its pages (one backing texture
//! each, with filter and wrap settings) and its named regions.
//!
//! The pose provider hands these out as plain data; pixel dimensions and
//! placement are integers, texture coordinates stay with the attachments.

use vstd::prelude::*;

verus! {

/// Texture filtering mode declared by an atlas page.
#[derive(Clone, Copy, Debug, PartialEq, Eq, Structural)]
pub enum AtlasFilter {
    Unknown,
    Nearest,
    Linear,
    Mipmap,
    MipmapNearestNearest,
    MipmapLinearNearest,
    MipmapNearestLinear,
    MipmapLinearLinear,
}

/// Texture wrapping mode declared by an atlas page.
#[derive(Clone, Copy, Debug, PartialEq, Eq, Structural)]
pub enum AtlasWrap {
    MirroredRepeat,
    ClampToEdge,
    Repeat,
}

/// One page of the atlas: a single backing texture and how it is sampled.
#[derive(Clone, Debug)]
pub struct AtlasPage {
    pub name: String,
    pub width_px: u32,
    pub height_px: u32,
    pub mag_filter: AtlasFilter,
    pub min_filter: AtlasFilter,
    pub u_wrap: AtlasWrap,
    pub v_wrap: AtlasWrap,
}

impl AtlasPage {
    /// Width of the page's backing texture in pixels.
    pub fn width(&self) -> (r: u32)
        ensures
            r == self.width_px,
    {
        self.width_px
    }

    /// Height of the page's backing texture in pixels.
    pub fn height(&self) -> (r: u32)
        ensures
            r == self.height_px,
    {
        self.height_px
    }
}

/// One rectangular region of an atlas page.
#[derive(Clone, Debug)]
pub struct AtlasRegion {
    pub name: String,
    pub page_index: usize,
    pub x_px: u32,
    pub y_px: u32,
    pub width_px: u32,
    pub height_px: u32,
    pub original_width_px: u32,
    pub original_height_px: u32,
    pub region_index: u32,
    pub is_rotated: bool,
    pub is_flipped: bool,
}

impl AtlasRegion {
    /// The region's left edge within its page, in pixels.
    pub fn x(&self) -> (r: u32)
        ensures
            r == self.x_px,
    {
        self.x_px
    }

    /// The region's top edge within its page, in pixels.
    pub fn y(&self) -> (r: u32)
        ensures
            r == self.y_px,
    {
        self.y_px
    }

    /// The packed width of the region in pixels.
    pub fn width(&self) -> (r: u32)
        ensures
            r == self.width_px,
    {
        self.width_px
    }

    /// The packed height of the region in pixels.
    pub fn height(&self) -> (r: u32)
        ensures
            r == self.height_px,
    {
        self.height_px
    }

    /// The width of the region before packing trimmed it.
    pub fn original_width(&self) -> (r: u32)
        ensures
            r == self.original_width_px,
    {
        self.original_width_px
    }

    /// The height of the region before packing trimmed it.
    pub fn original_height(&self) -> (r: u32)
        ensures
            r == self.original_height_px,
    {
        self.original_height_px
    }

    /// The region's index within a multi-region sequence.
    pub fn index(&self) -> (r: u32)
        ensures
            r == self.region_index,
    {
        self.region_index
    }

    /// Whether the packer stored the region rotated by ninety degrees.
    pub fn rotated(&self) -> (r: bool)
        ensures
            r == self.is_rotated,
    {
        self.is_rotated
    }

    /// Whether the packer stored the region mirrored.
    pub fn flipped(&self) -> (r: bool)
        ensures
            r == self.is_flipped,
    {
        self.is_flipped
    }
}

/// A whole atlas: its pages and its regions, in declaration order.
#[derive(Clone, Debug)]
pub struct Atlas {
    pub pages: Vec<AtlasPage>,
    pub regions: Vec<AtlasRegion>,
}

impl Atlas {
    /// An atlas is well formed when every region points at one of its pages.
    pub open spec fn wf(self) -> bool {
        forall|i: int|
            0 <= i < self.regions@.len() ==> (#[trigger] self.regions@[i]).page_index
                < self.pages@.len()
    }

    /// Build an atlas from its pages and regions.
    pub fn new(pages: Vec<AtlasPage>, regions: Vec<AtlasRegion>) -> (r: Atlas)
        requires
            forall|i: int|
                0 <= i < regions@.len() ==> (#[trigger] regions@[i]).page_index < pages@.len(),
        ensures
            r.pages == pages,
            r.regions == regions,
            r.wf(),
    {
        Atlas { pages, regions }
    }

    /// The first region of the atlas, if it has any.
    pub fn first_region(&self) -> (r: Option<&AtlasRegion>)
        ensures
            match r {
                Some(region) => self.regions@.len() > 0 && *region == self.regions@[0],
                None => self.regions@.len() == 0,
            },
    {
        if self.regions.len() > 0 {
            Some(&self.regions[0])
        } else {
            None
        }
    }

    /// All pages of the atlas.
    pub fn pages(&self) -> (r: &Vec<AtlasPage>)
        ensures
            r == &self.pages,
    {
        &self.pages
    }
}

} // verus!
