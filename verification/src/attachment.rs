//! Owned value model of posed attachments.
//!
//! The pose provider re-poses the skeleton each frame and hands out, per
//! slot, an owned snapshot of the visible attachment: world-space vertex
//! positions, texture coordinates, and (for meshes) triangle indices.
//! Positions and coordinates are opaque 32-bit scalar codes; this core
//! never computes with them, it only routes them into batches.

use vstd::prelude::*;

use crate::texture::TextureID;

verus! {

/// A posed region attachment: a quad of exactly four world vertices with
/// a fixed texture-coordinate table, resolved to a backing texture (or
/// not, in which case it is skipped).
#[derive(Clone, Debug)]
pub struct RegionAttachment {
    pub positions: [(u32, u32); 4],
    pub uvs: [(u32, u32); 4],
    pub texture: Option<TextureID>,
}

impl RegionAttachment {
    /// The number of world vertices of a region attachment: always four.
    pub fn world_vertices_count(&self) -> (r: usize)
        ensures
            r == 4,
    {
        4
    }

    /// The texture coordinates of the vertex at the given index.
    pub fn uv(&self, index: usize) -> (r: (u32, u32))
        requires
            index < 4,
        ensures
            r == self.uvs@[index as int],
    {
        self.uvs[index]
    }

    /// Write the four posed world vertices into the given scratch list,
    /// replacing its contents.
    pub fn compute_world_vertices(&self, positions: &mut Vec<(u32, u32)>)
        ensures
            final (positions)@ == self.positions@,
    {
        positions.clear();
        positions.push(self.positions[0]);
        positions.push(self.positions[1]);
        positions.push(self.positions[2]);
        positions.push(self.positions[3]);
        proof {
            assert(positions@ =~= self.positions@);
        }
    }
}

/// A posed mesh attachment: a variable number of world vertices, texture
/// coordinates per vertex, and explicit triangle indices into them.
#[derive(Clone, Debug)]
pub struct MeshAttachment {
    pub positions: Vec<(u32, u32)>,
    pub uvs: Vec<(u32, u32)>,
    pub indices: Vec<u16>,
    pub texture: Option<TextureID>,
}

impl MeshAttachment {
    /// Well-formedness: one texture coordinate per vertex, and every
    /// triangle index refers to one of the mesh's own vertices.
    pub open spec fn wf(self) -> bool {
        &&& self.positions@.len() == self.uvs@.len()
        &&& forall|i: int|
            0 <= i < self.indices@.len() ==> (#[trigger] self.indices@[i]) < self.positions@.len()
    }

    /// The number of triangle index entries of this mesh.
    pub fn triangles_count(&self) -> (r: usize)
        ensures
            r == self.indices@.len(),
    {
        self.indices.len()
    }

    /// The number of world vertices of this mesh.
    pub fn world_vertices_count(&self) -> (r: usize)
        ensures
            r == self.positions@.len(),
    {
        self.positions.len()
    }

    /// The texture coordinates of the vertex at the given index.
    pub fn uv(&self, index: usize) -> (r: (u32, u32))
        requires
            self.wf(),
            index < self.positions@.len(),
        ensures
            r == self.uvs@[index as int],
    {
        self.uvs[index]
    }

    /// Write the posed world vertices into the given scratch list,
    /// replacing its contents.
    pub fn compute_world_vertices(&self, positions: &mut Vec<(u32, u32)>)
        ensures
            final (positions)@ == self.positions@,
    {
        positions.clear();
        let n = self.positions.len();
        let mut i: usize = 0;
        while i < n
            invariant
                i <= n,
                n == self.positions@.len(),
                positions@ =~= self.positions@.take(i as int),
            decreases n - i,
        {
            positions.push(self.positions[i]);
            i = i + 1;
        }
        proof {
            assert(positions@ =~= self.positions@);
        }
    }

    /// The mesh's triangle indices, local to its own vertex list.
    pub fn indices(&self) -> (r: &Vec<u16>)
        ensures
            r == &self.indices,
    {
        &self.indices
    }
}

/// A posed attachment that contributes no geometry (paths, bounding
/// boxes and the like).
#[derive(Clone, Debug)]
pub struct PathAttachment;

/// The kinds of posed attachment a slot can hold.
#[derive(Clone, Debug)]
pub enum AttachmentType {
    Region(RegionAttachment),
    Mesh(MeshAttachment),
    Path(PathAttachment),
}

impl AttachmentType {
    /// Well-formedness of the attachment's geometry.
    pub open spec fn wf(self) -> bool {
        match self {
            AttachmentType::Mesh(m) => m.wf(),
            _ => true,
        }
    }
}

/// A named, posed attachment.
#[derive(Clone, Debug)]
pub struct Attachment {
    pub name: String,
    pub kind: AttachmentType,
}

impl Attachment {
    /// Build an attachment from its name and posed geometry.
    pub fn new(name: String, kind: AttachmentType) -> (r: Attachment)
        ensures
            r.name == name,
            r.kind == kind,
    {
        Attachment { name, kind }
    }

    /// The attachment's posed geometry by kind.
    pub fn as_inner(&self) -> (r: &AttachmentType)
        ensures
            r == &self.kind,
    {
        &self.kind
    }

    /// The attachment's name.
    pub fn name(&self) -> (r: &str)
        ensures
            r@ == self.name@,
    {
        self.name.as_str()
    }
}

} // verus!
