//! The scratch buffer batcher: an append-only, texture-keyed sequence of
//! (vertex list, index list) batches built fresh each frame.
//!
//! Batches appear in the order textures are encountered during one
//! traversal; when the texture changes, the cursor advances to the next
//! slot, relabeling a previously allocated (and therefore empty) slot if
//! one exists, otherwise appending a new one. A texture that reappears
//! after an interruption therefore starts a new batch: the batch count is
//! the number of texture runs in draw order, not the number of distinct
//! textures. `clear` empties every batch in place and resets the cursor,
//! keeping the slots (and their backing capacity) for the next frame.
//!
//! A batch's vertex and index lists live in one record under one texture
//! label, so they cannot desynchronize; that a slot is empty when it is
//! relabeled is an invariant proved here, not a runtime assertion.

use vstd::prelude::*;

use crate::texture::TextureID;
use crate::vertex::Vertex;

verus! {

/// The ghost contents of one batch: its texture and its two geometry lists.
#[verifier::ext_equal]
pub struct BatchView {
    pub tex: u32,
    pub verts: Seq<Vertex>,
    pub idxs: Seq<u16>,
}

impl BatchView {
    /// A batch with no geometry in either list.
    pub open spec fn is_empty(self) -> bool {
        self.verts.len() == 0 && self.idxs.len() == 0
    }

    /// A batch with geometry in both of its lists; only these are drawn.
    pub open spec fn has_geometry(self) -> bool {
        self.verts.len() > 0 && self.idxs.len() > 0
    }

    /// A fresh, empty batch for the given texture.
    pub open spec fn empty(tex: u32) -> BatchView {
        BatchView { tex, verts: Seq::empty(), idxs: Seq::empty() }
    }
}

/// The ghost state of the batcher: its batches in creation order and the
/// cursor of the batch currently being filled.
#[verifier::ext_equal]
pub struct ScratchView {
    pub cursor: int,
    pub batches: Seq<BatchView>,
}

impl ScratchView {
    /// Well-formedness: the cursor stays in range, and every slot past the
    /// cursor is empty, so advancing may relabel it for a new texture.
    pub open spec fn wf(self) -> bool {
        &&& (self.batches.len() == 0 ==> self.cursor == 0)
        &&& (self.batches.len() > 0 ==> 0 <= self.cursor < self.batches.len())
        &&& (forall|i: int|
            self.cursor < i < self.batches.len() ==> (#[trigger] self.batches[i]).is_empty())
    }

    /// The batch under the cursor.
    pub open spec fn current(self) -> BatchView {
        self.batches[self.cursor]
    }

    /// Every batch is empty (the state right after `new` or `clear`).
    pub open spec fn all_empty(self) -> bool {
        forall|i: int| 0 <= i < self.batches.len() ==> (#[trigger] self.batches[i]).is_empty()
    }
}

/// How requesting the batch for texture `tex` moves the batcher state:
/// reuse the current batch when its texture matches, otherwise advance the
/// cursor, relabeling the next slot if one is allocated and appending a
/// fresh one if not.
pub open spec fn batch_step(v: ScratchView, tex: u32) -> ScratchView {
    if v.batches.len() == 0 {
        ScratchView { cursor: 0, batches: seq![BatchView::empty(tex)] }
    } else if v.current().tex == tex {
        v
    } else if v.cursor + 1 < v.batches.len() {
        ScratchView {
            cursor: v.cursor + 1,
            batches: v.batches.update(
                v.cursor + 1,
                BatchView { tex, ..v.batches[v.cursor + 1] },
            ),
        }
    } else {
        ScratchView { cursor: v.cursor + 1, batches: v.batches.push(BatchView::empty(tex)) }
    }
}

/// Requesting a texture's batch keeps the state well formed, leaves the
/// current batch labeled with that texture, and only ever starts an empty
/// batch: the current batch keeps its contents when the texture matches
/// and is empty otherwise.
pub proof fn lemma_batch_step(v: ScratchView, tex: u32)
    requires
        v.wf(),
    ensures
        batch_step(v, tex).wf(),
        batch_step(v, tex).current().tex == tex,
        batch_step(v, tex).batches.len() >= v.batches.len(),
        batch_step(v, tex).batches.len() > 0,
        v.batches.len() > 0 && v.current().tex == tex ==> batch_step(v, tex) == v,
        !(v.batches.len() > 0 && v.current().tex == tex) ==> {
            &&& batch_step(v, tex).current().is_empty()
            &&& batch_step(v, tex).cursor == v.cursor + if v.batches.len() == 0 { 0int } else { 1int }
        },
        forall|i: int|
            0 <= i < v.batches.len() && i != batch_step(v, tex).cursor ==> batch_step(v, tex).batches[i]
                == v.batches[i],
{
}

/// Appending geometry to the current batch.
pub open spec fn append_step(v: ScratchView, verts: Seq<Vertex>, idxs: Seq<u16>) -> ScratchView {
    ScratchView {
        cursor: v.cursor,
        batches: v.batches.update(
            v.cursor,
            BatchView {
                tex: v.current().tex,
                verts: v.current().verts + verts,
                idxs: v.current().idxs + idxs,
            },
        ),
    }
}

struct Batch {
    tex: TextureID,
    verts: Vec<Vertex>,
    idxs: Vec<u16>,
}

impl View for Batch {
    type V = BatchView;

    closed spec fn view(&self) -> BatchView {
        BatchView { tex: self.tex.0, verts: self.verts@, idxs: self.idxs@ }
    }
}

/// The scratch buffer batcher. See the module description for its
/// batching discipline.
pub struct ScratchBuffers {
    cursor: usize,
    batches: Vec<Batch>,
}

impl View for ScratchBuffers {
    type V = ScratchView;

    closed spec fn view(&self) -> ScratchView {
        ScratchView {
            cursor: self.cursor as int,
            batches: self.batches@.map(|i: int, b: Batch| b@),
        }
    }
}

impl ScratchBuffers {
    /// A fresh batcher with no batches.
    pub fn new() -> (r: ScratchBuffers)
        ensures
            r@.batches.len() == 0,
            r@.cursor == 0,
            r@.wf(),
    {
        ScratchBuffers { cursor: 0, batches: Vec::new() }
    }

    /// Bring the current batch to the one for `tex_id`, creating or
    /// relabeling a slot when the texture changed, and return its
    /// position. The state moves exactly by `batch_step`.
    pub fn get_buffers_mut(&mut self, tex_id: TextureID) -> (idx: usize)
        requires
            old(self)@.wf(),
            old(self)@.batches.len() < usize::MAX,
        ensures
            final (self)@ == batch_step(old(self)@, tex_id.0),
            final (self)@.wf(),
            idx == final (self)@.cursor,
    {
        proof {
            lemma_batch_step(old(self)@, tex_id.0);
        }
        if self.batches.len() == 0 {
            self.batches.push(Batch { tex: tex_id, verts: Vec::new(), idxs: Vec::new() });
            proof {
                assert(self@ =~~= batch_step(old(self)@, tex_id.0));
            }
        } else if self.batches[self.cursor].tex != tex_id {
            let next = self.cursor + 1;
            if next < self.batches.len() {
                let slot = &mut self.batches[next];
                slot.tex = tex_id;
                self.cursor = next;
                proof {
                    assert(self@ =~~= batch_step(old(self)@, tex_id.0));
                }
            } else {
                self.batches.push(Batch { tex: tex_id, verts: Vec::new(), idxs: Vec::new() });
                self.cursor = next;
                proof {
                    assert(self@ =~~= batch_step(old(self)@, tex_id.0));
                }
            }
        }
        self.cursor
    }

    /// How many vertices the current batch holds: the base offset that
    /// indices appended next must be relative to.
    pub fn vertex_count(&self) -> (r: usize)
        requires
            self@.wf(),
            self@.batches.len() > 0,
        ensures
            r == self@.current().verts.len(),
    {
        self.batches[self.cursor].verts.len()
    }

    /// Append one vertex to the current batch.
    pub fn push_vertex(&mut self, v: Vertex)
        requires
            old(self)@.wf(),
            old(self)@.batches.len() > 0,
        ensures
            final (self)@ == append_step(old(self)@, seq![v], Seq::empty()),
            final (self)@.wf(),
    {
        let cursor = self.cursor;
        let slot = &mut self.batches[cursor];
        slot.verts.push(v);
        proof {
            assert(self@ =~~= append_step(old(self)@, seq![v], Seq::empty()));
        }
    }

    /// Append one index to the current batch.
    pub fn push_index(&mut self, x: u16)
        requires
            old(self)@.wf(),
            old(self)@.batches.len() > 0,
        ensures
            final (self)@ == append_step(old(self)@, Seq::empty(), seq![x]),
            final (self)@.wf(),
    {
        let cursor = self.cursor;
        let slot = &mut self.batches[cursor];
        slot.idxs.push(x);
        proof {
            assert(self@ =~~= append_step(old(self)@, Seq::empty(), seq![x]));
        }
    }

    /// How many batch slots exist, empty ones included.
    pub fn batch_count(&self) -> (r: usize)
        ensures
            r == self@.batches.len(),
    {
        self.batches.len()
    }

    /// The texture a batch slot is labeled with.
    pub fn batch_texture(&self, i: usize) -> (r: TextureID)
        requires
            i < self@.batches.len(),
        ensures
            r.0 == self@.batches[i as int].tex,
    {
        self.batches[i].tex
    }

    /// How many vertices a batch slot holds.
    pub fn batch_vertex_len(&self, i: usize) -> (r: usize)
        requires
            i < self@.batches.len(),
        ensures
            r == self@.batches[i as int].verts.len(),
    {
        self.batches[i].verts.len()
    }

    /// How many indices a batch slot holds.
    pub fn batch_index_len(&self, i: usize) -> (r: usize)
        requires
            i < self@.batches.len(),
        ensures
            r == self@.batches[i as int].idxs.len(),
    {
        self.batches[i].idxs.len()
    }

    /// Copy out the vertices of a batch slot.
    pub fn batch_vertices(&self, i: usize) -> (r: Vec<Vertex>)
        requires
            i < self@.batches.len(),
        ensures
            r@ == self@.batches[i as int].verts,
    {
        let slot = &self.batches[i];
        let mut out: Vec<Vertex> = Vec::new();
        let mut j: usize = 0;
        while j < slot.verts.len()
            invariant
                j <= slot.verts.len(),
                out@ =~= slot.verts@.take(j as int),
            decreases slot.verts.len() - j,
        {
            out.push(slot.verts[j]);
            j = j + 1;
        }
        proof {
            assert(out@ =~= self@.batches[i as int].verts);
        }
        out
    }

    /// Copy out the indices of a batch slot.
    pub fn batch_indices(&self, i: usize) -> (r: Vec<u16>)
        requires
            i < self@.batches.len(),
        ensures
            r@ == self@.batches[i as int].idxs,
    {
        let slot = &self.batches[i];
        let mut out: Vec<u16> = Vec::new();
        let mut j: usize = 0;
        while j < slot.idxs.len()
            invariant
                j <= slot.idxs.len(),
                out@ =~= slot.idxs@.take(j as int),
            decreases slot.idxs.len() - j,
        {
            out.push(slot.idxs[j]);
            j = j + 1;
        }
        proof {
            assert(out@ =~= self@.batches[i as int].idxs);
        }
        out
    }

    /// Empty every batch in place, keeping the slots and their labels, and
    /// reset the cursor to the first slot. Nothing is deallocated: the
    /// same slots, at the same positions, serve the next frame.
    pub fn clear(&mut self)
        ensures
            final (self)@.cursor == 0,
            final (self)@.batches.len() == old(self)@.batches.len(),
            forall|i: int|
                0 <= i < old(self)@.batches.len() ==> (#[trigger] final (self)@.batches[i])
                    == BatchView::empty(old(self)@.batches[i].tex),
            final (self)@.wf(),
            final (self)@.all_empty(),
    {
        let n = self.batches.len();
        let mut i: usize = 0;
        while i < n
            invariant
                i <= n,
                n == self@.batches.len(),
                n == old(self)@.batches.len(),
                forall|j: int|
                    0 <= j < i ==> (#[trigger] self@.batches[j]) == BatchView::empty(
                        old(self)@.batches[j].tex,
                    ),
                forall|j: int| i <= j < n ==> self@.batches[j] == old(self)@.batches[j],
            decreases n - i,
        {
            let ghost pre = self@;
            let slot = &mut self.batches[i];
            slot.verts.clear();
            slot.idxs.clear();
            proof {
                assert(self@.batches[i as int] =~~= BatchView::empty(pre.batches[i as int].tex));
                assert(forall|j: int|
                    0 <= j < n && j != i ==> (#[trigger] self@.batches[j]) == pre.batches[j]);
            }
            i = i + 1;
        }
        self.cursor = 0;
    }

    /// Pad one batch's lists in place with zero entries, each up to the
    /// next multiple of four, to satisfy upload-size alignment. The
    /// padding never expands the drawn geometry: draw ranges use the
    /// pre-padding index count.
    pub fn pad_batch(&mut self, i: usize)
        requires
            old(self)@.wf(),
            i < old(self)@.batches.len(),
        ensures
            final (self)@.cursor == old(self)@.cursor,
            final (self)@.batches.len() == old(self)@.batches.len(),
            final (self)@.batches[i as int].tex == old(self)@.batches[i as int].tex,
            final (self)@.batches[i as int].verts == pad_verts(old(self)@.batches[i as int].verts),
            final (self)@.batches[i as int].idxs == pad_idxs(old(self)@.batches[i as int].idxs),
            forall|j: int|
                0 <= j < old(self)@.batches.len() && j != i ==> (#[trigger] final (self)@.batches[j])
                    == old(self)@.batches[j],
            final (self)@.wf(),
    {
        let ghost orig = self@;
        let vlen = self.batches[i].verts.len();
        let vpad: usize = if vlen % 4 == 0 {
            0
        } else {
            4 - vlen % 4
        };
        let mut k: usize = 0;
        while k < vpad
            invariant
                k <= vpad,
                i < self@.batches.len(),
                self@.batches.len() == orig.batches.len(),
                self@.cursor == orig.cursor,
                vlen == orig.batches[i as int].verts.len(),
                vpad == padded_len(vlen as nat) - vlen,
                self@.batches[i as int].tex == orig.batches[i as int].tex,
                self@.batches[i as int].idxs == orig.batches[i as int].idxs,
                self@.batches[i as int].verts =~= orig.batches[i as int].verts + Seq::new(
                    k as nat,
                    |m: int| Vertex::zero_spec(),
                ),
                forall|j: int|
                    0 <= j < orig.batches.len() && j != i ==> (#[trigger] self@.batches[j])
                        == orig.batches[j],
            decreases vpad - k,
        {
            let ghost pre = self@;
            let slot = &mut self.batches[i];
            slot.verts.push(Vertex::zeroed());
            proof {
                assert(self@.batches[i as int].verts =~= orig.batches[i as int].verts + Seq::new(
                    (k + 1) as nat,
                    |m: int| Vertex::zero_spec(),
                ));
                assert(forall|j: int|
                    0 <= j < orig.batches.len() && j != i ==> (#[trigger] self@.batches[j])
                        == pre.batches[j]);
            }
            k = k + 1;
        }
        proof {
            assert(self@.batches[i as int].verts =~= pad_verts(orig.batches[i as int].verts));
        }
        let ghost mid = self@;
        let ilen = self.batches[i].idxs.len();
        let ipad: usize = if ilen % 4 == 0 {
            0
        } else {
            4 - ilen % 4
        };
        let mut k: usize = 0;
        while k < ipad
            invariant
                k <= ipad,
                i < self@.batches.len(),
                self@.batches.len() == mid.batches.len(),
                self@.cursor == mid.cursor,
                ilen == mid.batches[i as int].idxs.len(),
                ipad == padded_len(ilen as nat) - ilen,
                self@.batches[i as int].tex == mid.batches[i as int].tex,
                self@.batches[i as int].verts == mid.batches[i as int].verts,
                self@.batches[i as int].idxs =~= mid.batches[i as int].idxs + Seq::new(
                    k as nat,
                    |m: int| 0u16,
                ),
                forall|j: int|
                    0 <= j < mid.batches.len() && j != i ==> (#[trigger] self@.batches[j])
                        == mid.batches[j],
            decreases ipad - k,
        {
            let ghost pre = self@;
            let slot = &mut self.batches[i];
            slot.idxs.push(0);
            proof {
                assert(self@.batches[i as int].idxs =~= mid.batches[i as int].idxs + Seq::new(
                    (k + 1) as nat,
                    |m: int| 0u16,
                ));
                assert(forall|j: int|
                    0 <= j < mid.batches.len() && j != i ==> (#[trigger] self@.batches[j])
                        == pre.batches[j]);
            }
            k = k + 1;
        }
        proof {
            assert(self@.batches[i as int].idxs =~= pad_idxs(orig.batches[i as int].idxs));
            assert(forall|j: int|
                self@.cursor < j < self@.batches.len() ==> (#[trigger] self@.batches[j]).is_empty())
                by {
                assert(forall|j: int|
                    self@.cursor < j < self@.batches.len() && j != i ==> (
                    #[trigger] self@.batches[j]).is_empty());
                if i > self@.cursor {
                    assert(orig.batches[i as int].is_empty());
                    assert(padded_len(0) == 0);
                    assert(self@.batches[i as int].verts =~= orig.batches[i as int].verts);
                    assert(self@.batches[i as int].idxs =~= orig.batches[i as int].idxs);
                }
            }
        }
    }

    /// The batches that hold geometry, in creation order: the texture and
    /// copies of the vertex and index lists of every batch whose lists are
    /// both non-empty.
    pub fn iter_mut(&self) -> (r: Vec<(TextureID, Vec<Vertex>, Vec<u16>)>)
        ensures
            drained_view(r@) == nonempty_of(self@.batches),
    {
        let mut out: Vec<(TextureID, Vec<Vertex>, Vec<u16>)> = Vec::new();
        let n = self.batches.len();
        let mut i: usize = 0;
        while i < n
            invariant
                i <= n,
                n == self@.batches.len(),
                drained_view(out@) =~~= nonempty_of(self@.batches.take(i as int)),
            decreases n - i,
        {
            proof {
                assert(self@.batches.take(i + 1).drop_last() =~= self@.batches.take(i as int));
                assert(self@.batches.take(i + 1).last() == self@.batches[i as int]);
            }
            let skip = self.batch_vertex_len(i) == 0 || self.batch_index_len(i) == 0;
            if !skip {
                let tex = self.batch_texture(i);
                let vs = self.batch_vertices(i);
                let xs = self.batch_indices(i);
                let ghost prev = out@;
                out.push((tex, vs, xs));
                proof {
                    assert(drained_view(out@) =~~= drained_view(prev).push(
                        BatchView { tex: tex.0, verts: vs@, idxs: xs@ },
                    ));
                }
            }
            i = i + 1;
        }
        proof {
            assert(self@.batches.take(n as int) =~= self@.batches);
        }
        out
    }
}

/// Indices are local to their batch: every index of every batch refers to
/// a position within that batch's own vertex list.
pub open spec fn indices_local(batches: Seq<BatchView>) -> bool {
    forall|i: int, k: int|
        0 <= i < batches.len() && 0 <= k < batches[i].idxs.len() ==> (#[trigger] batches[i].idxs[k])
            < batches[i].verts.len()
}

/// A length padded up to the next multiple of four.
pub open spec fn padded_len(n: nat) -> nat {
    if n % 4 == 0 {
        n
    } else {
        (n + (4 - n % 4)) as nat
    }
}

/// A vertex list padded with zero vertices up to the next multiple of
/// four entries.
pub open spec fn pad_verts(s: Seq<Vertex>) -> Seq<Vertex> {
    s + Seq::new((padded_len(s.len()) - s.len()) as nat, |i: int| Vertex::zero_spec())
}

/// An index list padded with zero indices up to the next multiple of four
/// entries.
pub open spec fn pad_idxs(s: Seq<u16>) -> Seq<u16> {
    s + Seq::new((padded_len(s.len()) - s.len()) as nat, |i: int| 0u16)
}

/// The batches that hold geometry in both lists, in order: the ones a
/// frame draws.
pub open spec fn nonempty_of(s: Seq<BatchView>) -> Seq<BatchView>
    decreases s.len(),
{
    if s.len() == 0 {
        Seq::empty()
    } else {
        nonempty_of(s.drop_last()) + if s.last().has_geometry() {
            seq![s.last()]
        } else {
            Seq::<BatchView>::empty()
        }
    }
}

/// The ghost contents that a drained triple stands for.
pub open spec fn drained_view(s: Seq<(TextureID, Vec<Vertex>, Vec<u16>)>) -> Seq<BatchView> {
    s.map(
        |k: int, t: (TextureID, Vec<Vertex>, Vec<u16>)|
            BatchView { tex: t.0.0, verts: t.1@, idxs: t.2@ },
    )
}

} // verus!
