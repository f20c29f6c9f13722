//! The attachment tessellator: converts each posed, visible attachment
//! into vertices and indices and appends them, through the scratch buffer
//! batcher, to the batch of the attachment's texture.
//!
//! A region contributes exactly four vertices and the six indices
//! 0,1,2,2,3,0 offset by the batch's running vertex count; a mesh
//! contributes its own vertices and its own indices under the same
//! offset. Slots without an attachment, attachments whose texture did not
//! resolve, and non-renderable attachment kinds are skipped without
//! error.

use vstd::prelude::*;

use crate::attachment::AttachmentType;
use crate::buffer::{append_step, batch_step, lemma_batch_step, BatchView, ScratchBuffers, ScratchView};
use crate::skel::{Skeleton, Slot};
use crate::vertex::{compose_tint, compose_tint_spec, Tint, Vertex};

verus! {

/// The texture a slot's geometry is drawn with, if the slot holds a
/// renderable attachment whose texture resolved.
pub open spec fn slot_texture(slot: Slot) -> Option<u32> {
    match slot.attachment {
        Some(a) => match a.kind {
            AttachmentType::Region(r) => match r.texture {
                Some(t) => Some(t.0),
                None => None,
            },
            AttachmentType::Mesh(m) => match m.texture {
                Some(t) => Some(t.0),
                None => None,
            },
            AttachmentType::Path(_) => None,
        },
        None => None,
    }
}

/// How many vertices an attachment kind contributes.
pub open spec fn kind_vertex_count(kind: AttachmentType) -> nat {
    match kind {
        AttachmentType::Region(_) => 4,
        AttachmentType::Mesh(m) => m.positions@.len(),
        AttachmentType::Path(_) => 0,
    }
}

/// How many indices an attachment kind contributes.
pub open spec fn kind_index_count(kind: AttachmentType) -> nat {
    match kind {
        AttachmentType::Region(_) => 6,
        AttachmentType::Mesh(m) => m.indices@.len(),
        AttachmentType::Path(_) => 0,
    }
}

/// How many vertices a slot contributes: zero unless it is drawn.
pub open spec fn slot_vertex_count(slot: Slot) -> nat {
    if slot_texture(slot) is Some {
        kind_vertex_count(slot.attachment->Some_0.kind)
    } else {
        0
    }
}

/// How many indices a slot contributes: zero unless it is drawn.
pub open spec fn slot_index_count(slot: Slot) -> nat {
    if slot_texture(slot) is Some {
        kind_index_count(slot.attachment->Some_0.kind)
    } else {
        0
    }
}

/// The vertices an attachment contributes: its posed positions paired
/// with its texture coordinates, every vertex carrying the same composed
/// tint.
pub open spec fn attachment_vertices(kind: AttachmentType, tint: Tint) -> Seq<Vertex> {
    match kind {
        AttachmentType::Region(r) => Seq::new(
            4,
            |i: int| Vertex { position: r.positions@[i], tex_coords: r.uvs@[i], tint },
        ),
        AttachmentType::Mesh(m) => Seq::new(
            m.positions@.len(),
            |i: int| Vertex { position: m.positions@[i], tex_coords: m.uvs@[i], tint },
        ),
        AttachmentType::Path(_) => Seq::empty(),
    }
}

/// The indices an attachment contributes, offset by the batch's vertex
/// count at append time: the fixed quad pattern for a region, the mesh's
/// own triangle list for a mesh.
pub open spec fn attachment_indices(kind: AttachmentType, base: int) -> Seq<u16> {
    match kind {
        AttachmentType::Region(_) => seq![
            base as u16,
            (base + 1) as u16,
            (base + 2) as u16,
            (base + 2) as u16,
            (base + 3) as u16,
            base as u16,
        ],
        AttachmentType::Mesh(m) => Seq::new(
            m.indices@.len(),
            |i: int| (m.indices@[i] + base) as u16,
        ),
        AttachmentType::Path(_) => Seq::empty(),
    }
}

/// How tessellating one slot moves the batcher state: nothing for a slot
/// that is not drawn; otherwise bring up the batch of the slot's texture
/// and append the attachment's vertices and offset indices to it.
pub open spec fn slot_step(v: ScratchView, slot: Slot, skel_tint: Tint, opacity: u16) -> ScratchView {
    match slot_texture(slot) {
        None => v,
        Some(tex) => {
            let stepped = batch_step(v, tex);
            let base = stepped.current().verts.len() as int;
            let tint = compose_tint_spec(skel_tint, slot.tint, opacity);
            let kind = slot.attachment->Some_0.kind;
            append_step(
                stepped,
                attachment_vertices(kind, tint),
                attachment_indices(kind, base),
            )
        },
    }
}

/// Whether a slot's geometry still fits under the 16-bit index limit when
/// appended to its batch.
pub open spec fn slot_fits(v: ScratchView, slot: Slot) -> bool {
    match slot_texture(slot) {
        None => true,
        Some(tex) => batch_step(v, tex).current().verts.len() + slot_vertex_count(slot) <= 65536,
    }
}

/// Appending twice to the current batch is one append of the
/// concatenations.
pub proof fn lemma_append_compose(
    v: ScratchView,
    a1: Seq<Vertex>,
    b1: Seq<u16>,
    a2: Seq<Vertex>,
    b2: Seq<u16>,
)
    requires
        v.batches.len() > 0,
        0 <= v.cursor < v.batches.len(),
    ensures
        append_step(append_step(v, a1, b1), a2, b2) == append_step(v, a1 + a2, b1 + b2),
{
    assert(append_step(append_step(v, a1, b1), a2, b2) =~~= append_step(v, a1 + a2, b1 + b2));
}

/// Tessellate one slot: append its attachment's geometry to the batch of
/// its texture, composing the vertex tint from the skeleton tint, the
/// slot tint and the global opacity. The state moves exactly by
/// `slot_step`.
pub fn tessellate_slot(slot: &Slot, skel_tint: &Tint, opacity: u16, buffers: &mut ScratchBuffers)
    requires
        slot.wf(),
        old(buffers)@.wf(),
        old(buffers)@.batches.len() < usize::MAX,
        slot_fits(old(buffers)@, *slot),
    ensures
        final (buffers)@ == slot_step(old(buffers)@, *slot, *skel_tint, opacity),
        final (buffers)@.wf(),
        final (buffers)@.batches.len() <= old(buffers)@.batches.len() + 1,
{
    proof {
        if slot_texture(*slot) is Some {
            lemma_batch_step(old(buffers)@, slot_texture(*slot)->Some_0);
        }
    }
    let attachment = match slot.attachment() {
        Some(a) => a,
        None => {
            return ;
        },
    };
    let tint = compose_tint(skel_tint, &slot.tint, opacity);
    match attachment.as_inner() {
        AttachmentType::Region(region) => {
            let tex = match region.texture {
                Some(t) => t,
                None => {
                    return ;
                },
            };
            let ghost stepped = batch_step(old(buffers)@, tex.0);
            let ghost rverts = attachment_vertices(slot.attachment->Some_0.kind, tint);
            buffers.get_buffers_mut(tex);
            let base = buffers.vertex_count();
            let mut k: usize = 0;
            while k < 4
                invariant
                    k <= 4,
                    stepped.wf(),
                    stepped.batches.len() > 0,
                    buffers@ == append_step(stepped, rverts.take(k as int), Seq::empty()),
                    buffers@.wf(),
                    buffers@.batches.len() == stepped.batches.len(),
                    buffers@.cursor == stepped.cursor,
                    rverts == Seq::new(
                        4,
                        |i: int| Vertex {
                            position: region.positions@[i],
                            tex_coords: region.uvs@[i],
                            tint,
                        },
                    ),
                decreases 4 - k,
            {
                let ghost pre = buffers@;
                buffers.push_vertex(
                    Vertex { position: region.positions[k], tex_coords: region.uvs[k], tint },
                );
                proof {
                    lemma_append_compose(
                        stepped,
                        rverts.take(k as int),
                        Seq::empty(),
                        seq![rverts[k as int]],
                        Seq::empty(),
                    );
                    assert(rverts.take(k as int) + seq![rverts[k as int]] =~= rverts.take(
                        k + 1,
                    ));
                    assert(Seq::<u16>::empty() + Seq::<u16>::empty() =~= Seq::<u16>::empty());
                }
                k = k + 1;
            }
            proof {
                assert(rverts.take(4) =~= rverts);
                assert(stepped.current().verts.len() + 4 <= 65536);
            }
            let i0 = base as u16;
            let i1 = (base + 1) as u16;
            let i2 = (base + 2) as u16;
            let i3 = (base + 3) as u16;
            let ghost ridxs = attachment_indices(slot.attachment->Some_0.kind, base as int);
            let pattern: [u16; 6] = [i0, i1, i2, i2, i3, i0];
            let mut k: usize = 0;
            while k < 6
                invariant
                    k <= 6,
                    stepped.wf(),
                    stepped.batches.len() > 0,
                    buffers@ == append_step(stepped, rverts, ridxs.take(k as int)),
                    buffers@.wf(),
                    pattern@ =~= ridxs,
                decreases 6 - k,
            {
                buffers.push_index(pattern[k]);
                proof {
                    lemma_append_compose(
                        stepped,
                        rverts,
                        ridxs.take(k as int),
                        Seq::empty(),
                        seq![ridxs[k as int]],
                    );
                    assert(rverts + Seq::<Vertex>::empty() =~= rverts);
                    assert(ridxs.take(k as int) + seq![ridxs[k as int]] =~= ridxs.take(k + 1));
                }
                k = k + 1;
            }
            proof {
                assert(ridxs.take(6) =~= ridxs);
            }
        },
        AttachmentType::Mesh(mesh) => {
            let tex = match mesh.texture {
                Some(t) => t,
                None => {
                    return ;
                },
            };
            let ghost stepped = batch_step(old(buffers)@, tex.0);
            let ghost mverts = attachment_vertices(slot.attachment->Some_0.kind, tint);
            buffers.get_buffers_mut(tex);
            let base = buffers.vertex_count();
            let n = mesh.positions.len();
            let mut k: usize = 0;
            while k < n
                invariant
                    k <= n,
                    n == mesh.positions@.len(),
                    mesh.wf(),
                    stepped.wf(),
                    stepped.batches.len() > 0,
                    buffers@ == append_step(stepped, mverts.take(k as int), Seq::empty()),
                    buffers@.wf(),
                    mverts == Seq::new(
                        n as nat,
                        |i: int| Vertex {
                            position: mesh.positions@[i],
                            tex_coords: mesh.uvs@[i],
                            tint,
                        },
                    ),
                decreases n - k,
            {
                buffers.push_vertex(
                    Vertex { position: mesh.positions[k], tex_coords: mesh.uvs[k], tint },
                );
                proof {
                    lemma_append_compose(
                        stepped,
                        mverts.take(k as int),
                        Seq::empty(),
                        seq![mverts[k as int]],
                        Seq::empty(),
                    );
                    assert(mverts.take(k as int) + seq![mverts[k as int]] =~= mverts.take(
                        k + 1,
                    ));
                    assert(Seq::<u16>::empty() + Seq::<u16>::empty() =~= Seq::<u16>::empty());
                }
                k = k + 1;
            }
            proof {
                assert(mverts.take(n as int) =~= mverts);
                assert(stepped.current().verts.len() + n <= 65536);
            }
            let ghost midxs = attachment_indices(slot.attachment->Some_0.kind, base as int);
            let m = mesh.indices.len();
            let mut k: usize = 0;
            while k < m
                invariant
                    k <= m,
                    m == mesh.indices@.len(),
                    n == mesh.positions@.len(),
                    mesh.wf(),
                    base + n <= 65536,
                    base == stepped.current().verts.len(),
                    stepped.wf(),
                    stepped.batches.len() > 0,
                    buffers@ == append_step(stepped, mverts, midxs.take(k as int)),
                    buffers@.wf(),
                    midxs == Seq::new(m as nat, |i: int| (mesh.indices@[i] + base) as u16),
                decreases m - k,
            {
                let offset = mesh.indices[k] as usize + base;
                buffers.push_index(offset as u16);
                proof {
                    lemma_append_compose(
                        stepped,
                        mverts,
                        midxs.take(k as int),
                        Seq::empty(),
                        seq![midxs[k as int]],
                    );
                    assert(mverts + Seq::<Vertex>::empty() =~= mverts);
                    assert(midxs.take(k as int) + seq![midxs[k as int]] =~= midxs.take(k + 1));
                }
                k = k + 1;
            }
            proof {
                assert(midxs.take(m as int) =~= midxs);
            }
        },
        AttachmentType::Path(_) => {
            return ;
        },
    }
}

/// Every batch holds at most `bound` vertices.
pub open spec fn batch_lens_bounded(v: ScratchView, bound: nat) -> bool {
    forall|i: int| 0 <= i < v.batches.len() ==> (#[trigger] v.batches[i]).verts.len() <= bound
}

/// The total number of vertices a slot sequence contributes.
pub open spec fn slots_vertex_total(slots: Seq<Slot>) -> nat
    decreases slots.len(),
{
    if slots.len() == 0 {
        0
    } else {
        slots_vertex_total(slots.drop_last()) + slot_vertex_count(slots.last())
    }
}

/// A prefix never contributes more vertices than the whole sequence.
pub proof fn lemma_total_take_le(slots: Seq<Slot>, i: int)
    requires
        0 <= i <= slots.len(),
    ensures
        slots_vertex_total(slots.take(i)) <= slots_vertex_total(slots),
    decreases slots.len() - i,
{
    if i < slots.len() {
        assert(slots.take(i + 1).drop_last() =~= slots.take(i));
        assert(slots.take(i + 1).last() == slots[i]);
        lemma_total_take_le(slots, i + 1);
    } else {
        assert(slots.take(i) =~= slots);
    }
}

/// Tessellating one slot grows each batch by at most the slot's vertex
/// count, keeps the state well formed, and fits under the index limit
/// whenever the accumulated bound leaves room for it.
pub proof fn lemma_slot_step_bounds(
    v: ScratchView,
    slot: Slot,
    skel_tint: Tint,
    opacity: u16,
    bound: nat,
)
    requires
        v.wf(),
        batch_lens_bounded(v, bound),
    ensures
        bound + slot_vertex_count(slot) <= 65536 ==> slot_fits(v, slot),
        slot_step(v, slot, skel_tint, opacity).wf(),
        batch_lens_bounded(slot_step(v, slot, skel_tint, opacity), bound + slot_vertex_count(slot)),
        slot_step(v, slot, skel_tint, opacity).batches.len() <= v.batches.len() + 1,
{
    match slot_texture(slot) {
        None => {},
        Some(tex) => {
            lemma_batch_step(v, tex);
            let stepped = batch_step(v, tex);
            assert(stepped.current().verts.len() <= bound) by {
                if v.batches.len() > 0 && v.current().tex == tex {
                    assert(v.batches[v.cursor].verts.len() <= bound);
                } else if v.batches.len() > 0 && v.cursor + 1 < v.batches.len() {
                    assert(v.batches[v.cursor + 1].is_empty());
                }
            }
            let kind = slot.attachment->Some_0.kind;
            let base = stepped.current().verts.len() as int;
            let end = append_step(
                stepped,
                attachment_vertices(kind, compose_tint_spec(skel_tint, slot.tint, opacity)),
                attachment_indices(kind, base),
            );
            assert(attachment_vertices(
                kind,
                compose_tint_spec(skel_tint, slot.tint, opacity),
            ).len() == slot_vertex_count(slot));
            assert(end.wf());
            assert(batch_lens_bounded(end, bound + slot_vertex_count(slot))) by {
                assert(forall|i: int|
                    0 <= i < end.batches.len() && i != end.cursor ==> end.batches[i]
                        == stepped.batches[i]);
            }
        },
    }
}

/// Tessellating one slot keeps indices local to their batches: what it
/// appends refers only to vertices of the same batch, and what was there
/// stays valid because vertex lists only grow.
pub proof fn lemma_slot_step_indices_local(
    v: ScratchView,
    slot: Slot,
    skel_tint: Tint,
    opacity: u16,
)
    requires
        v.wf(),
        slot.wf(),
        slot_fits(v, slot),
        crate::buffer::indices_local(v.batches),
    ensures
        crate::buffer::indices_local(slot_step(v, slot, skel_tint, opacity).batches),
{
    match slot_texture(slot) {
        None => {},
        Some(tex) => {
            lemma_batch_step(v, tex);
            let stepped = batch_step(v, tex);
            let kind = slot.attachment->Some_0.kind;
            let tint = compose_tint_spec(skel_tint, slot.tint, opacity);
            let base = stepped.current().verts.len() as int;
            let end = append_step(
                stepped,
                attachment_vertices(kind, tint),
                attachment_indices(kind, base),
            );
            assert(crate::buffer::indices_local(stepped.batches)) by {
                assert(forall|i: int|
                    0 <= i < v.batches.len() && i != stepped.cursor ==> (
                    #[trigger] stepped.batches[i]) == v.batches[i]);
            }
            assert(base + kind_vertex_count(kind) <= 65536);
            assert(forall|k: int|
                0 <= k < attachment_indices(kind, base).len() ==> (#[trigger] attachment_indices(
                    kind,
                    base,
                )[k]) < base + kind_vertex_count(kind));
            assert(forall|i: int, k: int|
                0 <= i < end.batches.len() && 0 <= k < end.batches[i].idxs.len() ==> (
                #[trigger] end.batches[i].idxs[k]) < end.batches[i].verts.len()) by {
                assert(forall|i: int|
                    0 <= i < end.batches.len() && i != end.cursor ==> (#[trigger] end.batches[i])
                        == stepped.batches[i]);
                assert(end.current().verts.len() == base + kind_vertex_count(kind));
            }
        },
    }
}

/// How tessellating a whole slot sequence, in draw order, moves the
/// batcher state.
pub open spec fn skeleton_steps(
    v: ScratchView,
    slots: Seq<Slot>,
    skel_tint: Tint,
    opacity: u16,
) -> ScratchView
    decreases slots.len(),
{
    if slots.len() == 0 {
        v
    } else {
        slot_step(
            skeleton_steps(v, slots.drop_last(), skel_tint, opacity),
            slots.last(),
            skel_tint,
            opacity,
        )
    }
}

/// Tessellate a posed skeleton: walk its slots in draw order and append
/// each visible attachment's geometry to the batch of its texture. The
/// buffers must be freshly cleared, and the skeleton's total vertex
/// demand must fit under the 16-bit index limit.
pub fn tessellate_skeleton(skel: &Skeleton, opacity: u16, buffers: &mut ScratchBuffers)
    requires
        skel.wf(),
        old(buffers)@.wf(),
        old(buffers)@.all_empty(),
        slots_vertex_total(skel.slots@) <= 65536,
        old(buffers)@.batches.len() + skel.slots@.len() < usize::MAX,
    ensures
        final (buffers)@ == skeleton_steps(old(buffers)@, skel.slots@, skel.tint, opacity),
        final (buffers)@.wf(),
        crate::buffer::indices_local(final (buffers)@.batches),
{
    let n = skel.slots.len();
    let mut i: usize = 0;
    while i < n
        invariant
            i <= n,
            n == skel.slots@.len(),
            skel.wf(),
            slots_vertex_total(skel.slots@) <= 65536,
            old(buffers)@.batches.len() + n < usize::MAX,
            buffers@ == skeleton_steps(
                old(buffers)@,
                skel.slots@.take(i as int),
                skel.tint,
                opacity,
            ),
            buffers@.wf(),
            batch_lens_bounded(buffers@, slots_vertex_total(skel.slots@.take(i as int))),
            buffers@.batches.len() <= old(buffers)@.batches.len() + i,
            crate::buffer::indices_local(buffers@.batches),
        decreases n - i,
    {
        proof {
            assert(skel.slots@.take(i + 1).drop_last() =~= skel.slots@.take(i as int));
            assert(skel.slots@.take(i + 1).last() == skel.slots@[i as int]);
            lemma_total_take_le(skel.slots@, i + 1);
            assert(skel.slots@[i as int].wf());
            lemma_slot_step_bounds(
                buffers@,
                skel.slots@[i as int],
                skel.tint,
                opacity,
                slots_vertex_total(skel.slots@.take(i as int)),
            );
            lemma_slot_step_indices_local(buffers@, skel.slots@[i as int], skel.tint, opacity);
        }
        tessellate_slot(&skel.slots[i], &skel.tint, opacity, buffers);
        i = i + 1;
    }
    proof {
        assert(skel.slots@.take(n as int) =~= skel.slots@);
    }
}

/// The textures of the drawn slots, in draw order; skipped slots leave no
/// entry.
pub open spec fn slot_textures(slots: Seq<Slot>) -> Seq<u32>
    decreases slots.len(),
{
    if slots.len() == 0 {
        Seq::empty()
    } else {
        slot_textures(slots.drop_last()) + match slot_texture(slots.last()) {
            Some(t) => seq![t],
            None => Seq::<u32>::empty(),
        }
    }
}

/// The maximal texture-identical runs of a texture sequence, one entry
/// per run.
pub open spec fn runs_of(texs: Seq<u32>) -> Seq<u32>
    decreases texs.len(),
{
    if texs.len() == 0 {
        Seq::empty()
    } else {
        let r = runs_of(texs.drop_last());
        if r.len() > 0 && r.last() == texs.last() {
            r
        } else {
            r.push(texs.last())
        }
    }
}

/// Every drawn slot contributes at least one vertex and one index (a
/// region always does; only a degenerate mesh would not).
pub open spec fn slots_all_contribute(slots: Seq<Slot>) -> bool {
    forall|i: int|
        0 <= i < slots.len() && slot_texture(#[trigger] slots[i]) is Some ==> slot_vertex_count(
            slots[i],
        ) > 0 && slot_index_count(slots[i]) > 0
}

/// Tessellating a frame from cleared buffers fills exactly one batch per
/// maximal texture run, in run order: batch `j` carries the `j`-th run's
/// texture and holds geometry, every further slot stays as it was (and
/// therefore empty), and the cursor rests on the last run's batch. A
/// cleared buffer whose first slot was labeled by the first run (or a
/// buffer with no slots at all) is reused without moving any batch.
pub proof fn lemma_draw_calls_equal_runs(
    v: ScratchView,
    slots: Seq<Slot>,
    skel_tint: Tint,
    opacity: u16,
)
    requires
        v.wf(),
        v.all_empty(),
        v.cursor == 0,
        slots_all_contribute(slots),
        v.batches.len() == 0 || runs_of(slot_textures(slots)).len() == 0 || v.batches[0].tex
            == runs_of(slot_textures(slots))[0],
    ensures
        ({
            let end = skeleton_steps(v, slots, skel_tint, opacity);
            let rs = runs_of(slot_textures(slots));
            &&& end.batches.len() == if rs.len() >= v.batches.len() {
                rs.len()
            } else {
                v.batches.len()
            }
            &&& rs.len() <= end.batches.len()
            &&& (forall|j: int|
                0 <= j < rs.len() ==> (#[trigger] end.batches[j]).tex == rs[j]
                    && end.batches[j].has_geometry())
            &&& (forall|j: int|
                rs.len() <= j < end.batches.len() ==> (#[trigger] end.batches[j]) == v.batches[j])
            &&& end.cursor == if rs.len() == 0 {
                0int
            } else {
                rs.len() - 1
            }
            &&& end.wf()
        }),
    decreases slots.len(),
{
    let end = skeleton_steps(v, slots, skel_tint, opacity);
    let texs = slot_textures(slots);
    let rs = runs_of(texs);
    if slots.len() == 0 {
    } else {
        let prev = slots.drop_last();
        let s = slots.last();
        let end_prev = skeleton_steps(v, prev, skel_tint, opacity);
        let texs_prev = slot_textures(prev);
        let rs_prev = runs_of(texs_prev);
        assert(slots[slots.len() - 1] == s);
        assert(slot_texture(s) is Some ==> slot_vertex_count(s) > 0 && slot_index_count(s) > 0);
        match slot_texture(s) {
            None => {
                assert(texs =~= texs_prev);
                assert(rs == rs_prev);
                lemma_draw_calls_equal_runs(v, prev, skel_tint, opacity);
                assert(end == end_prev);
            },
            Some(t) => {
                assert(texs.drop_last() =~= texs_prev);
                assert(texs.last() == t);
                assert(rs == if rs_prev.len() > 0 && rs_prev.last() == t {
                    rs_prev
                } else {
                    rs_prev.push(t)
                });
                assert(rs.len() > 0);
                assert(rs_prev.len() > 0 ==> rs[0] == rs_prev[0]);
                lemma_draw_calls_equal_runs(v, prev, skel_tint, opacity);
                lemma_batch_step(end_prev, t);
                let stepped = batch_step(end_prev, t);
                let kind = s.attachment->Some_0.kind;
                let tint = compose_tint_spec(skel_tint, s.tint, opacity);
                let base = stepped.current().verts.len() as int;
                let added_verts = attachment_vertices(kind, tint);
                let added_idxs = attachment_indices(kind, base);
                assert(added_verts.len() == slot_vertex_count(s));
                assert(added_idxs.len() == slot_index_count(s));
                assert(end == append_step(stepped, added_verts, added_idxs));
                assert(end.cursor == stepped.cursor);
                assert(end.batches.len() == stepped.batches.len());
                assert(end.current().tex == t);
                assert(end.current().has_geometry());
                assert(forall|j: int|
                    0 <= j < stepped.batches.len() && j != stepped.cursor ==> (
                    #[trigger] end.batches[j]) == stepped.batches[j]);
                if rs_prev.len() == 0 {
                    assert(forall|j: int|
                        0 <= j < end_prev.batches.len() ==> (#[trigger] end_prev.batches[j])
                            == v.batches[j]);
                    if end_prev.batches.len() == 0 {
                        assert(rs =~= seq![t]);
                    } else {
                        assert(end_prev.batches[0].tex == v.batches[0].tex);
                        assert(v.batches[0].tex == rs[0]);
                        assert(rs[0] == t) by {
                            assert(rs == rs_prev.push(t));
                        }
                        assert(end_prev.current().tex == t);
                        assert(stepped == end_prev);
                        assert(v.batches[0].is_empty());
                    }
                } else {
                    assert(end_prev.cursor == rs_prev.len() - 1);
                    assert(end_prev.batches[rs_prev.len() - 1].tex == rs_prev.last());
                    if rs_prev.last() == t {
                        assert(stepped == end_prev);
                        assert(rs == rs_prev);
                        assert(end_prev.batches[end_prev.cursor].has_geometry());
                    } else {
                        assert(rs == rs_prev.push(t));
                        assert(stepped.cursor == end_prev.cursor + 1);
                        if end_prev.cursor + 1 < end_prev.batches.len() {
                            assert(end_prev.batches[end_prev.cursor + 1]
                                == v.batches[end_prev.cursor + 1]);
                        } else {
                            assert(end_prev.batches.len() == rs_prev.len());
                            assert(rs_prev.len() >= v.batches.len());
                        }
                    }
                }
            },
        }
    }
}

/// The drawn batches of a frame are exactly the run batches: starting
/// from cleared buffers, the number of draw calls issued equals the
/// number of maximal texture-identical runs in slot draw order.
pub proof fn lemma_draw_count_is_run_count(
    v: ScratchView,
    slots: Seq<Slot>,
    skel_tint: Tint,
    opacity: u16,
)
    requires
        v.wf(),
        v.all_empty(),
        v.cursor == 0,
        slots_all_contribute(slots),
        v.batches.len() == 0 || runs_of(slot_textures(slots)).len() == 0 || v.batches[0].tex
            == runs_of(slot_textures(slots))[0],
    ensures
        ({
            let end = skeleton_steps(v, slots, skel_tint, opacity);
            let rs = runs_of(slot_textures(slots));
            &&& crate::buffer::nonempty_of(end.batches) == end.batches.take(rs.len() as int)
            &&& crate::buffer::nonempty_of(end.batches).len() == rs.len()
        }),
{
    lemma_draw_calls_equal_runs(v, slots, skel_tint, opacity);
    let end = skeleton_steps(v, slots, skel_tint, opacity);
    let rs = runs_of(slot_textures(slots));
    assert(forall|j: int|
        rs.len() <= j < end.batches.len() ==> (#[trigger] end.batches[j]).is_empty());
    lemma_nonempty_prefix(end.batches, rs.len() as int);
}

/// In a sequence whose first `k` batches hold geometry and whose rest are
/// empty, the drawn batches are exactly that prefix.
pub proof fn lemma_nonempty_prefix(batches: Seq<BatchView>, k: int)
    requires
        0 <= k <= batches.len(),
        forall|j: int| 0 <= j < k ==> (#[trigger] batches[j]).has_geometry(),
        forall|j: int| k <= j < batches.len() ==> (#[trigger] batches[j]).is_empty(),
    ensures
        crate::buffer::nonempty_of(batches) == batches.take(k),
    decreases batches.len(),
{
    if batches.len() == 0 {
        assert(crate::buffer::nonempty_of(batches) =~= batches.take(k));
    } else if k == batches.len() {
        lemma_nonempty_prefix(batches.drop_last(), k - 1);
        assert(batches.drop_last().take(k - 1) =~= batches.drop_last());
        assert(crate::buffer::nonempty_of(batches) =~= batches.take(k));
    } else {
        assert(batches.last().is_empty());
        lemma_nonempty_prefix(batches.drop_last(), k);
        assert(batches.drop_last().take(k) =~= batches.take(k));
        assert(crate::buffer::nonempty_of(batches) =~= batches.take(k));
    }
}

/// Cleared buffers are reused in place: when the next frame encounters
/// textures in the same run order that labeled the slots (and the slot
/// count suffices), every batch keeps its former position and label and
/// no new slot is allocated.
pub proof fn lemma_replay_keeps_positions(
    v: ScratchView,
    slots: Seq<Slot>,
    skel_tint: Tint,
    opacity: u16,
)
    requires
        v.wf(),
        v.all_empty(),
        v.cursor == 0,
        slots_all_contribute(slots),
        runs_of(slot_textures(slots)).len() <= v.batches.len(),
        forall|j: int|
            0 <= j < runs_of(slot_textures(slots)).len() ==> (#[trigger] v.batches[j]).tex
                == runs_of(slot_textures(slots))[j],
    ensures
        ({
            let end = skeleton_steps(v, slots, skel_tint, opacity);
            &&& end.batches.len() == v.batches.len()
            &&& (forall|j: int|
                0 <= j < end.batches.len() ==> (#[trigger] end.batches[j]).tex
                    == v.batches[j].tex)
        }),
{
    lemma_draw_calls_equal_runs(v, slots, skel_tint, opacity);
}

/// A drawn region attachment contributes exactly four vertices and the
/// six indices 0,1,2,2,3,0 offset by the batch's running vertex count,
/// and every contributed vertex carries the tint composed from the
/// skeleton tint, the slot tint and the global opacity.
pub proof fn lemma_region_contribution(
    v: ScratchView,
    slot: Slot,
    skel_tint: Tint,
    opacity: u16,
)
    requires
        v.wf(),
        slot.attachment is Some,
        slot.attachment->Some_0.kind is Region,
        slot_texture(slot) is Some,
    ensures
        ({
            let stepped = batch_step(v, slot_texture(slot)->Some_0);
            let base = stepped.current().verts.len() as int;
            let end = slot_step(v, slot, skel_tint, opacity);
            let tint = compose_tint_spec(skel_tint, slot.tint, opacity);
            &&& end.current().verts.len() == base + 4
            &&& end.current().idxs == stepped.current().idxs + seq![
                base as u16,
                (base + 1) as u16,
                (base + 2) as u16,
                (base + 2) as u16,
                (base + 3) as u16,
                base as u16,
            ]
            &&& (forall|k: int|
                base <= k < base + 4 ==> (#[trigger] end.current().verts[k]).tint == tint)
        }),
{
    lemma_batch_step(v, slot_texture(slot)->Some_0);
}

} // verus!
