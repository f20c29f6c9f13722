//! The frame render pipeline's decisions: which draw calls one frame
//! issues, in what order, over which data.
//!
//! Per frame: tessellate the posed skeleton into the scratch buffers, pad
//! every batch's lists up to a multiple of four entries for upload-size
//! alignment, and emit one draw call per batch with geometry, in creation
//! order. A draw call covers only the batch's pre-padding index count:
//! padding never expands the visible geometry. The first draw call of a
//! frame clears the target to fully transparent, every later one loads
//! it, so batches accumulate in slot draw order. After planning, the
//! scratch buffers are cleared for the next frame.
//!
//! Uploading and submitting the planned draw calls to a graphics device
//! is the caller's part; everything the device needs stands in the plan.

use vstd::prelude::*;

use crate::buffer::{nonempty_of, pad_idxs, pad_verts, BatchView, ScratchBuffers};
use crate::skel::Skeleton;
use crate::tessellate::{
    lemma_draw_count_is_run_count, runs_of, skeleton_steps, slot_textures, slots_all_contribute,
    slots_vertex_total, tessellate_skeleton,
};
use crate::texture::TextureID;
use crate::vertex::{opacity_unit, opacity_unit_spec, Vertex};

verus! {

/// One planned draw call: the texture to sample, the padded vertex and
/// index data to upload, the pre-padding index count the draw covers, and
/// whether the target is cleared or loaded.
pub struct DrawCall {
    pub tex: TextureID,
    pub vertices: Vec<Vertex>,
    pub indices: Vec<u16>,
    pub index_count: usize,
    pub clear_target: bool,
}

/// The ghost form of a planned draw call.
#[verifier::ext_equal]
pub struct DrawView {
    pub tex: u32,
    pub verts: Seq<Vertex>,
    pub idxs: Seq<u16>,
    pub index_count: int,
    pub clear_target: bool,
}

impl View for DrawCall {
    type V = DrawView;

    open spec fn view(&self) -> DrawView {
        DrawView {
            tex: self.tex.0,
            verts: self.vertices@,
            idxs: self.indices@,
            index_count: self.index_count as int,
            clear_target: self.clear_target,
        }
    }
}

/// One frame's draw calls, in submission order.
pub struct FramePlan {
    pub draws: Vec<DrawCall>,
}

/// The ghost contents of a frame plan.
pub open spec fn plan_view(draws: Seq<DrawCall>) -> Seq<DrawView> {
    draws.map(|i: int, d: DrawCall| d@)
}

/// The draw calls a batch sequence gives, before clear flags: one per
/// batch with geometry, in order, with padded data and the pre-padding
/// index count.
pub open spec fn draws_of(batches: Seq<BatchView>) -> Seq<DrawView>
    decreases batches.len(),
{
    if batches.len() == 0 {
        Seq::empty()
    } else {
        draws_of(batches.drop_last()) + if batches.last().has_geometry() {
            seq![
                DrawView {
                    tex: batches.last().tex,
                    verts: pad_verts(batches.last().verts),
                    idxs: pad_idxs(batches.last().idxs),
                    index_count: batches.last().idxs.len() as int,
                    clear_target: false,
                },
            ]
        } else {
            Seq::<DrawView>::empty()
        }
    }
}

/// Set the clear flags: the first draw call clears the target, every
/// later one loads it.
pub open spec fn with_clear(s: Seq<DrawView>) -> Seq<DrawView> {
    Seq::new(s.len(), |i: int| DrawView { clear_target: i == 0, ..s[i] })
}

/// A batch sequence with every batch's lists padded.
pub open spec fn padded_batches(batches: Seq<BatchView>) -> Seq<BatchView> {
    Seq::new(
        batches.len(),
        |i: int| BatchView {
            tex: batches[i].tex,
            verts: pad_verts(batches[i].verts),
            idxs: pad_idxs(batches[i].idxs),
        },
    )
}

/// Padding facts: a padded length is a multiple of four and at least the
/// length it padded.
pub proof fn lemma_padded_len(n: nat)
    ensures
        crate::buffer::padded_len(n) % 4 == 0,
        n <= crate::buffer::padded_len(n),
{
}

/// Every planned draw call covers at most its padded index data, its
/// padded lengths are multiples of four, and it covers at least one
/// index.
pub proof fn lemma_draws_of_padding(batches: Seq<BatchView>)
    ensures
        forall|j: int|
            0 <= j < draws_of(batches).len() ==> {
                let d = #[trigger] draws_of(batches)[j];
                &&& 1 <= d.index_count <= d.idxs.len()
                &&& d.idxs.len() % 4 == 0
                &&& d.verts.len() % 4 == 0
            },
    decreases batches.len(),
{
    if batches.len() > 0 {
        lemma_draws_of_padding(batches.drop_last());
        let prefix = draws_of(batches.drop_last());
        let all = draws_of(batches);
        if batches.last().has_geometry() {
            lemma_padded_len(batches.last().verts.len());
            lemma_padded_len(batches.last().idxs.len());
            assert(forall|j: int| 0 <= j < prefix.len() ==> #[trigger] all[j] == prefix[j]);
            assert(all[all.len() - 1].idxs.len() % 4 == 0);
            assert(all[all.len() - 1].verts.len() % 4 == 0);
        } else {
            assert(all =~= prefix);
            assert(forall|j: int| 0 <= j < prefix.len() ==> #[trigger] all[j] == prefix[j]);
        }
    }
}

/// Planned draw calls keep indices local: when every batch's indices
/// refer to its own vertices, so do every draw call's, padding included
/// (padding only appends vertices and zero indices).
pub proof fn lemma_draws_of_local(batches: Seq<BatchView>)
    requires
        crate::buffer::indices_local(batches),
    ensures
        forall|j: int, k: int|
            0 <= j < draws_of(batches).len() && 0 <= k < draws_of(batches)[j].idxs.len() ==> (
            #[trigger] draws_of(batches)[j].idxs[k]) < draws_of(batches)[j].verts.len(),
    decreases batches.len(),
{
    if batches.len() > 0 {
        assert(crate::buffer::indices_local(batches.drop_last())) by {
            assert(forall|i: int|
                0 <= i < batches.len() - 1 ==> (#[trigger] batches.drop_last()[i]) == batches[i]);
        }
        lemma_draws_of_local(batches.drop_last());
        let prefix = draws_of(batches.drop_last());
        let all = draws_of(batches);
        if batches.last().has_geometry() {
            let b = batches.last();
            lemma_padded_len(b.verts.len());
            lemma_padded_len(b.idxs.len());
            assert(forall|k: int|
                0 <= k < b.idxs.len() ==> (#[trigger] b.idxs[k]) < b.verts.len()) by {
                assert(forall|k: int|
                    0 <= k < b.idxs.len() ==> (#[trigger] batches[batches.len() - 1].idxs[k])
                        < batches[batches.len() - 1].verts.len());
            }
            assert(forall|k: int|
                0 <= k < pad_idxs(b.idxs).len() ==> (#[trigger] pad_idxs(b.idxs)[k]) < pad_verts(
                    b.verts,
                ).len());
            assert(forall|j: int| 0 <= j < prefix.len() ==> #[trigger] all[j] == prefix[j]);
        } else {
            assert(all =~= prefix);
            assert(forall|j: int| 0 <= j < prefix.len() ==> #[trigger] all[j] == prefix[j]);
        }
    }
}

/// A batch sequence plans as many draw calls as it has batches with
/// geometry.
pub proof fn lemma_draws_of_len(batches: Seq<BatchView>)
    ensures
        draws_of(batches).len() == nonempty_of(batches).len(),
    decreases batches.len(),
{
    if batches.len() > 0 {
        lemma_draws_of_len(batches.drop_last());
    }
}

/// Pad every batch in place and plan the frame's draw calls: one per
/// batch with geometry, in creation order, each covering its pre-padding
/// index count, the first clearing the target and the rest loading it.
pub fn build_frame_plan(buffers: &mut ScratchBuffers) -> (plan: FramePlan)
    requires
        old(buffers)@.wf(),
    ensures
        final (buffers)@.cursor == old(buffers)@.cursor,
        final (buffers)@.batches == padded_batches(old(buffers)@.batches),
        final (buffers)@.wf(),
        plan_view(plan.draws@) == with_clear(draws_of(old(buffers)@.batches)),
        forall|j: int|
            0 <= j < plan.draws@.len() ==> {
                let d = (#[trigger] plan.draws@[j])@;
                &&& 1 <= d.index_count <= d.idxs.len()
                &&& d.idxs.len() % 4 == 0
                &&& d.verts.len() % 4 == 0
                &&& d.clear_target == (j == 0)
            },
{
    let n = buffers.batch_count();
    let mut draws: Vec<DrawCall> = Vec::new();
    let mut cleared = false;
    let mut i: usize = 0;
    while i < n
        invariant
            i <= n,
            n == buffers@.batches.len(),
            n == old(buffers)@.batches.len(),
            buffers@.cursor == old(buffers)@.cursor,
            buffers@.wf(),
            forall|j: int|
                0 <= j < i ==> (#[trigger] buffers@.batches[j]) == padded_batches(
                    old(buffers)@.batches,
                )[j],
            forall|j: int| i <= j < n ==> (#[trigger] buffers@.batches[j]) == old(
                buffers,
            )@.batches[j],
            plan_view(draws@) =~~= with_clear(draws_of(old(buffers)@.batches.take(i as int))),
            cleared == (draws_of(old(buffers)@.batches.take(i as int)).len() > 0),
        decreases n - i,
    {
        proof {
            assert(old(buffers)@.batches.take(i + 1).drop_last() =~= old(buffers)@.batches.take(
                i as int,
            ));
            assert(old(buffers)@.batches.take(i + 1).last() == old(buffers)@.batches[i as int]);
        }
        let vlen = buffers.batch_vertex_len(i);
        let icount = buffers.batch_index_len(i);
        let skip = vlen == 0 || icount == 0;
        buffers.pad_batch(i);
        if !skip {
            let tex = buffers.batch_texture(i);
            let vs = buffers.batch_vertices(i);
            let xs = buffers.batch_indices(i);
            let clear_target = !cleared;
            cleared = true;
            let ghost prev = draws@;
            draws.push(DrawCall { tex, vertices: vs, indices: xs, index_count: icount, clear_target });
            proof {
                assert(plan_view(draws@) =~~= plan_view(prev).push(
                    DrawView {
                        tex: tex.0,
                        verts: vs@,
                        idxs: xs@,
                        index_count: icount as int,
                        clear_target,
                    },
                ));
                assert(plan_view(draws@) =~~= with_clear(
                    draws_of(old(buffers)@.batches.take(i + 1)),
                ));
            }
        } else {
            proof {
                assert(plan_view(draws@) =~~= with_clear(
                    draws_of(old(buffers)@.batches.take(i + 1)),
                ));
            }
        }
        i = i + 1;
    }
    proof {
        assert(old(buffers)@.batches.take(n as int) =~= old(buffers)@.batches);
        assert(buffers@.batches =~= padded_batches(old(buffers)@.batches));
        lemma_draws_of_padding(old(buffers)@.batches);
        assert(forall|j: int|
            0 <= j < draws@.len() ==> (#[trigger] draws@[j])@ == plan_view(draws@)[j]);
    }
    FramePlan { draws }
}

/// Run one frame over a posed skeleton: tessellate its slots in draw
/// order into the scratch buffers, pad and plan the draw calls, and clear
/// the buffers for the next frame (their slots stay, so the next frame
/// reuses them). The opacity percentage scales every vertex's alpha.
///
/// The plan issues exactly one draw call per maximal texture-identical
/// run in slot draw order, whenever every drawn slot contributes geometry
/// and the cleared buffers' first slot matches the first run (a fresh
/// buffer, or the steady state of repeating frames).
pub fn render_frame(skel: &Skeleton, opacity_percent: u8, buffers: &mut ScratchBuffers) -> (plan:
    FramePlan)
    requires
        skel.wf(),
        opacity_percent <= 100,
        old(buffers)@.wf(),
        old(buffers)@.all_empty(),
        old(buffers)@.cursor == 0,
        slots_vertex_total(skel.slots@) <= 65536,
        old(buffers)@.batches.len() + skel.slots@.len() < usize::MAX,
    ensures
        ({
            let end = skeleton_steps(
                old(buffers)@,
                skel.slots@,
                skel.tint,
                opacity_unit_spec(opacity_percent) as u16,
            );
            let rs = runs_of(slot_textures(skel.slots@));
            &&& plan_view(plan.draws@) == with_clear(draws_of(end.batches))
            &&& final (buffers)@.wf()
            &&& final (buffers)@.cursor == 0
            &&& final (buffers)@.all_empty()
            &&& final (buffers)@.batches.len() == end.batches.len()
            &&& (forall|j: int|
                0 <= j < end.batches.len() ==> (#[trigger] final (buffers)@.batches[j]).tex
                    == end.batches[j].tex)
            &&& (slots_all_contribute(skel.slots@) && (old(buffers)@.batches.len() == 0
                || rs.len() == 0 || old(buffers)@.batches[0].tex == rs[0])
                ==> plan.draws@.len() == rs.len())
        }),
        forall|j: int|
            0 <= j < plan.draws@.len() ==> {
                let d = (#[trigger] plan.draws@[j])@;
                &&& 1 <= d.index_count <= d.idxs.len()
                &&& d.idxs.len() % 4 == 0
                &&& d.verts.len() % 4 == 0
                &&& d.clear_target == (j == 0)
            },
        forall|j: int, k: int|
            0 <= j < plan.draws@.len() && 0 <= k < plan.draws@[j]@.idxs.len() ==> (
            #[trigger] plan.draws@[j]@.idxs[k]) < plan.draws@[j]@.verts.len(),
{
    let opacity = opacity_unit(opacity_percent);
    proof {
        assert(opacity == opacity_unit_spec(opacity_percent) as u16);
    }
    tessellate_skeleton(skel, opacity, buffers);
    let ghost end = buffers@;
    proof {
        if slots_all_contribute(skel.slots@) && (old(buffers)@.batches.len() == 0 || runs_of(
            slot_textures(skel.slots@),
        ).len() == 0 || old(buffers)@.batches[0].tex == runs_of(slot_textures(skel.slots@))[0]) {
            lemma_draw_count_is_run_count(
                old(buffers)@,
                skel.slots@,
                skel.tint,
                opacity_unit_spec(opacity_percent) as u16,
            );
            lemma_draws_of_len(end.batches);
        }
    }
    proof {
        lemma_draws_of_local(end.batches);
    }
    let plan = build_frame_plan(buffers);
    buffers.clear();
    proof {
        assert(forall|j: int|
            0 <= j < end.batches.len() ==> (#[trigger] padded_batches(end.batches)[j]).tex
                == end.batches[j].tex);
        assert(forall|j: int|
            0 <= j < plan.draws@.len() ==> (#[trigger] plan.draws@[j])@ == plan_view(
                plan.draws@,
            )[j]);
        let end2 = skeleton_steps(
            old(buffers)@,
            skel.slots@,
            skel.tint,
            opacity_unit_spec(opacity_percent) as u16,
        );
        assert(end == end2);
        let rs = runs_of(slot_textures(skel.slots@));
        assert(plan_view(plan.draws@) == with_clear(draws_of(end2.batches)));
        assert(buffers@.wf());
        assert(buffers@.cursor == 0);
        assert(buffers@.all_empty());
        assert(buffers@.batches.len() == end2.batches.len());
        assert(forall|j: int|
            0 <= j < end2.batches.len() ==> (#[trigger] buffers@.batches[j]).tex
                == end2.batches[j].tex);
        if slots_all_contribute(skel.slots@) && (old(buffers)@.batches.len() == 0 || rs.len() == 0
            || old(buffers)@.batches[0].tex == rs[0]) {
            assert(plan.draws@.len() == plan_view(plan.draws@).len());
            assert(plan_view(plan.draws@).len() == draws_of(end2.batches).len());
            assert(draws_of(end2.batches).len() == nonempty_of(end2.batches).len());
            assert(nonempty_of(end2.batches).len() == rs.len());
            assert(plan.draws@.len() == rs.len());
        }
    }
    plan
}

} // verus!
