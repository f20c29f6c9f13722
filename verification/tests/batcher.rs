use mon3tr_widget::buffer::ScratchBuffers;
use mon3tr_widget::texture::TextureID;
use mon3tr_widget::vertex::{Tint, Vertex};

fn vert(x: u32) -> Vertex {
    Vertex { position: (x, 0), tex_coords: (0, 0), tint: Tint { r: 0, g: 0, b: 0, a: 0 } }
}

#[test]
fn new_batcher_has_no_batches() {
    let b = ScratchBuffers::new();
    assert_eq!(b.batch_count(), 0);
    assert!(b.iter_mut().is_empty());
}

#[test]
fn same_texture_extends_one_batch() {
    let mut b = ScratchBuffers::new();
    let i0 = b.get_buffers_mut(TextureID(7));
    b.push_vertex(vert(1));
    b.push_index(0);
    let i1 = b.get_buffers_mut(TextureID(7));
    b.push_vertex(vert(2));
    b.push_index(1);
    assert_eq!(i0, 0);
    assert_eq!(i1, 0);
    assert_eq!(b.batch_count(), 1);
    assert_eq!(b.batch_vertex_len(0), 2);
    assert_eq!(b.batch_index_len(0), 2);
}

#[test]
fn reappearing_texture_starts_new_batch() {
    // Texture runs A, B, A give three batches, not two: the batch count is
    // the number of runs in encounter order.
    let mut b = ScratchBuffers::new();
    for (tex, expected_slot) in [(1u32, 0usize), (2, 1), (1, 2)] {
        let slot = b.get_buffers_mut(TextureID(tex));
        assert_eq!(slot, expected_slot);
        b.push_vertex(vert(tex));
        b.push_index(0);
    }
    assert_eq!(b.batch_count(), 3);
    assert_eq!(b.batch_texture(0), TextureID(1));
    assert_eq!(b.batch_texture(1), TextureID(2));
    assert_eq!(b.batch_texture(2), TextureID(1));
}

#[test]
fn clear_empties_but_preserves_slots() {
    // After clear, the same encounter order reuses every slot at its old
    // position and allocates nothing new.
    let mut b = ScratchBuffers::new();
    for tex in [1u32, 2, 3] {
        b.get_buffers_mut(TextureID(tex));
        b.push_vertex(vert(tex));
        b.push_index(0);
    }
    assert_eq!(b.batch_count(), 3);

    b.clear();
    assert_eq!(b.batch_count(), 3);
    for i in 0..3 {
        assert_eq!(b.batch_vertex_len(i), 0);
        assert_eq!(b.batch_index_len(i), 0);
    }

    for (tex, expected_slot) in [(1u32, 0usize), (2, 1), (3, 2)] {
        let slot = b.get_buffers_mut(TextureID(tex));
        assert_eq!(slot, expected_slot);
        b.push_vertex(vert(tex));
        b.push_index(0);
    }
    assert_eq!(b.batch_count(), 3);
}

#[test]
fn relabeling_reuses_cleared_slots_for_new_textures() {
    let mut b = ScratchBuffers::new();
    for tex in [1u32, 2] {
        b.get_buffers_mut(TextureID(tex));
        b.push_vertex(vert(tex));
        b.push_index(0);
    }
    b.clear();
    // Same first texture, then a texture never seen before: the second
    // slot is relabeled in place.
    let s0 = b.get_buffers_mut(TextureID(1));
    b.push_vertex(vert(1));
    b.push_index(0);
    let s1 = b.get_buffers_mut(TextureID(9));
    b.push_vertex(vert(9));
    b.push_index(0);
    assert_eq!((s0, s1), (0, 1));
    assert_eq!(b.batch_count(), 2);
    assert_eq!(b.batch_texture(1), TextureID(9));
}

#[test]
fn changed_first_texture_after_clear_leaves_slot_zero_behind() {
    // Reuse only matches the current slot's label: when the next frame
    // opens with a different texture, the cursor advances past the first
    // slot, which stays empty (and undrawn) for that frame.
    let mut b = ScratchBuffers::new();
    b.get_buffers_mut(TextureID(1));
    b.push_vertex(vert(1));
    b.push_index(0);
    b.clear();
    let slot = b.get_buffers_mut(TextureID(2));
    b.push_vertex(vert(2));
    b.push_index(0);
    assert_eq!(slot, 1);
    assert_eq!(b.batch_count(), 2);
    assert_eq!(b.batch_texture(0), TextureID(1));
    assert_eq!(b.batch_texture(1), TextureID(2));
    let drained = b.iter_mut();
    assert_eq!(drained.len(), 1);
    assert_eq!(drained[0].0, TextureID(2));
}

#[test]
fn iter_mut_skips_batches_without_geometry() {
    let mut b = ScratchBuffers::new();
    b.get_buffers_mut(TextureID(1));
    b.push_vertex(vert(1));
    b.push_index(0);
    // Advance to a batch for texture 2 but append nothing to it.
    b.get_buffers_mut(TextureID(2));
    let drained = b.iter_mut();
    assert_eq!(drained.len(), 1);
    assert_eq!(drained[0].0, TextureID(1));
    assert_eq!(drained[0].1, vec![vert(1)]);
    assert_eq!(drained[0].2, vec![0u16]);
}

#[test]
fn pad_batch_pads_to_multiples_of_four() {
    let mut b = ScratchBuffers::new();
    b.get_buffers_mut(TextureID(1));
    for i in 0..5 {
        b.push_vertex(vert(i));
    }
    for i in 0..3 {
        b.push_index(i as u16);
    }
    b.pad_batch(0);
    assert_eq!(b.batch_vertex_len(0), 8);
    assert_eq!(b.batch_index_len(0), 4);
    let verts = b.batch_vertices(0);
    assert_eq!(verts[5], Vertex { position: (0, 0), tex_coords: (0, 0), tint: Tint { r: 0, g: 0, b: 0, a: 0 } });
    let idxs = b.batch_indices(0);
    assert_eq!(idxs, vec![0, 1, 2, 0]);
}
