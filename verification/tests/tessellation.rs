use mon3tr_widget::attachment::{Attachment, AttachmentType, MeshAttachment, PathAttachment, RegionAttachment};
use mon3tr_widget::buffer::ScratchBuffers;
use mon3tr_widget::skel::{BlendMode, Slot};
use mon3tr_widget::tessellate::tessellate_slot;
use mon3tr_widget::texture::TextureID;
use mon3tr_widget::vertex::{unit_mul, Tint, UNIT_ONE};

fn white() -> Tint {
    Tint { r: UNIT_ONE, g: UNIT_ONE, b: UNIT_ONE, a: UNIT_ONE }
}

fn region_slot(tex: Option<TextureID>, tint: Tint) -> Slot {
    let region = RegionAttachment {
        positions: [(10, 11), (20, 21), (30, 31), (40, 41)],
        uvs: [(1, 2), (3, 4), (5, 6), (7, 8)],
        texture: tex,
    };
    Slot {
        attachment: Some(Attachment::new(String::from("quad"), AttachmentType::Region(region))),
        tint,
        blend: BlendMode::Normal,
    }
}

#[test]
fn region_contributes_four_vertices_six_indices() {
    let mut buffers = ScratchBuffers::new();
    let slot = region_slot(Some(TextureID(3)), white());
    tessellate_slot(&slot, &white(), UNIT_ONE, &mut buffers);
    let drained = buffers.iter_mut();
    assert_eq!(drained.len(), 1);
    let (tex, verts, idxs) = &drained[0];
    assert_eq!(*tex, TextureID(3));
    assert_eq!(verts.len(), 4);
    assert_eq!(idxs, &vec![0u16, 1, 2, 2, 3, 0]);
    assert_eq!(verts[0].position, (10, 11));
    assert_eq!(verts[0].tex_coords, (1, 2));
    assert_eq!(verts[3].position, (40, 41));
    assert_eq!(verts[3].tex_coords, (7, 8));
}

#[test]
fn second_region_indices_are_offset_by_running_vertex_count() {
    let mut buffers = ScratchBuffers::new();
    let slot = region_slot(Some(TextureID(3)), white());
    tessellate_slot(&slot, &white(), UNIT_ONE, &mut buffers);
    tessellate_slot(&slot, &white(), UNIT_ONE, &mut buffers);
    let drained = buffers.iter_mut();
    assert_eq!(drained.len(), 1);
    let (_, verts, idxs) = &drained[0];
    assert_eq!(verts.len(), 8);
    assert_eq!(idxs, &vec![0u16, 1, 2, 2, 3, 0, 4, 5, 6, 6, 7, 4]);
}

#[test]
fn mesh_contributes_its_own_indices_offset() {
    let mut buffers = ScratchBuffers::new();
    // First a region (4 vertices), then a mesh on the same texture.
    let slot = region_slot(Some(TextureID(5)), white());
    tessellate_slot(&slot, &white(), UNIT_ONE, &mut buffers);
    let mesh = MeshAttachment {
        positions: vec![(1, 1), (2, 2), (3, 3)],
        uvs: vec![(9, 9), (8, 8), (7, 7)],
        indices: vec![2, 1, 0],
        texture: Some(TextureID(5)),
    };
    let mesh_slot = Slot {
        attachment: Some(Attachment::new(String::from("mesh"), AttachmentType::Mesh(mesh))),
        tint: white(),
        blend: BlendMode::Normal,
    };
    tessellate_slot(&mesh_slot, &white(), UNIT_ONE, &mut buffers);
    let drained = buffers.iter_mut();
    assert_eq!(drained.len(), 1);
    let (_, verts, idxs) = &drained[0];
    assert_eq!(verts.len(), 7);
    assert_eq!(&idxs[6..], &[6u16, 5, 4]);
    assert_eq!(verts[4].position, (1, 1));
    assert_eq!(verts[4].tex_coords, (9, 9));
}

#[test]
fn unresolved_texture_and_bare_slots_are_skipped() {
    let mut buffers = ScratchBuffers::new();
    let unresolved = region_slot(None, white());
    tessellate_slot(&unresolved, &white(), UNIT_ONE, &mut buffers);
    let empty_slot = Slot { attachment: None, tint: white(), blend: BlendMode::Normal };
    tessellate_slot(&empty_slot, &white(), UNIT_ONE, &mut buffers);
    let path_slot = Slot {
        attachment: Some(Attachment::new(String::from("path"), AttachmentType::Path(PathAttachment))),
        tint: white(),
        blend: BlendMode::Normal,
    };
    tessellate_slot(&path_slot, &white(), UNIT_ONE, &mut buffers);
    assert_eq!(buffers.batch_count(), 0);
}

#[test]
fn unit_mul_matches_fixed_point_product() {
    assert_eq!(unit_mul(UNIT_ONE, UNIT_ONE), UNIT_ONE);
    assert_eq!(unit_mul(0, UNIT_ONE), 0);
    assert_eq!(unit_mul(32768, 32768), 16384);
    // 30000 * 40000 / 65535 == 18310 (rounded down)
    assert_eq!(unit_mul(30000, 40000), 18310);
}

#[test]
fn vertex_tint_composes_skeleton_slot_and_opacity() {
    let mut buffers = ScratchBuffers::new();
    let skel_tint = Tint { r: 60000, g: 50000, b: 40000, a: 30000 };
    let slot_tint = Tint { r: 10000, g: 20000, b: 30000, a: 40000 };
    let opacity: u16 = 32767;
    let slot = region_slot(Some(TextureID(1)), slot_tint);
    tessellate_slot(&slot, &skel_tint, opacity, &mut buffers);
    let drained = buffers.iter_mut();
    let (_, verts, _) = &drained[0];
    let expected = Tint {
        r: unit_mul(60000, 10000),
        g: unit_mul(50000, 20000),
        b: unit_mul(40000, 30000),
        a: unit_mul(unit_mul(30000, 40000), opacity),
    };
    for v in verts {
        assert_eq!(v.tint, expected);
    }
    // RGB ignores opacity; alpha includes it.
    assert_eq!(expected.r, unit_mul(60000, 10000));
    assert_ne!(expected.a, unit_mul(30000, 40000));
}
