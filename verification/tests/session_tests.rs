use mon3tr_widget::anim::{Animation, AnimationState, AnimationStateData, TrackCommand};
use mon3tr_widget::atlas::{Atlas, AtlasFilter, AtlasPage, AtlasRegion, AtlasWrap};
use mon3tr_widget::attachment::{Attachment, AttachmentType, MeshAttachment, RegionAttachment};
use mon3tr_widget::skel::{BlendMode, SkeletonData, Slot, SlotData};
use mon3tr_widget::spine_state::SpineState;
use mon3tr_widget::texture::TextureID;
use mon3tr_widget::vertex::Tint;

fn sample_page() -> AtlasPage {
    AtlasPage {
        name: String::from("page0"),
        width_px: 1024,
        height_px: 512,
        mag_filter: AtlasFilter::Linear,
        min_filter: AtlasFilter::MipmapLinearLinear,
        u_wrap: AtlasWrap::Repeat,
        v_wrap: AtlasWrap::MirroredRepeat,
    }
}

fn sample_region() -> AtlasRegion {
    AtlasRegion {
        name: String::from("head"),
        page_index: 0,
        x_px: 4,
        y_px: 8,
        width_px: 100,
        height_px: 120,
        original_width_px: 110,
        original_height_px: 130,
        region_index: 2,
        is_rotated: true,
        is_flipped: false,
    }
}

fn sample_skeleton_data() -> SkeletonData {
    SkeletonData {
        slots: vec![SlotData { name: String::from("head"), attachment_name: String::from("head-a") }],
        animations: vec![Animation { name: String::from("Idle"), duration: 42 }],
        width: 300,
        height: 400,
    }
}

#[test]
fn atlas_accessors_return_declared_values() {
    let page = sample_page();
    assert_eq!(page.width(), 1024);
    assert_eq!(page.height(), 512);
    let region = sample_region();
    assert_eq!(region.x(), 4);
    assert_eq!(region.y(), 8);
    assert_eq!(region.width(), 100);
    assert_eq!(region.height(), 120);
    assert_eq!(region.original_width(), 110);
    assert_eq!(region.original_height(), 130);
    assert_eq!(region.index(), 2);
    assert!(region.rotated());
    assert!(!region.flipped());

    let atlas = Atlas::new(vec![sample_page()], vec![sample_region()]);
    assert_eq!(atlas.pages().len(), 1);
    assert_eq!(atlas.first_region().unwrap().name, "head");
    let empty = Atlas::new(vec![sample_page()], vec![]);
    assert!(empty.first_region().is_none());
}

#[test]
fn attachment_accessors() {
    let region = RegionAttachment {
        positions: [(0, 0); 4],
        uvs: [(0, 0); 4],
        texture: Some(TextureID(1)),
    };
    assert_eq!(region.world_vertices_count(), 4);
    assert_eq!(region.uv(2), (0, 0));
    let mut scratch = Vec::new();
    region.compute_world_vertices(&mut scratch);
    assert_eq!(scratch.len(), 4);

    let mesh = MeshAttachment {
        positions: vec![(1, 2), (3, 4)],
        uvs: vec![(5, 6), (7, 8)],
        indices: vec![0, 1, 0],
        texture: None,
    };
    assert_eq!(mesh.world_vertices_count(), 2);
    assert_eq!(mesh.triangles_count(), 3);
    assert_eq!(mesh.uv(1), (7, 8));
    assert_eq!(mesh.indices(), &vec![0u16, 1, 0]);
    mesh.compute_world_vertices(&mut scratch);
    assert_eq!(scratch, vec![(1, 2), (3, 4)]);

    let attachment = Attachment::new(String::from("m"), AttachmentType::Mesh(mesh));
    assert_eq!(attachment.name(), "m");
    assert!(matches!(attachment.as_inner(), AttachmentType::Mesh(_)));
}

#[test]
fn slot_accessors() {
    let tint = Tint { r: 1, g: 2, b: 3, a: 4 };
    let slot = Slot { attachment: None, tint, blend: BlendMode::Screen };
    assert!(slot.attachment().is_none());
    assert_eq!(slot.tint_color(), tint);
    assert_eq!(slot.blend_mode(), BlendMode::Screen);
}

#[test]
fn skeleton_data_accessors() {
    let data = sample_skeleton_data();
    assert_eq!(data.slots()[0].name(), "head");
    assert_eq!(data.slots()[0].attachment_name(), "head-a");
    assert_eq!(data.animations()[0].name(), "Idle");
    assert_eq!(data.animations()[0].duration, 42);
}

#[test]
fn session_starts_with_looping_idle() {
    let atlas = Atlas::new(vec![sample_page()], vec![sample_region()]);
    let skel_data = sample_skeleton_data();
    let anim_data = AnimationStateData::new(skel_data.clone(), 0);
    let state = SpineState::new(atlas, skel_data, anim_data);
    assert_eq!(
        state.anim.commands(),
        &vec![TrackCommand::SetTrack { track: 0, name: String::from("Idle"), looping: true }],
    );
    assert!(state.last_render.is_none());
}

#[test]
fn frame_deltas_come_from_the_clock() {
    let atlas = Atlas::new(vec![], vec![]);
    let skel_data = sample_skeleton_data();
    let anim_data = AnimationStateData::new(skel_data.clone(), 0);
    let mut state = SpineState::new(atlas, skel_data, anim_data);
    // The first frame advances by zero.
    assert_eq!(state.prepare_render(1_000_000), 0);
    assert_eq!(state.prepare_render(2_500_000), 1_500_000);
    assert_eq!(state.prepare_render(2_500_000), 0);
    assert_eq!(state.last_render, Some(2_500_000));
}

#[test]
fn animation_state_records_commands_in_order() {
    let mut anim = AnimationState::new();
    anim.set_animation_by_name(0, "Wave", false);
    anim.add_animation_by_name(0, "Idle", true, 3);
    anim.set_animation_by_name(2, "Blink", true);
    let cmds = anim.commands();
    assert_eq!(cmds.len(), 3);
    assert_eq!(
        cmds[2],
        TrackCommand::SetTrack { track: 2, name: String::from("Blink"), looping: true },
    );
}
