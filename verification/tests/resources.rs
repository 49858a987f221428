use grid_automata::binding::{layout_entries, zeroed_contents, BindingType};
use grid_automata::game_of_life::bind_group::{
    prepare_bind_group, sync_params, GLBindGroup, ViewEncoding,
};
use grid_automata::game_of_life::data_structs::Params;
use grid_automata::resources::{ResourceAction, ResourceStep, Resources};

fn native_bytes(words: &[u32]) -> Vec<u8> {
    let mut bytes = Vec::new();
    for word in words {
        bytes.extend_from_slice(&word.to_ne_bytes());
    }
    bytes
}

fn view() -> ViewEncoding {
    ViewEncoding {
        center_x: 1600.0f32.to_bits(),
        center_y: 120.0f32.to_bits(),
        zoom: 4.0f32.to_bits(),
    }
}

fn params() -> Params {
    Params::new(3200, 240, 1280, 720, 0xDEAD_BEEF).unwrap()
}

fn block() -> Vec<u8> {
    native_bytes(&[
        100,
        240,
        1600.0f32.to_bits(),
        120.0f32.to_bits(),
        1280,
        720,
        0xDEAD_BEEF,
        4.0f32.to_bits(),
    ])
}

#[test]
fn layout_lists_the_three_bindings_in_index_order() {
    assert_eq!(
        layout_entries(),
        vec![BindingType::UniformBuffer, BindingType::StorageTexture, BindingType::StorageBuffer]
    );
}

#[test]
fn parameter_block_is_eight_words_in_field_order() {
    let bytes = sync_params(&params(), view());
    assert_eq!(bytes.len(), 32);
    assert_eq!(bytes, block());
    assert_eq!(&bytes[0..4], &100u32.to_ne_bytes());
    assert_eq!(&bytes[24..28], &0xDEAD_BEEFu32.to_ne_bytes());
}

#[test]
fn parameter_block_follows_the_parameters() {
    let mut params = params();
    params.set_resolution(640, 480);
    let moved = ViewEncoding { center_x: 1, center_y: 2, zoom: 3 };
    assert_eq!(
        sync_params(&params, moved),
        native_bytes(&[100, 240, 1, 2, 640, 480, 0xDEAD_BEEF, 3])
    );
}

#[test]
fn zeroed_contents_has_four_zero_bytes_per_word() {
    assert_eq!(zeroed_contents(0), Vec::<u8>::new());
    assert_eq!(zeroed_contents(1), vec![0u8; 4]);
    assert_eq!(zeroed_contents(24_000), vec![0u8; 96_000]);
}

#[test]
fn first_build_creates_a_zeroed_grid_buffer() {
    let plan = prepare_bind_group(&params(), view(), true);
    assert_eq!(plan.params_buffer, block());
    assert_eq!(plan.data_buffer, Some(vec![0u8; 4 * 24_000]));
}

#[test]
fn rebuild_keeps_the_existing_grid_buffer() {
    let plan = prepare_bind_group(&params(), view(), false);
    assert_eq!(plan.params_buffer, block());
    assert_eq!(plan.data_buffer, None);
}

#[test]
fn lifecycle_skips_until_the_image_resolves() {
    let mut resources = Resources::new();
    assert!(!resources.is_live());
    assert_eq!(resources.prepare(None), ResourceStep::Skip);
    assert_eq!(resources.prepare(None), ResourceStep::Skip);
    assert!(!resources.is_live());
}

#[test]
fn lifecycle_builds_once_then_syncs() {
    let mut resources = Resources::new();
    assert_eq!(resources.prepare(Some(7)), ResourceStep::Build { create_storage: true });
    assert!(resources.is_live());
    for _ in 0..5 {
        assert_eq!(resources.prepare(Some(7)), ResourceStep::Sync);
        assert!(resources.is_live());
    }
}

#[test]
fn lifecycle_rebuilds_for_another_image_and_keeps_the_grid() {
    let mut resources = Resources::new();
    assert_eq!(resources.prepare(Some(7)), ResourceStep::Build { create_storage: true });
    assert_eq!(resources.prepare(Some(8)), ResourceStep::Build { create_storage: false });
    assert_eq!(resources.prepare(Some(8)), ResourceStep::Sync);
    assert_eq!(resources.prepare(Some(7)), ResourceStep::Build { create_storage: false });
}

#[test]
fn lifecycle_drops_the_bind_group_when_the_image_goes_away() {
    let mut resources = Resources::new();
    assert_eq!(resources.prepare(Some(1)), ResourceStep::Build { create_storage: true });
    assert_eq!(resources.prepare(None), ResourceStep::Skip);
    assert!(!resources.is_live());
    assert_eq!(resources.prepare(Some(1)), ResourceStep::Build { create_storage: false });
    assert!(resources.is_live());
}

#[test]
fn packed_profile_prepares_contents_for_each_step() {
    let params = params();
    let mut bind_group = GLBindGroup::new();
    assert!(!bind_group.is_live());
    assert!(matches!(bind_group.prepare(None, &params, view()), ResourceAction::Skip));
    match bind_group.prepare(Some(3), &params, view()) {
        ResourceAction::Build(plan) => {
            assert_eq!(plan.params_buffer, block());
            assert_eq!(plan.data_buffer, Some(vec![0u8; 96_000]));
        }
        other => panic!("expected a build, got {:?}", other),
    }
    assert!(bind_group.is_live());
    match bind_group.prepare(Some(3), &params, view()) {
        ResourceAction::Sync(bytes) => assert_eq!(bytes, block()),
        other => panic!("expected a sync, got {:?}", other),
    }
    match bind_group.prepare(Some(4), &params, view()) {
        ResourceAction::Build(plan) => {
            assert_eq!(plan.params_buffer, block());
            assert_eq!(plan.data_buffer, None);
        }
        other => panic!("expected a rebuild, got {:?}", other),
    }
    assert!(matches!(bind_group.prepare(None, &params, view()), ResourceAction::Skip));
    assert!(!bind_group.is_live());
}
