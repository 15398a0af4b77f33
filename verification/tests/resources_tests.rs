use render_backend::resources::copy_buffer_size;
use render_backend::bind_group::{
    resolve_binding, BindGroupLayoutInfo, BindGroupState, BindingResourceInput, BufferBindKind, ResolvedBinding,
};
use render_backend::dlss::{
    new_context, DlssError, DlssFeatureFlags, DlssPerfQualityMode, Resolution, DLSS_HIGH_DYNAMIC_RANGE,
    DLSS_INVERTED_DEPTH,
};
use render_backend::draw::{DrawAttribs, ImmediateBinding, ImmediatesAction};
use render_backend::encoder_pass::{BindGroupInput, CommitAction, EncoderPass};
use render_backend::gpu_types::{
    BindGroupLayoutEntry, BindingType, BufferBindingType, IndexFormat, SamplerBindingType,
};
use render_backend::resources::{
    make_spirv, Blas, Buffer, BufferId, ResourceRegistry, ShaderSource, SliceBound,
};

fn entry(binding: u32, ty: BindingType) -> BindGroupLayoutEntry {
    BindGroupLayoutEntry { binding, visibility: 3, ty, count: None }
}

fn storage(read_only: bool, dynamic: bool) -> BindingType {
    BindingType::Buffer { ty: BufferBindingType::Storage { read_only }, has_dynamic_offset: dynamic, min_binding_size: None }
}

#[test]
fn layout_info_records_buffer_types_and_dynamic_bindings() {
    let entries = [
        entry(4, storage(true, true)),
        entry(1, BindingType::Sampler(SamplerBindingType::Filtering)),
        entry(0, storage(false, true)),
    ];
    let info = BindGroupLayoutInfo::from_entries(9, &entries);
    assert_eq!(info.id, 9);
    assert_eq!(info.dynamic_bindings, vec![0, 4]);
    assert_eq!(info.buffer_binding_type(4), Some(BufferBindingType::Storage { read_only: true }));
    assert_eq!(info.buffer_binding_type(1), None);
    assert!(info.is_dynamic(0));
    assert!(!info.is_dynamic(1));
    assert_eq!(info.srb_probe_stages, 3);
}

#[test]
fn bindings_resolve_through_the_registry() {
    let entries = [entry(0, storage(true, false)), entry(2, BindingType::Sampler(SamplerBindingType::Filtering))];
    let info = BindGroupLayoutInfo::from_entries(1, &entries);
    let mut registry = ResourceRegistry::new();
    registry.register_buffer(BufferId(5), 500);
    registry.register_sampler(6, 600);
    registry.register_texture_view(7, 700);

    match resolve_binding(&registry, &info, 0, &BindingResourceInput::Buffer { buffer: BufferId(5), offset: 16, size: Some(32) }) {
        Some(ResolvedBinding::Buffer { buffer, offset, size, kind }) => {
            assert_eq!((buffer, offset, size, kind), (500, 16, Some(32), BufferBindKind::StorageReadOnly));
        },
        other => panic!("unexpected {other:?}"),
    }
    assert!(resolve_binding(&registry, &info, 0, &BindingResourceInput::Buffer { buffer: BufferId(8), offset: 0, size: None }).is_none());
    // A buffer bound to a slot the layout has no buffer type for fails.
    assert!(resolve_binding(&registry, &info, 2, &BindingResourceInput::Buffer { buffer: BufferId(5), offset: 0, size: None }).is_none());
    assert!(matches!(resolve_binding(&registry, &info, 2, &BindingResourceInput::Sampler(6)), Some(ResolvedBinding::Sampler(600))));
    assert!(matches!(
        resolve_binding(&registry, &info, 3, &BindingResourceInput::TextureViewArray(vec![7, 7])),
        Some(ResolvedBinding::TextureViewArray(v)) if v == vec![700, 700]
    ));
    assert!(resolve_binding(&registry, &info, 3, &BindingResourceInput::TextureViewArray(vec![7, 8])).is_none());
    assert!(resolve_binding(&registry, &info, 3, &BindingResourceInput::SamplerArray(Vec::new())).is_none());
    assert!(resolve_binding(&registry, &info, 3, &BindingResourceInput::AccelerationStructure).is_none());
}

#[test]
fn bind_group_state_records_failures_and_dynamic_variables() {
    let info = BindGroupLayoutInfo::from_entries(1, &[entry(0, storage(true, true)), entry(1, storage(true, false))]);
    let mut state = BindGroupState::new();
    state.record_bind_outcome(&info, 0, Some(100));
    state.record_bind_outcome(&info, 1, Some(101));
    state.record_bind_outcome(&info, 2, None);
    state.record_bind_outcome(&info, 3, None);
    assert_eq!(state.first_failed_binding(), Some(2));
    assert_eq!(state.dynamic_variable(0), Some(100));
    assert_eq!(state.dynamic_variable(1), None);
}

#[test]
fn buffers_slice_bind_and_map() {
    let buffer = Buffer::new(BufferId(3), 256, 8);
    assert_eq!(buffer.id(), BufferId(3));
    assert_eq!(buffer.size(), 256);
    assert_eq!(buffer.usage(), 8);
    let s = buffer.slice(SliceBound::Included(16), SliceBound::Excluded(48));
    assert_eq!((s.offset(), s.size()), (16, 32));
    assert_eq!(s.binding().size, Some(32));
    let s = buffer.slice(SliceBound::Excluded(0), SliceBound::Unbounded);
    assert_eq!((s.offset(), s.size()), (1, 255));
    let s = buffer.slice(SliceBound::Unbounded, SliceBound::Included(9));
    assert_eq!((s.offset(), s.size()), (0, 10));
    assert_eq!(buffer.as_entire_buffer_binding().size, None);

    let mut small = Buffer::new(BufferId(4), 4, 1);
    small.store_mapped(vec![1, 2, 3, 4]);
    assert_eq!(small.get_mapped_range().as_bytes(), &[1, 2, 3, 4]);
    assert_eq!(small.get_mapped_range().len(), 4);
    let s = small.slice(SliceBound::Included(1), SliceBound::Excluded(3));
    assert_eq!(s.get_mapped_range().as_bytes(), &[2, 3]);
    assert_eq!(s.id(), BufferId(4));
    small.unmap();
    assert!(small.mapped.is_none());
}

#[test]
fn spirv_bytes_become_little_endian_words() {
    match make_spirv(&[0x03, 0x02, 0x23, 0x07, 0xaa]) {
        ShaderSource::SpirV(words) => assert_eq!(words, vec![0x0723_0203, 0xaa]),
        _ => panic!("expected SPIR-V"),
    }
    match make_spirv(&[]) {
        ShaderSource::SpirV(words) => assert!(words.is_empty()),
        _ => panic!("expected SPIR-V"),
    }
}

#[test]
fn acceleration_structures_are_not_available() {
    let blas = Blas::new();
    assert_eq!(blas.handle(), None);
    assert!(blas.compaction_result().is_err());
    assert!(!blas.ready_for_compaction());
    let mut called = false;
    blas.prepare_compaction_async(|r| called = r.is_err());
    assert!(called);
}

#[test]
fn dlss_flags_combine_and_contexts_are_unavailable() {
    let flags = DlssFeatureFlags::from_bits(DLSS_INVERTED_DEPTH) | DlssFeatureFlags::from_bits(DLSS_HIGH_DYNAMIC_RANGE);
    assert_eq!(flags.bits(), 6);
    assert_eq!(DlssFeatureFlags::default(), DlssFeatureFlags::none());
    assert_eq!(DlssPerfQualityMode::default(), DlssPerfQualityMode::Auto);
    let r = new_context(Resolution { width: 1920, height: 1080 }, DlssPerfQualityMode::Quality, flags);
    assert_eq!(r, Err(DlssError::Unavailable));
}

fn ready_group() -> BindGroupInput {
    BindGroupInput { srb: Some(42), first_failed_binding: None, cached_variables: vec![(0, 100)], dynamic_bindings: vec![0] }
}

#[test]
fn encoder_pass_commits_each_binding_once() {
    let mut pass = EncoderPass::new(true, true);
    assert!(pass.set_pipeline(true, None));
    let group = ready_group();
    match pass.set_bind_group(2, Some(&group), &[256], 256) {
        CommitAction::ApplyAndCommit { srb, offsets } => {
            assert_eq!(srb, 42);
            assert_eq!(offsets, vec![(100, 256)]);
        },
        other => panic!("unexpected {other:?}"),
    }
    pass.finish_set_bind_group(2, 42, &[256], true);
    assert!(matches!(pass.set_bind_group(2, Some(&group), &[256], 256), CommitAction::Nothing));
    assert!(matches!(pass.set_bind_group(2, None, &[], 256), CommitAction::Nothing));
    // A new pipeline forgets the commits.
    pass.set_pipeline(true, None);
    assert!(matches!(pass.set_bind_group(2, Some(&group), &[256], 256), CommitAction::ApplyAndCommit { .. }));
    assert_eq!(pass.dispatch_workgroups(4, 2, 1), Some((4, 2, 1)));
    assert_eq!(pass.dispatch_workgroups_indirect(Some(9), 12), Some((9, 12)));
}

#[test]
fn encoder_pass_poisons_on_unusable_input() {
    let mut pass = EncoderPass::new(false, true);
    let failed = BindGroupInput { first_failed_binding: Some(3), ..ready_group() };
    assert!(matches!(pass.set_bind_group(0, Some(&failed), &[0], 256), CommitAction::Poisoned));
    assert_eq!(pass.draw((0, 3), (0, 1)), None);

    let mut pass = EncoderPass::new(false, true);
    assert!(matches!(pass.set_bind_group(0, Some(&ready_group()), &[7], 256), CommitAction::Poisoned));

    let mut pass = EncoderPass::new(false, false);
    assert!(!pass.set_pipeline(true, None));
    assert!(pass.poisoned);
    let mut compute = EncoderPass::new(true, false);
    assert!(!compute.set_pipeline(true, None));
    assert!(!compute.poisoned);
    assert_eq!(compute.dispatch_workgroups(1, 1, 1), None);
}

#[test]
fn encoder_pass_draws() {
    let mut pass = EncoderPass::new(false, true);
    assert_eq!(pass.set_vertex_buffer(1, Some(5), 64), Some((1, 5, 64)));
    assert_eq!(pass.set_index_buffer(Some(6), 0, IndexFormat::Uint16), Some((6, 0)));
    assert_eq!(
        pass.draw((0, 3), (0, 2)),
        Some(DrawAttribs { num_vertices: 3, num_instances: 2, start_vertex: 0, first_instance: 0 })
    );
    assert_eq!(pass.draw_indexed((0, 6), 0, (0, 1)).unwrap().num_indices, 6);
    assert_eq!(pass.draw_indirect(true, Some(7), 0, Some((Some(8), 4)), 3).unwrap().draw_count, 3);
    pass.set_pipeline(true, Some(ImmediateBinding { variable: 1, array_size_dwords: 2 }));
    assert_eq!(pass.set_immediates(0, 8), ImmediatesAction::Apply { variable: 1, first_constant: 0, num_constants: 2 });
    assert_eq!(pass.set_immediates(4, 8), ImmediatesAction::Poisoned);
    assert!(pass.poisoned);
}

#[test]
fn copy_size_defaults_to_what_both_buffers_hold() {
    assert_eq!(copy_buffer_size(100, 10, 50, 0, Some(7)), 7);
    assert_eq!(copy_buffer_size(100, 10, 50, 0, None), 50);
    assert_eq!(copy_buffer_size(100, 10, 500, 0, None), 90);
    assert_eq!(copy_buffer_size(100, 200, 500, 0, None), 0);
}

#[test]
fn maps_complete_into_the_mapped_range() {
    let mut buffer = Buffer::new(BufferId(1), 4, 1);
    assert!(buffer.complete_map(None).is_err());
    assert!(buffer.mapped.is_none());
    assert!(buffer.complete_map(Some(vec![9, 8, 7, 6])).is_ok());
    assert_eq!(buffer.get_mapped_range().as_bytes(), &[9, 8, 7, 6]);
    let mut pending = Buffer::new(BufferId(2), 2, 1);
    assert!(pending.complete_pending_map(Some(vec![1, 2, 3, 4])).is_ok());
    assert_eq!(pending.mapped, Some(vec![1, 2]));
    assert!(pending.complete_pending_map(None).is_err());
    assert_eq!(pending.mapped, Some(vec![1, 2]));
}

#[test]
fn passes_begun_on_an_encoder() {
    let begun = EncoderPass::render(true, true);
    assert!(!begun.poisoned);
    assert!(!begun.compute);
    let failed = EncoderPass::render(true, false);
    assert!(failed.poisoned);
    assert_eq!(failed.draw((0, 1), (0, 1)), None);
    let compute = EncoderPass::compute(false);
    assert!(compute.compute && !compute.poisoned && !compute.has_context);
}
