use core::mem::size_of;
use render_backend::diligent_types::ValueType;
use render_backend::draw::{
    buffer_slice_key, scissor_rect, BindGroupAction, CounterBuffer, DrawAttribs, DrawIndexedAttribs,
    DrawIndirectAttribs, ImmediateBinding, ImmediatesAction, PassMode, PipelineAction, SrbStatus, TrackedPass,
    DRAW_INDEXED_INDIRECT_STRIDE, DRAW_INDIRECT_STRIDE,
};
use render_backend::gpu_types::IndexFormat;

#[test]
fn indirect_argument_layouts_match_the_diligent_d3d12_contracts() {
    assert_eq!(size_of::<wgpu_types::DrawIndirectArgs>(), 16);
    assert_eq!(size_of::<wgpu_types::DrawIndexedIndirectArgs>(), 20);
    assert_eq!(size_of::<wgpu_types::DispatchIndirectArgs>(), 12);
    assert_eq!(DRAW_INDIRECT_STRIDE as usize, size_of::<wgpu_types::DrawIndirectArgs>());
    assert_eq!(DRAW_INDEXED_INDIRECT_STRIDE as usize, size_of::<wgpu_types::DrawIndexedIndirectArgs>());
}

#[test]
fn counter_buffers_are_u32_at_explicit_offsets() {
    assert_eq!(size_of::<u32>(), 4);
    let mut pass = TrackedPass::engine(4, 2);
    let attribs = pass.multi_draw_indirect_count(Some(10), 0, Some(20), 64, 8).unwrap();
    assert_eq!(attribs.counter, Some(CounterBuffer { buffer: 20, offset: 64 }));
    assert_eq!(attribs.draw_count, 8);
}

#[test]
fn redundant_pipeline_binds_are_skipped() {
    let mut pass = TrackedPass::engine(4, 2);
    let imm = ImmediateBinding { variable: 77, array_size_dwords: 4 };
    assert_eq!(pass.set_render_pipeline(1, true, Some(imm)), PipelineAction::Bind { commit_immediate: true });
    assert_eq!(pass.set_render_pipeline(1, true, None), PipelineAction::AlreadySet);
    assert_eq!(pass.immediate, Some(imm));
    assert_eq!(pass.set_render_pipeline(2, true, None), PipelineAction::Bind { commit_immediate: false });
    assert_eq!(pass.immediate, None);
}

#[test]
fn pipeline_without_engine_state_poisons_the_pass() {
    let mut pass = TrackedPass::engine(4, 2);
    assert!(!pass.draws_skipped());
    assert_eq!(pass.set_render_pipeline(3, false, None), PipelineAction::Poisoned);
    assert_eq!(pass.mode, PassMode::Engine { poisoned: true });
    assert!(pass.draws_skipped());
    assert!(pass.records());
    assert_eq!(pass.draw((0, 3), (0, 1)), None);
    assert!(!pass.poison());
}

#[test]
fn empty_pass_skips_everything() {
    let mut pass = TrackedPass::empty(4, 2);
    assert!(!pass.records());
    assert!(pass.draws_skipped());
    assert_eq!(pass.set_render_pipeline(1, true, None), PipelineAction::Skip);
    assert!(matches!(pass.set_bind_group(0, 5, &[], SrbStatus::Ready, &[], &[], 256), BindGroupAction::Skip));
    assert_eq!(pass.set_immediates(0, 4), ImmediatesAction::Skip);
    assert_eq!(pass.draw_indirect(Some(1), 0), None);
    assert_eq!(pass.mode, PassMode::Empty);
}

#[test]
fn bind_groups_plan_offsets_and_skip_repeats() {
    let mut pass = TrackedPass::engine(4, 2);
    let cached = [(0u32, 100u64), (1, 101)];
    let action = pass.set_bind_group(1, 9, &[256, 512], SrbStatus::Ready, &cached, &[0, 1], 256);
    match action {
        BindGroupAction::ApplyAndCommit { offsets } => assert_eq!(offsets, vec![(100, 256), (101, 512)]),
        other => panic!("unexpected action {other:?}"),
    }
    pass.finish_set_bind_group(1, 9, &[256, 512], true);
    assert!(matches!(
        pass.set_bind_group(1, 9, &[256, 512], SrbStatus::Ready, &cached, &[0, 1], 256),
        BindGroupAction::AlreadySet
    ));
    // Other offsets are a new bind.
    assert!(matches!(
        pass.set_bind_group(1, 9, &[0, 0], SrbStatus::Ready, &cached, &[0, 1], 256),
        BindGroupAction::ApplyAndCommit { .. }
    ));
    assert!(!pass.draws_skipped());
}

#[test]
fn unusable_bind_groups_poison_the_pass() {
    let mut pass = TrackedPass::engine(4, 2);
    assert!(matches!(
        pass.set_bind_group(0, 9, &[256], SrbStatus::Ready, &[(0, 1)], &[0, 1], 256),
        BindGroupAction::Poisoned
    ));
    assert!(pass.draws_skipped());

    let mut pass = TrackedPass::engine(4, 2);
    assert!(matches!(
        pass.set_bind_group(0, 9, &[], SrbStatus::Missing, &[], &[], 256),
        BindGroupAction::Poisoned
    ));
    assert!(pass.draws_skipped());

    let mut pass = TrackedPass::engine(4, 2);
    pass.finish_set_bind_group(0, 9, &[], false);
    assert!(pass.draws_skipped());
}

#[test]
fn vertex_and_index_buffers_bind_once() {
    let mut pass = TrackedPass::engine(4, 2);
    let key = buffer_slice_key(5, 64, 128);
    assert_eq!(pass.set_vertex_buffer(1, key, Some(500)), Some((1, 500, 64)));
    assert_eq!(pass.set_vertex_buffer(1, key, Some(500)), None);
    assert_eq!(pass.index_type(), ValueType::Uint32);
    assert_eq!(pass.set_index_buffer(key, IndexFormat::Uint16, Some(600)), Some((600, 64)));
    assert_eq!(pass.set_index_buffer(key, IndexFormat::Uint16, Some(600)), None);
    assert_eq!(pass.index_type(), ValueType::Uint16);
    assert_eq!(pass.set_vertex_buffer(0, key, None), None);
    assert!(pass.draws_skipped());
}

#[test]
fn draws_become_engine_attributes() {
    let mut pass = TrackedPass::engine(4, 2);
    assert_eq!(
        pass.draw((3, 9), (1, 5)),
        Some(DrawAttribs { num_vertices: 6, num_instances: 4, start_vertex: 3, first_instance: 1 })
    );
    pass.set_index_buffer(buffer_slice_key(1, 0, 64), IndexFormat::Uint16, Some(2));
    assert_eq!(
        pass.draw_indexed((0, 36), -2, (0, 1)),
        Some(DrawIndexedAttribs {
            num_indices: 36,
            index_type: ValueType::Uint16,
            num_instances: 1,
            first_index: 0,
            base_vertex: (-2i32) as u32,
            first_instance: 0,
        })
    );
    assert_eq!(
        pass.draw_indexed_indirect(Some(7), 40),
        Some(DrawIndirectAttribs {
            index_type: Some(ValueType::Uint16),
            args_buffer: 7,
            args_offset: 40,
            draw_count: 1,
            args_stride: DRAW_INDEXED_INDIRECT_STRIDE,
            counter: None,
        })
    );
    assert_eq!(pass.multi_draw_indirect(Some(7), 0, 5).unwrap().args_stride, DRAW_INDIRECT_STRIDE);
    assert_eq!(pass.multi_draw_indexed_indirect(Some(7), 0, 5).unwrap().draw_count, 5);
    let counted = pass.multi_draw_indexed_indirect_count(Some(7), 0, Some(8), 4, 16).unwrap();
    assert_eq!(counted.counter, Some(CounterBuffer { buffer: 8, offset: 4 }));
    assert!(!pass.draws_skipped());
    assert_eq!(pass.multi_draw_indirect_count(Some(7), 0, None, 4, 16), None);
    assert!(pass.draws_skipped());
}

#[test]
fn missing_indirect_buffer_poisons_the_pass() {
    let mut pass = TrackedPass::engine(4, 2);
    assert_eq!(pass.draw_indirect(None, 0), None);
    assert_eq!(pass.mode, PassMode::Engine { poisoned: true });
}

#[test]
fn immediates_are_checked_against_the_pipeline_capacity() {
    let mut pass = TrackedPass::engine(4, 2);
    assert_eq!(pass.set_immediates(0, 16), ImmediatesAction::NoImmediates);
    pass.set_render_pipeline(1, true, Some(ImmediateBinding { variable: 77, array_size_dwords: 4 }));
    assert_eq!(
        pass.set_immediates(4, 12),
        ImmediatesAction::Apply { variable: 77, first_constant: 1, num_constants: 3 }
    );
    assert!(!pass.draws_skipped());
    assert_eq!(pass.set_immediates(8, 12), ImmediatesAction::Poisoned);
    assert!(pass.draws_skipped());

    let mut pass = TrackedPass::engine(4, 2);
    pass.set_render_pipeline(1, true, Some(ImmediateBinding { variable: 77, array_size_dwords: 4 }));
    assert_eq!(pass.set_immediates(2, 4), ImmediatesAction::Poisoned);
}

#[test]
fn scissor_rect_is_left_top_right_bottom() {
    assert_eq!(scissor_rect(10, 20, 30, 40), (10, 20, 40, 60));
}
