use render_backend::gpu_types::BufferBindingType;
use render_backend::offsets::{
    constant_buffer_offset_alignment, dynamic_variable,
    get_supported_read_only_binding_type, latch_constant_buffer_offset_alignment, plan_dynamic_offsets,
    validate_dynamic_offsets, AlignmentLatch, DynamicOffsetError, DEFAULT_CONSTANT_BUFFER_OFFSET_ALIGNMENT,
};
use render_backend::resources::{
    BufferId, IdAllocator, PipelineLayout, PipelineLayoutId, ResourceRegistry, ShaderModule, ShaderModuleId,
};

#[test]
fn align_copy_bytes_per_row() {
    assert_eq!(render_backend::offsets::align_copy_bytes_per_row(0), 0);
    assert_eq!(render_backend::offsets::align_copy_bytes_per_row(1), 256);
    assert_eq!(render_backend::offsets::align_copy_bytes_per_row(255), 256);
    assert_eq!(render_backend::offsets::align_copy_bytes_per_row(256), 256);
    assert_eq!(render_backend::offsets::align_copy_bytes_per_row(257), 512);
}

#[test]
fn buffer_registry_key_is_the_buffer_id() {
    let mut ids = IdAllocator::new();
    let id = BufferId(ids.allocate());
    let handle: u64 = 0x1;
    let mut registry = ResourceRegistry::new();
    registry.register_buffer(id, handle);
    assert_eq!(registry.resolve_buffer(id), Some(handle));
    let id_clone = id;
    assert_eq!(registry.resolve_buffer(id_clone), Some(handle));
}

#[test]
fn pipeline_layout_registry_key_is_the_layout_id() {
    let mut ids = IdAllocator::new();
    let layout = PipelineLayout { id: PipelineLayoutId(ids.allocate()) };
    let clone = layout.clone();
    assert_eq!(layout.registry_key(), clone.registry_key());
    let other = PipelineLayout { id: PipelineLayoutId(ids.allocate()) };
    assert_ne!(layout.registry_key(), other.registry_key());
}

#[test]
fn shader_registry_key_is_the_module_id() {
    let mut ids = IdAllocator::new();
    let module = ShaderModule { id: ShaderModuleId(ids.allocate()) };
    let clone = module.clone();
    assert_eq!(module.registry_key(), clone.registry_key());
    let other = ShaderModule { id: ShaderModuleId(ids.allocate()) };
    assert_ne!(module.registry_key(), other.registry_key());
    assert_eq!(module.id(), ShaderModuleId(1));
}

#[test]
fn resource_registry_round_trips_via_consumer_reference() {
    let mut ids = IdAllocator::new();
    let id = BufferId(ids.allocate());
    let handle: u64 = 0x2;
    let mut registry = ResourceRegistry::new();
    registry.register_buffer(id, handle);
    assert_eq!(registry.resolve_buffer(id), Some(handle));
    assert_eq!(registry.resolve_buffer(BufferId(ids.allocate())), None);
}

#[test]
fn registry_ignores_null_handles_and_replaces_on_reregister() {
    let mut registry = ResourceRegistry::new();
    registry.register_texture(5, 0);
    assert_eq!(registry.resolve_texture(5), None);
    registry.register_texture(5, 10);
    registry.register_texture(5, 11);
    assert_eq!(registry.resolve_texture(5), Some(11));
    registry.register_texture_view(5, 20);
    registry.register_sampler(5, 30);
    assert_eq!(registry.resolve_texture_view(5), Some(20));
    assert_eq!(registry.resolve_sampler(5), Some(30));
    assert_eq!(registry.resolve_sampler(6), None);
}

#[test]
fn ids_are_distinct_and_increasing() {
    let mut ids = IdAllocator::new();
    let a = ids.allocate();
    let b = ids.allocate();
    assert_eq!(a, 1);
    assert_eq!(b, 2);
}

#[test]
fn dynamic_offset_count_mismatch_is_rejected() {
    let bindings = [0u32, 1, 12];
    assert!(validate_dynamic_offsets(&bindings, &[256, 512, 768], 256).is_ok());
    assert!(validate_dynamic_offsets(&[], &[], 256).is_ok());
    assert!(validate_dynamic_offsets(&bindings, &[256, 512], 256).is_err());
    assert!(validate_dynamic_offsets(&bindings, &[256, 512, 768, 1024], 256).is_err());
    assert!(validate_dynamic_offsets(&bindings, &[], 256).is_err());
    assert!(validate_dynamic_offsets(&[], &[256], 256).is_err());
}

#[test]
fn dynamic_offset_misalignment_is_rejected() {
    let bindings = [0u32, 1, 12];
    assert!(validate_dynamic_offsets(&bindings, &[0, 0, 0], 256).is_ok());
    assert!(validate_dynamic_offsets(&bindings, &[512, 1024, 1536], 256).is_ok());
    assert!(validate_dynamic_offsets(&bindings, &[256, 520, 768], 256).is_err());
    assert!(validate_dynamic_offsets(&bindings, &[257, 512, 768], 256).is_err());
    assert!(validate_dynamic_offsets(&bindings, &[256, 512, 768], 1024).is_err());
    assert!(validate_dynamic_offsets(&bindings, &[256, 512, 768], 0).is_err());
    let mut latch = AlignmentLatch::new();
    latch_constant_buffer_offset_alignment(&mut latch, 256);
    assert_eq!(constant_buffer_offset_alignment(&latch), 256);
}

#[test]
fn dynamic_offset_errors_name_the_failure() {
    let bindings = [0u32, 1, 12];
    assert_eq!(
        validate_dynamic_offsets(&bindings, &[256, 512], 256),
        Err(DynamicOffsetError::CountMismatch { expected: 3, provided: 2 })
    );
    assert_eq!(
        validate_dynamic_offsets(&bindings, &[256, 520, 768], 256),
        Err(DynamicOffsetError::Misaligned { offset: 520, alignment: 256 })
    );
    let msg = DynamicOffsetError::CountMismatch { expected: 3, provided: 2 }.message();
    assert_eq!(msg, "dynamic offset count mismatch: the layout declares 3 dynamic buffer bindings but 2 offsets were provided");
    assert_eq!(
        DynamicOffsetError::Misaligned { offset: 520, alignment: 256 }.message(),
        "dynamic offset 520 is not a multiple of the constant buffer offset alignment (256)"
    );
    assert_eq!(
        DynamicOffsetError::MissingVariable { binding: 12 }.message(),
        "no cached SRB variable for dynamic binding 12"
    );
}

#[test]
fn alignment_latch_keeps_the_first_value() {
    let mut latch = AlignmentLatch::new();
    assert_eq!(constant_buffer_offset_alignment(&latch), DEFAULT_CONSTANT_BUFFER_OFFSET_ALIGNMENT);
    latch_constant_buffer_offset_alignment(&mut latch, 64);
    latch_constant_buffer_offset_alignment(&mut latch, 512);
    assert_eq!(constant_buffer_offset_alignment(&latch), 64);
}

#[test]
fn dynamic_offsets_pair_with_cached_variables() {
    let cached = [(0u32, 100u64), (12, 112), (1, 101), (12, 212)];
    assert_eq!(dynamic_variable(&cached, 12), Some(212));
    assert_eq!(dynamic_variable(&cached, 7), None);
    let plan = plan_dynamic_offsets(&cached, &[0, 1, 12], &[256, 512, 768], 256).unwrap();
    assert_eq!(plan, vec![(100, 256), (101, 512), (212, 768)]);
    assert_eq!(
        plan_dynamic_offsets(&cached, &[0, 5], &[0, 0], 256),
        Err(DynamicOffsetError::MissingVariable { binding: 5 })
    );
    assert_eq!(
        plan_dynamic_offsets(&cached, &[0, 5], &[0], 256),
        Err(DynamicOffsetError::CountMismatch { expected: 2, provided: 1 })
    );
}

#[test]
fn read_only_binding_type_depends_on_the_storage_limit() {
    assert_eq!(get_supported_read_only_binding_type(64, 3), BufferBindingType::Storage { read_only: true });
    assert_eq!(get_supported_read_only_binding_type(3, 3), BufferBindingType::Storage { read_only: true });
    assert_eq!(get_supported_read_only_binding_type(2, 3), BufferBindingType::Uniform);
}
