use render_backend::diligent_types::{
    ComparisonFunction, CullMode, DiligentBlendFactor, DiligentBlendOperation, DiligentPrimitiveTopology,
    FillMode, FilterType, ShaderResourceType, StencilOp, TextureAddressMode, Usage, ValueType,
    BIND_DEPTH_STENCIL, BIND_INDEX_BUFFER, BIND_INDIRECT_DRAW_ARGS, BIND_RAY_TRACING, BIND_RENDER_TARGET,
    BIND_SHADER_RESOURCE, BIND_UNIFORM_BUFFER, BIND_UNORDERED_ACCESS, BIND_VERTEX_BUFFER, COLOR_MASK_ALL,
    COLOR_MASK_NONE, CPU_ACCESS_READ, CPU_ACCESS_WRITE, SHADER_TYPE_COMPUTE, SHADER_TYPE_PIXEL,
    SHADER_TYPE_VERTEX,
};
use render_backend::binding::binding_count;
use render_backend::gpu_types::{
    AddressMode, BindGroupLayoutEntry, BindingType, BlendFactor, BlendOperation, BufferBindingType, CompareFunction, Face,
    FilterMode, PolygonMode, PrimitiveTopology, SamplerBindingType, PipelineStage, StencilOperation,
    StorageTextureAccess, TextureSampleType, TextureViewDimension, VertexFormat,
};
use render_backend::mapping::{
    address_mode, binding_type_to_resource_type, blend_factor, blend_operation, buffer_usage_to_bind_flags,
    buffer_usage_to_cpu_access, buffer_usage_to_usage, color_writes, comparison_function, cull_mode,
    fill_mode, filter_type, primitive_topology, shader_stages, shader_type_from_stage, stencil_operation,
    texture_usage_to_bind_flags, vertex_format_to_value_type,
};
use wgpu_types::{BufferUsages, ColorWrites, ShaderStages, TextureUsages};

#[test]
fn buffer_usages_map_to_bind_flags() {
    let vb = BIND_VERTEX_BUFFER;
    let ib = BIND_INDEX_BUFFER;
    let ub = BIND_UNIFORM_BUFFER;
    assert_eq!(buffer_usage_to_bind_flags(BufferUsages::VERTEX.bits()), vb);
    assert_eq!(buffer_usage_to_bind_flags(BufferUsages::INDEX.bits()), ib);
    assert_eq!(buffer_usage_to_bind_flags(BufferUsages::UNIFORM.bits()), ub);
    assert_eq!(buffer_usage_to_bind_flags(BufferUsages::empty().bits()), 0);

    let storage = buffer_usage_to_bind_flags(BufferUsages::STORAGE.bits());
    assert_ne!(storage & BIND_UNORDERED_ACCESS, 0);
    assert_ne!(storage & BIND_SHADER_RESOURCE, 0);

    let combined = buffer_usage_to_bind_flags((BufferUsages::VERTEX | BufferUsages::INDEX).bits());
    assert_eq!(combined, vb | ib);
}

#[test]
fn indirect_and_acceleration_inputs_get_their_flags() {
    assert_eq!(buffer_usage_to_bind_flags(BufferUsages::INDIRECT.bits()), BIND_INDIRECT_DRAW_ARGS);
    assert_eq!(buffer_usage_to_bind_flags(BufferUsages::BLAS_INPUT.bits()), BIND_RAY_TRACING);
    assert_eq!(buffer_usage_to_bind_flags(BufferUsages::TLAS_INPUT.bits()), BIND_RAY_TRACING);
    assert_eq!(buffer_usage_to_bind_flags(BufferUsages::COPY_SRC.bits()), 0);
}

#[test]
fn map_usage_picks_staging() {
    assert_eq!(buffer_usage_to_usage(BufferUsages::MAP_READ.bits()), Usage::Staging);
    assert_eq!(buffer_usage_to_usage(BufferUsages::MAP_WRITE.bits()), Usage::Staging);
    assert_eq!(buffer_usage_to_usage(BufferUsages::VERTEX.bits()), Usage::Default);
    assert_eq!(buffer_usage_to_cpu_access(BufferUsages::MAP_READ.bits()), CPU_ACCESS_READ);
    assert_eq!(buffer_usage_to_cpu_access(BufferUsages::MAP_WRITE.bits()), CPU_ACCESS_WRITE);
    assert_eq!(buffer_usage_to_cpu_access(BufferUsages::VERTEX.bits()), 0);

    let readback = (BufferUsages::COPY_DST | BufferUsages::MAP_READ).bits();
    assert_eq!(buffer_usage_to_usage(readback), Usage::Staging);
    assert_eq!(buffer_usage_to_bind_flags(readback), 0);
}

#[test]
fn texture_usages_map_to_bind_flags() {
    assert_eq!(texture_usage_to_bind_flags(TextureUsages::TEXTURE_BINDING.bits()), BIND_SHADER_RESOURCE);
    let attachment = texture_usage_to_bind_flags(TextureUsages::RENDER_ATTACHMENT.bits());
    assert_ne!(attachment & BIND_RENDER_TARGET, 0);
    assert_ne!(attachment & BIND_DEPTH_STENCIL, 0);
    assert_eq!(texture_usage_to_bind_flags(TextureUsages::STORAGE_BINDING.bits()), BIND_UNORDERED_ACCESS);
    assert_eq!(texture_usage_to_bind_flags(TextureUsages::COPY_DST.bits()), 0);
}

#[test]
fn vertex_formats_map_to_value_types() {
    assert_eq!(vertex_format_to_value_type(VertexFormat::Float32x3), Some((ValueType::Float32, 3, false)));
    assert_eq!(vertex_format_to_value_type(VertexFormat::Unorm8x4), Some((ValueType::Uint8, 4, true)));
    assert_eq!(vertex_format_to_value_type(VertexFormat::Unorm16x2), Some((ValueType::Uint16, 2, true)));
    assert!(vertex_format_to_value_type(VertexFormat::Float64).is_none());
    assert!(vertex_format_to_value_type(VertexFormat::Unorm10_10_10_2).is_none());
}

#[test]
fn signed_and_half_vertex_formats_map() {
    assert_eq!(vertex_format_to_value_type(VertexFormat::Snorm8x2), Some((ValueType::Int8, 2, true)));
    assert_eq!(vertex_format_to_value_type(VertexFormat::Sint16x4), Some((ValueType::Int16, 4, false)));
    assert_eq!(vertex_format_to_value_type(VertexFormat::Float16x2), Some((ValueType::Float16, 2, false)));
    assert_eq!(vertex_format_to_value_type(VertexFormat::Sint32), Some((ValueType::Int32, 1, false)));
    assert_eq!(vertex_format_to_value_type(VertexFormat::Unorm8x4Bgra), None);
}

#[test]
fn compare_functions_map_directly() {
    for (w, d) in [
        (CompareFunction::Never, ComparisonFunction::Never),
        (CompareFunction::Less, ComparisonFunction::Less),
        (CompareFunction::LessEqual, ComparisonFunction::LessEqual),
        (CompareFunction::Greater, ComparisonFunction::Greater),
        (CompareFunction::Always, ComparisonFunction::Always),
    ] {
        assert_eq!(comparison_function(w), d);
    }
}

#[test]
fn address_modes_map() {
    assert_eq!(address_mode(AddressMode::ClampToEdge), TextureAddressMode::Clamp);
    assert_eq!(address_mode(AddressMode::Repeat), TextureAddressMode::Wrap);
    assert_eq!(address_mode(AddressMode::MirrorRepeat), TextureAddressMode::Mirror);
    assert_eq!(address_mode(AddressMode::ClampToBorder), TextureAddressMode::Border);
}

#[test]
fn filters_cover_comparison_and_anisotropy() {
    assert_eq!(filter_type(FilterMode::Nearest, false, false), FilterType::Point);
    assert_eq!(filter_type(FilterMode::Linear, false, false), FilterType::Linear);
    assert_eq!(filter_type(FilterMode::Linear, false, true), FilterType::Anisotropic);
    assert_eq!(filter_type(FilterMode::Nearest, true, false), FilterType::ComparisonPoint);
    assert_eq!(filter_type(FilterMode::Linear, true, false), FilterType::ComparisonLinear);
    assert_eq!(filter_type(FilterMode::Linear, true, true), FilterType::ComparisonAnisotropic);
    assert_eq!(filter_type(FilterMode::Nearest, false, true), FilterType::Point);
}

#[test]
fn blend_state_maps_directly() {
    assert_eq!(blend_factor(BlendFactor::One), DiligentBlendFactor::One);
    assert_eq!(blend_operation(BlendOperation::ReverseSubtract), DiligentBlendOperation::RevSubtract);
    assert_eq!(blend_factor(BlendFactor::SrcAlphaSaturated), DiligentBlendFactor::SrcAlphaSat);
    assert_eq!(blend_factor(BlendFactor::Constant), DiligentBlendFactor::BlendFactor);
    assert_eq!(blend_factor(BlendFactor::OneMinusSrc1Alpha), DiligentBlendFactor::InvSrc1Alpha);
}

#[test]
fn color_writes_is_a_bit_copy() {
    assert_eq!(color_writes(ColorWrites::ALL.bits()), COLOR_MASK_ALL);
    assert_eq!(color_writes(ColorWrites::COLOR.bits()), 1 | 2 | 4);
    assert_eq!(color_writes(ColorWrites::ALPHA.bits()), 8);
    assert_eq!(color_writes(ColorWrites::empty().bits()), COLOR_MASK_NONE);
}

#[test]
fn stencil_ops_map_directly() {
    for (w, d) in [
        (StencilOperation::Keep, StencilOp::Keep),
        (StencilOperation::Zero, StencilOp::Zero),
        (StencilOperation::IncrementClamp, StencilOp::IncrSat),
        (StencilOperation::DecrementWrap, StencilOp::DecrWrap),
    ] {
        assert_eq!(stencil_operation(w), d);
    }
}

#[test]
fn topology_and_raster_state_map() {
    assert_eq!(primitive_topology(PrimitiveTopology::TriangleList), DiligentPrimitiveTopology::TriangleList);
    assert_eq!(fill_mode(PolygonMode::Fill), Some(FillMode::Solid));
    assert_eq!(fill_mode(PolygonMode::Line), Some(FillMode::Wireframe));
    assert_eq!(fill_mode(PolygonMode::Point), None);
    assert_eq!(cull_mode(None), CullMode::NoCulling);
    assert_eq!(cull_mode(Some(Face::Front)), CullMode::Front);
    assert_eq!(cull_mode(Some(Face::Back)), CullMode::Back);
}

#[test]
fn shader_stages_map_to_type_bits() {
    assert_eq!(shader_stages(ShaderStages::VERTEX.bits()), SHADER_TYPE_VERTEX);
    assert_eq!(shader_stages(ShaderStages::VERTEX_FRAGMENT.bits()), SHADER_TYPE_VERTEX | SHADER_TYPE_PIXEL);
    assert_eq!(shader_stages(ShaderStages::COMPUTE.bits()), SHADER_TYPE_COMPUTE);
    assert_eq!(shader_stages(ShaderStages::empty().bits()), 0);
}

#[test]
fn single_stages_map_to_shader_types() {
    assert_eq!(shader_type_from_stage(PipelineStage::Vertex), SHADER_TYPE_VERTEX);
    assert_eq!(shader_type_from_stage(PipelineStage::Fragment), SHADER_TYPE_PIXEL);
    assert_eq!(shader_type_from_stage(PipelineStage::Compute), SHADER_TYPE_COMPUTE);
    assert_eq!(shader_type_from_stage(PipelineStage::Mesh), SHADER_TYPE_VERTEX);
}

fn buffer(ty: BufferBindingType, has_dynamic_offset: bool) -> BindingType {
    BindingType::Buffer { ty, has_dynamic_offset, min_binding_size: None }
}

#[test]
fn binding_types_map_to_resource_types() {
    assert_eq!(
        binding_type_to_resource_type(&buffer(BufferBindingType::Uniform, false)),
        Some(ShaderResourceType::ConstantBuffer)
    );
    assert_eq!(
        binding_type_to_resource_type(&buffer(BufferBindingType::Storage { read_only: true }, false)),
        Some(ShaderResourceType::BufferSrv)
    );
    let tex = BindingType::Texture {
        sample_type: TextureSampleType::Float { filterable: true },
        view_dimension: TextureViewDimension::D2,
        multisampled: false,
    };
    let entry = BindGroupLayoutEntry {
        binding: 0,
        visibility: ShaderStages::VERTEX_FRAGMENT.bits(),
        ty: tex,
        count: Some(4),
    };
    assert_eq!(binding_count(&entry), 4);
    let single = BindGroupLayoutEntry {
        binding: 1,
        visibility: ShaderStages::FRAGMENT.bits(),
        ty: buffer(BufferBindingType::Uniform, false),
        count: None,
    };
    assert_eq!(binding_count(&single), 1);
}

#[test]
fn binding_model_mapping_table_is_complete() {
    assert_eq!(
        binding_type_to_resource_type(&buffer(BufferBindingType::Uniform, false)),
        Some(ShaderResourceType::ConstantBuffer)
    );
    assert_eq!(
        binding_type_to_resource_type(&buffer(BufferBindingType::Uniform, true)),
        Some(ShaderResourceType::ConstantBuffer)
    );
    assert_eq!(
        binding_type_to_resource_type(&buffer(BufferBindingType::Storage { read_only: true }, false)),
        Some(ShaderResourceType::BufferSrv)
    );
    assert_eq!(
        binding_type_to_resource_type(&buffer(BufferBindingType::Storage { read_only: false }, false)),
        Some(ShaderResourceType::BufferUav)
    );
    assert_eq!(
        binding_type_to_resource_type(&BindingType::Texture {
            sample_type: TextureSampleType::Float { filterable: true },
            view_dimension: TextureViewDimension::D2,
            multisampled: false,
        }),
        Some(ShaderResourceType::TextureSrv)
    );
    for access in [StorageTextureAccess::ReadWrite, StorageTextureAccess::WriteOnly] {
        assert_eq!(
            binding_type_to_resource_type(&BindingType::StorageTexture {
                access,
                view_dimension: TextureViewDimension::D2,
            }),
            Some(ShaderResourceType::TextureUav)
        );
    }
    assert_eq!(
        binding_type_to_resource_type(&BindingType::Sampler(SamplerBindingType::Filtering)),
        Some(ShaderResourceType::Sampler)
    );
    assert_eq!(
        binding_type_to_resource_type(&BindingType::AccelerationStructure { vertex_return: false }),
        Some(ShaderResourceType::AccelStruct)
    );
    assert_eq!(binding_type_to_resource_type(&BindingType::ExternalTexture), None);
}
