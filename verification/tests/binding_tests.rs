use render_backend::binding::{
    binding_count, binding_resource_flags, binding_var_type, canonical_prs_name, canonical_resource_descs,
    dynamic_buffer_bindings, immediate_global_name, immediate_prs_stages, immediate_resource_desc,
    pipeline_resource_desc, shader_name_for, shader_named_resource_descs, shader_resource_names,
    sort_ascending, sort_entries_by_binding, srb_variable_probe_stages, ModuleGlobal,
    ImmediateSizeTooLarge, ShaderModuleInfo, ShaderResourceName, UnsupportedBinding,
};
use render_backend::diligent_types::{
    ShaderResourceType, VariableType, PIPELINE_RESOURCE_FLAG_INLINE_CONSTANTS,
    PIPELINE_RESOURCE_FLAG_NONE, PIPELINE_RESOURCE_FLAG_NO_DYNAMIC_BUFFERS,
    PIPELINE_RESOURCE_FLAG_RUNTIME_ARRAY, SHADER_TYPE_PIXEL, SHADER_TYPE_VERTEX,
};
use render_backend::gpu_types::{
    BindGroupLayoutEntry, BindingType, BufferBindingType, SamplerBindingType, PipelineStage,
    TextureSampleType, TextureViewDimension,
};
use wgpu_types::ShaderStages as S;

fn entry(binding: u32, visibility: u32, ty: BindingType, count: Option<u32>) -> BindGroupLayoutEntry {
    BindGroupLayoutEntry { binding, visibility, ty, count }
}

fn uniform(has_dynamic_offset: bool) -> BindingType {
    BindingType::Buffer { ty: BufferBindingType::Uniform, has_dynamic_offset, min_binding_size: None }
}

fn storage(read_only: bool, has_dynamic_offset: bool) -> BindingType {
    BindingType::Buffer { ty: BufferBindingType::Storage { read_only }, has_dynamic_offset, min_binding_size: None }
}

fn texture(view_dimension: TextureViewDimension) -> BindingType {
    BindingType::Texture { sample_type: TextureSampleType::Float { filterable: true }, view_dimension, multisampled: false }
}

fn sampler() -> BindingType {
    BindingType::Sampler(SamplerBindingType::Filtering)
}

fn vf() -> u32 {
    S::VERTEX_FRAGMENT.bits()
}

#[test]
fn canonical_prs_name_is_binding_derived_and_unique() {
    assert_eq!(canonical_prs_name(0), "binding_0");
    assert_eq!(canonical_prs_name(7), "binding_7");
    assert_ne!(canonical_prs_name(0), canonical_prs_name(1));
    assert_eq!(canonical_prs_name(4294967295), "binding_4294967295");
}

fn name(group: u32, binding: u32, n: &str) -> ShaderResourceName {
    ShaderResourceName { group, binding, name: n.to_string() }
}

#[test]
fn shader_name_for_prefers_shader_names_with_canonical_fallback() {
    let shader_names = vec![name(0, 2, "g_Textures"), name(0, 3, "g_Camera")];
    let maps = [shader_names];
    assert_eq!(shader_name_for(&maps, 0, 2), "g_Textures");
    assert_eq!(shader_name_for(&maps, 0, 3), "g_Camera");
    assert_eq!(shader_name_for(&maps, 0, 5), canonical_prs_name(5));
    assert_eq!(shader_name_for(&maps, 1, 0), canonical_prs_name(0));
}

#[test]
fn first_declaring_module_wins_and_later_declarations_override() {
    let vertex = vec![name(0, 1, "first"), name(0, 1, "second")];
    let fragment = vec![name(0, 1, "fragment"), name(1, 4, "g_Material")];
    let maps = [vertex, fragment];
    assert_eq!(shader_name_for(&maps, 0, 1), "second");
    assert_eq!(shader_name_for(&maps, 1, 4), "g_Material");
    assert_eq!(shader_name_for(&[], 2, 9), "binding_9");
}

#[test]
fn shader_resource_names_keep_named_bound_globals() {
    let globals = vec![
        ModuleGlobal { binding: Some((0, 2)), name: Some("g_Textures".to_string()), immediate: false },
        ModuleGlobal { binding: None, name: Some("g_Local".to_string()), immediate: false },
        ModuleGlobal { binding: Some((1, 0)), name: None, immediate: false },
        ModuleGlobal { binding: Some((0, 3)), name: Some("g_Camera".to_string()), immediate: false },
    ];
    assert_eq!(shader_resource_names(&globals), vec![name(0, 2, "g_Textures"), name(0, 3, "g_Camera")]);
}

#[test]
fn pipeline_resource_desc_applies_the_binding_model() {
    for binding in [0u32, 1, 12, 13] {
        let desc = pipeline_resource_desc(0, &entry(binding, vf(), uniform(true), None), canonical_prs_name(binding))
            .unwrap();
        assert_eq!(desc.var_type, VariableType::Dynamic, "binding {binding} must be DYNAMIC");
        assert_eq!(desc.flags, PIPELINE_RESOURCE_FLAG_NONE, "binding {binding} must not carry the flag");
        assert_eq!(desc.array_size, 1, "binding {binding}");
    }

    let desc = pipeline_resource_desc(0, &entry(11, vf(), uniform(false), None), canonical_prs_name(11)).unwrap();
    assert_eq!(desc.var_type, VariableType::Mutable);
    assert_eq!(desc.flags, PIPELINE_RESOURCE_FLAG_NO_DYNAMIC_BUFFERS);
    assert_eq!(desc.resource_type, ShaderResourceType::ConstantBuffer);

    for (binding, dimension) in [
        (0u32, TextureViewDimension::Cube),
        (1, TextureViewDimension::Cube),
        (3, TextureViewDimension::D3),
        (6, TextureViewDimension::D2),
    ] {
        let desc = pipeline_resource_desc(1, &entry(binding, vf(), texture(dimension), Some(8)), canonical_prs_name(binding))
            .unwrap();
        assert_eq!(desc.array_size, 8, "binding {binding} (mesh_view_bindings)");
        assert_eq!(desc.var_type, VariableType::Mutable);
        assert_eq!(desc.flags, PIPELINE_RESOURCE_FLAG_NONE);
        assert_eq!(desc.resource_type, ShaderResourceType::TextureSrv);
    }

    let tex = pipeline_resource_desc(2, &entry(4, vf(), texture(TextureViewDimension::D2), Some(4)), canonical_prs_name(4))
        .unwrap();
    assert_eq!(tex.array_size, 4);
    assert_eq!(tex.resource_type, ShaderResourceType::TextureSrv);
    assert_eq!(tex.var_type, VariableType::Mutable);
    assert_eq!(tex.flags, PIPELINE_RESOURCE_FLAG_NONE);
    let smp = pipeline_resource_desc(2, &entry(5, vf(), sampler(), Some(4)), canonical_prs_name(5)).unwrap();
    assert_eq!(smp.array_size, 4);
    assert_eq!(smp.resource_type, ShaderResourceType::Sampler);
    assert_eq!(smp.var_type, VariableType::Mutable);
    assert_eq!(smp.flags, PIPELINE_RESOURCE_FLAG_NONE);

    let desc = pipeline_resource_desc(0, &entry(14, vf(), storage(true, false), None), canonical_prs_name(14)).unwrap();
    assert_eq!(desc.resource_type, ShaderResourceType::BufferSrv);
    assert_eq!(desc.var_type, VariableType::Mutable);
    assert_eq!(desc.flags, PIPELINE_RESOURCE_FLAG_NO_DYNAMIC_BUFFERS);
    assert_eq!(desc.shader_stages, SHADER_TYPE_VERTEX | SHADER_TYPE_PIXEL);
    assert_eq!(desc.name, "binding_14");
}

#[test]
fn external_textures_have_no_pipeline_resource() {
    let r = pipeline_resource_desc(3, &entry(2, vf(), BindingType::ExternalTexture, None), canonical_prs_name(2));
    assert_eq!(r, Err(UnsupportedBinding { group: 3, binding: 2 }));
}

#[test]
fn var_type_tiers_map_dynamic_and_mutable() {
    for (binding, has_dynamic_offset) in [(0u32, true), (1, true), (12, true), (13, true)] {
        assert_eq!(binding_var_type(&entry(binding, vf(), uniform(has_dynamic_offset), None)), VariableType::Dynamic);
    }
    assert_eq!(binding_var_type(&entry(8, vf(), uniform(false), None)), VariableType::Mutable);
    assert_eq!(binding_var_type(&entry(9, vf(), storage(true, false), None)), VariableType::Mutable);
    assert_eq!(binding_var_type(&entry(10, vf(), texture(TextureViewDimension::D2), None)), VariableType::Mutable);
    assert_eq!(binding_var_type(&entry(11, vf(), storage(true, true), None)), VariableType::Dynamic);
}

#[test]
fn no_dynamic_flags_land_on_non_dynamic_buffer_variables() {
    let e = |ty| entry(0, vf(), ty, None);
    assert_eq!(
        binding_resource_flags(&e(uniform(false)), ShaderResourceType::ConstantBuffer),
        PIPELINE_RESOURCE_FLAG_NO_DYNAMIC_BUFFERS
    );
    assert_eq!(
        binding_resource_flags(&e(storage(true, false)), ShaderResourceType::BufferSrv),
        PIPELINE_RESOURCE_FLAG_NO_DYNAMIC_BUFFERS
    );
    assert_eq!(
        binding_resource_flags(&e(storage(false, false)), ShaderResourceType::BufferUav),
        PIPELINE_RESOURCE_FLAG_NO_DYNAMIC_BUFFERS
    );
    assert_eq!(binding_resource_flags(&e(uniform(true)), ShaderResourceType::ConstantBuffer), PIPELINE_RESOURCE_FLAG_NONE);
    assert_eq!(
        binding_resource_flags(&e(texture(TextureViewDimension::D2)), ShaderResourceType::TextureSrv),
        PIPELINE_RESOURCE_FLAG_NONE
    );
}

#[test]
fn bounded_array_counts_pass_through_verbatim() {
    let fragment = S::FRAGMENT.bits();
    let tex = |binding, dimension, count| entry(binding, fragment, texture(dimension), Some(count));
    assert_eq!(binding_count(&tex(0, TextureViewDimension::Cube, 8)), 8);
    assert_eq!(binding_count(&tex(1, TextureViewDimension::Cube, 8)), 8);
    assert_eq!(binding_count(&tex(3, TextureViewDimension::D3, 8)), 8);
    assert_eq!(binding_count(&tex(6, TextureViewDimension::D2, 8)), 8);
    assert_eq!(binding_count(&tex(4, TextureViewDimension::D2, 4)), 4);
    assert_eq!(binding_count(&entry(5, fragment, sampler(), Some(4))), 4);
    assert_eq!(binding_count(&entry(5, fragment, sampler(), None)), 1);

    assert_eq!(binding_resource_flags(&tex(0, TextureViewDimension::Cube, 8), ShaderResourceType::TextureSrv), 0);
    assert_eq!(binding_var_type(&tex(0, TextureViewDimension::Cube, 8)), VariableType::Mutable);
}

#[test]
fn unbounded_arrays_carry_runtime_array_flag() {
    let fragment = S::FRAGMENT.bits();
    let tex = |binding, count| entry(binding, fragment, texture(TextureViewDimension::D2), Some(count));
    let smp = |binding, count| entry(binding, fragment, sampler(), Some(count));
    let tsrv = ShaderResourceType::TextureSrv;
    let runtime = PIPELINE_RESOURCE_FLAG_RUNTIME_ARRAY;

    assert_eq!(binding_resource_flags(&tex(1, 2048), tsrv), runtime);
    assert_eq!(binding_resource_flags(&tex(2, 64), tsrv), runtime);
    assert_eq!(binding_resource_flags(&smp(1, 2048), ShaderResourceType::Sampler), runtime);
    assert_eq!(binding_resource_flags(&tex(2, 500), tsrv), runtime);
    assert_eq!(binding_resource_flags(&tex(2, 5000), tsrv), runtime);

    assert_eq!(binding_resource_flags(&tex(0, 8), tsrv), 0);
    assert_eq!(binding_resource_flags(&smp(5, 4), ShaderResourceType::Sampler), 0);
    let single = entry(0, fragment, texture(TextureViewDimension::D2), None);
    assert_eq!(binding_resource_flags(&single, tsrv), 0);
}

#[test]
fn dynamic_buffer_bindings_are_ascending() {
    let entries = vec![
        entry(0, vf(), uniform(true), None),
        entry(1, vf(), uniform(true), None),
        entry(
            2,
            vf(),
            BindingType::Texture {
                sample_type: TextureSampleType::Depth,
                view_dimension: TextureViewDimension::Cube,
                multisampled: false,
            },
            None,
        ),
        entry(12, vf(), uniform(true), None),
        entry(13, vf(), uniform(false), None),
    ];
    assert_eq!(dynamic_buffer_bindings(&entries), vec![0, 1, 12]);
    assert_eq!(dynamic_buffer_bindings(&[]), Vec::<u32>::new());
}

#[test]
fn dynamic_buffer_bindings_sort_unsorted_input() {
    let entries = vec![
        entry(12, vf(), uniform(true), None),
        entry(7, vf(), uniform(false), None),
        entry(5, vf(), uniform(true), None),
        entry(0, vf(), uniform(true), None),
        entry(9, vf(), uniform(true), None),
    ];
    assert_eq!(dynamic_buffer_bindings(&entries), vec![0, 5, 9, 12]);
}

#[test]
fn sort_ascending_keeps_duplicates() {
    assert_eq!(sort_ascending(vec![3, 1, 3, 0, 2]), vec![0, 1, 2, 3, 3]);
    assert_eq!(sort_ascending(Vec::new()), Vec::<u32>::new());
}

#[test]
fn srb_variable_probe_stages_follow_the_pipeline_type_rule() {
    let e = |visibility: S| entry(0, visibility.bits(), texture(TextureViewDimension::D2), None);
    assert_eq!(srb_variable_probe_stages(&[e(S::COMPUTE)]), S::COMPUTE.bits());
    assert_eq!(srb_variable_probe_stages(&[e(S::COMPUTE), e(S::COMPUTE)]), S::COMPUTE.bits());
    assert_eq!(srb_variable_probe_stages(&[e(S::VERTEX_FRAGMENT)]), S::VERTEX_FRAGMENT.bits());
    assert_eq!(srb_variable_probe_stages(&[e(S::VERTEX), e(S::FRAGMENT)]), S::VERTEX_FRAGMENT.bits());
    assert_eq!(srb_variable_probe_stages(&[e(S::VERTEX_FRAGMENT), e(S::COMPUTE)]), S::VERTEX_FRAGMENT.bits());
    assert_eq!(srb_variable_probe_stages(&[]), S::empty().bits());
}

#[test]
fn entries_sort_stably_by_binding() {
    let entries = vec![
        entry(3, vf(), uniform(false), None),
        entry(1, vf(), sampler(), None),
        entry(3, vf(), texture(TextureViewDimension::D2), None),
        entry(0, vf(), uniform(true), None),
    ];
    let sorted = sort_entries_by_binding(&entries);
    let order: Vec<u32> = sorted.iter().map(|e| e.binding).collect();
    assert_eq!(order, vec![0, 1, 3, 3]);
    assert_eq!(sorted[2].ty, uniform(false));
    assert_eq!(sorted[3].ty, texture(TextureViewDimension::D2));
}

#[test]
fn canonical_descs_follow_binding_order() {
    let entries = vec![
        entry(2, vf(), texture(TextureViewDimension::D2), None),
        entry(0, vf(), uniform(true), None),
    ];
    let descs = canonical_resource_descs(&entries).unwrap();
    assert_eq!(descs.len(), 2);
    assert_eq!(descs[0].name, "binding_0");
    assert_eq!(descs[0].var_type, VariableType::Dynamic);
    assert_eq!(descs[1].name, "binding_2");
    assert_eq!(descs[1].resource_type, ShaderResourceType::TextureSrv);

    let names = [vec![name(1, 2, "g_Albedo")]];
    let named = shader_named_resource_descs(1, &entries, &names).unwrap();
    assert_eq!(named[0].name, "binding_0");
    assert_eq!(named[1].name, "g_Albedo");

    let bad = vec![entry(4, vf(), BindingType::ExternalTexture, None)];
    assert_eq!(canonical_resource_descs(&bad), Err(UnsupportedBinding { group: 0, binding: 4 }));
}

fn module(stages: Vec<PipelineStage>, globals: Vec<ModuleGlobal>) -> Option<ShaderModuleInfo> {
    Some(ShaderModuleInfo { entry_stages: stages, globals })
}

fn immediate_global(n: &str) -> ModuleGlobal {
    ModuleGlobal { binding: None, name: Some(n.to_string()), immediate: true }
}

#[test]
fn immediate_resource_is_named_after_the_global() {
    let modules = [
        module(vec![PipelineStage::Vertex], vec![immediate_global("pc")]),
        None,
        module(vec![PipelineStage::Fragment], Vec::new()),
    ];
    assert_eq!(immediate_global_name(&modules), Some("pc".to_string()));
    assert_eq!(immediate_prs_stages(&modules), S::VERTEX_FRAGMENT.bits());
    let desc = immediate_resource_desc(&modules, 10).unwrap().unwrap();
    assert_eq!(desc.name, "pc");
    assert_eq!(desc.array_size, 3);
    assert_eq!(desc.resource_type, ShaderResourceType::ConstantBuffer);
    assert_eq!(desc.var_type, VariableType::Mutable);
    assert_eq!(desc.flags, PIPELINE_RESOURCE_FLAG_INLINE_CONSTANTS);
    assert_eq!(desc.shader_stages, SHADER_TYPE_VERTEX | SHADER_TYPE_PIXEL);
}

#[test]
fn immediate_resource_absent_or_too_large() {
    let modules = [module(vec![PipelineStage::Compute], vec![immediate_global("pc")])];
    assert_eq!(immediate_resource_desc(&modules, 0), Ok(None));
    let unnamed = [module(vec![PipelineStage::Compute], Vec::new())];
    assert_eq!(immediate_resource_desc(&unnamed, 16), Ok(None));
    assert_eq!(immediate_resource_desc(&modules, 256).unwrap().unwrap().array_size, 64);
    let err = immediate_resource_desc(&modules, 257).err().unwrap();
    assert_eq!(err, ImmediateSizeTooLarge { size_bytes: 257, size_dwords: 65 });
    assert_eq!(
        err.message(),
        "immediate constants size 257 bytes exceeds the Diligent maximum of 64 DWORDs (65 dwords requested)"
    );
    assert_eq!(immediate_prs_stages(&modules), S::COMPUTE.bits());
}
