use render_backend::binding::{immediate_global_name, immediate_prs_stages};
use render_backend::diligent_types::{SHADER_TYPE_PIXEL, SHADER_TYPE_VERTEX};
use render_backend::gpu_types::PipelineStage;
use render_backend::resources::{make_spirv, ShaderSource};
use render_backend::shader::{
    compile_shader, compile_shader_source, immediate_target, shader_module_infos, shader_name,
    words_to_le_bytes, DiligentBackend, ShaderCode, ShaderErrorLatch, StageShaderCache,
};

const FRAGMENT: &str = r#"
@fragment
fn main(@location(0) uv: vec2<f32>) -> @location(0) vec4<f32> {
    return vec4<f32>(uv, 0.0, 1.0);
}
"#;

const WITH_IMMEDIATES: &str = r#"
struct Constants {
    offset: vec4<f32>,
}

var<immediate> pc: Constants;

@vertex
fn vs_main() -> @builtin(position) vec4<f32> {
    return pc.offset;
}
"#;

fn wgsl(source: &str) -> naga::Module {
    compile_shader_source(&ShaderSource::Wgsl(source.to_string())).expect("wgsl parse")
}

#[test]
fn wgsl_fragment_translates_to_hlsl_with_expected_entry() {
    let module = wgsl(FRAGMENT);
    let shader = compile_shader(&module, DiligentBackend::D3D12, PipelineStage::Fragment, "main").unwrap();
    assert_eq!(shader.name, "bevy_main");
    assert_eq!(shader.shader_type, SHADER_TYPE_PIXEL);
    let hlsl = match shader.code {
        ShaderCode::Hlsl(h) => h,
        ShaderCode::SpirV(_) => panic!("expected HLSL"),
    };
    assert!(hlsl.contains("main"), "HLSL must expose the entry point (got {})", hlsl);
    assert!(
        hlsl.contains("PS_OUTPUT") || hlsl.to_ascii_uppercase().contains("SV_TARGET"),
        "HLSL fragment must emit a pixel-shader output signature (got {})",
        hlsl
    );
    assert!(hlsl.contains("float4") && hlsl.contains("0.0"), "HLSL must keep the float4 composition");
}

#[test]
fn wgsl_fragment_translates_to_spirv() {
    let module = wgsl(FRAGMENT);
    let shader = compile_shader(&module, DiligentBackend::Vulkan, PipelineStage::Fragment, "main").unwrap();
    let bytes = match shader.code {
        ShaderCode::SpirV(b) => b,
        ShaderCode::Hlsl(_) => panic!("expected SPIR-V"),
    };
    let words = match make_spirv(&bytes) {
        ShaderSource::SpirV(w) => w,
        _ => panic!("expected SPIR-V words"),
    };
    assert!(words.len() > 8, "SPIR-V must be a non-trivial module ({} words)", words.len());
    assert_eq!(words[0], 0x0723_0203, "SPIR-V magic number");
}

#[test]
fn spirv_output_parses_back_as_a_module() {
    let module = wgsl(FRAGMENT);
    let shader = compile_shader(&module, DiligentBackend::Vulkan, PipelineStage::Fragment, "main").unwrap();
    let ShaderCode::SpirV(bytes) = shader.code else { panic!("expected SPIR-V") };
    let source = make_spirv(&bytes);
    assert!(compile_shader_source(&source).is_ok());
}

#[test]
fn parse_errors_name_the_source_kind() {
    let err = compile_shader_source(&ShaderSource::Wgsl("fn (".to_string())).err().unwrap();
    assert!(err.starts_with("failed to parse WGSL shader: "), "{err}");
    let err = compile_shader_source(&ShaderSource::SpirV(vec![1, 2, 3])).err().unwrap();
    assert!(err.starts_with("failed to parse SPIR-V shader: "), "{err}");
    let module = wgsl(FRAGMENT);
    assert!(compile_shader_source(&ShaderSource::Naga(module)).is_ok());
}

#[test]
fn compile_errors_name_the_failing_step() {
    let module = wgsl(FRAGMENT);
    let err = compile_shader(&module, DiligentBackend::Other, PipelineStage::Fragment, "main").err().unwrap();
    assert_eq!(err, "no diligent backend configured");
    let err = compile_shader(&module, DiligentBackend::D3D12, PipelineStage::Fragment, "missing").err().unwrap();
    assert!(err.starts_with("naga HLSL generation failed: "), "{err}");
    let err = compile_shader(&module, DiligentBackend::Vulkan, PipelineStage::Vertex, "main").err().unwrap();
    assert!(err.starts_with("naga SPIR-V generation failed: "), "{err}");
}

#[test]
fn module_descriptions_feed_the_immediate_binding_model() {
    let with = wgsl(WITH_IMMEDIATES);
    let without = wgsl(FRAGMENT);
    let infos = shader_module_infos(&[Some(&with), None, Some(&without)]);
    assert_eq!(infos.len(), 3);
    assert!(infos[1].is_none());
    let first = infos[0].as_ref().unwrap();
    assert_eq!(immediate_target(first), Some((0, 0)));
    assert_eq!(immediate_target(infos[2].as_ref().unwrap()), None);
    assert_eq!(immediate_global_name(&infos), Some("pc".to_string()));
    assert_eq!(immediate_prs_stages(&infos), 1 | 2);
    let shader = compile_shader(&with, DiligentBackend::D3D12, PipelineStage::Vertex, "vs_main").unwrap();
    assert_eq!(shader.shader_type, SHADER_TYPE_VERTEX);
    assert_eq!(shader_name("vs_main"), "bevy_vs_main");
}

#[test]
fn words_become_little_endian_bytes() {
    assert_eq!(words_to_le_bytes(&[0x0723_0203, 0xaabb_ccdd]), vec![0x03, 0x02, 0x23, 0x07, 0xdd, 0xcc, 0xbb, 0xaa]);
    assert!(words_to_le_bytes(&[]).is_empty());
    let words = vec![0x0102_0304u32, 0xffff_fffe, 0];
    match make_spirv(&words_to_le_bytes(&words)) {
        ShaderSource::SpirV(back) => assert_eq!(back, words),
        _ => panic!("expected SPIR-V"),
    }
}

#[test]
fn compiled_shaders_are_cached_per_stage_and_entry_point() {
    let mut cache: StageShaderCache<u32> = StageShaderCache::new();
    assert_eq!(cache.find(PipelineStage::Vertex, "main"), None);
    assert_eq!(cache.insert(PipelineStage::Vertex, "main", 1), 0);
    assert_eq!(cache.insert(PipelineStage::Fragment, "main", 2), 1);
    assert_eq!(cache.insert(PipelineStage::Vertex, "main", 3), 0);
    assert_eq!(cache.entries.len(), 2);
    assert_eq!(cache.entries[0].1, 1);
    assert_eq!(cache.find(PipelineStage::Fragment, "main"), Some(1));
    assert_eq!(cache.find(PipelineStage::Fragment, "other"), None);
}

#[test]
fn the_error_latch_keeps_the_last_outcome_until_taken() {
    let mut latch = ShaderErrorLatch::new();
    assert!(latch.record(Err("bad shader".to_string())).is_none());
    assert_eq!(latch.error.as_deref(), Some("bad shader"));
    assert!(latch.record(Ok(naga::Module::default())).is_some());
    assert!(latch.error.is_none());
    latch.record(Err("again".to_string()));
    assert_eq!(latch.take().as_deref(), Some("again"));
    assert!(latch.take().is_none());
}
