use wgpu_types::Features as F;
use render_backend::diligent_types::{
    DeviceFeatureState, RenderDeviceType, DRAW_COMMAND_CAP_FLAG_DRAW_INDIRECT_FIRST_INSTANCE,
    DRAW_COMMAND_CAP_FLAG_NATIVE_MULTI_DRAW_INDIRECT, RAY_TRACING_CAP_FLAG_INLINE_RAY_TRACING,
};
use render_backend::features::{
    adreno_model_from_name, derive_max_storage_buffers_per_shader_stage,
    derive_max_storage_textures_per_shader_stage, DeviceFeatures, DiligentCaps, DiligentFeatures,
    Features, GraphicsAdapterInfo, RenderDeviceInfo,
};

const ON: DeviceFeatureState = DeviceFeatureState::Enabled;
const OFF: DeviceFeatureState = DeviceFeatureState::Disabled;

/// The library mask of a feature set of the GPU types crate.
fn mask(features: wgpu_types::Features) -> Features {
    let bits = features.bits().0;
    Features { wgpu: bits[0], webgpu: bits[1] }
}

fn and_not(a: Features, b: Features) -> Features {
    Features { wgpu: a.wgpu & !b.wgpu, webgpu: a.webgpu & !b.webgpu }
}

fn or(a: Features, b: Features) -> Features {
    Features { wgpu: a.wgpu | b.wgpu, webgpu: a.webgpu | b.webgpu }
}

fn all_features(state: DeviceFeatureState) -> DeviceFeatures {
    DeviceFeatures {
        wireframe_fill: state,
        depth_clamp: state,
        dual_source_blend: state,
        timestamp_queries: state,
        texture_compression_bc: state,
        bindless_resources: state,
        shader_resource_runtime_arrays: state,
        wave_op: state,
        ray_tracing: state,
        mesh_shaders: state,
        shader_barycentrics: state,
    }
}

fn d3d12_device_info(shader_major: u32, shader_minor: u32) -> RenderDeviceInfo {
    RenderDeviceInfo {
        device_type: RenderDeviceType::D3D12,
        shader_model_major: shader_major,
        shader_model_minor: shader_minor,
        features: all_features(OFF),
    }
}

fn adapter_info() -> GraphicsAdapterInfo {
    GraphicsAdapterInfo { ray_tracing_cap_flags: 0, draw_command_cap_flags: 0 }
}

fn rtx3050ti_mock() -> (RenderDeviceInfo, GraphicsAdapterInfo) {
    let mut device = d3d12_device_info(6, 6);
    device.features = all_features(ON);
    let adapter = GraphicsAdapterInfo {
        ray_tracing_cap_flags: RAY_TRACING_CAP_FLAG_INLINE_RAY_TRACING,
        draw_command_cap_flags: DRAW_COMMAND_CAP_FLAG_DRAW_INDIRECT_FIRST_INSTANCE
            | DRAW_COMMAND_CAP_FLAG_NATIVE_MULTI_DRAW_INDIRECT,
    };
    (device, adapter)
}

#[test]
fn d3d12_target_profile_sets_every_consumer_gate_feature() {
    let (device, adapter) = rtx3050ti_mock();
    let features = DiligentFeatures::derive_from_info(&device, &adapter).expect("D3D12 must derive");
    let m = features.as_features();

    assert!(m.contains(mask(F::IMMEDIATES)));
    assert!(m.contains(mask(F::INDIRECT_FIRST_INSTANCE)));
    assert!(m.contains(mask(F::POLYGON_MODE_LINE)));
    assert!(m.contains(mask(
        F::TEXTURE_INT64_ATOMIC | F::TEXTURE_ATOMIC | F::SHADER_INT64 | F::SUBGROUP | F::DEPTH_CLIP_CONTROL
    )));
    assert!(m.contains(mask(
        F::TEXTURE_BINDING_ARRAY
            | F::SAMPLED_TEXTURE_AND_STORAGE_BUFFER_ARRAY_NON_UNIFORM_INDEXING
            | F::PARTIALLY_BOUND_BINDING_ARRAY
    )));
    assert!(m.contains(mask(F::EXPERIMENTAL_RAY_QUERY)));
    assert!(m.contains(mask(F::MULTI_DRAW_INDIRECT_COUNT)));
    assert!(m.contains(mask(F::DUAL_SOURCE_BLENDING)));
    assert!(m.contains(mask(
        F::TIMESTAMP_QUERY | F::TIMESTAMP_QUERY_INSIDE_PASSES | F::TIMESTAMP_QUERY_INSIDE_ENCODERS
    )));
    assert!(m.contains(mask(F::TEXTURE_COMPRESSION_BC)));
    assert!(!m.contains(mask(F::TEXTURE_COMPRESSION_ETC2)));

    assert!(!m.contains(mask(F::PIPELINE_STATISTICS_QUERY)));
    assert!(!m.contains(mask(F::BUFFER_BINDING_ARRAY)));
    assert!(!m.contains(mask(F::MAPPABLE_PRIMARY_BUFFERS)));
}

#[test]
fn immediates_is_always_set_on_d3d12() {
    let device = d3d12_device_info(6, 6);
    let adapter = adapter_info();
    let features = DiligentFeatures::derive_from_info(&device, &adapter).expect("D3D12 must derive");
    assert!(features.contains(mask(F::IMMEDIATES)));
    assert!(!features.contains(mask(F::TEXTURE_BINDING_ARRAY)));
    assert!(!features.contains(mask(F::POLYGON_MODE_LINE)));
}

#[test]
fn shader_model_gates() {
    let (device, adapter) = rtx3050ti_mock();
    let mut device_65 = device;
    device_65.shader_model_major = 6;
    device_65.shader_model_minor = 5;
    let features_65 = DiligentFeatures::derive_from_info(&device_65, &adapter).unwrap();
    assert!(features_65.contains(mask(F::EXPERIMENTAL_RAY_QUERY)));
    assert!(features_65.contains(mask(F::SHADER_INT64)));
    assert!(!features_65.contains(mask(F::TEXTURE_INT64_ATOMIC)));

    let mut device_60 = device;
    device_60.shader_model_major = 6;
    device_60.shader_model_minor = 0;
    let features_60 = DiligentFeatures::derive_from_info(&device_60, &adapter).unwrap();
    assert!(!features_60.contains(mask(F::EXPERIMENTAL_RAY_QUERY)));
    assert!(features_60.contains(mask(F::SHADER_INT64)));
    assert!(!features_60.contains(mask(F::TEXTURE_INT64_ATOMIC)));
}

#[test]
fn storage_limits_are_d3d12_desktop_tier() {
    let device = d3d12_device_info(6, 6);
    assert_eq!(derive_max_storage_buffers_per_shader_stage(&device), Some(64));
    assert_eq!(derive_max_storage_textures_per_shader_stage(&device), Some(64));
}

#[test]
fn non_d3d12_backend_derives_nothing() {
    let mut device = d3d12_device_info(6, 6);
    device.device_type = RenderDeviceType::Vulkan;
    let adapter = adapter_info();
    assert!(DiligentFeatures::derive_from_info(&device, &adapter).is_none());
    assert!(derive_max_storage_buffers_per_shader_stage(&device).is_none());
    assert!(DiligentCaps::derive_from_info(&device, &adapter).is_none());
}

#[test]
fn adreno_blacklist_model_parsing() {
    assert_eq!(adreno_model_from_name("Adreno (TM) 610"), Some(610));
    assert_eq!(adreno_model_from_name("Adreno (TM) 650"), Some(650));
    assert_eq!(adreno_model_from_name("Adreno (TM) 642L"), Some(642));
    assert_eq!(adreno_model_from_name("Adreno (TM) 610?!"), Some(610));
    assert_eq!(adreno_model_from_name("NVIDIA GeForce RTX 3050 Ti"), None);
    assert_eq!(adreno_model_from_name("AMD Radeon(TM) Graphics"), None);
    assert_eq!(adreno_model_from_name("Adreno (TM) "), None);
    assert_eq!(adreno_model_from_name("Adreno (TM) X610"), None);
}

#[test]
fn derived_mask_intersects_disabled_settings_features() {
    let (device, adapter) = rtx3050ti_mock();
    let caps = DiligentCaps::derive_from_info(&device, &adapter).expect("D3D12 must derive");
    let derived = caps.features().as_features();

    let disabled = mask(F::TEXTURE_BINDING_ARRAY);
    assert!(derived.contains(disabled), "precondition: derived mask has the bit");
    let m = caps.intersect_settings_features(and_not(derived, disabled)).features().as_features();
    assert!(!m.contains(disabled), "disabled bit must be cleared");
    assert_eq!(m, and_not(derived, disabled), "nothing else is dropped");

    let m = caps
        .intersect_settings_features(or(derived, mask(F::TEXTURE_COMPRESSION_ETC2)))
        .features()
        .as_features();
    assert!(!m.contains(mask(F::TEXTURE_COMPRESSION_ETC2)));
    assert_eq!(m, derived);
}

#[test]
fn caps_carry_the_storage_limits() {
    let (device, adapter) = rtx3050ti_mock();
    let caps = DiligentCaps::derive_from_info(&device, &adapter).unwrap();
    assert_eq!(caps.max_storage_buffers_per_shader_stage(), 64);
    assert_eq!(caps.max_storage_textures_per_shader_stage(), 64);
}

#[test]
fn optional_feature_state_is_not_enabled() {
    let mut device = d3d12_device_info(6, 6);
    device.features.wireframe_fill = DeviceFeatureState::Optional;
    let features = DiligentFeatures::derive_from_info(&device, &adapter_info()).unwrap();
    assert!(!features.contains(mask(F::POLYGON_MODE_LINE)));
    // Shader model 5.1 has no 64-bit integers.
    let old = d3d12_device_info(5, 1);
    let features = DiligentFeatures::derive_from_info(&old, &adapter_info()).unwrap();
    assert!(!features.contains(mask(F::SHADER_INT64)));
}
