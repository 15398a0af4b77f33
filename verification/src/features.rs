//! Device capability expression: the GPU feature mask and storage limits
//! that consumers gate on, derived from the engine's device and adapter
//! capability queries.

use crate::diligent_types as dil;
use crate::text;
use vstd::prelude::*;

verus! {

// Bits of the native (non-WebGPU) half of a feature mask.
/// 16-bit normalized texture formats.
pub const WGPU_TEXTURE_FORMAT_16BIT_NORM: u64 = 0x2;
/// Adapter-specific texture format features.
pub const WGPU_TEXTURE_ADAPTER_SPECIFIC_FORMAT_FEATURES: u64 = 0x8;
/// Pipeline statistics queries.
pub const WGPU_PIPELINE_STATISTICS_QUERY: u64 = 0x10;
/// Timestamps written by command encoders.
pub const WGPU_TIMESTAMP_QUERY_INSIDE_ENCODERS: u64 = 0x20;
/// Timestamps written inside passes.
pub const WGPU_TIMESTAMP_QUERY_INSIDE_PASSES: u64 = 0x40;
/// Mappable buffers with any usage.
pub const WGPU_MAPPABLE_PRIMARY_BUFFERS: u64 = 0x80;
/// Arrays of textures in bind groups.
pub const WGPU_TEXTURE_BINDING_ARRAY: u64 = 0x100;
/// Arrays of buffers in bind groups.
pub const WGPU_BUFFER_BINDING_ARRAY: u64 = 0x200;
/// Arrays of storage resources in bind groups.
pub const WGPU_STORAGE_RESOURCE_BINDING_ARRAY: u64 = 0x400;
/// Non-uniform indexing of sampled texture and storage buffer arrays.
pub const WGPU_SAMPLED_TEXTURE_AND_STORAGE_BUFFER_ARRAY_NON_UNIFORM_INDEXING: u64 = 0x800;
/// Non-uniform indexing of storage texture arrays.
pub const WGPU_STORAGE_TEXTURE_ARRAY_NON_UNIFORM_INDEXING: u64 = 0x1000;
/// Partially bound binding arrays.
pub const WGPU_PARTIALLY_BOUND_BINDING_ARRAY: u64 = 0x2000;
/// Multi-draw-indirect with a count buffer.
pub const WGPU_MULTI_DRAW_INDIRECT_COUNT: u64 = 0x8000;
/// The clamp-to-zero address mode.
pub const WGPU_ADDRESS_MODE_CLAMP_TO_ZERO: u64 = 0x20000;
/// The clamp-to-border address mode.
pub const WGPU_ADDRESS_MODE_CLAMP_TO_BORDER: u64 = 0x40000;
/// Line polygon mode.
pub const WGPU_POLYGON_MODE_LINE: u64 = 0x80000;
/// Storage writes from vertex shaders.
pub const WGPU_VERTEX_WRITABLE_STORAGE: u64 = 0x400000;
/// Texture clears.
pub const WGPU_CLEAR_TEXTURE: u64 = 0x800000;
/// Texture atomics.
pub const WGPU_TEXTURE_ATOMIC: u64 = 0x10000000;
/// The NV12 texture format.
pub const WGPU_TEXTURE_FORMAT_NV12: u64 = 0x20000000;
/// External textures.
pub const WGPU_EXTERNAL_TEXTURE: u64 = 0x80000000;
/// Ray queries.
pub const WGPU_EXPERIMENTAL_RAY_QUERY: u64 = 0x1_0000_0000;
/// 64-bit integers in shaders.
pub const WGPU_SHADER_INT64: u64 = 0x20_0000_0000;
/// Subgroup operations.
pub const WGPU_SUBGROUP: u64 = 0x40_0000_0000;
/// 64-bit min/max atomics.
pub const WGPU_SHADER_INT64_ATOMIC_MIN_MAX: u64 = 0x400_0000_0000;
/// All 64-bit atomics.
pub const WGPU_SHADER_INT64_ATOMIC_ALL_OPS: u64 = 0x800_0000_0000;
/// 64-bit texture atomics.
pub const WGPU_TEXTURE_INT64_ATOMIC: u64 = 0x4000_0000_0000;
/// Mesh shaders.
pub const WGPU_EXPERIMENTAL_MESH_SHADER: u64 = 0x1_0000_0000_0000;
/// Extended acceleration structure vertex formats.
pub const WGPU_EXTENDED_ACCELERATION_STRUCTURE_VERTEX_FORMATS: u64 = 0x8_0000_0000_0000;
/// Barycentric coordinates in shaders.
pub const WGPU_SHADER_BARYCENTRICS: u64 = 0x20_0000_0000_0000;
/// Arrays of acceleration structures in bind groups.
pub const WGPU_ACCELERATION_STRUCTURE_BINDING_ARRAY: u64 = 0x1000_0000_0000_0000;
/// The coherent memory decoration.
pub const WGPU_MEMORY_DECORATION_COHERENT: u64 = 0x2000_0000_0000_0000;

// Bits of the WebGPU half of a feature mask.
/// Depth clip control.
pub const WEBGPU_DEPTH_CLIP_CONTROL: u64 = 0x1;
/// The depth32float-stencil8 format.
pub const WEBGPU_DEPTH32FLOAT_STENCIL8: u64 = 0x2;
/// BC texture compression.
pub const WEBGPU_TEXTURE_COMPRESSION_BC: u64 = 0x4;
/// BC texture compression of sliced 3D textures.
pub const WEBGPU_TEXTURE_COMPRESSION_BC_SLICED_3D: u64 = 0x8;
/// ETC2 texture compression.
pub const WEBGPU_TEXTURE_COMPRESSION_ETC2: u64 = 0x10;
/// Timestamp queries.
pub const WEBGPU_TIMESTAMP_QUERY: u64 = 0x80;
/// Indirect draws with a first instance.
pub const WEBGPU_INDIRECT_FIRST_INSTANCE: u64 = 0x100;
/// The rg11b10ufloat format as a render target.
pub const WEBGPU_RG11B10UFLOAT_RENDERABLE: u64 = 0x400;
/// Filterable 32-bit float textures.
pub const WEBGPU_FLOAT32_FILTERABLE: u64 = 0x1000;
/// Dual-source blending.
pub const WEBGPU_DUAL_SOURCE_BLENDING: u64 = 0x4000;
/// Immediate (push) constants.
pub const WEBGPU_IMMEDIATES: u64 = 0x10000;
/// The primitive index builtin.
pub const WEBGPU_PRIMITIVE_INDEX: u64 = 0x20000;

/// The maximum number of storage-buffer bindings per shader stage on D3D12:
/// the 64 unordered-access slots of a stage.
pub const D3D12_MAX_STORAGE_BUFFERS_PER_SHADER_STAGE: u32 = 64;
/// The maximum number of storage-texture bindings per shader stage on
/// D3D12: storage textures share the 64 unordered-access slots.
pub const D3D12_MAX_STORAGE_TEXTURES_PER_SHADER_STAGE: u32 = 64;

/// A GPU feature mask: its native half and its WebGPU half.
#[derive(Clone, Copy, Debug, PartialEq, Eq, Structural)]
pub struct Features {
    pub wgpu: u64,
    pub webgpu: u64,
}

impl Features {
    /// Whether every feature of `other` is in `self`.
    pub open spec fn spec_contains(self, other: Features) -> bool {
        self.wgpu & other.wgpu == other.wgpu && self.webgpu & other.webgpu == other.webgpu
    }

    /// Whether every feature of `other` is in `self`.
    pub fn contains(&self, other: Features) -> (r: bool)
        ensures
            r == self.spec_contains(other),
    {
        self.wgpu & other.wgpu == other.wgpu && self.webgpu & other.webgpu == other.webgpu
    }

    /// The features in both masks.
    pub fn intersection(&self, other: Features) -> (r: Features)
        ensures
            r == (Features { wgpu: self.wgpu & other.wgpu, webgpu: self.webgpu & other.webgpu }),
    {
        Features { wgpu: self.wgpu & other.wgpu, webgpu: self.webgpu & other.webgpu }
    }
}

/// The state of the engine features the derivation reads.
#[derive(Clone, Copy, Debug, PartialEq, Eq, Structural)]
pub struct DeviceFeatures {
    pub wireframe_fill: dil::DeviceFeatureState,
    pub depth_clamp: dil::DeviceFeatureState,
    pub dual_source_blend: dil::DeviceFeatureState,
    pub timestamp_queries: dil::DeviceFeatureState,
    pub texture_compression_bc: dil::DeviceFeatureState,
    pub bindless_resources: dil::DeviceFeatureState,
    pub shader_resource_runtime_arrays: dil::DeviceFeatureState,
    pub wave_op: dil::DeviceFeatureState,
    pub ray_tracing: dil::DeviceFeatureState,
    pub mesh_shaders: dil::DeviceFeatureState,
    pub shader_barycentrics: dil::DeviceFeatureState,
}

/// The part of the engine's device information the derivation reads: the
/// device type, the maximum HLSL shader model and the feature states.
#[derive(Clone, Copy, Debug, PartialEq, Eq, Structural)]
pub struct RenderDeviceInfo {
    pub device_type: dil::RenderDeviceType,
    pub shader_model_major: u32,
    pub shader_model_minor: u32,
    pub features: DeviceFeatures,
}

/// The part of the engine's adapter information the derivation reads.
#[derive(Clone, Copy, Debug, PartialEq, Eq, Structural)]
pub struct GraphicsAdapterInfo {
    pub ray_tracing_cap_flags: u32,
    pub draw_command_cap_flags: u32,
}

/// True when the feature state is enabled (optional and disabled features
/// are not enabled on the device).
pub fn feature_state_enabled(state: dil::DeviceFeatureState) -> (r: bool)
    ensures
        r == (state == dil::DeviceFeatureState::Enabled),
{
    match state {
        dil::DeviceFeatureState::Enabled => true,
        _ => false,
    }
}

/// Whether the device is a D3D12 device.
pub fn is_d3d12(info: &RenderDeviceInfo) -> (r: bool)
    ensures
        r == (info.device_type == dil::RenderDeviceType::D3D12),
{
    match info.device_type {
        dil::RenderDeviceType::D3D12 => true,
        _ => false,
    }
}

/// Whether the maximum shader model is at least `major.minor`.
pub open spec fn shader_model_at_least(info: RenderDeviceInfo, major: u32, minor: u32) -> bool {
    info.shader_model_major > major || (info.shader_model_major == major && info.shader_model_minor >= minor)
}

/// The features every D3D12 device has: the platform constants, immediates
/// and storage writes from vertex shaders.
pub open spec fn d3d12_platform_wgpu() -> u64 {
    WGPU_ADDRESS_MODE_CLAMP_TO_BORDER | WGPU_ADDRESS_MODE_CLAMP_TO_ZERO | WGPU_CLEAR_TEXTURE
        | WGPU_TEXTURE_FORMAT_16BIT_NORM | WGPU_TEXTURE_FORMAT_NV12 | WGPU_EXTERNAL_TEXTURE
        | WGPU_MEMORY_DECORATION_COHERENT | WGPU_TEXTURE_ADAPTER_SPECIFIC_FORMAT_FEATURES
        | WGPU_TEXTURE_ATOMIC | WGPU_VERTEX_WRITABLE_STORAGE
}

/// The WebGPU half of the D3D12 platform features.
pub open spec fn d3d12_platform_webgpu() -> u64 {
    WEBGPU_DEPTH32FLOAT_STENCIL8 | WEBGPU_PRIMITIVE_INDEX | WEBGPU_RG11B10UFLOAT_RENDERABLE
        | WEBGPU_FLOAT32_FILTERABLE | WEBGPU_IMMEDIATES
}

/// Whether a feature is enabled on the device.
pub open spec fn on(state: dil::DeviceFeatureState) -> bool {
    state == dil::DeviceFeatureState::Enabled
}

/// The native half of the D3D12 feature mask: the platform features, plus
/// each feature whose engine capability (feature state, adapter capability
/// flag or shader model) is present.
pub open spec fn d3d12_wgpu_spec(info: RenderDeviceInfo, adapter: GraphicsAdapterInfo) -> u64 {
    let f = info.features;
    d3d12_platform_wgpu()
    | (if on(f.wireframe_fill) { WGPU_POLYGON_MODE_LINE } else { 0 })
    | (if on(f.timestamp_queries) {
        WGPU_TIMESTAMP_QUERY_INSIDE_ENCODERS | WGPU_TIMESTAMP_QUERY_INSIDE_PASSES
    } else {
        0
    })
    | (if on(f.bindless_resources) && on(f.shader_resource_runtime_arrays) {
        WGPU_TEXTURE_BINDING_ARRAY | WGPU_STORAGE_RESOURCE_BINDING_ARRAY
            | WGPU_STORAGE_TEXTURE_ARRAY_NON_UNIFORM_INDEXING
            | WGPU_SAMPLED_TEXTURE_AND_STORAGE_BUFFER_ARRAY_NON_UNIFORM_INDEXING
            | WGPU_PARTIALLY_BOUND_BINDING_ARRAY
    } else {
        0
    })
    | (if on(f.wave_op) { WGPU_SUBGROUP } else { 0 })
    | (if on(f.ray_tracing) && adapter.ray_tracing_cap_flags & dil::RAY_TRACING_CAP_FLAG_INLINE_RAY_TRACING != 0
        && shader_model_at_least(info, 6, 5) {
        WGPU_EXPERIMENTAL_RAY_QUERY | WGPU_EXTENDED_ACCELERATION_STRUCTURE_VERTEX_FORMATS
            | WGPU_ACCELERATION_STRUCTURE_BINDING_ARRAY
    } else {
        0
    })
    | (if info.shader_model_major >= 6 { WGPU_SHADER_INT64 } else { 0 })
    | (if shader_model_at_least(info, 6, 6) {
        WGPU_SHADER_INT64_ATOMIC_ALL_OPS | WGPU_SHADER_INT64_ATOMIC_MIN_MAX | WGPU_TEXTURE_INT64_ATOMIC
    } else {
        0
    })
    | (if on(f.mesh_shaders) { WGPU_EXPERIMENTAL_MESH_SHADER } else { 0 })
    | (if on(f.shader_barycentrics) { WGPU_SHADER_BARYCENTRICS } else { 0 })
    | (if adapter.draw_command_cap_flags & dil::DRAW_COMMAND_CAP_FLAG_NATIVE_MULTI_DRAW_INDIRECT != 0 {
        WGPU_MULTI_DRAW_INDIRECT_COUNT
    } else {
        0
    })
}

/// The WebGPU half of the D3D12 feature mask.
pub open spec fn d3d12_webgpu_spec(info: RenderDeviceInfo, adapter: GraphicsAdapterInfo) -> u64 {
    let f = info.features;
    d3d12_platform_webgpu()
    | (if on(f.depth_clamp) { WEBGPU_DEPTH_CLIP_CONTROL } else { 0 })
    | (if on(f.dual_source_blend) { WEBGPU_DUAL_SOURCE_BLENDING } else { 0 })
    | (if on(f.timestamp_queries) { WEBGPU_TIMESTAMP_QUERY } else { 0 })
    | (if on(f.texture_compression_bc) {
        WEBGPU_TEXTURE_COMPRESSION_BC | WEBGPU_TEXTURE_COMPRESSION_BC_SLICED_3D
    } else {
        0
    })
    | (if adapter.draw_command_cap_flags & dil::DRAW_COMMAND_CAP_FLAG_DRAW_INDIRECT_FIRST_INSTANCE != 0 {
        WEBGPU_INDIRECT_FIRST_INSTANCE
    } else {
        0
    })
}

/// The D3D12 feature mask of a device.
pub open spec fn d3d12_features_spec(info: RenderDeviceInfo, adapter: GraphicsAdapterInfo) -> Features {
    Features { wgpu: d3d12_wgpu_spec(info, adapter), webgpu: d3d12_webgpu_spec(info, adapter) }
}

/// The D3D12 feature set of a device, from its feature states, adapter
/// capabilities and shader model.
pub fn d3d12_feature_bits(info: &RenderDeviceInfo, adapter: &GraphicsAdapterInfo) -> (bits: Features)
    ensures
        bits == d3d12_features_spec(*info, *adapter),
{
    let f = &info.features;
    let major = info.shader_model_major;
    let minor = info.shader_model_minor;
    let platform = WGPU_ADDRESS_MODE_CLAMP_TO_BORDER | WGPU_ADDRESS_MODE_CLAMP_TO_ZERO | WGPU_CLEAR_TEXTURE
        | WGPU_TEXTURE_FORMAT_16BIT_NORM | WGPU_TEXTURE_FORMAT_NV12 | WGPU_EXTERNAL_TEXTURE
        | WGPU_MEMORY_DECORATION_COHERENT | WGPU_TEXTURE_ADAPTER_SPECIFIC_FORMAT_FEATURES
        | WGPU_TEXTURE_ATOMIC | WGPU_VERTEX_WRITABLE_STORAGE;
    let line = if feature_state_enabled(f.wireframe_fill) { WGPU_POLYGON_MODE_LINE } else { 0 };
    let timestamps = if feature_state_enabled(f.timestamp_queries) {
        WGPU_TIMESTAMP_QUERY_INSIDE_ENCODERS | WGPU_TIMESTAMP_QUERY_INSIDE_PASSES
    } else {
        0
    };
    // Binding arrays need both bindless resources and runtime-sized arrays.
    let binding_arrays = if feature_state_enabled(f.bindless_resources)
        && feature_state_enabled(f.shader_resource_runtime_arrays) {
        WGPU_TEXTURE_BINDING_ARRAY | WGPU_STORAGE_RESOURCE_BINDING_ARRAY
            | WGPU_STORAGE_TEXTURE_ARRAY_NON_UNIFORM_INDEXING
            | WGPU_SAMPLED_TEXTURE_AND_STORAGE_BUFFER_ARRAY_NON_UNIFORM_INDEXING
            | WGPU_PARTIALLY_BOUND_BINDING_ARRAY
    } else {
        0
    };
    let subgroup = if feature_state_enabled(f.wave_op) { WGPU_SUBGROUP } else { 0 };
    // Ray queries: inline ray tracing and shader model 6.5.
    let ray_query = if feature_state_enabled(f.ray_tracing)
        && adapter.ray_tracing_cap_flags & dil::RAY_TRACING_CAP_FLAG_INLINE_RAY_TRACING != 0
        && (major > 6 || (major == 6 && minor >= 5)) {
        WGPU_EXPERIMENTAL_RAY_QUERY | WGPU_EXTENDED_ACCELERATION_STRUCTURE_VERTEX_FORMATS
            | WGPU_ACCELERATION_STRUCTURE_BINDING_ARRAY
    } else {
        0
    };
    let int64 = if major >= 6 { WGPU_SHADER_INT64 } else { 0 };
    // 64-bit atomics: shader model 6.6 is the proxy.
    let int64_atomics = if major > 6 || (major == 6 && minor >= 6) {
        WGPU_SHADER_INT64_ATOMIC_ALL_OPS | WGPU_SHADER_INT64_ATOMIC_MIN_MAX | WGPU_TEXTURE_INT64_ATOMIC
    } else {
        0
    };
    let mesh = if feature_state_enabled(f.mesh_shaders) { WGPU_EXPERIMENTAL_MESH_SHADER } else { 0 };
    let barycentrics = if feature_state_enabled(f.shader_barycentrics) { WGPU_SHADER_BARYCENTRICS } else { 0 };
    let multi_draw = if adapter.draw_command_cap_flags & dil::DRAW_COMMAND_CAP_FLAG_NATIVE_MULTI_DRAW_INDIRECT != 0 {
        WGPU_MULTI_DRAW_INDIRECT_COUNT
    } else {
        0
    };
    let wgpu = platform | line | timestamps | binding_arrays | subgroup | ray_query | int64 | int64_atomics
        | mesh | barycentrics | multi_draw;

    let web_platform = WEBGPU_DEPTH32FLOAT_STENCIL8 | WEBGPU_PRIMITIVE_INDEX | WEBGPU_RG11B10UFLOAT_RENDERABLE
        | WEBGPU_FLOAT32_FILTERABLE | WEBGPU_IMMEDIATES;
    let depth_clip = if feature_state_enabled(f.depth_clamp) { WEBGPU_DEPTH_CLIP_CONTROL } else { 0 };
    let dual_source = if feature_state_enabled(f.dual_source_blend) { WEBGPU_DUAL_SOURCE_BLENDING } else { 0 };
    let timestamp = if feature_state_enabled(f.timestamp_queries) { WEBGPU_TIMESTAMP_QUERY } else { 0 };
    let bc = if feature_state_enabled(f.texture_compression_bc) {
        WEBGPU_TEXTURE_COMPRESSION_BC | WEBGPU_TEXTURE_COMPRESSION_BC_SLICED_3D
    } else {
        0
    };
    let first_instance = if adapter.draw_command_cap_flags & dil::DRAW_COMMAND_CAP_FLAG_DRAW_INDIRECT_FIRST_INSTANCE != 0 {
        WEBGPU_INDIRECT_FIRST_INSTANCE
    } else {
        0
    };
    let webgpu = web_platform | depth_clip | dual_source | timestamp | bc | first_instance;
    Features { wgpu, webgpu }
}

/// The feature mask expressed from the engine's capability queries.
#[derive(Clone, Copy, Debug, PartialEq, Eq, Structural)]
pub struct DiligentFeatures {
    pub bits: Features,
}

impl DiligentFeatures {
    /// Derives the feature mask; `None` for devices other than D3D12, which
    /// this backend cannot express.
    pub fn derive_from_info(info: &RenderDeviceInfo, adapter: &GraphicsAdapterInfo) -> (r: Option<DiligentFeatures>)
        ensures
            r == if info.device_type == dil::RenderDeviceType::D3D12 {
                Some(DiligentFeatures { bits: d3d12_features_spec(*info, *adapter) })
            } else {
                None
            },
    {
        if !is_d3d12(info) {
            return None;
        }
        Some(DiligentFeatures { bits: d3d12_feature_bits(info, adapter) })
    }

    /// Whether all of `features` are present in this mask.
    pub fn contains(&self, features: Features) -> (r: bool)
        ensures
            r == self.bits.spec_contains(features),
    {
        self.bits.contains(features)
    }

    /// The raw feature mask.
    pub fn as_features(self) -> (r: Features)
        ensures
            r == self.bits,
    {
        self.bits
    }

    /// Intersects this mask with `features` (drops bits, never adds).
    pub fn intersect(self, features: Features) -> (r: DiligentFeatures)
        ensures
            r.bits == (Features { wgpu: self.bits.wgpu & features.wgpu, webgpu: self.bits.webgpu & features.webgpu }),
    {
        DiligentFeatures { bits: self.bits.intersection(features) }
    }
}

/// Derives `max_storage_buffers_per_shader_stage`: 64 on D3D12, `None` on
/// devices this backend cannot express.
pub fn derive_max_storage_buffers_per_shader_stage(info: &RenderDeviceInfo) -> (r: Option<u32>)
    ensures
        r == if info.device_type == dil::RenderDeviceType::D3D12 {
            Some(D3D12_MAX_STORAGE_BUFFERS_PER_SHADER_STAGE)
        } else {
            None
        },
{
    if is_d3d12(info) {
        Some(D3D12_MAX_STORAGE_BUFFERS_PER_SHADER_STAGE)
    } else {
        None
    }
}

/// Derives `max_storage_textures_per_shader_stage`: 64 on D3D12, `None` on
/// devices this backend cannot express.
pub fn derive_max_storage_textures_per_shader_stage(info: &RenderDeviceInfo) -> (r: Option<u32>)
    ensures
        r == if info.device_type == dil::RenderDeviceType::D3D12 {
            Some(D3D12_MAX_STORAGE_TEXTURES_PER_SHADER_STAGE)
        } else {
            None
        },
{
    if is_d3d12(info) {
        Some(D3D12_MAX_STORAGE_TEXTURES_PER_SHADER_STAGE)
    } else {
        None
    }
}

/// The device capability set: the feature mask plus the storage-resource
/// limits.
#[derive(Clone, Copy, Debug, PartialEq, Eq, Structural)]
pub struct DiligentCaps {
    pub features: DiligentFeatures,
    pub max_storage_buffers_per_shader_stage: u32,
    pub max_storage_textures_per_shader_stage: u32,
}

impl DiligentCaps {
    /// Derives the capability set; `None` for devices other than D3D12.
    pub fn derive_from_info(info: &RenderDeviceInfo, adapter: &GraphicsAdapterInfo) -> (r: Option<DiligentCaps>)
        ensures
            r == if info.device_type == dil::RenderDeviceType::D3D12 {
                Some(DiligentCaps {
                    features: DiligentFeatures { bits: d3d12_features_spec(*info, *adapter) },
                    max_storage_buffers_per_shader_stage: D3D12_MAX_STORAGE_BUFFERS_PER_SHADER_STAGE,
                    max_storage_textures_per_shader_stage: D3D12_MAX_STORAGE_TEXTURES_PER_SHADER_STAGE,
                })
            } else {
                None
            },
    {
        let features = match DiligentFeatures::derive_from_info(info, adapter) {
            Some(f) => f,
            None => return None,
        };
        let buffers = match derive_max_storage_buffers_per_shader_stage(info) {
            Some(n) => n,
            None => return None,
        };
        let textures = match derive_max_storage_textures_per_shader_stage(info) {
            Some(n) => n,
            None => return None,
        };
        Some(DiligentCaps {
            features,
            max_storage_buffers_per_shader_stage: buffers,
            max_storage_textures_per_shader_stage: textures,
        })
    }

    /// The derived feature mask.
    pub fn features(&self) -> (r: DiligentFeatures)
        ensures
            r == self.features,
    {
        self.features
    }

    /// Intersects the derived feature mask with the settings-derived
    /// features: drops bits, never adds.
    pub fn intersect_settings_features(self, settings_features: Features) -> (r: DiligentCaps)
        ensures
            r == (DiligentCaps { features: self.features.intersect_spec(settings_features), ..self }),
    {
        DiligentCaps { features: self.features.intersect(settings_features), ..self }
    }

    /// The derived `max_storage_buffers_per_shader_stage`.
    pub fn max_storage_buffers_per_shader_stage(&self) -> (r: u32)
        ensures
            r == self.max_storage_buffers_per_shader_stage,
    {
        self.max_storage_buffers_per_shader_stage
    }

    /// The derived `max_storage_textures_per_shader_stage`.
    pub fn max_storage_textures_per_shader_stage(&self) -> (r: u32)
        ensures
            r == self.max_storage_textures_per_shader_stage,
    {
        self.max_storage_textures_per_shader_stage
    }
}

impl DiligentFeatures {
    /// The mask with only the features also in `features`.
    pub open spec fn intersect_spec(self, features: Features) -> DiligentFeatures {
        DiligentFeatures {
            bits: Features { wgpu: self.bits.wgpu & features.wgpu, webgpu: self.bits.webgpu & features.webgpu },
        }
    }
}

/// Intersecting a derived mask with settings features never adds a
/// feature: the result is in both the derived mask and the settings, and a
/// feature in both stays.
pub proof fn lemma_intersect_never_adds(derived: DiligentFeatures, settings: Features, other: Features)
    ensures
        derived.bits.spec_contains(derived.intersect_spec(settings).bits),
        settings.spec_contains(derived.intersect_spec(settings).bits),
        derived.bits.spec_contains(other) && settings.spec_contains(other)
            ==> derived.intersect_spec(settings).bits.spec_contains(other),
{
    let a = derived.bits.wgpu;
    let b = settings.wgpu;
    let c = other.wgpu;
    let x = derived.bits.webgpu;
    let y = settings.webgpu;
    let z = other.webgpu;
    assert(a & (a & b) == a & b) by (bit_vector);
    assert(b & (a & b) == a & b) by (bit_vector);
    assert(x & (x & y) == x & y) by (bit_vector);
    assert(y & (x & y) == x & y) by (bit_vector);
    assert((a & c == c && b & c == c) ==> (a & b) & c == c) by (bit_vector);
    assert((x & z == z && y & z == z) ==> (x & y) & z == z) by (bit_vector);
}

/// Every D3D12 device derives the platform features, immediates among
/// them, whatever its feature states, adapter capabilities and shader
/// model.
pub proof fn lemma_d3d12_platform_features_always_set(info: RenderDeviceInfo, adapter: GraphicsAdapterInfo)
    ensures
        d3d12_features_spec(info, adapter).spec_contains(
            Features { wgpu: d3d12_platform_wgpu(), webgpu: d3d12_platform_webgpu() },
        ),
        d3d12_features_spec(info, adapter).webgpu & WEBGPU_IMMEDIATES == WEBGPU_IMMEDIATES,
{
    let f = info.features;
    let p = d3d12_platform_wgpu();
    let t1: u64 = if on(f.wireframe_fill) { WGPU_POLYGON_MODE_LINE } else { 0 };
    let t2: u64 = if on(f.timestamp_queries) {
        WGPU_TIMESTAMP_QUERY_INSIDE_ENCODERS | WGPU_TIMESTAMP_QUERY_INSIDE_PASSES
    } else {
        0
    };
    let t3: u64 = if on(f.bindless_resources) && on(f.shader_resource_runtime_arrays) {
        WGPU_TEXTURE_BINDING_ARRAY | WGPU_STORAGE_RESOURCE_BINDING_ARRAY
            | WGPU_STORAGE_TEXTURE_ARRAY_NON_UNIFORM_INDEXING
            | WGPU_SAMPLED_TEXTURE_AND_STORAGE_BUFFER_ARRAY_NON_UNIFORM_INDEXING
            | WGPU_PARTIALLY_BOUND_BINDING_ARRAY
    } else {
        0
    };
    let t4: u64 = if on(f.wave_op) { WGPU_SUBGROUP } else { 0 };
    let t5: u64 = if on(f.ray_tracing) && adapter.ray_tracing_cap_flags & dil::RAY_TRACING_CAP_FLAG_INLINE_RAY_TRACING != 0
        && shader_model_at_least(info, 6, 5) {
        WGPU_EXPERIMENTAL_RAY_QUERY | WGPU_EXTENDED_ACCELERATION_STRUCTURE_VERTEX_FORMATS
            | WGPU_ACCELERATION_STRUCTURE_BINDING_ARRAY
    } else {
        0
    };
    let t6: u64 = if info.shader_model_major >= 6 { WGPU_SHADER_INT64 } else { 0 };
    let t7: u64 = if shader_model_at_least(info, 6, 6) {
        WGPU_SHADER_INT64_ATOMIC_ALL_OPS | WGPU_SHADER_INT64_ATOMIC_MIN_MAX | WGPU_TEXTURE_INT64_ATOMIC
    } else {
        0
    };
    let t8: u64 = if on(f.mesh_shaders) { WGPU_EXPERIMENTAL_MESH_SHADER } else { 0 };
    let t9: u64 = if on(f.shader_barycentrics) { WGPU_SHADER_BARYCENTRICS } else { 0 };
    let t10: u64 = if adapter.draw_command_cap_flags & dil::DRAW_COMMAND_CAP_FLAG_NATIVE_MULTI_DRAW_INDIRECT != 0 {
        WGPU_MULTI_DRAW_INDIRECT_COUNT
    } else {
        0
    };
    assert(d3d12_wgpu_spec(info, adapter) == p | t1 | t2 | t3 | t4 | t5 | t6 | t7 | t8 | t9 | t10);
    assert((p | t1 | t2 | t3 | t4 | t5 | t6 | t7 | t8 | t9 | t10) & p == p) by (bit_vector);
    let q = d3d12_platform_webgpu();
    let u1: u64 = if on(f.depth_clamp) { WEBGPU_DEPTH_CLIP_CONTROL } else { 0 };
    let u2: u64 = if on(f.dual_source_blend) { WEBGPU_DUAL_SOURCE_BLENDING } else { 0 };
    let u3: u64 = if on(f.timestamp_queries) { WEBGPU_TIMESTAMP_QUERY } else { 0 };
    let u4: u64 = if on(f.texture_compression_bc) {
        WEBGPU_TEXTURE_COMPRESSION_BC | WEBGPU_TEXTURE_COMPRESSION_BC_SLICED_3D
    } else {
        0
    };
    let u5: u64 = if adapter.draw_command_cap_flags & dil::DRAW_COMMAND_CAP_FLAG_DRAW_INDIRECT_FIRST_INSTANCE != 0 {
        WEBGPU_INDIRECT_FIRST_INSTANCE
    } else {
        0
    };
    assert(d3d12_webgpu_spec(info, adapter) == q | u1 | u2 | u3 | u4 | u5);
    assert((q | u1 | u2 | u3 | u4 | u5) & q == q) by (bit_vector);
    assert(q & WEBGPU_IMMEDIATES == WEBGPU_IMMEDIATES) by (bit_vector)
        requires
            q == WEBGPU_DEPTH32FLOAT_STENCIL8 | WEBGPU_PRIMITIVE_INDEX | WEBGPU_RG11B10UFLOAT_RENDERABLE
                | WEBGPU_FLOAT32_FILTERABLE | WEBGPU_IMMEDIATES,
    ;
    let v = q | u1 | u2 | u3 | u4 | u5;
    assert((v & q == q && q & WEBGPU_IMMEDIATES == WEBGPU_IMMEDIATES) ==> v & WEBGPU_IMMEDIATES == WEBGPU_IMMEDIATES)
        by (bit_vector);
}

/// In the union of the platform bits and the gated terms, each gated bit is
/// present exactly when its own gate is open.
proof fn lemma_wgpu_gate_bits(
    p: u64,
    t1: u64,
    t2: u64,
    t3: u64,
    t4: u64,
    t5: u64,
    t6: u64,
    t7: u64,
    t8: u64,
    t9: u64,
    t10: u64,
    c1: bool,
    c2: bool,
    c3: bool,
    c4: bool,
    c5: bool,
    c6: bool,
    c7: bool,
    c8: bool,
    c9: bool,
    c10: bool,
    w: u64,
)
    by (bit_vector)
    requires
        p == WGPU_ADDRESS_MODE_CLAMP_TO_BORDER | WGPU_ADDRESS_MODE_CLAMP_TO_ZERO | WGPU_CLEAR_TEXTURE
            | WGPU_TEXTURE_FORMAT_16BIT_NORM | WGPU_TEXTURE_FORMAT_NV12 | WGPU_EXTERNAL_TEXTURE
            | WGPU_MEMORY_DECORATION_COHERENT | WGPU_TEXTURE_ADAPTER_SPECIFIC_FORMAT_FEATURES
            | WGPU_TEXTURE_ATOMIC | WGPU_VERTEX_WRITABLE_STORAGE,
        t1 == (if c1 { WGPU_POLYGON_MODE_LINE } else { 0u64 }),
        t2 == (if c2 { WGPU_TIMESTAMP_QUERY_INSIDE_ENCODERS | WGPU_TIMESTAMP_QUERY_INSIDE_PASSES } else { 0u64 }),
        t3 == (if c3 { WGPU_TEXTURE_BINDING_ARRAY | WGPU_STORAGE_RESOURCE_BINDING_ARRAY | WGPU_STORAGE_TEXTURE_ARRAY_NON_UNIFORM_INDEXING | WGPU_SAMPLED_TEXTURE_AND_STORAGE_BUFFER_ARRAY_NON_UNIFORM_INDEXING | WGPU_PARTIALLY_BOUND_BINDING_ARRAY } else { 0u64 }),
        t4 == (if c4 { WGPU_SUBGROUP } else { 0u64 }),
        t5 == (if c5 { WGPU_EXPERIMENTAL_RAY_QUERY | WGPU_EXTENDED_ACCELERATION_STRUCTURE_VERTEX_FORMATS | WGPU_ACCELERATION_STRUCTURE_BINDING_ARRAY } else { 0u64 }),
        t6 == (if c6 { WGPU_SHADER_INT64 } else { 0u64 }),
        t7 == (if c7 { WGPU_SHADER_INT64_ATOMIC_ALL_OPS | WGPU_SHADER_INT64_ATOMIC_MIN_MAX | WGPU_TEXTURE_INT64_ATOMIC } else { 0u64 }),
        t8 == (if c8 { WGPU_EXPERIMENTAL_MESH_SHADER } else { 0u64 }),
        t9 == (if c9 { WGPU_SHADER_BARYCENTRICS } else { 0u64 }),
        t10 == (if c10 { WGPU_MULTI_DRAW_INDIRECT_COUNT } else { 0u64 }),
        w == p | t1 | t2 | t3 | t4 | t5 | t6 | t7 | t8 | t9 | t10,
    ensures
        w & WGPU_POLYGON_MODE_LINE != 0 <==> c1,
        w & WGPU_TIMESTAMP_QUERY_INSIDE_ENCODERS != 0 <==> c2,
        w & WGPU_TIMESTAMP_QUERY_INSIDE_PASSES != 0 <==> c2,
        w & WGPU_TEXTURE_BINDING_ARRAY != 0 <==> c3,
        w & WGPU_STORAGE_RESOURCE_BINDING_ARRAY != 0 <==> c3,
        w & WGPU_STORAGE_TEXTURE_ARRAY_NON_UNIFORM_INDEXING != 0 <==> c3,
        w & WGPU_SAMPLED_TEXTURE_AND_STORAGE_BUFFER_ARRAY_NON_UNIFORM_INDEXING != 0 <==> c3,
        w & WGPU_PARTIALLY_BOUND_BINDING_ARRAY != 0 <==> c3,
        w & WGPU_SUBGROUP != 0 <==> c4,
        w & WGPU_EXPERIMENTAL_RAY_QUERY != 0 <==> c5,
        w & WGPU_EXTENDED_ACCELERATION_STRUCTURE_VERTEX_FORMATS != 0 <==> c5,
        w & WGPU_ACCELERATION_STRUCTURE_BINDING_ARRAY != 0 <==> c5,
        w & WGPU_SHADER_INT64 != 0 <==> c6,
        w & WGPU_SHADER_INT64_ATOMIC_ALL_OPS != 0 <==> c7,
        w & WGPU_SHADER_INT64_ATOMIC_MIN_MAX != 0 <==> c7,
        w & WGPU_TEXTURE_INT64_ATOMIC != 0 <==> c7,
        w & WGPU_EXPERIMENTAL_MESH_SHADER != 0 <==> c8,
        w & WGPU_SHADER_BARYCENTRICS != 0 <==> c9,
        w & WGPU_MULTI_DRAW_INDIRECT_COUNT != 0 <==> c10,
        w & WGPU_PIPELINE_STATISTICS_QUERY == 0u64,
        w & WGPU_MAPPABLE_PRIMARY_BUFFERS == 0u64,
        w & WGPU_BUFFER_BINDING_ARRAY == 0u64,
{
}

/// The same for the WebGPU half.
proof fn lemma_webgpu_gate_bits(
    q: u64,
    u1: u64,
    u2: u64,
    u3: u64,
    u4: u64,
    u5: u64,
    d1: bool,
    d2: bool,
    d3: bool,
    d4: bool,
    d5: bool,
    v: u64,
)
    by (bit_vector)
    requires
        q == WEBGPU_DEPTH32FLOAT_STENCIL8 | WEBGPU_PRIMITIVE_INDEX | WEBGPU_RG11B10UFLOAT_RENDERABLE
            | WEBGPU_FLOAT32_FILTERABLE | WEBGPU_IMMEDIATES,
        u1 == (if d1 { WEBGPU_DEPTH_CLIP_CONTROL } else { 0u64 }),
        u2 == (if d2 { WEBGPU_DUAL_SOURCE_BLENDING } else { 0u64 }),
        u3 == (if d3 { WEBGPU_TIMESTAMP_QUERY } else { 0u64 }),
        u4 == (if d4 { WEBGPU_TEXTURE_COMPRESSION_BC | WEBGPU_TEXTURE_COMPRESSION_BC_SLICED_3D } else { 0u64 }),
        u5 == (if d5 { WEBGPU_INDIRECT_FIRST_INSTANCE } else { 0u64 }),
        v == q | u1 | u2 | u3 | u4 | u5,
    ensures
        v & WEBGPU_DEPTH_CLIP_CONTROL != 0 <==> d1,
        v & WEBGPU_DUAL_SOURCE_BLENDING != 0 <==> d2,
        v & WEBGPU_TIMESTAMP_QUERY != 0 <==> d3,
        v & WEBGPU_TEXTURE_COMPRESSION_BC != 0 <==> d4,
        v & WEBGPU_TEXTURE_COMPRESSION_BC_SLICED_3D != 0 <==> d4,
        v & WEBGPU_INDIRECT_FIRST_INSTANCE != 0 <==> d5,
        v & WEBGPU_TEXTURE_COMPRESSION_ETC2 == 0u64,
{
}

/// Each gated feature of a D3D12 device follows its own engine capability
/// and nothing else: the bit is in the derived mask exactly when that
/// capability is present (a feature state enabled, an adapter capability
/// flag set, or the shader model high enough), whatever the other
/// capabilities are; pipeline statistics, mappable primary buffers, buffer
/// binding arrays and ETC2 compression are never derived.
pub proof fn lemma_d3d12_feature_gates(info: RenderDeviceInfo, adapter: GraphicsAdapterInfo)
    ensures
        d3d12_features_spec(info, adapter).wgpu & WGPU_POLYGON_MODE_LINE != 0 <==> (info.features.wireframe_fill == dil::DeviceFeatureState::Enabled),
        d3d12_features_spec(info, adapter).wgpu & WGPU_TIMESTAMP_QUERY_INSIDE_ENCODERS != 0 <==> (info.features.timestamp_queries == dil::DeviceFeatureState::Enabled),
        d3d12_features_spec(info, adapter).wgpu & WGPU_TIMESTAMP_QUERY_INSIDE_PASSES != 0 <==> (info.features.timestamp_queries == dil::DeviceFeatureState::Enabled),
        d3d12_features_spec(info, adapter).wgpu & WGPU_TEXTURE_BINDING_ARRAY != 0 <==> (info.features.bindless_resources == dil::DeviceFeatureState::Enabled && info.features.shader_resource_runtime_arrays == dil::DeviceFeatureState::Enabled),
        d3d12_features_spec(info, adapter).wgpu & WGPU_STORAGE_RESOURCE_BINDING_ARRAY != 0 <==> (info.features.bindless_resources == dil::DeviceFeatureState::Enabled && info.features.shader_resource_runtime_arrays == dil::DeviceFeatureState::Enabled),
        d3d12_features_spec(info, adapter).wgpu & WGPU_STORAGE_TEXTURE_ARRAY_NON_UNIFORM_INDEXING != 0 <==> (info.features.bindless_resources == dil::DeviceFeatureState::Enabled && info.features.shader_resource_runtime_arrays == dil::DeviceFeatureState::Enabled),
        d3d12_features_spec(info, adapter).wgpu & WGPU_SAMPLED_TEXTURE_AND_STORAGE_BUFFER_ARRAY_NON_UNIFORM_INDEXING != 0 <==> (info.features.bindless_resources == dil::DeviceFeatureState::Enabled && info.features.shader_resource_runtime_arrays == dil::DeviceFeatureState::Enabled),
        d3d12_features_spec(info, adapter).wgpu & WGPU_PARTIALLY_BOUND_BINDING_ARRAY != 0 <==> (info.features.bindless_resources == dil::DeviceFeatureState::Enabled && info.features.shader_resource_runtime_arrays == dil::DeviceFeatureState::Enabled),
        d3d12_features_spec(info, adapter).wgpu & WGPU_SUBGROUP != 0 <==> (info.features.wave_op == dil::DeviceFeatureState::Enabled),
        d3d12_features_spec(info, adapter).wgpu & WGPU_EXPERIMENTAL_RAY_QUERY != 0 <==> (info.features.ray_tracing == dil::DeviceFeatureState::Enabled
                && adapter.ray_tracing_cap_flags & dil::RAY_TRACING_CAP_FLAG_INLINE_RAY_TRACING != 0
                && (info.shader_model_major > 6 || (info.shader_model_major == 6 && info.shader_model_minor >= 5))),
        d3d12_features_spec(info, adapter).wgpu & WGPU_EXTENDED_ACCELERATION_STRUCTURE_VERTEX_FORMATS != 0 <==> (info.features.ray_tracing == dil::DeviceFeatureState::Enabled
                && adapter.ray_tracing_cap_flags & dil::RAY_TRACING_CAP_FLAG_INLINE_RAY_TRACING != 0
                && (info.shader_model_major > 6 || (info.shader_model_major == 6 && info.shader_model_minor >= 5))),
        d3d12_features_spec(info, adapter).wgpu & WGPU_ACCELERATION_STRUCTURE_BINDING_ARRAY != 0 <==> (info.features.ray_tracing == dil::DeviceFeatureState::Enabled
                && adapter.ray_tracing_cap_flags & dil::RAY_TRACING_CAP_FLAG_INLINE_RAY_TRACING != 0
                && (info.shader_model_major > 6 || (info.shader_model_major == 6 && info.shader_model_minor >= 5))),
        d3d12_features_spec(info, adapter).wgpu & WGPU_SHADER_INT64 != 0 <==> (info.shader_model_major >= 6),
        d3d12_features_spec(info, adapter).wgpu & WGPU_SHADER_INT64_ATOMIC_ALL_OPS != 0 <==> (info.shader_model_major > 6 || (info.shader_model_major == 6 && info.shader_model_minor >= 6)),
        d3d12_features_spec(info, adapter).wgpu & WGPU_SHADER_INT64_ATOMIC_MIN_MAX != 0 <==> (info.shader_model_major > 6 || (info.shader_model_major == 6 && info.shader_model_minor >= 6)),
        d3d12_features_spec(info, adapter).wgpu & WGPU_TEXTURE_INT64_ATOMIC != 0 <==> (info.shader_model_major > 6 || (info.shader_model_major == 6 && info.shader_model_minor >= 6)),
        d3d12_features_spec(info, adapter).wgpu & WGPU_EXPERIMENTAL_MESH_SHADER != 0 <==> (info.features.mesh_shaders == dil::DeviceFeatureState::Enabled),
        d3d12_features_spec(info, adapter).wgpu & WGPU_SHADER_BARYCENTRICS != 0 <==> (info.features.shader_barycentrics == dil::DeviceFeatureState::Enabled),
        d3d12_features_spec(info, adapter).wgpu & WGPU_MULTI_DRAW_INDIRECT_COUNT != 0 <==> (adapter.draw_command_cap_flags & dil::DRAW_COMMAND_CAP_FLAG_NATIVE_MULTI_DRAW_INDIRECT != 0),
        d3d12_features_spec(info, adapter).wgpu & WGPU_PIPELINE_STATISTICS_QUERY == 0,
        d3d12_features_spec(info, adapter).wgpu & WGPU_MAPPABLE_PRIMARY_BUFFERS == 0,
        d3d12_features_spec(info, adapter).wgpu & WGPU_BUFFER_BINDING_ARRAY == 0,
        d3d12_features_spec(info, adapter).webgpu & WEBGPU_DEPTH_CLIP_CONTROL != 0 <==> (info.features.depth_clamp == dil::DeviceFeatureState::Enabled),
        d3d12_features_spec(info, adapter).webgpu & WEBGPU_DUAL_SOURCE_BLENDING != 0 <==> (info.features.dual_source_blend == dil::DeviceFeatureState::Enabled),
        d3d12_features_spec(info, adapter).webgpu & WEBGPU_TIMESTAMP_QUERY != 0 <==> (info.features.timestamp_queries == dil::DeviceFeatureState::Enabled),
        d3d12_features_spec(info, adapter).webgpu & WEBGPU_TEXTURE_COMPRESSION_BC != 0 <==> (info.features.texture_compression_bc == dil::DeviceFeatureState::Enabled),
        d3d12_features_spec(info, adapter).webgpu & WEBGPU_TEXTURE_COMPRESSION_BC_SLICED_3D != 0 <==> (info.features.texture_compression_bc == dil::DeviceFeatureState::Enabled),
        d3d12_features_spec(info, adapter).webgpu & WEBGPU_INDIRECT_FIRST_INSTANCE != 0 <==> (adapter.draw_command_cap_flags & dil::DRAW_COMMAND_CAP_FLAG_DRAW_INDIRECT_FIRST_INSTANCE != 0),
        d3d12_features_spec(info, adapter).webgpu & WEBGPU_TEXTURE_COMPRESSION_ETC2 == 0,
{
    let f = info.features;
    let c1: bool = info.features.wireframe_fill == dil::DeviceFeatureState::Enabled;
    let t1: u64 = if c1 { WGPU_POLYGON_MODE_LINE } else { 0 };
    let c2: bool = info.features.timestamp_queries == dil::DeviceFeatureState::Enabled;
    let t2: u64 = if c2 { WGPU_TIMESTAMP_QUERY_INSIDE_ENCODERS | WGPU_TIMESTAMP_QUERY_INSIDE_PASSES } else { 0 };
    let c3: bool = info.features.bindless_resources == dil::DeviceFeatureState::Enabled && info.features.shader_resource_runtime_arrays == dil::DeviceFeatureState::Enabled;
    let t3: u64 = if c3 { WGPU_TEXTURE_BINDING_ARRAY | WGPU_STORAGE_RESOURCE_BINDING_ARRAY | WGPU_STORAGE_TEXTURE_ARRAY_NON_UNIFORM_INDEXING | WGPU_SAMPLED_TEXTURE_AND_STORAGE_BUFFER_ARRAY_NON_UNIFORM_INDEXING | WGPU_PARTIALLY_BOUND_BINDING_ARRAY } else { 0 };
    let c4: bool = info.features.wave_op == dil::DeviceFeatureState::Enabled;
    let t4: u64 = if c4 { WGPU_SUBGROUP } else { 0 };
    let c5: bool = info.features.ray_tracing == dil::DeviceFeatureState::Enabled
                && adapter.ray_tracing_cap_flags & dil::RAY_TRACING_CAP_FLAG_INLINE_RAY_TRACING != 0
                && (info.shader_model_major > 6 || (info.shader_model_major == 6 && info.shader_model_minor >= 5));
    let t5: u64 = if c5 { WGPU_EXPERIMENTAL_RAY_QUERY | WGPU_EXTENDED_ACCELERATION_STRUCTURE_VERTEX_FORMATS | WGPU_ACCELERATION_STRUCTURE_BINDING_ARRAY } else { 0 };
    let c6: bool = info.shader_model_major >= 6;
    let t6: u64 = if c6 { WGPU_SHADER_INT64 } else { 0 };
    let c7: bool = info.shader_model_major > 6 || (info.shader_model_major == 6 && info.shader_model_minor >= 6);
    let t7: u64 = if c7 { WGPU_SHADER_INT64_ATOMIC_ALL_OPS | WGPU_SHADER_INT64_ATOMIC_MIN_MAX | WGPU_TEXTURE_INT64_ATOMIC } else { 0 };
    let c8: bool = info.features.mesh_shaders == dil::DeviceFeatureState::Enabled;
    let t8: u64 = if c8 { WGPU_EXPERIMENTAL_MESH_SHADER } else { 0 };
    let c9: bool = info.features.shader_barycentrics == dil::DeviceFeatureState::Enabled;
    let t9: u64 = if c9 { WGPU_SHADER_BARYCENTRICS } else { 0 };
    let c10: bool = adapter.draw_command_cap_flags & dil::DRAW_COMMAND_CAP_FLAG_NATIVE_MULTI_DRAW_INDIRECT != 0;
    let t10: u64 = if c10 { WGPU_MULTI_DRAW_INDIRECT_COUNT } else { 0 };
    let p = d3d12_platform_wgpu();
    let w = d3d12_wgpu_spec(info, adapter);
    assert(w == p | t1 | t2 | t3 | t4 | t5 | t6 | t7 | t8 | t9 | t10);
    lemma_wgpu_gate_bits(p, t1, t2, t3, t4, t5, t6, t7, t8, t9, t10, c1, c2, c3, c4, c5, c6, c7, c8, c9, c10, w);
    let d1: bool = info.features.depth_clamp == dil::DeviceFeatureState::Enabled;
    let u1: u64 = if d1 { WEBGPU_DEPTH_CLIP_CONTROL } else { 0 };
    let d2: bool = info.features.dual_source_blend == dil::DeviceFeatureState::Enabled;
    let u2: u64 = if d2 { WEBGPU_DUAL_SOURCE_BLENDING } else { 0 };
    let d3: bool = info.features.timestamp_queries == dil::DeviceFeatureState::Enabled;
    let u3: u64 = if d3 { WEBGPU_TIMESTAMP_QUERY } else { 0 };
    let d4: bool = info.features.texture_compression_bc == dil::DeviceFeatureState::Enabled;
    let u4: u64 = if d4 { WEBGPU_TEXTURE_COMPRESSION_BC | WEBGPU_TEXTURE_COMPRESSION_BC_SLICED_3D } else { 0 };
    let d5: bool = adapter.draw_command_cap_flags & dil::DRAW_COMMAND_CAP_FLAG_DRAW_INDIRECT_FIRST_INSTANCE != 0;
    let u5: u64 = if d5 { WEBGPU_INDIRECT_FIRST_INSTANCE } else { 0 };
    let q = d3d12_platform_webgpu();
    let v = d3d12_webgpu_spec(info, adapter);
    assert(v == q | u1 | u2 | u3 | u4 | u5);
    lemma_webgpu_gate_bits(q, u1, u2, u3, u4, u5, d1, d2, d3, d4, d5, v);
}

/// A set is a subset of itself.
proof fn lemma_or_subset_base(x: u64)
    ensures
        x & x == x,
{
    assert(x & x == x) by (bit_vector);
}

/// A term that is either empty or the other term is a subset of it.
proof fn lemma_term_subset(t: u64, s: u64)
    requires
        t == 0 || t == s,
    ensures
        t & s == t,
{
    assert((t == 0 || t == s) ==> t & s == t) by (bit_vector);
}

/// The union of subsets is a subset of the union.
proof fn lemma_or_subset(x1: u64, y1: u64, x2: u64, y2: u64)
    requires
        x1 & y1 == x1,
        x2 & y2 == x2,
    ensures
        (x1 | x2) & (y1 | y2) == (x1 | x2),
{
    assert((x1 & y1 == x1 && x2 & y2 == x2) ==> (x1 | x2) & (y1 | y2) == (x1 | x2)) by (bit_vector);
}

/// Whether device 2 has every capability device 1 has: each feature
/// enabled on device 1 is enabled on device 2, the adapter capability flags
/// of device 1 are among those of device 2, and device 2's shader model is
/// no lower.
pub open spec fn at_least_as_capable(i1: RenderDeviceInfo, a1: GraphicsAdapterInfo, i2: RenderDeviceInfo, a2: GraphicsAdapterInfo) -> bool {
    let f1 = i1.features;
    let f2 = i2.features;
    &&& on(f1.wireframe_fill) ==> on(f2.wireframe_fill)
    &&& on(f1.depth_clamp) ==> on(f2.depth_clamp)
    &&& on(f1.dual_source_blend) ==> on(f2.dual_source_blend)
    &&& on(f1.timestamp_queries) ==> on(f2.timestamp_queries)
    &&& on(f1.texture_compression_bc) ==> on(f2.texture_compression_bc)
    &&& on(f1.bindless_resources) ==> on(f2.bindless_resources)
    &&& on(f1.shader_resource_runtime_arrays) ==> on(f2.shader_resource_runtime_arrays)
    &&& on(f1.wave_op) ==> on(f2.wave_op)
    &&& on(f1.ray_tracing) ==> on(f2.ray_tracing)
    &&& on(f1.mesh_shaders) ==> on(f2.mesh_shaders)
    &&& on(f1.shader_barycentrics) ==> on(f2.shader_barycentrics)
    &&& a1.ray_tracing_cap_flags & a2.ray_tracing_cap_flags == a1.ray_tracing_cap_flags
    &&& a1.draw_command_cap_flags & a2.draw_command_cap_flags == a1.draw_command_cap_flags
    &&& (i1.shader_model_major < i2.shader_model_major
        || (i1.shader_model_major == i2.shader_model_major && i1.shader_model_minor <= i2.shader_model_minor))
}

/// The native half of the D3D12 feature mask never loses a feature on a
/// more capable device.
#[verifier::rlimit(100)]
#[verifier::spinoff_prover]
proof fn lemma_d3d12_wgpu_monotone(i1: RenderDeviceInfo, a1: GraphicsAdapterInfo, i2: RenderDeviceInfo, a2: GraphicsAdapterInfo)
    requires
        at_least_as_capable(i1, a1, i2, a2),
    ensures
        d3d12_wgpu_spec(i1, a1) & d3d12_wgpu_spec(i2, a2) == d3d12_wgpu_spec(i1, a1),
{
    let f1 = i1.features;
    let f2 = i2.features;
    let r1 = a1.ray_tracing_cap_flags;
    let r2 = a2.ray_tracing_cap_flags;
    let d1 = a1.draw_command_cap_flags;
    let d2 = a2.draw_command_cap_flags;
    assert((r1 & r2 == r1 && r1 & dil::RAY_TRACING_CAP_FLAG_INLINE_RAY_TRACING != 0) ==> r2 & dil::RAY_TRACING_CAP_FLAG_INLINE_RAY_TRACING != 0) by (bit_vector);
    assert((d1 & d2 == d1 && d1 & dil::DRAW_COMMAND_CAP_FLAG_NATIVE_MULTI_DRAW_INDIRECT != 0) ==> d2 & dil::DRAW_COMMAND_CAP_FLAG_NATIVE_MULTI_DRAW_INDIRECT != 0) by (bit_vector);
    let t0: u64 = if on(f1.wireframe_fill) { WGPU_POLYGON_MODE_LINE } else { 0 };
    let s0: u64 = if on(f2.wireframe_fill) { WGPU_POLYGON_MODE_LINE } else { 0 };
    let t1: u64 = if on(f1.timestamp_queries) { WGPU_TIMESTAMP_QUERY_INSIDE_ENCODERS | WGPU_TIMESTAMP_QUERY_INSIDE_PASSES } else { 0 };
    let s1: u64 = if on(f2.timestamp_queries) { WGPU_TIMESTAMP_QUERY_INSIDE_ENCODERS | WGPU_TIMESTAMP_QUERY_INSIDE_PASSES } else { 0 };
    let t2: u64 = if on(f1.bindless_resources) && on(f1.shader_resource_runtime_arrays) { WGPU_TEXTURE_BINDING_ARRAY | WGPU_STORAGE_RESOURCE_BINDING_ARRAY | WGPU_STORAGE_TEXTURE_ARRAY_NON_UNIFORM_INDEXING | WGPU_SAMPLED_TEXTURE_AND_STORAGE_BUFFER_ARRAY_NON_UNIFORM_INDEXING | WGPU_PARTIALLY_BOUND_BINDING_ARRAY } else { 0 };
    let s2: u64 = if on(f2.bindless_resources) && on(f2.shader_resource_runtime_arrays) { WGPU_TEXTURE_BINDING_ARRAY | WGPU_STORAGE_RESOURCE_BINDING_ARRAY | WGPU_STORAGE_TEXTURE_ARRAY_NON_UNIFORM_INDEXING | WGPU_SAMPLED_TEXTURE_AND_STORAGE_BUFFER_ARRAY_NON_UNIFORM_INDEXING | WGPU_PARTIALLY_BOUND_BINDING_ARRAY } else { 0 };
    let t3: u64 = if on(f1.wave_op) { WGPU_SUBGROUP } else { 0 };
    let s3: u64 = if on(f2.wave_op) { WGPU_SUBGROUP } else { 0 };
    let t4: u64 = if on(f1.ray_tracing) && a1.ray_tracing_cap_flags & dil::RAY_TRACING_CAP_FLAG_INLINE_RAY_TRACING != 0 && shader_model_at_least(i1, 6, 5) { WGPU_EXPERIMENTAL_RAY_QUERY | WGPU_EXTENDED_ACCELERATION_STRUCTURE_VERTEX_FORMATS | WGPU_ACCELERATION_STRUCTURE_BINDING_ARRAY } else { 0 };
    let s4: u64 = if on(f2.ray_tracing) && a2.ray_tracing_cap_flags & dil::RAY_TRACING_CAP_FLAG_INLINE_RAY_TRACING != 0 && shader_model_at_least(i2, 6, 5) { WGPU_EXPERIMENTAL_RAY_QUERY | WGPU_EXTENDED_ACCELERATION_STRUCTURE_VERTEX_FORMATS | WGPU_ACCELERATION_STRUCTURE_BINDING_ARRAY } else { 0 };
    let t5: u64 = if i1.shader_model_major >= 6 { WGPU_SHADER_INT64 } else { 0 };
    let s5: u64 = if i2.shader_model_major >= 6 { WGPU_SHADER_INT64 } else { 0 };
    let t6: u64 = if shader_model_at_least(i1, 6, 6) { WGPU_SHADER_INT64_ATOMIC_ALL_OPS | WGPU_SHADER_INT64_ATOMIC_MIN_MAX | WGPU_TEXTURE_INT64_ATOMIC } else { 0 };
    let s6: u64 = if shader_model_at_least(i2, 6, 6) { WGPU_SHADER_INT64_ATOMIC_ALL_OPS | WGPU_SHADER_INT64_ATOMIC_MIN_MAX | WGPU_TEXTURE_INT64_ATOMIC } else { 0 };
    let t7: u64 = if on(f1.mesh_shaders) { WGPU_EXPERIMENTAL_MESH_SHADER } else { 0 };
    let s7: u64 = if on(f2.mesh_shaders) { WGPU_EXPERIMENTAL_MESH_SHADER } else { 0 };
    let t8: u64 = if on(f1.shader_barycentrics) { WGPU_SHADER_BARYCENTRICS } else { 0 };
    let s8: u64 = if on(f2.shader_barycentrics) { WGPU_SHADER_BARYCENTRICS } else { 0 };
    let t9: u64 = if a1.draw_command_cap_flags & dil::DRAW_COMMAND_CAP_FLAG_NATIVE_MULTI_DRAW_INDIRECT != 0 { WGPU_MULTI_DRAW_INDIRECT_COUNT } else { 0 };
    let s9: u64 = if a2.draw_command_cap_flags & dil::DRAW_COMMAND_CAP_FLAG_NATIVE_MULTI_DRAW_INDIRECT != 0 { WGPU_MULTI_DRAW_INDIRECT_COUNT } else { 0 };
    let p = d3d12_platform_wgpu();
    assert(d3d12_wgpu_spec(i1, a1) == p | t0 | t1 | t2 | t3 | t4 | t5 | t6 | t7 | t8 | t9);
    assert(d3d12_wgpu_spec(i2, a2) == p | s0 | s1 | s2 | s3 | s4 | s5 | s6 | s7 | s8 | s9);
    lemma_or_subset_base(p);
    lemma_term_subset(t0, s0);
    lemma_or_subset(p, p, t0, s0);
    lemma_term_subset(t1, s1);
    lemma_or_subset((p | t0), (p | s0), t1, s1);
    lemma_term_subset(t2, s2);
    lemma_or_subset(((p | t0) | t1), ((p | s0) | s1), t2, s2);
    lemma_term_subset(t3, s3);
    lemma_or_subset((((p | t0) | t1) | t2), (((p | s0) | s1) | s2), t3, s3);
    lemma_term_subset(t4, s4);
    lemma_or_subset(((((p | t0) | t1) | t2) | t3), ((((p | s0) | s1) | s2) | s3), t4, s4);
    lemma_term_subset(t5, s5);
    lemma_or_subset((((((p | t0) | t1) | t2) | t3) | t4), (((((p | s0) | s1) | s2) | s3) | s4), t5, s5);
    lemma_term_subset(t6, s6);
    lemma_or_subset(((((((p | t0) | t1) | t2) | t3) | t4) | t5), ((((((p | s0) | s1) | s2) | s3) | s4) | s5), t6, s6);
    lemma_term_subset(t7, s7);
    lemma_or_subset((((((((p | t0) | t1) | t2) | t3) | t4) | t5) | t6), (((((((p | s0) | s1) | s2) | s3) | s4) | s5) | s6), t7, s7);
    lemma_term_subset(t8, s8);
    lemma_or_subset(((((((((p | t0) | t1) | t2) | t3) | t4) | t5) | t6) | t7), ((((((((p | s0) | s1) | s2) | s3) | s4) | s5) | s6) | s7), t8, s8);
    lemma_term_subset(t9, s9);
    lemma_or_subset((((((((((p | t0) | t1) | t2) | t3) | t4) | t5) | t6) | t7) | t8), (((((((((p | s0) | s1) | s2) | s3) | s4) | s5) | s6) | s7) | s8), t9, s9);
}

/// The WebGPU half of the D3D12 feature mask never loses a feature on a
/// more capable device.
#[verifier::rlimit(40)]
proof fn lemma_d3d12_webgpu_monotone(i1: RenderDeviceInfo, a1: GraphicsAdapterInfo, i2: RenderDeviceInfo, a2: GraphicsAdapterInfo)
    requires
        at_least_as_capable(i1, a1, i2, a2),
    ensures
        d3d12_webgpu_spec(i1, a1) & d3d12_webgpu_spec(i2, a2) == d3d12_webgpu_spec(i1, a1),
{
    let f1 = i1.features;
    let f2 = i2.features;
    let d1 = a1.draw_command_cap_flags;
    let d2 = a2.draw_command_cap_flags;
    assert((d1 & d2 == d1 && d1 & dil::DRAW_COMMAND_CAP_FLAG_DRAW_INDIRECT_FIRST_INSTANCE != 0) ==> d2 & dil::DRAW_COMMAND_CAP_FLAG_DRAW_INDIRECT_FIRST_INSTANCE != 0) by (bit_vector);
    let u0: u64 = if on(f1.depth_clamp) { WEBGPU_DEPTH_CLIP_CONTROL } else { 0 };
    let v0: u64 = if on(f2.depth_clamp) { WEBGPU_DEPTH_CLIP_CONTROL } else { 0 };
    let u1: u64 = if on(f1.dual_source_blend) { WEBGPU_DUAL_SOURCE_BLENDING } else { 0 };
    let v1: u64 = if on(f2.dual_source_blend) { WEBGPU_DUAL_SOURCE_BLENDING } else { 0 };
    let u2: u64 = if on(f1.timestamp_queries) { WEBGPU_TIMESTAMP_QUERY } else { 0 };
    let v2: u64 = if on(f2.timestamp_queries) { WEBGPU_TIMESTAMP_QUERY } else { 0 };
    let u3: u64 = if on(f1.texture_compression_bc) { WEBGPU_TEXTURE_COMPRESSION_BC | WEBGPU_TEXTURE_COMPRESSION_BC_SLICED_3D } else { 0 };
    let v3: u64 = if on(f2.texture_compression_bc) { WEBGPU_TEXTURE_COMPRESSION_BC | WEBGPU_TEXTURE_COMPRESSION_BC_SLICED_3D } else { 0 };
    let u4: u64 = if a1.draw_command_cap_flags & dil::DRAW_COMMAND_CAP_FLAG_DRAW_INDIRECT_FIRST_INSTANCE != 0 { WEBGPU_INDIRECT_FIRST_INSTANCE } else { 0 };
    let v4: u64 = if a2.draw_command_cap_flags & dil::DRAW_COMMAND_CAP_FLAG_DRAW_INDIRECT_FIRST_INSTANCE != 0 { WEBGPU_INDIRECT_FIRST_INSTANCE } else { 0 };
    let q = d3d12_platform_webgpu();
    assert(d3d12_webgpu_spec(i1, a1) == q | u0 | u1 | u2 | u3 | u4);
    assert(d3d12_webgpu_spec(i2, a2) == q | v0 | v1 | v2 | v3 | v4);
    lemma_or_subset_base(q);
    lemma_term_subset(u0, v0);
    lemma_or_subset(q, q, u0, v0);
    lemma_term_subset(u1, v1);
    lemma_or_subset((q | u0), (q | v0), u1, v1);
    lemma_term_subset(u2, v2);
    lemma_or_subset(((q | u0) | u1), ((q | v0) | v1), u2, v2);
    lemma_term_subset(u3, v3);
    lemma_or_subset((((q | u0) | u1) | u2), (((q | v0) | v1) | v2), u3, v3);
    lemma_term_subset(u4, v4);
    lemma_or_subset(((((q | u0) | u1) | u2) | u3), ((((q | v0) | v1) | v2) | v3), u4, v4);
}

/// Granting a device more capabilities or a higher shader model never
/// removes a feature from its D3D12 feature mask.
pub proof fn lemma_d3d12_features_monotone(i1: RenderDeviceInfo, a1: GraphicsAdapterInfo, i2: RenderDeviceInfo, a2: GraphicsAdapterInfo)
    requires
        at_least_as_capable(i1, a1, i2, a2),
    ensures
        d3d12_features_spec(i2, a2).spec_contains(d3d12_features_spec(i1, a1)),
{
    lemma_d3d12_wgpu_monotone(i1, a1, i2, a2);
    lemma_d3d12_webgpu_monotone(i1, a1, i2, a2);
    let x = d3d12_wgpu_spec(i1, a1);
    let y = d3d12_wgpu_spec(i2, a2);
    let u = d3d12_webgpu_spec(i1, a1);
    let v = d3d12_webgpu_spec(i2, a2);
    assert(x & y == x ==> y & x == x) by (bit_vector);
    assert(u & v == u ==> v & u == u) by (bit_vector);
}

/// The literal prefix of an Adreno adapter name.
pub open spec fn adreno_prefix() -> Seq<char> {
    seq!['A', 'd', 'r', 'e', 'n', 'o', ' ', '(', 'T', 'M', ')', ' ']
}

/// The Adreno model of an adapter name: the value of the digit run right
/// after the prefix; `None` for names without the prefix or without a digit
/// right after it.
pub open spec fn adreno_model_spec(name: Seq<char>) -> Option<nat> {
    let p = adreno_prefix();
    if name.len() >= p.len() && name.take(p.len() as int) == p {
        let rest = name.skip(p.len() as int);
        let k = text::digit_run_len(rest);
        if k == 0 {
            None
        } else {
            Some(text::numeral_value(rest.take(k as int)))
        }
    } else {
        None
    }
}


/// The Adreno model parsed from an adapter name ("Adreno (TM) 610" -> 610),
/// or `None` for names that are not Adreno names. Trailing characters after
/// the digit run are ignored ("Adreno (TM) 642L" -> 642); a name whose
/// prefix is followed by no digit has no model.
pub fn adreno_model_from_name(name: &str) -> (r: Option<u32>)
    requires
        adreno_model_spec(name@) matches Some(v) ==> v <= u32::MAX,
    ensures
        match adreno_model_spec(name@) {
            Some(v) => r == Some(v as u32),
            None => r.is_none(),
        },
{
    let prefix = "Adreno (TM) ";
    proof {
        reveal_strlit("Adreno (TM) ");
        assert(prefix@ =~= adreno_prefix());
    }
    let n = name.unicode_len();
    if n < 12 {
        return None;
    }
    let mut i: usize = 0;
    while i < 12
        invariant
            i <= 12 <= n,
            n == name@.len(),
            prefix@ == adreno_prefix(),
            forall|j: int| 0 <= j < i ==> name@[j] == adreno_prefix()[j],
        decreases 12 - i,
    {
        if name.get_char(i) != prefix.get_char(i) {
            assert(name@.take(12) != adreno_prefix()) by {
                assert(name@.take(12)[i as int] != adreno_prefix()[i as int]);
            }
            return None;
        }
        i = i + 1;
    }
    let ghost rest = name@.skip(12);
    proof {
        assert(name@.take(12) =~= adreno_prefix());
        text::lemma_digit_run(rest);
    }
    let ghost k = text::digit_run_len(rest);
    if n == 12 {
        return None;
    }
    let c = name.get_char(12);
    if !('0' <= c && c <= '9') {
        assert(rest[0] == c);
        return None;
    }
    assert(rest[0] == c);
    assert(k >= 1) by {
        if k == 0 {
            assert(!text::is_digit(rest[0]));
        }
    }
    proof {
        text::lemma_numeral_step(rest, 0);
        assert(rest.take(0) =~= Seq::<char>::empty());
        text::lemma_numeral_monotone(rest, 1, k as int);
    }
    let mut value: u32 = (c as u32) - 48;
    let mut j: usize = 13;
    while j < n && ('0' <= name.get_char(j) && name.get_char(j) <= '9')
        invariant
            13 <= j <= n,
            n == name@.len(),
            rest == name@.skip(12),
            k == text::digit_run_len(rest),
            k <= rest.len(),
            j - 12 <= k,
            forall|m: int| 0 <= m < k ==> text::is_digit(#[trigger] rest[m]),
            k < rest.len() ==> !text::is_digit(rest[k as int]),
            value == text::numeral_value(rest.take(j - 12)),
            text::numeral_value(rest.take(k as int)) <= u32::MAX,
        decreases n - j,
    {
        let d = name.get_char(j);
        assert(rest[j - 12] == d);
        assert(j - 12 < k) by {
            if j - 12 == k {
                assert(!text::is_digit(rest[k as int]));
            }
        }
        proof {
            text::lemma_numeral_step(rest, j - 12);
            text::lemma_numeral_monotone(rest, j - 12 + 1, k as int);
        }
        value = value * 10 + ((d as u32) - 48);
        j = j + 1;
    }
    proof {
        if j < n {
            assert(rest[j - 12] == name@[j as int]);
            assert(!text::is_digit(rest[j - 12]));
            assert(j - 12 == k) by {
                if j - 12 < k {
                    assert(text::is_digit(rest[j - 12]));
                }
            }
        } else {
            assert(j - 12 == rest.len());
        }
    }
    Some(value)
}

} // verus!
