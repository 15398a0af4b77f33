//! Translation of GPU API descriptors into engine descriptors. Every
//! function is pure: a descriptor value in, an engine value out.

use crate::diligent_types as dil;
use crate::gpu_types as gpu;
use vstd::prelude::*;

verus! {

/// The engine bind flags a buffer is created with for a usage set: one flag
/// per usage that binds the buffer, storage buffers getting both the
/// unordered-access and the shader-resource view.
pub open spec fn buffer_bind_flags_spec(usage: u32) -> u32 {
    (if gpu::has_all(usage, gpu::BUFFER_USAGE_INDEX) { dil::BIND_INDEX_BUFFER } else { 0 })
    | (if gpu::has_all(usage, gpu::BUFFER_USAGE_VERTEX) { dil::BIND_VERTEX_BUFFER } else { 0 })
    | (if gpu::has_all(usage, gpu::BUFFER_USAGE_UNIFORM) { dil::BIND_UNIFORM_BUFFER } else { 0 })
    | (if gpu::has_all(usage, gpu::BUFFER_USAGE_STORAGE) { dil::BIND_UNORDERED_ACCESS | dil::BIND_SHADER_RESOURCE } else { 0 })
    | (if gpu::has_all(usage, gpu::BUFFER_USAGE_INDIRECT) { dil::BIND_INDIRECT_DRAW_ARGS } else { 0 })
    | (if gpu::has_any(usage, gpu::BUFFER_USAGE_BLAS_INPUT | gpu::BUFFER_USAGE_TLAS_INPUT) { dil::BIND_RAY_TRACING } else { 0 })
}

/// Buffer usages -> engine bind flags (creation-time bind flags).
pub fn buffer_usage_to_bind_flags(usage: gpu::BufferUsages) -> (flags: dil::BindFlags)
    ensures
        flags == buffer_bind_flags_spec(usage),
{
    let index = if usage & gpu::BUFFER_USAGE_INDEX == gpu::BUFFER_USAGE_INDEX {
        dil::BIND_INDEX_BUFFER
    } else {
        0
    };
    let vertex = if usage & gpu::BUFFER_USAGE_VERTEX == gpu::BUFFER_USAGE_VERTEX {
        dil::BIND_VERTEX_BUFFER
    } else {
        0
    };
    let uniform = if usage & gpu::BUFFER_USAGE_UNIFORM == gpu::BUFFER_USAGE_UNIFORM {
        dil::BIND_UNIFORM_BUFFER
    } else {
        0
    };
    // A read-only storage binding needs a shader-resource view of the same
    // buffer, a read-write one an unordered-access view.
    let storage = if usage & gpu::BUFFER_USAGE_STORAGE == gpu::BUFFER_USAGE_STORAGE {
        dil::BIND_UNORDERED_ACCESS | dil::BIND_SHADER_RESOURCE
    } else {
        0
    };
    let indirect = if usage & gpu::BUFFER_USAGE_INDIRECT == gpu::BUFFER_USAGE_INDIRECT {
        dil::BIND_INDIRECT_DRAW_ARGS
    } else {
        0
    };
    let ray_tracing = if usage & (gpu::BUFFER_USAGE_BLAS_INPUT | gpu::BUFFER_USAGE_TLAS_INPUT) != 0 {
        dil::BIND_RAY_TRACING
    } else {
        0
    };
    index | vertex | uniform | storage | indirect | ray_tracing
}


/// The engine usage of a buffer: staging for mappable buffers, default
/// otherwise.
pub open spec fn buffer_usage_spec(usage: u32) -> dil::Usage {
    if gpu::has_all(usage, gpu::BUFFER_USAGE_MAP_READ) || gpu::has_all(usage, gpu::BUFFER_USAGE_MAP_WRITE) {
        dil::Usage::Staging
    } else {
        dil::Usage::Default
    }
}

/// Buffer usages -> engine usage (staging vs default). Callers that provide
/// initial data override the result with the immutable usage.
pub fn buffer_usage_to_usage(usage: gpu::BufferUsages) -> (u: dil::Usage)
    ensures
        u == buffer_usage_spec(usage),
{
    if usage & gpu::BUFFER_USAGE_MAP_READ == gpu::BUFFER_USAGE_MAP_READ
        || usage & gpu::BUFFER_USAGE_MAP_WRITE == gpu::BUFFER_USAGE_MAP_WRITE {
        dil::Usage::Staging
    } else {
        dil::Usage::Default
    }
}

/// The CPU access of a buffer: read for read-mappable, write for
/// write-mappable buffers.
pub open spec fn buffer_cpu_access_spec(usage: u32) -> u8 {
    (if gpu::has_all(usage, gpu::BUFFER_USAGE_MAP_READ) { dil::CPU_ACCESS_READ } else { 0 })
    | (if gpu::has_all(usage, gpu::BUFFER_USAGE_MAP_WRITE) { dil::CPU_ACCESS_WRITE } else { 0 })
}

/// Buffer usages -> engine CPU access flags (only meaningful on staging
/// buffers).
pub fn buffer_usage_to_cpu_access(usage: gpu::BufferUsages) -> (flags: dil::CpuAccessFlags)
    ensures
        flags == buffer_cpu_access_spec(usage),
{
    let read = if usage & gpu::BUFFER_USAGE_MAP_READ == gpu::BUFFER_USAGE_MAP_READ {
        dil::CPU_ACCESS_READ
    } else {
        0
    };
    let write = if usage & gpu::BUFFER_USAGE_MAP_WRITE == gpu::BUFFER_USAGE_MAP_WRITE {
        dil::CPU_ACCESS_WRITE
    } else {
        0
    };
    read | write
}

/// The engine bind flags of a texture: render attachments get both the
/// render-target and the depth-stencil flag, the view picks the one in use.
pub open spec fn texture_bind_flags_spec(usage: u32) -> u32 {
    (if gpu::has_all(usage, gpu::TEXTURE_USAGE_TEXTURE_BINDING) { dil::BIND_SHADER_RESOURCE } else { 0 })
    | (if gpu::has_all(usage, gpu::TEXTURE_USAGE_STORAGE_BINDING) { dil::BIND_UNORDERED_ACCESS } else { 0 })
    | (if gpu::has_all(usage, gpu::TEXTURE_USAGE_RENDER_ATTACHMENT) {
        dil::BIND_RENDER_TARGET | dil::BIND_DEPTH_STENCIL
    } else {
        0
    })
}

/// Texture usages -> engine bind flags.
pub fn texture_usage_to_bind_flags(usage: gpu::TextureUsages) -> (flags: dil::BindFlags)
    ensures
        flags == texture_bind_flags_spec(usage),
{
    let sampled = if usage & gpu::TEXTURE_USAGE_TEXTURE_BINDING == gpu::TEXTURE_USAGE_TEXTURE_BINDING {
        dil::BIND_SHADER_RESOURCE
    } else {
        0
    };
    let storage = if usage & gpu::TEXTURE_USAGE_STORAGE_BINDING == gpu::TEXTURE_USAGE_STORAGE_BINDING {
        dil::BIND_UNORDERED_ACCESS
    } else {
        0
    };
    let attachment = if usage & gpu::TEXTURE_USAGE_RENDER_ATTACHMENT == gpu::TEXTURE_USAGE_RENDER_ATTACHMENT {
        dil::BIND_RENDER_TARGET | dil::BIND_DEPTH_STENCIL
    } else {
        0
    };
    sampled | storage | attachment
}

/// The engine value type, component count and normalization of a vertex
/// format; `None` for the 64-bit and packed formats, which have no engine
/// counterpart.
pub open spec fn vertex_format_spec(format: gpu::VertexFormat) -> Option<(dil::ValueType, u32, bool)> {
    match format {
        gpu::VertexFormat::Uint8 => Some((dil::ValueType::Uint8, 1, false)),
        gpu::VertexFormat::Uint8x2 => Some((dil::ValueType::Uint8, 2, false)),
        gpu::VertexFormat::Uint8x4 => Some((dil::ValueType::Uint8, 4, false)),
        gpu::VertexFormat::Sint8 => Some((dil::ValueType::Int8, 1, false)),
        gpu::VertexFormat::Sint8x2 => Some((dil::ValueType::Int8, 2, false)),
        gpu::VertexFormat::Sint8x4 => Some((dil::ValueType::Int8, 4, false)),
        gpu::VertexFormat::Unorm8 => Some((dil::ValueType::Uint8, 1, true)),
        gpu::VertexFormat::Unorm8x2 => Some((dil::ValueType::Uint8, 2, true)),
        gpu::VertexFormat::Unorm8x4 => Some((dil::ValueType::Uint8, 4, true)),
        gpu::VertexFormat::Snorm8 => Some((dil::ValueType::Int8, 1, true)),
        gpu::VertexFormat::Snorm8x2 => Some((dil::ValueType::Int8, 2, true)),
        gpu::VertexFormat::Snorm8x4 => Some((dil::ValueType::Int8, 4, true)),
        gpu::VertexFormat::Uint16 => Some((dil::ValueType::Uint16, 1, false)),
        gpu::VertexFormat::Uint16x2 => Some((dil::ValueType::Uint16, 2, false)),
        gpu::VertexFormat::Uint16x4 => Some((dil::ValueType::Uint16, 4, false)),
        gpu::VertexFormat::Sint16 => Some((dil::ValueType::Int16, 1, false)),
        gpu::VertexFormat::Sint16x2 => Some((dil::ValueType::Int16, 2, false)),
        gpu::VertexFormat::Sint16x4 => Some((dil::ValueType::Int16, 4, false)),
        gpu::VertexFormat::Unorm16 => Some((dil::ValueType::Uint16, 1, true)),
        gpu::VertexFormat::Unorm16x2 => Some((dil::ValueType::Uint16, 2, true)),
        gpu::VertexFormat::Unorm16x4 => Some((dil::ValueType::Uint16, 4, true)),
        gpu::VertexFormat::Snorm16 => Some((dil::ValueType::Int16, 1, true)),
        gpu::VertexFormat::Snorm16x2 => Some((dil::ValueType::Int16, 2, true)),
        gpu::VertexFormat::Snorm16x4 => Some((dil::ValueType::Int16, 4, true)),
        gpu::VertexFormat::Float16 => Some((dil::ValueType::Float16, 1, false)),
        gpu::VertexFormat::Float16x2 => Some((dil::ValueType::Float16, 2, false)),
        gpu::VertexFormat::Float16x4 => Some((dil::ValueType::Float16, 4, false)),
        gpu::VertexFormat::Float32 => Some((dil::ValueType::Float32, 1, false)),
        gpu::VertexFormat::Float32x2 => Some((dil::ValueType::Float32, 2, false)),
        gpu::VertexFormat::Float32x3 => Some((dil::ValueType::Float32, 3, false)),
        gpu::VertexFormat::Float32x4 => Some((dil::ValueType::Float32, 4, false)),
        gpu::VertexFormat::Uint32 => Some((dil::ValueType::Uint32, 1, false)),
        gpu::VertexFormat::Uint32x2 => Some((dil::ValueType::Uint32, 2, false)),
        gpu::VertexFormat::Uint32x3 => Some((dil::ValueType::Uint32, 3, false)),
        gpu::VertexFormat::Uint32x4 => Some((dil::ValueType::Uint32, 4, false)),
        gpu::VertexFormat::Sint32 => Some((dil::ValueType::Int32, 1, false)),
        gpu::VertexFormat::Sint32x2 => Some((dil::ValueType::Int32, 2, false)),
        gpu::VertexFormat::Sint32x3 => Some((dil::ValueType::Int32, 3, false)),
        gpu::VertexFormat::Sint32x4 => Some((dil::ValueType::Int32, 4, false)),
        _ => None,
    }
}

/// Vertex format -> engine value type, component count and normalized flag.
pub fn vertex_format_to_value_type(format: gpu::VertexFormat) -> (r: Option<(dil::ValueType, u32, bool)>)
    ensures
        r == vertex_format_spec(format),
{
    match format {
        gpu::VertexFormat::Uint8 => Some((dil::ValueType::Uint8, 1, false)),
        gpu::VertexFormat::Uint8x2 => Some((dil::ValueType::Uint8, 2, false)),
        gpu::VertexFormat::Uint8x4 => Some((dil::ValueType::Uint8, 4, false)),
        gpu::VertexFormat::Sint8 => Some((dil::ValueType::Int8, 1, false)),
        gpu::VertexFormat::Sint8x2 => Some((dil::ValueType::Int8, 2, false)),
        gpu::VertexFormat::Sint8x4 => Some((dil::ValueType::Int8, 4, false)),
        gpu::VertexFormat::Unorm8 => Some((dil::ValueType::Uint8, 1, true)),
        gpu::VertexFormat::Unorm8x2 => Some((dil::ValueType::Uint8, 2, true)),
        gpu::VertexFormat::Unorm8x4 => Some((dil::ValueType::Uint8, 4, true)),
        gpu::VertexFormat::Snorm8 => Some((dil::ValueType::Int8, 1, true)),
        gpu::VertexFormat::Snorm8x2 => Some((dil::ValueType::Int8, 2, true)),
        gpu::VertexFormat::Snorm8x4 => Some((dil::ValueType::Int8, 4, true)),
        gpu::VertexFormat::Uint16 => Some((dil::ValueType::Uint16, 1, false)),
        gpu::VertexFormat::Uint16x2 => Some((dil::ValueType::Uint16, 2, false)),
        gpu::VertexFormat::Uint16x4 => Some((dil::ValueType::Uint16, 4, false)),
        gpu::VertexFormat::Sint16 => Some((dil::ValueType::Int16, 1, false)),
        gpu::VertexFormat::Sint16x2 => Some((dil::ValueType::Int16, 2, false)),
        gpu::VertexFormat::Sint16x4 => Some((dil::ValueType::Int16, 4, false)),
        gpu::VertexFormat::Unorm16 => Some((dil::ValueType::Uint16, 1, true)),
        gpu::VertexFormat::Unorm16x2 => Some((dil::ValueType::Uint16, 2, true)),
        gpu::VertexFormat::Unorm16x4 => Some((dil::ValueType::Uint16, 4, true)),
        gpu::VertexFormat::Snorm16 => Some((dil::ValueType::Int16, 1, true)),
        gpu::VertexFormat::Snorm16x2 => Some((dil::ValueType::Int16, 2, true)),
        gpu::VertexFormat::Snorm16x4 => Some((dil::ValueType::Int16, 4, true)),
        gpu::VertexFormat::Float16 => Some((dil::ValueType::Float16, 1, false)),
        gpu::VertexFormat::Float16x2 => Some((dil::ValueType::Float16, 2, false)),
        gpu::VertexFormat::Float16x4 => Some((dil::ValueType::Float16, 4, false)),
        gpu::VertexFormat::Float32 => Some((dil::ValueType::Float32, 1, false)),
        gpu::VertexFormat::Float32x2 => Some((dil::ValueType::Float32, 2, false)),
        gpu::VertexFormat::Float32x3 => Some((dil::ValueType::Float32, 3, false)),
        gpu::VertexFormat::Float32x4 => Some((dil::ValueType::Float32, 4, false)),
        gpu::VertexFormat::Uint32 => Some((dil::ValueType::Uint32, 1, false)),
        gpu::VertexFormat::Uint32x2 => Some((dil::ValueType::Uint32, 2, false)),
        gpu::VertexFormat::Uint32x3 => Some((dil::ValueType::Uint32, 3, false)),
        gpu::VertexFormat::Uint32x4 => Some((dil::ValueType::Uint32, 4, false)),
        gpu::VertexFormat::Sint32 => Some((dil::ValueType::Int32, 1, false)),
        gpu::VertexFormat::Sint32x2 => Some((dil::ValueType::Int32, 2, false)),
        gpu::VertexFormat::Sint32x3 => Some((dil::ValueType::Int32, 3, false)),
        gpu::VertexFormat::Sint32x4 => Some((dil::ValueType::Int32, 4, false)),
        gpu::VertexFormat::Float64 | gpu::VertexFormat::Float64x2 | gpu::VertexFormat::Float64x3
        | gpu::VertexFormat::Float64x4 | gpu::VertexFormat::Unorm10_10_10_2
        | gpu::VertexFormat::Unorm8x4Bgra => None,
    }
}

/// The engine comparison function of a compare function (same name).
pub open spec fn comparison_spec(f: gpu::CompareFunction) -> dil::ComparisonFunction {
    match f {
        gpu::CompareFunction::Never => dil::ComparisonFunction::Never,
        gpu::CompareFunction::Less => dil::ComparisonFunction::Less,
        gpu::CompareFunction::Equal => dil::ComparisonFunction::Equal,
        gpu::CompareFunction::LessEqual => dil::ComparisonFunction::LessEqual,
        gpu::CompareFunction::Greater => dil::ComparisonFunction::Greater,
        gpu::CompareFunction::NotEqual => dil::ComparisonFunction::NotEqual,
        gpu::CompareFunction::GreaterEqual => dil::ComparisonFunction::GreaterEqual,
        gpu::CompareFunction::Always => dil::ComparisonFunction::Always,
    }
}

/// Whether a value `a` passes a test against `b` under a compare function.
pub open spec fn compare_passes(f: gpu::CompareFunction, a: int, b: int) -> bool {
    match f {
        gpu::CompareFunction::Never => false,
        gpu::CompareFunction::Less => a < b,
        gpu::CompareFunction::Equal => a == b,
        gpu::CompareFunction::LessEqual => a <= b,
        gpu::CompareFunction::Greater => a > b,
        gpu::CompareFunction::NotEqual => a != b,
        gpu::CompareFunction::GreaterEqual => a >= b,
        gpu::CompareFunction::Always => true,
    }
}

/// Whether a value `a` passes a test against `b` under an engine comparison
/// function.
pub open spec fn engine_compare_passes(c: dil::ComparisonFunction, a: int, b: int) -> bool {
    match c {
        dil::ComparisonFunction::Never => false,
        dil::ComparisonFunction::Less => a < b,
        dil::ComparisonFunction::Equal => a == b,
        dil::ComparisonFunction::LessEqual => a <= b,
        dil::ComparisonFunction::Greater => a > b,
        dil::ComparisonFunction::NotEqual => a != b,
        dil::ComparisonFunction::GreaterEqual => a >= b,
        dil::ComparisonFunction::Always => true,
    }
}

/// The engine comparison a compare function translates to passes exactly
/// the same values: for every pair of depths (or reference and texel
/// values) the engine test agrees with the requested one. Distinct compare
/// functions therefore translate to distinct engine comparisons.
pub proof fn lemma_comparison_keeps_test(f: gpu::CompareFunction, g: gpu::CompareFunction)
    ensures
        forall|a: int, b: int| engine_compare_passes(comparison_spec(f), a, b) == compare_passes(f, a, b),
        comparison_spec(f) == comparison_spec(g) ==> f == g,
{
    assert(engine_compare_passes(comparison_spec(f), 0, 0) == compare_passes(f, 0, 0));
    assert(engine_compare_passes(comparison_spec(f), 0, 1) == compare_passes(f, 0, 1));
    assert(engine_compare_passes(comparison_spec(f), 1, 0) == compare_passes(f, 1, 0));
}

/// Compare function -> engine comparison function of the same name.
pub fn comparison_function(f: gpu::CompareFunction) -> (c: dil::ComparisonFunction)
    ensures
        c == comparison_spec(f),
        f == gpu::CompareFunction::Never ==> c == dil::ComparisonFunction::Never,
        f == gpu::CompareFunction::Less ==> c == dil::ComparisonFunction::Less,
        f == gpu::CompareFunction::Equal ==> c == dil::ComparisonFunction::Equal,
        f == gpu::CompareFunction::LessEqual ==> c == dil::ComparisonFunction::LessEqual,
        f == gpu::CompareFunction::Greater ==> c == dil::ComparisonFunction::Greater,
        f == gpu::CompareFunction::NotEqual ==> c == dil::ComparisonFunction::NotEqual,
        f == gpu::CompareFunction::GreaterEqual ==> c == dil::ComparisonFunction::GreaterEqual,
        f == gpu::CompareFunction::Always ==> c == dil::ComparisonFunction::Always,
        forall|a: int, b: int| engine_compare_passes(c, a, b) == compare_passes(f, a, b),
{
    proof { lemma_comparison_keeps_test(f, f); }
    match f {
        gpu::CompareFunction::Never => dil::ComparisonFunction::Never,
        gpu::CompareFunction::Less => dil::ComparisonFunction::Less,
        gpu::CompareFunction::Equal => dil::ComparisonFunction::Equal,
        gpu::CompareFunction::LessEqual => dil::ComparisonFunction::LessEqual,
        gpu::CompareFunction::Greater => dil::ComparisonFunction::Greater,
        gpu::CompareFunction::NotEqual => dil::ComparisonFunction::NotEqual,
        gpu::CompareFunction::GreaterEqual => dil::ComparisonFunction::GreaterEqual,
        gpu::CompareFunction::Always => dil::ComparisonFunction::Always,
    }
}

/// Address mode -> engine texture address mode.
pub fn address_mode(mode: gpu::AddressMode) -> (m: dil::TextureAddressMode)
    ensures
        m == match mode {
            gpu::AddressMode::ClampToEdge => dil::TextureAddressMode::Clamp,
            gpu::AddressMode::Repeat => dil::TextureAddressMode::Wrap,
            gpu::AddressMode::MirrorRepeat => dil::TextureAddressMode::Mirror,
            gpu::AddressMode::ClampToBorder => dil::TextureAddressMode::Border,
        },
{
    match mode {
        gpu::AddressMode::ClampToEdge => dil::TextureAddressMode::Clamp,
        gpu::AddressMode::Repeat => dil::TextureAddressMode::Wrap,
        gpu::AddressMode::MirrorRepeat => dil::TextureAddressMode::Mirror,
        gpu::AddressMode::ClampToBorder => dil::TextureAddressMode::Border,
    }
}

/// The engine filter type: point for nearest filtering, anisotropic for
/// linear filtering with anisotropy, linear otherwise; the comparison
/// variant of each for comparison samplers.
pub open spec fn filter_type_spec(mode: gpu::FilterMode, comparison: bool, anisotropy: bool) -> dil::FilterType {
    match mode {
        gpu::FilterMode::Nearest => if comparison {
            dil::FilterType::ComparisonPoint
        } else {
            dil::FilterType::Point
        },
        gpu::FilterMode::Linear => if anisotropy {
            if comparison { dil::FilterType::ComparisonAnisotropic } else { dil::FilterType::Anisotropic }
        } else {
            if comparison { dil::FilterType::ComparisonLinear } else { dil::FilterType::Linear }
        },
    }
}

/// Filter mode (+ comparison, + anisotropy) -> engine filter type.
pub fn filter_type(mode: gpu::FilterMode, comparison: bool, anisotropy: bool) -> (f: dil::FilterType)
    ensures
        f == filter_type_spec(mode, comparison, anisotropy),
{
    match (mode, comparison, anisotropy) {
        (gpu::FilterMode::Nearest, false, _) => dil::FilterType::Point,
        (gpu::FilterMode::Nearest, true, _) => dil::FilterType::ComparisonPoint,
        (gpu::FilterMode::Linear, false, true) => dil::FilterType::Anisotropic,
        (gpu::FilterMode::Linear, false, false) => dil::FilterType::Linear,
        (gpu::FilterMode::Linear, true, true) => dil::FilterType::ComparisonAnisotropic,
        (gpu::FilterMode::Linear, true, false) => dil::FilterType::ComparisonLinear,
    }
}

/// The engine blend factor of a blend factor.
pub open spec fn blend_factor_spec(factor: gpu::BlendFactor) -> dil::DiligentBlendFactor {
    match factor {
        gpu::BlendFactor::Zero => dil::DiligentBlendFactor::Zero,
        gpu::BlendFactor::One => dil::DiligentBlendFactor::One,
        gpu::BlendFactor::Src => dil::DiligentBlendFactor::SrcColor,
        gpu::BlendFactor::OneMinusSrc => dil::DiligentBlendFactor::InvSrcColor,
        gpu::BlendFactor::SrcAlpha => dil::DiligentBlendFactor::SrcAlpha,
        gpu::BlendFactor::OneMinusSrcAlpha => dil::DiligentBlendFactor::InvSrcAlpha,
        gpu::BlendFactor::Dst => dil::DiligentBlendFactor::DestColor,
        gpu::BlendFactor::OneMinusDst => dil::DiligentBlendFactor::InvDestColor,
        gpu::BlendFactor::DstAlpha => dil::DiligentBlendFactor::DestAlpha,
        gpu::BlendFactor::OneMinusDstAlpha => dil::DiligentBlendFactor::InvDestAlpha,
        gpu::BlendFactor::SrcAlphaSaturated => dil::DiligentBlendFactor::SrcAlphaSat,
        gpu::BlendFactor::Constant => dil::DiligentBlendFactor::BlendFactor,
        gpu::BlendFactor::OneMinusConstant => dil::DiligentBlendFactor::InvBlendFactor,
        gpu::BlendFactor::Src1 => dil::DiligentBlendFactor::Src1Color,
        gpu::BlendFactor::OneMinusSrc1 => dil::DiligentBlendFactor::InvSrc1Color,
        gpu::BlendFactor::Src1Alpha => dil::DiligentBlendFactor::Src1Alpha,
        gpu::BlendFactor::OneMinusSrc1Alpha => dil::DiligentBlendFactor::InvSrc1Alpha,
    }
}

/// Blend factor -> engine blend factor.
pub fn blend_factor(factor: gpu::BlendFactor) -> (f: dil::DiligentBlendFactor)
    ensures
        f == blend_factor_spec(factor),
{
    match factor {
        gpu::BlendFactor::Zero => dil::DiligentBlendFactor::Zero,
        gpu::BlendFactor::One => dil::DiligentBlendFactor::One,
        gpu::BlendFactor::Src => dil::DiligentBlendFactor::SrcColor,
        gpu::BlendFactor::OneMinusSrc => dil::DiligentBlendFactor::InvSrcColor,
        gpu::BlendFactor::SrcAlpha => dil::DiligentBlendFactor::SrcAlpha,
        gpu::BlendFactor::OneMinusSrcAlpha => dil::DiligentBlendFactor::InvSrcAlpha,
        gpu::BlendFactor::Dst => dil::DiligentBlendFactor::DestColor,
        gpu::BlendFactor::OneMinusDst => dil::DiligentBlendFactor::InvDestColor,
        gpu::BlendFactor::DstAlpha => dil::DiligentBlendFactor::DestAlpha,
        gpu::BlendFactor::OneMinusDstAlpha => dil::DiligentBlendFactor::InvDestAlpha,
        gpu::BlendFactor::SrcAlphaSaturated => dil::DiligentBlendFactor::SrcAlphaSat,
        gpu::BlendFactor::Constant => dil::DiligentBlendFactor::BlendFactor,
        gpu::BlendFactor::OneMinusConstant => dil::DiligentBlendFactor::InvBlendFactor,
        gpu::BlendFactor::Src1 => dil::DiligentBlendFactor::Src1Color,
        gpu::BlendFactor::OneMinusSrc1 => dil::DiligentBlendFactor::InvSrc1Color,
        gpu::BlendFactor::Src1Alpha => dil::DiligentBlendFactor::Src1Alpha,
        gpu::BlendFactor::OneMinusSrc1Alpha => dil::DiligentBlendFactor::InvSrc1Alpha,
    }
}

/// The engine blend operation of a blend operation.
pub open spec fn blend_operation_spec(op: gpu::BlendOperation) -> dil::DiligentBlendOperation {
    match op {
        gpu::BlendOperation::Add => dil::DiligentBlendOperation::Add,
        gpu::BlendOperation::Subtract => dil::DiligentBlendOperation::Subtract,
        gpu::BlendOperation::ReverseSubtract => dil::DiligentBlendOperation::RevSubtract,
        gpu::BlendOperation::Min => dil::DiligentBlendOperation::Min,
        gpu::BlendOperation::Max => dil::DiligentBlendOperation::Max,
    }
}

/// Blend operation -> engine blend operation.
pub fn blend_operation(op: gpu::BlendOperation) -> (o: dil::DiligentBlendOperation)
    ensures
        o == blend_operation_spec(op),
{
    match op {
        gpu::BlendOperation::Add => dil::DiligentBlendOperation::Add,
        gpu::BlendOperation::Subtract => dil::DiligentBlendOperation::Subtract,
        gpu::BlendOperation::ReverseSubtract => dil::DiligentBlendOperation::RevSubtract,
        gpu::BlendOperation::Min => dil::DiligentBlendOperation::Min,
        gpu::BlendOperation::Max => dil::DiligentBlendOperation::Max,
    }
}

/// Color writes -> engine color mask. Both flag sets use the same bit
/// layout (red 1, green 2, blue 4, alpha 8), so the mask is a copy of the
/// low byte.
pub fn color_writes(writes: gpu::ColorWrites) -> (mask: dil::ColorMask)
    requires
        writes <= gpu::COLOR_WRITE_ALL,
    ensures
        mask == writes,
{
    writes as u8
}

/// The engine stencil operation of a stencil operation.
pub open spec fn stencil_operation_spec(op: gpu::StencilOperation) -> dil::StencilOp {
    match op {
        gpu::StencilOperation::Keep => dil::StencilOp::Keep,
        gpu::StencilOperation::Zero => dil::StencilOp::Zero,
        gpu::StencilOperation::Replace => dil::StencilOp::Replace,
        gpu::StencilOperation::IncrementClamp => dil::StencilOp::IncrSat,
        gpu::StencilOperation::DecrementClamp => dil::StencilOp::DecrSat,
        gpu::StencilOperation::Invert => dil::StencilOp::Invert,
        gpu::StencilOperation::IncrementWrap => dil::StencilOp::IncrWrap,
        gpu::StencilOperation::DecrementWrap => dil::StencilOp::DecrWrap,
    }
}

/// Stencil operation -> engine stencil operation.
pub fn stencil_operation(op: gpu::StencilOperation) -> (s: dil::StencilOp)
    ensures
        s == stencil_operation_spec(op),
{
    match op {
        gpu::StencilOperation::Keep => dil::StencilOp::Keep,
        gpu::StencilOperation::Zero => dil::StencilOp::Zero,
        gpu::StencilOperation::Replace => dil::StencilOp::Replace,
        gpu::StencilOperation::IncrementClamp => dil::StencilOp::IncrSat,
        gpu::StencilOperation::DecrementClamp => dil::StencilOp::DecrSat,
        gpu::StencilOperation::Invert => dil::StencilOp::Invert,
        gpu::StencilOperation::IncrementWrap => dil::StencilOp::IncrWrap,
        gpu::StencilOperation::DecrementWrap => dil::StencilOp::DecrWrap,
    }
}

/// The engine topology of a primitive topology (same name).
pub open spec fn primitive_topology_spec(topology: gpu::PrimitiveTopology) -> dil::DiligentPrimitiveTopology {
    match topology {
        gpu::PrimitiveTopology::PointList => dil::DiligentPrimitiveTopology::PointList,
        gpu::PrimitiveTopology::LineList => dil::DiligentPrimitiveTopology::LineList,
        gpu::PrimitiveTopology::LineStrip => dil::DiligentPrimitiveTopology::LineStrip,
        gpu::PrimitiveTopology::TriangleList => dil::DiligentPrimitiveTopology::TriangleList,
        gpu::PrimitiveTopology::TriangleStrip => dil::DiligentPrimitiveTopology::TriangleStrip,
    }
}

/// Primitive topology -> engine primitive topology.
pub fn primitive_topology(topology: gpu::PrimitiveTopology) -> (t: dil::DiligentPrimitiveTopology)
    ensures
        t == primitive_topology_spec(topology),
{
    match topology {
        gpu::PrimitiveTopology::PointList => dil::DiligentPrimitiveTopology::PointList,
        gpu::PrimitiveTopology::LineList => dil::DiligentPrimitiveTopology::LineList,
        gpu::PrimitiveTopology::LineStrip => dil::DiligentPrimitiveTopology::LineStrip,
        gpu::PrimitiveTopology::TriangleList => dil::DiligentPrimitiveTopology::TriangleList,
        gpu::PrimitiveTopology::TriangleStrip => dil::DiligentPrimitiveTopology::TriangleStrip,
    }
}

/// Polygon mode -> engine fill mode; `None` for point rasterization, which
/// the engine cannot express.
pub fn fill_mode(mode: gpu::PolygonMode) -> (m: Option<dil::FillMode>)
    ensures
        m == match mode {
            gpu::PolygonMode::Fill => Some(dil::FillMode::Solid),
            gpu::PolygonMode::Line => Some(dil::FillMode::Wireframe),
            gpu::PolygonMode::Point => None,
        },
{
    match mode {
        gpu::PolygonMode::Fill => Some(dil::FillMode::Solid),
        gpu::PolygonMode::Line => Some(dil::FillMode::Wireframe),
        gpu::PolygonMode::Point => None,
    }
}

/// Cull face -> engine cull mode (no face: no culling).
pub fn cull_mode(mode: Option<gpu::Face>) -> (m: dil::CullMode)
    ensures
        m == match mode {
            None => dil::CullMode::NoCulling,
            Some(gpu::Face::Front) => dil::CullMode::Front,
            Some(gpu::Face::Back) => dil::CullMode::Back,
        },
{
    match mode {
        None => dil::CullMode::NoCulling,
        Some(gpu::Face::Front) => dil::CullMode::Front,
        Some(gpu::Face::Back) => dil::CullMode::Back,
    }
}

/// The engine shader type bits of a stage visibility set: vertex, pixel and
/// compute for the vertex, fragment and compute stages.
pub open spec fn shader_stages_spec(stages: u32) -> u32 {
    (if gpu::has_all(stages, gpu::SHADER_STAGE_VERTEX) { dil::SHADER_TYPE_VERTEX } else { 0 })
    | (if gpu::has_all(stages, gpu::SHADER_STAGE_FRAGMENT) { dil::SHADER_TYPE_PIXEL } else { 0 })
    | (if gpu::has_all(stages, gpu::SHADER_STAGE_COMPUTE) { dil::SHADER_TYPE_COMPUTE } else { 0 })
}

/// Shader stage visibility -> engine shader type bits.
pub fn shader_stages(stages: gpu::ShaderStages) -> (bits: dil::ShaderTypeFlags)
    ensures
        bits == shader_stages_spec(stages),
{
    let vertex = if stages & gpu::SHADER_STAGE_VERTEX == gpu::SHADER_STAGE_VERTEX {
        dil::SHADER_TYPE_VERTEX
    } else {
        0
    };
    let fragment = if stages & gpu::SHADER_STAGE_FRAGMENT == gpu::SHADER_STAGE_FRAGMENT {
        dil::SHADER_TYPE_PIXEL
    } else {
        0
    };
    let compute = if stages & gpu::SHADER_STAGE_COMPUTE == gpu::SHADER_STAGE_COMPUTE {
        dil::SHADER_TYPE_COMPUTE
    } else {
        0
    };
    vertex | fragment | compute
}

/// The engine shader type of a single shader stage; the stages the engine
/// has no pipeline for map to the vertex type.
pub open spec fn shader_type_spec(stage: gpu::PipelineStage) -> u32 {
    match stage {
        gpu::PipelineStage::Fragment => dil::SHADER_TYPE_PIXEL,
        gpu::PipelineStage::Compute => dil::SHADER_TYPE_COMPUTE,
        _ => dil::SHADER_TYPE_VERTEX,
    }
}

/// Shader stage -> engine shader type (single shader creation).
pub fn shader_type_from_stage(stage: gpu::PipelineStage) -> (t: dil::ShaderTypeFlags)
    ensures
        t == shader_type_spec(stage),
{
    match stage {
        gpu::PipelineStage::Vertex => dil::SHADER_TYPE_VERTEX,
        gpu::PipelineStage::Fragment => dil::SHADER_TYPE_PIXEL,
        gpu::PipelineStage::Compute => dil::SHADER_TYPE_COMPUTE,
        _ => dil::SHADER_TYPE_VERTEX,
    }
}

/// The engine resource type of a binding type: `None` only for external
/// textures.
pub open spec fn resource_type_spec(ty: gpu::BindingType) -> Option<dil::ShaderResourceType> {
    match ty {
        gpu::BindingType::Buffer { ty: gpu::BufferBindingType::Uniform, .. } =>
            Some(dil::ShaderResourceType::ConstantBuffer),
        gpu::BindingType::Buffer { ty: gpu::BufferBindingType::Storage { read_only }, .. } =>
            if read_only {
                Some(dil::ShaderResourceType::BufferSrv)
            } else {
                Some(dil::ShaderResourceType::BufferUav)
            },
        gpu::BindingType::Texture { .. } => Some(dil::ShaderResourceType::TextureSrv),
        gpu::BindingType::StorageTexture { .. } => Some(dil::ShaderResourceType::TextureUav),
        gpu::BindingType::Sampler(_) => Some(dil::ShaderResourceType::Sampler),
        gpu::BindingType::AccelerationStructure { .. } => Some(dil::ShaderResourceType::AccelStruct),
        gpu::BindingType::ExternalTexture => None,
    }
}

/// Binding type -> engine shader resource type.
pub fn binding_type_to_resource_type(ty: &gpu::BindingType) -> (r: Option<dil::ShaderResourceType>)
    ensures
        r == resource_type_spec(*ty),
{
    match ty {
        gpu::BindingType::Buffer { ty: gpu::BufferBindingType::Uniform, .. } =>
            Some(dil::ShaderResourceType::ConstantBuffer),
        gpu::BindingType::Buffer { ty: gpu::BufferBindingType::Storage { read_only: true }, .. } =>
            Some(dil::ShaderResourceType::BufferSrv),
        gpu::BindingType::Buffer { ty: gpu::BufferBindingType::Storage { read_only: false }, .. } =>
            Some(dil::ShaderResourceType::BufferUav),
        gpu::BindingType::Texture { .. } => Some(dil::ShaderResourceType::TextureSrv),
        gpu::BindingType::StorageTexture { .. } => Some(dil::ShaderResourceType::TextureUav),
        gpu::BindingType::Sampler(_) => Some(dil::ShaderResourceType::Sampler),
        gpu::BindingType::AccelerationStructure { .. } => Some(dil::ShaderResourceType::AccelStruct),
        gpu::BindingType::ExternalTexture => None,
    }
}

} // verus!
