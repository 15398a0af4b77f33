//! The engine-side vocabulary: the Diligent enumerations a descriptor
//! translates into, and the bit values of its flag sets.

use vstd::prelude::*;

verus! {

/// Bits of an engine bind flag set.
pub type BindFlags = u32;
/// Vertex buffer binding.
pub const BIND_VERTEX_BUFFER: u32 = 1;
/// Index buffer binding.
pub const BIND_INDEX_BUFFER: u32 = 2;
/// Uniform (constant) buffer binding.
pub const BIND_UNIFORM_BUFFER: u32 = 4;
/// Shader resource view binding.
pub const BIND_SHADER_RESOURCE: u32 = 8;
/// Stream output binding.
pub const BIND_STREAM_OUTPUT: u32 = 16;
/// Render target binding.
pub const BIND_RENDER_TARGET: u32 = 32;
/// Depth-stencil binding.
pub const BIND_DEPTH_STENCIL: u32 = 64;
/// Unordered access view binding.
pub const BIND_UNORDERED_ACCESS: u32 = 128;
/// Indirect draw argument buffer binding.
pub const BIND_INDIRECT_DRAW_ARGS: u32 = 256;
/// Input attachment binding.
pub const BIND_INPUT_ATTACHMENT: u32 = 512;
/// Ray tracing input binding.
pub const BIND_RAY_TRACING: u32 = 1024;

/// Bits of a CPU access flag set.
pub type CpuAccessFlags = u8;
/// The CPU may read the resource.
pub const CPU_ACCESS_READ: u8 = 1;
/// The CPU may write the resource.
pub const CPU_ACCESS_WRITE: u8 = 2;

/// Bits of a shader type set.
pub type ShaderTypeFlags = u32;
/// Vertex shader.
pub const SHADER_TYPE_VERTEX: u32 = 1;
/// Pixel (fragment) shader.
pub const SHADER_TYPE_PIXEL: u32 = 2;
/// Compute shader.
pub const SHADER_TYPE_COMPUTE: u32 = 32;

/// Bits of a color mask.
pub type ColorMask = u8;
/// No channel.
pub const COLOR_MASK_NONE: u8 = 0;
/// Every channel.
pub const COLOR_MASK_ALL: u8 = 15;

/// Bits of a pipeline resource flag set.
pub type PipelineResourceFlags = u8;
/// No flag.
pub const PIPELINE_RESOURCE_FLAG_NONE: u8 = 0;
/// The buffer variable never takes a dynamic offset.
pub const PIPELINE_RESOURCE_FLAG_NO_DYNAMIC_BUFFERS: u8 = 1;
/// The resource is a runtime-sized array.
pub const PIPELINE_RESOURCE_FLAG_RUNTIME_ARRAY: u8 = 8;
/// The resource is a block of inline constants.
pub const PIPELINE_RESOURCE_FLAG_INLINE_CONSTANTS: u8 = 32;

/// Bits of the adapter's ray tracing capabilities.
pub const RAY_TRACING_CAP_FLAG_STANDALONE_SHADERS: u32 = 1;
/// Inline ray tracing (ray queries).
pub const RAY_TRACING_CAP_FLAG_INLINE_RAY_TRACING: u32 = 2;

/// Indirect draws.
pub const DRAW_COMMAND_CAP_FLAG_DRAW_INDIRECT: u32 = 1;
/// Indirect draws with a first instance other than zero.
pub const DRAW_COMMAND_CAP_FLAG_DRAW_INDIRECT_FIRST_INSTANCE: u32 = 2;
/// Native multi-draw-indirect.
pub const DRAW_COMMAND_CAP_FLAG_NATIVE_MULTI_DRAW_INDIRECT: u32 = 4;
/// Indirect draws with a counter buffer.
pub const DRAW_COMMAND_CAP_FLAG_DRAW_INDIRECT_COUNTER_BUFFER: u32 = 8;

/// Resource usage of a buffer or texture.
#[derive(Clone, Copy, Debug, PartialEq, Eq, Structural)]
pub enum Usage {
    Immutable, Default, Dynamic, Staging, Unified, Sparse,
}

/// Scalar value types of vertex attributes and indices.
#[derive(Clone, Copy, Debug, PartialEq, Eq, Structural)]
pub enum ValueType {
    Int8, Int16, Int32, Uint8, Uint16, Uint32, Float16, Float32, Float64,
}

/// Comparison functions.
#[derive(Clone, Copy, Debug, PartialEq, Eq, Structural)]
pub enum ComparisonFunction {
    Never, Less, Equal, LessEqual, Greater, NotEqual, GreaterEqual, Always,
}

/// Texture addressing modes.
#[derive(Clone, Copy, Debug, PartialEq, Eq, Structural)]
pub enum TextureAddressMode {
    Wrap, Mirror, Clamp, Border,
}

/// Sampler filter types.
#[derive(Clone, Copy, Debug, PartialEq, Eq, Structural)]
pub enum FilterType {
    Point, Linear, Anisotropic, ComparisonPoint, ComparisonLinear, ComparisonAnisotropic,
}

/// Blend factors.
#[derive(Clone, Copy, Debug, PartialEq, Eq, Structural)]
pub enum DiligentBlendFactor {
    Zero, One, SrcColor, InvSrcColor, SrcAlpha, InvSrcAlpha, DestColor, InvDestColor,
    DestAlpha, InvDestAlpha, SrcAlphaSat, BlendFactor, InvBlendFactor,
    Src1Color, InvSrc1Color, Src1Alpha, InvSrc1Alpha,
}

/// Blend operations.
#[derive(Clone, Copy, Debug, PartialEq, Eq, Structural)]
pub enum DiligentBlendOperation {
    Add, Subtract, RevSubtract, Min, Max,
}

/// Stencil operations.
#[derive(Clone, Copy, Debug, PartialEq, Eq, Structural)]
pub enum StencilOp {
    Keep, Zero, Replace, IncrSat, DecrSat, Invert, IncrWrap, DecrWrap,
}

/// Primitive topologies.
#[derive(Clone, Copy, Debug, PartialEq, Eq, Structural)]
pub enum DiligentPrimitiveTopology {
    PointList, LineList, LineStrip, TriangleList, TriangleStrip,
}

/// Polygon fill modes.
#[derive(Clone, Copy, Debug, PartialEq, Eq, Structural)]
pub enum FillMode {
    Solid, Wireframe,
}

/// Culling modes.
#[derive(Clone, Copy, Debug, PartialEq, Eq, Structural)]
pub enum CullMode {
    NoCulling, Front, Back,
}

/// Shader resource types.
#[derive(Clone, Copy, Debug, PartialEq, Eq, Structural)]
pub enum ShaderResourceType {
    ConstantBuffer, TextureSrv, BufferSrv, TextureUav, BufferUav, Sampler, InputAttachment, AccelStruct,
}

impl ShaderResourceType {
    /// Whether the resource is one of the buffer kinds.
    pub open spec fn is_buffer(self) -> bool {
        self == ShaderResourceType::ConstantBuffer || self == ShaderResourceType::BufferSrv
            || self == ShaderResourceType::BufferUav
    }
}

/// Update frequency tiers of shader resource variables.
#[derive(Clone, Copy, Debug, PartialEq, Eq, Structural)]
pub enum VariableType {
    Static, Mutable, Dynamic,
}

/// Resource states of attachments.
#[derive(Clone, Copy, Debug, PartialEq, Eq, Structural)]
pub enum ResourceState {
    Unknown, RenderTarget, ResolveDest, DepthWrite, DepthRead,
}

/// Attachment load operations.
#[derive(Clone, Copy, Debug, PartialEq, Eq, Structural)]
pub enum AttachmentLoadOp {
    Load, Clear, Discard,
}

/// Attachment store operations.
#[derive(Clone, Copy, Debug, PartialEq, Eq, Structural)]
pub enum AttachmentStoreOp {
    Store, Discard,
}

/// Texture view types.
#[derive(Clone, Copy, Debug, PartialEq, Eq, Structural)]
pub enum TextureViewType {
    ShaderResource, RenderTarget, DepthStencil, UnorderedAccess,
}

/// Resource dimensions of texture views.
#[derive(Clone, Copy, Debug, PartialEq, Eq, Structural)]
pub enum ResourceDimension {
    Tex1D, Tex2D, Tex2DArray, Tex3D, TexCube, TexCubeArray,
}

/// Per-vertex or per-instance input frequency.
#[derive(Clone, Copy, Debug, PartialEq, Eq, Structural)]
pub enum InputElementFrequency {
    PerVertex, PerInstance,
}

/// State of an asynchronously created pipeline state object.
#[derive(Clone, Copy, Debug, PartialEq, Eq, Structural)]
pub enum PipelineStateStatus {
    Uninitialized, Compiling, Ready, Failed,
}

/// State of a device feature.
#[derive(Clone, Copy, Debug, PartialEq, Eq, Structural)]
pub enum DeviceFeatureState {
    Disabled, Enabled, Optional,
}

/// Engine device types.
#[derive(Clone, Copy, Debug, PartialEq, Eq, Structural)]
pub enum RenderDeviceType {
    Undefined, D3D11, D3D12, Gl, Gles, Vulkan, Metal, WebGpu,
}

} // verus!
