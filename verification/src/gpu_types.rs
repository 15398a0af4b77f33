//! The descriptor vocabulary the renderer consumes: flag sets as their raw
//! bits and the enumerations of the GPU API, each variant named as in the
//! API it mirrors.

use vstd::prelude::*;

verus! {

/// Bits of a buffer usage set.
pub type BufferUsages = u32;
/// Allows a buffer to be mapped for reading.
pub const BUFFER_USAGE_MAP_READ: u32 = 1;
/// Allows a buffer to be mapped for writing.
pub const BUFFER_USAGE_MAP_WRITE: u32 = 2;
/// Allows a buffer to be the source of a copy.
pub const BUFFER_USAGE_COPY_SRC: u32 = 4;
/// Allows a buffer to be the destination of a copy.
pub const BUFFER_USAGE_COPY_DST: u32 = 8;
/// Allows a buffer to be an index buffer.
pub const BUFFER_USAGE_INDEX: u32 = 16;
/// Allows a buffer to be a vertex buffer.
pub const BUFFER_USAGE_VERTEX: u32 = 32;
/// Allows a buffer to be a uniform buffer.
pub const BUFFER_USAGE_UNIFORM: u32 = 64;
/// Allows a buffer to be a storage buffer.
pub const BUFFER_USAGE_STORAGE: u32 = 128;
/// Allows a buffer to hold indirect draw or dispatch arguments.
pub const BUFFER_USAGE_INDIRECT: u32 = 256;
/// Allows a buffer to receive resolved queries.
pub const BUFFER_USAGE_QUERY_RESOLVE: u32 = 512;
/// Allows a buffer to be an input of a bottom level acceleration structure build.
pub const BUFFER_USAGE_BLAS_INPUT: u32 = 1024;
/// Allows a buffer to be an input of a top level acceleration structure build.
pub const BUFFER_USAGE_TLAS_INPUT: u32 = 2048;

/// Bits of a texture usage set.
pub type TextureUsages = u32;
/// Allows a texture to be the source of a copy.
pub const TEXTURE_USAGE_COPY_SRC: u32 = 1;
/// Allows a texture to be the destination of a copy.
pub const TEXTURE_USAGE_COPY_DST: u32 = 2;
/// Allows a texture to be sampled in a shader.
pub const TEXTURE_USAGE_TEXTURE_BINDING: u32 = 4;
/// Allows a texture to be a storage texture.
pub const TEXTURE_USAGE_STORAGE_BINDING: u32 = 8;
/// Allows a texture to be a color or depth-stencil attachment.
pub const TEXTURE_USAGE_RENDER_ATTACHMENT: u32 = 16;

/// Bits of a shader stage visibility set.
pub type ShaderStages = u32;
/// The vertex stage.
pub const SHADER_STAGE_VERTEX: u32 = 1;
/// The fragment stage.
pub const SHADER_STAGE_FRAGMENT: u32 = 2;
/// The compute stage.
pub const SHADER_STAGE_COMPUTE: u32 = 4;
/// The vertex and fragment stages.
pub const SHADER_STAGE_VERTEX_FRAGMENT: u32 = 3;

/// Bits of a color write mask.
pub type ColorWrites = u32;
/// Writes the red channel.
pub const COLOR_WRITE_RED: u32 = 1;
/// Writes the green channel.
pub const COLOR_WRITE_GREEN: u32 = 2;
/// Writes the blue channel.
pub const COLOR_WRITE_BLUE: u32 = 4;
/// Writes the alpha channel.
pub const COLOR_WRITE_ALPHA: u32 = 8;
/// Writes the red, green and blue channels.
pub const COLOR_WRITE_COLOR: u32 = 7;
/// Writes every channel.
pub const COLOR_WRITE_ALL: u32 = 15;

/// The required row alignment, in bytes, of a buffer-texture copy.
pub const COPY_BYTES_PER_ROW_ALIGNMENT: u32 = 256;

/// Whether every bit of `flags` is set in `bits`.
pub open spec fn has_all(bits: u32, flags: u32) -> bool {
    bits & flags == flags
}

/// Whether some bit of `flags` is set in `bits`.
pub open spec fn has_any(bits: u32, flags: u32) -> bool {
    bits & flags != 0
}

/// Vertex attribute formats.
#[derive(Clone, Copy, Debug, PartialEq, Eq, Structural)]
pub enum VertexFormat {
    Uint8, Uint8x2, Uint8x4, Sint8, Sint8x2, Sint8x4,
    Unorm8, Unorm8x2, Unorm8x4, Snorm8, Snorm8x2, Snorm8x4,
    Uint16, Uint16x2, Uint16x4, Sint16, Sint16x2, Sint16x4,
    Unorm16, Unorm16x2, Unorm16x4, Snorm16, Snorm16x2, Snorm16x4,
    Float16, Float16x2, Float16x4,
    Float32, Float32x2, Float32x3, Float32x4,
    Uint32, Uint32x2, Uint32x3, Uint32x4,
    Sint32, Sint32x2, Sint32x3, Sint32x4,
    Float64, Float64x2, Float64x3, Float64x4,
    Unorm10_10_10_2, Unorm8x4Bgra,
}

/// Comparison functions for depth and stencil tests and comparison samplers.
#[derive(Clone, Copy, Debug, PartialEq, Eq, Structural)]
pub enum CompareFunction {
    Never, Less, Equal, LessEqual, Greater, NotEqual, GreaterEqual, Always,
}

/// Texture coordinate addressing outside `[0, 1]`.
#[derive(Clone, Copy, Debug, PartialEq, Eq, Structural)]
pub enum AddressMode {
    ClampToEdge, Repeat, MirrorRepeat, ClampToBorder,
}

/// Texel filtering.
#[derive(Clone, Copy, Debug, PartialEq, Eq, Structural)]
pub enum FilterMode {
    Nearest, Linear,
}

/// Blend factors.
#[derive(Clone, Copy, Debug, PartialEq, Eq, Structural)]
pub enum BlendFactor {
    Zero, One, Src, OneMinusSrc, SrcAlpha, OneMinusSrcAlpha, Dst, OneMinusDst,
    DstAlpha, OneMinusDstAlpha, SrcAlphaSaturated, Constant, OneMinusConstant,
    Src1, OneMinusSrc1, Src1Alpha, OneMinusSrc1Alpha,
}

/// Blend operations.
#[derive(Clone, Copy, Debug, PartialEq, Eq, Structural)]
pub enum BlendOperation {
    Add, Subtract, ReverseSubtract, Min, Max,
}

/// Stencil operations.
#[derive(Clone, Copy, Debug, PartialEq, Eq, Structural)]
pub enum StencilOperation {
    Keep, Zero, Replace, Invert, IncrementClamp, DecrementClamp, IncrementWrap, DecrementWrap,
}

/// Primitive topologies.
#[derive(Clone, Copy, Debug, PartialEq, Eq, Structural)]
pub enum PrimitiveTopology {
    PointList, LineList, LineStrip, TriangleList, TriangleStrip,
}

/// Polygon rasterization modes.
#[derive(Clone, Copy, Debug, PartialEq, Eq, Structural)]
pub enum PolygonMode {
    Fill, Line, Point,
}

/// Polygon faces.
#[derive(Clone, Copy, Debug, PartialEq, Eq, Structural)]
pub enum Face {
    Front, Back,
}

/// Winding order of front-facing polygons.
#[derive(Clone, Copy, Debug, PartialEq, Eq, Structural)]
pub enum FrontFace {
    Ccw, Cw,
}

/// Index element formats.
#[derive(Clone, Copy, Debug, PartialEq, Eq, Structural)]
pub enum IndexFormat {
    Uint16, Uint32,
}

/// How often a vertex buffer advances.
#[derive(Clone, Copy, Debug, PartialEq, Eq, Structural)]
pub enum VertexStepMode {
    Vertex, Instance,
}

/// Shader stages of a shader module's entry points.
#[derive(Clone, Copy, Debug, PartialEq, Eq, Structural)]
pub enum PipelineStage {
    Vertex, Task, Mesh, Fragment, Compute, RayGeneration, Miss, AnyHit, ClosestHit,
}

/// The kind of a buffer binding.
#[derive(Clone, Copy, Debug, PartialEq, Eq, Structural)]
pub enum BufferBindingType {
    Uniform,
    Storage { read_only: bool },
}

/// The kind of a sampler binding.
#[derive(Clone, Copy, Debug, PartialEq, Eq, Structural)]
pub enum SamplerBindingType {
    Filtering, NonFiltering, Comparison,
}

/// The sample type of a texture binding.
#[derive(Clone, Copy, Debug, PartialEq, Eq, Structural)]
pub enum TextureSampleType {
    Float { filterable: bool },
    Depth,
    Sint,
    Uint,
}

/// Dimensions of a texture view.
#[derive(Clone, Copy, Debug, PartialEq, Eq, Structural)]
pub enum TextureViewDimension {
    D1, D2, D2Array, Cube, CubeArray, D3,
}

/// Access of a storage texture binding.
#[derive(Clone, Copy, Debug, PartialEq, Eq, Structural)]
pub enum StorageTextureAccess {
    WriteOnly, ReadOnly, ReadWrite, Atomic,
}

/// The resource kind of a bind group layout entry. The layout-level format
/// of a storage texture is not part of it: the view carries the format.
#[derive(Clone, Copy, Debug, PartialEq, Eq, Structural)]
pub enum BindingType {
    Buffer { ty: BufferBindingType, has_dynamic_offset: bool, min_binding_size: Option<u64> },
    Sampler(SamplerBindingType),
    Texture { sample_type: TextureSampleType, view_dimension: TextureViewDimension, multisampled: bool },
    StorageTexture { access: StorageTextureAccess, view_dimension: TextureViewDimension },
    AccelerationStructure { vertex_return: bool },
    ExternalTexture,
}

/// One entry of a bind group layout. `count` is the array size of an
/// arrayed binding; `None` is a single binding.
#[derive(Clone, Copy, Debug, PartialEq, Eq, Structural)]
pub struct BindGroupLayoutEntry {
    pub binding: u32,
    pub visibility: ShaderStages,
    pub ty: BindingType,
    pub count: Option<u32>,
}

impl BindGroupLayoutEntry {
    /// Whether this entry is a buffer binding with a dynamic offset.
    pub open spec fn is_dynamic_buffer(self) -> bool {
        self.ty matches BindingType::Buffer { has_dynamic_offset: true, .. }
    }
}

/// Presentation modes of a surface.
#[derive(Clone, Copy, Debug, PartialEq, Eq, Structural)]
pub enum PresentMode {
    AutoVsync, AutoNoVsync, Fifo, FifoRelaxed, Immediate, Mailbox,
}

/// What happens to an attachment at the start of a pass. The clear value
/// itself is not part of it.
#[derive(Clone, Copy, Debug, PartialEq, Eq, Structural)]
pub enum LoadOp {
    Clear, Load, DontCare,
}

/// What happens to an attachment at the end of a pass.
#[derive(Clone, Copy, Debug, PartialEq, Eq, Structural)]
pub enum StoreOp {
    Store, Discard,
}

/// Load and store operations of an attachment aspect.
#[derive(Clone, Copy, Debug, PartialEq, Eq, Structural)]
pub struct Operations {
    pub load: LoadOp,
    pub store: StoreOp,
}

} // verus!
