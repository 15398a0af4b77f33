//! Textures: the properties the renderer reads of a texture format, the
//! engine view a texture view becomes, and the layout of a texture upload.

use crate::diligent_types as dil;
use crate::descriptors::{object_name, object_name_spec};
use crate::gpu_types as gpu;
use crate::mapping::{texture_bind_flags_spec, texture_usage_to_bind_flags};
use vstd::prelude::*;
use wgpu_types::TextureFormat;

verus! {

/// The texture formats of the graphics API.
#[verifier::external_type_specification]
#[verifier::external_body]
pub struct ExTextureFormat(wgpu_types::TextureFormat);

/// The block dimensions (width, height) of a format: what
/// `TextureFormat::block_dimensions` returns for it.
pub uninterp spec fn block_dimensions_of(format: TextureFormat) -> (u32, u32);

/// The copy size in bytes of a block of a format, no aspect given: what
/// `TextureFormat::block_copy_size(None)` returns for it.
pub uninterp spec fn block_copy_size_of(format: TextureFormat) -> Option<u32>;

/// Whether a format is a depth and/or stencil format: what
/// `TextureFormat::is_depth_stencil_format` returns for it.
pub uninterp spec fn depth_stencil_format(format: TextureFormat) -> bool;

/// Calls `TextureFormat::block_dimensions`. Its source gives (1, 1) for the
/// uncompressed formats and sizes from 4 to 12 texels for the compressed
/// ones, so both dimensions are between 1 and 12.
#[verifier::external_body]
fn format_block_dimensions(format: TextureFormat) -> (r: (u32, u32))
    ensures
        r == block_dimensions_of(format),
        1 <= r.0 <= 12,
        1 <= r.1 <= 12,
{
    format.block_dimensions()
}

/// Calls `TextureFormat::block_copy_size` with no aspect. Its source gives
/// block sizes between 1 and 16 bytes, and `None` for the formats without a
/// single copy size (combined depth-stencil, multi-planar, `Depth24Plus`).
#[verifier::external_body]
fn format_block_copy_size(format: TextureFormat) -> (r: Option<u32>)
    ensures
        r == block_copy_size_of(format),
        r matches Some(n) ==> 1 <= n <= 16,
{
    format.block_copy_size(None)
}

/// Calls `TextureFormat::is_depth_stencil_format`: whether the format has a
/// depth or stencil channel.
#[verifier::external_body]
fn format_is_depth_stencil(format: TextureFormat) -> (r: bool)
    ensures
        r == depth_stencil_format(format),
{
    format.is_depth_stencil_format()
}

/// The dimension of a texture.
#[derive(Clone, Copy, Debug, PartialEq, Eq, Structural)]
pub enum TextureDimension {
    D1,
    D2,
    D3,
}

/// The size of a texture.
#[derive(Clone, Copy, Debug, PartialEq, Eq, Structural)]
pub struct Extent3d {
    pub width: u32,
    pub height: u32,
    pub depth_or_array_layers: u32,
}

/// A texture as the renderer sees it: id, format, size, dimension, mip and
/// sample counts, usages and the engine bind flags it was created with.
#[derive(Clone, Copy, Debug)]
pub struct Texture {
    pub id: u32,
    pub format: TextureFormat,
    pub size: Extent3d,
    pub dimension: TextureDimension,
    pub mip_level_count: u32,
    pub sample_count: u32,
    pub usage: gpu::TextureUsages,
    pub bind_flags: dil::BindFlags,
}

impl Texture {
    /// The id of the texture.
    pub fn id(&self) -> (r: u32)
        ensures
            r == self.id,
    {
        self.id
    }

    /// The format of the texture.
    pub fn format(&self) -> (r: TextureFormat)
        ensures
            r == self.format,
    {
        self.format
    }

    /// The dimension of the texture.
    pub fn dimension(&self) -> (r: TextureDimension)
        ensures
            r == self.dimension,
    {
        self.dimension
    }

    /// The size of the texture.
    pub fn size(&self) -> (r: Extent3d)
        ensures
            r == self.size,
    {
        self.size
    }

    /// The number of mip levels.
    pub fn mip_level_count(&self) -> (r: u32)
        ensures
            r == self.mip_level_count,
    {
        self.mip_level_count
    }

    /// The sample count.
    pub fn sample_count(&self) -> (r: u32)
        ensures
            r == self.sample_count,
    {
        self.sample_count
    }

    /// The usages the texture was created with.
    pub fn usage(&self) -> (r: gpu::TextureUsages)
        ensures
            r == self.usage,
    {
        self.usage
    }

    /// The width of the texture.
    pub fn width(&self) -> (r: u32)
        ensures
            r == self.size.width,
    {
        self.size.width
    }

    /// The height of the texture.
    pub fn height(&self) -> (r: u32)
        ensures
            r == self.size.height,
    {
        self.size.height
    }

    /// The depth or number of layers of the texture.
    pub fn depth_or_array_layers(&self) -> (r: u32)
        ensures
            r == self.size.depth_or_array_layers,
    {
        self.size.depth_or_array_layers
    }

    /// The number of layers of the texture.
    pub fn array_layer_count(&self) -> (r: u32)
        ensures
            r == self.size.depth_or_array_layers,
    {
        self.size.depth_or_array_layers
    }
}

/// The engine view type a texture's views get, from the texture's bind
/// flags: shader resource first, then unordered access, then render target
/// (never on a depth format), then depth-stencil, else shader resource.
pub open spec fn view_type_spec(bind_flags: u32, is_depth: bool) -> dil::TextureViewType {
    if bind_flags & dil::BIND_SHADER_RESOURCE != 0 {
        dil::TextureViewType::ShaderResource
    } else if bind_flags & dil::BIND_UNORDERED_ACCESS != 0 {
        dil::TextureViewType::UnorderedAccess
    } else if !is_depth && bind_flags & dil::BIND_RENDER_TARGET != 0 {
        dil::TextureViewType::RenderTarget
    } else if bind_flags & dil::BIND_DEPTH_STENCIL != 0 {
        dil::TextureViewType::DepthStencil
    } else {
        dil::TextureViewType::ShaderResource
    }
}

/// A view of a depth or stencil texture is never a render-target view,
/// whatever its bind flags.
pub proof fn lemma_depth_views_are_never_render_targets(bind_flags: u32)
    ensures
        view_type_spec(bind_flags, true) != dil::TextureViewType::RenderTarget,
{
}

/// The engine view type for bind flags and depth-ness.
pub fn view_type(bind_flags: u32, is_depth: bool) -> (t: dil::TextureViewType)
    ensures
        t == view_type_spec(bind_flags, is_depth),
{
    if bind_flags & dil::BIND_SHADER_RESOURCE != 0 {
        dil::TextureViewType::ShaderResource
    } else if bind_flags & dil::BIND_UNORDERED_ACCESS != 0 {
        dil::TextureViewType::UnorderedAccess
    } else if !is_depth && bind_flags & dil::BIND_RENDER_TARGET != 0 {
        dil::TextureViewType::RenderTarget
    } else if bind_flags & dil::BIND_DEPTH_STENCIL != 0 {
        dil::TextureViewType::DepthStencil
    } else {
        dil::TextureViewType::ShaderResource
    }
}

/// The engine resource dimension of a view dimension (2D when none is
/// given).
pub open spec fn view_dimension_spec(dimension: Option<gpu::TextureViewDimension>) -> dil::ResourceDimension {
    match dimension {
        Some(gpu::TextureViewDimension::D1) => dil::ResourceDimension::Tex1D,
        Some(gpu::TextureViewDimension::D2Array) => dil::ResourceDimension::Tex2DArray,
        Some(gpu::TextureViewDimension::Cube) => dil::ResourceDimension::TexCube,
        Some(gpu::TextureViewDimension::CubeArray) => dil::ResourceDimension::TexCubeArray,
        Some(gpu::TextureViewDimension::D3) => dil::ResourceDimension::Tex3D,
        _ => dil::ResourceDimension::Tex2D,
    }
}

/// The number of coordinates that address a texel of a view dimension
/// (cube faces are addressed in two), whether it holds layers and whether
/// it is a cube (2D when none is given).
pub open spec fn view_shape(dimension: Option<gpu::TextureViewDimension>) -> (int, bool, bool) {
    match dimension {
        Some(gpu::TextureViewDimension::D1) => (1, false, false),
        None | Some(gpu::TextureViewDimension::D2) => (2, false, false),
        Some(gpu::TextureViewDimension::D2Array) => (2, true, false),
        Some(gpu::TextureViewDimension::Cube) => (2, false, true),
        Some(gpu::TextureViewDimension::CubeArray) => (2, true, true),
        Some(gpu::TextureViewDimension::D3) => (3, false, false),
    }
}

/// The same three traits of an engine resource dimension.
pub open spec fn resource_shape(dim: dil::ResourceDimension) -> (int, bool, bool) {
    match dim {
        dil::ResourceDimension::Tex1D => (1, false, false),
        dil::ResourceDimension::Tex2D => (2, false, false),
        dil::ResourceDimension::Tex2DArray => (2, true, false),
        dil::ResourceDimension::TexCube => (2, false, true),
        dil::ResourceDimension::TexCubeArray => (2, true, true),
        dil::ResourceDimension::Tex3D => (3, false, false),
    }
}

/// A view keeps the shape it was asked for: its engine dimension has the
/// requested number of coordinates, layering and cube-ness, so distinct
/// requested dimensions (none counting as 2D) give distinct engine
/// dimensions.
pub proof fn lemma_view_dimension_keeps_shape(
    a: Option<gpu::TextureViewDimension>,
    b: Option<gpu::TextureViewDimension>,
)
    ensures
        resource_shape(view_dimension_spec(a)) == view_shape(a),
        view_dimension_spec(a) == view_dimension_spec(b) ==> view_shape(a) == view_shape(b),
        view_dimension_spec(a) == view_dimension_spec(b) && a is Some && b is Some ==> a == b,
{
}

/// A texture view descriptor, the format override already resolved to an
/// engine format. Counts of `None` mean "the rest".
#[derive(Clone, Copy, Debug, PartialEq, Eq, Structural)]
pub struct ViewDescriptor {
    pub format: Option<u32>,
    pub dimension: Option<gpu::TextureViewDimension>,
    pub base_mip_level: u32,
    pub mip_level_count: Option<u32>,
    pub base_array_layer: u32,
    pub array_layer_count: Option<u32>,
}

/// The engine view of a texture view; counts of 0 mean "the rest".
#[derive(Clone, Copy, Debug, PartialEq, Eq, Structural)]
pub struct TextureViewPlan {
    pub view_type: dil::TextureViewType,
    pub format: Option<u32>,
    pub texture_dim: dil::ResourceDimension,
    pub most_detailed_mip: u32,
    pub num_mip_levels: u32,
    pub first_array_slice: u32,
    pub num_array_slices: u32,
}

/// The engine view of a view of `texture`: its type from the texture's
/// bind flags and whether its format is a depth-stencil format, its
/// dimension, format override and sub-resource range from the descriptor.
pub fn texture_view_plan(texture: &Texture, desc: &ViewDescriptor) -> (p: TextureViewPlan)
    ensures
        p == (TextureViewPlan {
            view_type: view_type_spec(texture.bind_flags, depth_stencil_format(texture.format)),
            format: desc.format,
            texture_dim: view_dimension_spec(desc.dimension),
            most_detailed_mip: desc.base_mip_level,
            num_mip_levels: match desc.mip_level_count { Some(n) => n, None => 0 },
            first_array_slice: desc.base_array_layer,
            num_array_slices: match desc.array_layer_count { Some(n) => n, None => 0 },
        }),
        resource_shape(p.texture_dim) == view_shape(desc.dimension),
        desc.dimension is None ==> p.texture_dim == dil::ResourceDimension::Tex2D,
        desc.dimension == Some(gpu::TextureViewDimension::D1) ==> p.texture_dim == dil::ResourceDimension::Tex1D,
        desc.dimension == Some(gpu::TextureViewDimension::D2) ==> p.texture_dim == dil::ResourceDimension::Tex2D,
        desc.dimension == Some(gpu::TextureViewDimension::D2Array) ==> p.texture_dim == dil::ResourceDimension::Tex2DArray,
        desc.dimension == Some(gpu::TextureViewDimension::Cube) ==> p.texture_dim == dil::ResourceDimension::TexCube,
        desc.dimension == Some(gpu::TextureViewDimension::CubeArray) ==> p.texture_dim == dil::ResourceDimension::TexCubeArray,
        desc.dimension == Some(gpu::TextureViewDimension::D3) ==> p.texture_dim == dil::ResourceDimension::Tex3D,
{
    proof { lemma_view_dimension_keeps_shape(desc.dimension, desc.dimension); }
    let is_depth = format_is_depth_stencil(texture.format);
    let texture_dim = match desc.dimension {
        Some(gpu::TextureViewDimension::D1) => dil::ResourceDimension::Tex1D,
        Some(gpu::TextureViewDimension::D2Array) => dil::ResourceDimension::Tex2DArray,
        Some(gpu::TextureViewDimension::Cube) => dil::ResourceDimension::TexCube,
        Some(gpu::TextureViewDimension::CubeArray) => dil::ResourceDimension::TexCubeArray,
        Some(gpu::TextureViewDimension::D3) => dil::ResourceDimension::Tex3D,
        _ => dil::ResourceDimension::Tex2D,
    };
    TextureViewPlan {
        view_type: view_type(texture.bind_flags, is_depth),
        format: desc.format,
        texture_dim,
        most_detailed_mip: desc.base_mip_level,
        num_mip_levels: match desc.mip_level_count { Some(n) => n, None => 0 },
        first_array_slice: desc.base_array_layer,
        num_array_slices: match desc.array_layer_count { Some(n) => n, None => 0 },
    }
}

/// A texel origin.
#[derive(Clone, Copy, Debug, PartialEq, Eq, Structural)]
pub struct Origin3d {
    pub x: u32,
    pub y: u32,
    pub z: u32,
}

/// The layout of source data in a texture upload: the bytes per row and
/// rows per image, when given.
#[derive(Clone, Copy, Debug, PartialEq, Eq, Structural)]
pub struct DataLayout {
    pub bytes_per_row: Option<u32>,
    pub rows_per_image: Option<u32>,
}

/// How an upload writes a texture: the source row and depth strides, the
/// destination box (min inclusive, max exclusive) and array slice.
#[derive(Clone, Copy, Debug, PartialEq, Eq, Structural)]
pub struct UploadLayout {
    pub stride: u64,
    pub depth_stride: u64,
    pub min: Origin3d,
    pub max: Origin3d,
    pub slice: u32,
}

/// `ceil(a / b)` for a positive `b`.
pub open spec fn div_ceil(a: int, b: int) -> int {
    (a + b - 1) / b
}

/// The row stride of an upload: the given bytes per row, or the size of a
/// row of blocks (0 per block for a format without a single block size).
pub open spec fn row_bytes_spec(format: TextureFormat, layout: DataLayout, width: u32) -> int {
    match layout.bytes_per_row {
        Some(b) => b as int,
        None => div_ceil(width as int, block_dimensions_of(format).0 as int)
            * match block_copy_size_of(format) { Some(n) => n as int, None => 0 },
    }
}

/// Whether `r` lays out the upload of `size` texels at `origin`: the row
/// stride, the depth stride (rows per image, or block rows, times the row
/// stride), and the destination box and array slice.
pub open spec fn lays_out(r: UploadLayout, format: TextureFormat, dimension: TextureDimension, origin: Origin3d, layout: DataLayout, size: Extent3d) -> bool {
    &&& r.stride == row_bytes_spec(format, layout, size.width)
    &&& r.depth_stride == match layout.rows_per_image {
        Some(rows) => rows * row_bytes_spec(format, layout, size.width),
        None => div_ceil(size.height as int, block_dimensions_of(format).1 as int) * row_bytes_spec(format, layout, size.width),
    }
    &&& r.min.x == origin.x && r.min.y == origin.y
    &&& r.max.x == origin.x + size.width && r.max.y == origin.y + size.height
    &&& dimension == TextureDimension::D3 ==> r.min.z == origin.z && r.max.z == origin.z + size.depth_or_array_layers && r.slice == 0
    &&& dimension != TextureDimension::D3 ==> r.min.z == 0 && r.max.z == 1 && r.slice == origin.z
}

/// Lays out the upload of `size` texels at `origin` of a texture of
/// `format` and `dimension`: a 3D texture takes the depth as the box's
/// depth range, other textures take the origin's z as the array slice.
pub fn upload_layout(format: TextureFormat, dimension: TextureDimension, origin: Origin3d, layout: DataLayout, size: Extent3d) -> (r: UploadLayout)
    requires
        origin.x + size.width <= u32::MAX,
        origin.y + size.height <= u32::MAX,
        dimension == TextureDimension::D3 ==> origin.z + size.depth_or_array_layers <= u32::MAX,
        layout.bytes_per_row is None ==> row_bytes_spec(format, layout, size.width) <= u32::MAX,
    ensures
        lays_out(r, format, dimension, origin, layout, size),
{
    let (block_width, block_height) = format_block_dimensions(format);
    let bytes_per_block: u32 = match format_block_copy_size(format) {
        Some(n) => n,
        None => 0,
    };
    let q_w = size.width / block_width;
    let e_w: u32 = if size.width % block_width != 0 { 1u32 } else { 0u32 };
    assert(q_w + e_w <= u32::MAX) by (nonlinear_arith)
        requires
            block_width >= 1,
            q_w == size.width / block_width,
            e_w == (if size.width % block_width != 0 { 1u32 } else { 0u32 }),
    ;
    let blocks_per_row: u32 = q_w + e_w;
    proof {
        assert(blocks_per_row as int == div_ceil(size.width as int, block_width as int)) by (nonlinear_arith)
            requires
                block_width >= 1,
                blocks_per_row as int == size.width as int / block_width as int + (if size.width as int % block_width as int != 0 { 1int } else { 0int }),
        ;
    }
    let row_bytes: u64 = match layout.bytes_per_row {
        Some(b) => b as u64,
        None => {
            assert(blocks_per_row as int * bytes_per_block as int <= u32::MAX);
            (blocks_per_row * bytes_per_block) as u64
        },
    };
    let q_h = size.height / block_height;
    let e_h: u32 = if size.height % block_height != 0 { 1u32 } else { 0u32 };
    assert(q_h + e_h <= u32::MAX) by (nonlinear_arith)
        requires
            block_height >= 1,
            q_h == size.height / block_height,
            e_h == (if size.height % block_height != 0 { 1u32 } else { 0u32 }),
    ;
    let rows: u64 = (q_h + e_h) as u64;
    proof {
        assert(rows as int == div_ceil(size.height as int, block_height as int)) by (nonlinear_arith)
            requires
                block_height >= 1,
                rows as int == size.height as int / block_height as int + (if size.height as int % block_height as int != 0 { 1int } else { 0int }),
        ;
    }
    assert(row_bytes <= u32::MAX);
    let depth_stride: u64 = match layout.rows_per_image {
        Some(r) => {
            assert(r as u64 * row_bytes <= u64::MAX) by (nonlinear_arith)
                requires
                    r <= u32::MAX,
                    row_bytes <= u32::MAX,
            ;
            r as u64 * row_bytes
        },
        None => {
            assert(rows * row_bytes <= u64::MAX) by (nonlinear_arith)
                requires
                    rows <= u32::MAX,
                    row_bytes <= u32::MAX,
            ;
            rows * row_bytes
        },
    };
    let (min_z, max_z, slice) = match dimension {
        TextureDimension::D3 => (origin.z, origin.z + size.depth_or_array_layers, 0u32),
        _ => (0u32, 1u32, origin.z),
    };
    UploadLayout {
        stride: row_bytes,
        depth_stride,
        min: Origin3d { x: origin.x, y: origin.y, z: min_z },
        max: Origin3d { x: origin.x + size.width, y: origin.y + size.height, z: max_z },
        slice,
    }
}

/// Whether an upload can be laid out: the destination box and, when the
/// row stride is not given, the size of a row of blocks fit in 32 bits.
pub open spec fn upload_fits(format: TextureFormat, dimension: TextureDimension, origin: Origin3d, layout: DataLayout, size: Extent3d) -> bool {
    &&& origin.x + size.width <= u32::MAX
    &&& origin.y + size.height <= u32::MAX
    &&& dimension == TextureDimension::D3 ==> origin.z + size.depth_or_array_layers <= u32::MAX
    &&& layout.bytes_per_row is None ==> row_bytes_spec(format, layout, size.width) <= u32::MAX
}

/// The layout of an upload (see `upload_layout`), or `None` when it does not
/// fit in 32 bits (see `upload_fits`).
pub fn checked_upload_layout(format: TextureFormat, dimension: TextureDimension, origin: Origin3d, layout: DataLayout, size: Extent3d) -> (r: Option<UploadLayout>)
    ensures
        upload_fits(format, dimension, origin, layout, size) ==> (r matches Some(l) && lays_out(l, format, dimension, origin, layout, size)),
        !upload_fits(format, dimension, origin, layout, size) ==> r is None,
{
    if origin.x.checked_add(size.width).is_none() || origin.y.checked_add(size.height).is_none() {
        return None;
    }
    match dimension {
        TextureDimension::D3 => if origin.z.checked_add(size.depth_or_array_layers).is_none() {
            return None;
        },
        _ => {},
    }
    if layout.bytes_per_row.is_none() {
        let (block_width, _) = format_block_dimensions(format);
        let bytes_per_block: u64 = match format_block_copy_size(format) {
            Some(n) => n as u64,
            None => 0,
        };
        let q_w = size.width / block_width;
        let e_w: u32 = if size.width % block_width != 0 { 1u32 } else { 0u32 };
        assert(q_w + e_w <= u32::MAX) by (nonlinear_arith)
            requires
                block_width >= 1,
                q_w == size.width / block_width,
                e_w == (if size.width % block_width != 0 { 1u32 } else { 0u32 }),
        ;
        let blocks_per_row: u64 = (q_w + e_w) as u64;
        proof {
            assert(blocks_per_row as int == div_ceil(size.width as int, block_width as int)) by (nonlinear_arith)
                requires
                    block_width >= 1,
                    blocks_per_row as int == size.width as int / block_width as int + (if size.width as int % block_width as int != 0 { 1int } else { 0int }),
            ;
            assert(blocks_per_row * bytes_per_block <= u64::MAX) by (nonlinear_arith)
                requires
                    blocks_per_row <= u32::MAX,
                    bytes_per_block <= 16,
            ;
        }
        if blocks_per_row * bytes_per_block > u32::MAX as u64 {
            return None;
        }
    }
    Some(upload_layout(format, dimension, origin, layout, size))
}

/// Whether a texture can be created with its data: only when it has a
/// single mip level and a single layer.
pub fn initial_data_fits(mip_level_count: u32, depth_or_array_layers: u32) -> (r: bool)
    ensures
        r == (mip_level_count == 1 && depth_or_array_layers <= 1),
{
    mip_level_count == 1 && depth_or_array_layers <= 1
}

/// The engine description of a texture.
#[derive(Clone, Debug)]
pub struct TextureDesc {
    pub name: String,
    pub size: Extent3d,
    pub mip_levels: u32,
    pub bind_flags: dil::BindFlags,
    pub usage: dil::Usage,
    pub sample_count: u32,
}

/// The bind flags of a texture: those of its usages, without the render
/// target flag on a depth-stencil format and without the depth-stencil flag
/// on any other format.
pub open spec fn texture_desc_bind_flags(format: TextureFormat, usage: gpu::TextureUsages) -> u32 {
    if depth_stencil_format(format) {
        texture_bind_flags_spec(usage) & !dil::BIND_RENDER_TARGET
    } else {
        texture_bind_flags_spec(usage) & !dil::BIND_DEPTH_STENCIL
    }
}

/// The engine description of a texture: named after its label, with the
/// bind flags of `texture_desc_bind_flags`; created with data it is
/// immutable with one mip level, else of default usage with all its mip
/// levels.
pub fn texture_desc(
    label: Option<&str>,
    format: TextureFormat,
    size: Extent3d,
    mip_level_count: u32,
    sample_count: u32,
    usage: gpu::TextureUsages,
    has_initial_data: bool,
) -> (d: TextureDesc)
    ensures
        d.name@ == object_name_spec(
            match label {
                Some(l) => Some(l@),
                None => None,
            },
            "texture"@,
        ),
        d.size == size,
        d.bind_flags == texture_desc_bind_flags(format, usage),
        d.usage == if has_initial_data { dil::Usage::Immutable } else { dil::Usage::Default },
        d.mip_levels == if has_initial_data { 1 } else { mip_level_count },
        d.sample_count == sample_count,
{
    let flags = texture_usage_to_bind_flags(usage);
    let bind_flags = if format_is_depth_stencil(format) {
        flags & !dil::BIND_RENDER_TARGET
    } else {
        flags & !dil::BIND_DEPTH_STENCIL
    };
    let (engine_usage, mip_levels) = if has_initial_data {
        (dil::Usage::Immutable, 1u32)
    } else {
        (dil::Usage::Default, mip_level_count)
    };
    TextureDesc {
        name: object_name(label, "texture"),
        size,
        mip_levels,
        bind_flags,
        usage: engine_usage,
        sample_count,
    }
}

} // verus!
