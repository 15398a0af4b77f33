use render_backend::diligent_types::{
    ResourceDimension, TextureViewType, BIND_DEPTH_STENCIL, BIND_RENDER_TARGET, BIND_SHADER_RESOURCE,
    BIND_UNORDERED_ACCESS,
};
use render_backend::gpu_types::TextureViewDimension;
use render_backend::texture::{
    texture_view_plan, upload_layout, view_type, DataLayout, Extent3d, Origin3d, Texture, TextureDimension,
    ViewDescriptor,
};
use wgpu_types::TextureFormat;

fn texture(format: TextureFormat, bind_flags: u32) -> Texture {
    Texture {
        id: 1,
        format,
        size: Extent3d { width: 64, height: 32, depth_or_array_layers: 6 },
        dimension: TextureDimension::D2,
        mip_level_count: 3,
        sample_count: 1,
        usage: 0,
        bind_flags,
    }
}

fn whole(dimension: Option<TextureViewDimension>) -> ViewDescriptor {
    ViewDescriptor {
        format: None,
        dimension,
        base_mip_level: 0,
        mip_level_count: None,
        base_array_layer: 0,
        array_layer_count: None,
    }
}

#[test]
fn view_type_prefers_shader_resource_then_uav_then_targets() {
    assert_eq!(view_type(BIND_SHADER_RESOURCE | BIND_RENDER_TARGET, false), TextureViewType::ShaderResource);
    assert_eq!(view_type(BIND_UNORDERED_ACCESS | BIND_RENDER_TARGET, false), TextureViewType::UnorderedAccess);
    assert_eq!(view_type(BIND_RENDER_TARGET | BIND_DEPTH_STENCIL, false), TextureViewType::RenderTarget);
    assert_eq!(view_type(BIND_RENDER_TARGET | BIND_DEPTH_STENCIL, true), TextureViewType::DepthStencil);
    assert_eq!(view_type(0, false), TextureViewType::ShaderResource);
}

#[test]
fn depth_textures_get_depth_stencil_views() {
    let depth = texture(TextureFormat::Depth32Float, BIND_RENDER_TARGET | BIND_DEPTH_STENCIL);
    let plan = texture_view_plan(&depth, &whole(None));
    assert_eq!(plan.view_type, TextureViewType::DepthStencil);
    assert_eq!(plan.texture_dim, ResourceDimension::Tex2D);
    let color = texture(TextureFormat::Rgba8Unorm, BIND_RENDER_TARGET | BIND_DEPTH_STENCIL);
    assert_eq!(texture_view_plan(&color, &whole(None)).view_type, TextureViewType::RenderTarget);
}

#[test]
fn view_plan_takes_the_descriptor_range() {
    let cube = texture(TextureFormat::Rgba16Float, BIND_SHADER_RESOURCE);
    let desc = ViewDescriptor {
        format: Some(91),
        dimension: Some(TextureViewDimension::Cube),
        base_mip_level: 1,
        mip_level_count: Some(2),
        base_array_layer: 0,
        array_layer_count: Some(6),
    };
    let plan = texture_view_plan(&cube, &desc);
    assert_eq!(plan.format, Some(91));
    assert_eq!(plan.texture_dim, ResourceDimension::TexCube);
    assert_eq!(plan.most_detailed_mip, 1);
    assert_eq!(plan.num_mip_levels, 2);
    assert_eq!(plan.num_array_slices, 6);
    let rest = texture_view_plan(&cube, &whole(Some(TextureViewDimension::D2Array)));
    assert_eq!(rest.num_mip_levels, 0);
    assert_eq!(rest.num_array_slices, 0);
    assert_eq!(rest.texture_dim, ResourceDimension::Tex2DArray);
}

#[test]
fn upload_layout_of_an_uncompressed_2d_layer() {
    let r = upload_layout(
        TextureFormat::Rgba8Unorm,
        TextureDimension::D2,
        Origin3d { x: 2, y: 3, z: 4 },
        DataLayout { bytes_per_row: None, rows_per_image: None },
        Extent3d { width: 10, height: 5, depth_or_array_layers: 1 },
    );
    assert_eq!(r.stride, 40);
    assert_eq!(r.depth_stride, 200);
    assert_eq!((r.min.x, r.min.y, r.min.z), (2, 3, 0));
    assert_eq!((r.max.x, r.max.y, r.max.z), (12, 8, 1));
    assert_eq!(r.slice, 4);
}

#[test]
fn upload_layout_of_compressed_blocks_and_3d_boxes() {
    // BC1 has 4x4 blocks of 8 bytes: 10 texels are 3 blocks.
    let r = upload_layout(
        TextureFormat::Bc1RgbaUnorm,
        TextureDimension::D3,
        Origin3d { x: 0, y: 0, z: 2 },
        DataLayout { bytes_per_row: None, rows_per_image: None },
        Extent3d { width: 10, height: 10, depth_or_array_layers: 3 },
    );
    assert_eq!(r.stride, 24);
    assert_eq!(r.depth_stride, 72);
    assert_eq!((r.min.z, r.max.z, r.slice), (2, 5, 0));

    let r = upload_layout(
        TextureFormat::R32Float,
        TextureDimension::D2,
        Origin3d { x: 0, y: 0, z: 0 },
        DataLayout { bytes_per_row: Some(256), rows_per_image: Some(8) },
        Extent3d { width: 4, height: 4, depth_or_array_layers: 1 },
    );
    assert_eq!(r.stride, 256);
    assert_eq!(r.depth_stride, 2048);
}

#[test]
fn texture_getters() {
    let t = texture(TextureFormat::Rgba8Unorm, BIND_SHADER_RESOURCE);
    assert_eq!(t.id(), 1);
    assert_eq!(t.format(), TextureFormat::Rgba8Unorm);
    assert_eq!(t.width(), 64);
    assert_eq!(t.height(), 32);
    assert_eq!(t.depth_or_array_layers(), 6);
    assert_eq!(t.array_layer_count(), 6);
    assert_eq!(t.mip_level_count(), 3);
    assert_eq!(t.sample_count(), 1);
    assert_eq!(t.dimension(), TextureDimension::D2);
    assert_eq!(t.size(), Extent3d { width: 64, height: 32, depth_or_array_layers: 6 });
    assert_eq!(t.usage(), 0);
}
