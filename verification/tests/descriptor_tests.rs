use render_backend::descriptors::{buffer_desc, object_name, sampler_desc, SamplerDesc, SamplerInput};
use render_backend::diligent_types::{ComparisonFunction, FilterType, TextureAddressMode, Usage};
use render_backend::gpu_types::{AddressMode, CompareFunction, FilterMode};
use render_backend::texture::{initial_data_fits, texture_desc, Extent3d};
use wgpu_types::TextureFormat;

#[test]
fn objects_are_named_after_their_label_or_kind() {
    assert_eq!(object_name(Some("shadow_map"), "texture"), "bevy_shadow_map");
    assert_eq!(object_name(None, "sampler"), "bevy_sampler");
}

#[test]
fn readback_buffers_are_staging_with_cpu_read() {
    // COPY_DST | MAP_READ
    let d = buffer_desc(Some("readback"), 256, 8 | 1, false);
    assert_eq!(d.name, "bevy_readback");
    assert_eq!(d.size, 256);
    assert_eq!(d.bind_flags, 0);
    assert_eq!(d.usage, Usage::Staging);
    assert_eq!(d.cpu_access, 1);
}

#[test]
fn buffers_with_data_are_immutable_without_cpu_access() {
    // MAP_WRITE | VERTEX, created with data
    let d = buffer_desc(None, 64, 2 | 32, true);
    assert_eq!(d.name, "bevy_buffer");
    assert_eq!(d.bind_flags, 1);
    assert_eq!(d.usage, Usage::Immutable);
    assert_eq!(d.cpu_access, 0);
    // UNIFORM | COPY_DST
    let d = buffer_desc(None, 64, 64 | 8, false);
    assert_eq!((d.bind_flags, d.usage, d.cpu_access), (4, Usage::Default, 0));
}

#[test]
fn attachment_textures_keep_only_the_flag_of_their_format() {
    let size = Extent3d { width: 64, height: 32, depth_or_array_layers: 1 };
    // TEXTURE_BINDING | RENDER_ATTACHMENT
    let color = texture_desc(Some("main"), TextureFormat::Rgba8Unorm, size, 4, 1, 4 | 16, false);
    assert_eq!(color.name, "bevy_main");
    assert_eq!(color.bind_flags, 8 | 32);
    assert_eq!((color.usage, color.mip_levels, color.sample_count), (Usage::Default, 4, 1));
    let depth = texture_desc(None, TextureFormat::Depth32Float, size, 1, 4, 4 | 16, false);
    assert_eq!(depth.name, "bevy_texture");
    assert_eq!(depth.bind_flags, 8 | 64);
    assert_eq!(depth.sample_count, 4);
    let with_data = texture_desc(None, TextureFormat::Rgba8Unorm, size, 3, 1, 4, true);
    assert_eq!((with_data.usage, with_data.mip_levels), (Usage::Immutable, 1));
}

#[test]
fn only_single_subresource_textures_take_initial_data() {
    assert!(initial_data_fits(1, 1));
    assert!(initial_data_fits(1, 0));
    assert!(!initial_data_fits(2, 1));
    assert!(!initial_data_fits(1, 6));
}

#[test]
fn samplers_compare_and_filter_anisotropically() {
    let input = SamplerInput {
        address_mode_u: AddressMode::ClampToEdge,
        address_mode_v: AddressMode::Repeat,
        address_mode_w: AddressMode::MirrorRepeat,
        mag_filter: FilterMode::Linear,
        min_filter: FilterMode::Nearest,
        mipmap_filter: FilterMode::Linear,
        compare: Some(CompareFunction::LessEqual),
        anisotropy_clamp: 16,
    };
    assert_eq!(
        sampler_desc(&input),
        SamplerDesc {
            min_filter: FilterType::ComparisonPoint,
            mag_filter: FilterType::ComparisonAnisotropic,
            mip_filter: FilterType::ComparisonAnisotropic,
            address_u: TextureAddressMode::Clamp,
            address_v: TextureAddressMode::Wrap,
            address_w: TextureAddressMode::Mirror,
            comparison: Some(ComparisonFunction::LessEqual),
            max_anisotropy: 16,
        }
    );
    let plain = SamplerInput { compare: None, anisotropy_clamp: 1, ..input };
    let d = sampler_desc(&plain);
    assert_eq!((d.min_filter, d.mag_filter, d.comparison), (FilterType::Point, FilterType::Linear, None));
}
