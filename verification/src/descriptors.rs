//! The engine descriptors of the objects a device creates: the name each
//! object gets, and the bind flags, usage and CPU access of a buffer and the
//! filters, address modes and comparison of a sampler.

use crate::diligent_types as dil;
use crate::gpu_types as gpu;
use crate::mapping::{buffer_bind_flags_spec, buffer_cpu_access_spec, buffer_usage_spec, comparison_spec, filter_type_spec};
use crate::mapping;
use vstd::prelude::*;

verus! {

/// The engine name of an object: `bevy_` then its label, or its kind when
/// it has no label.
pub open spec fn object_name_spec(label: Option<Seq<char>>, kind: Seq<char>) -> Seq<char> {
    "bevy_"@ + match label {
        Some(l) => l,
        None => kind,
    }
}

/// The engine name of an object (see `object_name_spec`).
pub fn object_name(label: Option<&str>, kind: &str) -> (name: String)
    ensures
        name@ == object_name_spec(
            match label {
                Some(l) => Some(l@),
                None => None,
            },
            kind@,
        ),
{
    let mut name = String::from_str("bevy_");
    match label {
        Some(l) => name.append(l),
        None => name.append(kind),
    }
    name
}

/// The engine description of a buffer.
#[derive(Clone, Debug)]
pub struct BufferDesc {
    pub name: String,
    pub size: u64,
    pub bind_flags: dil::BindFlags,
    pub usage: dil::Usage,
    pub cpu_access: dil::CpuAccessFlags,
}

/// The engine description of a buffer of `size` bytes and `usage`: its bind
/// flags follow the usage; it is immutable when created with data, else its
/// engine usage follows the usage; only a staging buffer gets CPU access.
pub fn buffer_desc(label: Option<&str>, size: u64, usage: gpu::BufferUsages, has_initial_data: bool) -> (d: BufferDesc)
    ensures
        d.name@ == object_name_spec(
            match label {
                Some(l) => Some(l@),
                None => None,
            },
            "buffer"@,
        ),
        d.size == size,
        d.bind_flags == buffer_bind_flags_spec(usage),
        d.usage == if has_initial_data { dil::Usage::Immutable } else { buffer_usage_spec(usage) },
        d.cpu_access == if d.usage == dil::Usage::Staging { buffer_cpu_access_spec(usage) } else { 0u8 },
{
    let bind_flags = mapping::buffer_usage_to_bind_flags(usage);
    let engine_usage = if has_initial_data {
        dil::Usage::Immutable
    } else {
        mapping::buffer_usage_to_usage(usage)
    };
    let cpu_access = match engine_usage {
        dil::Usage::Staging => mapping::buffer_usage_to_cpu_access(usage),
        _ => 0u8,
    };
    BufferDesc { name: object_name(label, "buffer"), size, bind_flags, usage: engine_usage, cpu_access }
}

/// What a sampler samples with, but for its level-of-detail clamps.
#[derive(Clone, Copy, Debug, PartialEq, Eq, Structural)]
pub struct SamplerInput {
    pub address_mode_u: gpu::AddressMode,
    pub address_mode_v: gpu::AddressMode,
    pub address_mode_w: gpu::AddressMode,
    pub mag_filter: gpu::FilterMode,
    pub min_filter: gpu::FilterMode,
    pub mipmap_filter: gpu::FilterMode,
    pub compare: Option<gpu::CompareFunction>,
    pub anisotropy_clamp: u16,
}

/// The engine description of a sampler, but for its level-of-detail clamps.
#[derive(Clone, Copy, Debug, PartialEq, Eq, Structural)]
pub struct SamplerDesc {
    pub min_filter: dil::FilterType,
    pub mag_filter: dil::FilterType,
    pub mip_filter: dil::FilterType,
    pub address_u: dil::TextureAddressMode,
    pub address_v: dil::TextureAddressMode,
    pub address_w: dil::TextureAddressMode,
    pub comparison: Option<dil::ComparisonFunction>,
    pub max_anisotropy: u32,
}

/// The engine address mode of an address mode.
pub open spec fn address_spec(mode: gpu::AddressMode) -> dil::TextureAddressMode {
    match mode {
        gpu::AddressMode::ClampToEdge => dil::TextureAddressMode::Clamp,
        gpu::AddressMode::Repeat => dil::TextureAddressMode::Wrap,
        gpu::AddressMode::MirrorRepeat => dil::TextureAddressMode::Mirror,
        gpu::AddressMode::ClampToBorder => dil::TextureAddressMode::Border,
    }
}

/// The engine description of a sampler: each filter is a comparison filter
/// when the sampler compares and anisotropic when its anisotropy clamp is
/// above 1; the address modes and the comparison map one to one.
pub fn sampler_desc(input: &SamplerInput) -> (d: SamplerDesc)
    ensures
        d == (SamplerDesc {
            min_filter: filter_type_spec(input.min_filter, input.compare is Some, input.anisotropy_clamp > 1),
            mag_filter: filter_type_spec(input.mag_filter, input.compare is Some, input.anisotropy_clamp > 1),
            mip_filter: filter_type_spec(input.mipmap_filter, input.compare is Some, input.anisotropy_clamp > 1),
            address_u: address_spec(input.address_mode_u),
            address_v: address_spec(input.address_mode_v),
            address_w: address_spec(input.address_mode_w),
            comparison: match input.compare {
                Some(c) => Some(comparison_spec(c)),
                None => None,
            },
            max_anisotropy: input.anisotropy_clamp as u32,
        }),
{
    let comparison = input.compare.is_some();
    let anisotropy = input.anisotropy_clamp > 1;
    SamplerDesc {
        min_filter: mapping::filter_type(input.min_filter, comparison, anisotropy),
        mag_filter: mapping::filter_type(input.mag_filter, comparison, anisotropy),
        mip_filter: mapping::filter_type(input.mipmap_filter, comparison, anisotropy),
        address_u: mapping::address_mode(input.address_mode_u),
        address_v: mapping::address_mode(input.address_mode_v),
        address_w: mapping::address_mode(input.address_mode_w),
        comparison: match input.compare {
            Some(c) => Some(mapping::comparison_function(c)),
            None => None,
        },
        max_anisotropy: input.anisotropy_clamp as u32,
    }
}

} // verus!
