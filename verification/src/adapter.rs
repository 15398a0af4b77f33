//! The adapter the renderer reports (its kind, backend and name, from the
//! engine's adapter and device queries) and the feature set the device is
//! created with.

use crate::diligent_types::RenderDeviceType;
use crate::features::Features;
use crate::shader::DiligentBackend;
use vstd::prelude::*;

verus! {

/// The kind of adapter the engine reports.
#[derive(Clone, Copy, Debug, PartialEq, Eq, Structural)]
pub enum AdapterType {
    Unknown,
    Software,
    Integrated,
    Discrete,
}

/// The kind of device reported to consumers.
#[derive(Clone, Copy, Debug, PartialEq, Eq, Structural)]
pub enum DeviceType {
    Other,
    IntegratedGpu,
    DiscreteGpu,
    VirtualGpu,
    Cpu,
}

/// The graphics API reported to consumers.
#[derive(Clone, Copy, Debug, PartialEq, Eq, Structural)]
pub enum Backend {
    Noop,
    Vulkan,
    Metal,
    Dx12,
    Gl,
    BrowserWebGpu,
}

/// A discrete adapter is a discrete GPU, an integrated one an integrated
/// GPU, a software one the CPU; anything else is another device.
pub open spec fn device_type_for(adapter: AdapterType) -> DeviceType {
    match adapter {
        AdapterType::Discrete => DeviceType::DiscreteGpu,
        AdapterType::Integrated => DeviceType::IntegratedGpu,
        AdapterType::Software => DeviceType::Cpu,
        AdapterType::Unknown => DeviceType::Other,
    }
}

/// A D3D12 device reports Direct3D 12, a Vulkan device Vulkan, any other
/// device the no-op backend.
pub open spec fn backend_for(device: RenderDeviceType) -> Backend {
    match device {
        RenderDeviceType::D3D12 => Backend::Dx12,
        RenderDeviceType::Vulkan => Backend::Vulkan,
        _ => Backend::Noop,
    }
}

/// The device kind of an adapter kind (see `device_type_for`).
pub fn device_type_of(adapter: AdapterType) -> (t: DeviceType)
    ensures
        t == device_type_for(adapter),
{
    match adapter {
        AdapterType::Discrete => DeviceType::DiscreteGpu,
        AdapterType::Integrated => DeviceType::IntegratedGpu,
        AdapterType::Software => DeviceType::Cpu,
        AdapterType::Unknown => DeviceType::Other,
    }
}

/// The reported backend of a device (see `backend_for`).
pub fn backend_of(device: RenderDeviceType) -> (b: Backend)
    ensures
        b == backend_for(device),
{
    match device {
        RenderDeviceType::D3D12 => Backend::Dx12,
        RenderDeviceType::Vulkan => Backend::Vulkan,
        _ => Backend::Noop,
    }
}

/// The shader backend of a device: D3D12 and Vulkan devices have their
/// own, every other device none.
pub fn diligent_backend_of(device: RenderDeviceType) -> (b: DiligentBackend)
    ensures
        b == match device {
            RenderDeviceType::D3D12 => DiligentBackend::D3D12,
            RenderDeviceType::Vulkan => DiligentBackend::Vulkan,
            _ => DiligentBackend::Other,
        },
{
    match device {
        RenderDeviceType::D3D12 => DiligentBackend::D3D12,
        RenderDeviceType::Vulkan => DiligentBackend::Vulkan,
        _ => DiligentBackend::Other,
    }
}

/// The index of the first zero byte of `s`, or its length.
pub open spec fn first_zero(s: Seq<u8>) -> int
    decreases s.len(),
{
    if s.len() == 0 || s[0] == 0 {
        0
    } else {
        1 + first_zero(s.drop_first())
    }
}

/// The first zero of `s` is within it, and no byte before it is zero.
proof fn lemma_first_zero(s: Seq<u8>)
    ensures
        0 <= first_zero(s) <= s.len(),
        first_zero(s) < s.len() ==> s[first_zero(s)] == 0,
        forall|i: int| 0 <= i < first_zero(s) ==> s[i] != 0,
    decreases s.len(),
{
    if s.len() > 0 && s[0] != 0 {
        let t = s.drop_first();
        lemma_first_zero(t);
        assert forall|i: int| 0 <= i < first_zero(s) implies s[i] != 0 by {
            if i > 0 {
                assert(s[i] == t[i - 1]);
            }
        }
        if first_zero(s) < s.len() {
            assert(s[first_zero(s)] == t[first_zero(t)]);
        }
    }
}

/// The name bytes of an adapter description: the bytes before its first
/// zero byte (the description is a zero-terminated string).
pub fn adapter_name_bytes(description: &[u8]) -> (name: Vec<u8>)
    ensures
        name@ == description@.subrange(0, first_zero(description@)),
        forall|i: int| 0 <= i < name@.len() ==> name@[i] != 0,
{
    proof {
        lemma_first_zero(description@);
    }
    let mut name: Vec<u8> = Vec::new();
    let mut i: usize = 0;
    while i < description.len()
        invariant
            i <= description@.len(),
            name@ == description@.subrange(0, i as int),
            forall|j: int| 0 <= j < i ==> description@[j] != 0,
        decreases description.len() - i,
    {
        let c = description[i];
        if c == 0 {
            proof {
                lemma_first_zero(description@);
                assert(first_zero(description@) == i);
            }
            return name;
        }
        name.push(c);
        proof {
            assert(name@ =~= description@.subrange(0, i as int + 1));
        }
        i = i + 1;
    }
    proof {
        lemma_first_zero(description@);
        assert(first_zero(description@) == description@.len());
        assert(name@ =~= description@.subrange(0, description@.len() as int));
    }
    name
}

/// The name reported when the engine could not start.
pub fn fallback_adapter_name() -> (name: String)
    ensures
        name@ == "Diligent (D3D12)"@,
{
    String::from_str("Diligent (D3D12)")
}

/// What the renderer reports of its adapter, but for the name.
#[derive(Clone, Copy, Debug, PartialEq, Eq, Structural)]
pub struct AdapterSummary {
    pub vendor: u32,
    pub device: u32,
    pub device_type: DeviceType,
    pub backend: Backend,
}

/// The adapter as the engine reports it: its ids, its kind and the backend
/// of the device created on it.
pub fn adapter_summary(device: RenderDeviceType, adapter: AdapterType, vendor_id: u32, device_id: u32) -> (s: AdapterSummary)
    ensures
        s == (AdapterSummary {
            vendor: vendor_id,
            device: device_id,
            device_type: device_type_for(adapter),
            backend: backend_for(device),
        }),
{
    AdapterSummary {
        vendor: vendor_id,
        device: device_id,
        device_type: device_type_of(adapter),
        backend: backend_of(device),
    }
}

/// The adapter reported when the engine could not start: unknown ids, of
/// another kind, on Direct3D 12.
pub fn fallback_adapter_summary() -> (s: AdapterSummary)
    ensures
        s == (AdapterSummary { vendor: 0, device: 0, device_type: DeviceType::Other, backend: Backend::Dx12 }),
{
    AdapterSummary { vendor: 0, device: 0, device_type: DeviceType::Other, backend: Backend::Dx12 }
}

/// Whether the adapter renders in software (a slow path worth a warning).
pub fn is_software_adapter(summary: &AdapterSummary) -> (r: bool)
    ensures
        r == (summary.device_type == DeviceType::Cpu),
{
    summary.device_type == DeviceType::Cpu
}

/// The bits of an optional feature half (none when absent).
pub open spec fn bits_or_none(f: Option<Features>, webgpu: bool) -> u64 {
    match f {
        Some(f) => if webgpu { f.webgpu } else { f.wgpu },
        None => 0u64,
    }
}

/// One half of the device's features: the derived and requested bits, less
/// the disabled bits.
pub open spec fn device_feature_bits(derived: Option<Features>, requested: Features, disabled: Option<Features>, webgpu: bool) -> u64 {
    (bits_or_none(derived, webgpu) | if webgpu { requested.webgpu } else { requested.wgpu }) & !bits_or_none(disabled, webgpu)
}

/// The features a device is created with: the engine-derived features (none
/// when the engine could not start) and the requested ones, less the
/// disabled ones.
pub fn device_features(derived: Option<Features>, requested: Features, disabled: Option<Features>) -> (f: Features)
    ensures
        f.wgpu == device_feature_bits(derived, requested, disabled, false),
        f.webgpu == device_feature_bits(derived, requested, disabled, true),
{
    let (base_wgpu, base_webgpu) = match derived {
        Some(d) => (d.wgpu, d.webgpu),
        None => (0u64, 0u64),
    };
    let (off_wgpu, off_webgpu) = match disabled {
        Some(d) => (d.wgpu, d.webgpu),
        None => (0u64, 0u64),
    };
    Features { wgpu: (base_wgpu | requested.wgpu) & !off_wgpu, webgpu: (base_webgpu | requested.webgpu) & !off_webgpu }
}

/// The device's features hold no disabled feature, and no feature that is
/// neither derived nor requested.
pub proof fn lemma_device_features_bounds(derived: Option<Features>, requested: Features, disabled: Option<Features>, webgpu: bool)
    ensures
        device_feature_bits(derived, requested, disabled, webgpu) & bits_or_none(disabled, webgpu) == 0,
        device_feature_bits(derived, requested, disabled, webgpu)
            & !(bits_or_none(derived, webgpu) | if webgpu { requested.webgpu } else { requested.wgpu }) == 0,
{
    let base: u64 = bits_or_none(derived, webgpu);
    let off: u64 = bits_or_none(disabled, webgpu);
    let req: u64 = if webgpu { requested.webgpu } else { requested.wgpu };
    assert(((base | req) & !off) & off == 0) by (bit_vector);
    assert(((base | req) & !off) & !(base | req) == 0) by (bit_vector);
}

} // verus!
