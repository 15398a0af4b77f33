use render_backend::adapter::{
    adapter_name_bytes, adapter_summary, backend_of, device_features, device_type_of, diligent_backend_of,
    fallback_adapter_name, fallback_adapter_summary, is_software_adapter, AdapterSummary, AdapterType, Backend,
    DeviceType,
};
use render_backend::diligent_types::RenderDeviceType;
use render_backend::features::Features;
use render_backend::shader::DiligentBackend;

#[test]
fn adapter_kinds_map_to_device_types() {
    assert_eq!(device_type_of(AdapterType::Discrete), DeviceType::DiscreteGpu);
    assert_eq!(device_type_of(AdapterType::Integrated), DeviceType::IntegratedGpu);
    assert_eq!(device_type_of(AdapterType::Software), DeviceType::Cpu);
    assert_eq!(device_type_of(AdapterType::Unknown), DeviceType::Other);
}

#[test]
fn device_types_map_to_backends() {
    assert_eq!(backend_of(RenderDeviceType::D3D12), Backend::Dx12);
    assert_eq!(backend_of(RenderDeviceType::Vulkan), Backend::Vulkan);
    assert_eq!(backend_of(RenderDeviceType::D3D11), Backend::Noop);
    assert_eq!(backend_of(RenderDeviceType::Metal), Backend::Noop);
    assert_eq!(diligent_backend_of(RenderDeviceType::D3D12), DiligentBackend::D3D12);
    assert_eq!(diligent_backend_of(RenderDeviceType::Vulkan), DiligentBackend::Vulkan);
    assert_eq!(diligent_backend_of(RenderDeviceType::Gl), DiligentBackend::Other);
}

#[test]
fn adapter_names_stop_at_the_first_zero_byte() {
    let mut description = [0u8; 128];
    description[..6].copy_from_slice(b"GPU X ");
    description[8] = b'z';
    assert_eq!(adapter_name_bytes(&description), b"GPU X ".to_vec());
    assert_eq!(adapter_name_bytes(b"abc"), b"abc".to_vec());
    assert!(adapter_name_bytes(&[0, 1, 2]).is_empty());
    assert_eq!(fallback_adapter_name(), "Diligent (D3D12)");
}

#[test]
fn adapter_summaries_carry_ids_kind_and_backend() {
    let s = adapter_summary(RenderDeviceType::D3D12, AdapterType::Software, 0x10de, 0x2684);
    assert_eq!(
        s,
        AdapterSummary { vendor: 0x10de, device: 0x2684, device_type: DeviceType::Cpu, backend: Backend::Dx12 }
    );
    assert!(is_software_adapter(&s));
    let f = fallback_adapter_summary();
    assert_eq!(f, AdapterSummary { vendor: 0, device: 0, device_type: DeviceType::Other, backend: Backend::Dx12 });
    assert!(!is_software_adapter(&f));
}

#[test]
fn device_features_fold_requested_and_drop_disabled() {
    let derived = Features { wgpu: 0b0110, webgpu: 0b1000 };
    let requested = Features { wgpu: 0b0001, webgpu: 0b0001 };
    let disabled = Features { wgpu: 0b0100, webgpu: 0b1000 };
    let f = device_features(Some(derived), requested, Some(disabled));
    assert_eq!((f.wgpu, f.webgpu), (0b0011, 0b0001));
    let f = device_features(None, requested, None);
    assert_eq!((f.wgpu, f.webgpu), (0b0001, 0b0001));
}
