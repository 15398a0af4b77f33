use render_backend::diligent_types::{AttachmentLoadOp, AttachmentStoreOp, ResourceState};
use render_backend::gpu_types::{LoadOp, Operations, PresentMode, StoreOp};
use render_backend::render_pass::{
    check_pass_features, color_ops, depth_ops, depth_stencil_attachment_state, plan_render_pass,
    present_mode_to_sync_interval, resolved_view_keys, should_evict, AttachmentRef,
    ColorAttachmentInput, DepthStencilInput, PassAttachmentKey, PassCacheKey, PassError,
    RenderPassCache, ResolveTargetInput, MAX_CACHED_RENDER_PASSES,
};

const D32_FLOAT: u32 = 40;
const RGBA8: u32 = 28;
const BGRA8: u32 = 29;

fn ops(load: LoadOp, store: StoreOp) -> Operations {
    Operations { load, store }
}

#[test]
fn present_mode_maps_to_the_sync_interval() {
    assert_eq!(present_mode_to_sync_interval(PresentMode::Fifo), 1);
    assert_eq!(present_mode_to_sync_interval(PresentMode::FifoRelaxed), 1);
    assert_eq!(present_mode_to_sync_interval(PresentMode::AutoVsync), 1);
    assert_eq!(present_mode_to_sync_interval(PresentMode::Immediate), 0);
    assert_eq!(present_mode_to_sync_interval(PresentMode::Mailbox), 0);
    assert_eq!(present_mode_to_sync_interval(PresentMode::AutoNoVsync), 0);
}

#[test]
fn load_store_ops_map_to_attachment_ops() {
    let (load, store) = color_ops(ops(LoadOp::Load, StoreOp::Store)).unwrap();
    assert_eq!(load, AttachmentLoadOp::Load);
    assert_eq!(store, AttachmentStoreOp::Store);

    let (load, store) = color_ops(ops(LoadOp::Clear, StoreOp::Discard)).unwrap();
    assert_eq!(load, AttachmentLoadOp::Clear);
    assert_eq!(store, AttachmentStoreOp::Discard);

    let (load, store) = depth_ops(None).unwrap();
    assert_eq!(load, AttachmentLoadOp::Discard);
    assert_eq!(store, AttachmentStoreOp::Discard);
}

#[test]
fn dont_care_loads_discard() {
    let (load, store) = color_ops(ops(LoadOp::DontCare, StoreOp::Store)).unwrap();
    assert_eq!(load, AttachmentLoadOp::Discard);
    assert_eq!(store, AttachmentStoreOp::Store);
    let (load, store) = depth_ops(Some(ops(LoadOp::Clear, StoreOp::Store))).unwrap();
    assert_eq!(load, AttachmentLoadOp::Clear);
    assert_eq!(store, AttachmentStoreOp::Store);
}

#[test]
fn pass_cache_evicts_after_the_cap() {
    assert!(!should_evict(MAX_CACHED_RENDER_PASSES - 1));
    assert!(should_evict(MAX_CACHED_RENDER_PASSES));
    assert!(should_evict(MAX_CACHED_RENDER_PASSES + 4));
}

#[test]
fn pass_cache_keys_on_resolved_diligent_view_identity() {
    let stable_view: u64 = 0x1_0000;
    let next_back_buffer: u64 = 0x2_0000;

    let key_frame_1 = PassCacheKey { attachments: Vec::new(), views: resolved_view_keys(&[stable_view]) };
    let key_frame_2 = PassCacheKey { attachments: Vec::new(), views: resolved_view_keys(&[stable_view]) };
    assert!(key_frame_1.equals(&key_frame_2));

    let key_next_frame = PassCacheKey { attachments: Vec::new(), views: resolved_view_keys(&[next_back_buffer]) };
    assert!(!key_frame_1.equals(&key_next_frame));
}

#[test]
fn depth_stencil_attachment_state_follows_the_read_only_rule() {
    assert_eq!(depth_stencil_attachment_state(true, true), ResourceState::DepthRead);
    assert_eq!(depth_stencil_attachment_state(false, true), ResourceState::DepthWrite);
    assert_eq!(depth_stencil_attachment_state(true, false), ResourceState::DepthWrite);
    assert_eq!(depth_stencil_attachment_state(false, false), ResourceState::DepthWrite);
}

#[test]
fn pass_cache_key_distinguishes_read_only_depth() {
    let attachment = PassAttachmentKey {
        format: D32_FLOAT,
        sample_count: 1,
        load_op: AttachmentLoadOp::Load,
        store_op: AttachmentStoreOp::Store,
        read_only: true,
    };
    let mut writable = attachment;
    writable.read_only = false;
    assert_ne!(attachment, writable);
    let a = PassCacheKey { attachments: vec![attachment], views: vec![7] };
    let b = PassCacheKey { attachments: vec![writable], views: vec![7] };
    assert!(!a.equals(&b));
}

#[test]
fn render_pass_cache_clears_at_the_cap_and_finds_keys() {
    let mut cache: RenderPassCache<u32, u32> = RenderPassCache::new();
    let key = |v: u64| PassCacheKey { attachments: Vec::new(), views: vec![v] };
    for i in 0..(MAX_CACHED_RENDER_PASSES as u64) {
        cache.prepare_insert();
        cache.push_entry(key(i), i as u32);
    }
    cache.push_derived_view(1);
    assert_eq!(cache.len(), MAX_CACHED_RENDER_PASSES);
    assert_eq!(cache.find(&key(5)), Some(5));
    assert_eq!(cache.find(&key(1000)), None);
    cache.prepare_insert();
    assert_eq!(cache.len(), 0);
    assert!(cache.derived_views.is_empty());
    assert_eq!(cache.find(&key(5)), None);
}

#[test]
fn pass_features_are_refused_in_order() {
    assert_eq!(check_pass_features(false, false, false), Ok(()));
    assert_eq!(check_pass_features(true, true, true), Err(PassError::Multiview));
    assert_eq!(check_pass_features(false, true, true), Err(PassError::OcclusionQuery));
    assert_eq!(check_pass_features(false, false, true), Err(PassError::TimestampWrites));
    assert!(PassError::Multiview.message().contains("multiview"));
}

#[test]
fn plan_puts_resolve_before_color_then_depth() {
    let color = ColorAttachmentInput {
        view: 100,
        format: RGBA8,
        sample_count: 4,
        ops: ops(LoadOp::Clear, StoreOp::Discard),
        resolve_target: Some(ResolveTargetInput { view: 200, format: RGBA8 }),
    };
    let depth = DepthStencilInput {
        view: 300,
        format: D32_FLOAT,
        sample_count: 4,
        depth_ops: Some(ops(LoadOp::Clear, StoreOp::Store)),
        stencil_ops: None,
    };
    let plan = plan_render_pass(&[None, Some(color)], Some(depth), false).unwrap();
    assert_eq!(plan.attachments.len(), 3);
    assert_eq!(plan.framebuffer_views, vec![200, 100, 300]);
    assert_eq!(plan.attachments[0].initial_state, ResourceState::ResolveDest);
    assert_eq!(plan.attachments[0].sample_count, 1);
    assert_eq!(plan.attachments[1].load_op, AttachmentLoadOp::Clear);
    assert_eq!(plan.attachments[1].store_op, AttachmentStoreOp::Discard);
    assert_eq!(plan.attachments[2].initial_state, ResourceState::DepthWrite);
    assert_eq!(plan.attachments[2].stencil_load_op, AttachmentLoadOp::Discard);
    assert_eq!(plan.color_refs.len(), 2);
    assert_eq!(plan.color_refs[0], AttachmentRef { index: None, state: ResourceState::Unknown });
    assert_eq!(plan.color_refs[1], AttachmentRef { index: Some(1), state: ResourceState::RenderTarget });
    assert_eq!(plan.resolve_refs[1], AttachmentRef { index: Some(0), state: ResourceState::ResolveDest });
    assert_eq!(plan.depth_ref, Some(AttachmentRef { index: Some(2), state: ResourceState::DepthWrite }));
    assert_eq!(plan.key.views, vec![200, 100, 300]);
    assert!(!plan.key.attachments[2].read_only);
}

#[test]
fn plan_of_read_only_depth_keeps_contents() {
    let depth = DepthStencilInput { view: 9, format: D32_FLOAT, sample_count: 1, depth_ops: None, stencil_ops: None };
    let plan = plan_render_pass(&[], Some(depth), false).unwrap();
    assert_eq!(plan.attachments[0].load_op, AttachmentLoadOp::Load);
    assert_eq!(plan.attachments[0].store_op, AttachmentStoreOp::Store);
    assert_eq!(plan.attachments[0].initial_state, ResourceState::DepthRead);
    assert!(plan.key.attachments[0].read_only);
}

#[test]
fn plan_errors_on_resolve_format_mismatch_and_empty_pass() {
    let color = ColorAttachmentInput {
        view: 1,
        format: RGBA8,
        sample_count: 4,
        ops: ops(LoadOp::Load, StoreOp::Store),
        resolve_target: Some(ResolveTargetInput { view: 2, format: BGRA8 }),
    };
    let err = plan_render_pass(&[Some(color)], None, false).err().unwrap();
    assert_eq!(err, PassError::ResolveFormatMismatch { resolve_format: BGRA8, format: RGBA8 });
    assert_eq!(err.message(), "resolve attachment format 29 does not match the color attachment format 28");
    // With resolves disabled the target is ignored.
    let plan = plan_render_pass(&[Some(color)], None, true).unwrap();
    assert_eq!(plan.attachments.len(), 1);
    assert_eq!(plan.resolve_refs[0].index, None);
    assert_eq!(plan_render_pass(&[None], None, false).err(), Some(PassError::NoAttachments));
}
