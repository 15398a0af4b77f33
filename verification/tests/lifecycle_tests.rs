use core::time::Duration;
use render_backend::draw::{BindGroupAction, PassMode, SrbStatus, TrackedPass};
use render_backend::errors::{begin_frame_state, finish_frame_state, ErrorType, RenderError, RenderErrorPolicy, RenderState, StateStep};
use render_backend::readback::{settle_readback, FenceCounter, PendingReadback};
use render_backend::render_pass::{PassCacheKey, RenderPassCache, MAX_CACHED_RENDER_PASSES};
use render_backend::resources::{BufferAsyncError, MapQueue};
use render_backend::texture::{checked_upload_layout, DataLayout, Extent3d, Origin3d, TextureDimension};
use render_backend::time::Instant;
use std::cell::RefCell;
use wgpu_types::TextureFormat;

#[test]
fn a_failed_offset_check_poisons_the_pass_whatever_the_slot() {
    let mut pass = TrackedPass::engine(2, 1);
    // Slot 7 does not exist; one dynamic binding but no offsets.
    let action = pass.set_bind_group(7, 3, &[], SrbStatus::Ready, &[(0, 11)], &[0], 256);
    assert!(matches!(action, BindGroupAction::Poisoned));
    assert_eq!(pass.mode, PassMode::Engine { poisoned: true });
}

#[test]
fn uploads_that_do_not_fit_are_refused() {
    let size = Extent3d { width: 16, height: 16, depth_or_array_layers: 1 };
    let layout = DataLayout { bytes_per_row: None, rows_per_image: None };
    let ok = checked_upload_layout(TextureFormat::Rgba8Unorm, TextureDimension::D2, Origin3d { x: 0, y: 0, z: 2 }, layout, size)
        .unwrap();
    assert_eq!((ok.stride, ok.depth_stride, ok.slice), (64, 1024, 2));
    let far = Origin3d { x: u32::MAX - 4, y: 0, z: 0 };
    assert!(checked_upload_layout(TextureFormat::Rgba8Unorm, TextureDimension::D2, far, layout, size).is_none());
    let wide = Extent3d { width: u32::MAX, height: 1, depth_or_array_layers: 1 };
    assert!(checked_upload_layout(TextureFormat::Rgba8Unorm, TextureDimension::D2, Origin3d { x: 0, y: 0, z: 0 }, layout, wide)
        .is_none());
}

#[test]
fn a_readback_whose_map_gives_nothing_is_polled_again() {
    let r = PendingReadback { id: 4, fence_value: 2, pending_frames: 1 };
    let mut pending = Vec::new();
    assert_eq!(settle_readback(&mut pending, r, None), None);
    assert_eq!(pending, vec![r]);
    assert_eq!(settle_readback(&mut pending, r, Some(vec![1, 2])), Some((4, vec![1, 2])));
    assert_eq!(pending, vec![r]);
}

#[test]
fn fence_values_count_only_recorded_copies() {
    let mut counter = FenceCounter::new();
    assert_eq!(counter.copy_signal(true), Some(1));
    assert_eq!(counter.copy_signal(false), None);
    assert_eq!(counter.copy_signal(true), Some(2));
    assert_eq!(counter.next_value, 2);
}

#[test]
fn a_cache_miss_inserts_one_entry_and_a_full_cache_starts_over() {
    let key = |v: u64| PassCacheKey { attachments: Vec::new(), views: vec![v] };
    let mut cache: RenderPassCache<u64, u64> = RenderPassCache::new();
    cache.insert(key(1), 10);
    assert_eq!(cache.find(&key(1)), Some(0));
    assert_eq!(cache.len(), 1);
    for v in 2..=MAX_CACHED_RENDER_PASSES as u64 {
        cache.insert(key(v), v);
    }
    assert_eq!(cache.len(), MAX_CACHED_RENDER_PASSES);
    cache.insert(key(999), 999);
    assert_eq!(cache.len(), 1);
    assert_eq!(cache.find(&key(999)), Some(0));
}

#[test]
fn a_frame_of_the_lifecycle_follows_the_policy() {
    let error = RenderError { ty: ErrorType::DeviceLost, description: "lost".to_string() };
    let (state, step) = begin_frame_state(RenderState::Ready, Some(error), false);
    assert_eq!(step, StateStep::HandleError);
    let (state, creation) = finish_frame_state(state, step, Some(RenderErrorPolicy::Recover(7u32)));
    assert!(matches!(state, RenderState::Reinitializing));
    assert_eq!(creation, Some(7));
    let (state, step) = begin_frame_state(state, None, true);
    assert_eq!(step, StateStep::InstallResources);
    let (state, _) = finish_frame_state::<u32>(state, step, None);
    let (state, step) = begin_frame_state(state, None, false);
    assert_eq!(step, StateStep::RunStartup);
    let (state, _) = finish_frame_state::<u32>(state, step, None);
    assert!(matches!(state, RenderState::Ready));
}

#[test]
fn queued_map_callbacks_run_once_in_order() {
    let log = RefCell::new(Vec::new());
    let mut queue: MapQueue<Box<dyn FnOnce(Result<(), BufferAsyncError>) + '_>> = MapQueue::new();
    queue.queue(Box::new(|r| log.borrow_mut().push(("a", r.is_ok()))));
    queue.queue(Box::new(|r| log.borrow_mut().push(("b", r.is_ok()))));
    assert_eq!(queue.len(), 2);
    queue.finish(vec![Err(BufferAsyncError), Ok(())]);
    assert_eq!(*log.borrow(), vec![("a", false), ("b", true)]);
}

#[test]
fn subtracting_then_adding_back_gives_the_instant() {
    let t = Instant(Duration::from_nanos(1_000));
    let d = Duration::from_nanos(400);
    let earlier = t.checked_sub(d).unwrap();
    assert_eq!(earlier.checked_add(d), Some(t));
}
