use render_backend::readback::{
    copy_range, next_fence_value, readback_size, readback_staging_key, readback_step, GpuReadbackPlugin,
    ReadbackSource, ReadbackStep, StagingKey,
    StagingPool, DEFAULT_MAX_UNUSED_FRAMES, SYNC_FALLBACK_FRAMES,
};

#[test]
fn plugin_defaults_to_ten_unused_frames() {
    assert_eq!(GpuReadbackPlugin::default().max_unused_frames(), DEFAULT_MAX_UNUSED_FRAMES);
    assert_eq!(DEFAULT_MAX_UNUSED_FRAMES, 10);
    assert_eq!(GpuReadbackPlugin::new(3).max_unused_frames(), 3);
}

#[test]
fn pool_reuses_free_entries_of_the_same_key() {
    let mut pool: StagingPool<&str> = StagingPool::new();
    let key = StagingKey::Buffer { size: 256 };
    assert_eq!(pool.acquire(key), None);
    pool.insert_taken(key, 1, "first");
    assert_eq!(pool.acquire(key), None);
    assert!(pool.release(1));
    assert_eq!(pool.acquire(StagingKey::Buffer { size: 512 }), None);
    let i = pool.acquire(key).unwrap();
    assert_eq!(*pool.handle(i), "first");
    assert!(!pool.release(99));
}

#[test]
fn pool_drops_entries_unused_for_the_limit() {
    let mut pool: StagingPool<u32> = StagingPool::new();
    let tex = StagingKey::Texture { width: 4, height: 4, format: 28 };
    pool.insert_taken(tex, 7, 70);
    pool.insert_taken(StagingKey::Buffer { size: 16 }, 8, 80);
    pool.release(7);
    pool.update(2);
    assert_eq!(pool.entries.len(), 2);
    assert_eq!(pool.entries[0].frames_unused, 1);
    assert_eq!(pool.entries[1].frames_unused, 0);
    pool.update(2);
    // The free texture aged to the limit; the taken buffer stays.
    assert_eq!(pool.entries.len(), 1);
    assert_eq!(pool.entries[0].id, 8);
    for _ in 0..10 {
        pool.update(2);
    }
    assert_eq!(pool.entries.len(), 1);
}

#[test]
fn acquire_resets_the_age() {
    let mut pool: StagingPool<u32> = StagingPool::new();
    let key = StagingKey::Buffer { size: 64 };
    pool.insert_taken(key, 1, 10);
    pool.release(1);
    pool.update(5);
    pool.update(5);
    assert_eq!(pool.entries[0].frames_unused, 2);
    assert_eq!(pool.acquire(key), Some(0));
    assert_eq!(pool.entries[0].frames_unused, 0);
    assert!(pool.entries[0].taken);
}

#[test]
fn readback_range_defaults_to_the_whole_buffer() {
    assert_eq!(readback_size(1024, None), 1024);
    assert_eq!(readback_size(1024, Some((256, 512))), 512);
    assert_eq!(copy_range(1024, None), (0, 1024));
    assert_eq!(copy_range(1024, Some((256, 512))), (256, 512));
}

#[test]
fn readbacks_map_once_complete_and_wait_after_eight_frames() {
    assert_eq!(readback_step(5, 5, 3), (ReadbackStep::MapStaging, 3));
    assert_eq!(readback_step(5, 4, 0), (ReadbackStep::Keep, 1));
    assert_eq!(readback_step(5, 4, SYNC_FALLBACK_FRAMES - 2), (ReadbackStep::Keep, 7));
    assert_eq!(readback_step(5, 4, SYNC_FALLBACK_FRAMES - 1), (ReadbackStep::Wait, 8));
    // A copy never submitted is never waited for.
    assert_eq!(readback_step(0, 100, 20), (ReadbackStep::Keep, 21));
}

#[test]
fn fence_values_increase() {
    assert_eq!(next_fence_value(0), 1);
    assert_eq!(next_fence_value(41), 42);
}

#[test]
fn readback_requests_need_a_matching_staging_resource() {
    assert_eq!(
        readback_staging_key(ReadbackSource::Texture { width: 8, height: 4, format: 28, pixel_size_known: true }),
        Some(StagingKey::Texture { width: 8, height: 4, format: 28 })
    );
    assert_eq!(
        readback_staging_key(ReadbackSource::Texture { width: 8, height: 4, format: 28, pixel_size_known: false }),
        None
    );
    assert_eq!(
        readback_staging_key(ReadbackSource::Buffer { full_size: 64, start_offset_and_size: None }),
        Some(StagingKey::Buffer { size: 64 })
    );
    assert_eq!(
        readback_staging_key(ReadbackSource::Buffer { full_size: 64, start_offset_and_size: Some((16, 32)) }),
        Some(StagingKey::Buffer { size: 32 })
    );
}
