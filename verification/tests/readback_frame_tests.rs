use render_backend::readback::{
    poll_readbacks, recorded_fence_value, FenceCounter, PendingReadback, ReadbackStep, StagingKey, StagingPool,
};
use render_backend::resources::{make_spirv, run_map_callbacks, BufferAsyncError, ShaderSource};
use render_backend::shader::words_to_le_bytes;
use std::cell::RefCell;

fn r(id: u64, fence_value: u64, pending_frames: u32) -> PendingReadback {
    PendingReadback { id, fence_value, pending_frames }
}

#[test]
fn not_ready_readbacks_are_kept_and_polled_again() {
    let pending = vec![r(1, 5, 0), r(2, 9, 0), r(3, 0, 2), r(4, 9, 7)];
    let (kept, due) = poll_readbacks(&pending, 5);
    assert_eq!(kept, vec![r(2, 9, 1), r(3, 0, 3)]);
    assert_eq!(due, vec![(r(1, 5, 0), ReadbackStep::MapStaging), (r(4, 9, 8), ReadbackStep::Wait)]);
    // The kept ones are polled again next frame; now the copy of 2 is done.
    let (kept, due) = poll_readbacks(&kept, 9);
    assert_eq!(kept, vec![r(3, 0, 4)]);
    assert_eq!(due, vec![(r(2, 9, 1), ReadbackStep::MapStaging)]);
}

#[test]
fn fence_values_increase_and_failed_signals_record_zero() {
    let mut counter = FenceCounter::new();
    assert_eq!(counter.signal_value(), 1);
    assert_eq!(counter.signal_value(), 2);
    assert_eq!(counter.next_value, 2);
    assert_eq!(recorded_fence_value(2, true), 2);
    assert_eq!(recorded_fence_value(2, false), 0);
}

#[test]
fn map_callbacks_run_in_queue_order_with_their_outcomes() {
    let log = RefCell::new(Vec::new());
    let callbacks: Vec<Box<dyn FnOnce(Result<(), BufferAsyncError>) + '_>> = vec![
        Box::new(|res| log.borrow_mut().push((1, res.is_ok()))),
        Box::new(|res| log.borrow_mut().push((2, res.is_ok()))),
    ];
    run_map_callbacks(callbacks, vec![Ok(()), Err(BufferAsyncError)]);
    assert_eq!(*log.borrow(), vec![(1, true), (2, false)]);
}

#[test]
fn pool_update_keeps_each_kept_entry_with_its_handle() {
    let mut pool: StagingPool<&str> = StagingPool::new();
    pool.insert_taken(StagingKey::Buffer { size: 4 }, 1, "a");
    pool.insert_taken(StagingKey::Buffer { size: 8 }, 2, "b");
    pool.insert_taken(StagingKey::Buffer { size: 16 }, 3, "c");
    pool.release(1);
    pool.update(1);
    let handles: Vec<&str> = pool.entries.iter().map(|e| e.handle).collect();
    assert_eq!(handles, vec!["b", "c"]);
}

#[test]
fn spirv_bytes_read_as_words_write_back_unchanged() {
    let data: Vec<u8> = (0u8..16).collect();
    match make_spirv(&data) {
        ShaderSource::SpirV(words) => assert_eq!(words_to_le_bytes(&words), data),
        _ => panic!("make_spirv gives SPIR-V"),
    }
}
