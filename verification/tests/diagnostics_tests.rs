use core::time::Duration;
use render_backend::diagnostics::{
    recorded_u32, value_buffer_label, value_diagnostic_path, DiagnosticsRecorder, FrameSpans, Pass, PassKind, ValueCopy,
    MAX_TIMESTAMP_QUERIES, VALUE_BUFFER_SIZE, VALUE_BUFFER_USAGE,
};
use render_backend::resources::{Buffer, BufferId, SliceBound};
use render_backend::draw::TrackedPass;
use render_backend::encoder_pass::EncoderPass;
use render_backend::resources::QuerySet;
use render_backend::time::Instant;

fn at(nanos: u64) -> Instant {
    Instant(Duration::from_nanos(nanos))
}

fn frame_with_queries() -> FrameSpans {
    let mut frame = FrameSpans::new();
    frame.timestamps_query_set = Some(QuerySet);
    frame.pipeline_statistics_query_set = Some(QuerySet);
    frame.supports_timestamps_inside_encoders = true;
    frame.supports_timestamps_inside_passes = true;
    frame
}

fn path(frame: &FrameSpans, i: usize) -> Vec<String> {
    let s = frame.closed_spans[i];
    frame.path_components[s.path_start..s.path_end].to_vec()
}

#[test]
fn nested_spans_extend_the_parent_path() {
    let mut frame = FrameSpans::new();
    let mut encoder = EncoderPass::new(false, true);
    frame.begin_time_span(&mut encoder, "main_pass".to_string(), 1, at(100));
    frame.begin_time_span(&mut encoder, "opaque".to_string(), 1, at(150));
    frame.begin_time_span(&mut encoder, "shadows".to_string(), 2, at(160));
    frame.end_time_span(&mut encoder, 1, at(400));
    frame.end_time_span(&mut encoder, 2, at(500));
    frame.end_time_span(&mut encoder, 1, at(1_100));
    assert_eq!(path(&frame, 0), vec!["main_pass".to_string(), "opaque".to_string()]);
    assert_eq!(path(&frame, 1), vec!["shadows".to_string()]);
    assert_eq!(path(&frame, 2), vec!["main_pass".to_string()]);
    assert!(frame.open_spans.is_empty());

    let timings = frame.cpu_timings();
    assert_eq!(timings.len(), 3);
    assert_eq!(timings[0].0, vec!["render", "main_pass", "opaque", "elapsed_cpu"]);
    assert_eq!(timings[0].1, Duration::from_nanos(250));
    assert_eq!(timings[1].0, vec!["render", "shadows", "elapsed_cpu"]);
    assert_eq!(timings[2].1, Duration::from_nanos(1_000));
}

#[test]
fn timestamps_need_a_query_set_and_support() {
    let mut frame = FrameSpans::new();
    let mut encoder = EncoderPass::new(true, true);
    assert_eq!(frame.write_timestamp(&mut encoder, false), None);

    let mut frame = frame_with_queries();
    assert_eq!(frame.write_timestamp(&mut encoder, false), Some(0));
    assert_eq!(frame.write_timestamp(&mut encoder, true), Some(1));
    frame.supports_timestamps_inside_passes = false;
    assert_eq!(frame.write_timestamp(&mut encoder, true), None);
    assert_eq!(frame.write_timestamp(&mut encoder, false), Some(2));
    frame.num_timestamps = MAX_TIMESTAMP_QUERIES;
    assert_eq!(frame.write_timestamp(&mut encoder, false), None);
    frame.begin();
    assert_eq!(frame.num_timestamps, 0);
    assert!(frame.closed_spans.is_empty());
}

#[test]
fn pass_spans_take_statistics_slots() {
    let mut frame = frame_with_queries();
    let mut pass = TrackedPass::engine(4, 2);
    assert_eq!(TrackedPass::kind(), PassKind::Render);
    frame.begin_pass(&mut pass, "pass".to_string(), 7, at(10));
    assert_eq!(frame.open_spans[0].pipeline_statistics_index, Some(0));
    assert_eq!(frame.open_spans[0].begin_timestamp_index, Some(0));
    frame.end_pass(&mut pass, 7, at(30));
    assert_eq!(frame.closed_spans[0].end_timestamp_index, Some(1));
    assert_eq!(frame.num_pipeline_statistics, 1);
    let path = frame.diagnostic_path(frame.closed_spans[0].path_start, frame.closed_spans[0].path_end, "elapsed_gpu");
    assert_eq!(path, vec!["render", "pass", "elapsed_gpu"]);
}

#[test]
fn spans_without_both_instants_report_no_cpu_time() {
    let mut frame = FrameSpans::new();
    frame.open_span("manual".to_string(), 3);
    frame.close_span(3);
    assert!(frame.cpu_timings().is_empty());
}

#[test]
fn recorder_reuses_finished_frames() {
    let mut recorder = DiagnosticsRecorder::new();
    let mut encoder = EncoderPass::new(false, true);
    recorder.begin_frame();
    recorder.current.begin_time_span(&mut encoder, "frame".to_string(), 1, at(0));
    recorder.current.end_time_span(&mut encoder, 1, at(40));
    let timings = recorder.finish_frame();
    assert_eq!(timings.len(), 1);
    assert_eq!(timings[0].0, vec!["render", "frame", "elapsed_cpu"]);
    assert_eq!(timings[0].1, Duration::from_nanos(40));
    assert_eq!(recorder.submitted.len(), 1);
    assert!(recorder.current.closed_spans.is_empty());

    assert!(recorder.finish_frame().is_empty());
    assert_eq!(recorder.submitted.len(), 2);
    recorder.begin_frame();
    assert!(recorder.submitted.is_empty());
    assert_eq!(recorder.finished.len(), 2);
    // The next frame reuses the last finished frame.
    recorder.finish_frame();
    assert_eq!(recorder.finished.len(), 1);
    assert_eq!(recorder.submitted.len(), 1);
}

#[test]
fn recorded_values_are_staged_by_a_copy_of_the_whole_slice() {
    let source = Buffer::new(BufferId(7), 64, 4 | 128);
    let slice = source.slice(SliceBound::Included(12), SliceBound::Excluded(16));
    let mut recorder = DiagnosticsRecorder::new();
    let copy = recorder.record_u32(&slice, BufferId(9), "draw_count".to_string());
    assert_eq!(
        copy,
        ValueCopy { source: BufferId(7), source_offset: 12, destination: BufferId(9), destination_offset: 0, size: 4 }
    );
    let copy = recorder.record_f32(&slice, BufferId(10), "ratio".to_string());
    assert_eq!(copy.destination, BufferId(10));
    let records = recorder.current.take_value_records();
    assert_eq!(records.len(), 2);
    assert_eq!((records[0].buffer, records[0].name.as_str(), records[0].is_f32), (BufferId(9), "draw_count", false));
    assert_eq!((records[1].buffer, records[1].name.as_str(), records[1].is_f32), (BufferId(10), "ratio", true));
    assert!(recorder.current.value_records.is_empty());
}

#[test]
fn value_buffers_are_named_after_the_value() {
    assert_eq!(value_buffer_label("draw_count"), "render_diagnostic_draw_count");
    assert_eq!(VALUE_BUFFER_SIZE, 4);
    assert_eq!(VALUE_BUFFER_USAGE, 8 | 1);
    assert_eq!(
        value_diagnostic_path(&"draw_count".to_string()),
        vec!["render".to_string(), "draw_count".to_string()]
    );
}

#[test]
fn staged_u32_values_are_little_endian() {
    assert_eq!(recorded_u32(&[0x78, 0x56, 0x34, 0x12]), 0x1234_5678);
    assert_eq!(recorded_u32(&[0xff, 0xff, 0xff, 0xff]), u32::MAX);
    assert_eq!(recorded_u32(&7u32.to_le_bytes()), 7);
}

#[test]
fn a_new_frame_drops_the_recorded_values() {
    let source = Buffer::new(BufferId(1), 4, 4);
    let slice = source.slice(SliceBound::Unbounded, SliceBound::Unbounded);
    let mut frame = FrameSpans::new();
    frame.record_value(&slice, BufferId(2), "x".to_string(), false);
    assert_eq!(frame.value_records.len(), 1);
    frame.begin();
    assert!(frame.value_records.is_empty());
}
