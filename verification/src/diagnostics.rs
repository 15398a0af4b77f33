//! Frame diagnostics: the spans a frame records (nested per thread, each
//! with its path of names), the timestamp and pipeline statistics query
//! slots they use, and the paths under which their measurements are
//! reported.

use crate::gpu_types::{BUFFER_USAGE_COPY_DST, BUFFER_USAGE_COPY_SRC, BUFFER_USAGE_MAP_READ};
use crate::resources::{BufferId, BufferSlice, QuerySet};
use crate::time::{duration_nanos, Instant};
use core::time::Duration;
use vstd::prelude::*;

verus! {

/// The most timestamp queries a frame writes.
pub const MAX_TIMESTAMP_QUERIES: u32 = 256;

/// The most pipeline statistics queries a frame writes.
pub const MAX_PIPELINE_STATISTICS: u32 = 128;

/// Something that can write a timestamp query.
pub trait WriteTimestamp {
    fn write_timestamp(&mut self, query_set: &QuerySet, index: u32);
}

/// Something that can run a pipeline statistics query.
pub trait WritePipelineStatistics {
    fn begin_pipeline_statistics_query(&mut self, query_set: &QuerySet, index: u32);

    fn end_pipeline_statistics_query(&mut self);
}

/// A render or compute pass, for diagnostics.
pub trait Pass: WritePipelineStatistics + WriteTimestamp {
    fn kind() -> PassKind;
}

/// The kind of a pass.
#[derive(Clone, Copy, Debug, PartialEq, Eq, Hash, Structural)]
pub enum PassKind {
    Render,
    Compute,
}

/// A span of a frame: the thread that opened it, the range of its path in
/// the frame's path components, its timestamp and statistics query slots
/// and its begin and end instants.
#[derive(Clone, Copy, Debug)]
pub struct SpanRecord {
    pub thread_id: u64,
    pub path_start: usize,
    pub path_end: usize,
    pub begin_timestamp_index: Option<u32>,
    pub end_timestamp_index: Option<u32>,
    pub begin_instant: Option<Instant>,
    pub end_instant: Option<Instant>,
    pub pipeline_statistics_index: Option<u32>,
}

/// The spans and query slots of one frame.
pub struct FrameSpans {
    pub timestamps_query_set: Option<QuerySet>,
    pub num_timestamps: u32,
    pub supports_timestamps_inside_passes: bool,
    pub supports_timestamps_inside_encoders: bool,
    pub pipeline_statistics_query_set: Option<QuerySet>,
    pub num_pipeline_statistics: u32,
    pub path_components: Vec<String>,
    pub open_spans: Vec<SpanRecord>,
    pub closed_spans: Vec<SpanRecord>,
    pub value_records: Vec<ValueRecord>,
}

/// The size of the buffer a recorded value is staged in.
pub const VALUE_BUFFER_SIZE: u64 = 4;

/// The usage of the buffer a recorded value is staged in: a copy
/// destination that can be mapped for reading.
pub const VALUE_BUFFER_USAGE: u32 = BUFFER_USAGE_COPY_DST | BUFFER_USAGE_MAP_READ;

/// A value a frame reads back: the buffer it is staged in, its name, and
/// whether its four bytes are an `f32` (else a `u32`).
#[derive(Clone, Debug)]
pub struct ValueRecord {
    pub buffer: BufferId,
    pub name: String,
    pub is_f32: bool,
}

/// The copy that stages a recorded value: the whole slice, into the start
/// of the staging buffer.
#[derive(Clone, Copy, Debug, PartialEq, Eq, Structural)]
pub struct ValueCopy {
    pub source: BufferId,
    pub source_offset: u64,
    pub destination: BufferId,
    pub destination_offset: u64,
    pub size: u64,
}

/// The label of the buffer a value named `name` is staged in.
pub fn value_buffer_label(name: &str) -> (label: String)
    ensures
        label@ == "render_diagnostic_"@ + name@,
{
    let mut label = String::from_str("render_diagnostic_");
    label.append(name);
    label
}

/// The reported path of a recorded value: `render`, then its name.
pub fn value_diagnostic_path(name: &String) -> (path: Vec<String>)
    ensures
        names(path@) == seq!["render"@, name@],
{
    let mut path: Vec<String> = Vec::new();
    path.push(String::from_str("render"));
    path.push(name.clone());
    proof {
        assert(names(path@) =~= seq!["render"@, name@]);
    }
    path
}

/// A staged `u32` value: its four bytes, little-endian.
pub fn recorded_u32(bytes: &[u8]) -> (v: u32)
    requires
        bytes@.len() == 4,
    ensures
        v as int == bytes@[0] + 256 * bytes@[1] + 65536 * bytes@[2] + 16777216 * bytes@[3],
{
    bytes[0] as u32 + 256 * (bytes[1] as u32) + 65536 * (bytes[2] as u32) + 16777216 * (bytes[3] as u32)
}

/// The names of a path.
pub open spec fn names(components: Seq<String>) -> Seq<Seq<char>> {
    components.map_values(|c: String| c@)
}

/// Whether a span's path range lies in `len` components.
pub open spec fn span_in(s: SpanRecord, len: nat) -> bool {
    s.path_start <= s.path_end <= len
}

/// The index of the last span of `spans` opened by `thread`.
pub open spec fn last_of_thread(spans: Seq<SpanRecord>, thread: u64) -> Option<int>
    decreases spans.len(),
{
    if spans.len() == 0 {
        None
    } else if spans.last().thread_id == thread {
        Some(spans.len() - 1)
    } else {
        last_of_thread(spans.drop_last(), thread)
    }
}

/// The last span of a thread is one of its spans.
proof fn lemma_last_of_thread(spans: Seq<SpanRecord>, thread: u64)
    ensures
        last_of_thread(spans, thread) matches Some(i) ==> 0 <= i < spans.len() && spans[i].thread_id == thread
            && forall|j: int| i < j < spans.len() ==> (#[trigger] spans[j]).thread_id != thread,
        last_of_thread(spans, thread) is None ==> forall|j: int| 0 <= j < spans.len() ==> (#[trigger] spans[j]).thread_id != thread,
    decreases spans.len(),
{
    if spans.len() > 0 {
        lemma_last_of_thread(spans.drop_last(), thread);
        if spans.last().thread_id != thread {
            assert forall|j: int| 0 <= j < spans.len() - 1 implies spans.drop_last()[j] == spans[j] by {}
        }
    }
}

impl FrameSpans {
    /// The frame's invariant: every span's path lies in the path
    /// components, and the query counts stay within their limits.
    pub open spec fn wf(&self) -> bool {
        &&& forall|i: int| 0 <= i < self.open_spans@.len() ==> span_in(#[trigger] self.open_spans@[i], self.path_components@.len())
        &&& forall|i: int| 0 <= i < self.closed_spans@.len() ==> span_in(#[trigger] self.closed_spans@[i], self.path_components@.len())
        &&& self.num_timestamps <= MAX_TIMESTAMP_QUERIES
        &&& self.num_pipeline_statistics <= MAX_PIPELINE_STATISTICS
    }

    /// The path of a span: the names in its range.
    pub open spec fn path_of(&self, s: SpanRecord) -> Seq<Seq<char>> {
        names(self.path_components@).subrange(s.path_start as int, s.path_end as int)
    }

    /// A frame without query sets (no timestamps or pipeline statistics
    /// are written), nothing recorded.
    pub fn new() -> (f: FrameSpans)
        ensures
            f.wf(),
            f.timestamps_query_set is None,
            f.pipeline_statistics_query_set is None,
            !f.supports_timestamps_inside_passes,
            !f.supports_timestamps_inside_encoders,
            f.num_timestamps == 0,
            f.num_pipeline_statistics == 0,
            f.path_components@.len() == 0,
            f.open_spans@.len() == 0,
            f.closed_spans@.len() == 0,
            f.value_records@.len() == 0,
    {
        FrameSpans {
            timestamps_query_set: None,
            num_timestamps: 0,
            supports_timestamps_inside_passes: false,
            supports_timestamps_inside_encoders: false,
            pipeline_statistics_query_set: None,
            num_pipeline_statistics: 0,
            path_components: Vec::new(),
            open_spans: Vec::new(),
            closed_spans: Vec::new(),
            value_records: Vec::new(),
        }
    }

    /// Starts a new frame: no query slot used, no path, no span.
    pub fn begin(&mut self)
        ensures
            final(self).wf(),
            final(self).num_timestamps == 0,
            final(self).num_pipeline_statistics == 0,
            final(self).path_components@.len() == 0,
            final(self).open_spans@.len() == 0,
            final(self).closed_spans@.len() == 0,
            final(self).value_records@.len() == 0,
            final(self).timestamps_query_set == old(self).timestamps_query_set,
            final(self).pipeline_statistics_query_set == old(self).pipeline_statistics_query_set,
            final(self).supports_timestamps_inside_passes == old(self).supports_timestamps_inside_passes,
            final(self).supports_timestamps_inside_encoders == old(self).supports_timestamps_inside_encoders,
    {
        self.num_timestamps = 0;
        self.num_pipeline_statistics = 0;
        self.path_components.clear();
        self.open_spans.clear();
        self.closed_spans.clear();
        self.value_records.clear();
    }

    /// Records a value of the frame: it is staged in `destination` (a
    /// buffer of `VALUE_BUFFER_SIZE` bytes and `VALUE_BUFFER_USAGE`) by the
    /// returned copy of the whole slice.
    pub fn record_value(&mut self, source: &BufferSlice, destination: BufferId, name: String, is_f32: bool) -> (copy: ValueCopy)
        requires
            old(self).wf(),
        ensures
            final(self).wf(),
            copy == (ValueCopy {
                source: source.buffer.id,
                source_offset: source.offset,
                destination,
                destination_offset: 0,
                size: source.size,
            }),
            final(self).value_records@.len() == old(self).value_records@.len() + 1,
            final(self).value_records@.drop_last() == old(self).value_records@,
            final(self).value_records@.last().buffer == destination,
            final(self).value_records@.last().name@ == name@,
            final(self).value_records@.last().is_f32 == is_f32,
            final(self).path_components@ == old(self).path_components@,
            final(self).open_spans@ == old(self).open_spans@,
            final(self).closed_spans@ == old(self).closed_spans@,
            final(self).num_timestamps == old(self).num_timestamps,
            final(self).num_pipeline_statistics == old(self).num_pipeline_statistics,
    {
        let copy = ValueCopy {
            source: source.id(),
            source_offset: source.offset(),
            destination,
            destination_offset: 0,
            size: source.size(),
        };
        self.value_records.push(ValueRecord { buffer: destination, name, is_f32 });
        proof {
            assert(self.value_records@.drop_last() =~= old(self).value_records@);
        }
        copy
    }

    /// Takes the frame's recorded values, in the order they were recorded.
    pub fn take_value_records(&mut self) -> (records: Vec<ValueRecord>)
        requires
            old(self).wf(),
        ensures
            final(self).wf(),
            records@ == old(self).value_records@,
            final(self).value_records@.len() == 0,
            final(self).path_components@ == old(self).path_components@,
            final(self).open_spans@ == old(self).open_spans@,
            final(self).closed_spans@ == old(self).closed_spans@,
            final(self).num_timestamps == old(self).num_timestamps,
            final(self).num_pipeline_statistics == old(self).num_pipeline_statistics,
    {
        let mut records: Vec<ValueRecord> = Vec::new();
        std::mem::swap(&mut records, &mut self.value_records);
        records
    }

    /// Whether a timestamp can be written (inside a pass when
    /// `is_inside_pass`): the device supports it there, a slot is left and
    /// a query set exists.
    pub open spec fn can_write_timestamp(&self, is_inside_pass: bool) -> bool {
        &&& self.supports_timestamps_inside_encoders
        &&& !(is_inside_pass && !self.supports_timestamps_inside_passes)
        &&& self.num_timestamps < MAX_TIMESTAMP_QUERIES
        &&& self.timestamps_query_set is Some
    }

    /// Writes a timestamp into the next slot when it can; returns the slot.
    pub fn write_timestamp<E: WriteTimestamp>(&mut self, encoder: &mut E, is_inside_pass: bool) -> (index: Option<u32>)
        requires
            old(self).wf(),
        ensures
            final(self).wf(),
            old(self).can_write_timestamp(is_inside_pass) ==> index == Some(old(self).num_timestamps)
                && final(self).num_timestamps == old(self).num_timestamps + 1,
            !old(self).can_write_timestamp(is_inside_pass) ==> index is None && final(self).num_timestamps == old(self).num_timestamps,
            final(self).num_pipeline_statistics == old(self).num_pipeline_statistics,
            final(self).path_components@ == old(self).path_components@,
            final(self).open_spans@ == old(self).open_spans@,
            final(self).closed_spans@ == old(self).closed_spans@,
            final(self).timestamps_query_set == old(self).timestamps_query_set,
            final(self).pipeline_statistics_query_set == old(self).pipeline_statistics_query_set,
            final(self).supports_timestamps_inside_passes == old(self).supports_timestamps_inside_passes,
            final(self).supports_timestamps_inside_encoders == old(self).supports_timestamps_inside_encoders,
    {
        if !self.supports_timestamps_inside_encoders {
            return None;
        }
        if is_inside_pass && !self.supports_timestamps_inside_passes {
            return None;
        }
        if self.num_timestamps >= MAX_TIMESTAMP_QUERIES {
            return None;
        }
        match &self.timestamps_query_set {
            Some(set) => {
                let index = self.num_timestamps;
                encoder.write_timestamp(set, index);
                self.num_timestamps = self.num_timestamps + 1;
                Some(index)
            },
            None => None,
        }
    }

    /// Begins a pipeline statistics query in the next slot when one is
    /// left and a query set exists; returns the slot.
    pub fn write_pipeline_statistics<E: WritePipelineStatistics>(&mut self, encoder: &mut E) -> (index: Option<u32>)
        requires
            old(self).wf(),
        ensures
            final(self).wf(),
            (old(self).num_pipeline_statistics < MAX_PIPELINE_STATISTICS && old(self).pipeline_statistics_query_set is Some)
                ==> index == Some(old(self).num_pipeline_statistics) && final(self).num_pipeline_statistics == old(self).num_pipeline_statistics + 1,
            !(old(self).num_pipeline_statistics < MAX_PIPELINE_STATISTICS && old(self).pipeline_statistics_query_set is Some)
                ==> index is None && final(self).num_pipeline_statistics == old(self).num_pipeline_statistics,
            final(self).num_timestamps == old(self).num_timestamps,
            final(self).path_components@ == old(self).path_components@,
            final(self).open_spans@ == old(self).open_spans@,
            final(self).closed_spans@ == old(self).closed_spans@,
            final(self).timestamps_query_set == old(self).timestamps_query_set,
            final(self).pipeline_statistics_query_set == old(self).pipeline_statistics_query_set,
            final(self).supports_timestamps_inside_passes == old(self).supports_timestamps_inside_passes,
            final(self).supports_timestamps_inside_encoders == old(self).supports_timestamps_inside_encoders,
    {
        if self.num_pipeline_statistics >= MAX_PIPELINE_STATISTICS {
            return None;
        }
        match &self.pipeline_statistics_query_set {
            Some(set) => {
                let index = self.num_pipeline_statistics;
                encoder.begin_pipeline_statistics_query(set, index);
                self.num_pipeline_statistics = self.num_pipeline_statistics + 1;
                Some(index)
            },
            None => None,
        }
    }

    /// The index of the last open span of `thread`.
    pub fn last_open_of_thread(&self, thread: u64) -> (r: Option<usize>)
        ensures
            r matches Some(i) ==> last_of_thread(self.open_spans@, thread) == Some(i as int),
            r is None ==> last_of_thread(self.open_spans@, thread) is None,
    {
        let mut i: usize = self.open_spans.len();
        proof {
            assert(self.open_spans@.take(i as int) =~= self.open_spans@);
        }
        while i > 0
            invariant
                i <= self.open_spans@.len(),
                last_of_thread(self.open_spans@, thread) == last_of_thread(self.open_spans@.take(i as int), thread),
            decreases i,
        {
            proof {
                assert(self.open_spans@.take(i as int).drop_last() =~= self.open_spans@.take(i as int - 1));
            }
            if self.open_spans[i - 1].thread_id == thread {
                return Some(i - 1);
            }
            i = i - 1;
        }
        None
    }

    /// Opens a span named `name` on `thread`. Its path is the path of the
    /// thread's innermost open span followed by `name` (just `name` when
    /// the thread has none); the paths of the other spans do not change.
    pub fn open_span(&mut self, name: String, thread: u64) -> (index: usize)
        requires
            old(self).wf(),
            old(self).path_components@.len() * 2 + 1 <= usize::MAX,
        ensures
            final(self).wf(),
            index == old(self).open_spans@.len(),
            final(self).open_spans@.len() == old(self).open_spans@.len() + 1,
            final(self).open_spans@[index as int].thread_id == thread,
            final(self).path_of(final(self).open_spans@[index as int]) == match last_of_thread(old(self).open_spans@, thread) {
                Some(p) => old(self).path_of(old(self).open_spans@[p]).push(name@),
                None => seq![name@],
            },
            final(self).open_spans@[index as int].begin_timestamp_index is None,
            final(self).open_spans@[index as int].end_timestamp_index is None,
            final(self).open_spans@[index as int].begin_instant is None,
            final(self).open_spans@[index as int].end_instant is None,
            final(self).open_spans@[index as int].pipeline_statistics_index is None,
            forall|i: int| 0 <= i < old(self).open_spans@.len() ==> #[trigger] final(self).open_spans@[i] == old(self).open_spans@[i],
            final(self).closed_spans@ == old(self).closed_spans@,
            forall|i: int| 0 <= i < old(self).open_spans@.len()
                ==> final(self).path_of(#[trigger] old(self).open_spans@[i]) == old(self).path_of(old(self).open_spans@[i]),
            forall|i: int| 0 <= i < old(self).closed_spans@.len()
                ==> final(self).path_of(#[trigger] old(self).closed_spans@[i]) == old(self).path_of(old(self).closed_spans@[i]),
            final(self).path_components@.len() <= 2 * old(self).path_components@.len() + 1,
            final(self).num_timestamps == old(self).num_timestamps,
            final(self).num_pipeline_statistics == old(self).num_pipeline_statistics,
            final(self).timestamps_query_set == old(self).timestamps_query_set,
            final(self).pipeline_statistics_query_set == old(self).pipeline_statistics_query_set,
            final(self).supports_timestamps_inside_passes == old(self).supports_timestamps_inside_passes,
            final(self).supports_timestamps_inside_encoders == old(self).supports_timestamps_inside_encoders,
    {
        let ghost old_names = names(self.path_components@);
        let parent = self.last_open_of_thread(thread);
        proof {
            lemma_last_of_thread(self.open_spans@, thread);
        }
        let (start, end): (usize, usize) = match parent {
            Some(p) => {
                let ps = self.open_spans[p].path_start;
                let pe = self.open_spans[p].path_end;
                if pe == self.path_components.len() {
                    (ps, pe + 1)
                } else {
                    let len0 = self.path_components.len();
                    let mut k: usize = ps;
                    while k < pe
                        invariant
                            ps <= k <= pe,
                            self.open_spans@ == old(self).open_spans@,
                            self.closed_spans@ == old(self).closed_spans@,
                            self.num_timestamps == old(self).num_timestamps,
                            self.num_pipeline_statistics == old(self).num_pipeline_statistics,
                            self.timestamps_query_set == old(self).timestamps_query_set,
                            self.pipeline_statistics_query_set == old(self).pipeline_statistics_query_set,
                            self.supports_timestamps_inside_passes == old(self).supports_timestamps_inside_passes,
                            self.supports_timestamps_inside_encoders == old(self).supports_timestamps_inside_encoders,
                            old(self).wf(),
                            pe <= len0,
                            len0 * 2 + 1 <= usize::MAX,
                            self.path_components@.len() == len0 + (k - ps),
                            self.path_components@.subrange(0, len0 as int) == old(self).path_components@,
                            names(self.path_components@).subrange(len0 as int, self.path_components@.len() as int)
                                == old_names.subrange(ps as int, k as int),
                            old_names == names(old(self).path_components@),
                        decreases pe - k,
                    {
                        let c = self.path_components[k].clone();
                        let ghost before = self.path_components@;
                        self.path_components.push(c);
                        proof {
                            assert(self.path_components@.subrange(0, len0 as int) =~= before.subrange(0, len0 as int));
                            assert(names(self.path_components@).subrange(len0 as int, self.path_components@.len() as int)
                                =~= names(before).subrange(len0 as int, before.len() as int).push(c@));
                            assert(old_names.subrange(ps as int, k as int + 1) =~= old_names.subrange(ps as int, k as int).push(old_names[k as int]));
                            assert(before[k as int] == old(self).path_components@[k as int]);
                        }
                        k = k + 1;
                    }
                    (len0, self.path_components.len() + 1)
                }
            },
            None => (self.path_components.len(), self.path_components.len() + 1),
        };
        let ghost mid = self.path_components@;
        self.path_components.push(name);
        self.open_spans.push(SpanRecord {
            thread_id: thread,
            path_start: start,
            path_end: end,
            begin_timestamp_index: None,
            end_timestamp_index: None,
            begin_instant: None,
            end_instant: None,
            pipeline_statistics_index: None,
        });
        proof {
            let n = self.path_components@;
            assert(n.subrange(0, mid.len() as int) =~= mid);
            assert(mid.subrange(0, old(self).path_components@.len() as int) =~= old(self).path_components@);
            assert forall|i: int| 0 <= i < old(self).open_spans@.len()
                implies self.path_of(#[trigger] old(self).open_spans@[i]) == old(self).path_of(old(self).open_spans@[i]) by {
                let s = old(self).open_spans@[i];
                assert(names(n).subrange(s.path_start as int, s.path_end as int)
                    =~= names(old(self).path_components@).subrange(s.path_start as int, s.path_end as int)) by {
                    assert forall|j: int| s.path_start <= j < s.path_end implies n[j] == old(self).path_components@[j] by {
                        assert(n[j] == mid[j]);
                        assert(mid[j] == old(self).path_components@[j]);
                    }
                }
            }
            assert forall|i: int| 0 <= i < old(self).closed_spans@.len()
                implies self.path_of(#[trigger] old(self).closed_spans@[i]) == old(self).path_of(old(self).closed_spans@[i]) by {
                let s = old(self).closed_spans@[i];
                assert(names(n).subrange(s.path_start as int, s.path_end as int)
                    =~= names(old(self).path_components@).subrange(s.path_start as int, s.path_end as int)) by {
                    assert forall|j: int| s.path_start <= j < s.path_end implies n[j] == old(self).path_components@[j] by {
                        assert(n[j] == mid[j]);
                        assert(mid[j] == old(self).path_components@[j]);
                    }
                }
            }
            let new_span = self.open_spans@[self.open_spans@.len() - 1];
            match last_of_thread(old(self).open_spans@, thread) {
                Some(p) => {
                    let ps = old(self).open_spans@[p];
                    if ps.path_end == old(self).path_components@.len() {
                        assert(names(n).subrange(start as int, end as int)
                            =~= names(old(self).path_components@).subrange(ps.path_start as int, ps.path_end as int).push(name@)) by {
                            assert forall|j: int| start <= j < end - 1 implies n[j] == old(self).path_components@[j] by {
                                assert(n[j] == mid[j]);
                            }
                        }
                    } else {
                        assert(names(n).subrange(start as int, end as int)
                            =~= names(mid).subrange(start as int, mid.len() as int).push(name@)) by {
                            assert forall|j: int| start <= j < end - 1 implies n[j] == mid[j] by {}
                        }
                    }
                },
                None => {
                    assert(names(n).subrange(start as int, end as int) =~= seq![name@]);
                },
            }
        }
        self.open_spans.len() - 1
    }

    /// Closes the innermost open span of `thread` (the thread must have
    /// one): it moves to the closed spans (the last open span takes its
    /// place). Returns its index among the closed spans.
    pub fn close_span(&mut self, thread: u64) -> (index: usize)
        requires
            old(self).wf(),
            last_of_thread(old(self).open_spans@, thread) is Some,
        ensures
            final(self).wf(),
            index == old(self).closed_spans@.len(),
            final(self).closed_spans@ == old(self).closed_spans@.push(old(self).open_spans@[last_of_thread(old(self).open_spans@, thread).unwrap()]),
            ({
                let k = last_of_thread(old(self).open_spans@, thread).unwrap();
                let last = old(self).open_spans@.len() - 1;
                final(self).open_spans@ == if k == last {
                    old(self).open_spans@.drop_last()
                } else {
                    old(self).open_spans@.update(k, old(self).open_spans@[last]).drop_last()
                }
            }),
            final(self).path_components@ == old(self).path_components@,
            final(self).num_timestamps == old(self).num_timestamps,
            final(self).num_pipeline_statistics == old(self).num_pipeline_statistics,
            final(self).timestamps_query_set == old(self).timestamps_query_set,
            final(self).pipeline_statistics_query_set == old(self).pipeline_statistics_query_set,
            final(self).supports_timestamps_inside_passes == old(self).supports_timestamps_inside_passes,
            final(self).supports_timestamps_inside_encoders == old(self).supports_timestamps_inside_encoders,
    {
        let k = match self.last_open_of_thread(thread) {
            Some(k) => k,
            None => {
                proof {
                    assert(false);
                }
                0
            },
        };
        proof {
            lemma_last_of_thread(self.open_spans@, thread);
        }
        let span = self.open_spans.swap_remove(k);
        self.closed_spans.push(span);
        proof {
            assert forall|i: int| 0 <= i < self.open_spans@.len() implies span_in(#[trigger] self.open_spans@[i], self.path_components@.len()) by {
                let last = old(self).open_spans@.len() - 1;
                if i == k && k != last {
                    assert(self.open_spans@[i] == old(self).open_spans@[last]);
                } else {
                    assert(self.open_spans@[i] == old(self).open_spans@[i]);
                }
            }
        }
        self.closed_spans.len() - 1
    }

    /// Begins a timing span on `thread` at `now`: writes the begin timestamp
    /// when it can, then opens the span with that slot and instant.
    pub fn begin_time_span<E: WriteTimestamp>(&mut self, encoder: &mut E, name: String, thread: u64, now: Instant)
        requires
            old(self).wf(),
            old(self).path_components@.len() * 2 + 1 <= usize::MAX,
        ensures
            final(self).wf(),
            final(self).open_spans@.len() == old(self).open_spans@.len() + 1,
            final(self).open_spans@.last().thread_id == thread,
            final(self).open_spans@.last().begin_instant == Some(now),
            final(self).path_of(final(self).open_spans@.last()) == match last_of_thread(old(self).open_spans@, thread) {
                Some(p) => old(self).path_of(old(self).open_spans@[p]).push(name@),
                None => seq![name@],
            },
            final(self).closed_spans@ == old(self).closed_spans@,
    {
        let begin_timestamp_index = self.write_timestamp(encoder, false);
        let index = self.open_span(name, thread);
        let mut span = self.open_spans[index];
        span.begin_instant = Some(now);
        span.begin_timestamp_index = begin_timestamp_index;
        self.open_spans.set(index, span);
        proof {
            assert forall|i: int| 0 <= i < self.open_spans@.len() implies span_in(#[trigger] self.open_spans@[i], self.path_components@.len()) by {}
        }
    }

    /// Ends the innermost timing span of `thread` at `now`: writes the end
    /// timestamp when it can, then closes the span with that slot and
    /// instant.
    pub fn end_time_span<E: WriteTimestamp>(&mut self, encoder: &mut E, thread: u64, now: Instant)
        requires
            old(self).wf(),
            last_of_thread(old(self).open_spans@, thread) is Some,
        ensures
            final(self).wf(),
            final(self).closed_spans@.len() == old(self).closed_spans@.len() + 1,
            final(self).closed_spans@.last().end_instant == Some(now),
            final(self).closed_spans@.last().begin_instant == old(self).open_spans@[last_of_thread(old(self).open_spans@, thread).unwrap()].begin_instant,
            final(self).closed_spans@.last().path_start == old(self).open_spans@[last_of_thread(old(self).open_spans@, thread).unwrap()].path_start,
            final(self).closed_spans@.last().path_end == old(self).open_spans@[last_of_thread(old(self).open_spans@, thread).unwrap()].path_end,
            final(self).path_components@ == old(self).path_components@,
    {
        let end_timestamp_index = self.write_timestamp(encoder, false);
        let index = self.close_span(thread);
        let mut span = self.closed_spans[index];
        span.end_timestamp_index = end_timestamp_index;
        span.end_instant = Some(now);
        self.closed_spans.set(index, span);
        proof {
            assert forall|i: int| 0 <= i < self.closed_spans@.len() implies span_in(#[trigger] self.closed_spans@[i], self.path_components@.len()) by {}
        }
    }

    /// Begins a pass span on `thread` at `now`: the begin timestamp (inside
    /// a pass) and the pipeline statistics query when they can be written,
    /// then the span.
    pub fn begin_pass<P: Pass>(&mut self, pass: &mut P, name: String, thread: u64, now: Instant)
        requires
            old(self).wf(),
            old(self).path_components@.len() * 2 + 1 <= usize::MAX,
        ensures
            final(self).wf(),
            final(self).open_spans@.len() == old(self).open_spans@.len() + 1,
            final(self).open_spans@.last().thread_id == thread,
            final(self).open_spans@.last().begin_instant == Some(now),
            final(self).path_of(final(self).open_spans@.last()) == match last_of_thread(old(self).open_spans@, thread) {
                Some(p) => old(self).path_of(old(self).open_spans@[p]).push(name@),
                None => seq![name@],
            },
            final(self).closed_spans@ == old(self).closed_spans@,
    {
        let begin_timestamp_index = self.write_timestamp(pass, true);
        let pipeline_statistics_index = self.write_pipeline_statistics(pass);
        let index = self.open_span(name, thread);
        let mut span = self.open_spans[index];
        span.begin_instant = Some(now);
        span.begin_timestamp_index = begin_timestamp_index;
        span.pipeline_statistics_index = pipeline_statistics_index;
        self.open_spans.set(index, span);
        proof {
            assert forall|i: int| 0 <= i < self.open_spans@.len() implies span_in(#[trigger] self.open_spans@[i], self.path_components@.len()) by {}
        }
    }

    /// Ends the innermost pass span of `thread` at `now`: the end timestamp
    /// when it can be written, the span closed, and its pipeline statistics
    /// query ended when it had one.
    pub fn end_pass<P: Pass>(&mut self, pass: &mut P, thread: u64, now: Instant)
        requires
            old(self).wf(),
            last_of_thread(old(self).open_spans@, thread) is Some,
        ensures
            final(self).wf(),
            final(self).closed_spans@.len() == old(self).closed_spans@.len() + 1,
            final(self).closed_spans@.last().end_instant == Some(now),
            final(self).path_components@ == old(self).path_components@,
    {
        let end_timestamp_index = self.write_timestamp(pass, true);
        let index = self.close_span(thread);
        let mut span = self.closed_spans[index];
        span.end_timestamp_index = end_timestamp_index;
        if span.pipeline_statistics_index.is_some() {
            pass.end_pipeline_statistics_query();
        }
        span.end_instant = Some(now);
        self.closed_spans.set(index, span);
        proof {
            assert forall|i: int| 0 <= i < self.closed_spans@.len() implies span_in(#[trigger] self.closed_spans@[i], self.path_components@.len()) by {}
        }
    }

    /// The reported path of a span's field: `render`, the span's path,
    /// then the field.
    pub fn diagnostic_path(&self, start: usize, end: usize, field: &str) -> (path: Vec<String>)
        requires
            start <= end <= self.path_components@.len(),
        ensures
            names(path@) == seq!["render"@] + names(self.path_components@).subrange(start as int, end as int) + seq![field@],
    {
        let mut path: Vec<String> = Vec::new();
        path.push(String::from_str("render"));
        let mut i: usize = start;
        while i < end
            invariant
                start <= i <= end,
                end <= self.path_components@.len(),
                names(path@) == seq!["render"@] + names(self.path_components@).subrange(start as int, i as int),
            decreases end - i,
        {
            let ghost before = path@;
            path.push(self.path_components[i].clone());
            proof {
                assert(names(path@) =~= names(before).push(self.path_components@[i as int]@));
                assert(names(self.path_components@).subrange(start as int, i as int + 1)
                    =~= names(self.path_components@).subrange(start as int, i as int).push(self.path_components@[i as int]@));
                assert(seq!["render"@] + names(self.path_components@).subrange(start as int, i as int + 1)
                    =~= (seq!["render"@] + names(self.path_components@).subrange(start as int, i as int)).push(self.path_components@[i as int]@));
            }
            i = i + 1;
        }
        let ghost before = path@;
        path.push(String::from_str(field));
        proof {
            assert(names(path@) =~= names(before).push(field@));
        }
        path
    }

    /// The CPU timings of `spans` (closed spans of this frame): for each
    /// span with both instants, in order, its `elapsed_cpu` path and the
    /// nanoseconds from its begin to its end instant (zero when the end is
    /// earlier).
    pub open spec fn cpu_timings_spec(&self, spans: Seq<SpanRecord>) -> Seq<(Seq<Seq<char>>, nat)>
        decreases spans.len(),
    {
        if spans.len() == 0 {
            Seq::empty()
        } else {
            let rest = self.cpu_timings_spec(spans.drop_last());
            let s = spans.last();
            match (s.begin_instant, s.end_instant) {
                (Some(b), Some(e)) => rest.push((
                    seq!["render"@] + self.path_of(s) + seq!["elapsed_cpu"@],
                    (if e.nanos() >= b.nanos() { e.nanos() - b.nanos() } else { 0 }) as nat,
                )),
                _ => rest,
            }
        }
    }

    /// The CPU time of every closed span that has both instants, with its
    /// `elapsed_cpu` path, in closing order.
    pub fn cpu_timings(&self) -> (r: Vec<(Vec<String>, Duration)>)
        requires
            self.wf(),
        ensures
            r@.map_values(|t: (Vec<String>, Duration)| (names(t.0@), duration_nanos(t.1)))
                == self.cpu_timings_spec(self.closed_spans@),
    {
        let mut out: Vec<(Vec<String>, Duration)> = Vec::new();
        let mut i: usize = 0;
        while i < self.closed_spans.len()
            invariant
                self.wf(),
                i <= self.closed_spans@.len(),
                out@.map_values(|t: (Vec<String>, Duration)| (names(t.0@), duration_nanos(t.1)))
                    == self.cpu_timings_spec(self.closed_spans@.take(i as int)),
            decreases self.closed_spans.len() - i,
        {
            let span = self.closed_spans[i];
            proof {
                assert(self.closed_spans@.take(i as int + 1).drop_last() =~= self.closed_spans@.take(i as int));
                assert(self.closed_spans@.take(i as int + 1).last() == span);
                assert(span_in(self.closed_spans@[i as int], self.path_components@.len()));
            }
            let ghost before = out@;
            match (span.begin_instant, span.end_instant) {
                (Some(begin), Some(end)) => {
                    let path = self.diagnostic_path(span.path_start, span.path_end, "elapsed_cpu");
                    let d = end.duration_since(begin);
                    out.push((path, d));
                    proof {
                        assert(out@.map_values(|t: (Vec<String>, Duration)| (names(t.0@), duration_nanos(t.1)))
                            =~= before.map_values(|t: (Vec<String>, Duration)| (names(t.0@), duration_nanos(t.1)))
                                .push((names(path@), duration_nanos(d))));
                    }
                },
                _ => {},
            }
            i = i + 1;
        }
        proof {
            assert(self.closed_spans@.take(self.closed_spans@.len() as int) =~= self.closed_spans@);
        }
        out
    }
}

/// The order in which frames leave a list when its first frame is removed
/// again and again, the last frame taking the removed one's place each time.
pub open spec fn swap_drain_order<F>(s: Seq<F>) -> Seq<F>
    decreases s.len(),
{
    if s.len() == 0 {
        Seq::empty()
    } else {
        seq![s[0]] + swap_drain_order(s.update(0, s.last()).drop_last())
    }
}

/// Finishing the submitted frames loses none and invents none: the frames
/// moved to the finished list are the submitted frames, each as often.
pub proof fn lemma_swap_drain_keeps_frames<F>(s: Seq<F>)
    ensures
        swap_drain_order(s).to_multiset() == s.to_multiset(),
    decreases s.len(),
{
    broadcast use vstd::seq_lib::group_to_multiset_ensures, vstd::multiset::group_multiset_axioms;
    if s.len() == 0 {
        assert(swap_drain_order(s) =~= Seq::<F>::empty());
    } else {
        let u = s.update(0, s.last());
        let t = u.drop_last();
        lemma_swap_drain_keeps_frames(t);
        vstd::seq_lib::lemma_multiset_commutative(seq![s[0]], swap_drain_order(t));
        vstd::seq_lib::to_multiset_update(s, 0, s.last());
        assert(t.push(u.last()) =~= u);
        vstd::seq_lib::to_multiset_build(t, u.last());
        assert(seq![s[0]].to_multiset() =~= vstd::multiset::Multiset::empty().insert(s[0])) by {
            assert(seq![s[0]] =~= Seq::<F>::empty().push(s[0]));
            vstd::seq_lib::to_multiset_build(Seq::<F>::empty(), s[0]);
        }
        assert(s.to_multiset().count(s[0]) > 0) by {
            assert(s.contains(s[0]));
        }
        let last = s.last();
        assert(swap_drain_order(s) == seq![s[0]] + swap_drain_order(t));
        assert(u.to_multiset() == s.to_multiset().insert(last).remove(s[0]));
        assert(t.push(last).to_multiset() == t.to_multiset().insert(last));
        assert forall|x: F| #[trigger] swap_drain_order(s).to_multiset().count(x) == s.to_multiset().count(x) by {
            let d = swap_drain_order(s).to_multiset();
            assert(d == seq![s[0]].to_multiset().add(swap_drain_order(t).to_multiset()));
            assert(d.count(x) == (if x == s[0] { 1nat } else { 0nat }) + t.to_multiset().count(x));
            assert(u.to_multiset().count(x) == t.to_multiset().count(x) + (if x == last { 1nat } else { 0nat }));
            assert(s.to_multiset().insert(last).count(s[0]) > 0);
            assert(u.to_multiset().count(x) == s.to_multiset().count(x) + (if x == last { 1nat } else { 0nat })
                - (if x == s[0] { 1int } else { 0int }));
        }
        assert(swap_drain_order(s).to_multiset() =~= s.to_multiset());
    }
}

/// The diagnostics of the frames: the frame being recorded, the frames
/// submitted and not yet finished, and the finished frames kept for reuse.
pub struct DiagnosticsRecorder {
    pub current: FrameSpans,
    pub submitted: Vec<FrameSpans>,
    pub finished: Vec<FrameSpans>,
}

/// `after` is `before` with a value recorded in its current frame by
/// `copy`: the whole slice, staged in `destination`.
pub open spec fn value_recorded(
    before: DiagnosticsRecorder,
    after: DiagnosticsRecorder,
    copy: ValueCopy,
    source: BufferSlice,
    destination: BufferId,
    name: Seq<char>,
    is_f32: bool,
) -> bool {
    &&& copy == (ValueCopy {
        source: source.buffer.id,
        source_offset: source.offset,
        destination,
        destination_offset: 0,
        size: source.size,
    })
    &&& after.current.value_records@.len() == before.current.value_records@.len() + 1
    &&& after.current.value_records@.drop_last() == before.current.value_records@
    &&& after.current.value_records@.last().buffer == destination
    &&& after.current.value_records@.last().name@ == name
    &&& after.current.value_records@.last().is_f32 == is_f32
    &&& after.current.closed_spans@ == before.current.closed_spans@
    &&& after.current.open_spans@ == before.current.open_spans@
    &&& after.submitted@ == before.submitted@
    &&& after.finished@ == before.finished@
}

impl DiagnosticsRecorder {
    /// Every frame satisfies the frame invariant.
    pub open spec fn wf(&self) -> bool {
        &&& self.current.wf()
        &&& forall|i: int| 0 <= i < self.submitted@.len() ==> (#[trigger] self.submitted@[i]).wf()
        &&& forall|i: int| 0 <= i < self.finished@.len() ==> (#[trigger] self.finished@[i]).wf()
    }

    /// A recorder with an empty current frame and no other frame.
    pub fn new() -> (r: DiagnosticsRecorder)
        ensures
            r.wf(),
            r.current.closed_spans@.len() == 0,
            r.current.open_spans@.len() == 0,
            r.submitted@.len() == 0,
            r.finished@.len() == 0,
    {
        DiagnosticsRecorder { current: FrameSpans::new(), submitted: Vec::new(), finished: Vec::new() }
    }

    /// Begins a frame: every submitted frame is finished (their results are
    /// already reported), and the current frame starts empty.
    pub fn begin_frame(&mut self)
        requires
            old(self).wf(),
        ensures
            final(self).wf(),
            final(self).submitted@.len() == 0,
            final(self).finished@ == old(self).finished@ + swap_drain_order(old(self).submitted@),
            final(self).current.path_components@.len() == 0,
            final(self).current.open_spans@.len() == 0,
            final(self).current.closed_spans@.len() == 0,
            final(self).current.num_timestamps == 0,
            final(self).current.num_pipeline_statistics == 0,
    {
        let ghost orig = self.submitted@;
        proof {
            assert(self.finished@ + swap_drain_order(self.submitted@) =~= old(self).finished@ + swap_drain_order(orig));
        }
        while self.submitted.len() > 0
            invariant
                self.finished@ + swap_drain_order(self.submitted@) == old(self).finished@ + swap_drain_order(orig),
                self.wf(),
            decreases self.submitted.len(),
        {
            let ghost sub = self.submitted@;
            let ghost fin = self.finished@;
            let removed = self.submitted.swap_remove(0);
            proof {
                assert(swap_drain_order(sub) == seq![sub[0]] + swap_drain_order(sub.update(0, sub.last()).drop_last()));
                assert forall|i: int| 0 <= i < self.submitted@.len() implies (#[trigger] self.submitted@[i]).wf() by {
                    if i == 0 {
                        assert(self.submitted@[i] == sub.last());
                        assert(sub[sub.len() - 1].wf());
                    } else {
                        assert(self.submitted@[i] == sub[i]);
                    }
                }
            }
            self.finished.push(removed);
            proof {
                assert(self.finished@ + swap_drain_order(self.submitted@) =~= fin + swap_drain_order(sub));
            }
        }
        proof {
            assert(swap_drain_order(self.submitted@) =~= Seq::<FrameSpans>::empty());
            assert(self.finished@ =~= old(self).finished@ + swap_drain_order(orig));
        }
        self.current.begin();
    }

    /// Records a `u32` value of the current frame from a 4-byte slice of a
    /// buffer that can be copied from.
    pub fn record_u32(&mut self, source: &BufferSlice, destination: BufferId, name: String) -> (copy: ValueCopy)
        requires
            old(self).wf(),
            source.size == 4,
            source.buffer.usage & BUFFER_USAGE_COPY_SRC != 0,
        ensures
            final(self).wf(),
            value_recorded(*old(self), *final(self), copy, *source, destination, name@, false),
    {
        self.current.record_value(source, destination, name, false)
    }

    /// Records an `f32` value of the current frame from a 4-byte slice of a
    /// buffer that can be copied from.
    pub fn record_f32(&mut self, source: &BufferSlice, destination: BufferId, name: String) -> (copy: ValueCopy)
        requires
            old(self).wf(),
            source.size == 4,
            source.buffer.usage & BUFFER_USAGE_COPY_SRC != 0,
        ensures
            final(self).wf(),
            value_recorded(*old(self), *final(self), copy, *source, destination, name@, true),
    {
        self.current.record_value(source, destination, name, true)
    }


    /// Finishes the current frame: returns its CPU timings, submits it, and
    /// records the next frame in the last finished frame (reused), or in a
    /// new empty frame when there is none.
    pub fn finish_frame(&mut self) -> (timings: Vec<(Vec<String>, Duration)>)
        requires
            old(self).wf(),
        ensures
            final(self).wf(),
            timings@.map_values(|t: (Vec<String>, Duration)| (names(t.0@), duration_nanos(t.1)))
                == old(self).current.cpu_timings_spec(old(self).current.closed_spans@),
            final(self).submitted@ == old(self).submitted@.push(old(self).current),
            old(self).finished@.len() > 0 ==> final(self).current == old(self).finished@.last()
                && final(self).finished@ == old(self).finished@.drop_last(),
            old(self).finished@.len() == 0 ==> final(self).finished@.len() == 0
                && final(self).current.closed_spans@.len() == 0 && final(self).current.open_spans@.len() == 0,
    {
        let timings = self.current.cpu_timings();
        let mut next = match self.finished.pop() {
            Some(frame) => frame,
            None => FrameSpans::new(),
        };
        std::mem::swap(&mut self.current, &mut next);
        self.submitted.push(next);
        timings
    }
}

} // verus!
