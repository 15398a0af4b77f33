//! Draw-state tracking of a render pass: redundant state changes are
//! skipped, a pass that cannot run correctly is poisoned (its draws are
//! skipped), and every draw command becomes the engine's draw attributes.

use crate::diligent_types as dil;
use crate::gpu_types as gpu;
use crate::diagnostics::{Pass, PassKind, WritePipelineStatistics, WriteTimestamp};
use crate::offsets;
use crate::resources::QuerySet;
use vstd::prelude::*;

verus! {

/// What identifies a bound buffer slice: buffer id, offset and size.
pub type BufferSliceKey = (u64, u64, u64);

/// The key of a buffer slice.
pub fn buffer_slice_key(buffer: u64, offset: u64, size: u64) -> (k: BufferSliceKey)
    ensures
        k == (buffer, offset, size),
{
    (buffer, offset, size)
}

/// The state bound so far in a pass.
pub struct DrawState {
    pub pipeline: Option<u64>,
    pub bind_groups: Vec<(Option<u64>, Vec<u32>)>,
    pub vertex_buffers: Vec<Option<BufferSliceKey>>,
    pub index_buffer: Option<(BufferSliceKey, gpu::IndexFormat)>,
    pub stores_state: bool,
}

/// Compares two offset arrays.
fn same_offsets(a: &[u32], b: &[u32]) -> (r: bool)
    ensures
        r == (a@ == b@),
{
    if a.len() != b.len() {
        return false;
    }
    let mut i: usize = 0;
    while i < a.len()
        invariant
            i <= a.len(),
            a.len() == b.len(),
            forall|k: int| 0 <= k < i ==> a@[k] == b@[k],
        decreases a.len() - i,
    {
        if a[i] != b[i] {
            return false;
        }
        i = i + 1;
    }
    proof {
        assert(a@ =~= b@);
    }
    true
}

impl DrawState {
    /// Nothing bound, with `max_bind_groups` bind group slots and
    /// `max_vertex_buffers` vertex buffer slots.
    pub fn new(max_bind_groups: usize, max_vertex_buffers: usize) -> (s: DrawState)
        ensures
            s.pipeline is None,
            s.bind_groups@.len() == max_bind_groups,
            forall|i: int| 0 <= i < max_bind_groups ==> (#[trigger] s.bind_groups@[i]).0 is None && s.bind_groups@[i].1@.len() == 0,
            s.vertex_buffers@ == Seq::new(max_vertex_buffers as nat, |i: int| None::<BufferSliceKey>),
            s.index_buffer is None,
            !s.stores_state,
    {
        let mut bind_groups: Vec<(Option<u64>, Vec<u32>)> = Vec::new();
        let mut i: usize = 0;
        while i < max_bind_groups
            invariant
                i <= max_bind_groups,
                bind_groups@.len() == i,
                forall|k: int| 0 <= k < i ==> (#[trigger] bind_groups@[k]).0 is None && bind_groups@[k].1@.len() == 0,
            decreases max_bind_groups - i,
        {
            bind_groups.push((None, Vec::new()));
            i = i + 1;
        }
        let mut vertex_buffers: Vec<Option<BufferSliceKey>> = Vec::new();
        let mut j: usize = 0;
        while j < max_vertex_buffers
            invariant
                j <= max_vertex_buffers,
                vertex_buffers@ == Seq::new(j as nat, |i: int| None::<BufferSliceKey>),
            decreases max_vertex_buffers - j,
        {
            vertex_buffers.push(None);
            j = j + 1;
            proof {
                assert(vertex_buffers@ =~= Seq::new(j as nat, |i: int| None::<BufferSliceKey>));
            }
        }
        DrawState { pipeline: None, bind_groups, vertex_buffers, index_buffer: None, stores_state: false }
    }

    /// Marks `pipeline` as bound.
    pub fn set_pipeline(&mut self, pipeline: u64)
        ensures
            *final(self) == (DrawState { pipeline: Some(pipeline), stores_state: true, ..*old(self) }),
    {
        self.pipeline = Some(pipeline);
        self.stores_state = true;
    }

    /// Whether `pipeline` is the bound pipeline.
    pub fn is_pipeline_set(&self, pipeline: u64) -> (r: bool)
        ensures
            r == (self.pipeline == Some(pipeline)),
    {
        match self.pipeline {
            Some(p) => p == pipeline,
            None => false,
        }
    }

    /// Marks `bind_group` with `dynamic_indices` as bound to slot `index`.
    pub fn set_bind_group(&mut self, index: usize, bind_group: u64, dynamic_indices: &[u32])
        requires
            index < old(self).bind_groups@.len(),
        ensures
            final(self).pipeline == old(self).pipeline,
            final(self).vertex_buffers@ == old(self).vertex_buffers@,
            final(self).index_buffer == old(self).index_buffer,
            final(self).stores_state,
            final(self).bind_groups@.len() == old(self).bind_groups@.len(),
            final(self).bind_groups@[index as int].0 == Some(bind_group),
            final(self).bind_groups@[index as int].1@ == dynamic_indices@,
            forall|j: int| 0 <= j < old(self).bind_groups@.len() && j != index ==> final(self).bind_groups@[j] == old(self).bind_groups@[j],
    {
        let offsets = vstd::slice::slice_to_vec(dynamic_indices);
        self.bind_groups.set(index, (Some(bind_group), offsets));
        self.stores_state = true;
    }

    /// Whether `bind_group` with exactly `dynamic_indices` is bound to slot
    /// `index` (false for a slot past the last).
    pub fn is_bind_group_set(&self, index: usize, bind_group: u64, dynamic_indices: &[u32]) -> (r: bool)
        ensures
            r == (index < self.bind_groups@.len() && self.bind_groups@[index as int].0 == Some(bind_group)
                && self.bind_groups@[index as int].1@ == dynamic_indices@),
    {
        if index < self.bind_groups.len() {
            let current = &self.bind_groups[index];
            match current.0 {
                Some(g) => g == bind_group && same_offsets(dynamic_indices, current.1.as_slice()),
                None => false,
            }
        } else {
            false
        }
    }

    /// Marks the slice `key` as bound to vertex slot `index`.
    pub fn set_vertex_buffer(&mut self, index: usize, key: BufferSliceKey)
        requires
            index < old(self).vertex_buffers@.len(),
        ensures
            final(self).vertex_buffers@ == old(self).vertex_buffers@.update(index as int, Some(key)),
            final(self).pipeline == old(self).pipeline,
            final(self).bind_groups@ == old(self).bind_groups@,
            final(self).index_buffer == old(self).index_buffer,
            final(self).stores_state,
    {
        self.vertex_buffers.set(index, Some(key));
        self.stores_state = true;
    }

    /// Whether the slice `key` is bound to vertex slot `index` (false for a
    /// slot past the last).
    pub fn is_vertex_buffer_set(&self, index: usize, key: BufferSliceKey) -> (r: bool)
        ensures
            r == (index < self.vertex_buffers@.len() && self.vertex_buffers@[index as int] == Some(key)),
    {
        if index < self.vertex_buffers.len() {
            match self.vertex_buffers[index] {
                Some(k) => k.0 == key.0 && k.1 == key.1 && k.2 == key.2,
                None => false,
            }
        } else {
            false
        }
    }

    /// Marks the slice `key` as the bound index buffer, of `format`.
    pub fn set_index_buffer(&mut self, key: BufferSliceKey, format: gpu::IndexFormat)
        ensures
            final(self).index_buffer == Some((key, format)),
            final(self).pipeline == old(self).pipeline,
            final(self).bind_groups@ == old(self).bind_groups@,
            final(self).vertex_buffers@ == old(self).vertex_buffers@,
            final(self).stores_state,
    {
        self.index_buffer = Some((key, format));
        self.stores_state = true;
    }

    /// Whether the slice `key` of `format` is the bound index buffer.
    pub fn is_index_buffer_set(&self, key: BufferSliceKey, format: gpu::IndexFormat) -> (r: bool)
        ensures
            r == (self.index_buffer == Some((key, format))),
    {
        match self.index_buffer {
            Some((k, f)) => k.0 == key.0 && k.1 == key.1 && k.2 == key.2 && f == format,
            None => false,
        }
    }
}

/// How a tracked pass records: on the engine context (poisoned once a
/// command could not be represented), or not at all (the pass could not
/// begin).
#[derive(Clone, Copy, Debug, PartialEq, Eq, Structural)]
pub enum PassMode {
    Engine { poisoned: bool },
    Empty,
}

/// The immediate-constants binding of a pipeline: its engine variable and
/// its capacity in 32-bit constants.
#[derive(Clone, Copy, Debug, PartialEq, Eq, Structural)]
pub struct ImmediateBinding {
    pub variable: u64,
    pub array_size_dwords: u32,
}

/// What a bind group offers the engine path.
#[derive(Clone, Copy, Debug, PartialEq, Eq, Structural)]
pub enum SrbStatus {
    /// The bind group has no engine resource binding.
    Missing,
    /// A variable of the bind group could not be bound.
    UnboundVariable { binding: u32 },
    /// The resource binding is complete.
    Ready,
}

/// What to do for a `set_render_pipeline` call.
#[derive(Clone, Copy, Debug, PartialEq, Eq, Structural)]
pub enum PipelineAction {
    /// The pipeline is already bound: nothing to do.
    AlreadySet,
    /// Bind the pipeline state, and commit the immediate binding when
    /// `commit_immediate`.
    Bind { commit_immediate: bool },
    /// The pipeline has no engine state: the pass was poisoned.
    Poisoned,
    /// The pass records nothing.
    Skip,
}

/// What to do for a `set_bind_group` call.
#[derive(Clone, Debug)]
pub enum BindGroupAction {
    /// The bind group is already bound with these offsets.
    AlreadySet,
    /// Set these (variable, offset) pairs, commit the resource binding, then
    /// report the outcome with `finish_set_bind_group`.
    ApplyAndCommit { offsets: Vec<(u64, u32)> },
    /// The bind group cannot be bound: the pass was poisoned.
    Poisoned,
    /// The pass records nothing.
    Skip,
}

/// What to do for a `set_immediates` call.
#[derive(Clone, Copy, Debug, PartialEq, Eq, Structural)]
pub enum ImmediatesAction {
    /// Set `num_constants` constants from `first_constant` on `variable`,
    /// then commit.
    Apply { variable: u64, first_constant: u32, num_constants: u32 },
    /// The current pipeline has no immediate constants: nothing to do.
    NoImmediates,
    /// The range is misaligned or too large: the pass was poisoned.
    Poisoned,
    /// The pass records nothing.
    Skip,
}

/// The attributes of a non-indexed draw.
#[derive(Clone, Copy, Debug, PartialEq, Eq, Structural)]
pub struct DrawAttribs {
    pub num_vertices: u32,
    pub num_instances: u32,
    pub start_vertex: u32,
    pub first_instance: u32,
}

/// The attributes of an indexed draw. A negative base vertex wraps.
#[derive(Clone, Copy, Debug, PartialEq, Eq, Structural)]
pub struct DrawIndexedAttribs {
    pub num_indices: u32,
    pub index_type: dil::ValueType,
    pub num_instances: u32,
    pub first_index: u32,
    pub base_vertex: u32,
    pub first_instance: u32,
}

/// The argument stride of a non-indexed indirect draw (four `u32`s).
pub const DRAW_INDIRECT_STRIDE: u32 = 16;

/// The argument stride of an indexed indirect draw (five `u32`s).
pub const DRAW_INDEXED_INDIRECT_STRIDE: u32 = 20;

/// The attributes of an indirect draw; `index_type` is `Some` for an
/// indexed one. The count buffer, when present, holds a `u32` counter at
/// a byte offset.
#[derive(Clone, Copy, Debug, PartialEq, Eq, Structural)]
pub struct DrawIndirectAttribs {
    pub index_type: Option<dil::ValueType>,
    pub args_buffer: u64,
    pub args_offset: u64,
    pub draw_count: u32,
    pub args_stride: u32,
    pub counter: Option<CounterBuffer>,
}

/// A count buffer: a `u32` counter at a byte offset.
#[derive(Clone, Copy, Debug, PartialEq, Eq, Structural)]
pub struct CounterBuffer {
    pub buffer: u64,
    pub offset: u64,
}

/// The engine index type of the bound index buffer: 32-bit when none is
/// bound.
pub open spec fn index_type_spec(index_buffer: Option<(BufferSliceKey, gpu::IndexFormat)>) -> dil::ValueType {
    match index_buffer {
        Some((_, gpu::IndexFormat::Uint16)) => dil::ValueType::Uint16,
        _ => dil::ValueType::Uint32,
    }
}

/// A render pass that tracks its bound state.
pub struct TrackedPass {
    pub mode: PassMode,
    pub state: DrawState,
    pub immediate: Option<ImmediateBinding>,
}

/// Whether an offset array can be applied to a bind group: it is valid for
/// the layout's dynamic bindings and every dynamic binding has a cached
/// engine variable.
pub open spec fn offsets_apply(cached: Seq<(u32, u64)>, bindings: Seq<u32>, offsets: Seq<u32>, alignment: u32) -> bool {
    &&& offsets::validation_spec(bindings.len() as int, offsets, alignment) is Ok
    &&& forall|i: int| 0 <= i < bindings.len() ==> offsets::cached_variable(cached, #[trigger] bindings[i]) is Some
}

impl TrackedPass {
    /// Whether draws are skipped: the pass is poisoned or records nothing.
    pub open spec fn skips_draws(self) -> bool {
        self.mode == PassMode::Engine { poisoned: true } || self.mode == PassMode::Empty
    }

    /// The mode after poisoning: an engine pass becomes poisoned.
    pub open spec fn poisoned_mode(mode: PassMode) -> PassMode {
        match mode {
            PassMode::Engine { .. } => PassMode::Engine { poisoned: true },
            PassMode::Empty => PassMode::Empty,
        }
    }

    /// A pass begun on the engine context.
    pub fn engine(max_bind_groups: usize, max_vertex_buffers: usize) -> (p: TrackedPass)
        ensures
            p.mode == (PassMode::Engine { poisoned: false }),
            p.immediate is None,
            p.state.pipeline is None,
            p.state.bind_groups@.len() == max_bind_groups,
            p.state.vertex_buffers@.len() == max_vertex_buffers,
            p.state.index_buffer is None,
    {
        TrackedPass { mode: PassMode::Engine { poisoned: false }, state: DrawState::new(max_bind_groups, max_vertex_buffers), immediate: None }
    }

    /// A pass whose commands are all skipped (it could not begin).
    pub fn empty(max_bind_groups: usize, max_vertex_buffers: usize) -> (p: TrackedPass)
        ensures
            p.mode == PassMode::Empty,
            p.immediate is None,
            p.state.pipeline is None,
            p.state.bind_groups@.len() == max_bind_groups,
            p.state.vertex_buffers@.len() == max_vertex_buffers,
            p.state.index_buffer is None,
    {
        TrackedPass { mode: PassMode::Empty, state: DrawState::new(max_bind_groups, max_vertex_buffers), immediate: None }
    }

    /// Marks the pass as degraded: its later draws are skipped. Returns
    /// whether this call poisoned it (it was a healthy engine pass).
    pub fn poison(&mut self) -> (newly: bool)
        ensures
            final(self).mode == Self::poisoned_mode(old(self).mode),
            final(self).state == old(self).state,
            final(self).immediate == old(self).immediate,
            newly == (old(self).mode == PassMode::Engine { poisoned: false }),
    {
        match self.mode {
            PassMode::Engine { poisoned } => {
                self.mode = PassMode::Engine { poisoned: true };
                !poisoned
            },
            PassMode::Empty => false,
        }
    }

    /// Whether draws are skipped.
    pub fn draws_skipped(&self) -> (r: bool)
        ensures
            r == self.skips_draws(),
    {
        match self.mode {
            PassMode::Engine { poisoned } => poisoned,
            PassMode::Empty => true,
        }
    }

    /// Whether the pass records on the engine context (poisoned or not).
    pub fn records(&self) -> (r: bool)
        ensures
            r == (self.mode is Engine),
    {
        match self.mode {
            PassMode::Engine { .. } => true,
            PassMode::Empty => false,
        }
    }

    /// Sets the pipeline: nothing when it is already bound; otherwise the
    /// pipeline state is bound (with its immediate binding committed) or,
    /// when the pipeline has no engine state, the pass is poisoned; the
    /// pipeline's immediate binding becomes current and the pipeline is
    /// marked bound.
    pub fn set_render_pipeline(&mut self, pipeline: u64, has_engine_state: bool, immediate: Option<ImmediateBinding>) -> (action: PipelineAction)
        ensures
            old(self).state.is_pipeline_set_spec(pipeline) ==> action == PipelineAction::AlreadySet && *final(self) == *old(self),
            !old(self).state.is_pipeline_set_spec(pipeline) ==> {
                &&& final(self).immediate == immediate
                &&& final(self).state == (DrawState { pipeline: Some(pipeline), stores_state: true, ..old(self).state })
                &&& match old(self).mode {
                    PassMode::Empty => action == PipelineAction::Skip && final(self).mode == PassMode::Empty,
                    PassMode::Engine { .. } => if has_engine_state {
                        action == (PipelineAction::Bind { commit_immediate: immediate is Some }) && final(self).mode == old(self).mode
                    } else {
                        action == PipelineAction::Poisoned && final(self).mode == (PassMode::Engine { poisoned: true })
                    },
                }
            },
    {
        if self.state.is_pipeline_set(pipeline) {
            return PipelineAction::AlreadySet;
        }
        let action = match self.mode {
            PassMode::Engine { .. } => {
                if has_engine_state {
                    PipelineAction::Bind { commit_immediate: immediate.is_some() }
                } else {
                    self.poison();
                    PipelineAction::Poisoned
                }
            },
            PassMode::Empty => PipelineAction::Skip,
        };
        self.immediate = immediate;
        self.state.set_pipeline(pipeline);
        action
    }

    /// Sets a bind group: nothing when it is bound with the same offsets.
    /// The slot must exist, but for an offset array that cannot be applied
    /// on the engine path, which poisons the pass before the slot is read.
    /// On the engine path a bind group without a complete resource binding
    /// poisons the pass (and is marked bound); otherwise the offsets are
    /// planned against the layout's dynamic bindings, and an offset array
    /// that cannot be applied poisons the pass and leaves the state as it
    /// was. A pass that records nothing only marks the group bound.
    pub fn set_bind_group(
        &mut self,
        index: usize,
        bind_group: u64,
        dynamic_offsets: &[u32],
        srb: SrbStatus,
        cached_variables: &[(u32, u64)],
        dynamic_bindings: &[u32],
        alignment: u32,
    ) -> (action: BindGroupAction)
        requires
            index < old(self).state.bind_groups@.len() || (old(self).mode is Engine && srb is Ready
                && !offsets_apply(cached_variables@, dynamic_bindings@, dynamic_offsets@, alignment)),
        ensures
            action is ApplyAndCommit ==> index < old(self).state.bind_groups@.len(),
            old(self).state.is_bind_group_set_spec(index, bind_group, dynamic_offsets@) ==> (action is AlreadySet && *final(self) == *old(self)),
            !old(self).state.is_bind_group_set_spec(index, bind_group, dynamic_offsets@) ==> match old(self).mode {
                PassMode::Empty => action is Skip && final(self).mode == old(self).mode
                    && final(self).state.binds_group(old(self).state, index, bind_group, dynamic_offsets@),
                PassMode::Engine { .. } => match srb {
                    SrbStatus::Ready => match action {
                        BindGroupAction::ApplyAndCommit { offsets } => {
                            &&& offsets::validation_spec(dynamic_bindings@.len() as int, dynamic_offsets@, alignment) is Ok
                            &&& offsets::offset_plan_spec(cached_variables@, dynamic_bindings@, dynamic_offsets@, Ok(offsets))
                            &&& *final(self) == *old(self)
                        },
                        BindGroupAction::Poisoned => {
                            &&& (offsets::validation_spec(dynamic_bindings@.len() as int, dynamic_offsets@, alignment) is Err
                                || exists|r: Result<Vec<(u64, u32)>, offsets::DynamicOffsetError>| r is Err
                                    && offsets::offset_plan_spec(cached_variables@, dynamic_bindings@, dynamic_offsets@, r))
                            &&& final(self).mode == (PassMode::Engine { poisoned: true })
                            &&& final(self).state == old(self).state
                            &&& final(self).immediate == old(self).immediate
                        },
                        _ => false,
                    },
                    _ => action is Poisoned && final(self).mode == (PassMode::Engine { poisoned: true })
                        && final(self).state.binds_group(old(self).state, index, bind_group, dynamic_offsets@),
                },
            },
            final(self).immediate == old(self).immediate,
    {
        if self.state.is_bind_group_set(index, bind_group, dynamic_offsets) {
            return BindGroupAction::AlreadySet;
        }
        match self.mode {
            PassMode::Engine { .. } => {
                match srb {
                    SrbStatus::Ready => {
                        match offsets::plan_dynamic_offsets(cached_variables, dynamic_bindings, dynamic_offsets, alignment) {
                            Ok(plan) => {
                                return BindGroupAction::ApplyAndCommit { offsets: plan };
                            },
                            Err(e) => {
                                self.poison();
                                return BindGroupAction::Poisoned;
                            },
                        }
                    },
                    _ => {
                        self.poison();
                        self.state.set_bind_group(index, bind_group, dynamic_offsets);
                        return BindGroupAction::Poisoned;
                    },
                }
            },
            PassMode::Empty => {
                self.state.set_bind_group(index, bind_group, dynamic_offsets);
                BindGroupAction::Skip
            },
        }
    }

    /// Reports the outcome of an `ApplyAndCommit`: on success the group is
    /// marked bound; on failure the pass is poisoned and the state is left as
    /// it was.
    pub fn finish_set_bind_group(&mut self, index: usize, bind_group: u64, dynamic_offsets: &[u32], applied: bool)
        requires
            index < old(self).state.bind_groups@.len(),
        ensures
            applied ==> final(self).mode == old(self).mode
                && final(self).state.binds_group(old(self).state, index, bind_group, dynamic_offsets@),
            !applied ==> final(self).mode == Self::poisoned_mode(old(self).mode) && final(self).state == old(self).state,
            final(self).immediate == old(self).immediate,
    {
        if applied {
            self.state.set_bind_group(index, bind_group, dynamic_offsets);
        } else {
            self.poison();
        }
    }

    /// Sets a vertex buffer: nothing when the slice is already bound to the
    /// slot. On the engine path the resolved engine buffer is bound at the
    /// slice offset, or the pass is poisoned when the buffer has none; the
    /// slot is marked bound either way.
    pub fn set_vertex_buffer(&mut self, slot: usize, key: BufferSliceKey, engine_buffer: Option<u64>) -> (bind: Option<(u32, u64, u64)>)
        requires
            slot < old(self).state.vertex_buffers@.len(),
            slot <= u32::MAX,
        ensures
            old(self).state.vertex_buffers@[slot as int] == Some(key) ==> bind is None && *final(self) == *old(self),
            old(self).state.vertex_buffers@[slot as int] != Some(key) ==> {
                &&& final(self).state.vertex_buffers@ == old(self).state.vertex_buffers@.update(slot as int, Some(key))
                &&& final(self).state.pipeline == old(self).state.pipeline
                &&& final(self).state.bind_groups@ == old(self).state.bind_groups@
                &&& final(self).state.index_buffer == old(self).state.index_buffer
                &&& final(self).immediate == old(self).immediate
                &&& match (old(self).mode, engine_buffer) {
                    (PassMode::Engine { .. }, Some(b)) => bind == Some((slot as u32, b, key.1)) && final(self).mode == old(self).mode,
                    (PassMode::Engine { .. }, None) => bind is None && final(self).mode == (PassMode::Engine { poisoned: true }),
                    (PassMode::Empty, _) => bind is None && final(self).mode == PassMode::Empty,
                }
            },
    {
        if self.state.is_vertex_buffer_set(slot, key) {
            return None;
        }
        let bind = match self.mode {
            PassMode::Engine { .. } => match engine_buffer {
                Some(b) => Some((slot as u32, b, key.1)),
                None => {
                    self.poison();
                    None
                },
            },
            PassMode::Empty => None,
        };
        self.state.set_vertex_buffer(slot, key);
        bind
    }

    /// Sets the index buffer: nothing when the slice of that format is
    /// already bound. On the engine path the resolved engine buffer is bound
    /// at the slice offset, or the pass is poisoned when the buffer has none;
    /// the index buffer is marked bound either way.
    pub fn set_index_buffer(&mut self, key: BufferSliceKey, format: gpu::IndexFormat, engine_buffer: Option<u64>) -> (bind: Option<(u64, u64)>)
        ensures
            old(self).state.index_buffer == Some((key, format)) ==> bind is None && *final(self) == *old(self),
            old(self).state.index_buffer != Some((key, format)) ==> {
                &&& final(self).state.index_buffer == Some((key, format))
                &&& final(self).state.pipeline == old(self).state.pipeline
                &&& final(self).state.bind_groups@ == old(self).state.bind_groups@
                &&& final(self).state.vertex_buffers@ == old(self).state.vertex_buffers@
                &&& final(self).immediate == old(self).immediate
                &&& match (old(self).mode, engine_buffer) {
                    (PassMode::Engine { .. }, Some(b)) => bind == Some((b, key.1)) && final(self).mode == old(self).mode,
                    (PassMode::Engine { .. }, None) => bind is None && final(self).mode == (PassMode::Engine { poisoned: true }),
                    (PassMode::Empty, _) => bind is None && final(self).mode == PassMode::Empty,
                }
            },
    {
        if self.state.is_index_buffer_set(key, format) {
            return None;
        }
        let bind = match self.mode {
            PassMode::Engine { .. } => match engine_buffer {
                Some(b) => Some((b, key.1)),
                None => {
                    self.poison();
                    None
                },
            },
            PassMode::Empty => None,
        };
        self.state.set_index_buffer(key, format);
        bind
    }

    /// The engine index type of the bound index buffer.
    pub fn index_type(&self) -> (t: dil::ValueType)
        ensures
            t == index_type_spec(self.state.index_buffer),
    {
        match self.state.index_buffer {
            Some((_, gpu::IndexFormat::Uint16)) => dil::ValueType::Uint16,
            _ => dil::ValueType::Uint32,
        }
    }

    /// A draw of the vertices `vertices.0..vertices.1` and instances
    /// `instances.0..instances.1`; `None` when draws are skipped.
    pub fn draw(&self, vertices: (u32, u32), instances: (u32, u32)) -> (attribs: Option<DrawAttribs>)
        requires
            vertices.0 <= vertices.1,
            instances.0 <= instances.1,
        ensures
            self.skips_draws() ==> attribs is None,
            !self.skips_draws() ==> attribs == Some(DrawAttribs {
                num_vertices: (vertices.1 - vertices.0) as u32,
                num_instances: (instances.1 - instances.0) as u32,
                start_vertex: vertices.0,
                first_instance: instances.0,
            }),
    {
        if self.draws_skipped() {
            return None;
        }
        Some(DrawAttribs {
            num_vertices: vertices.1 - vertices.0,
            num_instances: instances.1 - instances.0,
            start_vertex: vertices.0,
            first_instance: instances.0,
        })
    }

    /// An indexed draw of the indices `indices.0..indices.1`; `None` when
    /// draws are skipped. The index type is that of the bound index buffer.
    pub fn draw_indexed(&self, indices: (u32, u32), base_vertex: i32, instances: (u32, u32)) -> (attribs: Option<DrawIndexedAttribs>)
        requires
            indices.0 <= indices.1,
            instances.0 <= instances.1,
        ensures
            self.skips_draws() ==> attribs is None,
            !self.skips_draws() ==> attribs == Some(DrawIndexedAttribs {
                num_indices: (indices.1 - indices.0) as u32,
                index_type: index_type_spec(self.state.index_buffer),
                num_instances: (instances.1 - instances.0) as u32,
                first_index: indices.0,
                base_vertex: base_vertex as u32,
                first_instance: instances.0,
            }),
    {
        if self.draws_skipped() {
            return None;
        }
        Some(DrawIndexedAttribs {
            num_indices: indices.1 - indices.0,
            index_type: self.index_type(),
            num_instances: instances.1 - instances.0,
            first_index: indices.0,
            base_vertex: base_vertex as u32,
            first_instance: instances.0,
        })
    }

    /// An indirect draw (`indexed` selects the indexed argument layout) of
    /// `draw_count` draws from the resolved argument buffer, with an
    /// optional resolved count buffer (`counter`: buffer and offset, for the
    /// count variants). Skipped draws give `None`; a missing argument or
    /// count buffer poisons the pass and gives `None`.
    pub fn draw_indirect_any(
        &mut self,
        indexed: bool,
        args_buffer: Option<u64>,
        args_offset: u64,
        draw_count: u32,
        counter: Option<(Option<u64>, u64)>,
    ) -> (attribs: Option<DrawIndirectAttribs>)
        ensures
            final(self).state == old(self).state,
            final(self).immediate == old(self).immediate,
            old(self).skips_draws() ==> attribs is None && final(self).mode == old(self).mode,
            !old(self).skips_draws() ==> match (args_buffer, counter) {
                (None, _) | (Some(_), Some((None, _))) => attribs is None && final(self).mode == (PassMode::Engine { poisoned: true }),
                (Some(b), _) => final(self).mode == old(self).mode && attribs == Some(DrawIndirectAttribs {
                    index_type: if indexed { Some(index_type_spec(old(self).state.index_buffer)) } else { None },
                    args_buffer: b,
                    args_offset,
                    draw_count,
                    args_stride: if indexed { DRAW_INDEXED_INDIRECT_STRIDE } else { DRAW_INDIRECT_STRIDE },
                    counter: match counter {
                        Some((Some(c), off)) => Some(CounterBuffer { buffer: c, offset: off }),
                        _ => None,
                    },
                }),
            },
    {
        if self.draws_skipped() {
            return None;
        }
        let b = match args_buffer {
            Some(b) => b,
            None => {
                self.poison();
                return None;
            },
        };
        let counter_buffer = match counter {
            Some((Some(c), off)) => Some(CounterBuffer { buffer: c, offset: off }),
            Some((None, _)) => {
                self.poison();
                return None;
            },
            None => None,
        };
        let index_type = if indexed { Some(self.index_type()) } else { None };
        Some(DrawIndirectAttribs {
            index_type,
            args_buffer: b,
            args_offset,
            draw_count,
            args_stride: if indexed { DRAW_INDEXED_INDIRECT_STRIDE } else { DRAW_INDIRECT_STRIDE },
            counter: counter_buffer,
        })
    }

    /// One indirect draw.
    pub fn draw_indirect(&mut self, args_buffer: Option<u64>, args_offset: u64) -> (attribs: Option<DrawIndirectAttribs>)
        ensures
            final(self).state == old(self).state,
            old(self).skips_draws() ==> attribs is None && final(self).mode == old(self).mode,
            !old(self).skips_draws() ==> match args_buffer {
                None => attribs is None && final(self).mode == (PassMode::Engine { poisoned: true }),
                Some(b) => final(self).mode == old(self).mode && attribs == Some(DrawIndirectAttribs {
                    index_type: None, args_buffer: b, args_offset, draw_count: 1, args_stride: DRAW_INDIRECT_STRIDE, counter: None,
                }),
            },
    {
        self.draw_indirect_any(false, args_buffer, args_offset, 1, None)
    }

    /// One indexed indirect draw.
    pub fn draw_indexed_indirect(&mut self, args_buffer: Option<u64>, args_offset: u64) -> (attribs: Option<DrawIndirectAttribs>)
        ensures
            final(self).state == old(self).state,
            old(self).skips_draws() ==> attribs is None && final(self).mode == old(self).mode,
            !old(self).skips_draws() ==> match args_buffer {
                None => attribs is None && final(self).mode == (PassMode::Engine { poisoned: true }),
                Some(b) => final(self).mode == old(self).mode && attribs == Some(DrawIndirectAttribs {
                    index_type: Some(index_type_spec(old(self).state.index_buffer)), args_buffer: b, args_offset,
                    draw_count: 1, args_stride: DRAW_INDEXED_INDIRECT_STRIDE, counter: None,
                }),
            },
    {
        self.draw_indexed_indirect_impl(args_buffer, args_offset, 1, None)
    }

    /// `count` indirect draws.
    pub fn multi_draw_indirect(&mut self, args_buffer: Option<u64>, args_offset: u64, count: u32) -> (attribs: Option<DrawIndirectAttribs>)
        ensures
            final(self).state == old(self).state,
            old(self).skips_draws() ==> attribs is None && final(self).mode == old(self).mode,
            !old(self).skips_draws() ==> match args_buffer {
                None => attribs is None && final(self).mode == (PassMode::Engine { poisoned: true }),
                Some(b) => final(self).mode == old(self).mode && attribs == Some(DrawIndirectAttribs {
                    index_type: None, args_buffer: b, args_offset, draw_count: count, args_stride: DRAW_INDIRECT_STRIDE, counter: None,
                }),
            },
    {
        self.draw_indirect_any(false, args_buffer, args_offset, count, None)
    }

    /// Up to `max_count` indirect draws, the count read from a `u32` counter
    /// at `count_offset` in the count buffer.
    pub fn multi_draw_indirect_count(&mut self, args_buffer: Option<u64>, args_offset: u64, count_buffer: Option<u64>, count_offset: u64, max_count: u32) -> (attribs: Option<DrawIndirectAttribs>)
        ensures
            final(self).state == old(self).state,
            old(self).skips_draws() ==> attribs is None && final(self).mode == old(self).mode,
            !old(self).skips_draws() ==> match (args_buffer, count_buffer) {
                (Some(b), Some(c)) => final(self).mode == old(self).mode && attribs == Some(DrawIndirectAttribs {
                    index_type: None, args_buffer: b, args_offset, draw_count: max_count, args_stride: DRAW_INDIRECT_STRIDE,
                    counter: Some(CounterBuffer { buffer: c, offset: count_offset }),
                }),
                _ => attribs is None && final(self).mode == (PassMode::Engine { poisoned: true }),
            },
    {
        self.draw_indirect_any(false, args_buffer, args_offset, max_count, Some((count_buffer, count_offset)))
    }

    /// `count` indexed indirect draws.
    pub fn multi_draw_indexed_indirect(&mut self, args_buffer: Option<u64>, args_offset: u64, count: u32) -> (attribs: Option<DrawIndirectAttribs>)
        ensures
            final(self).state == old(self).state,
            old(self).skips_draws() ==> attribs is None && final(self).mode == old(self).mode,
            !old(self).skips_draws() ==> match args_buffer {
                None => attribs is None && final(self).mode == (PassMode::Engine { poisoned: true }),
                Some(b) => final(self).mode == old(self).mode && attribs == Some(DrawIndirectAttribs {
                    index_type: Some(index_type_spec(old(self).state.index_buffer)), args_buffer: b, args_offset,
                    draw_count: count, args_stride: DRAW_INDEXED_INDIRECT_STRIDE, counter: None,
                }),
            },
    {
        self.draw_indexed_indirect_impl(args_buffer, args_offset, count, None)
    }

    /// Up to `max_count` indexed indirect draws, the count read from a `u32`
    /// counter at `count_offset` in the count buffer.
    pub fn multi_draw_indexed_indirect_count(&mut self, args_buffer: Option<u64>, args_offset: u64, count_buffer: Option<u64>, count_offset: u64, max_count: u32) -> (attribs: Option<DrawIndirectAttribs>)
        ensures
            final(self).state == old(self).state,
            old(self).skips_draws() ==> attribs is None && final(self).mode == old(self).mode,
            !old(self).skips_draws() ==> match (args_buffer, count_buffer) {
                (Some(b), Some(c)) => final(self).mode == old(self).mode && attribs == Some(DrawIndirectAttribs {
                    index_type: Some(index_type_spec(old(self).state.index_buffer)), args_buffer: b, args_offset,
                    draw_count: max_count, args_stride: DRAW_INDEXED_INDIRECT_STRIDE, counter: Some(CounterBuffer { buffer: c, offset: count_offset }),
                }),
                _ => attribs is None && final(self).mode == (PassMode::Engine { poisoned: true }),
            },
    {
        self.draw_indexed_indirect_impl(args_buffer, args_offset, max_count, Some((count_buffer, count_offset)))
    }

    /// The indexed indirect draws.
    fn draw_indexed_indirect_impl(&mut self, args_buffer: Option<u64>, args_offset: u64, draw_count: u32, counter: Option<(Option<u64>, u64)>) -> (attribs: Option<DrawIndirectAttribs>)
        ensures
            final(self).state == old(self).state,
            final(self).immediate == old(self).immediate,
            old(self).skips_draws() ==> attribs is None && final(self).mode == old(self).mode,
            !old(self).skips_draws() ==> match (args_buffer, counter) {
                (None, _) | (Some(_), Some((None, _))) => attribs is None && final(self).mode == (PassMode::Engine { poisoned: true }),
                (Some(b), _) => final(self).mode == old(self).mode && attribs == Some(DrawIndirectAttribs {
                    index_type: Some(index_type_spec(old(self).state.index_buffer)),
                    args_buffer: b,
                    args_offset,
                    draw_count,
                    args_stride: DRAW_INDEXED_INDIRECT_STRIDE,
                    counter: match counter {
                        Some((Some(c), off)) => Some(CounterBuffer { buffer: c, offset: off }),
                        _ => None,
                    },
                }),
            },
    {
        self.draw_indirect_any(true, args_buffer, args_offset, draw_count, counter)
    }

    /// Sets immediate constants from `offset` (bytes) with `data_len`
    /// bytes: nothing when the pass records nothing or the pipeline has no
    /// immediate constants; a range not 4-byte aligned or past the
    /// pipeline's capacity poisons the pass; otherwise the constants
    /// `offset / 4 ..` (`data_len / 4` of them) are set.
    pub fn set_immediates(&mut self, offset: u32, data_len: usize) -> (action: ImmediatesAction)
        requires
            data_len / 4 <= u32::MAX,
        ensures
            final(self).state == old(self).state,
            final(self).immediate == old(self).immediate,
            match (old(self).mode, old(self).immediate) {
                (PassMode::Empty, _) => action == ImmediatesAction::Skip && final(self).mode == old(self).mode,
                (_, None) => action == ImmediatesAction::NoImmediates && final(self).mode == old(self).mode,
                (_, Some(imm)) => if offset % 4 != 0 || data_len % 4 != 0
                    || offset / 4 + data_len / 4 > imm.array_size_dwords {
                    action == ImmediatesAction::Poisoned && final(self).mode == (PassMode::Engine { poisoned: true })
                } else {
                    action == (ImmediatesAction::Apply { variable: imm.variable, first_constant: offset / 4, num_constants: (data_len / 4) as u32 })
                        && final(self).mode == old(self).mode
                },
            },
    {
        match self.mode {
            PassMode::Empty => return ImmediatesAction::Skip,
            PassMode::Engine { .. } => {},
        }
        let imm = match self.immediate {
            Some(i) => i,
            None => return ImmediatesAction::NoImmediates,
        };
        if offset % 4 != 0 || data_len % 4 != 0 {
            self.poison();
            return ImmediatesAction::Poisoned;
        }
        let first_constant = offset / 4;
        let num_constants = (data_len / 4) as u32;
        if first_constant as u64 + num_constants as u64 > imm.array_size_dwords as u64 {
            self.poison();
            return ImmediatesAction::Poisoned;
        }
        ImmediatesAction::Apply { variable: imm.variable, first_constant, num_constants }
    }
}

impl DrawState {
    /// `is_pipeline_set` as a spec.
    pub open spec fn is_pipeline_set_spec(self, pipeline: u64) -> bool {
        self.pipeline == Some(pipeline)
    }

    /// `is_bind_group_set` as a spec.
    pub open spec fn is_bind_group_set_spec(self, index: usize, bind_group: u64, offsets: Seq<u32>) -> bool {
        index < self.bind_groups@.len() && self.bind_groups@[index as int].0 == Some(bind_group)
            && self.bind_groups@[index as int].1@ == offsets
    }

    /// Whether `self` is `before` with `bind_group` and `offsets` bound to
    /// slot `index`.
    pub open spec fn binds_group(self, before: DrawState, index: usize, bind_group: u64, offsets: Seq<u32>) -> bool {
        &&& self.pipeline == before.pipeline
        &&& self.vertex_buffers@ == before.vertex_buffers@
        &&& self.index_buffer == before.index_buffer
        &&& self.stores_state
        &&& self.bind_groups@.len() == before.bind_groups@.len()
        &&& self.bind_groups@[index as int].0 == Some(bind_group)
        &&& self.bind_groups@[index as int].1@ == offsets
        &&& forall|j: int| 0 <= j < before.bind_groups@.len() && j != index ==> self.bind_groups@[j] == before.bind_groups@[j]
    }
}

/// State a pass has just bound is recognized as bound, so the same command
/// repeated is skipped: the pipeline just set, a bind group just bound with
/// its offsets and the vertex buffer slice just bound to a slot.
pub proof fn lemma_bound_state_is_skipped(
    s: DrawState,
    pipeline: u64,
    after_group: DrawState,
    index: usize,
    bind_group: u64,
    offsets: Seq<u32>,
    slot: int,
    key: BufferSliceKey,
)
    requires
        after_group.binds_group(s, index, bind_group, offsets),
        index < s.bind_groups@.len(),
        0 <= slot < s.vertex_buffers@.len(),
    ensures
        (DrawState { pipeline: Some(pipeline), stores_state: true, ..s }).is_pipeline_set_spec(pipeline),
        after_group.is_bind_group_set_spec(index, bind_group, offsets),
        s.vertex_buffers@.update(slot, Some(key))[slot] == Some(key),
{
}

/// The scissor rectangle (left, top, right, bottom) of a region.
pub fn scissor_rect(x: u32, y: u32, width: u32, height: u32) -> (r: (i32, i32, i32, i32))
    requires
        x + width <= u32::MAX,
        y + height <= u32::MAX,
    ensures
        r == (x as i32, y as i32, (x + width) as u32 as i32, (y + height) as u32 as i32),
{
    (x as i32, y as i32, (x + width) as i32, (y + height) as i32)
}

/// Timestamp queries are not recorded inside a tracked pass: nothing is
/// written.
impl WriteTimestamp for TrackedPass {
    fn write_timestamp(&mut self, query_set: &QuerySet, index: u32) {
    }
}

/// Pipeline statistics queries are not recorded inside a tracked pass:
/// nothing is written.
impl WritePipelineStatistics for TrackedPass {
    fn begin_pipeline_statistics_query(&mut self, query_set: &QuerySet, index: u32) {
    }

    fn end_pipeline_statistics_query(&mut self) {
    }
}

/// A tracked pass is a render pass.
impl Pass for TrackedPass {
    fn kind() -> (k: PassKind)
        ensures
            k == PassKind::Render,
    {
        PassKind::Render
    }
}

} // verus!
