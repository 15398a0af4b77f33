//! Render and compute passes recorded straight on the engine context by a
//! command encoder: a pass without a context records nothing, a pass that
//! cannot run correctly is poisoned, and repeated bind group sets with the
//! same resource binding and offsets skip the commit.

use crate::draw::{self, CounterBuffer, DrawAttribs, DrawIndexedAttribs, DrawIndirectAttribs, ImmediateBinding, ImmediatesAction};
use crate::diligent_types as dil;
use crate::gpu_types as gpu;
use crate::diagnostics::{WritePipelineStatistics, WriteTimestamp};
use crate::offsets;
use crate::resources::QuerySet;
use vstd::prelude::*;

verus! {

/// A bind group as the encoder passes see it: its engine resource binding
/// (if any), the first of its variables that could not be bound (if any),
/// the engine variables cached for its dynamic bindings, and its layout's
/// dynamic bindings in ascending order.
#[derive(Clone, Debug)]
pub struct BindGroupInput {
    pub srb: Option<u64>,
    pub first_failed_binding: Option<u32>,
    pub cached_variables: Vec<(u32, u64)>,
    pub dynamic_bindings: Vec<u32>,
}

/// What to do for a `set_bind_group` call of an encoder pass.
#[derive(Clone, Debug)]
pub enum CommitAction {
    /// Nothing to do (no bind group, already committed, or no context).
    Nothing,
    /// The bind group cannot be bound: the pass was poisoned.
    Poisoned,
    /// Set these (variable, offset) pairs and commit resource binding
    /// `srb`, then report the outcome with `finish_set_bind_group`.
    ApplyAndCommit { srb: u64, offsets: Vec<(u64, u32)> },
}

/// A render or compute pass of a command encoder.
pub struct EncoderPass {
    pub compute: bool,
    pub has_context: bool,
    pub poisoned: bool,
    pub index_format: Option<gpu::IndexFormat>,
    pub immediate: Option<ImmediateBinding>,
    pub committed: Vec<Option<(u64, Vec<u32>)>>,
}

/// Whether a commit cache slot holds `srb` with `offsets`.
pub open spec fn slot_holds(slot: Option<(u64, Vec<u32>)>, srb: u64, offsets: Seq<u32>) -> bool {
    slot matches Some((s, o)) && s == srb && o@ == offsets
}

impl EncoderPass {
    /// A pass; `has_context` is whether an engine context records it.
    pub fn new(compute: bool, has_context: bool) -> (p: EncoderPass)
        ensures
            p.compute == compute,
            p.has_context == has_context,
            !p.poisoned,
            p.index_format is None,
            p.immediate is None,
            p.committed@.len() == 0,
    {
        EncoderPass { compute, has_context, poisoned: false, index_format: None, immediate: None, committed: Vec::new() }
    }

    /// A render pass begun on an encoder: `began` is whether the engine
    /// render pass could begin (it cannot without a context); a pass that
    /// did not begin is poisoned.
    pub fn render(has_context: bool, began: bool) -> (p: EncoderPass)
        ensures
            !p.compute,
            p.has_context == has_context,
            p.poisoned == !began,
            p.index_format is None,
            p.immediate is None,
            p.committed@.len() == 0,
    {
        EncoderPass { compute: false, has_context, poisoned: !began, index_format: None, immediate: None, committed: Vec::new() }
    }

    /// A compute pass begun on an encoder.
    pub fn compute(has_context: bool) -> (p: EncoderPass)
        ensures
            p.compute,
            p.has_context == has_context,
            !p.poisoned,
            p.index_format is None,
            p.immediate is None,
            p.committed@.len() == 0,
    {
        EncoderPass::new(true, has_context)
    }

    /// Poisons the pass: its later draws and dispatches are skipped.
    pub fn poison(&mut self) -> (newly: bool)
        ensures
            final(self).poisoned,
            newly == !old(self).poisoned,
            final(self).compute == old(self).compute,
            final(self).has_context == old(self).has_context,
            final(self).index_format == old(self).index_format,
            final(self).immediate == old(self).immediate,
            final(self).committed@ == old(self).committed@,
    {
        let newly = !self.poisoned;
        self.poisoned = true;
        newly
    }

    /// Whether draws and dispatches are skipped.
    pub open spec fn skips(self) -> bool {
        self.poisoned || !self.has_context
    }

    /// Sets the pipeline. Without a context a render pass is poisoned and a
    /// compute pass ignores the call; otherwise the pipeline state is bound
    /// (`true`: bind it, and commit `immediate` when there is one) or the
    /// pass is poisoned when the pipeline has no engine state, the commit
    /// cache is cleared and the pipeline's immediate binding becomes
    /// current.
    pub fn set_pipeline(&mut self, has_engine_state: bool, immediate: Option<ImmediateBinding>) -> (bind: bool)
        ensures
            !old(self).has_context ==> !bind && (if old(self).compute {
                *final(self) == *old(self)
            } else {
                final(self).poisoned && final(self).committed@ == old(self).committed@
                    && final(self).immediate == old(self).immediate && final(self).index_format == old(self).index_format
                    && final(self).compute == old(self).compute && final(self).has_context == old(self).has_context
            }),
            old(self).has_context ==> {
                &&& bind == has_engine_state
                &&& final(self).poisoned == (old(self).poisoned || !has_engine_state)
                &&& final(self).committed@.len() == 0
                &&& final(self).immediate == immediate
                &&& final(self).index_format == old(self).index_format
                &&& final(self).compute == old(self).compute
                &&& final(self).has_context
            },
    {
        if !self.has_context {
            if !self.compute {
                self.poison();
            }
            return false;
        }
        if !has_engine_state {
            self.poison();
        }
        self.committed.clear();
        self.immediate = immediate;
        has_engine_state
    }

    /// Sets a bind group on slot `index`. A missing bind group does
    /// nothing; one without a complete engine resource binding poisons the
    /// pass; the commit cache grows to hold the slot; a slot already holding
    /// the same resource binding and offsets, or a pass without context, does
    /// nothing more; otherwise the offsets are planned, and an offset array
    /// that cannot be applied poisons the pass.
    pub fn set_bind_group(&mut self, index: u32, bind_group: Option<&BindGroupInput>, dynamic_offsets: &[u32], alignment: u32) -> (action: CommitAction)
        requires
            (index as int) < usize::MAX,
        ensures
            final(self).compute == old(self).compute,
            final(self).has_context == old(self).has_context,
            final(self).index_format == old(self).index_format,
            final(self).immediate == old(self).immediate,
            match bind_group {
                None => action is Nothing && *final(self) == *old(self),
                Some(bg) => match (bg.srb, bg.first_failed_binding) {
                    (Some(srb), None) => {
                        &&& final(self).committed@.len() == if index < old(self).committed@.len() { old(self).committed@.len() as int } else { index as int + 1 }
                        &&& forall|j: int| 0 <= j < final(self).committed@.len() ==> (#[trigger] final(self).committed@[j])
                            == if j < old(self).committed@.len() { old(self).committed@[j] } else { None }
                        &&& if (index < old(self).committed@.len() && slot_holds(old(self).committed@[index as int], srb, dynamic_offsets@))
                            || !old(self).has_context {
                            action is Nothing && final(self).poisoned == old(self).poisoned
                        } else {
                            match action {
                                CommitAction::ApplyAndCommit { srb: s, offsets } => s == srb
                                    && offsets::offset_plan_spec(bg.cached_variables@, bg.dynamic_bindings@, dynamic_offsets@, Ok(offsets))
                                    && offsets::validation_spec(bg.dynamic_bindings@.len() as int, dynamic_offsets@, alignment) is Ok
                                    && final(self).poisoned == old(self).poisoned,
                                CommitAction::Poisoned => final(self).poisoned,
                                _ => false,
                            }
                        }
                    },
                    _ => action is Poisoned && final(self).poisoned && final(self).committed@ == old(self).committed@,
                },
            },
    {
        let bg = match bind_group {
            Some(bg) => bg,
            None => return CommitAction::Nothing,
        };
        let srb = match bg.srb {
            Some(s) => s,
            None => {
                self.poison();
                return CommitAction::Poisoned;
            },
        };
        if bg.first_failed_binding.is_some() {
            self.poison();
            return CommitAction::Poisoned;
        }
        let slot = index as usize;
        let ghost before = self.committed@;
        while self.committed.len() <= slot
            invariant
                self.compute == old(self).compute,
                self.has_context == old(self).has_context,
                self.poisoned == old(self).poisoned,
                self.index_format == old(self).index_format,
                self.immediate == old(self).immediate,
                before == old(self).committed@,
                before.len() <= self.committed@.len() <= (if slot < before.len() { before.len() as int } else { slot as int + 1 }),
                forall|j: int| 0 <= j < self.committed@.len() ==> (#[trigger] self.committed@[j])
                    == if j < before.len() { before[j] } else { None },
            decreases slot + 1 - self.committed.len(),
        {
            self.committed.push(None);
        }
        let already = match &self.committed[slot] {
            Some((s, o)) => *s == srb && same_offsets(o.as_slice(), dynamic_offsets),
            None => false,
        };
        if already || !self.has_context {
            return CommitAction::Nothing;
        }
        match offsets::plan_dynamic_offsets(bg.cached_variables.as_slice(), bg.dynamic_bindings.as_slice(), dynamic_offsets, alignment) {
            Ok(plan) => CommitAction::ApplyAndCommit { srb, offsets: plan },
            Err(_) => {
                self.poison();
                CommitAction::Poisoned
            },
        }
    }

    /// Reports the outcome of an `ApplyAndCommit` on slot `index`: on
    /// success the slot remembers the resource binding and offsets; on
    /// failure the pass is poisoned.
    pub fn finish_set_bind_group(&mut self, index: u32, srb: u64, dynamic_offsets: &[u32], applied: bool)
        requires
            (index as int) < old(self).committed@.len(),
        ensures
            applied ==> final(self).poisoned == old(self).poisoned
                && final(self).committed@.len() == old(self).committed@.len()
                && slot_holds(final(self).committed@[index as int], srb, dynamic_offsets@)
                && forall|j: int| 0 <= j < old(self).committed@.len() && j != index ==> final(self).committed@[j] == old(self).committed@[j],
            !applied ==> final(self).poisoned && final(self).committed@ == old(self).committed@,
            final(self).compute == old(self).compute,
            final(self).has_context == old(self).has_context,
            final(self).index_format == old(self).index_format,
            final(self).immediate == old(self).immediate,
    {
        if applied {
            let offsets = vstd::slice::slice_to_vec(dynamic_offsets);
            self.committed.set(index as usize, Some((srb, offsets)));
        } else {
            self.poison();
        }
    }

    /// Sets a vertex buffer: bound at the slice offset when the buffer has
    /// an engine buffer, the pass poisoned when it has none; nothing without
    /// a context.
    pub fn set_vertex_buffer(&mut self, slot: u32, engine_buffer: Option<u64>, offset: u64) -> (bind: Option<(u32, u64, u64)>)
        ensures
            !old(self).has_context ==> bind is None && *final(self) == *old(self),
            old(self).has_context ==> match engine_buffer {
                Some(b) => bind == Some((slot, b, offset)) && *final(self) == *old(self),
                None => bind is None && final(self).poisoned && final(self).index_format == old(self).index_format
                    && final(self).immediate == old(self).immediate && final(self).committed@ == old(self).committed@,
            },
    {
        if !self.has_context {
            return None;
        }
        match engine_buffer {
            Some(b) => Some((slot, b, offset)),
            None => {
                self.poison();
                None
            },
        }
    }

    /// Sets the index buffer: bound at the slice offset (its format becomes
    /// the index format) when the buffer has an engine buffer, the pass
    /// poisoned when it has none; nothing without a context.
    pub fn set_index_buffer(&mut self, engine_buffer: Option<u64>, offset: u64, format: gpu::IndexFormat) -> (bind: Option<(u64, u64)>)
        ensures
            !old(self).has_context ==> bind is None && *final(self) == *old(self),
            old(self).has_context ==> match engine_buffer {
                Some(b) => bind == Some((b, offset)) && final(self).index_format == Some(format)
                    && final(self).poisoned == old(self).poisoned && final(self).immediate == old(self).immediate
                    && final(self).committed@ == old(self).committed@,
                None => bind is None && final(self).poisoned && final(self).index_format == old(self).index_format
                    && final(self).immediate == old(self).immediate && final(self).committed@ == old(self).committed@,
            },
    {
        if !self.has_context {
            return None;
        }
        match engine_buffer {
            Some(b) => {
                self.index_format = Some(format);
                Some((b, offset))
            },
            None => {
                self.poison();
                None
            },
        }
    }

    /// The engine index type: 16-bit for a bound 16-bit index buffer,
    /// otherwise 32-bit.
    pub open spec fn index_type_spec(self) -> dil::ValueType {
        match self.index_format {
            Some(gpu::IndexFormat::Uint16) => dil::ValueType::Uint16,
            _ => dil::ValueType::Uint32,
        }
    }

    /// The engine index type.
    pub fn index_type(&self) -> (t: dil::ValueType)
        ensures
            t == self.index_type_spec(),
    {
        match self.index_format {
            Some(gpu::IndexFormat::Uint16) => dil::ValueType::Uint16,
            _ => dil::ValueType::Uint32,
        }
    }

    /// A non-indexed draw; `None` when skipped.
    pub fn draw(&self, vertices: (u32, u32), instances: (u32, u32)) -> (attribs: Option<DrawAttribs>)
        requires
            vertices.0 <= vertices.1,
            instances.0 <= instances.1,
        ensures
            self.skips() ==> attribs is None,
            !self.skips() ==> attribs == Some(DrawAttribs {
                num_vertices: (vertices.1 - vertices.0) as u32,
                num_instances: (instances.1 - instances.0) as u32,
                start_vertex: vertices.0,
                first_instance: instances.0,
            }),
    {
        if self.poisoned || !self.has_context {
            return None;
        }
        Some(DrawAttribs {
            num_vertices: vertices.1 - vertices.0,
            num_instances: instances.1 - instances.0,
            start_vertex: vertices.0,
            first_instance: instances.0,
        })
    }

    /// An indexed draw; `None` when skipped.
    pub fn draw_indexed(&self, indices: (u32, u32), base_vertex: i32, instances: (u32, u32)) -> (attribs: Option<DrawIndexedAttribs>)
        requires
            indices.0 <= indices.1,
            instances.0 <= instances.1,
        ensures
            self.skips() ==> attribs is None,
            !self.skips() ==> attribs == Some(DrawIndexedAttribs {
                num_indices: (indices.1 - indices.0) as u32,
                index_type: self.index_type_spec(),
                num_instances: (instances.1 - instances.0) as u32,
                first_index: indices.0,
                base_vertex: base_vertex as u32,
                first_instance: instances.0,
            }),
    {
        if self.poisoned || !self.has_context {
            return None;
        }
        Some(DrawIndexedAttribs {
            num_indices: indices.1 - indices.0,
            index_type: self.index_type(),
            num_instances: instances.1 - instances.0,
            first_index: indices.0,
            base_vertex: base_vertex as u32,
            first_instance: instances.0,
        })
    }

    /// Indirect draws (`indexed` for the indexed layout): `max_count` draws
    /// from the argument buffer, with the count buffer when given. Skipped
    /// gives `None`; a missing argument or count buffer poisons the pass.
    pub fn draw_indirect(&mut self, indexed: bool, args_buffer: Option<u64>, args_offset: u64, count: Option<(Option<u64>, u64)>, max_count: u32) -> (attribs: Option<DrawIndirectAttribs>)
        ensures
            final(self).index_format == old(self).index_format,
            final(self).immediate == old(self).immediate,
            final(self).committed@ == old(self).committed@,
            old(self).skips() ==> attribs is None && final(self).poisoned == old(self).poisoned,
            !old(self).skips() ==> match (args_buffer, count) {
                (None, _) | (Some(_), Some((None, _))) => attribs is None && final(self).poisoned,
                (Some(b), _) => !final(self).poisoned && attribs == Some(DrawIndirectAttribs {
                    index_type: if indexed { Some(old(self).index_type_spec()) } else { None },
                    args_buffer: b,
                    args_offset,
                    draw_count: max_count,
                    args_stride: if indexed { draw::DRAW_INDEXED_INDIRECT_STRIDE } else { draw::DRAW_INDIRECT_STRIDE },
                    counter: match count {
                        Some((Some(c), off)) => Some(CounterBuffer { buffer: c, offset: off }),
                        _ => None,
                    },
                }),
            },
    {
        if self.poisoned || !self.has_context {
            return None;
        }
        let b = match args_buffer {
            Some(b) => b,
            None => {
                self.poison();
                return None;
            },
        };
        let counter = match count {
            Some((Some(c), off)) => Some(CounterBuffer { buffer: c, offset: off }),
            Some((None, _)) => {
                self.poison();
                return None;
            },
            None => None,
        };
        let index_type = if indexed { Some(self.index_type()) } else { None };
        Some(DrawIndirectAttribs {
            index_type,
            args_buffer: b,
            args_offset,
            draw_count: max_count,
            args_stride: if indexed { draw::DRAW_INDEXED_INDIRECT_STRIDE } else { draw::DRAW_INDIRECT_STRIDE },
            counter,
        })
    }

    /// A dispatch of `x * y * z` workgroups; `None` when skipped.
    pub fn dispatch_workgroups(&self, x: u32, y: u32, z: u32) -> (groups: Option<(u32, u32, u32)>)
        ensures
            self.skips() ==> groups is None,
            !self.skips() ==> groups == Some((x, y, z)),
    {
        if self.poisoned || !self.has_context {
            return None;
        }
        Some((x, y, z))
    }

    /// An indirect dispatch from the argument buffer at `offset` (three
    /// `u32` group counts); a missing buffer poisons the pass.
    pub fn dispatch_workgroups_indirect(&mut self, args_buffer: Option<u64>, offset: u64) -> (dispatch: Option<(u64, u64)>)
        ensures
            final(self).index_format == old(self).index_format,
            final(self).immediate == old(self).immediate,
            final(self).committed@ == old(self).committed@,
            old(self).skips() ==> dispatch is None && final(self).poisoned == old(self).poisoned,
            !old(self).skips() ==> match args_buffer {
                Some(b) => dispatch == Some((b, offset)) && !final(self).poisoned,
                None => dispatch is None && final(self).poisoned,
            },
    {
        if self.poisoned || !self.has_context {
            return None;
        }
        match args_buffer {
            Some(b) => Some((b, offset)),
            None => {
                self.poison();
                None
            },
        }
    }

    /// Sets immediate constants, as a tracked pass does: nothing without a
    /// context or immediate binding; a misaligned or too large range
    /// poisons the pass.
    pub fn set_immediates(&mut self, offset: u32, data_len: usize) -> (action: ImmediatesAction)
        requires
            data_len / 4 <= u32::MAX,
        ensures
            final(self).index_format == old(self).index_format,
            final(self).immediate == old(self).immediate,
            final(self).committed@ == old(self).committed@,
            match (old(self).has_context, old(self).immediate) {
                (false, _) => action == ImmediatesAction::Skip && final(self).poisoned == old(self).poisoned,
                (true, None) => action == ImmediatesAction::NoImmediates && final(self).poisoned == old(self).poisoned,
                (true, Some(imm)) => if offset % 4 != 0 || data_len % 4 != 0
                    || offset / 4 + data_len / 4 > imm.array_size_dwords {
                    action == ImmediatesAction::Poisoned && final(self).poisoned
                } else {
                    action == (ImmediatesAction::Apply { variable: imm.variable, first_constant: offset / 4, num_constants: (data_len / 4) as u32 })
                        && final(self).poisoned == old(self).poisoned
                },
            },
    {
        if !self.has_context {
            return ImmediatesAction::Skip;
        }
        let imm = match self.immediate {
            Some(i) => i,
            None => return ImmediatesAction::NoImmediates,
        };
        if offset % 4 != 0 || data_len % 4 != 0 {
            self.poison();
            return ImmediatesAction::Poisoned;
        }
        let first_constant = offset / 4;
        let num_constants = (data_len / 4) as u32;
        if first_constant as u64 + num_constants as u64 > imm.array_size_dwords as u64 {
            self.poison();
            return ImmediatesAction::Poisoned;
        }
        ImmediatesAction::Apply { variable: imm.variable, first_constant, num_constants }
    }
}

/// Compares two offset arrays.
fn same_offsets(a: &[u32], b: &[u32]) -> (r: bool)
    ensures
        r == (a@ == b@),
{
    if a.len() != b.len() {
        return false;
    }
    let mut i: usize = 0;
    while i < a.len()
        invariant
            i <= a.len(),
            a.len() == b.len(),
            forall|k: int| 0 <= k < i ==> a@[k] == b@[k],
        decreases a.len() - i,
    {
        if a[i] != b[i] {
            return false;
        }
        i = i + 1;
    }
    proof {
        assert(a@ =~= b@);
    }
    true
}

/// Timestamp queries are not recorded on the engine path: nothing is
/// written.
impl WriteTimestamp for EncoderPass {
    fn write_timestamp(&mut self, query_set: &QuerySet, index: u32) {
    }
}

/// Pipeline statistics queries are not recorded on the engine path:
/// nothing is written.
impl WritePipelineStatistics for EncoderPass {
    fn begin_pipeline_statistics_query(&mut self, query_set: &QuerySet, index: u32) {
    }

    fn end_pipeline_statistics_query(&mut self) {
    }
}

} // verus!
