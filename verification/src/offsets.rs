//! Copy-row alignment, dynamic-offset validation and the per-draw dynamic
//! offset plan.

use crate::gpu_types as gpu;
use crate::text;
use vstd::prelude::*;

verus! {

/// Rounds `row_bytes` up to a multiple of the copy row alignment (256).
pub fn align_copy_bytes_per_row(row_bytes: usize) -> (r: usize)
    requires
        row_bytes + 255 <= usize::MAX,
    ensures
        r == (row_bytes + 255) / 256 * 256,
        r % 256 == 0,
        row_bytes <= r < row_bytes + 256,
{
    let align: usize = 256;
    let over_aligned = row_bytes + (align - 1);
    let r = (over_aligned / align) * align;
    assert(r == (row_bytes + 255) / 256 * 256);
    assert(r % 256 == 0 && row_bytes <= r < row_bytes + 256) by (nonlinear_arith)
        requires
            r == (row_bytes + 255) / 256 * 256,
            row_bytes >= 0,
    ;
    r
}

/// Why an offset array cannot be applied to a bind group.
#[derive(Clone, Copy, Debug, PartialEq, Eq, Structural)]
pub enum DynamicOffsetError {
    /// The layout declares `expected` dynamic buffer bindings but `provided`
    /// offsets came.
    CountMismatch { expected: usize, provided: usize },
    /// An offset is not a multiple of the constant buffer offset alignment
    /// (a zero alignment rejects every offset).
    Misaligned { offset: u32, alignment: u32 },
    /// No engine variable was cached for a dynamic binding.
    MissingVariable { binding: u32 },
}

impl DynamicOffsetError {
    /// The error message.
    pub open spec fn message_spec(self) -> Seq<char> {
        match self {
            DynamicOffsetError::CountMismatch { expected, provided } =>
                "dynamic offset count mismatch: the layout declares "@ + text::decimal(expected as nat)
                    + " dynamic buffer bindings but "@ + text::decimal(provided as nat) + " offsets were provided"@,
            DynamicOffsetError::Misaligned { offset, alignment } =>
                "dynamic offset "@ + text::decimal(offset as nat)
                    + " is not a multiple of the constant buffer offset alignment ("@ + text::decimal(alignment as nat) + ")"@,
            DynamicOffsetError::MissingVariable { binding } =>
                "no cached SRB variable for dynamic binding "@ + text::decimal(binding as nat),
        }
    }

    /// The error message.
    pub fn message(&self) -> (s: String)
        ensures
            s@ == self.message_spec(),
    {
        let mut s = String::new();
        match self {
            DynamicOffsetError::CountMismatch { expected, provided } => {
                s.append("dynamic offset count mismatch: the layout declares ");
                text::append_decimal(&mut s, *expected as u64);
                s.append(" dynamic buffer bindings but ");
                text::append_decimal(&mut s, *provided as u64);
                s.append(" offsets were provided");
            },
            DynamicOffsetError::Misaligned { offset, alignment } => {
                s.append("dynamic offset ");
                text::append_decimal(&mut s, *offset as u64);
                s.append(" is not a multiple of the constant buffer offset alignment (");
                text::append_decimal(&mut s, *alignment as u64);
                s.append(")");
            },
            DynamicOffsetError::MissingVariable { binding } => {
                s.append("no cached SRB variable for dynamic binding ");
                text::append_decimal(&mut s, *binding as u64);
            },
        }
        s
    }
}

/// Whether `offset` is accepted under `alignment`.
pub open spec fn offset_aligned(offset: u32, alignment: u32) -> bool {
    alignment != 0 && offset % alignment == 0
}

/// The index of the first offset not accepted under `alignment`, if any.
pub open spec fn first_misaligned(offsets: Seq<u32>, alignment: u32) -> Option<int> {
    if exists|k: int| 0 <= k < offsets.len() && !offset_aligned(#[trigger] offsets[k], alignment) {
        Some(choose|k: int| {
            &&& 0 <= k < offsets.len()
            &&& !offset_aligned(#[trigger] offsets[k], alignment)
            &&& forall|i: int| 0 <= i < k ==> offset_aligned(#[trigger] offsets[i], alignment)
        })
    } else {
        None
    }
}

/// What validating an offset array gives: a count mismatch first, then the
/// first misaligned offset, else success.
pub open spec fn validation_spec(bindings_len: int, offsets: Seq<u32>, alignment: u32) -> Result<(), DynamicOffsetError> {
    if bindings_len != offsets.len() {
        Err(DynamicOffsetError::CountMismatch { expected: bindings_len as usize, provided: offsets.len() as usize })
    } else if exists|k: int| 0 <= k < offsets.len() && !offset_aligned(#[trigger] offsets[k], alignment) {
        Err(DynamicOffsetError::Misaligned { offset: offsets[first_misaligned(offsets, alignment).unwrap()], alignment })
    } else {
        Ok(())
    }
}

/// The first misaligned offset is well defined.
proof fn lemma_first_misaligned(offsets: Seq<u32>, alignment: u32, k: int)
    requires
        0 <= k < offsets.len(),
        !offset_aligned(offsets[k], alignment),
        forall|i: int| 0 <= i < k ==> offset_aligned(#[trigger] offsets[i], alignment),
    ensures
        first_misaligned(offsets, alignment) == Some(k),
{
    let c = choose|k: int| {
        &&& 0 <= k < offsets.len()
        &&& !offset_aligned(#[trigger] offsets[k], alignment)
        &&& forall|i: int| 0 <= i < k ==> offset_aligned(#[trigger] offsets[i], alignment)
    };
    assert(first_misaligned(offsets, alignment) == Some(c));
    if c < k {
        assert(offset_aligned(offsets[c], alignment));
    } else if c > k {
        assert(offset_aligned(offsets[k], alignment));
    }
}

/// Validates the offset array of a `set_bind_group` call against the
/// layout's dynamic buffer bindings: one offset per binding, each a multiple
/// of the device's constant buffer offset alignment.
pub fn validate_dynamic_offsets(dynamic_bindings: &[u32], offsets: &[u32], alignment: u32) -> (r: Result<(), DynamicOffsetError>)
    ensures
        r == validation_spec(dynamic_bindings@.len() as int, offsets@, alignment),
        r is Ok <==> dynamic_bindings@.len() == offsets@.len()
            && forall|k: int| 0 <= k < offsets@.len() ==> offset_aligned(#[trigger] offsets@[k], alignment),
{
    if dynamic_bindings.len() != offsets.len() {
        return Err(DynamicOffsetError::CountMismatch { expected: dynamic_bindings.len(), provided: offsets.len() });
    }
    let mut i: usize = 0;
    while i < offsets.len()
        invariant
            i <= offsets.len(),
            dynamic_bindings@.len() == offsets@.len(),
            forall|k: int| 0 <= k < i ==> offset_aligned(#[trigger] offsets@[k], alignment),
        decreases offsets.len() - i,
    {
        let offset = offsets[i];
        if alignment == 0 || offset % alignment != 0 {
            proof {
                assert(!offset_aligned(offsets@[i as int], alignment));
                lemma_first_misaligned(offsets@, alignment, i as int);
            }
            return Err(DynamicOffsetError::Misaligned { offset, alignment });
        }
        i = i + 1;
    }
    Ok(())
}

/// The alignment assumed before a device reports its own: the D3D12
/// constant buffer alignment.
pub const DEFAULT_CONSTANT_BUFFER_OFFSET_ALIGNMENT: u32 = 256;

/// The device's constant buffer offset alignment, recorded once.
#[derive(Clone, Copy, Debug, PartialEq, Eq, Structural)]
pub struct AlignmentLatch {
    pub value: Option<u32>,
}

impl AlignmentLatch {
    /// A latch that holds nothing yet.
    pub fn new() -> (l: AlignmentLatch)
        ensures
            l.value is None,
    {
        AlignmentLatch { value: None }
    }
}

/// Records the device's constant buffer offset alignment: the first call
/// wins, later ones change nothing.
pub fn latch_constant_buffer_offset_alignment(latch: &mut AlignmentLatch, alignment: u32)
    ensures
        final(latch).value == match old(latch).value {
            Some(a) => Some(a),
            None => Some(alignment),
        },
{
    if latch.value.is_none() {
        latch.value = Some(alignment);
    }
}

/// The latched alignment, or the default when none was latched.
pub fn constant_buffer_offset_alignment(latch: &AlignmentLatch) -> (a: u32)
    ensures
        a == match latch.value {
            Some(v) => v,
            None => DEFAULT_CONSTANT_BUFFER_OFFSET_ALIGNMENT,
        },
{
    match latch.value {
        Some(v) => v,
        None => DEFAULT_CONSTANT_BUFFER_OFFSET_ALIGNMENT,
    }
}

/// The engine variable cached for a binding: the latest one cached.
pub open spec fn cached_variable(cached: Seq<(u32, u64)>, binding: u32) -> Option<u64>
    decreases cached.len(),
{
    if cached.len() == 0 {
        None
    } else if cached.last().0 == binding {
        Some(cached.last().1)
    } else {
        cached_variable(cached.drop_last(), binding)
    }
}

/// Looks up the engine variable cached for `binding`.
pub fn dynamic_variable(cached: &[(u32, u64)], binding: u32) -> (r: Option<u64>)
    ensures
        r == cached_variable(cached@, binding),
{
    let mut i: usize = cached.len();
    proof {
        assert(cached@.take(cached.len() as int) =~= cached@);
    }
    while i > 0
        invariant
            i <= cached.len(),
            cached_variable(cached@, binding) == cached_variable(cached@.take(i as int), binding),
        decreases i,
    {
        proof {
            assert(cached@.take(i as int).drop_last() =~= cached@.take(i as int - 1));
        }
        if cached[i - 1].0 == binding {
            return Some(cached[i - 1].1);
        }
        i = i - 1;
    }
    None
}

/// The (variable, offset) pairs a valid offset array sets, in binding order,
/// or the first binding with no cached variable.
pub open spec fn offset_plan_spec(cached: Seq<(u32, u64)>, bindings: Seq<u32>, offsets: Seq<u32>, r: Result<Vec<(u64, u32)>, DynamicOffsetError>) -> bool {
    match r {
        Ok(plan) => {
            &&& plan@.len() == bindings.len()
            &&& forall|i: int| 0 <= i < bindings.len()
                ==> cached_variable(cached, #[trigger] bindings[i]) == Some(plan@[i].0) && plan@[i].1 == offsets[i]
        },
        Err(DynamicOffsetError::MissingVariable { binding }) => exists|k: int| {
            &&& 0 <= k < bindings.len()
            &&& binding == bindings[k]
            &&& cached_variable(cached, #[trigger] bindings[k]) is None
            &&& forall|i: int| 0 <= i < k ==> cached_variable(cached, #[trigger] bindings[i]) is Some
        },
        Err(_) => false,
    }
}

/// The per-draw dynamic offsets of a `set_bind_group` call: validates the
/// array, then pairs each dynamic binding (ascending) with its offset and
/// the engine variable cached for it at bind group creation.
pub fn plan_dynamic_offsets(cached: &[(u32, u64)], dynamic_bindings: &[u32], offsets: &[u32], alignment: u32) -> (r: Result<Vec<(u64, u32)>, DynamicOffsetError>)
    ensures
        validation_spec(dynamic_bindings@.len() as int, offsets@, alignment) is Err
            ==> (r matches Err(e) && validation_spec(dynamic_bindings@.len() as int, offsets@, alignment) == Err::<(), DynamicOffsetError>(e)),
        validation_spec(dynamic_bindings@.len() as int, offsets@, alignment) is Ok
            ==> offset_plan_spec(cached@, dynamic_bindings@, offsets@, r),
{
    match validate_dynamic_offsets(dynamic_bindings, offsets, alignment) {
        Ok(()) => {},
        Err(e) => return Err(e),
    }
    let mut plan: Vec<(u64, u32)> = Vec::new();
    let mut i: usize = 0;
    while i < dynamic_bindings.len()
        invariant
            i <= dynamic_bindings.len(),
            dynamic_bindings@.len() == offsets@.len(),
            validation_spec(dynamic_bindings@.len() as int, offsets@, alignment) is Ok,
            plan@.len() == i,
            forall|m: int| 0 <= m < i
                ==> cached_variable(cached@, #[trigger] dynamic_bindings@[m]) == Some(plan@[m].0) && plan@[m].1 == offsets@[m],
        decreases dynamic_bindings.len() - i,
    {
        let binding = dynamic_bindings[i];
        match dynamic_variable(cached, binding) {
            Some(v) => {
                plan.push((v, offsets[i]));
            },
            None => {
                return Err(DynamicOffsetError::MissingVariable { binding });
            },
        }
        i = i + 1;
    }
    Ok(plan)
}

/// The buffer binding type for read-only data: a read-only storage buffer
/// when the device allows that many per shader stage, else a uniform
/// buffer.
pub fn get_supported_read_only_binding_type(max_storage_buffers_per_shader_stage: u32, buffers_per_shader_stage: u32) -> (t: gpu::BufferBindingType)
    ensures
        t == if max_storage_buffers_per_shader_stage >= buffers_per_shader_stage {
            gpu::BufferBindingType::Storage { read_only: true }
        } else {
            gpu::BufferBindingType::Uniform
        },
{
    if max_storage_buffers_per_shader_stage >= buffers_per_shader_stage {
        gpu::BufferBindingType::Storage { read_only: true }
    } else {
        gpu::BufferBindingType::Uniform
    }
}

} // verus!
