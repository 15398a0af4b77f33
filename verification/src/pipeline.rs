//! Pipeline state translation: the vertex input layout, blend, rasterizer
//! and depth-stencil states, and the checks a render pipeline must pass to
//! get an engine pipeline state.

use crate::diligent_types as dil;
use crate::gpu_types as gpu;
use crate::mapping;
use crate::text;
use vstd::prelude::*;
use vstd::seq_lib::*;

verus! {

/// One vertex attribute of a vertex buffer layout.
#[derive(Clone, Copy, Debug, PartialEq, Eq, Structural)]
pub struct VertexAttribute {
    pub format: gpu::VertexFormat,
    pub offset: u64,
    pub shader_location: u32,
}

/// A vertex buffer layout. The stride is not part of the engine layout:
/// the engine derives it.
#[derive(Clone, Debug)]
pub struct VertexBufferLayout {
    pub array_stride: u64,
    pub step_mode: gpu::VertexStepMode,
    pub attributes: Vec<VertexAttribute>,
}

/// An attribute with what the engine layout needs of it, before it gets
/// its input slot.
#[derive(Clone, Copy, Debug, PartialEq, Eq, Structural)]
pub struct AttributeRecord {
    pub location: u32,
    pub buffer_slot: u32,
    pub offset: u32,
    pub num_components: u32,
    pub value_type: dil::ValueType,
    pub normalized: bool,
    pub frequency: dil::InputElementFrequency,
}

/// One element of the engine vertex input layout: semantic `LOC{n}` for
/// shader location n, input slot `input_index`.
#[derive(Clone, Debug)]
pub struct LayoutElement {
    pub semantic: String,
    pub input_index: u32,
    pub buffer_slot: u32,
    pub num_components: u32,
    pub value_type: dil::ValueType,
    pub normalized: bool,
    pub relative_offset: u32,
    pub frequency: dil::InputElementFrequency,
}

/// The engine input frequency of a step mode.
pub open spec fn frequency_spec(step: gpu::VertexStepMode) -> dil::InputElementFrequency {
    match step {
        gpu::VertexStepMode::Vertex => dil::InputElementFrequency::PerVertex,
        gpu::VertexStepMode::Instance => dil::InputElementFrequency::PerInstance,
    }
}

/// The record of attribute `a` of buffer `slot` with step mode `step`, when
/// its format has an engine counterpart.
pub open spec fn attribute_record(a: VertexAttribute, slot: int, step: gpu::VertexStepMode) -> Option<AttributeRecord> {
    match mapping::vertex_format_spec(a.format) {
        Some((value_type, components, normalized)) => Some(AttributeRecord {
            location: a.shader_location,
            buffer_slot: slot as u32,
            offset: a.offset as u32,
            num_components: components,
            value_type,
            normalized,
            frequency: frequency_spec(step),
        }),
        None => None,
    }
}

/// The records of a list of attributes of one buffer, or `None` when one
/// has no engine format.
pub open spec fn buffer_records(attrs: Seq<VertexAttribute>, slot: int, step: gpu::VertexStepMode) -> Option<Seq<AttributeRecord>>
    decreases attrs.len(),
{
    if attrs.len() == 0 {
        Some(Seq::empty())
    } else {
        match buffer_records(attrs.drop_last(), slot, step) {
            None => None,
            Some(rs) => match attribute_record(attrs.last(), slot, step) {
                None => None,
                Some(r) => Some(rs.push(r)),
            },
        }
    }
}

/// A buffer layout's parts as a value.
pub open spec fn buffer_view(b: VertexBufferLayout) -> (gpu::VertexStepMode, Seq<VertexAttribute>) {
    (b.step_mode, b.attributes@)
}

/// The records of all attributes, buffer by buffer, or `None` when one has
/// no engine format.
pub open spec fn all_records(buffers: Seq<(gpu::VertexStepMode, Seq<VertexAttribute>)>) -> Option<Seq<AttributeRecord>>
    decreases buffers.len(),
{
    if buffers.len() == 0 {
        Some(Seq::empty())
    } else {
        match all_records(buffers.drop_last()) {
            None => None,
            Some(rs) => match buffer_records(buffers.last().1, buffers.len() - 1, buffers.last().0) {
                None => None,
                Some(more) => Some(rs + more),
            },
        }
    }
}

/// The index at which a record with location `key` goes in `s`: before the
/// first record with a greater location.
pub open spec fn location_position(s: Seq<AttributeRecord>, key: u32) -> nat
    decreases s.len(),
{
    if s.len() == 0 {
        0
    } else if s[0].location > key {
        0
    } else {
        1 + location_position(s.drop_first(), key)
    }
}

/// The records in ascending location order, equal locations in their
/// original order (a stable sort by location).
pub open spec fn sorted_by_location(s: Seq<AttributeRecord>) -> Seq<AttributeRecord>
    decreases s.len(),
{
    if s.len() == 0 {
        Seq::empty()
    } else {
        let r = sorted_by_location(s.drop_last());
        r.insert(location_position(r, s.last().location) as int, s.last())
    }
}

/// Whether the records are in ascending location order.
pub open spec fn location_ascending(s: Seq<AttributeRecord>) -> bool {
    forall|i: int, j: int| 0 <= i < j < s.len() ==> s[i].location <= s[j].location
}

/// The insert position is the length of the prefix of locations not above
/// the key.
proof fn lemma_location_position(s: Seq<AttributeRecord>, key: u32, k: int)
    requires
        0 <= k <= s.len(),
        forall|m: int| 0 <= m < k ==> s[m].location <= key,
        k < s.len() ==> s[k].location > key,
    ensures
        location_position(s, key) == k,
    decreases k,
{
    if k > 0 {
        let t = s.drop_first();
        assert forall|m: int| 0 <= m < k - 1 implies t[m].location <= key by {
            assert(t[m] == s[m + 1]);
        }
        if k - 1 < t.len() {
            assert(t[k - 1] == s[k]);
        }
        lemma_location_position(t, key, k - 1);
    }
}

/// Sorts attribute records by shader location, keeping the original order
/// of equal locations (the order of the shader's inputs).
pub fn sort_by_location(records: &[AttributeRecord]) -> (r: Vec<AttributeRecord>)
    ensures
        r@ == sorted_by_location(records@),
        r@.len() == records@.len(),
        location_ascending(r@),
        r@.to_multiset() == records@.to_multiset(),
{
    let mut out: Vec<AttributeRecord> = Vec::new();
    let mut i: usize = 0;
    proof {
        assert(records@.take(0) =~= Seq::<AttributeRecord>::empty());
        assert(out@ =~= Seq::<AttributeRecord>::empty());
        broadcast use vstd::multiset::group_multiset_axioms;
        assert(Seq::<AttributeRecord>::empty().to_multiset() =~= vstd::multiset::Multiset::empty()) by {
            broadcast use vstd::seq_lib::group_to_multiset_ensures;
        }
    }
    while i < records.len()
        invariant
            i <= records.len(),
            out@ == sorted_by_location(records@.take(i as int)),
            out@.len() == i,
            location_ascending(out@),
            out@.to_multiset() == records@.take(i as int).to_multiset(),
        decreases records.len() - i,
    {
        let e = records[i];
        let key = e.location;
        let mut pos: usize = 0;
        while pos < out.len() && out[pos].location <= key
            invariant
                pos <= out.len(),
                forall|m: int| 0 <= m < pos ==> out@[m].location <= key,
            decreases out.len() - pos,
        {
            pos = pos + 1;
        }
        let ghost before = out@;
        proof {
            lemma_location_position(before, key, pos as int);
            assert(records@.take(i as int + 1).drop_last() =~= records@.take(i as int));
            assert(records@.take(i as int + 1).last() == e);
        }
        out.insert(pos, e);
        proof {
            to_multiset_insert(before, pos as int, e);
            assert(records@.take(i as int + 1) =~= records@.take(i as int).push(e));
            to_multiset_build(records@.take(i as int), e);
            assert forall|a: int, b: int| 0 <= a < b < out@.len() implies out@[a].location <= out@[b].location by {
                if b < pos {
                } else if b == pos {
                } else if a < pos {
                    assert(out@[b] == before[b - 1]);
                    assert(before[b - 1].location >= key) by {
                        if pos < before.len() {
                            assert(before[pos as int].location > key);
                        }
                    }
                } else if a == pos {
                    assert(before[b - 1].location >= before[pos as int].location);
                } else {
                }
            }
        }
        i = i + 1;
    }
    proof {
        assert(records@.take(records.len() as int) =~= records@);
    }
    out
}

/// The semantic of shader location `location`: `LOC` and the location in
/// decimal.
pub open spec fn semantic_spec(location: u32) -> Seq<char> {
    seq!['L', 'O', 'C'] + text::decimal(location as nat)
}

/// The semantic of a shader location.
pub fn location_semantic(location: u32) -> (s: String)
    ensures
        s@ == semantic_spec(location),
{
    let prefix = "LOC";
    proof {
        reveal_strlit("LOC");
    }
    let mut s = String::from_str(prefix);
    text::append_decimal(&mut s, location as u64);
    proof {
        assert(prefix@ =~= seq!['L', 'O', 'C']);
    }
    s
}

/// Whether `e` is the layout element of record `r` at input slot `index`.
pub open spec fn element_matches(e: LayoutElement, r: AttributeRecord, index: int) -> bool {
    &&& e.semantic@ == semantic_spec(r.location)
    &&& e.input_index == index as u32
    &&& e.buffer_slot == r.buffer_slot
    &&& e.num_components == r.num_components
    &&& e.value_type == r.value_type
    &&& e.normalized == r.normalized
    &&& e.relative_offset == r.offset
    &&& e.frequency == r.frequency
}

/// Collects the records of one buffer's attributes; `None` when one has no
/// engine format.
fn collect_buffer(out: &mut Vec<AttributeRecord>, buffer: &VertexBufferLayout, slot: usize) -> (ok: bool)
    ensures
        ok == (buffer_records(buffer.attributes@, slot as int, buffer.step_mode) is Some),
        ok ==> final(out)@ == old(out)@ + buffer_records(buffer.attributes@, slot as int, buffer.step_mode).unwrap(),
{
    let frequency = match buffer.step_mode {
        gpu::VertexStepMode::Vertex => dil::InputElementFrequency::PerVertex,
        gpu::VertexStepMode::Instance => dil::InputElementFrequency::PerInstance,
    };
    let attrs = &buffer.attributes;
    let ghost start = out@;
    let mut j: usize = 0;
    proof {
        assert(attrs@.take(0) =~= Seq::<VertexAttribute>::empty());
        assert(out@ =~= start + Seq::<AttributeRecord>::empty());
    }
    while j < attrs.len()
        invariant
            j <= attrs.len(),
            attrs == &buffer.attributes,
            frequency == frequency_spec(buffer.step_mode),
            buffer_records(attrs@.take(j as int), slot as int, buffer.step_mode) matches Some(rs) && out@ == start + rs,
        decreases attrs.len() - j,
    {
        let a = attrs[j];
        proof {
            assert(attrs@.take(j as int + 1).drop_last() =~= attrs@.take(j as int));
            assert(attrs@.take(j as int + 1).last() == a);
        }
        match mapping::vertex_format_to_value_type(a.format) {
            Some((value_type, components, normalized)) => {
                let ghost rs = buffer_records(attrs@.take(j as int), slot as int, buffer.step_mode).unwrap();
                out.push(AttributeRecord {
                    location: a.shader_location,
                    buffer_slot: slot as u32,
                    offset: a.offset as u32,
                    num_components: components,
                    value_type,
                    normalized,
                    frequency,
                });
                proof {
                    assert(out@ =~= start + rs.push(attribute_record(a, slot as int, buffer.step_mode).unwrap()));
                }
            },
            None => {
                proof {
                    lemma_buffer_records_none(attrs@, j as int, slot as int, buffer.step_mode);
                }
                return false;
            },
        }
        j = j + 1;
    }
    proof {
        assert(attrs@.take(attrs.len() as int) =~= attrs@);
    }
    true
}

/// An attribute without engine format fails the whole buffer.
proof fn lemma_buffer_records_none(attrs: Seq<VertexAttribute>, j: int, slot: int, step: gpu::VertexStepMode)
    requires
        0 <= j < attrs.len(),
        buffer_records(attrs.take(j + 1), slot, step) is None,
    ensures
        buffer_records(attrs, slot, step) is None,
    decreases attrs.len() - j,
{
    if j + 1 < attrs.len() {
        assert(attrs.drop_last().take(j + 1) =~= attrs.take(j + 1));
        lemma_buffer_records_none(attrs.drop_last(), j, slot, step);
    } else {
        assert(attrs.take(j + 1) =~= attrs);
    }
}

/// A buffer without engine layout fails all the buffers.
proof fn lemma_all_records_none(buffers: Seq<(gpu::VertexStepMode, Seq<VertexAttribute>)>, i: int)
    requires
        0 <= i < buffers.len(),
        all_records(buffers.take(i + 1)) is None,
    ensures
        all_records(buffers) is None,
    decreases buffers.len() - i,
{
    if i + 1 < buffers.len() {
        assert(buffers.drop_last().take(i + 1) =~= buffers.take(i + 1));
        lemma_all_records_none(buffers.drop_last(), i);
    } else {
        assert(buffers.take(i + 1) =~= buffers);
    }
}

/// The engine vertex input layout of a pipeline's vertex buffers: one
/// element per attribute, ordered by shader location (the shader's input
/// order), buffer slot = the buffer's index. `None` when an attribute's
/// format has no engine counterpart or there is no attribute at all.
pub fn build_vertex_layout(buffers: &[VertexBufferLayout]) -> (r: Option<Vec<LayoutElement>>)
    requires
        buffers@.len() <= u32::MAX,
    ensures
        match all_records(buffers@.map_values(|b: VertexBufferLayout| buffer_view(b))) {
            None => r is None,
            Some(recs) => if recs.len() == 0 {
                r is None
            } else {
                r matches Some(elements) && elements@.len() == recs.len()
                    && forall|i: int| 0 <= i < recs.len() ==> element_matches(#[trigger] elements@[i], sorted_by_location(recs)[i], i)
            },
        },
{
    let ghost views = buffers@.map_values(|b: VertexBufferLayout| buffer_view(b));
    let mut records: Vec<AttributeRecord> = Vec::new();
    let mut i: usize = 0;
    proof {
        assert(views.take(0) =~= Seq::<(gpu::VertexStepMode, Seq<VertexAttribute>)>::empty());
        assert(records@ =~= Seq::<AttributeRecord>::empty());
    }
    while i < buffers.len()
        invariant
            i <= buffers.len(),
            buffers@.len() <= u32::MAX,
            views == buffers@.map_values(|b: VertexBufferLayout| buffer_view(b)),
            all_records(views.take(i as int)) == Some(records@),
        decreases buffers.len() - i,
    {
        proof {
            assert(views.take(i as int + 1).drop_last() =~= views.take(i as int));
            assert(views.take(i as int + 1).last() == buffer_view(buffers@[i as int]));
        }
        let ok = collect_buffer(&mut records, &buffers[i], i);
        if !ok {
            proof {
                lemma_all_records_none(views, i as int);
            }
            return None;
        }
        i = i + 1;
    }
    proof {
        assert(views.take(buffers.len() as int) =~= views);
    }
    let sorted = sort_by_location(records.as_slice());
    let mut elements: Vec<LayoutElement> = Vec::new();
    let mut k: usize = 0;
    while k < sorted.len()
        invariant
            k <= sorted.len(),
            sorted@ == sorted_by_location(records@),
            sorted@.len() == records@.len(),
            all_records(views) == Some(records@),
            views == buffers@.map_values(|b: VertexBufferLayout| buffer_view(b)),
            elements@.len() == k,
            forall|m: int| 0 <= m < k ==> element_matches(#[trigger] elements@[m], sorted@[m], m),
        decreases sorted.len() - k,
    {
        let rec = sorted[k];
        let semantic = location_semantic(rec.location);
        let ghost prev = elements@;
        elements.push(LayoutElement {
            semantic,
            input_index: k as u32,
            buffer_slot: rec.buffer_slot,
            num_components: rec.num_components,
            value_type: rec.value_type,
            normalized: rec.normalized,
            relative_offset: rec.offset,
            frequency: rec.frequency,
        });
        proof {
            assert forall|m: int| 0 <= m < k + 1 implies element_matches(#[trigger] elements@[m], sorted@[m], m) by {
                if m < k {
                    assert(elements@[m] == prev[m]);
                }
            }
        }
        k = k + 1;
    }
    if elements.len() == 0 {
        return None;
    }
    Some(elements)
}

/// The entry point of a shader stage: the one named, or "main".
pub fn entry_point(name: Option<&str>) -> (r: &str)
    ensures
        match name {
            Some(e) => r@ == e@,
            None => r@ == "main"@,
        },
{
    match name {
        Some(e) => e,
        None => "main",
    }
}

/// The most render targets a pipeline can have.
pub const MAX_RENDER_TARGETS: usize = 8;

/// The engine's "no format".
pub const FORMAT_UNKNOWN: u32 = 0;

/// One blend equation.
#[derive(Clone, Copy, Debug, PartialEq, Eq, Structural)]
pub struct BlendComponent {
    pub src_factor: gpu::BlendFactor,
    pub dst_factor: gpu::BlendFactor,
    pub operation: gpu::BlendOperation,
}

/// The color and alpha blend equations of a target.
#[derive(Clone, Copy, Debug, PartialEq, Eq, Structural)]
pub struct BlendState {
    pub color: BlendComponent,
    pub alpha: BlendComponent,
}

/// A color target of a render pipeline, with its engine format resolved.
#[derive(Clone, Copy, Debug, PartialEq, Eq, Structural)]
pub struct ColorTargetInput {
    pub format: u32,
    pub write_mask: gpu::ColorWrites,
    pub blend: Option<BlendState>,
}

/// The engine blend equations of an enabled blend.
#[derive(Clone, Copy, Debug, PartialEq, Eq, Structural)]
pub struct BlendDesc {
    pub src_blend: dil::DiligentBlendFactor,
    pub dest_blend: dil::DiligentBlendFactor,
    pub blend_op: dil::DiligentBlendOperation,
    pub src_blend_alpha: dil::DiligentBlendFactor,
    pub dest_blend_alpha: dil::DiligentBlendFactor,
    pub blend_op_alpha: dil::DiligentBlendOperation,
}

/// The blend state and write mask of one render target; `blend: None` is
/// blending disabled.
#[derive(Clone, Copy, Debug, PartialEq, Eq, Structural)]
pub struct RenderTargetBlendDesc {
    pub blend: Option<BlendDesc>,
    pub write_mask: dil::ColorMask,
}

/// The blend target of an unused slot: writes nothing.
pub fn no_write_blend_target() -> (rt: RenderTargetBlendDesc)
    ensures
        rt == (RenderTargetBlendDesc { blend: None, write_mask: dil::COLOR_MASK_NONE }),
{
    RenderTargetBlendDesc { blend: None, write_mask: dil::COLOR_MASK_NONE }
}

/// The engine blend desc of a blend state.
pub open spec fn blend_desc_spec(b: BlendState) -> BlendDesc {
    BlendDesc {
        src_blend: mapping::blend_factor_spec(b.color.src_factor),
        dest_blend: mapping::blend_factor_spec(b.color.dst_factor),
        blend_op: mapping::blend_operation_spec(b.color.operation),
        src_blend_alpha: mapping::blend_factor_spec(b.alpha.src_factor),
        dest_blend_alpha: mapping::blend_factor_spec(b.alpha.dst_factor),
        blend_op_alpha: mapping::blend_operation_spec(b.alpha.operation),
    }
}

/// The blend target of a color target: its write mask, and its blend
/// equations when it blends.
pub open spec fn blend_target_spec(t: ColorTargetInput) -> RenderTargetBlendDesc {
    RenderTargetBlendDesc {
        blend: match t.blend {
            Some(b) => Some(blend_desc_spec(b)),
            None => None,
        },
        write_mask: t.write_mask as u8,
    }
}

/// Color target -> engine blend target.
pub fn translate_blend_target(target: &ColorTargetInput) -> (rt: RenderTargetBlendDesc)
    requires
        target.write_mask <= gpu::COLOR_WRITE_ALL,
    ensures
        rt == blend_target_spec(*target),
{
    let write_mask = mapping::color_writes(target.write_mask);
    let blend = match target.blend {
        Some(b) => Some(BlendDesc {
            src_blend: mapping::blend_factor(b.color.src_factor),
            dest_blend: mapping::blend_factor(b.color.dst_factor),
            blend_op: mapping::blend_operation(b.color.operation),
            src_blend_alpha: mapping::blend_factor(b.alpha.src_factor),
            dest_blend_alpha: mapping::blend_factor(b.alpha.dst_factor),
            blend_op_alpha: mapping::blend_operation(b.alpha.operation),
        }),
        None => None,
    };
    RenderTargetBlendDesc { blend, write_mask }
}

/// The stencil test of one face.
#[derive(Clone, Copy, Debug, PartialEq, Eq, Structural)]
pub struct StencilFaceState {
    pub compare: gpu::CompareFunction,
    pub fail_op: gpu::StencilOperation,
    pub depth_fail_op: gpu::StencilOperation,
    pub pass_op: gpu::StencilOperation,
}

impl StencilFaceState {
    /// The face state that ignores the stencil: always passes, keeps
    /// everything.
    pub open spec fn ignore() -> StencilFaceState {
        StencilFaceState {
            compare: gpu::CompareFunction::Always,
            fail_op: gpu::StencilOperation::Keep,
            depth_fail_op: gpu::StencilOperation::Keep,
            pass_op: gpu::StencilOperation::Keep,
        }
    }

    /// Whether this face state ignores the stencil.
    pub fn is_ignore(&self) -> (r: bool)
        ensures
            r == (*self == Self::ignore()),
    {
        self.compare == gpu::CompareFunction::Always && self.fail_op == gpu::StencilOperation::Keep
            && self.depth_fail_op == gpu::StencilOperation::Keep && self.pass_op == gpu::StencilOperation::Keep
    }
}

/// The stencil state of a depth-stencil target.
#[derive(Clone, Copy, Debug, PartialEq, Eq, Structural)]
pub struct StencilState {
    pub front: StencilFaceState,
    pub back: StencilFaceState,
    pub read_mask: u32,
    pub write_mask: u32,
}

impl StencilState {
    /// Whether the stencil test is on: a face does more than ignore the
    /// stencil, and a mask is not zero.
    pub open spec fn enabled(self) -> bool {
        (self.front != StencilFaceState::ignore() || self.back != StencilFaceState::ignore())
            && (self.read_mask != 0 || self.write_mask != 0)
    }

    /// Whether the stencil test is on.
    pub fn is_enabled(&self) -> (r: bool)
        ensures
            r == self.enabled(),
    {
        (!self.front.is_ignore() || !self.back.is_ignore()) && (self.read_mask != 0 || self.write_mask != 0)
    }
}

/// The depth-stencil target of a render pipeline, with its engine format
/// resolved. Only the constant depth bias is carried: the slope and clamp
/// are floating point and set by the caller.
#[derive(Clone, Copy, Debug, PartialEq, Eq, Structural)]
pub struct DepthStencilState {
    pub format: u32,
    pub depth_write_enabled: Option<bool>,
    pub depth_compare: Option<gpu::CompareFunction>,
    pub stencil: StencilState,
    pub bias_constant: i32,
}

/// The engine stencil operations of one face.
#[derive(Clone, Copy, Debug, PartialEq, Eq, Structural)]
pub struct StencilOpDesc {
    pub fail_op: dil::StencilOp,
    pub depth_fail_op: dil::StencilOp,
    pub pass_op: dil::StencilOp,
    pub func: dil::ComparisonFunction,
}

/// The engine stencil state: masks (low byte) and both faces.
#[derive(Clone, Copy, Debug, PartialEq, Eq, Structural)]
pub struct StencilDesc {
    pub read_mask: u8,
    pub write_mask: u8,
    pub front: StencilOpDesc,
    pub back: StencilOpDesc,
}

/// The engine depth-stencil state of an enabled depth test; `stencil:
/// None` is the stencil test disabled.
#[derive(Clone, Copy, Debug, PartialEq, Eq, Structural)]
pub struct DepthStencilDesc {
    pub depth_write_enable: bool,
    pub depth_func: dil::ComparisonFunction,
    pub stencil: Option<StencilDesc>,
}

/// The engine operations of a stencil face.
pub open spec fn stencil_face_spec(f: StencilFaceState) -> StencilOpDesc {
    StencilOpDesc {
        fail_op: mapping::stencil_operation_spec(f.fail_op),
        depth_fail_op: mapping::stencil_operation_spec(f.depth_fail_op),
        pass_op: mapping::stencil_operation_spec(f.pass_op),
        func: mapping::comparison_spec(f.compare),
    }
}

/// Stencil face -> engine stencil operations.
pub fn translate_stencil_face(face: &StencilFaceState) -> (op: StencilOpDesc)
    ensures
        op == stencil_face_spec(*face),
{
    StencilOpDesc {
        fail_op: mapping::stencil_operation(face.fail_op),
        depth_fail_op: mapping::stencil_operation(face.depth_fail_op),
        pass_op: mapping::stencil_operation(face.pass_op),
        func: mapping::comparison_function(face.compare),
    }
}

/// The engine depth-stencil state: disabled (`None`) without a
/// depth-stencil target or with an unknown format; otherwise the depth test
/// is on, writes when enabled (default off), compares with the given
/// function (default always), and the stencil test is on when enabled.
pub open spec fn depth_stencil_spec(state: Option<DepthStencilState>) -> Option<DepthStencilDesc> {
    match state {
        None => None,
        Some(s) => if s.format == FORMAT_UNKNOWN {
            None
        } else {
            Some(DepthStencilDesc {
                depth_write_enable: match s.depth_write_enabled { Some(w) => w, None => false },
                depth_func: mapping::comparison_spec(match s.depth_compare { Some(c) => c, None => gpu::CompareFunction::Always }),
                stencil: if s.stencil.enabled() {
                    Some(StencilDesc {
                        read_mask: s.stencil.read_mask as u8,
                        write_mask: s.stencil.write_mask as u8,
                        front: stencil_face_spec(s.stencil.front),
                        back: stencil_face_spec(s.stencil.back),
                    })
                } else {
                    None
                },
            })
        },
    }
}

/// Depth-stencil target -> engine depth-stencil state.
pub fn translate_depth_stencil(state: Option<DepthStencilState>) -> (ds: Option<DepthStencilDesc>)
    ensures
        ds == depth_stencil_spec(state),
{
    let s = match state {
        Some(s) => s,
        None => return None,
    };
    if s.format == FORMAT_UNKNOWN {
        return None;
    }
    let depth_write_enable = match s.depth_write_enabled {
        Some(w) => w,
        None => false,
    };
    let depth_func = mapping::comparison_function(match s.depth_compare {
        Some(c) => c,
        None => gpu::CompareFunction::Always,
    });
    let stencil = if s.stencil.is_enabled() {
        Some(StencilDesc {
            read_mask: s.stencil.read_mask as u8,
            write_mask: s.stencil.write_mask as u8,
            front: translate_stencil_face(&s.stencil.front),
            back: translate_stencil_face(&s.stencil.back),
        })
    } else {
        None
    };
    Some(DepthStencilDesc { depth_write_enable, depth_func, stencil })
}

/// How primitives are assembled and rasterized.
#[derive(Clone, Copy, Debug, PartialEq, Eq, Structural)]
pub struct PrimitiveState {
    pub topology: gpu::PrimitiveTopology,
    pub front_face: gpu::FrontFace,
    pub cull_mode: Option<gpu::Face>,
    pub unclipped_depth: bool,
    pub polygon_mode: gpu::PolygonMode,
    pub conservative: bool,
}

/// The engine rasterizer state (the floating-point depth bias terms are
/// set by the caller).
#[derive(Clone, Copy, Debug, PartialEq, Eq, Structural)]
pub struct RasterizerDesc {
    pub fill_mode: dil::FillMode,
    pub cull_mode: dil::CullMode,
    pub front_counter_clockwise: bool,
    pub depth_clip_enable: bool,
    pub depth_bias: i32,
}

/// The engine rasterizer state; `None` for point rasterization.
pub open spec fn rasterizer_spec(primitive: PrimitiveState, depth_stencil: Option<DepthStencilState>) -> Option<RasterizerDesc> {
    let fill = match primitive.polygon_mode {
        gpu::PolygonMode::Fill => Some(dil::FillMode::Solid),
        gpu::PolygonMode::Line => Some(dil::FillMode::Wireframe),
        gpu::PolygonMode::Point => None,
    };
    match fill {
        None => None,
        Some(f) => Some(RasterizerDesc {
            fill_mode: f,
            cull_mode: match primitive.cull_mode {
                None => dil::CullMode::NoCulling,
                Some(gpu::Face::Front) => dil::CullMode::Front,
                Some(gpu::Face::Back) => dil::CullMode::Back,
            },
            front_counter_clockwise: primitive.front_face == gpu::FrontFace::Ccw,
            depth_clip_enable: !primitive.unclipped_depth,
            depth_bias: match depth_stencil { Some(ds) => ds.bias_constant, None => 0 },
        }),
    }
}

/// Primitive state -> engine rasterizer state.
pub fn translate_rasterizer(primitive: &PrimitiveState, depth_stencil: &Option<DepthStencilState>) -> (ra: Option<RasterizerDesc>)
    ensures
        ra == rasterizer_spec(*primitive, *depth_stencil),
{
    let fill_mode = match mapping::fill_mode(primitive.polygon_mode) {
        Some(f) => f,
        None => return None,
    };
    let front_counter_clockwise = match primitive.front_face {
        gpu::FrontFace::Ccw => true,
        gpu::FrontFace::Cw => false,
    };
    let depth_bias = match depth_stencil {
        Some(ds) => ds.bias_constant,
        None => 0,
    };
    Some(RasterizerDesc {
        fill_mode,
        cull_mode: mapping::cull_mode(primitive.cull_mode),
        front_counter_clockwise,
        depth_clip_enable: !primitive.unclipped_depth,
        depth_bias,
    })
}

/// The name of a pipeline state: `bevy_` and the label, or the default.
pub fn pipeline_name(label: Option<&str>, default_name: &str) -> (name: String)
    ensures
        name@ == match label {
            Some(l) => "bevy_"@ + l@,
            None => default_name@,
        },
{
    match label {
        Some(l) => {
            let mut name = String::from_str("bevy_");
            name.append(l);
            name
        },
        None => String::from_str(default_name),
    }
}

/// Why a render pipeline gets no engine pipeline state.
#[derive(Clone, Copy, Debug, PartialEq, Eq, Structural)]
pub enum PipelineError {
    /// More color targets than the engine allows.
    TooManyTargets { count: usize },
    /// Neither a color nor a depth target.
    NoTargets,
    /// A vertex format without engine counterpart, or no vertex attribute.
    VertexLayout,
    /// The layout has no resource signature.
    NoResourceSignatures,
    /// Point rasterization.
    PointPolygonMode,
}

/// What a render pipeline becomes, less its shaders and resource
/// signatures.
pub struct GraphicsPipelinePlan {
    pub name: String,
    pub rtv_formats: Vec<u32>,
    pub blend_targets: Vec<RenderTargetBlendDesc>,
    pub dsv_format: u32,
    pub layout: Vec<LayoutElement>,
    pub rasterizer: RasterizerDesc,
    pub depth_stencil: Option<DepthStencilDesc>,
    pub topology: dil::DiligentPrimitiveTopology,
    pub sample_count: u32,
    pub sample_mask: u32,
}

/// The render target format of a slot: unknown for an unused slot.
pub open spec fn slot_format(t: Option<ColorTargetInput>) -> u32 {
    match t {
        Some(c) => c.format,
        None => FORMAT_UNKNOWN,
    }
}

/// The blend target of a slot: no writes for an unused slot.
pub open spec fn slot_blend(t: Option<ColorTargetInput>) -> RenderTargetBlendDesc {
    match t {
        Some(c) => blend_target_spec(c),
        None => RenderTargetBlendDesc { blend: None, write_mask: dil::COLOR_MASK_NONE },
    }
}

/// Plans the engine pipeline state of a render pipeline: at most eight
/// color slots (unused slots get the unknown format and no writes), at least
/// one color or depth target, a vertex layout, a resource signature and a
/// representable rasterizer state, checked in that order; the low 32 bits of
/// the sample mask.
pub fn plan_graphics_pipeline(
    fragment_targets: Option<&[Option<ColorTargetInput>]>,
    depth_stencil: Option<DepthStencilState>,
    vertex_buffers: &[VertexBufferLayout],
    primitive: PrimitiveState,
    signature_count: usize,
    sample_count: u32,
    sample_mask: u64,
    label: Option<&str>,
) -> (r: Result<GraphicsPipelinePlan, PipelineError>)
    requires
        vertex_buffers@.len() <= u32::MAX,
        match fragment_targets {
            Some(ts) => forall|i: int| 0 <= i < ts@.len() ==> (#[trigger] ts@[i] matches Some(c) ==> c.write_mask <= gpu::COLOR_WRITE_ALL),
            None => true,
        },
    ensures
        ({
            let targets: Seq<Option<ColorTargetInput>> = match fragment_targets { Some(ts) => ts@, None => Seq::empty() };
            let dsv = match depth_stencil { Some(ds) => ds.format, None => FORMAT_UNKNOWN };
            let layout_ok = match all_records(vertex_buffers@.map_values(|b: VertexBufferLayout| buffer_view(b))) {
                Some(recs) => recs.len() > 0,
                None => false,
            };
            if targets.len() > MAX_RENDER_TARGETS {
                r == Err::<GraphicsPipelinePlan, PipelineError>(PipelineError::TooManyTargets { count: targets.len() as usize })
            } else if targets.len() == 0 && dsv == FORMAT_UNKNOWN {
                r == Err::<GraphicsPipelinePlan, PipelineError>(PipelineError::NoTargets)
            } else if !layout_ok {
                r == Err::<GraphicsPipelinePlan, PipelineError>(PipelineError::VertexLayout)
            } else if signature_count == 0 {
                r == Err::<GraphicsPipelinePlan, PipelineError>(PipelineError::NoResourceSignatures)
            } else if rasterizer_spec(primitive, depth_stencil) is None {
                r == Err::<GraphicsPipelinePlan, PipelineError>(PipelineError::PointPolygonMode)
            } else {
                r matches Ok(plan) && {
                    &&& plan.name@ == match label { Some(l) => "bevy_"@ + l@, None => "bevy_render_pipeline"@ }
                    &&& plan.rtv_formats@ == targets.map_values(|t: Option<ColorTargetInput>| slot_format(t))
                    &&& plan.blend_targets@ == targets.map_values(|t: Option<ColorTargetInput>| slot_blend(t))
                    &&& plan.dsv_format == dsv
                    &&& plan.layout@.len() == all_records(vertex_buffers@.map_values(|b: VertexBufferLayout| buffer_view(b))).unwrap().len()
                    &&& forall|i: int| 0 <= i < plan.layout@.len() ==> element_matches(#[trigger] plan.layout@[i],
                            sorted_by_location(all_records(vertex_buffers@.map_values(|b: VertexBufferLayout| buffer_view(b))).unwrap())[i], i)
                    &&& Some(plan.rasterizer) == rasterizer_spec(primitive, depth_stencil)
                    &&& plan.depth_stencil == depth_stencil_spec(depth_stencil)
                    &&& plan.topology == mapping::primitive_topology_spec(primitive.topology)
                    &&& plan.sample_count == sample_count
                    &&& plan.sample_mask == sample_mask as u32
                }
            }
        }),
{
    let empty: Vec<Option<ColorTargetInput>> = Vec::new();
    let targets: &[Option<ColorTargetInput>] = match fragment_targets {
        Some(ts) => ts,
        None => empty.as_slice(),
    };
    if targets.len() > MAX_RENDER_TARGETS {
        return Err(PipelineError::TooManyTargets { count: targets.len() });
    }
    let mut rtv_formats: Vec<u32> = Vec::new();
    let mut blend_targets: Vec<RenderTargetBlendDesc> = Vec::new();
    let mut i: usize = 0;
    while i < targets.len()
        invariant
            i <= targets.len(),
            forall|k: int| 0 <= k < targets@.len() ==> (#[trigger] targets@[k] matches Some(c) ==> c.write_mask <= gpu::COLOR_WRITE_ALL),
            rtv_formats@ == targets@.take(i as int).map_values(|t: Option<ColorTargetInput>| slot_format(t)),
            blend_targets@ == targets@.take(i as int).map_values(|t: Option<ColorTargetInput>| slot_blend(t)),
        decreases targets.len() - i,
    {
        match &targets[i] {
            Some(t) => {
                rtv_formats.push(t.format);
                blend_targets.push(translate_blend_target(t));
            },
            None => {
                rtv_formats.push(FORMAT_UNKNOWN);
                blend_targets.push(no_write_blend_target());
            },
        }
        proof {
            assert(targets@.take(i as int + 1) =~= targets@.take(i as int).push(targets@[i as int]));
            assert(rtv_formats@ =~= targets@.take(i as int + 1).map_values(|t: Option<ColorTargetInput>| slot_format(t)));
            assert(blend_targets@ =~= targets@.take(i as int + 1).map_values(|t: Option<ColorTargetInput>| slot_blend(t)));
        }
        i = i + 1;
    }
    proof {
        assert(targets@.take(targets.len() as int) =~= targets@);
    }
    let dsv_format = match depth_stencil {
        Some(ds) => ds.format,
        None => FORMAT_UNKNOWN,
    };
    if rtv_formats.len() == 0 && dsv_format == FORMAT_UNKNOWN {
        return Err(PipelineError::NoTargets);
    }
    let layout = match build_vertex_layout(vertex_buffers) {
        Some(l) => l,
        None => return Err(PipelineError::VertexLayout),
    };
    if signature_count == 0 {
        return Err(PipelineError::NoResourceSignatures);
    }
    let rasterizer = match translate_rasterizer(&primitive, &depth_stencil) {
        Some(ra) => ra,
        None => return Err(PipelineError::PointPolygonMode),
    };
    let depth_stencil_desc = translate_depth_stencil(depth_stencil);
    let name = pipeline_name(label, "bevy_render_pipeline");
    Ok(GraphicsPipelinePlan {
        name,
        rtv_formats,
        blend_targets,
        dsv_format,
        layout,
        rasterizer,
        depth_stencil: depth_stencil_desc,
        topology: mapping::primitive_topology(primitive.topology),
        sample_count,
        sample_mask: sample_mask as u32,
    })
}

/// Whether a pipeline can be used this frame, from its engine pipeline
/// state's status: `None` when it has no engine state (ready), `Err` when the
/// status cannot be read (ready: the draw finds out). Only a pipeline still
/// compiling is not ready.
pub fn diligent_pso_ready(status: Option<Result<dil::PipelineStateStatus, String>>) -> (r: bool)
    ensures
        r == !(status matches Some(Ok(s)) && s == dil::PipelineStateStatus::Compiling),
{
    match status {
        None => true,
        Some(Ok(s)) => s != dil::PipelineStateStatus::Compiling,
        Some(Err(_)) => true,
    }
}

/// Whether a pipeline's engine pipeline state failed to compile: only a
/// readable `Failed` status is a failure.
pub fn diligent_pso_failed(status: Option<Result<dil::PipelineStateStatus, String>>) -> (r: bool)
    ensures
        r == (status matches Some(Ok(s)) && s == dil::PipelineStateStatus::Failed),
{
    match status {
        Some(Ok(s)) => s == dil::PipelineStateStatus::Failed,
        _ => false,
    }
}

} // verus!
