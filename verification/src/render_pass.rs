//! Render pass planning: attachment operations and states, the render pass
//! and framebuffer cache, and the attachment layout a render pass
//! descriptor becomes.

use crate::diligent_types as dil;
use crate::gpu_types as gpu;
use crate::text;
use vstd::prelude::*;

verus! {

/// The present sync interval of a presentation mode: 1 for the vsync
/// modes, 0 for the others.
pub fn present_mode_to_sync_interval(mode: gpu::PresentMode) -> (interval: u32)
    ensures
        interval == match mode {
            gpu::PresentMode::Fifo | gpu::PresentMode::FifoRelaxed | gpu::PresentMode::AutoVsync => 1u32,
            gpu::PresentMode::Immediate | gpu::PresentMode::Mailbox | gpu::PresentMode::AutoNoVsync => 0u32,
        },
{
    match mode {
        gpu::PresentMode::Fifo | gpu::PresentMode::FifoRelaxed | gpu::PresentMode::AutoVsync => 1,
        gpu::PresentMode::Immediate | gpu::PresentMode::Mailbox | gpu::PresentMode::AutoNoVsync => 0,
    }
}

/// The engine load operation of a load operation: "don't care" discards.
pub open spec fn load_op_spec(load: gpu::LoadOp) -> dil::AttachmentLoadOp {
    match load {
        gpu::LoadOp::Load => dil::AttachmentLoadOp::Load,
        gpu::LoadOp::Clear => dil::AttachmentLoadOp::Clear,
        gpu::LoadOp::DontCare => dil::AttachmentLoadOp::Discard,
    }
}

/// The engine store operation of a store operation.
pub open spec fn store_op_spec(store: gpu::StoreOp) -> dil::AttachmentStoreOp {
    match store {
        gpu::StoreOp::Store => dil::AttachmentStoreOp::Store,
        gpu::StoreOp::Discard => dil::AttachmentStoreOp::Discard,
    }
}

/// Color attachment operations -> engine load and store operations.
pub fn color_ops(ops: gpu::Operations) -> (r: Result<(dil::AttachmentLoadOp, dil::AttachmentStoreOp), String>)
    ensures
        r matches Ok(p) && p == (load_op_spec(ops.load), store_op_spec(ops.store)),
        r matches Ok(p) && ({
            &&& (p.0 == dil::AttachmentLoadOp::Load <==> ops.load == gpu::LoadOp::Load)
            &&& (p.0 == dil::AttachmentLoadOp::Clear <==> ops.load == gpu::LoadOp::Clear)
            &&& (p.0 == dil::AttachmentLoadOp::Discard <==> ops.load == gpu::LoadOp::DontCare)
            &&& (p.1 == dil::AttachmentStoreOp::Store <==> ops.store == gpu::StoreOp::Store)
            &&& (p.1 == dil::AttachmentStoreOp::Discard <==> ops.store == gpu::StoreOp::Discard)
        }),
{
    let load = match ops.load {
        gpu::LoadOp::Load => dil::AttachmentLoadOp::Load,
        gpu::LoadOp::Clear => dil::AttachmentLoadOp::Clear,
        gpu::LoadOp::DontCare => dil::AttachmentLoadOp::Discard,
    };
    let store = match ops.store {
        gpu::StoreOp::Store => dil::AttachmentStoreOp::Store,
        gpu::StoreOp::Discard => dil::AttachmentStoreOp::Discard,
    };
    Ok((load, store))
}

/// The engine operations of a depth or stencil aspect: an aspect with no
/// operations is bound but untouched, and both operations discard.
pub open spec fn depth_ops_spec(ops: Option<gpu::Operations>) -> (dil::AttachmentLoadOp, dil::AttachmentStoreOp) {
    match ops {
        Some(o) => (load_op_spec(o.load), store_op_spec(o.store)),
        None => (dil::AttachmentLoadOp::Discard, dil::AttachmentStoreOp::Discard),
    }
}

/// Depth or stencil aspect operations -> engine load and store operations.
pub fn depth_ops(ops: Option<gpu::Operations>) -> (r: Result<(dil::AttachmentLoadOp, dil::AttachmentStoreOp), String>)
    ensures
        r matches Ok(p) && p == depth_ops_spec(ops),
{
    match ops {
        Some(o) => color_ops(o),
        None => Ok((dil::AttachmentLoadOp::Discard, dil::AttachmentStoreOp::Discard)),
    }
}

/// The state of a depth-stencil attachment: read-only only when both
/// aspects are read-only.
pub fn depth_stencil_attachment_state(depth_read_only: bool, stencil_read_only: bool) -> (s: dil::ResourceState)
    ensures
        s == if depth_read_only && stencil_read_only {
            dil::ResourceState::DepthRead
        } else {
            dil::ResourceState::DepthWrite
        },
{
    if depth_read_only && stencil_read_only {
        dil::ResourceState::DepthRead
    } else {
        dil::ResourceState::DepthWrite
    }
}

/// The most render pass and framebuffer pairs the cache holds.
pub const MAX_CACHED_RENDER_PASSES: usize = 128;

/// Whether a cache of `entries_len` entries must be cleared before an
/// insertion.
pub fn should_evict(entries_len: usize) -> (r: bool)
    ensures
        r == (entries_len >= MAX_CACHED_RENDER_PASSES),
{
    entries_len >= MAX_CACHED_RENDER_PASSES
}

/// One attachment as the render pass object sees it. `read_only` marks
/// the depth-stencil attachment of a fully read-only depth pass; it is part
/// of the key, as the attachment states are baked into the object.
#[derive(Clone, Copy, Debug, PartialEq, Eq, Structural)]
pub struct PassAttachmentKey {
    pub format: u32,
    pub sample_count: u8,
    pub load_op: dil::AttachmentLoadOp,
    pub store_op: dil::AttachmentStoreOp,
    pub read_only: bool,
}

/// The cache key of a render pass and framebuffer pair: the attachments and
/// the identities of the resolved engine attachment views.
#[derive(Clone, Debug)]
pub struct PassCacheKey {
    pub attachments: Vec<PassAttachmentKey>,
    pub views: Vec<u64>,
}

impl PassCacheKey {
    /// Whether two keys name the same pass.
    pub open spec fn same(self, other: PassCacheKey) -> bool {
        self.attachments@ == other.attachments@ && self.views@ == other.views@
    }

    /// Compares two keys.
    pub fn equals(&self, other: &PassCacheKey) -> (r: bool)
        ensures
            r == self.same(*other),
    {
        if self.attachments.len() != other.attachments.len() || self.views.len() != other.views.len() {
            return false;
        }
        let mut i: usize = 0;
        while i < self.attachments.len()
            invariant
                i <= self.attachments.len(),
                self.attachments.len() == other.attachments.len(),
                forall|k: int| 0 <= k < i ==> self.attachments@[k] == other.attachments@[k],
            decreases self.attachments.len() - i,
        {
            if self.attachments[i] != other.attachments[i] {
                return false;
            }
            i = i + 1;
        }
        let mut j: usize = 0;
        while j < self.views.len()
            invariant
                j <= self.views.len(),
                self.views.len() == other.views.len(),
                forall|k: int| 0 <= k < j ==> self.views@[k] == other.views@[k],
            decreases self.views.len() - j,
        {
            if self.views[j] != other.views[j] {
                return false;
            }
            j = j + 1;
        }
        proof {
            assert(self.attachments@ =~= other.attachments@);
            assert(self.views@ =~= other.views@);
        }
        true
    }
}

/// The view identities a cache key holds: the resolved engine views
/// themselves, in attachment order.
pub fn resolved_view_keys(views: &[u64]) -> (keys: Vec<u64>)
    ensures
        keys@ == views@,
{
    let mut keys: Vec<u64> = Vec::new();
    let mut i: usize = 0;
    while i < views.len()
        invariant
            i <= views.len(),
            keys@ == views@.take(i as int),
        decreases views.len() - i,
    {
        keys.push(views[i]);
        proof {
            assert(views@.take(i as int + 1) =~= views@.take(i as int).push(views@[i as int]));
        }
        i = i + 1;
    }
    proof {
        assert(views@.take(views.len() as int) =~= views@);
    }
    keys
}

/// A bounded cache of render pass and framebuffer objects (`E`) by key,
/// plus the attachment views derived for them (`D`), released together.
pub struct RenderPassCache<E, D> {
    pub entries: Vec<(PassCacheKey, E)>,
    pub derived_views: Vec<D>,
}

impl<E, D> RenderPassCache<E, D> {
    /// The keys of the cached entries, in insertion order.
    pub open spec fn keys(self) -> Seq<PassCacheKey> {
        self.entries@.map_values(|e: (PassCacheKey, E)| e.0)
    }

    /// An empty cache.
    pub fn new() -> (c: Self)
        ensures
            c.entries@.len() == 0,
            c.derived_views@.len() == 0,
    {
        RenderPassCache { entries: Vec::new(), derived_views: Vec::new() }
    }

    /// Releases every cached object and derived view.
    pub fn clear(&mut self)
        ensures
            final(self).entries@.len() == 0,
            final(self).derived_views@.len() == 0,
    {
        self.entries.clear();
        self.derived_views.clear();
    }

    /// The insertion gate: clears the whole cache when it holds the most
    /// entries it may.
    pub fn prepare_insert(&mut self)
        ensures
            should_evict_spec(old(self).entries@.len()) ==> final(self).entries@.len() == 0 && final(self).derived_views@.len() == 0,
            !should_evict_spec(old(self).entries@.len()) ==> final(self).entries@ == old(self).entries@ && final(self).derived_views@ == old(self).derived_views@,
            final(self).entries@.len() < MAX_CACHED_RENDER_PASSES,
    {
        if should_evict(self.entries.len()) {
            self.clear();
        }
    }

    /// The index of the entry cached under `key`, the first if several.
    pub fn find(&self, key: &PassCacheKey) -> (r: Option<usize>)
        ensures
            match r {
                Some(i) => i < self.entries@.len() && self.entries@[i as int].0.same(*key)
                    && forall|k: int| 0 <= k < i ==> !(#[trigger] self.entries@[k]).0.same(*key),
                None => forall|k: int| 0 <= k < self.entries@.len() ==> !(#[trigger] self.entries@[k]).0.same(*key),
            },
    {
        let mut i: usize = 0;
        while i < self.entries.len()
            invariant
                i <= self.entries.len(),
                forall|k: int| 0 <= k < i ==> !(#[trigger] self.entries@[k]).0.same(*key),
            decreases self.entries.len() - i,
        {
            if self.entries[i].0.equals(key) {
                return Some(i);
            }
            i = i + 1;
        }
        None
    }

    /// Caches an entry under `key`.
    pub fn push_entry(&mut self, key: PassCacheKey, entry: E)
        ensures
            final(self).entries@ == old(self).entries@.push((key, entry)),
            final(self).derived_views@ == old(self).derived_views@,
    {
        self.entries.push((key, entry));
    }

    /// Caches the objects created for a pass that missed the cache: the
    /// cache is cleared first when it holds the most entries it may, then
    /// exactly one entry is appended under `key`. (A pass that hits the
    /// cache, see `find`, creates nothing and leaves the cache as it is.)
    pub fn insert(&mut self, key: PassCacheKey, entry: E)
        ensures
            !should_evict_spec(old(self).entries@.len()) ==> final(self).entries@ == old(self).entries@.push((key, entry))
                && final(self).derived_views@ == old(self).derived_views@,
            should_evict_spec(old(self).entries@.len()) ==> final(self).entries@ == seq![(key, entry)]
                && final(self).derived_views@.len() == 0,
            final(self).entries@.len() <= MAX_CACHED_RENDER_PASSES,
    {
        self.prepare_insert();
        self.push_entry(key, entry);
        proof {
            if should_evict_spec(old(self).entries@.len()) {
                assert(self.entries@ =~= seq![(key, entry)]);
            }
        }
    }

    /// Keeps a derived attachment view alive with the cache.
    pub fn push_derived_view(&mut self, view: D)
        ensures
            final(self).derived_views@ == old(self).derived_views@.push(view),
            final(self).entries@ == old(self).entries@,
    {
        self.derived_views.push(view);
    }

    /// The number of cached entries.
    pub fn len(&self) -> (n: usize)
        ensures
            n == self.entries@.len(),
    {
        self.entries.len()
    }
}

/// `should_evict` as a spec.
pub open spec fn should_evict_spec(entries_len: nat) -> bool {
    entries_len >= MAX_CACHED_RENDER_PASSES
}

/// The resolve target of a color attachment: its engine view and format.
#[derive(Clone, Copy, Debug, PartialEq, Eq, Structural)]
pub struct ResolveTargetInput {
    pub view: u64,
    pub format: u32,
}

/// A color attachment with its engine view, format and the sample count
/// of its texture resolved.
#[derive(Clone, Copy, Debug, PartialEq, Eq, Structural)]
pub struct ColorAttachmentInput {
    pub view: u64,
    pub format: u32,
    pub sample_count: u8,
    pub ops: gpu::Operations,
    pub resolve_target: Option<ResolveTargetInput>,
}

/// A depth-stencil attachment with its engine view, format and sample
/// count resolved. An aspect without operations is read-only.
#[derive(Clone, Copy, Debug, PartialEq, Eq, Structural)]
pub struct DepthStencilInput {
    pub view: u64,
    pub format: u32,
    pub sample_count: u8,
    pub depth_ops: Option<gpu::Operations>,
    pub stencil_ops: Option<gpu::Operations>,
}

/// One attachment of a render pass object.
#[derive(Clone, Copy, Debug, PartialEq, Eq, Structural)]
pub struct AttachmentDesc {
    pub format: u32,
    pub sample_count: u8,
    pub load_op: dil::AttachmentLoadOp,
    pub store_op: dil::AttachmentStoreOp,
    pub stencil_load_op: dil::AttachmentLoadOp,
    pub stencil_store_op: dil::AttachmentStoreOp,
    pub initial_state: dil::ResourceState,
    pub final_state: dil::ResourceState,
}

/// A subpass reference to an attachment; `index: None` marks an unused
/// slot.
#[derive(Clone, Copy, Debug, PartialEq, Eq, Structural)]
pub struct AttachmentRef {
    pub index: Option<u32>,
    pub state: dil::ResourceState,
}

/// Why a render pass cannot run on the engine path.
#[derive(Clone, Copy, Debug, PartialEq, Eq, Structural)]
pub enum PassError {
    Multiview,
    OcclusionQuery,
    TimestampWrites,
    ResolveFormatMismatch { resolve_format: u32, format: u32 },
    NoAttachments,
}

impl PassError {
    /// The error message.
    pub open spec fn message_spec(self) -> Seq<char> {
        match self {
            PassError::Multiview => "multiview render passes are not supported on the diligent path"@,
            PassError::OcclusionQuery => "occlusion queries are not supported on the diligent path"@,
            PassError::TimestampWrites => "timestamp writes are not supported on the diligent path"@,
            PassError::ResolveFormatMismatch { resolve_format, format } =>
                "resolve attachment format "@ + text::decimal(resolve_format as nat)
                    + " does not match the color attachment format "@ + text::decimal(format as nat),
            PassError::NoAttachments => "render pass has no attachments (the engine cannot derive a framebuffer size)"@,
        }
    }

    /// The error message.
    pub fn message(&self) -> (s: String)
        ensures
            s@ == self.message_spec(),
    {
        let mut s = String::new();
        match self {
            PassError::Multiview => s.append("multiview render passes are not supported on the diligent path"),
            PassError::OcclusionQuery => s.append("occlusion queries are not supported on the diligent path"),
            PassError::TimestampWrites => s.append("timestamp writes are not supported on the diligent path"),
            PassError::ResolveFormatMismatch { resolve_format, format } => {
                s.append("resolve attachment format ");
                text::append_decimal(&mut s, *resolve_format as u64);
                s.append(" does not match the color attachment format ");
                text::append_decimal(&mut s, *format as u64);
            },
            PassError::NoAttachments => s.append("render pass has no attachments (the engine cannot derive a framebuffer size)"),
        }
        s
    }
}

/// Refuses the pass features the engine path does not carry: multiview,
/// occlusion queries and timestamp writes, checked in that order.
pub fn check_pass_features(multiview: bool, occlusion_query: bool, timestamp_writes: bool) -> (r: Result<(), PassError>)
    ensures
        r == if multiview {
            Err(PassError::Multiview)
        } else if occlusion_query {
            Err(PassError::OcclusionQuery)
        } else if timestamp_writes {
            Err(PassError::TimestampWrites)
        } else {
            Ok::<(), PassError>(())
        },
{
    if multiview {
        return Err(PassError::Multiview);
    }
    if occlusion_query {
        return Err(PassError::OcclusionQuery);
    }
    if timestamp_writes {
        return Err(PassError::TimestampWrites);
    }
    Ok(())
}

/// What a render pass descriptor becomes: the attachments in index order,
/// the framebuffer views (one per attachment), the subpass color and resolve
/// references (one per color slot), the depth-stencil reference and the
/// cache key.
pub struct RenderPassPlan {
    pub attachments: Vec<AttachmentDesc>,
    pub framebuffer_views: Vec<u64>,
    pub color_refs: Vec<AttachmentRef>,
    pub resolve_refs: Vec<AttachmentRef>,
    pub depth_ref: Option<AttachmentRef>,
    pub key: PassCacheKey,
}

/// The model of a plan under construction.
pub struct PlanModel {
    pub attachments: Seq<AttachmentDesc>,
    pub views: Seq<u64>,
    pub color_refs: Seq<AttachmentRef>,
    pub resolve_refs: Seq<AttachmentRef>,
    pub keys: Seq<PassAttachmentKey>,
}

/// The unused reference.
pub open spec fn unused_ref() -> AttachmentRef {
    AttachmentRef { index: None, state: dil::ResourceState::Unknown }
}

/// Appends an attachment, its view and its key.
pub open spec fn add_attachment(p: PlanModel, a: AttachmentDesc, view: u64, key: PassAttachmentKey) -> PlanModel {
    PlanModel {
        attachments: p.attachments.push(a),
        views: p.views.push(view),
        keys: p.keys.push(key),
        ..p
    }
}

/// The resolve attachment a resolve target becomes.
pub open spec fn resolve_attachment(format: u32) -> AttachmentDesc {
    AttachmentDesc {
        format,
        sample_count: 1,
        load_op: dil::AttachmentLoadOp::Discard,
        store_op: dil::AttachmentStoreOp::Store,
        stencil_load_op: dil::AttachmentLoadOp::Load,
        stencil_store_op: dil::AttachmentStoreOp::Store,
        initial_state: dil::ResourceState::ResolveDest,
        final_state: dil::ResourceState::ResolveDest,
    }
}

/// The color attachment a color slot becomes.
pub open spec fn color_attachment(c: ColorAttachmentInput) -> AttachmentDesc {
    AttachmentDesc {
        format: c.format,
        sample_count: c.sample_count,
        load_op: load_op_spec(c.ops.load),
        store_op: store_op_spec(c.ops.store),
        stencil_load_op: dil::AttachmentLoadOp::Load,
        stencil_store_op: dil::AttachmentStoreOp::Store,
        initial_state: dil::ResourceState::RenderTarget,
        final_state: dil::ResourceState::RenderTarget,
    }
}

/// The key of a non-depth attachment.
pub open spec fn attachment_key(a: AttachmentDesc) -> PassAttachmentKey {
    PassAttachmentKey { format: a.format, sample_count: a.sample_count, load_op: a.load_op, store_op: a.store_op, read_only: false }
}

/// One color slot added to a plan: an empty slot gets unused references; a
/// resolve target (unless resolves are disabled) must match the color
/// format and comes first, then the color attachment.
pub open spec fn color_step(p: PlanModel, slot: Option<ColorAttachmentInput>, resolve_disabled: bool) -> Result<PlanModel, PassError> {
    match slot {
        None => Ok(PlanModel { color_refs: p.color_refs.push(unused_ref()), resolve_refs: p.resolve_refs.push(unused_ref()), ..p }),
        Some(c) => {
            let with_resolve: Result<(PlanModel, AttachmentRef), PassError> = match c.resolve_target {
                Some(t) if !resolve_disabled => {
                    if t.format != c.format {
                        Err(PassError::ResolveFormatMismatch { resolve_format: t.format, format: c.format })
                    } else {
                        let r = resolve_attachment(t.format);
                        Ok((add_attachment(p, r, t.view, attachment_key(r)),
                            AttachmentRef { index: Some(p.attachments.len() as u32), state: dil::ResourceState::ResolveDest }))
                    }
                },
                _ => Ok((p, unused_ref())),
            };
            match with_resolve {
                Err(e) => Err(e),
                Ok((q, resolve_ref)) => {
                    let a = color_attachment(c);
                    let q2 = add_attachment(q, a, c.view, attachment_key(a));
                    Ok(PlanModel {
                        color_refs: q2.color_refs.push(AttachmentRef { index: Some(q.attachments.len() as u32), state: dil::ResourceState::RenderTarget }),
                        resolve_refs: q2.resolve_refs.push(resolve_ref),
                        ..q2
                    })
                },
            }
        },
    }
}

/// The plan of the color slots, slot by slot; the first failing slot's
/// error.
pub open spec fn color_plan(slots: Seq<Option<ColorAttachmentInput>>, resolve_disabled: bool) -> Result<PlanModel, PassError>
    decreases slots.len(),
{
    if slots.len() == 0 {
        Ok(PlanModel { attachments: Seq::empty(), views: Seq::empty(), color_refs: Seq::empty(), resolve_refs: Seq::empty(), keys: Seq::empty() })
    } else {
        match color_plan(slots.drop_last(), resolve_disabled) {
            Err(e) => Err(e),
            Ok(p) => color_step(p, slots.last(), resolve_disabled),
        }
    }
}

/// The depth-stencil attachment: fully read-only (both aspects without
/// operations) keeps its contents (load, store) in the read state;
/// otherwise it is writable with the aspects' own operations.
pub open spec fn depth_attachment(d: DepthStencilInput) -> AttachmentDesc {
    let fully_read_only = d.depth_ops is None && d.stencil_ops is None;
    let state = if fully_read_only { dil::ResourceState::DepthRead } else { dil::ResourceState::DepthWrite };
    let (dl, ds) = if fully_read_only {
        (dil::AttachmentLoadOp::Load, dil::AttachmentStoreOp::Store)
    } else {
        depth_ops_spec(d.depth_ops)
    };
    AttachmentDesc {
        format: d.format,
        sample_count: d.sample_count,
        load_op: dl,
        store_op: ds,
        stencil_load_op: depth_ops_spec(d.stencil_ops).0,
        stencil_store_op: depth_ops_spec(d.stencil_ops).1,
        initial_state: state,
        final_state: state,
    }
}

/// The key of the depth-stencil attachment.
pub open spec fn depth_key(d: DepthStencilInput) -> PassAttachmentKey {
    let a = depth_attachment(d);
    PassAttachmentKey {
        format: a.format,
        sample_count: a.sample_count,
        load_op: a.load_op,
        store_op: a.store_op,
        read_only: d.depth_ops is None && d.stencil_ops is None,
    }
}

/// Whether `plan` is the plan of the color slots and depth-stencil
/// attachment.
pub open spec fn plan_matches(plan: RenderPassPlan, slots: Seq<Option<ColorAttachmentInput>>, depth: Option<DepthStencilInput>, resolve_disabled: bool) -> bool {
    match color_plan(slots, resolve_disabled) {
        Err(_) => false,
        Ok(p) => {
            let full = match depth {
                Some(d) => add_attachment(p, depth_attachment(d), d.view, depth_key(d)),
                None => p,
            };
            &&& plan.attachments@ == full.attachments
            &&& plan.framebuffer_views@ == full.views
            &&& plan.color_refs@ == full.color_refs
            &&& plan.resolve_refs@ == full.resolve_refs
            &&& plan.depth_ref == match depth {
                Some(d) => Some(AttachmentRef { index: Some(p.attachments.len() as u32), state: depth_attachment(d).initial_state }),
                None => None,
            }
            &&& plan.key.attachments@ == full.keys
            &&& plan.key.views@ == full.views
        },
    }
}

/// The number of attachments the color slots contribute at most.
proof fn lemma_color_plan_len(slots: Seq<Option<ColorAttachmentInput>>, resolve_disabled: bool)
    ensures
        color_plan(slots, resolve_disabled) matches Ok(p) ==> {
            &&& p.attachments.len() <= 2 * slots.len()
            &&& p.views.len() == p.attachments.len()
            &&& p.keys.len() == p.attachments.len()
            &&& p.color_refs.len() == slots.len()
            &&& p.resolve_refs.len() == slots.len()
        },
    decreases slots.len(),
{
    if slots.len() > 0 {
        lemma_color_plan_len(slots.drop_last(), resolve_disabled);
    }
}

/// Whether every color slot with a resolve target (resolves enabled) has a
/// resolve reference, in the resolve-destination state, to an attachment
/// of the target's format that is single-sample, discards what it held,
/// keeps the resolved image at the end of the pass (store) and stays in
/// the resolve-destination state; with the target's view as its
/// framebuffer view, and a cache key that says the same.
pub open spec fn resolves_kept(
    slots: Seq<Option<ColorAttachmentInput>>,
    resolve_disabled: bool,
    attachments: Seq<AttachmentDesc>,
    views: Seq<u64>,
    keys: Seq<PassAttachmentKey>,
    resolve_refs: Seq<AttachmentRef>,
) -> bool {
    forall|i: int|
        0 <= i < slots.len() && !resolve_disabled && (#[trigger] slots[i]) is Some && slots[i].unwrap().resolve_target is Some ==> {
            let t = slots[i].unwrap().resolve_target.unwrap();
            &&& i < resolve_refs.len()
            &&& resolve_refs[i].index is Some
            &&& resolve_refs[i].state == dil::ResourceState::ResolveDest
            &&& {
                let k = resolve_refs[i].index.unwrap() as int;
                &&& 0 <= k < attachments.len()
                &&& k < views.len() && k < keys.len()
                &&& attachments[k].format == t.format
                &&& attachments[k].sample_count == 1
                &&& attachments[k].load_op == dil::AttachmentLoadOp::Discard
                &&& attachments[k].store_op == dil::AttachmentStoreOp::Store
                &&& attachments[k].initial_state == dil::ResourceState::ResolveDest
                &&& attachments[k].final_state == dil::ResourceState::ResolveDest
                &&& views[k] == t.view
                &&& keys[k].sample_count == 1
                &&& keys[k].load_op == dil::AttachmentLoadOp::Discard
                &&& keys[k].store_op == dil::AttachmentStoreOp::Store
            }
        }
}

/// A planned pass keeps every resolved image: each color slot with a
/// resolve target (resolves enabled) resolves into a single-sample
/// attachment that discards its old contents and stores the result.
pub proof fn lemma_color_plan_keeps_resolves(slots: Seq<Option<ColorAttachmentInput>>, resolve_disabled: bool)
    requires
        slots.len() <= 0x7fff_ffff,
    ensures
        color_plan(slots, resolve_disabled) matches Ok(p)
            ==> resolves_kept(slots, resolve_disabled, p.attachments, p.views, p.keys, p.resolve_refs),
    decreases slots.len(),
{
    if slots.len() > 0 {
        let prev = slots.drop_last();
        lemma_color_plan_keeps_resolves(prev, resolve_disabled);
        lemma_color_plan_len(prev, resolve_disabled);
        lemma_color_plan_len(slots, resolve_disabled);
        if let Ok(p) = color_plan(slots, resolve_disabled) {
            let q = color_plan(prev, resolve_disabled)->Ok_0;
            let n = slots.len() - 1;
            assert forall|i: int|
                0 <= i < slots.len() && !resolve_disabled && (#[trigger] slots[i]) is Some && slots[i].unwrap().resolve_target is Some implies {
                    let t = slots[i].unwrap().resolve_target.unwrap();
                    &&& i < p.resolve_refs.len()
                    &&& p.resolve_refs[i].index is Some
                    &&& p.resolve_refs[i].state == dil::ResourceState::ResolveDest
                    &&& {
                        let k = p.resolve_refs[i].index.unwrap() as int;
                        &&& 0 <= k < p.attachments.len()
                        &&& k < p.views.len() && k < p.keys.len()
                        &&& p.attachments[k].format == t.format
                        &&& p.attachments[k].sample_count == 1
                        &&& p.attachments[k].load_op == dil::AttachmentLoadOp::Discard
                        &&& p.attachments[k].store_op == dil::AttachmentStoreOp::Store
                        &&& p.attachments[k].initial_state == dil::ResourceState::ResolveDest
                        &&& p.attachments[k].final_state == dil::ResourceState::ResolveDest
                        &&& p.views[k] == t.view
                        &&& p.keys[k].sample_count == 1
                        &&& p.keys[k].load_op == dil::AttachmentLoadOp::Discard
                        &&& p.keys[k].store_op == dil::AttachmentStoreOp::Store
                    }
                } by {
                if i < n {
                    assert(prev[i] == slots[i]);
                    let k = q.resolve_refs[i].index.unwrap() as int;
                    assert(p.resolve_refs[i] == q.resolve_refs[i]);
                    assert(p.attachments[k] == q.attachments[k]);
                    assert(p.views[k] == q.views[k]);
                    assert(p.keys[k] == q.keys[k]);
                } else {
                    let c = slots[i].unwrap();
                    let t = c.resolve_target.unwrap();
                    let k = q.attachments.len() as int;
                    assert(q.attachments.len() <= 2 * prev.len());
                    assert(p.resolve_refs[i].index == Some(q.attachments.len() as u32));
                    assert(p.attachments[k] == resolve_attachment(t.format));
                    assert(p.views[k] == t.view);
                    assert(p.keys[k] == attachment_key(resolve_attachment(t.format)));
                }
            }
        }
    }
}

/// Appending the depth-stencil attachment keeps the resolve attachments.
pub proof fn lemma_plan_keeps_resolves(plan: RenderPassPlan, slots: Seq<Option<ColorAttachmentInput>>, depth: Option<DepthStencilInput>, resolve_disabled: bool)
    requires
        slots.len() <= 0x7fff_ffff,
        plan_matches(plan, slots, depth, resolve_disabled),
    ensures
        resolves_kept(slots, resolve_disabled, plan.attachments@, plan.framebuffer_views@, plan.key.attachments@, plan.resolve_refs@),
{
    lemma_color_plan_keeps_resolves(slots, resolve_disabled);
    lemma_color_plan_len(slots, resolve_disabled);
    let p = color_plan(slots, resolve_disabled)->Ok_0;
    assert forall|k: int| 0 <= k < p.attachments.len() implies plan.attachments@[k] == p.attachments[k]
        && plan.framebuffer_views@[k] == p.views[k] && plan.key.attachments@[k] == p.keys[k] by {}
}

/// Lays out the attachments of a render pass: for each color slot in order
/// its resolve attachment (when it has a resolve target and resolves are not
/// disabled) then its color attachment, then the depth-stencil attachment;
/// with the subpass references and the cache key. Fails on the first
/// resolve target whose format differs from its color attachment's, and when
/// the pass has no attachment at all. The engine numbers attachments with
/// 32-bit indices: every index of the up to two attachments per color slot
/// and the depth-stencil one must fit.
pub fn plan_render_pass(color_attachments: &[Option<ColorAttachmentInput>], depth_stencil: Option<DepthStencilInput>, resolve_disabled: bool) -> (r: Result<RenderPassPlan, PassError>)
    requires
        color_attachments@.len() <= 0x7fff_ffff,
    ensures
        match color_plan(color_attachments@, resolve_disabled) {
            Err(e) => r == Err::<RenderPassPlan, PassError>(e),
            Ok(p) => if p.attachments.len() == 0 && depth_stencil is None {
                r matches Err(e) && e == PassError::NoAttachments
            } else {
                r matches Ok(plan) && plan_matches(plan, color_attachments@, depth_stencil, resolve_disabled)
            },
        },
        r matches Ok(plan) ==> resolves_kept(color_attachments@, resolve_disabled, plan.attachments@, plan.framebuffer_views@,
            plan.key.attachments@, plan.resolve_refs@),
{
    let mut attachments: Vec<AttachmentDesc> = Vec::new();
    let mut views: Vec<u64> = Vec::new();
    let mut color_refs: Vec<AttachmentRef> = Vec::new();
    let mut resolve_refs: Vec<AttachmentRef> = Vec::new();
    let mut keys: Vec<PassAttachmentKey> = Vec::new();
    let unused = AttachmentRef { index: None, state: dil::ResourceState::Unknown };
    let mut i: usize = 0;
    proof {
        assert(color_attachments@.take(0) =~= Seq::<Option<ColorAttachmentInput>>::empty());
    }
    while i < color_attachments.len()
        invariant
            i <= color_attachments.len(),
            color_attachments@.len() <= 0x7fff_ffff,
            unused == unused_ref(),
            color_plan(color_attachments@.take(i as int), resolve_disabled) matches Ok(p) && {
                &&& attachments@ == p.attachments
                &&& views@ == p.views
                &&& color_refs@ == p.color_refs
                &&& resolve_refs@ == p.resolve_refs
                &&& keys@ == p.keys
            },
        decreases color_attachments.len() - i,
    {
        proof {
            assert(color_attachments@.take(i as int + 1).drop_last() =~= color_attachments@.take(i as int));
            assert(color_attachments@.take(i as int + 1).last() == color_attachments@[i as int]);
            lemma_color_plan_len(color_attachments@.take(i as int), resolve_disabled);
        }
        match color_attachments[i] {
            None => {
                color_refs.push(unused);
                resolve_refs.push(unused);
            },
            Some(c) => {
                let resolve_ref = match c.resolve_target {
                    Some(t) if !resolve_disabled => {
                        if t.format != c.format {
                            proof {
                                lemma_color_plan_prefix_error(color_attachments@, i as int, resolve_disabled);
                            }
                            return Err(PassError::ResolveFormatMismatch { resolve_format: t.format, format: c.format });
                        }
                        let index = attachments.len() as u32;
                        let a = AttachmentDesc {
                            format: t.format,
                            sample_count: 1,
                            load_op: dil::AttachmentLoadOp::Discard,
                            store_op: dil::AttachmentStoreOp::Store,
                            stencil_load_op: dil::AttachmentLoadOp::Load,
                            stencil_store_op: dil::AttachmentStoreOp::Store,
                            initial_state: dil::ResourceState::ResolveDest,
                            final_state: dil::ResourceState::ResolveDest,
                        };
                        attachments.push(a);
                        views.push(t.view);
                        keys.push(PassAttachmentKey { format: a.format, sample_count: 1, load_op: a.load_op, store_op: a.store_op, read_only: false });
                        AttachmentRef { index: Some(index), state: dil::ResourceState::ResolveDest }
                    },
                    _ => unused,
                };
                let (load_op, store_op) = match color_ops(c.ops) {
                    Ok(p) => p,
                    Err(_) => (dil::AttachmentLoadOp::Load, dil::AttachmentStoreOp::Store),
                };
                let index = attachments.len() as u32;
                let a = AttachmentDesc {
                    format: c.format,
                    sample_count: c.sample_count,
                    load_op,
                    store_op,
                    stencil_load_op: dil::AttachmentLoadOp::Load,
                    stencil_store_op: dil::AttachmentStoreOp::Store,
                    initial_state: dil::ResourceState::RenderTarget,
                    final_state: dil::ResourceState::RenderTarget,
                };
                attachments.push(a);
                views.push(c.view);
                keys.push(PassAttachmentKey { format: a.format, sample_count: a.sample_count, load_op, store_op, read_only: false });
                color_refs.push(AttachmentRef { index: Some(index), state: dil::ResourceState::RenderTarget });
                resolve_refs.push(resolve_ref);
            },
        }
        i = i + 1;
    }
    proof {
        assert(color_attachments@.take(color_attachments.len() as int) =~= color_attachments@);
        lemma_color_plan_len(color_attachments@, resolve_disabled);
    }
    let mut depth_ref: Option<AttachmentRef> = None;
    match depth_stencil {
        Some(d) => {
            let fully_read_only = d.depth_ops.is_none() && d.stencil_ops.is_none();
            let state = depth_stencil_attachment_state(d.depth_ops.is_none(), d.stencil_ops.is_none());
            let (dl, ds) = match depth_ops(d.depth_ops) {
                Ok(p) => p,
                Err(_) => (dil::AttachmentLoadOp::Discard, dil::AttachmentStoreOp::Discard),
            };
            let (sl, ss) = match depth_ops(d.stencil_ops) {
                Ok(p) => p,
                Err(_) => (dil::AttachmentLoadOp::Discard, dil::AttachmentStoreOp::Discard),
            };
            let (dl, ds) = if fully_read_only {
                (dil::AttachmentLoadOp::Load, dil::AttachmentStoreOp::Store)
            } else {
                (dl, ds)
            };
            let index = attachments.len() as u32;
            attachments.push(AttachmentDesc {
                format: d.format,
                sample_count: d.sample_count,
                load_op: dl,
                store_op: ds,
                stencil_load_op: sl,
                stencil_store_op: ss,
                initial_state: state,
                final_state: state,
            });
            keys.push(PassAttachmentKey { format: d.format, sample_count: d.sample_count, load_op: dl, store_op: ds, read_only: fully_read_only });
            views.push(d.view);
            depth_ref = Some(AttachmentRef { index: Some(index), state });
        },
        None => {},
    }
    if attachments.len() == 0 {
        return Err(PassError::NoAttachments);
    }
    let key_views = resolved_view_keys(views.as_slice());
    let plan = RenderPassPlan {
        attachments,
        framebuffer_views: views,
        color_refs,
        resolve_refs,
        depth_ref,
        key: PassCacheKey { attachments: keys, views: key_views },
    };
    proof {
        if plan_matches(plan, color_attachments@, depth_stencil, resolve_disabled) {
            lemma_plan_keeps_resolves(plan, color_attachments@, depth_stencil, resolve_disabled);
        }
    }
    Ok(plan)
}

/// A failing slot fails the whole plan with its error.
proof fn lemma_color_plan_prefix_error(slots: Seq<Option<ColorAttachmentInput>>, i: int, resolve_disabled: bool)
    requires
        0 <= i < slots.len(),
        color_plan(slots.take(i + 1), resolve_disabled) is Err,
    ensures
        color_plan(slots, resolve_disabled) == color_plan(slots.take(i + 1), resolve_disabled),
    decreases slots.len() - i,
{
    if i + 1 < slots.len() {
        assert(slots.drop_last().take(i + 1) =~= slots.take(i + 1));
        lemma_color_plan_prefix_error(slots.drop_last(), i, resolve_disabled);
    } else {
        assert(slots.take(i + 1) =~= slots);
    }
}

} // verus!
