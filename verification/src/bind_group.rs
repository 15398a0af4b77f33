//! Bind groups: what a layout records of its entries, how each bind group
//! entry resolves to engine objects, and the per-bind-group state (the
//! bindings that failed, the engine variables cached for dynamic offsets).

use crate::binding;
use crate::gpu_types as gpu;
use crate::offsets;
use crate::resources::{BufferId, ResourceRegistry};
use vstd::prelude::*;

verus! {

/// What a bind group layout records of its entries: the buffer binding
/// types by binding, the ascending dynamic-offset bindings and the probe
/// stages of its resource bindings.
pub struct BindGroupLayoutInfo {
    pub id: u32,
    pub buffer_binding_types: Vec<(u32, gpu::BufferBindingType)>,
    pub dynamic_bindings: Vec<u32>,
    pub srb_probe_stages: gpu::ShaderStages,
}

/// The (binding, buffer type) pairs of the buffer entries, in order.
pub open spec fn buffer_types(entries: Seq<gpu::BindGroupLayoutEntry>) -> Seq<(u32, gpu::BufferBindingType)>
    decreases entries.len(),
{
    if entries.len() == 0 {
        Seq::empty()
    } else {
        let rest = buffer_types(entries.drop_last());
        match entries.last().ty {
            gpu::BindingType::Buffer { ty, .. } => rest.push((entries.last().binding, ty)),
            _ => rest,
        }
    }
}

/// The buffer type recorded for a binding: the last one declared, as in a
/// map built from the list.
pub open spec fn lookup_type(types: Seq<(u32, gpu::BufferBindingType)>, binding: u32) -> Option<gpu::BufferBindingType>
    decreases types.len(),
{
    if types.len() == 0 {
        None
    } else if types.last().0 == binding {
        Some(types.last().1)
    } else {
        lookup_type(types.drop_last(), binding)
    }
}

impl BindGroupLayoutInfo {
    /// Records a layout's entries.
    pub fn from_entries(id: u32, entries: &[gpu::BindGroupLayoutEntry]) -> (info: BindGroupLayoutInfo)
        ensures
            info.id == id,
            info.buffer_binding_types@ == buffer_types(entries@),
            binding::ascending(info.dynamic_bindings@),
            info.dynamic_bindings@.to_multiset() == binding::declared_dynamic_bindings(entries@).to_multiset(),
            info.srb_probe_stages == binding::probe_stages_spec(binding::visibility_union(entries@)),
    {
        let mut types: Vec<(u32, gpu::BufferBindingType)> = Vec::new();
        let mut i: usize = 0;
        while i < entries.len()
            invariant
                i <= entries.len(),
                types@ == buffer_types(entries@.take(i as int)),
            decreases entries.len() - i,
        {
            proof {
                assert(entries@.take(i as int + 1).drop_last() =~= entries@.take(i as int));
            }
            match entries[i].ty {
                gpu::BindingType::Buffer { ty, .. } => {
                    types.push((entries[i].binding, ty));
                },
                _ => {},
            }
            i = i + 1;
        }
        proof {
            assert(entries@.take(entries.len() as int) =~= entries@);
        }
        BindGroupLayoutInfo {
            id,
            buffer_binding_types: types,
            dynamic_bindings: binding::dynamic_buffer_bindings(entries),
            srb_probe_stages: binding::srb_variable_probe_stages(entries),
        }
    }

    /// The buffer binding type recorded for `binding`.
    pub fn buffer_binding_type(&self, binding: u32) -> (r: Option<gpu::BufferBindingType>)
        ensures
            r == lookup_type(self.buffer_binding_types@, binding),
    {
        let types = &self.buffer_binding_types;
        let mut i: usize = types.len();
        proof {
            assert(types@.take(i as int) =~= types@);
        }
        while i > 0
            invariant
                i <= types@.len(),
                types == &self.buffer_binding_types,
                lookup_type(types@, binding) == lookup_type(types@.take(i as int), binding),
            decreases i,
        {
            proof {
                assert(types@.take(i as int).drop_last() =~= types@.take(i as int - 1));
            }
            if types[i - 1].0 == binding {
                return Some(types[i - 1].1);
            }
            i = i - 1;
        }
        None
    }

    /// Whether `binding` is a dynamic-offset binding of the layout.
    pub fn is_dynamic(&self, binding: u32) -> (r: bool)
        ensures
            r == self.dynamic_bindings@.contains(binding),
    {
        let mut i: usize = 0;
        while i < self.dynamic_bindings.len()
            invariant
                i <= self.dynamic_bindings@.len(),
                forall|k: int| 0 <= k < i ==> self.dynamic_bindings@[k] != binding,
            decreases self.dynamic_bindings.len() - i,
        {
            if self.dynamic_bindings[i] == binding {
                proof {
                    assert(self.dynamic_bindings@[i as int] == binding);
                }
                return true;
            }
            i = i + 1;
        }
        false
    }
}

/// How a buffer is bound: as a constant buffer or through its read-only
/// or read-write default view.
#[derive(Clone, Copy, Debug, PartialEq, Eq, Structural)]
pub enum BufferBindKind {
    Uniform,
    StorageReadOnly,
    StorageReadWrite,
}

/// The bind kind of a buffer binding type.
pub open spec fn bind_kind_spec(ty: gpu::BufferBindingType) -> BufferBindKind {
    match ty {
        gpu::BufferBindingType::Uniform => BufferBindKind::Uniform,
        gpu::BufferBindingType::Storage { read_only: true } => BufferBindKind::StorageReadOnly,
        gpu::BufferBindingType::Storage { read_only: false } => BufferBindKind::StorageReadWrite,
    }
}

/// What a shader may do with a buffer bound with a binding type: whether it
/// reads it as storage (not as constants) and whether it may write it.
pub open spec fn binding_access(ty: gpu::BufferBindingType) -> (bool, bool) {
    match ty {
        gpu::BufferBindingType::Uniform => (false, false),
        gpu::BufferBindingType::Storage { read_only } => (true, !read_only),
    }
}

/// The same two traits of a bind kind: storage view or constant buffer,
/// and whether the view lets the shader write.
pub open spec fn kind_access(kind: BufferBindKind) -> (bool, bool) {
    match kind {
        BufferBindKind::Uniform => (false, false),
        BufferBindKind::StorageReadOnly => (true, false),
        BufferBindKind::StorageReadWrite => (true, true),
    }
}

/// A buffer is bound through the view its layout asks for: a constant
/// buffer for a uniform binding, a storage view for a storage binding,
/// writable exactly when the binding is not read-only. The three binding
/// types therefore give three distinct kinds.
pub proof fn lemma_bind_kind_keeps_access(a: gpu::BufferBindingType, b: gpu::BufferBindingType)
    ensures
        kind_access(bind_kind_spec(a)) == binding_access(a),
        bind_kind_spec(a) == bind_kind_spec(b) ==> a == b,
{
}

/// The resource of a bind group entry, by resource ids.
#[derive(Clone, Debug)]
pub enum BindingResourceInput {
    Buffer { buffer: BufferId, offset: u64, size: Option<u64> },
    BufferArray(Vec<BufferId>),
    TextureView(u32),
    TextureViewArray(Vec<u32>),
    Sampler(u32),
    SamplerArray(Vec<u32>),
    AccelerationStructure,
}

/// The engine objects an entry binds.
#[derive(Clone, Debug)]
pub enum ResolvedBinding {
    Buffer { buffer: u64, offset: u64, size: Option<u64>, kind: BufferBindKind },
    BufferArray(Vec<u64>, BufferBindKind),
    TextureView(u64),
    TextureViewArray(Vec<u64>),
    Sampler(u64),
    SamplerArray(Vec<u64>),
}

/// The handles `m` registers for `ids`, or `None` when one is missing.
pub open spec fn resolve_all(m: Map<u32, u64>, ids: Seq<u32>) -> Option<Seq<u64>>
    decreases ids.len(),
{
    if ids.len() == 0 {
        Some(Seq::empty())
    } else {
        match resolve_all(m, ids.drop_last()) {
            None => None,
            Some(hs) => if m.contains_key(ids.last()) { Some(hs.push(m[ids.last()])) } else { None },
        }
    }
}

/// A missing handle fails the whole list.
proof fn lemma_resolve_all_none(m: Map<u32, u64>, ids: Seq<u32>, i: int)
    requires
        0 <= i < ids.len(),
        resolve_all(m, ids.take(i + 1)) is None,
    ensures
        resolve_all(m, ids) is None,
    decreases ids.len() - i,
{
    if i + 1 < ids.len() {
        assert(ids.drop_last().take(i + 1) =~= ids.take(i + 1));
        lemma_resolve_all_none(m, ids.drop_last(), i);
    } else {
        assert(ids.take(i + 1) =~= ids);
    }
}

/// Resolves a list of ids through one handle map of the registry; `None`
/// when one is unregistered.
fn resolve_ids(map: &crate::resources::HandleMap, ids: &[u32]) -> (r: Option<Vec<u64>>)
    requires
        map.wf(),
    ensures
        match resolve_all(map.view(), ids@) {
            Some(hs) => r matches Some(v) && v@ == hs,
            None => r is None,
        },
{
    let mut out: Vec<u64> = Vec::new();
    let mut i: usize = 0;
    proof {
        assert(ids@.take(0) =~= Seq::<u32>::empty());
    }
    while i < ids.len()
        invariant
            i <= ids.len(),
            map.wf(),
            resolve_all(map.view(), ids@.take(i as int)) == Some(out@),
        decreases ids.len() - i,
    {
        proof {
            assert(ids@.take(i as int + 1).drop_last() =~= ids@.take(i as int));
            assert(ids@.take(i as int + 1).last() == ids@[i as int]);
        }
        match map.resolve(ids[i]) {
            Some(h) => out.push(h),
            None => {
                proof {
                    lemma_resolve_all_none(map.view(), ids@, i as int);
                }
                return None;
            },
        }
        i = i + 1;
    }
    proof {
        assert(ids@.take(ids.len() as int) =~= ids@);
    }
    Some(out)
}

/// The ids of buffer ids.
pub open spec fn buffer_ids(ids: Seq<BufferId>) -> Seq<u32> {
    ids.map_values(|b: BufferId| b.0)
}

/// What an entry resolves to through the registry, given the buffer type
/// its layout records for it: a buffer (array) needs a recorded type and
/// every buffer registered; views and samplers need to be registered; an
/// array must not be empty; acceleration structures are not bound.
pub open spec fn resolve_spec(registry: ResourceRegistry, ty: Option<gpu::BufferBindingType>, resource: BindingResourceInput) -> Option<ResolvedBinding> {
    match resource {
        BindingResourceInput::Buffer { buffer, offset, size } => {
            if registry.buffers.view().contains_key(buffer.0) && ty is Some {
                Some(ResolvedBinding::Buffer { buffer: registry.buffers.view()[buffer.0], offset, size, kind: bind_kind_spec(ty.unwrap()) })
            } else {
                None
            }
        },
        BindingResourceInput::TextureView(v) => if registry.texture_views.view().contains_key(v) {
            Some(ResolvedBinding::TextureView(registry.texture_views.view()[v]))
        } else {
            None
        },
        BindingResourceInput::Sampler(s) => if registry.samplers.view().contains_key(s) {
            Some(ResolvedBinding::Sampler(registry.samplers.view()[s]))
        } else {
            None
        },
        _ => None,
    }
}

/// Whether `r` is what an array entry resolves to.
pub open spec fn resolves_array(registry: ResourceRegistry, ty: Option<gpu::BufferBindingType>, resource: BindingResourceInput, r: Option<ResolvedBinding>) -> bool {
    match resource {
        BindingResourceInput::BufferArray(ids) => match (ty, resolve_all(registry.buffers.view(), buffer_ids(ids@))) {
            (Some(t), Some(hs)) if hs.len() > 0 => r matches Some(ResolvedBinding::BufferArray(v, k)) && v@ == hs && k == bind_kind_spec(t),
            _ => r is None,
        },
        BindingResourceInput::TextureViewArray(ids) => match resolve_all(registry.texture_views.view(), ids@) {
            Some(hs) if hs.len() > 0 => r matches Some(ResolvedBinding::TextureViewArray(v)) && v@ == hs,
            _ => r is None,
        },
        BindingResourceInput::SamplerArray(ids) => match resolve_all(registry.samplers.view(), ids@) {
            Some(hs) if hs.len() > 0 => r matches Some(ResolvedBinding::SamplerArray(v)) && v@ == hs,
            _ => r is None,
        },
        _ => false,
    }
}

/// Resolves the resource of a bind group entry to engine objects; `None`
/// when it cannot be bound (the binding then counts as failed).
pub fn resolve_binding(registry: &ResourceRegistry, layout: &BindGroupLayoutInfo, binding: u32, resource: &BindingResourceInput) -> (r: Option<ResolvedBinding>)
    requires
        registry.wf(),
    ensures
        match resource {
            BindingResourceInput::BufferArray(_) | BindingResourceInput::TextureViewArray(_) | BindingResourceInput::SamplerArray(_) =>
                resolves_array(*registry, lookup_type(layout.buffer_binding_types@, binding), *resource, r),
            _ => match (r, resolve_spec(*registry, lookup_type(layout.buffer_binding_types@, binding), *resource)) {
                (None, None) => true,
                (Some(ResolvedBinding::Buffer { buffer: b1, offset: o1, size: s1, kind: k1 }), Some(ResolvedBinding::Buffer { buffer: b2, offset: o2, size: s2, kind: k2 })) =>
                    b1 == b2 && o1 == o2 && s1 == s2 && k1 == k2,
                (Some(ResolvedBinding::TextureView(a)), Some(ResolvedBinding::TextureView(b))) => a == b,
                (Some(ResolvedBinding::Sampler(a)), Some(ResolvedBinding::Sampler(b))) => a == b,
                _ => false,
            },
        },
        r matches Some(ResolvedBinding::Buffer { kind, .. }) ==> ({
            let t = lookup_type(layout.buffer_binding_types@, binding);
            &&& t is Some
            &&& kind_access(kind) == binding_access(t.unwrap())
            &&& (t == Some(gpu::BufferBindingType::Uniform) <==> kind == BufferBindKind::Uniform)
            &&& (t == Some(gpu::BufferBindingType::Storage { read_only: true }) <==> kind == BufferBindKind::StorageReadOnly)
            &&& (t == Some(gpu::BufferBindingType::Storage { read_only: false }) <==> kind == BufferBindKind::StorageReadWrite)
        }),
        r matches Some(ResolvedBinding::BufferArray(_, kind)) ==> ({
            let t = lookup_type(layout.buffer_binding_types@, binding);
            &&& t is Some
            &&& kind_access(kind) == binding_access(t.unwrap())
            &&& (t == Some(gpu::BufferBindingType::Uniform) <==> kind == BufferBindKind::Uniform)
            &&& (t == Some(gpu::BufferBindingType::Storage { read_only: true }) <==> kind == BufferBindKind::StorageReadOnly)
            &&& (t == Some(gpu::BufferBindingType::Storage { read_only: false }) <==> kind == BufferBindKind::StorageReadWrite)
        }),
{
    match resource {
        BindingResourceInput::Buffer { buffer, offset, size } => {
            let h = match registry.resolve_buffer(*buffer) {
                Some(h) => h,
                None => return None,
            };
            let kind = match layout.buffer_binding_type(binding) {
                Some(gpu::BufferBindingType::Uniform) => BufferBindKind::Uniform,
                Some(gpu::BufferBindingType::Storage { read_only: true }) => BufferBindKind::StorageReadOnly,
                Some(gpu::BufferBindingType::Storage { read_only: false }) => BufferBindKind::StorageReadWrite,
                None => return None,
            };
            Some(ResolvedBinding::Buffer { buffer: h, offset: *offset, size: *size, kind })
        },
        BindingResourceInput::BufferArray(ids) => {
            let kind = match layout.buffer_binding_type(binding) {
                Some(gpu::BufferBindingType::Uniform) => BufferBindKind::Uniform,
                Some(gpu::BufferBindingType::Storage { read_only: true }) => BufferBindKind::StorageReadOnly,
                Some(gpu::BufferBindingType::Storage { read_only: false }) => BufferBindKind::StorageReadWrite,
                None => return None,
            };
            let mut raw: Vec<u32> = Vec::new();
            let mut i: usize = 0;
            while i < ids.len()
                invariant
                    i <= ids@.len(),
                    raw@ == buffer_ids(ids@.take(i as int)),
                decreases ids.len() - i,
            {
                raw.push(ids[i].0);
                proof {
                    assert(buffer_ids(ids@.take(i as int + 1)) =~= buffer_ids(ids@.take(i as int)).push(ids@[i as int].0));
                }
                i = i + 1;
            }
            proof {
                assert(ids@.take(ids@.len() as int) =~= ids@);
            }
            match resolve_ids(&registry.buffers, raw.as_slice()) {
                Some(v) => if v.len() == 0 { None } else { Some(ResolvedBinding::BufferArray(v, kind)) },
                None => None,
            }
        },
        BindingResourceInput::TextureView(v) => match registry.resolve_texture_view(*v) {
            Some(h) => Some(ResolvedBinding::TextureView(h)),
            None => None,
        },
        BindingResourceInput::TextureViewArray(ids) => match resolve_ids(&registry.texture_views, ids.as_slice()) {
            Some(v) => if v.len() == 0 { None } else { Some(ResolvedBinding::TextureViewArray(v)) },
            None => None,
        },
        BindingResourceInput::Sampler(s) => match registry.resolve_sampler(*s) {
            Some(h) => Some(ResolvedBinding::Sampler(h)),
            None => None,
        },
        BindingResourceInput::SamplerArray(ids) => match resolve_ids(&registry.samplers, ids.as_slice()) {
            Some(v) => if v.len() == 0 { None } else { Some(ResolvedBinding::SamplerArray(v)) },
            None => None,
        },
        BindingResourceInput::AccelerationStructure => None,
    }
}

/// The engine state of a bind group: the bindings that could not be bound
/// (in order) and the variables cached for its dynamic-offset bindings.
pub struct BindGroupState {
    pub failed: Vec<u32>,
    pub cached: Vec<(u32, u64)>,
}

impl BindGroupState {
    /// Nothing failed, nothing cached.
    pub fn new() -> (s: BindGroupState)
        ensures
            s.failed@.len() == 0,
            s.cached@.len() == 0,
    {
        BindGroupState { failed: Vec::new(), cached: Vec::new() }
    }

    /// Records a binding that could not be bound.
    pub fn record_failed_binding(&mut self, binding: u32)
        ensures
            final(self).failed@ == old(self).failed@.push(binding),
            final(self).cached@ == old(self).cached@,
    {
        self.failed.push(binding);
    }

    /// The first binding that could not be bound.
    pub fn first_failed_binding(&self) -> (r: Option<u32>)
        ensures
            self.failed@.len() == 0 ==> r is None,
            self.failed@.len() > 0 ==> r == Some(self.failed@[0]),
    {
        if self.failed.len() == 0 {
            None
        } else {
            Some(self.failed[0])
        }
    }

    /// Caches the engine variable of a dynamic-offset binding.
    pub fn cache_dynamic_variable(&mut self, binding: u32, variable: u64)
        ensures
            final(self).cached@ == old(self).cached@.push((binding, variable)),
            final(self).failed@ == old(self).failed@,
    {
        self.cached.push((binding, variable));
    }

    /// The engine variable cached for a dynamic-offset binding.
    pub fn dynamic_variable(&self, binding: u32) -> (r: Option<u64>)
        ensures
            r == offsets::cached_variable(self.cached@, binding),
    {
        offsets::dynamic_variable(self.cached.as_slice(), binding)
    }

    /// Records the outcome of binding an entry: a failure is recorded; the
    /// variable of a dynamic-offset binding is cached.
    pub fn record_bind_outcome(&mut self, layout: &BindGroupLayoutInfo, binding: u32, outcome: Option<u64>)
        ensures
            outcome is None ==> final(self).failed@ == old(self).failed@.push(binding) && final(self).cached@ == old(self).cached@,
            outcome matches Some(v) ==> final(self).failed@ == old(self).failed@ && final(self).cached@ == if layout.dynamic_bindings@.contains(binding) {
                old(self).cached@.push((binding, v))
            } else {
                old(self).cached@
            },
    {
        match outcome {
            None => self.record_failed_binding(binding),
            Some(v) => {
                if layout.is_dynamic(binding) {
                    self.cache_dynamic_variable(binding, v);
                }
            },
        }
    }
}

} // verus!
