//! Resource handles: ids, the id -> engine object registry, host-side
//! buffers with their mapped bytes, and the handle types of the graphics
//! API surface that carry no engine state.

use crate::text;
use std::collections::HashMap;
use vstd::prelude::*;

verus! {

/// Hands out resource ids: nonzero, each one larger than the one before.
pub struct IdAllocator {
    pub next: u32,
}

impl IdAllocator {
    /// The allocator's invariant: the next id is nonzero.
    pub open spec fn wf(self) -> bool {
        self.next >= 1
    }

    /// A fresh allocator; its first id is 1.
    pub fn new() -> (a: IdAllocator)
        ensures
            a.wf(),
            a.next == 1,
    {
        IdAllocator { next: 1 }
    }

    /// The next id. Ids are never reused: running out of ids is a
    /// precondition violation.
    pub fn allocate(&mut self) -> (id: u32)
        requires
            old(self).wf(),
            old(self).next < u32::MAX,
        ensures
            final(self).wf(),
            id == old(self).next,
            final(self).next == old(self).next + 1,
            id != 0,
    {
        let id = self.next;
        self.next = self.next + 1;
        id
    }
}

/// Two ids allocated one after the other differ, and the later one is
/// larger.
pub proof fn lemma_ids_distinct(first: u32, a1: IdAllocator, second: u32, a2: IdAllocator)
    requires
        a1.wf(),
        first < a1.next,
        a1.next <= a2.next,
        second == a2.next,
    ensures
        first != second,
        first < second,
{
}

/// The id of a buffer.
#[derive(Clone, Copy, Debug, PartialEq, Eq, Hash, Structural)]
pub struct BufferId(pub u32);

/// The id of a pipeline layout.
#[derive(Clone, Copy, Debug, PartialEq, Eq, Hash, Structural)]
pub struct PipelineLayoutId(pub u32);

/// The id of a shader module.
#[derive(Clone, Copy, Debug, PartialEq, Eq, Hash, Structural)]
pub struct ShaderModuleId(pub u32);

/// A pipeline layout handle: the layout record lives in the pipeline cache,
/// registered under this handle's id.
#[derive(Clone, Copy, Debug, PartialEq, Eq, Structural)]
pub struct PipelineLayout {
    pub id: PipelineLayoutId,
}

impl PipelineLayout {
    /// The id of the layout.
    pub fn id(&self) -> (id: PipelineLayoutId)
        ensures
            id == self.id,
    {
        self.id
    }

    /// The registry key of the layout: its id as an integer.
    pub fn registry_key(&self) -> (k: u32)
        ensures
            k == self.id.0,
    {
        self.id.0
    }
}

/// A shader module handle; its compiled module is kept beside it.
#[derive(Clone, Copy, Debug, PartialEq, Eq, Structural)]
pub struct ShaderModule {
    pub id: ShaderModuleId,
}

impl ShaderModule {
    /// The id of the module.
    pub fn id(&self) -> (id: ShaderModuleId)
        ensures
            id == self.id,
    {
        self.id
    }

    /// The registry key of the module: its id as an integer.
    pub fn registry_key(&self) -> (k: u32)
        ensures
            k == self.id.0,
    {
        self.id.0
    }
}

/// Resource id -> engine object handle. A null handle (0) is never
/// registered; registering an id again replaces its handle.
pub struct HandleMap {
    map: HashMap<u32, u64>,
}

impl HandleMap {
    /// The registered handles.
    pub closed spec fn view(&self) -> Map<u32, u64> {
        self.map@
    }

    /// No registered handle is null.
    pub closed spec fn wf(&self) -> bool {
        forall|k: u32| #[trigger] self.map@.contains_key(k) ==> self.map@[k] != 0
    }

    /// An empty map.
    pub fn new() -> (m: HandleMap)
        ensures
            m.wf(),
            m.view() == Map::<u32, u64>::empty(),
    {
        HandleMap { map: HashMap::new() }
    }

    /// Registers `handle` under `id`; a null handle is ignored.
    pub fn register(&mut self, id: u32, handle: u64)
        requires
            old(self).wf(),
        ensures
            final(self).wf(),
            handle != 0 ==> final(self).view() == old(self).view().insert(id, handle),
            handle == 0 ==> final(self).view() == old(self).view(),
    {
        broadcast use vstd::std_specs::hash::group_hash_axioms;
        if handle != 0 {
            self.map.insert(id, handle);
        }
    }

    /// The handle registered under `id`.
    pub fn resolve(&self, id: u32) -> (r: Option<u64>)
        requires
            self.wf(),
        ensures
            r == if self.view().contains_key(id) { Some(self.view()[id]) } else { None::<u64> },
            r matches Some(h) ==> h != 0,
    {
        broadcast use vstd::std_specs::hash::group_hash_axioms;
        match self.map.get(&id) {
            Some(h) => Some(*h),
            None => None,
        }
    }
}

/// Registering a non-null handle and resolving the same id gives the
/// handle back; other ids resolve as before.
pub proof fn lemma_register_then_resolve(before: Map<u32, u64>, id: u32, handle: u64, other: u32)
    requires
        handle != 0,
        other != id,
    ensures
        before.insert(id, handle).contains_key(id),
        before.insert(id, handle)[id] == handle,
        before.insert(id, handle).contains_key(other) == before.contains_key(other),
        before.contains_key(other) ==> before.insert(id, handle)[other] == before[other],
{
}

/// The id -> engine object registry of buffers, textures, texture views
/// and samplers.
pub struct ResourceRegistry {
    pub buffers: HandleMap,
    pub textures: HandleMap,
    pub texture_views: HandleMap,
    pub samplers: HandleMap,
}

impl ResourceRegistry {
    /// The registry's invariant.
    pub open spec fn wf(&self) -> bool {
        self.buffers.wf() && self.textures.wf() && self.texture_views.wf() && self.samplers.wf()
    }

    /// An empty registry.
    pub fn new() -> (r: ResourceRegistry)
        ensures
            r.wf(),
            r.buffers.view() == Map::<u32, u64>::empty(),
            r.textures.view() == Map::<u32, u64>::empty(),
            r.texture_views.view() == Map::<u32, u64>::empty(),
            r.samplers.view() == Map::<u32, u64>::empty(),
    {
        ResourceRegistry { buffers: HandleMap::new(), textures: HandleMap::new(), texture_views: HandleMap::new(), samplers: HandleMap::new() }
    }

    /// Registers a buffer's engine object under the buffer's id.
    pub fn register_buffer(&mut self, id: BufferId, buffer: u64)
        requires
            old(self).wf(),
        ensures
            final(self).wf(),
            buffer != 0 ==> final(self).buffers.view() == old(self).buffers.view().insert(id.0, buffer),
            buffer == 0 ==> final(self).buffers.view() == old(self).buffers.view(),
            final(self).textures.view() == old(self).textures.view(),
            final(self).texture_views.view() == old(self).texture_views.view(),
            final(self).samplers.view() == old(self).samplers.view(),
    {
        self.buffers.register(id.0, buffer);
    }

    /// The engine buffer registered under a buffer id.
    pub fn resolve_buffer(&self, id: BufferId) -> (r: Option<u64>)
        requires
            self.wf(),
        ensures
            r == if self.buffers.view().contains_key(id.0) { Some(self.buffers.view()[id.0]) } else { None::<u64> },
    {
        self.buffers.resolve(id.0)
    }

    /// Registers a texture's engine object under the texture's id.
    pub fn register_texture(&mut self, id: u32, texture: u64)
        requires
            old(self).wf(),
        ensures
            final(self).wf(),
            texture != 0 ==> final(self).textures.view() == old(self).textures.view().insert(id, texture),
            texture == 0 ==> final(self).textures.view() == old(self).textures.view(),
            final(self).buffers.view() == old(self).buffers.view(),
            final(self).texture_views.view() == old(self).texture_views.view(),
            final(self).samplers.view() == old(self).samplers.view(),
    {
        self.textures.register(id, texture);
    }

    /// The engine texture registered under a texture id.
    pub fn resolve_texture(&self, id: u32) -> (r: Option<u64>)
        requires
            self.wf(),
        ensures
            r == if self.textures.view().contains_key(id) { Some(self.textures.view()[id]) } else { None::<u64> },
    {
        self.textures.resolve(id)
    }

    /// Registers a texture view's engine object under the view's id.
    pub fn register_texture_view(&mut self, id: u32, view: u64)
        requires
            old(self).wf(),
        ensures
            final(self).wf(),
            view != 0 ==> final(self).texture_views.view() == old(self).texture_views.view().insert(id, view),
            view == 0 ==> final(self).texture_views.view() == old(self).texture_views.view(),
            final(self).buffers.view() == old(self).buffers.view(),
            final(self).textures.view() == old(self).textures.view(),
            final(self).samplers.view() == old(self).samplers.view(),
    {
        self.texture_views.register(id, view);
    }

    /// The engine view registered under a texture view id.
    pub fn resolve_texture_view(&self, id: u32) -> (r: Option<u64>)
        requires
            self.wf(),
        ensures
            r == if self.texture_views.view().contains_key(id) { Some(self.texture_views.view()[id]) } else { None::<u64> },
    {
        self.texture_views.resolve(id)
    }

    /// Registers a sampler's engine object under the sampler's id.
    pub fn register_sampler(&mut self, id: u32, sampler: u64)
        requires
            old(self).wf(),
        ensures
            final(self).wf(),
            sampler != 0 ==> final(self).samplers.view() == old(self).samplers.view().insert(id, sampler),
            sampler == 0 ==> final(self).samplers.view() == old(self).samplers.view(),
            final(self).buffers.view() == old(self).buffers.view(),
            final(self).textures.view() == old(self).textures.view(),
            final(self).texture_views.view() == old(self).texture_views.view(),
    {
        self.samplers.register(id, sampler);
    }

    /// The engine sampler registered under a sampler id.
    pub fn resolve_sampler(&self, id: u32) -> (r: Option<u64>)
        requires
            self.wf(),
        ensures
            r == if self.samplers.view().contains_key(id) { Some(self.samplers.view()[id]) } else { None::<u64> },
    {
        self.samplers.resolve(id)
    }
}

/// Where a buffer slice starts or ends.
#[derive(Clone, Copy, Debug, PartialEq, Eq, Structural)]
pub enum SliceBound {
    Included(u64),
    Excluded(u64),
    Unbounded,
}

/// The first byte of a slice.
pub open spec fn slice_start(start: SliceBound) -> int {
    match start {
        SliceBound::Included(b) => b as int,
        SliceBound::Excluded(b) => b + 1,
        SliceBound::Unbounded => 0,
    }
}

/// The end (exclusive) of a slice of a buffer of `size` bytes.
pub open spec fn slice_end(end: SliceBound, size: u64) -> int {
    match end {
        SliceBound::Included(b) => b + 1,
        SliceBound::Excluded(b) => b as int,
        SliceBound::Unbounded => size as int,
    }
}

/// A buffer as the host sees it: its id, size and usages, and the bytes of
/// its last mapping until it is unmapped.
pub struct Buffer {
    pub id: BufferId,
    pub size: u64,
    pub usage: u32,
    pub mapped: Option<Vec<u8>>,
}

/// A non-empty range of a buffer.
pub struct BufferSlice<'a> {
    pub buffer: &'a Buffer,
    pub offset: u64,
    pub size: u64,
}

/// The binding of a buffer range; `size: None` is to the end.
#[derive(Clone, Copy, Debug, PartialEq, Eq, Structural)]
pub struct BufferBinding {
    pub buffer: BufferId,
    pub offset: u64,
    pub size: Option<u64>,
}

/// Mapped bytes of a buffer, read-only.
#[derive(Debug)]
pub struct BufferView {
    data: Vec<u8>,
}

impl BufferView {
    /// The bytes.
    pub closed spec fn bytes(&self) -> Seq<u8> {
        self.data@
    }

    /// The bytes.
    pub fn as_bytes(&self) -> (b: &[u8])
        ensures
            b@ == self.bytes(),
    {
        self.data.as_slice()
    }

    /// The number of bytes.
    pub fn len(&self) -> (n: usize)
        ensures
            n == self.bytes().len(),
    {
        self.data.len()
    }
}

impl Buffer {
    /// A buffer that has not been mapped.
    pub fn new(id: BufferId, size: u64, usage: u32) -> (b: Buffer)
        ensures
            b.id == id,
            b.size == size,
            b.usage == usage,
            b.mapped is None,
    {
        Buffer { id, size, usage, mapped: None }
    }

    /// The id of the buffer.
    pub fn id(&self) -> (id: BufferId)
        ensures
            id == self.id,
    {
        self.id
    }

    /// The size of the buffer in bytes.
    pub fn size(&self) -> (s: u64)
        ensures
            s == self.size,
    {
        self.size
    }

    /// The usages the buffer was created with.
    pub fn usage(&self) -> (u: u32)
        ensures
            u == self.usage,
    {
        self.usage
    }

    /// The range `start..end` of the buffer, in bytes. The range must be
    /// non-empty and inside the buffer.
    pub fn slice(&self, start: SliceBound, end: SliceBound) -> (s: BufferSlice)
        requires
            0 <= slice_start(start) < slice_end(end, self.size) <= self.size,
        ensures
            s.buffer == self,
            s.offset == slice_start(start),
            s.size == slice_end(end, self.size) - slice_start(start),
    {
        let first: u64 = match start {
            SliceBound::Included(b) => b,
            SliceBound::Excluded(b) => b + 1,
            SliceBound::Unbounded => 0,
        };
        let last: u64 = match end {
            SliceBound::Included(b) => b + 1,
            SliceBound::Excluded(b) => b,
            SliceBound::Unbounded => self.size,
        };
        BufferSlice { buffer: self, offset: first, size: last - first }
    }

    /// The binding of the whole buffer.
    pub fn as_entire_buffer_binding(&self) -> (b: BufferBinding)
        ensures
            b == (BufferBinding { buffer: self.id, offset: 0, size: None }),
    {
        BufferBinding { buffer: self.id, offset: 0, size: None }
    }

    /// Keeps the bytes of a mapping.
    pub fn store_mapped(&mut self, data: Vec<u8>)
        ensures
            final(self).mapped == Some(data),
            final(self).id == old(self).id,
            final(self).size == old(self).size,
            final(self).usage == old(self).usage,
    {
        self.mapped = Some(data);
    }

    /// Unmaps the buffer: its mapped bytes are discarded.
    pub fn unmap(&mut self)
        ensures
            final(self).mapped is None,
            final(self).id == old(self).id,
            final(self).size == old(self).size,
            final(self).usage == old(self).usage,
    {
        self.mapped = None;
    }

    /// Finishes a blocking map: the engine's mapped bytes (`None` when the
    /// buffer could not be mapped) become the buffer's mapped range.
    pub fn complete_map(&mut self, mapped: Option<Vec<u8>>) -> (r: Result<(), BufferAsyncError>)
        ensures
            final(self).id == old(self).id,
            final(self).size == old(self).size,
            final(self).usage == old(self).usage,
            match mapped {
                None => r is Err && final(self).mapped == old(self).mapped,
                Some(data) => r is Ok && final(self).mapped == Some(data),
            },
    {
        match mapped {
            None => Err(BufferAsyncError),
            Some(data) => {
                self.store_mapped(data);
                Ok(())
            },
        }
    }

    /// Finishes a map scheduled on an encoder: the first `size` bytes of
    /// the engine's mapped bytes (`None` when the buffer could not be
    /// mapped) become the buffer's mapped range. A mapping is at least as
    /// large as the buffer.
    pub fn complete_pending_map(&mut self, mapped: Option<Vec<u8>>) -> (r: Result<(), BufferAsyncError>)
        requires
            mapped matches Some(data) ==> old(self).size <= data@.len(),
        ensures
            final(self).id == old(self).id,
            final(self).size == old(self).size,
            final(self).usage == old(self).usage,
            match mapped {
                None => r is Err && final(self).mapped == old(self).mapped,
                Some(data) => r is Ok && (final(self).mapped matches Some(m) && m@ == data@.subrange(0, old(self).size as int)),
            },
    {
        match mapped {
            None => Err(BufferAsyncError),
            Some(data) => {
                let len = data.len();
                assert(self.size <= len);
                let n = self.size as usize;
                let mut prefix: Vec<u8> = Vec::new();
                let mut i: usize = 0;
                while i < n
                    invariant
                        n == self.size,
                        n <= data@.len(),
                        i <= n,
                        prefix@ == data@.subrange(0, i as int),
                    decreases n - i,
                {
                    prefix.push(data[i]);
                    proof {
                        assert(data@.subrange(0, i as int + 1) =~= data@.subrange(0, i as int).push(data@[i as int]));
                    }
                    i = i + 1;
                }
                self.store_mapped(prefix);
                Ok(())
            },
        }
    }

    /// The mapped bytes of the whole buffer. The buffer must be mapped,
    /// non-empty and its mapping as large as the buffer.
    pub fn get_mapped_range(&self) -> (v: BufferView)
        requires
            0 < self.size,
            self.mapped matches Some(m) && self.size <= m@.len(),
        ensures
            v.bytes() == self.mapped.unwrap()@.subrange(0, self.size as int),
    {
        self.slice(SliceBound::Unbounded, SliceBound::Unbounded).get_mapped_range()
    }
}

impl<'a> BufferSlice<'a> {
    /// The id of the buffer this is a slice of.
    pub fn id(&self) -> (id: BufferId)
        ensures
            id == self.buffer.id,
    {
        self.buffer.id
    }

    /// The buffer this is a slice of.
    pub fn buffer(&self) -> (b: &'a Buffer)
        ensures
            b == self.buffer,
    {
        self.buffer
    }

    /// The offset of the slice in the buffer.
    pub fn offset(&self) -> (o: u64)
        ensures
            o == self.offset,
    {
        self.offset
    }

    /// The size of the slice.
    pub fn size(&self) -> (s: u64)
        ensures
            s == self.size,
    {
        self.size
    }

    /// The binding of this range.
    pub fn binding(&self) -> (b: BufferBinding)
        ensures
            b == (BufferBinding { buffer: self.buffer.id, offset: self.offset, size: Some(self.size) }),
    {
        BufferBinding { buffer: self.buffer.id, offset: self.offset, size: Some(self.size) }
    }

    /// The mapped bytes of this range. The buffer must be mapped, and the
    /// mapping must cover the range.
    pub fn get_mapped_range(&self) -> (v: BufferView)
        requires
            self.buffer.mapped matches Some(m) && self.offset + self.size <= m@.len(),
        ensures
            v.bytes() == self.buffer.mapped.unwrap()@.subrange(self.offset as int, self.offset + self.size),
    {
        let m = match &self.buffer.mapped {
            Some(m) => m,
            None => {
                proof {
                    assert(false);
                }
                return BufferView { data: Vec::new() };
            },
        };
        let mlen = m.len();
        assert(self.offset + self.size <= mlen);
        let start = self.offset as usize;
        let end = start + self.size as usize;
        let mut data: Vec<u8> = Vec::new();
        let mut i: usize = start;
        while i < end
            invariant
                start <= i <= end,
                end <= m@.len(),
                data@ == m@.subrange(start as int, i as int),
            decreases end - i,
        {
            data.push(m[i]);
            proof {
                assert(m@.subrange(start as int, i as int + 1) =~= m@.subrange(start as int, i as int).push(m@[i as int]));
            }
            i = i + 1;
        }
        BufferView { data }
    }
}

/// An error while mapping a buffer.
#[derive(Clone, Copy, Debug, PartialEq, Eq, Structural)]
pub struct BufferAsyncError;

impl BufferAsyncError {
    /// The error message.
    pub fn message(&self) -> (s: String)
        ensures
            s@ == "Error occurred when trying to async map a buffer"@,
    {
        String::from_str("Error occurred when trying to async map a buffer")
    }
}

/// How a buffer is mapped.
#[derive(Clone, Copy, Debug, PartialEq, Eq, Structural)]
pub enum MapMode {
    Read,
    Write,
}

/// The index of a submission.
#[derive(Clone, Copy, Debug, PartialEq, Eq, Hash, Structural)]
pub struct SubmissionIndex(pub u64);

/// The marker of an external texture binding (never backed on this path).
#[derive(Clone, Copy, Debug, PartialEq, Eq, Structural)]
pub struct ExternalTexture;

/// A finished command encoder: the commands were already recorded; this
/// orders submission.
#[derive(Debug)]
pub struct CommandBuffer {
    pub submitted_maps: usize,
}

/// A query set marker (no queries on this path).
#[derive(Clone, Copy, Debug, PartialEq, Eq, Structural)]
pub struct QuerySet;

/// The pipeline cache marker of raw pipeline descriptors.
#[derive(Clone, Copy, Debug, PartialEq, Eq, Structural)]
pub struct PipelineCacheMarker;

/// The graphics API instance marker.
#[derive(Clone, Copy, Debug, PartialEq, Eq, Default, Structural)]
pub struct Instance;

/// Where the timestamps of a render pass go.
#[derive(Clone, Copy, Debug)]
pub struct RenderPassTimestampWrites<'a> {
    pub query_set: &'a QuerySet,
    pub beginning_of_pass_write_index: Option<u32>,
    pub end_of_pass_write_index: Option<u32>,
}

/// Where the timestamps of a compute pass go.
#[derive(Clone, Copy, Debug)]
pub struct ComputePassTimestampWrites<'a> {
    pub query_set: &'a QuerySet,
    pub beginning_of_pass_write_index: Option<u32>,
    pub end_of_pass_write_index: Option<u32>,
}

/// Describes a compute pass.
#[derive(Clone, Copy, Debug)]
pub struct ComputePassDescriptor<'a> {
    pub label: Option<&'a str>,
    pub timestamp_writes: Option<ComputePassTimestampWrites<'a>>,
}

/// An error while preparing a bottom-level acceleration structure for
/// compaction.
#[derive(Clone, Copy, Debug, PartialEq, Eq, Structural)]
pub struct BlasAsyncError;

/// A bottom-level acceleration structure handle. This path has no ray
/// tracing: it has no raw handle and never becomes ready for compaction.
#[derive(Clone, Copy, Debug, PartialEq, Eq, Structural)]
pub struct Blas;

impl Blas {
    /// A handle.
    pub fn new() -> (b: Blas) {
        Blas
    }

    /// The raw handle for instance buffers: never available.
    pub fn handle(&self) -> (h: Option<u64>)
        ensures
            h is None,
    {
        None
    }

    /// What a compaction request reports: always the unsupported-operation
    /// error.
    pub fn compaction_result(&self) -> (r: Result<(), BlasAsyncError>)
        ensures
            r == Err::<(), BlasAsyncError>(BlasAsyncError),
    {
        Err(BlasAsyncError)
    }

    /// Requests compaction: the callback is told at once that it failed.
    pub fn prepare_compaction_async<F: FnOnce(Result<(), BlasAsyncError>)>(&self, callback: F)
        requires
            callback.requires((Err::<(), BlasAsyncError>(BlasAsyncError),)),
        ensures
            callback.ensures((Err::<(), BlasAsyncError>(BlasAsyncError),), ()),
    {
        callback(self.compaction_result());
    }

    /// Whether the structure is ready for compaction: never.
    pub fn ready_for_compaction(&self) -> (r: bool)
        ensures
            !r,
    {
        false
    }
}

/// Runs the callbacks of the buffer maps queued on an encoder, in the order
/// they were queued, each with the outcome of its map.
pub fn run_map_callbacks<F: FnOnce(Result<(), BufferAsyncError>)>(callbacks: Vec<F>, outcomes: Vec<Result<(), BufferAsyncError>>)
    requires
        callbacks@.len() == outcomes@.len(),
        forall|i: int| 0 <= i < callbacks@.len() ==> (#[trigger] callbacks@[i]).requires((outcomes@[i],)),
    ensures
        forall|i: int| 0 <= i < callbacks@.len() ==> (#[trigger] callbacks@[i]).ensures((outcomes@[i],), ()),
{
    let ghost cbs = callbacks@;
    let ghost outs = outcomes@;
    let mut callbacks = callbacks;
    let mut outcomes = outcomes;
    let n = callbacks.len();
    let mut i: usize = 0;
    while i < n
        invariant
            n == cbs.len(),
            n == outs.len(),
            i <= n,
            callbacks@ == cbs.skip(i as int),
            outcomes@ == outs.skip(i as int),
            forall|j: int| 0 <= j < n ==> (#[trigger] cbs[j]).requires((outs[j],)),
            forall|j: int| 0 <= j < i ==> (#[trigger] cbs[j]).ensures((outs[j],), ()),
        decreases n - i,
    {
        proof {
            assert(cbs.skip(i as int)[0] == cbs[i as int]);
            assert(outs.skip(i as int)[0] == outs[i as int]);
            assert(cbs.skip(i as int).drop_first() =~= cbs.skip(i as int + 1));
            assert(outs.skip(i as int).drop_first() =~= outs.skip(i as int + 1));
        }
        let callback = callbacks.remove(0);
        let outcome = outcomes.remove(0);
        callback(outcome);
        i = i + 1;
    }
}

/// The buffer maps queued on an encoder: each one's callback, in the order
/// the maps were requested.
pub struct MapQueue<F> {
    pub callbacks: Vec<F>,
}

impl<F: FnOnce(Result<(), BufferAsyncError>)> MapQueue<F> {
    /// An encoder with no queued map.
    pub fn new() -> (q: Self)
        ensures
            q.callbacks@.len() == 0,
    {
        MapQueue { callbacks: Vec::new() }
    }

    /// Queues a map's callback behind the others.
    pub fn queue(&mut self, callback: F)
        ensures
            final(self).callbacks@ == old(self).callbacks@.push(callback),
    {
        self.callbacks.push(callback);
    }

    /// The number of queued maps.
    pub fn len(&self) -> (n: usize)
        ensures
            n == self.callbacks@.len(),
    {
        self.callbacks.len()
    }

    /// Finishes the encoder: each queued callback runs exactly once, in the
    /// order the maps were queued, with the outcome of its map; none is
    /// left.
    pub fn finish(self, outcomes: Vec<Result<(), BufferAsyncError>>)
        requires
            self.callbacks@.len() == outcomes@.len(),
            forall|i: int| 0 <= i < self.callbacks@.len() ==> (#[trigger] self.callbacks@[i]).requires((outcomes@[i],)),
        ensures
            forall|i: int| 0 <= i < self.callbacks@.len() ==> (#[trigger] self.callbacks@[i]).ensures((outcomes@[i],), ()),
    {
        run_map_callbacks(self.callbacks, outcomes);
    }
}

/// The source of a shader module.
#[derive(Debug)]
pub enum ShaderSource {
    SpirV(Vec<u32>),
    Wgsl(String),
    Naga(naga::Module),
}

/// Byte `k` of `data`, 0 past its end.
pub open spec fn byte_or_zero(data: Seq<u8>, k: int) -> int {
    if 0 <= k < data.len() { data[k] as int } else { 0 }
}

/// The little-endian word of the four bytes from `4 * i`, missing bytes
/// being 0.
pub open spec fn spirv_word(data: Seq<u8>, i: int) -> int {
    byte_or_zero(data, 4 * i) + 256 * byte_or_zero(data, 4 * i + 1) + 65536 * byte_or_zero(data, 4 * i + 2)
        + 16777216 * byte_or_zero(data, 4 * i + 3)
}

/// The byte at `k`, or 0 past the end.
fn byte_at(data: &[u8], k: usize) -> (b: u8)
    ensures
        b as int == byte_or_zero(data@, k as int),
{
    if k < data.len() { data[k] } else { 0 }
}

/// SPIR-V bytes as a shader source: one little-endian word per four bytes,
/// a last partial word padded with zero bytes.
pub fn make_spirv(data: &[u8]) -> (source: ShaderSource)
    requires
        data@.len() <= isize::MAX,
    ensures
        source matches ShaderSource::SpirV(words) && {
            &&& words@.len() == (data@.len() + 3) / 4
            &&& forall|i: int| 0 <= i < words@.len() ==> #[trigger] words@[i] as int == spirv_word(data@, i)
        },
{
    let n = data.len() / 4 + if data.len() % 4 != 0 { 1usize } else { 0usize };
    let mut words: Vec<u32> = Vec::new();
    let mut i: usize = 0;
    while i < n
        invariant
            data@.len() <= isize::MAX,
            n == (data@.len() + 3) / 4,
            i <= n,
            words@.len() == i,
            forall|j: int| 0 <= j < i ==> #[trigger] words@[j] as int == spirv_word(data@, j),
        decreases n - i,
    {
        assert(4 * i + 3 < data@.len() + 4) by (nonlinear_arith)
            requires
                i < n,
                n == (data@.len() + 3) / 4,
        ;
        let k = 4 * i;
        let b0 = byte_at(data, k) as u32;
        let b1 = byte_at(data, k + 1) as u32;
        let b2 = byte_at(data, k + 2) as u32;
        let b3 = byte_at(data, k + 3) as u32;
        let w: u32 = b0 + 256 * b1 + 65536 * b2 + 16777216 * b3;
        words.push(w);
        i = i + 1;
    }
    ShaderSource::SpirV(words)
}

/// The number of bytes a buffer-to-buffer copy moves: the given size, or
/// as many bytes as both buffers have past their offsets.
pub fn copy_buffer_size(source_size: u64, source_offset: u64, destination_size: u64, destination_offset: u64, copy_size: Option<u64>) -> (n: u64)
    ensures
        n == match copy_size {
            Some(s) => s as int,
            None => {
                let src = if source_size >= source_offset { source_size - source_offset } else { 0 };
                let dst = if destination_size >= destination_offset { destination_size - destination_offset } else { 0 };
                if src <= dst { src } else { dst }
            },
        },
{
    match copy_size {
        Some(s) => s,
        None => {
            let src = source_size.saturating_sub(source_offset);
            let dst = destination_size.saturating_sub(destination_offset);
            if src <= dst { src } else { dst }
        },
    }
}

} // verus!
