//! GPU readback bookkeeping: the pool of staging resources reused across
//! frames, the byte range a buffer readback copies, and when a copy is
//! ready to be mapped.

use vstd::prelude::*;

verus! {

/// The readback plugin's settings: how many frames a staging resource may
/// stay unused before the pool drops it.
#[derive(Clone, Copy, Debug, PartialEq, Eq, Structural)]
pub struct GpuReadbackPlugin {
    pub max_unused_frames: usize,
}

/// The default number of frames a staging resource may stay unused.
pub const DEFAULT_MAX_UNUSED_FRAMES: usize = 10;

impl GpuReadbackPlugin {
    /// The plugin with `max_unused_frames`.
    pub fn new(max_unused_frames: usize) -> (p: GpuReadbackPlugin)
        ensures
            p.max_unused_frames == max_unused_frames,
    {
        GpuReadbackPlugin { max_unused_frames }
    }

    /// How many frames a staging resource may stay unused.
    pub fn max_unused_frames(&self) -> (n: usize)
        ensures
            n == self.max_unused_frames,
    {
        self.max_unused_frames
    }
}

impl Default for GpuReadbackPlugin {
    fn default() -> (p: GpuReadbackPlugin)
        ensures
            p.max_unused_frames == DEFAULT_MAX_UNUSED_FRAMES,
    {
        GpuReadbackPlugin { max_unused_frames: DEFAULT_MAX_UNUSED_FRAMES }
    }
}

/// What a staging resource fits: a buffer of a size, or a texture of a
/// size and engine format.
#[derive(Clone, Copy, Debug, PartialEq, Eq, Structural)]
pub enum StagingKey {
    Buffer { size: u64 },
    Texture { width: u32, height: u32, format: u32 },
}

/// A staging resource of the pool: its key (what it fits), identity,
/// handle, whether a readback holds it and for how many frames it has been
/// unused.
pub struct PoolEntry<T> {
    pub key: StagingKey,
    pub id: u64,
    pub handle: T,
    pub taken: bool,
    pub frames_unused: usize,
}

/// The bookkeeping of a pool entry.
pub open spec fn entry_view<T>(e: PoolEntry<T>) -> (StagingKey, u64, bool, usize) {
    (e.key, e.id, e.taken, e.frames_unused)
}

/// An entry after one more frame: an unused one ages by a frame.
pub open spec fn tick(e: (StagingKey, u64, bool, usize)) -> (StagingKey, u64, bool, usize) {
    if !e.2 { (e.0, e.1, e.2, (e.3 + 1) as usize) } else { e }
}

/// The entries still kept after a frame with limit `max_unused_frames`.
pub open spec fn aged(entries: Seq<(StagingKey, u64, bool, usize)>, max_unused_frames: usize) -> Seq<(StagingKey, u64, bool, usize)>
    decreases entries.len(),
{
    if entries.len() == 0 {
        Seq::empty()
    } else {
        let rest = aged(entries.drop_last(), max_unused_frames);
        let t = tick(entries.last());
        if t.3 < max_unused_frames { rest.push(t) } else { rest }
    }
}

/// A pool entry after one more frame: an unused one ages by a frame.
pub open spec fn tick_entry<T>(e: PoolEntry<T>) -> PoolEntry<T> {
    if !e.taken { PoolEntry { frames_unused: (e.frames_unused + 1) as usize, ..e } } else { e }
}

/// The pool entries still kept after a frame with limit
/// `max_unused_frames`, each with its handle, in order.
pub open spec fn aged_entries<T>(entries: Seq<PoolEntry<T>>, max_unused_frames: usize) -> Seq<PoolEntry<T>>
    decreases entries.len(),
{
    if entries.len() == 0 {
        Seq::empty()
    } else {
        let rest = aged_entries(entries.drop_last(), max_unused_frames);
        let t = tick_entry(entries.last());
        if t.frames_unused < max_unused_frames { rest.push(t) } else { rest }
    }
}

/// Staging resources by key, reused across frames.
pub struct StagingPool<T> {
    pub entries: Vec<PoolEntry<T>>,
}

impl<T> StagingPool<T> {
    /// The bookkeeping of the entries, in insertion order.
    pub open spec fn view(&self) -> Seq<(StagingKey, u64, bool, usize)> {
        self.entries@.map_values(|e: PoolEntry<T>| entry_view(e))
    }

    /// The pool's invariant: a taken entry has not aged, and no entry has
    /// aged to the limit of `usize`.
    pub open spec fn wf(&self) -> bool {
        forall|i: int| 0 <= i < self.entries@.len() ==> {
            &&& (#[trigger] self.entries@[i]).frames_unused < usize::MAX
            &&& self.entries@[i].taken ==> self.entries@[i].frames_unused == 0
        }
    }

    /// An empty pool.
    pub fn new() -> (p: Self)
        ensures
            p.wf(),
            p.entries@.len() == 0,
    {
        StagingPool { entries: Vec::new() }
    }

    /// Takes the first free entry for `key`: it becomes taken and unaged.
    /// `None` when every entry for `key` is taken (the caller creates one).
    pub fn acquire(&mut self, key: StagingKey) -> (r: Option<usize>)
        requires
            old(self).wf(),
        ensures
            final(self).wf(),
            match r {
                Some(i) => {
                    &&& i < old(self).entries@.len()
                    &&& old(self).entries@[i as int].key == key && !old(self).entries@[i as int].taken
                    &&& forall|j: int| 0 <= j < i ==> !((#[trigger] old(self).entries@[j]).key == key && !old(self).entries@[j].taken)
                    &&& final(self).view() == old(self).view().update(i as int, (key, old(self).entries@[i as int].id, true, 0usize))
                    &&& final(self).entries@[i as int].handle == old(self).entries@[i as int].handle
                },
                None => {
                    &&& forall|j: int| 0 <= j < old(self).entries@.len() ==> !((#[trigger] old(self).entries@[j]).key == key && !old(self).entries@[j].taken)
                    &&& final(self).view() == old(self).view()
                },
            },
            final(self).entries@.len() == old(self).entries@.len(),
            forall|j: int| 0 <= j < old(self).entries@.len() ==> (#[trigger] final(self).entries@[j]).handle == old(self).entries@[j].handle,
    {
        let mut i: usize = 0;
        while i < self.entries.len()
            invariant
                i <= self.entries@.len(),
                self.entries@ == old(self).entries@,
                old(self).wf(),
                forall|j: int| 0 <= j < i ==> !((#[trigger] self.entries@[j]).key == key && !self.entries@[j].taken),
            decreases self.entries.len() - i,
        {
            let matches = self.entries[i].key == key && !self.entries[i].taken;
            if matches {
                let ghost before = self.entries@;
                self.entries[i].taken = true;
                self.entries[i].frames_unused = 0;
                proof {
                    assert(self.entries@.map_values(|e: PoolEntry<T>| entry_view(e))
                        =~= before.map_values(|e: PoolEntry<T>| entry_view(e)).update(i as int, (key, before[i as int].id, true, 0usize)));
                }
                return Some(i);
            }
            i = i + 1;
        }
        None
    }

    /// Adds a taken entry for a staging resource just created for `key`.
    pub fn insert_taken(&mut self, key: StagingKey, id: u64, handle: T)
        requires
            old(self).wf(),
        ensures
            final(self).wf(),
            final(self).view() == old(self).view().push((key, id, true, 0usize)),
            final(self).entries@.last().handle == handle,
            final(self).entries@.len() == old(self).entries@.len() + 1,
            forall|j: int| 0 <= j < old(self).entries@.len() ==> (#[trigger] final(self).entries@[j]).handle == old(self).entries@[j].handle,
    {
        let ghost before = self.entries@;
        self.entries.push(PoolEntry { key, id, handle, taken: true, frames_unused: 0 });
        proof {
            assert(self.entries@.map_values(|e: PoolEntry<T>| entry_view(e))
                =~= before.map_values(|e: PoolEntry<T>| entry_view(e)).push((key, id, true, 0usize)));
        }
    }

    /// The handle of entry `index`.
    pub fn handle(&self, index: usize) -> (h: &T)
        requires
            index < self.entries@.len(),
        ensures
            *h == self.entries@[index as int].handle,
    {
        &self.entries[index].handle
    }

    /// Returns the staging resource `id` to the pool: the first entry with
    /// that identity is no longer taken. `false` when no entry has it.
    pub fn release(&mut self, id: u64) -> (found: bool)
        requires
            old(self).wf(),
        ensures
            final(self).wf(),
            final(self).entries@.len() == old(self).entries@.len(),
            forall|j: int| 0 <= j < old(self).entries@.len() ==> (#[trigger] final(self).entries@[j]).handle == old(self).entries@[j].handle,
            found == exists|j: int| 0 <= j < old(self).entries@.len() && (#[trigger] old(self).entries@[j]).id == id,
            !found ==> final(self).view() == old(self).view(),
            found ==> exists|i: int| {
                &&& 0 <= i < old(self).entries@.len()
                &&& (#[trigger] old(self).entries@[i]).id == id
                &&& forall|j: int| 0 <= j < i ==> (#[trigger] old(self).entries@[j]).id != id
                &&& final(self).view() == old(self).view().update(i, (old(self).view()[i].0, id, false, old(self).view()[i].3))
            },
    {
        let mut i: usize = 0;
        while i < self.entries.len()
            invariant
                i <= self.entries@.len(),
                self.entries@ == old(self).entries@,
                old(self).wf(),
                forall|j: int| 0 <= j < i ==> (#[trigger] self.entries@[j]).id != id,
            decreases self.entries.len() - i,
        {
            if self.entries[i].id == id {
                let ghost before = self.entries@;
                self.entries[i].taken = false;
                proof {
                    assert(self.entries@.map_values(|e: PoolEntry<T>| entry_view(e))
                        =~= before.map_values(|e: PoolEntry<T>| entry_view(e)).update(i as int,
                            (before[i as int].key, id, false, before[i as int].frames_unused)));
                }
                return true;
            }
            i = i + 1;
        }
        false
    }

    /// One frame passes: every free entry ages by a frame, and the entries
    /// unused for `max_unused_frames` frames are dropped.
    pub fn update(&mut self, max_unused_frames: usize)
        requires
            old(self).wf(),
        ensures
            final(self).wf(),
            final(self).view() == aged(old(self).view(), max_unused_frames),
            final(self).entries@ == aged_entries(old(self).entries@, max_unused_frames),
    {
        let mut rest: Vec<PoolEntry<T>> = Vec::new();
        std::mem::swap(&mut rest, &mut self.entries);
        let ghost orig = rest@;
        let ghost orig_view = orig.map_values(|e: PoolEntry<T>| entry_view(e));
        let mut i: usize = 0;
        let n = rest.len();
        proof {
            assert(orig_view.take(0) =~= Seq::<(StagingKey, u64, bool, usize)>::empty());
            assert(orig.take(0) =~= Seq::<PoolEntry<T>>::empty());
            assert(rest@ =~= orig.skip(0));
        }
        while i < n
            invariant
                n == orig.len(),
                i <= n,
                orig_view == orig.map_values(|e: PoolEntry<T>| entry_view(e)),
                forall|j: int| 0 <= j < orig.len() ==> {
                    &&& (#[trigger] orig[j]).frames_unused < usize::MAX
                    &&& orig[j].taken ==> orig[j].frames_unused == 0
                },
                rest@ == orig.skip(i as int),
                self.entries@.map_values(|e: PoolEntry<T>| entry_view(e)) == aged(orig_view.take(i as int), max_unused_frames),
                self.entries@ == aged_entries(orig.take(i as int), max_unused_frames),
                forall|j: int| 0 <= j < self.entries@.len() ==> {
                    &&& (#[trigger] self.entries@[j]).frames_unused < usize::MAX
                    &&& self.entries@[j].taken ==> self.entries@[j].frames_unused == 0
                },
            decreases n - i,
        {
            let mut e = rest.remove(0);
            proof {
                assert(orig.skip(i as int)[0] == orig[i as int]);
                assert(orig.skip(i as int).drop_first() =~= orig.skip(i as int + 1));
                assert(orig_view.take(i as int + 1).drop_last() =~= orig_view.take(i as int));
                assert(orig_view.take(i as int + 1).last() == entry_view(orig[i as int]));
                assert(orig.take(i as int + 1).drop_last() =~= orig.take(i as int));
                assert(orig.take(i as int + 1).last() == orig[i as int]);
            }
            if !e.taken {
                e.frames_unused = e.frames_unused + 1;
            }
            let ghost before = self.entries@;
            if e.frames_unused < max_unused_frames {
                self.entries.push(e);
                proof {
                    assert(self.entries@.map_values(|x: PoolEntry<T>| entry_view(x))
                        =~= before.map_values(|x: PoolEntry<T>| entry_view(x)).push(entry_view(self.entries@.last())));
                }
            }
            i = i + 1;
        }
        proof {
            assert(orig_view.take(n as int) =~= orig_view);
            assert(orig.take(n as int) =~= orig);
        }
    }
}

/// A free entry that ages past the limit is dropped, and with a limit of
/// at least one frame an entry held by a readback is never dropped.
pub proof fn lemma_aged_keeps_taken(entries: Seq<(StagingKey, u64, bool, usize)>, max_unused_frames: usize, i: int)
    requires
        0 <= i < entries.len(),
        entries[i].2,
        entries[i].3 == 0,
        max_unused_frames >= 1,
    ensures
        aged(entries, max_unused_frames).contains(entries[i]),
    decreases entries.len(),
{
    if i == entries.len() - 1 {
        assert(tick(entries.last()) == entries[i]);
        assert(aged(entries, max_unused_frames).last() == entries[i]);
    } else {
        lemma_aged_keeps_taken(entries.drop_last(), max_unused_frames, i);
        let prev = aged(entries.drop_last(), max_unused_frames);
        let j = choose|j: int| 0 <= j < prev.len() && prev[j] == entries[i];
        let t = tick(entries.last());
        if t.3 < max_unused_frames {
            assert(prev.push(t)[j] == entries[i]);
        }
    }
}

/// Every entry kept after a frame is below the unused-frames limit.
pub proof fn lemma_aged_below_limit(entries: Seq<(StagingKey, u64, bool, usize)>, max_unused_frames: usize)
    ensures
        forall|j: int| 0 <= j < aged(entries, max_unused_frames).len() ==> (#[trigger] aged(entries, max_unused_frames)[j]).3 < max_unused_frames,
    decreases entries.len(),
{
    if entries.len() > 0 {
        lemma_aged_below_limit(entries.drop_last(), max_unused_frames);
        let prev = aged(entries.drop_last(), max_unused_frames);
        let t = tick(entries.last());
        assert forall|j: int| 0 <= j < aged(entries, max_unused_frames).len() implies (#[trigger] aged(entries, max_unused_frames)[j]).3 < max_unused_frames by {
            if t.3 < max_unused_frames {
                assert(aged(entries, max_unused_frames) == prev.push(t));
                if j < prev.len() {
                    assert(prev.push(t)[j] == prev[j]);
                }
            } else {
                assert(aged(entries, max_unused_frames) == prev);
            }
        }
    }
}

/// What a frame keeps of the pool: every entry, aged by the frame (a free
/// one by a frame, a taken one not at all), stays exactly when its age is
/// below the limit; the pool holds nothing else.
pub proof fn lemma_aged_exact(entries: Seq<(StagingKey, u64, bool, usize)>, max_unused_frames: usize)
    ensures
        forall|i: int| 0 <= i < entries.len() && (#[trigger] tick(entries[i])).3 < max_unused_frames
            ==> aged(entries, max_unused_frames).contains(tick(entries[i])),
        forall|j: int| 0 <= j < aged(entries, max_unused_frames).len() ==> exists|i: int| 0 <= i < entries.len()
            && #[trigger] aged(entries, max_unused_frames)[j] == tick(entries[i]) && tick(entries[i]).3 < max_unused_frames,
    decreases entries.len(),
{
    if entries.len() > 0 {
        let p = entries.drop_last();
        lemma_aged_exact(p, max_unused_frames);
        let prev = aged(p, max_unused_frames);
        let t = tick(entries.last());
        let n = entries.len() - 1;
        assert forall|i: int| 0 <= i < entries.len() && (#[trigger] tick(entries[i])).3 < max_unused_frames
            implies aged(entries, max_unused_frames).contains(tick(entries[i])) by {
            if i == n {
                assert(aged(entries, max_unused_frames).last() == t);
            } else {
                assert(p[i] == entries[i]);
                assert(tick(p[i]).3 < max_unused_frames);
                let k = choose|k: int| 0 <= k < prev.len() && prev[k] == tick(p[i]);
                if t.3 < max_unused_frames {
                    assert(prev.push(t)[k] == prev[k]);
                }
            }
        }
        assert forall|j: int| 0 <= j < aged(entries, max_unused_frames).len() implies exists|i: int| 0 <= i < entries.len()
            && #[trigger] aged(entries, max_unused_frames)[j] == tick(entries[i]) && tick(entries[i]).3 < max_unused_frames by {
            if t.3 < max_unused_frames && j == prev.len() {
                assert(aged(entries, max_unused_frames)[j] == tick(entries[n]));
            } else {
                assert(aged(entries, max_unused_frames)[j] == prev[j]);
                let i = choose|i: int| 0 <= i < p.len() && #[trigger] prev[j] == tick(p[i]) && tick(p[i]).3 < max_unused_frames;
                assert(p[i] == entries[i]);
            }
        }
    }
}

/// The number of bytes a buffer readback copies: the requested range's
/// size, or the whole buffer. The range must lie inside the buffer.
pub fn readback_size(full_size: u64, start_offset_and_size: Option<(u64, u64)>) -> (size: u64)
    requires
        start_offset_and_size matches Some((start, size)) ==> start + size <= full_size,
    ensures
        size == match start_offset_and_size {
            Some((_, s)) => s,
            None => full_size,
        },
{
    match start_offset_and_size {
        Some((_, size)) => size,
        None => full_size,
    }
}

/// What a readback request reads: a texture (its size, engine format and
/// whether its format has a known pixel size), or a buffer range (`None`:
/// the whole buffer).
#[derive(Clone, Copy, Debug)]
pub enum ReadbackSource {
    Texture { width: u32, height: u32, format: u32, pixel_size_known: bool },
    Buffer { full_size: u64, start_offset_and_size: Option<(u64, u64)> },
}

/// The staging resource a readback request needs: a staging texture of the
/// texture's size and format (none when its format has no known pixel
/// size: such a texture is not read back), or a staging buffer of the
/// range's size. A buffer range must lie inside the buffer.
pub fn readback_staging_key(source: ReadbackSource) -> (r: Option<StagingKey>)
    requires
        source matches ReadbackSource::Buffer { full_size, start_offset_and_size: Some((start, size)) }
            ==> start + size <= full_size,
    ensures
        r == match source {
            ReadbackSource::Texture { width, height, format, pixel_size_known } => if pixel_size_known {
                Some(StagingKey::Texture { width, height, format })
            } else {
                None
            },
            ReadbackSource::Buffer { full_size, start_offset_and_size } => Some(StagingKey::Buffer {
                size: match start_offset_and_size { Some((_, s)) => s, None => full_size },
            }),
        },
{
    match source {
        ReadbackSource::Texture { width, height, format, pixel_size_known } => {
            if pixel_size_known {
                Some(StagingKey::Texture { width, height, format })
            } else {
                None
            }
        },
        ReadbackSource::Buffer { full_size, start_offset_and_size } => {
            Some(StagingKey::Buffer { size: readback_size(full_size, start_offset_and_size) })
        },
    }
}

/// The source offset and size of a buffer readback copy: the requested
/// range, or the whole buffer from its start.
pub fn copy_range(buffer_size: u64, start_offset_and_size: Option<(u64, u64)>) -> (r: (u64, u64))
    ensures
        r == match start_offset_and_size {
            Some(p) => p,
            None => (0u64, buffer_size),
        },
{
    match start_offset_and_size {
        Some(p) => p,
        None => (0, buffer_size),
    }
}

/// Pending frames after which a readback waits for its copy.
pub const SYNC_FALLBACK_FRAMES: u32 = 8;

/// What to do with a readback this frame.
#[derive(Clone, Copy, Debug, PartialEq, Eq, Structural)]
pub enum ReadbackStep {
    /// The copy is complete: map the staging resource.
    MapStaging,
    /// Not complete yet: keep the readback for the next frame.
    Keep,
    /// Pending too long: wait for the copy's fence value, map on success.
    Wait,
}

/// The step of a readback and its new pending-frame count (see
/// `readback_step`).
pub open spec fn readback_step_spec(fence_value: u64, completed: u64, pending_frames: u32) -> (ReadbackStep, u32) {
    if fence_value > 0 && completed >= fence_value {
        (ReadbackStep::MapStaging, pending_frames)
    } else {
        let pending = (pending_frames + 1) as u32;
        if pending >= SYNC_FALLBACK_FRAMES && fence_value > 0 {
            (ReadbackStep::Wait, pending)
        } else {
            (ReadbackStep::Keep, pending)
        }
    }
}

/// Decides a readback's step from its copy's fence value (0 = never
/// submitted), the fence's completed value and its pending frames; returns
/// the step and the new pending-frame count. A complete copy is mapped;
/// otherwise the readback has waited one more frame, and from
/// `SYNC_FALLBACK_FRAMES` frames on a submitted copy is waited for.
pub fn readback_step(fence_value: u64, completed: u64, pending_frames: u32) -> (r: (ReadbackStep, u32))
    requires
        pending_frames < u32::MAX,
    ensures
        r == readback_step_spec(fence_value, completed, pending_frames),
        fence_value > 0 && completed >= fence_value ==> r == (ReadbackStep::MapStaging, pending_frames),
        !(fence_value > 0 && completed >= fence_value) ==> r.1 == pending_frames + 1 && r.0 == if r.1 >= SYNC_FALLBACK_FRAMES && fence_value > 0 {
            ReadbackStep::Wait
        } else {
            ReadbackStep::Keep
        },
{
    if fence_value > 0 && completed >= fence_value {
        return (ReadbackStep::MapStaging, pending_frames);
    }
    let pending = pending_frames + 1;
    if pending >= SYNC_FALLBACK_FRAMES && fence_value > 0 {
        (ReadbackStep::Wait, pending)
    } else {
        (ReadbackStep::Keep, pending)
    }
}

/// The fence value of the next readback copy: one past the last, the
/// values increasing strictly.
pub fn next_fence_value(last: u64) -> (next: u64)
    requires
        last < u64::MAX,
    ensures
        next == last + 1,
        next > last,
{
    last + 1
}

/// A readback in flight: its id, its copy's fence value (0 = the copy was
/// never submitted) and how many frames it has waited.
#[derive(Clone, Copy, Debug, PartialEq, Eq, Structural)]
pub struct PendingReadback {
    pub id: u64,
    pub fence_value: u64,
    pub pending_frames: u32,
}

/// The step a readback takes this frame.
pub open spec fn step_of(r: PendingReadback, completed: u64) -> ReadbackStep {
    readback_step_spec(r.fence_value, completed, r.pending_frames).0
}

/// A readback after this frame's step: its pending-frame count updated.
pub open spec fn advanced(r: PendingReadback, completed: u64) -> PendingReadback {
    PendingReadback { pending_frames: readback_step_spec(r.fence_value, completed, r.pending_frames).1, ..r }
}

/// The readbacks of `s` kept for the next frame, advanced, in order.
pub open spec fn kept_readbacks(s: Seq<PendingReadback>, completed: u64) -> Seq<PendingReadback>
    decreases s.len(),
{
    if s.len() == 0 {
        Seq::empty()
    } else {
        let rest = kept_readbacks(s.drop_last(), completed);
        if step_of(s.last(), completed) == ReadbackStep::Keep { rest.push(advanced(s.last(), completed)) } else { rest }
    }
}

/// The readbacks of `s` due this frame (to map, or to wait for and map),
/// advanced, with their step, in order.
pub open spec fn due_readbacks(s: Seq<PendingReadback>, completed: u64) -> Seq<(PendingReadback, ReadbackStep)>
    decreases s.len(),
{
    if s.len() == 0 {
        Seq::empty()
    } else {
        let rest = due_readbacks(s.drop_last(), completed);
        let x = s.last();
        if step_of(x, completed) == ReadbackStep::Keep { rest } else { rest.push((advanced(x, completed), step_of(x, completed))) }
    }
}

/// One frame of readbacks, given the fence's completed value: each pending
/// readback takes its step. Those not ready are returned first, with one
/// more pending frame, to be polled again next frame; those due (complete,
/// or pending long enough to be waited for) are returned second with their
/// step, both in order. A due readback whose map fails goes back to the
/// pending ones.
pub fn poll_readbacks(pending: &Vec<PendingReadback>, completed: u64) -> (r: (Vec<PendingReadback>, Vec<(PendingReadback, ReadbackStep)>))
    requires
        forall|i: int| 0 <= i < pending@.len() ==> (#[trigger] pending@[i]).pending_frames < u32::MAX,
    ensures
        r.0@ == kept_readbacks(pending@, completed),
        r.1@ == due_readbacks(pending@, completed),
{
    let mut kept: Vec<PendingReadback> = Vec::new();
    let mut due: Vec<(PendingReadback, ReadbackStep)> = Vec::new();
    let mut i: usize = 0;
    while i < pending.len()
        invariant
            i <= pending@.len(),
            forall|j: int| 0 <= j < pending@.len() ==> (#[trigger] pending@[j]).pending_frames < u32::MAX,
            kept@ == kept_readbacks(pending@.take(i as int), completed),
            due@ == due_readbacks(pending@.take(i as int), completed),
        decreases pending.len() - i,
    {
        let x = pending[i];
        let (step, frames) = readback_step(x.fence_value, completed, x.pending_frames);
        let next = PendingReadback { pending_frames: frames, ..x };
        proof {
            assert(pending@.take(i as int + 1).drop_last() =~= pending@.take(i as int));
            assert(pending@.take(i as int + 1).last() == x);
        }
        match step {
            ReadbackStep::Keep => kept.push(next),
            _ => due.push((next, step)),
        }
        i = i + 1;
    }
    proof {
        assert(pending@.take(pending@.len() as int) =~= pending@);
    }
    (kept, due)
}

/// Settles a due readback with what its map gave: the data is delivered
/// under the readback's id, or, when the map gave nothing (not visible yet,
/// or it failed), the readback goes back to the pending ones for the next
/// frame.
pub fn settle_readback(pending: &mut Vec<PendingReadback>, readback: PendingReadback, data: Option<Vec<u8>>) -> (delivered: Option<(u64, Vec<u8>)>)
    ensures
        match data {
            Some(d) => delivered == Some((readback.id, d)) && final(pending)@ == old(pending)@,
            None => delivered is None && final(pending)@ == old(pending)@.push(readback),
        },
{
    match data {
        Some(d) => Some((readback.id, d)),
        None => {
            pending.push(readback);
            None
        },
    }
}

/// No readback is lost in a frame: one that is not ready is kept, with one
/// more pending frame, for the next frame; a complete one is due to be
/// mapped; one pending for `SYNC_FALLBACK_FRAMES` frames is due to be
/// waited for.
pub proof fn lemma_readback_kept_or_due(s: Seq<PendingReadback>, completed: u64, i: int)
    requires
        0 <= i < s.len(),
    ensures
        step_of(s[i], completed) == ReadbackStep::Keep ==> kept_readbacks(s, completed).contains(advanced(s[i], completed)),
        step_of(s[i], completed) != ReadbackStep::Keep
            ==> due_readbacks(s, completed).contains((advanced(s[i], completed), step_of(s[i], completed))),
        s[i].fence_value > 0 && completed >= s[i].fence_value ==> step_of(s[i], completed) == ReadbackStep::MapStaging,
        !(s[i].fence_value > 0 && completed >= s[i].fence_value) && s[i].fence_value > 0
            && s[i].pending_frames + 1 >= SYNC_FALLBACK_FRAMES && s[i].pending_frames + 1 <= u32::MAX
            ==> step_of(s[i], completed) == ReadbackStep::Wait,
    decreases s.len(),
{
    let n = s.len() - 1;
    if i < n {
        lemma_readback_kept_or_due(s.drop_last(), completed, i);
        assert(s.drop_last()[i] == s[i]);
        let k = kept_readbacks(s.drop_last(), completed);
        let d = due_readbacks(s.drop_last(), completed);
        if step_of(s[i], completed) == ReadbackStep::Keep {
            let j = choose|j: int| 0 <= j < k.len() && k[j] == advanced(s[i], completed);
            if step_of(s.last(), completed) == ReadbackStep::Keep {
                assert(k.push(advanced(s.last(), completed))[j] == advanced(s[i], completed));
            }
        } else {
            let j = choose|j: int| 0 <= j < d.len() && d[j] == (advanced(s[i], completed), step_of(s[i], completed));
            if step_of(s.last(), completed) != ReadbackStep::Keep {
                assert(d.push((advanced(s.last(), completed), step_of(s.last(), completed)))[j] == d[j]);
            }
        }
    } else {
        if step_of(s[i], completed) == ReadbackStep::Keep {
            let k = kept_readbacks(s, completed);
            assert(k[k.len() - 1] == advanced(s[i], completed));
        } else {
            let d = due_readbacks(s, completed);
            assert(d[d.len() - 1] == (advanced(s[i], completed), step_of(s[i], completed)));
        }
    }
}

/// Numbers the fence signals of readback copies: each submitted copy
/// signals one past the last value handed out.
pub struct FenceCounter {
    pub next_value: u64,
}

impl FenceCounter {
    /// A counter that has handed out no value (the fence starts at 0).
    pub fn new() -> (c: FenceCounter)
        ensures
            c.next_value == 0,
    {
        FenceCounter { next_value: 0 }
    }

    /// The value the next submitted copy signals; values strictly increase.
    pub fn signal_value(&mut self) -> (v: u64)
        requires
            old(self).next_value < u64::MAX,
        ensures
            v == old(self).next_value + 1,
            final(self).next_value == v,
    {
        self.next_value = next_fence_value(self.next_value);
        self.next_value
    }

    /// The value a readback's copy signals, when the copy was recorded:
    /// `Some` of the next value, or `None` and the counter unchanged when
    /// the copy was skipped or failed.
    pub fn copy_signal(&mut self, copied: bool) -> (v: Option<u64>)
        requires
            old(self).next_value < u64::MAX,
        ensures
            copied ==> v == Some((old(self).next_value + 1) as u64) && final(self).next_value == old(self).next_value + 1,
            !copied ==> v is None && final(self).next_value == old(self).next_value,
    {
        if copied {
            Some(self.signal_value())
        } else {
            None
        }
    }
}

/// The number of recorded copies.
pub open spec fn count_copied(copied: Seq<bool>) -> nat
    decreases copied.len(),
{
    if copied.len() == 0 { 0 } else { count_copied(copied.drop_last()) + if copied.last() { 1nat } else { 0nat } }
}

/// The values the copies of a frame signal, from the counter's value `v0`
/// and whether each copy was recorded (see `FenceCounter::copy_signal`).
pub open spec fn signal_values(v0: nat, copied: Seq<bool>) -> Seq<Option<nat>>
    decreases copied.len(),
{
    if copied.len() == 0 {
        Seq::empty()
    } else {
        let rest = signal_values(v0, copied.drop_last());
        rest.push(if copied.last() { Some(v0 + count_copied(copied)) } else { None })
    }
}

/// Across a frame's submissions, the copies that were recorded signal the
/// values one past the counter's, in order and strictly increasing; the
/// others signal nothing; the counter ends that many values further.
pub proof fn lemma_signal_values(v0: nat, copied: Seq<bool>)
    ensures
        signal_values(v0, copied).len() == copied.len(),
        forall|i: int| 0 <= i < copied.len() ==> (#[trigger] signal_values(v0, copied)[i] is Some) == copied[i],
        forall|i: int, j: int| 0 <= i < j < copied.len() && copied[i] && copied[j]
            ==> (#[trigger] signal_values(v0, copied)[i]).unwrap() < (#[trigger] signal_values(v0, copied)[j]).unwrap(),
        forall|i: int| 0 <= i < copied.len() && copied[i] ==> v0 < (#[trigger] signal_values(v0, copied)[i]).unwrap() <= v0 + count_copied(copied),
    decreases copied.len(),
{
    if copied.len() > 0 {
        let p = copied.drop_last();
        lemma_signal_values(v0, p);
        let n = copied.len() - 1;
        assert forall|i: int| 0 <= i < n implies signal_values(v0, copied)[i] == signal_values(v0, p)[i] && copied[i] == p[i] by {}
        assert(count_copied(copied) == count_copied(p) + if copied.last() { 1nat } else { 0nat });
    }
}

/// The fence value a readback records for its copy: the value signalled,
/// or 0 (never complete, so never mapped without a wait) when the signal
/// could not be enqueued.
pub fn recorded_fence_value(value: u64, signalled: bool) -> (v: u64)
    ensures
        v == if signalled { value } else { 0 },
{
    if signalled { value } else { 0 }
}

} // verus!
