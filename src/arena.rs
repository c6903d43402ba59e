//! The arena ("mega buffer"): one long-lived device buffer sliced by a
//! forward-only cursor. Every allocation yields a byte offset, for copy
//! commands, and a typed device address, for shaders.
use crate::align::{align_up, fits, lemma_align_up};
use crate::gpu_ptr::GpuPtr;
use ash::vk;
use gpu_allocator::vulkan::Allocation;
use vstd::prelude::*;

verus! {

/// What an arena is, abstractly: its buffer and the memory bound to it, the
/// device address of its first byte, its size in bytes and the first byte not
/// yet handed out.
pub ghost struct ArenaView {
    pub buffer: vk::Buffer,
    pub allocation: Allocation,
    pub device_address: int,
    pub capacity: int,
    pub cursor: int,
}

/// The cursor of an arena whose cursor was `cursor`, after allocating each
/// `(size, align)` request of `reqs` in turn.
pub open spec fn cursor_after(cursor: int, reqs: Seq<(u64, u64)>) -> int
    decreases reqs.len(),
{
    if reqs.len() == 0 {
        cursor
    } else {
        align_up(cursor_after(cursor, reqs.drop_last()), reqs.last().1 as int) + reqs.last().0
    }
}

/// The offset returned for request `i` of `reqs`, on an arena whose cursor
/// was `cursor` before the first of them.
pub open spec fn start_of(cursor: int, reqs: Seq<(u64, u64)>, i: int) -> int {
    align_up(cursor_after(cursor, reqs.take(i)), reqs[i].1 as int)
}

/// Every request of `reqs` has a nonzero alignment and fits when its turn
/// comes, on an arena of `capacity` bytes whose cursor was `cursor`.
pub open spec fn all_fit(cursor: int, capacity: int, reqs: Seq<(u64, u64)>) -> bool {
    forall|i: int|
        0 <= i < reqs.len() ==> {
            &&& (#[trigger] reqs[i]).1 > 0
            &&& fits(cursor_after(cursor, reqs.take(i)), capacity, reqs[i].0 as int, reqs[i].1 as int)
        }
}

/// One more allocation extends a run: the offset it gets is the aligned
/// cursor left by the run so far, and the cursor moves past its range. So an
/// arena on which `allocate` was called with the requests of `reqs`, in
/// order, stands at `cursor_after` of them, and the offsets it returned are
/// their `start_of`.
pub proof fn lemma_run_extend(cursor: int, reqs: Seq<(u64, u64)>, req: (u64, u64))
    ensures
        start_of(cursor, reqs.push(req), reqs.len() as int) == align_up(cursor_after(cursor, reqs), req.1 as int),
        cursor_after(cursor, reqs.push(req)) == start_of(cursor, reqs.push(req), reqs.len() as int) + req.0,
        forall|i: int| 0 <= i < reqs.len() ==> #[trigger] start_of(cursor, reqs.push(req), i) == start_of(cursor, reqs, i),
{
    let ext = reqs.push(req);
    assert(ext.take(reqs.len() as int) =~= reqs);
    assert(ext.drop_last() =~= reqs);
    assert forall|i: int| 0 <= i < reqs.len() implies #[trigger] start_of(cursor, ext, i) == start_of(cursor, reqs, i) by {
        assert(ext.take(i) =~= reqs.take(i));
    }
}

proof fn lemma_cursor_step(cursor: int, reqs: Seq<(u64, u64)>, i: int)
    requires
        0 <= i < reqs.len(),
    ensures
        cursor_after(cursor, reqs.take(i + 1)) == start_of(cursor, reqs, i) + reqs[i].0,
{
    assert(reqs.take(i + 1).drop_last() =~= reqs.take(i));
}

proof fn lemma_cursor_monotone(cursor: int, reqs: Seq<(u64, u64)>, k: int, j: int)
    requires
        0 <= cursor,
        0 <= k <= j <= reqs.len(),
        forall|i: int| 0 <= i < reqs.len() ==> (#[trigger] reqs[i]).1 > 0,
    ensures
        cursor <= cursor_after(cursor, reqs.take(k)) <= cursor_after(cursor, reqs.take(j)),
    decreases j,
{
    if j == 0 {
        assert(reqs.take(0) =~= Seq::<(u64, u64)>::empty());
    } else if k == j {
        lemma_cursor_monotone(cursor, reqs, k - 1, j - 1);
        lemma_cursor_step(cursor, reqs, j - 1);
        lemma_align_up(cursor_after(cursor, reqs.take(j - 1)), reqs[j - 1].1 as int);
    } else {
        lemma_cursor_monotone(cursor, reqs, k, j - 1);
        lemma_cursor_step(cursor, reqs, j - 1);
        lemma_align_up(cursor_after(cursor, reqs.take(j - 1)), reqs[j - 1].1 as int);
    }
}

/// Over any run of allocations on one arena, each returned offset is a
/// multiple of its alignment, each range ends within the capacity, and the
/// ranges come in order without overlapping: a range ends at or before the
/// start of every later one, strictly before it when it is not empty.
pub proof fn lemma_allocation_run(cursor: int, capacity: int, reqs: Seq<(u64, u64)>)
    requires
        0 <= cursor <= capacity,
        all_fit(cursor, capacity, reqs),
    ensures
        forall|i: int|
            0 <= i < reqs.len() ==> #[trigger] start_of(cursor, reqs, i) % (reqs[i].1 as int) == 0,
        forall|i: int|
            0 <= i < reqs.len() ==> #[trigger] start_of(cursor, reqs, i) + reqs[i].0 <= capacity,
        forall|i: int, j: int|
            0 <= i < j < reqs.len() ==> #[trigger] start_of(cursor, reqs, i) + reqs[i].0
                <= #[trigger] start_of(cursor, reqs, j),
        forall|i: int, j: int|
            0 <= i < j < reqs.len() && reqs[i].0 > 0 ==> #[trigger] start_of(cursor, reqs, i)
                < #[trigger] start_of(cursor, reqs, j),
{
    assert forall|i: int| 0 <= i < reqs.len() implies (#[trigger] reqs[i]).1 > 0 by {}
    assert forall|i: int|
        0 <= i < reqs.len() implies #[trigger] start_of(cursor, reqs, i) % (reqs[i].1 as int) == 0
        && start_of(cursor, reqs, i) + reqs[i].0 <= capacity by {
        lemma_cursor_monotone(cursor, reqs, i, i);
        lemma_align_up(cursor_after(cursor, reqs.take(i)), reqs[i].1 as int);
    }
    assert forall|i: int, j: int| 0 <= i < j < reqs.len() implies #[trigger] start_of(cursor, reqs, i)
        + reqs[i].0 <= #[trigger] start_of(cursor, reqs, j) by {
        lemma_cursor_step(cursor, reqs, i);
        lemma_cursor_monotone(cursor, reqs, i + 1, j);
        lemma_align_up(cursor_after(cursor, reqs.take(j)), reqs[j].1 as int);
    }
}

pub struct MegaBuffer {
    buffer: vk::Buffer,
    allocation: Allocation,
    /// Device address of the buffer's first byte, resolved once at creation.
    pub device_address: u64,
    capacity: u64,
    cursor: u64,
}

impl View for MegaBuffer {
    type V = ArenaView;

    closed spec fn view(&self) -> ArenaView {
        ArenaView {
            buffer: self.buffer,
            allocation: self.allocation,
            device_address: self.device_address as int,
            capacity: self.capacity as int,
            cursor: self.cursor as int,
        }
    }
}

impl MegaBuffer {
    /// The cursor never passes the capacity, and every address inside the
    /// buffer is a valid 64-bit address.
    pub closed spec fn wf(&self) -> bool {
        &&& 0 <= self@.cursor <= self@.capacity
        &&& self@.device_address + self@.capacity <= u64::MAX
    }

    /// Wraps a freshly created buffer of `capacity` bytes whose first byte
    /// lives at `device_address`; nothing is allocated from it yet.
    pub fn new(buffer: vk::Buffer, allocation: Allocation, device_address: u64, capacity: u64) -> (r: Self)
        requires
            device_address + capacity <= u64::MAX,
        ensures
            r.wf(),
            r@ == (ArenaView {
                buffer,
                allocation,
                device_address: device_address as int,
                capacity: capacity as int,
                cursor: 0,
            }),
    {
        MegaBuffer { buffer, allocation, device_address, capacity, cursor: 0 }
    }

    /// Whether `allocate(size, align)` has room: the range starting at the
    /// next multiple of `align` ends within the capacity.
    pub fn can_allocate(&self, size: u64, align: u64) -> (r: bool)
        requires
            self.wf(),
            align > 0,
        ensures
            r == fits(self@.cursor, self@.capacity, size as int, align as int),
    {
        let remainder = self.cursor % align;
        let padding = if remainder == 0 { 0 } else { align - remainder };
        padding <= self.capacity - self.cursor && size <= self.capacity - self.cursor - padding
    }

    /// Reserves `size` bytes at the next multiple of `align`, returning the
    /// byte offset of the range and its device address.
    ///
    /// The cursor moves to the end of the range; ranges are never reused.
    pub fn allocate<T>(&mut self, size: u64, align: u64) -> (r: (u64, GpuPtr<T>))
        requires
            old(self).wf(),
            align > 0,
            fits(old(self)@.cursor, old(self)@.capacity, size as int, align as int),
        ensures
            final(self).wf(),
            r.0 == align_up(old(self)@.cursor, align as int),
            r.0 % align == 0,
            old(self)@.cursor <= r.0,
            r.0 + size <= old(self)@.capacity,
            r.1.device_address == old(self)@.device_address + r.0,
            final(self)@ == (ArenaView { cursor: r.0 + size, ..old(self)@ }),
            r.0 == start_of(old(self)@.cursor, seq![(size, align)], 0),
            final(self)@.cursor == cursor_after(old(self)@.cursor, seq![(size, align)]),
    {
        proof {
            lemma_align_up(self.cursor as int, align as int);
            let one = seq![(size, align)];
            assert(one.take(0) =~= Seq::<(u64, u64)>::empty());
            assert(one.drop_last() =~= Seq::<(u64, u64)>::empty());
        }
        let remainder = self.cursor % align;
        let padding = if remainder == 0 { 0 } else { align - remainder };
        let start = self.cursor + padding;
        self.cursor = start + size;
        let ptr_address = self.device_address + start;
        (start, GpuPtr::new(ptr_address))
    }

    /// Whether `len` bytes starting at `offset` lie inside the buffer.
    pub fn can_read(&self, offset: u64, len: u64) -> (r: bool)
        requires
            self.wf(),
        ensures
            r == (offset + len <= self@.capacity),
    {
        offset <= self.capacity && len <= self.capacity - offset
    }

    /// The buffer object, for use as a copy source or destination.
    pub fn buffer_handle(&self) -> (r: vk::Buffer)
        ensures
            r == self@.buffer,
    {
        self.buffer
    }

    /// The device memory behind the buffer.
    pub fn allocation(&self) -> (r: &Allocation)
        ensures
            *r == self@.allocation,
    {
        &self.allocation
    }

    /// Size of the buffer in bytes.
    pub fn capacity(&self) -> (r: u64)
        ensures
            r == self@.capacity,
    {
        self.capacity
    }

    /// First byte not yet handed out.
    pub fn cursor(&self) -> (r: u64)
        ensures
            r == self@.cursor,
    {
        self.cursor
    }

    /// Gives the buffer and its memory back, to be released by the memory
    /// manager; the arena is gone afterwards.
    pub fn destroy(self) -> (r: (vk::Buffer, Allocation))
        ensures
            r.0 == self@.buffer,
            r.1 == self@.allocation,
    {
        (self.buffer, self.allocation)
    }
}

} // verus!
