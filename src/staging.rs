//! The staging belt: a host-visible ring that per-frame uploads are written
//! into before the device copies them into the arena. Writes go at a head
//! that only moves forward until the frame's copies have been consumed and
//! the belt is reset.
use crate::align::{align_up, fits, lemma_align_up, padding_to};
use ash::vk;
use gpu_allocator::vulkan::Allocation;
use vstd::prelude::*;

verus! {

/// Every region handed out starts at a multiple of this many bytes, an
/// offset alignment that every device accepts for buffer copies.
pub const STAGING_ALIGN: u64 = 256;

/// What a staging belt is, abstractly: its buffer and the memory bound to
/// it, its size in bytes and the first byte not yet written this frame.
pub ghost struct BeltView {
    pub buffer: vk::Buffer,
    pub allocation: Allocation,
    pub capacity: int,
    pub head: int,
}

/// The state of a belt after `reset`.
pub open spec fn reset_view(v: BeltView) -> BeltView {
    BeltView { head: 0, ..v }
}

/// Where the next region of a belt in state `v` starts.
pub open spec fn next_start(v: BeltView) -> int {
    align_up(v.head, STAGING_ALIGN as int)
}

/// The state of a belt in state `v` after a push of `size` bytes.
pub open spec fn push_view(v: BeltView, size: int) -> BeltView {
    BeltView { head: next_start(v) + size, ..v }
}

/// Whether a push of `size` bytes fits into a belt in state `v`.
pub open spec fn can_push_view(v: BeltView, size: int) -> bool {
    fits(v.head, v.capacity, size, STAGING_ALIGN as int)
}

/// Reset leaves the head at zero and changes nothing else; on an empty belt
/// it changes nothing at all, and doing it twice is doing it once. After a
/// reset the next push starts at offset zero, and it fits exactly when it is
/// no larger than the whole belt.
pub proof fn lemma_reset(v: BeltView, size: int)
    ensures
        reset_view(v).head == 0,
        reset_view(v).buffer == v.buffer,
        reset_view(v).allocation == v.allocation,
        reset_view(v).capacity == v.capacity,
        v.head == 0 ==> reset_view(v) == v,
        reset_view(reset_view(v)) == reset_view(v),
        next_start(reset_view(v)) == 0,
        can_push_view(reset_view(v), size) <==> size <= v.capacity,
{
    assert(0int % (STAGING_ALIGN as int) == 0);
}

pub struct StagingBelt {
    buffer: vk::Buffer,
    allocation: Allocation,
    capacity: u64,
    head: u64,
}

impl View for StagingBelt {
    type V = BeltView;

    closed spec fn view(&self) -> BeltView {
        BeltView { buffer: self.buffer, allocation: self.allocation, capacity: self.capacity as int, head: self.head as int }
    }
}

impl StagingBelt {
    /// The head never passes the capacity.
    pub closed spec fn wf(&self) -> bool {
        self.head <= self.capacity
    }

    /// Wraps a freshly created host-visible buffer of `capacity` bytes.
    pub fn new(buffer: vk::Buffer, allocation: Allocation, capacity: u64) -> (r: Self)
        ensures
            r.wf(),
            r@ == (BeltView { buffer, allocation, capacity: capacity as int, head: 0 }),
    {
        StagingBelt { buffer, allocation, capacity, head: 0 }
    }

    /// Whether `push(size)` has room before the end of the belt.
    pub fn can_push(&self, size: u64) -> (r: bool)
        requires
            self.wf(),
        ensures
            r == can_push_view(self@, size as int),
    {
        let padding = padding_to(self.head, STAGING_ALIGN);
        padding <= self.capacity - self.head && size <= self.capacity - self.head - padding
    }

    /// Reserves `size` bytes at the next multiple of `STAGING_ALIGN` and
    /// returns the buffer and the offset at which the caller writes the bytes
    /// and from which the copy command reads them.
    pub fn push(&mut self, size: u64) -> (r: (vk::Buffer, u64))
        requires
            old(self).wf(),
            can_push_view(old(self)@, size as int),
        ensures
            final(self).wf(),
            r.0 == old(self)@.buffer,
            r.1 == next_start(old(self)@),
            r.1 % STAGING_ALIGN == 0,
            old(self)@.head <= r.1,
            r.1 + size <= old(self)@.capacity,
            final(self)@ == push_view(old(self)@, size as int),
    {
        proof {
            lemma_align_up(self.head as int, STAGING_ALIGN as int);
        }
        let padding = padding_to(self.head, STAGING_ALIGN);
        let start_offset = self.head + padding;
        self.head = start_offset + size;
        (self.buffer, start_offset)
    }

    /// Starts a new frame: the head goes back to the start of the belt.
    ///
    /// Only sound once the device has finished reading every region written
    /// since the previous reset.
    pub fn reset(&mut self)
        requires
            old(self).wf(),
        ensures
            final(self).wf(),
            final(self)@ == reset_view(old(self)@),
    {
        self.head = 0;
    }

    /// The device memory behind the belt, into which pushed bytes are written.
    pub fn allocation(&self) -> (r: &Allocation)
        ensures
            *r == self@.allocation,
    {
        &self.allocation
    }

    /// The device memory behind the belt, for writing pushed bytes into its
    /// mapped range; nothing else about the belt changes.
    pub fn allocation_mut(&mut self) -> (r: &mut Allocation)
        ensures
            *r == old(self)@.allocation,
            final(self)@ == (BeltView { allocation: *final(r), ..old(self)@ }),
            final(self).wf() == old(self).wf(),
    {
        &mut self.allocation
    }

    /// Size of the belt in bytes.
    pub fn capacity(&self) -> (r: u64)
        ensures
            r == self@.capacity,
    {
        self.capacity
    }

    /// First byte not yet written this frame.
    pub fn head(&self) -> (r: u64)
        ensures
            r == self@.head,
    {
        self.head
    }

    /// Gives the buffer and its memory back, to be released by the memory
    /// manager; the belt is gone afterwards.
    pub fn destroy(self) -> (r: (vk::Buffer, Allocation))
        ensures
            r.0 == self@.buffer,
            r.1 == self@.allocation,
    {
        (self.buffer, self.allocation)
    }
}

} // verus!
