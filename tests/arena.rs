use ash::vk;
use ash::vk::Handle;
use dream_memory::arena::MegaBuffer;
use gpu_allocator::vulkan::Allocation;

fn arena(base: u64, capacity: u64) -> MegaBuffer {
    MegaBuffer::new(vk::Buffer::from_raw(0x51), Allocation::default(), base, capacity)
}

#[test]
fn two_aligned_allocations_are_padded() {
    let mut a = arena(0x1000_0000, 1024);
    let (o1, p1) = a.allocate::<u8>(10, 16);
    let (o2, p2) = a.allocate::<u8>(10, 16);
    assert_eq!(o1, 0);
    assert_eq!(o2, 16);
    assert_eq!(p1.device_address, 0x1000_0000);
    assert_eq!(p2.device_address, 0x1000_0010);
    assert_eq!(a.cursor(), 26);
}

#[test]
fn exhausted_arena_refuses_allocation() {
    let mut a = arena(0, 100);
    assert!(a.can_allocate(50, 1));
    let (o1, _) = a.allocate::<u32>(50, 1);
    assert_eq!(o1, 0);
    assert!(!a.can_allocate(60, 1));
    assert!(a.can_allocate(50, 1));
    assert_eq!(a.cursor(), 50);
}

#[test]
fn padding_counts_against_capacity() {
    let mut a = arena(0, 32);
    a.allocate::<u8>(1, 1);
    assert!(!a.can_allocate(17, 16));
    assert!(a.can_allocate(16, 16));
    let (o, _) = a.allocate::<u8>(16, 16);
    assert_eq!(o, 16);
    assert!(!a.can_allocate(1, 1));
    assert!(a.can_allocate(0, 1));
}

#[test]
fn allocation_sequence_is_aligned_disjoint_and_increasing() {
    let mut a = arena(0x2000, 4096);
    let reqs: [(u64, u64); 6] = [(3, 1), (10, 8), (1, 64), (100, 4), (7, 256), (0, 32)];
    let mut prev_end = 0u64;
    let mut prev_start: Option<u64> = None;
    for (size, align) in reqs {
        assert!(a.can_allocate(size, align));
        let (start, ptr) = a.allocate::<u64>(size, align);
        assert_eq!(start % align, 0);
        assert!(start >= prev_end);
        assert!(start + size <= a.capacity());
        if let Some(p) = prev_start {
            assert!(start > p);
        }
        assert_eq!(ptr.device_address, 0x2000 + start);
        prev_end = start + size;
        prev_start = Some(start);
    }
    assert_eq!(a.cursor(), prev_end);
}

#[test]
fn handle_keeps_its_address() {
    let mut a = arena(0xABC0_0000, 1 << 20);
    let (start, ptr) = a.allocate::<u32>(64, 16);
    let copy = ptr;
    for _ in 0..10 {
        a.allocate::<u8>(100, 16);
    }
    assert_eq!(ptr.device_address, a.device_address + start);
    assert_eq!(copy.device_address, ptr.device_address);
}

#[test]
fn read_bounds() {
    let a = arena(0, 64);
    assert!(a.can_read(60, 4));
    assert!(!a.can_read(61, 4));
    assert!(!a.can_read(u64::MAX, 2));
}

#[test]
fn buffer_handle_and_destroy_give_back_the_buffer() {
    let a = arena(0, 64);
    assert_eq!(a.buffer_handle().as_raw(), 0x51);
    let (buffer, allocation) = a.destroy();
    assert_eq!(buffer.as_raw(), 0x51);
    assert!(allocation.is_null());
}
