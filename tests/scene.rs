use dream_memory::gpu_ptr::GpuPtr;
use dream_memory::morton::encode_morton_3d;
use dream_memory::seed::{SeedFileHeader, SEED_MAGIC, SEED_VERSION};

#[test]
fn morton_interleaves_bits() {
    assert_eq!(encode_morton_3d(0, 0, 0), 0);
    assert_eq!(encode_morton_3d(1, 0, 0), 1);
    assert_eq!(encode_morton_3d(0, 1, 0), 2);
    assert_eq!(encode_morton_3d(0, 0, 1), 4);
    assert_eq!(encode_morton_3d(1, 1, 1), 7);
    assert_eq!(encode_morton_3d(2, 0, 0), 8);
    assert_eq!(encode_morton_3d(3, 5, 6), 0b110_101_011);
}

#[test]
fn morton_keeps_21_bits_per_axis() {
    let full = 0x1F_FFFF;
    assert_eq!(encode_morton_3d(full, full, full), (1u64 << 63) - 1);
    assert_eq!(encode_morton_3d(u32::MAX, 0, 0), 0x1249_2492_4924_9249);
    assert_eq!(encode_morton_3d(1 << 21, 1 << 22, 1 << 31), 0);
    assert_eq!(encode_morton_3d(1 << 20, 0, 0), 1 << 60);
    assert_eq!(encode_morton_3d(0, 0, 1 << 20), 1 << 62);
}

#[test]
fn morton_orders_nearby_points_together() {
    let a = encode_morton_3d(10, 10, 10);
    let b = encode_morton_3d(11, 10, 10);
    let far = encode_morton_3d(1000, 10, 10);
    assert!(a < b && b < far);
}

#[test]
fn gpu_ptr_is_a_plain_address() {
    let p: GpuPtr<f32> = GpuPtr::new(0xFFFF_0000_1234_5678);
    let q = p;
    let r = p.clone();
    assert_eq!(q.device_address, 0xFFFF_0000_1234_5678);
    assert_eq!(r.device_address, p.device_address);
    assert_eq!(std::mem::size_of::<GpuPtr<[u8; 64]>>(), 8);
}

#[test]
fn seed_header_for_vertices() {
    let h = SeedFileHeader::new(1234);
    assert_eq!(&h.magic, b"SEED");
    assert_eq!(SEED_MAGIC, *b"SEED");
    assert_eq!(h.version, SEED_VERSION);
    assert_eq!(h.version, 2030);
    assert_eq!(h.vertex_count, 1234);
    assert_eq!((h.index_count, h.bvh_offset, h.material_ptr), (0, 0, 0));
}
