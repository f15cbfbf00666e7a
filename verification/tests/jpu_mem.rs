use sg200x_bsp::jpu::layout::{FrameLayout, JpuPixelFormat, JpuScale};
use sg200x_bsp::jpu::mem::JpuMemoryPool;
use sg200x_bsp::jpu::regs::VMEM_PAGE_SIZE;

#[test]
fn init_excludes_alignment_prefix_from_usable_range() {
    let original_base = 0x1003usize;
    let original_size = VMEM_PAGE_SIZE * 3;
    let mut pool = JpuMemoryPool::new();
    pool.init(original_base, original_size);

    assert_eq!(pool.base_addr(), VMEM_PAGE_SIZE);
    assert_eq!(pool.size(), VMEM_PAGE_SIZE * 2);
    assert_eq!(pool.num_pages(), 2);
    assert!(pool.base_addr() + pool.size() <= original_base + original_size);
}

#[test]
fn init_caps_capacity_to_bitmap() {
    let mut pool = JpuMemoryPool::new();
    let bitmap_pages = pool.bitmap_pages();
    pool.init(0x4000, (bitmap_pages + 10) * VMEM_PAGE_SIZE);

    assert_eq!(pool.num_pages(), bitmap_pages);
    assert_eq!(pool.size(), bitmap_pages * VMEM_PAGE_SIZE);
}

#[test]
fn alloc_rejects_zero_and_rounds_up_to_pages() {
    let mut pool = JpuMemoryPool::new();
    pool.init(0x4000, VMEM_PAGE_SIZE * 2);

    assert!(pool.allocate(0).is_none());
    let buffer = pool.allocate(VMEM_PAGE_SIZE + 1).expect("two pages fit");
    assert_eq!(buffer.addr, 0x4000);
    assert_eq!(buffer.size, VMEM_PAGE_SIZE * 2);
    assert!(pool.allocate(1).is_none());
}

#[test]
fn allocator_reuses_a_freed_contiguous_run() {
    let mut pool = JpuMemoryPool::new();
    pool.init(0x4000, VMEM_PAGE_SIZE * 4);

    let first = pool.allocate(VMEM_PAGE_SIZE * 2).expect("first run");
    let first_addr = first.addr;
    let second = pool.allocate(VMEM_PAGE_SIZE * 2).expect("second run");
    assert_eq!(second.addr, first_addr + VMEM_PAGE_SIZE * 2);
    pool.free(first);

    let reused = pool.allocate(VMEM_PAGE_SIZE * 2).expect("freed run");
    assert_eq!(reused.addr, first_addr);
}

#[test]
fn pair_allocation_rolls_back_when_second_buffer_does_not_fit() {
    let mut pool = JpuMemoryPool::new();
    pool.init(0x4000, VMEM_PAGE_SIZE * 3);

    assert!(
        pool.alloc_pair(VMEM_PAGE_SIZE * 2, VMEM_PAGE_SIZE * 2)
            .is_none()
    );
    let whole_pool = pool
        .allocate(VMEM_PAGE_SIZE * 3)
        .expect("failed pair must release its first allocation");
    assert_eq!(whole_pool.addr, 0x4000);
    assert_eq!(whole_pool.size, VMEM_PAGE_SIZE * 3);
}

#[test]
fn half_scale_large_fixture_and_actual_stream_fit_one_mib_pool() {
    let layout = FrameLayout::new(1279, 1706, JpuPixelFormat::Yuv420, JpuScale::Half)
        .expect("valid half-scale layout");
    let mut pool = JpuMemoryPool::new();
    pool.init(0x4000, 1024 * 1024);

    let (frame, stream) = pool
        .alloc_pair(layout.total_len, 110 * 1024)
        .expect("half-scale frame and representative JPEG stream fit");
    assert_eq!(frame.size, 51 * VMEM_PAGE_SIZE);
    assert_eq!(stream.size, 7 * VMEM_PAGE_SIZE);
    assert!(frame.size + stream.size <= 1024 * 1024);
}

#[test]
fn freeing_every_buffer_restores_the_whole_pool() {
    let mut pool = JpuMemoryPool::new();
    pool.init(0x8000, VMEM_PAGE_SIZE * 5);
    let a = pool.allocate(VMEM_PAGE_SIZE).unwrap();
    let b = pool.allocate(VMEM_PAGE_SIZE * 3).unwrap();
    assert!(a.addr + a.size <= b.addr);
    assert!(pool.allocate(VMEM_PAGE_SIZE * 2).is_none());
    pool.free(b);
    pool.free(a);
    let all = pool.allocate(VMEM_PAGE_SIZE * 5).unwrap();
    assert_eq!((all.addr, all.size), (0x8000, VMEM_PAGE_SIZE * 5));
}

#[test]
fn misaligned_pool_rounds_base_up() {
    let mut pool = JpuMemoryPool::new();
    pool.init(VMEM_PAGE_SIZE + 1, VMEM_PAGE_SIZE);
    assert_eq!(pool.base_addr(), VMEM_PAGE_SIZE * 2);
    assert_eq!(pool.num_pages(), 0);
    assert!(pool.allocate(1).is_none());
}
