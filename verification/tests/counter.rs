use mouse_cache_alloc::SizeAllocator;

#[test]
fn new_counter_is_zero() {
    let allocator = SizeAllocator::new();
    assert_eq!(allocator.size(), 0);
}

#[test]
fn allocate_adds_the_usable_size() {
    let mut allocator = SizeAllocator::new();
    let returned = allocator.allocate(0x1000, 24);
    assert_eq!(returned, 0x1000);
    assert_eq!(allocator.size(), 24);
    let returned = allocator.allocate(0x2000, 104);
    assert_eq!(returned, 0x2000);
    assert_eq!(allocator.size(), 128);
}

#[test]
fn allocate_zeroed_adds_the_usable_size() {
    let mut allocator = SizeAllocator::new();
    let returned = allocator.alloc_zeroed(0x3000, 40);
    assert_eq!(returned, 0x3000);
    assert_eq!(allocator.size(), 40);
}

#[test]
fn allocate_of_zero_usable_bytes_keeps_the_value() {
    let mut allocator = SizeAllocator::new();
    allocator.allocate(0x1000, 24);
    let returned = allocator.allocate(0x2000, 0);
    assert_eq!(returned, 0x2000);
    assert_eq!(allocator.size(), 24);
}

#[test]
fn failed_allocate_returns_null_and_keeps_the_counter() {
    let mut allocator = SizeAllocator::new();
    allocator.allocate(0x1000, 24);
    let returned = allocator.allocate(0, 4096);
    assert_eq!(returned, 0);
    assert_eq!(allocator.size(), 24);
    let returned = allocator.alloc_zeroed(0, 4096);
    assert_eq!(returned, 0);
    assert_eq!(allocator.size(), 24);
}

#[test]
fn dealloc_subtracts_the_usable_size() {
    let mut allocator = SizeAllocator::new();
    allocator.allocate(0x1000, 24);
    allocator.allocate(0x2000, 104);
    allocator.dealloc(0x1000, 24);
    assert_eq!(allocator.size(), 104);
    allocator.dealloc(0x2000, 104);
    assert_eq!(allocator.size(), 0);
}

#[test]
fn realloc_that_moves_and_grows_adds_the_difference() {
    let mut allocator = SizeAllocator::new();
    allocator.allocate(0x1000, 24);
    let returned = allocator.realloc(0x1000, 24, 0x5000, 136);
    assert_eq!(returned, 0x5000);
    assert_eq!(allocator.size(), 136);
}

#[test]
fn realloc_that_moves_and_shrinks_subtracts_the_difference() {
    let mut allocator = SizeAllocator::new();
    allocator.allocate(0x1000, 24);
    allocator.allocate(0x2000, 520);
    let returned = allocator.realloc(0x2000, 520, 0x6000, 40);
    assert_eq!(returned, 0x6000);
    assert_eq!(allocator.size(), 64);
}

#[test]
fn realloc_that_moves_to_an_equal_size_keeps_the_value() {
    let mut allocator = SizeAllocator::new();
    allocator.allocate(0x1000, 24);
    let returned = allocator.realloc(0x1000, 24, 0x7000, 24);
    assert_eq!(returned, 0x7000);
    assert_eq!(allocator.size(), 24);
}

#[test]
fn realloc_in_place_keeps_the_counter_even_if_the_size_changed() {
    let mut allocator = SizeAllocator::new();
    allocator.allocate(0x1000, 24);
    let returned = allocator.realloc(0x1000, 24, 0x1000, 56);
    assert_eq!(returned, 0x1000);
    assert_eq!(allocator.size(), 24);
    let returned = allocator.realloc(0x1000, 56, 0x1000, 8);
    assert_eq!(returned, 0x1000);
    assert_eq!(allocator.size(), 24);
}

#[test]
fn counter_drifts_after_a_resize_in_place() {
    let mut allocator = SizeAllocator::new();
    allocator.allocate(0x1000, 56);
    allocator.realloc(0x1000, 56, 0x1000, 24);
    allocator.dealloc(0x1000, 24);
    assert_eq!(allocator.size(), 32);
}

#[test]
fn counter_wraps_below_zero_after_a_growth_in_place() {
    let mut allocator = SizeAllocator::new();
    allocator.allocate(0x1000, 16);
    allocator.realloc(0x1000, 16, 0x1000, 32);
    allocator.dealloc(0x1000, 32);
    assert_eq!(allocator.size(), usize::MAX - 15);
}

#[test]
fn failed_realloc_returns_null_and_keeps_the_counter() {
    let mut allocator = SizeAllocator::new();
    allocator.allocate(0x1000, 24);
    let returned = allocator.realloc(0x1000, 24, 0, 0);
    assert_eq!(returned, 0);
    assert_eq!(allocator.size(), 24);
    let returned = allocator.realloc(0x1000, 24, 0, 4096);
    assert_eq!(returned, 0);
    assert_eq!(allocator.size(), 24);
}

#[test]
fn counter_returns_to_its_start_when_every_block_is_freed() {
    let mut allocator = SizeAllocator::new();
    allocator.allocate(0x9000, 72);
    let start = allocator.size();
    allocator.allocate(0x1000, 24);
    allocator.alloc_zeroed(0x2000, 104);
    allocator.dealloc(0x1000, 24);
    allocator.allocate(0x1000, 40);
    allocator.allocate(0, 4096);
    allocator.alloc_zeroed(0x3000, 4104);
    allocator.dealloc(0x3000, 4104);
    allocator.dealloc(0x2000, 104);
    allocator.dealloc(0x1000, 40);
    assert_eq!(allocator.size(), start);
    assert_eq!(start, 72);
}

#[test]
fn counter_returns_to_its_start_across_moves() {
    let mut allocator = SizeAllocator::new();
    allocator.allocate(0x1000, 24);
    allocator.realloc(0x1000, 24, 0x4000, 264);
    allocator.realloc(0x4000, 264, 0x1000, 40);
    allocator.realloc(0x1000, 40, 0, 0);
    allocator.dealloc(0x1000, 40);
    assert_eq!(allocator.size(), 0);
}

#[test]
fn counter_is_the_sum_of_the_live_blocks_at_every_point() {
    let mut allocator = SizeAllocator::new();
    allocator.allocate(0x1000, 24);
    assert_eq!(allocator.size(), 24);
    allocator.allocate(0x2000, 40);
    assert_eq!(allocator.size(), 24 + 40);
    allocator.realloc(0x1000, 24, 0x3000, 72);
    assert_eq!(allocator.size(), 72 + 40);
    allocator.dealloc(0x2000, 40);
    assert_eq!(allocator.size(), 72);
    allocator.alloc_zeroed(0x2000, 8);
    assert_eq!(allocator.size(), 72 + 8);
    allocator.dealloc(0x3000, 72);
    assert_eq!(allocator.size(), 8);
    allocator.dealloc(0x2000, 8);
    assert_eq!(allocator.size(), 0);
}

#[test]
fn counter_wraps_around_at_the_top() {
    let mut allocator = SizeAllocator::new();
    allocator.allocate(0x1000, usize::MAX);
    assert_eq!(allocator.size(), usize::MAX);
    allocator.allocate(0x2000, 3);
    assert_eq!(allocator.size(), 2);
    allocator.dealloc(0x2000, 3);
    assert_eq!(allocator.size(), usize::MAX);
}

#[test]
fn counter_wraps_around_at_the_bottom() {
    let mut allocator = SizeAllocator::new();
    allocator.dealloc(0x1000, 1);
    assert_eq!(allocator.size(), usize::MAX);
    allocator.allocate(0x1000, 1);
    assert_eq!(allocator.size(), 0);
}
