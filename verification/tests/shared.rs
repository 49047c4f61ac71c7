use std::sync::atomic::AtomicUsize;
use std::sync::atomic::Ordering;

use mouse_cache_alloc::Adjustment;
use mouse_cache_alloc::Event;
use mouse_cache_alloc::SizeAllocator;

#[test]
fn publish_grow_adds_to_the_shared_counter() {
    let counter = AtomicUsize::new(17);
    Adjustment::Grow(5).publish(&counter);
    assert_eq!(counter.load(Ordering::SeqCst), 22);
}

#[test]
fn publish_shrink_subtracts_from_the_shared_counter() {
    let counter = AtomicUsize::new(17);
    Adjustment::Shrink(5).publish(&counter);
    assert_eq!(counter.load(Ordering::SeqCst), 12);
}

#[test]
fn publish_keep_leaves_the_shared_counter() {
    let counter = AtomicUsize::new(17);
    Adjustment::Keep.publish(&counter);
    assert_eq!(counter.load(Ordering::SeqCst), 17);
}

#[test]
fn publish_wraps_around() {
    let counter = AtomicUsize::new(usize::MAX);
    Adjustment::Grow(2).publish(&counter);
    assert_eq!(counter.load(Ordering::SeqCst), 1);
    Adjustment::Shrink(2).publish(&counter);
    assert_eq!(counter.load(Ordering::SeqCst), usize::MAX);
}

#[test]
fn shared_counter_agrees_with_a_single_owner() {
    let events = vec![
        Event::Allocate { ptr: 0x1000, usable: 24 },
        Event::Allocate { ptr: 0, usable: 4096 },
        Event::Allocate { ptr: 0x2000, usable: 104 },
        Event::Reallocate { ptr: 0x1000, old_usable: 24, new_ptr: 0x3000, new_usable: 520 },
        Event::Reallocate { ptr: 0x2000, old_usable: 104, new_ptr: 0x2000, new_usable: 120 },
        Event::Reallocate { ptr: 0x3000, old_usable: 520, new_ptr: 0, new_usable: 0 },
        Event::Reallocate { ptr: 0x3000, old_usable: 520, new_ptr: 0x1000, new_usable: 40 },
        Event::Deallocate { ptr: 0x1000, usable: 40 },
    ];
    let shared = AtomicUsize::new(0);
    let mut owned = SizeAllocator::new();
    for event in events {
        event.adjustment().publish(&shared);
        match event {
            Event::Allocate { ptr, usable } => {
                owned.allocate(ptr, usable);
            }
            Event::Reallocate { ptr, old_usable, new_ptr, new_usable } => {
                owned.realloc(ptr, old_usable, new_ptr, new_usable);
            }
            Event::Deallocate { ptr, usable } => {
                owned.dealloc(ptr, usable);
            }
        }
        assert_eq!(shared.load(Ordering::SeqCst), owned.size());
    }
    assert_eq!(owned.size(), 104);
}
