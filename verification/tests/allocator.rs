use ecs_kernel::ecs::EntityAllocator;

#[test]
fn fresh_allocator_counts_up_from_zero() {
    let mut alloc = EntityAllocator::default();
    assert_eq!(alloc.create(), 0);
    assert_eq!(alloc.create(), 1);
    assert_eq!(alloc.create(), 2);
}

#[test]
fn destroy_then_create_reuses_the_identifier() {
    let mut alloc = EntityAllocator::default();
    let a = alloc.create();
    let b = alloc.create();
    let c = alloc.create();
    assert_eq!((a, b, c), (0, 1, 2));
    alloc.destroy(b);
    assert_eq!(alloc.create(), 1);
}

#[test]
fn reuse_is_most_recently_destroyed_first() {
    let mut alloc = EntityAllocator::default();
    for _ in 0..4 {
        alloc.create();
    }
    alloc.destroy(0);
    alloc.destroy(2);
    assert_eq!(alloc.create(), 2);
    assert_eq!(alloc.create(), 0);
    // Recycled entries exhausted: the counter takes over again.
    assert_eq!(alloc.create(), 4);
}

#[test]
fn fresh_identifiers_keep_increasing_after_reuse() {
    let mut alloc = EntityAllocator::default();
    assert_eq!(alloc.create(), 0);
    assert_eq!(alloc.create(), 1);
    alloc.destroy(0);
    assert_eq!(alloc.create(), 0);
    // `next` never went down: the next fresh identifier is 2, not 1.
    assert_eq!(alloc.create(), 2);
    assert_eq!(alloc.create(), 3);
}

#[test]
fn live_identifiers_are_unique_without_double_destroy() {
    let mut alloc = EntityAllocator::default();
    let mut live: Vec<u32> = Vec::new();
    for _ in 0..5 {
        live.push(alloc.create());
    }
    // Destroy two live identifiers, then create three more.
    let e = live.remove(1);
    alloc.destroy(e);
    let e = live.remove(2);
    alloc.destroy(e);
    for _ in 0..3 {
        live.push(alloc.create());
    }
    for i in 0..live.len() {
        for j in (i + 1)..live.len() {
            assert_ne!(live[i], live[j]);
        }
    }
}

#[test]
fn double_destroy_hands_the_identifier_out_twice() {
    // The baseline allocator recycles unconditionally: destroying the same
    // identifier twice makes two later creates both return it.
    let mut alloc = EntityAllocator::default();
    let a = alloc.create();
    alloc.destroy(a);
    alloc.destroy(a);
    assert_eq!(alloc.create(), a);
    assert_eq!(alloc.create(), a);
}

#[test]
fn destroy_of_a_never_issued_identifier_is_recycled_too() {
    let mut alloc = EntityAllocator::default();
    alloc.destroy(7);
    assert_eq!(alloc.create(), 7);
    assert_eq!(alloc.create(), 0);
}
