use rhai_repl::arena::HeapArena;
use rhai_repl::BootError;

#[test]
fn zero_size_is_rejected() {
    match HeapArena::try_init(0) {
        Err(e) => assert_eq!(e, BootError::ZeroHeapSize),
        Ok(_) => panic!("size 0 must be rejected"),
    }
}

#[test]
fn fresh_arena_is_empty() {
    let a = HeapArena::try_init(100).expect("init");
    assert_eq!(a.used(), 0);
    assert_eq!(a.free(), 100);
    assert_eq!(a.total(), 100);
}

#[test]
fn allocation_succeeds_exactly_within_free_space() {
    let mut a = HeapArena::try_init(100).expect("init");
    assert!(a.allocate(60));
    assert!(!a.allocate(50));
    assert_eq!(a.used(), 60);
    assert!(a.allocate(40));
    assert_eq!(a.free(), 0);
}

#[test]
fn stats_stay_bounded_across_allocations() {
    let mut a = HeapArena::try_init(1000).expect("init");
    let moves: [(bool, usize); 6] = [
        (true, 300),
        (true, 700),
        (false, 200),
        (true, 150),
        (false, 800),
        (true, 800),
    ];
    for (is_alloc, n) in moves {
        if is_alloc {
            a.allocate(n);
        } else {
            a.release(n);
        }
        let (used, free) = a.heap_stats();
        assert!(used + free <= 1000);
    }
    let (used, free) = a.heap_stats();
    assert_eq!((used, free), (950, 50));
}
