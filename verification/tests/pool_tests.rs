use sphrosyne::pool::IdPool;

#[test]
fn allocate_counts_up_from_zero() {
    let mut pool: IdPool<u32> = IdPool::new();
    assert_eq!(pool.allocate(10), 0);
    assert_eq!(pool.allocate(11), 1);
    assert_eq!(pool.allocate(12), 2);
    assert!(pool.contains(0));
    assert!(pool.contains(1));
    assert!(pool.contains(2));
    assert!(!pool.contains(3));
}

#[test]
fn allocate_returns_smallest_free_id() {
    let mut pool: IdPool<u32> = IdPool::new();
    assert_eq!(pool.allocate(10), 0);
    assert_eq!(pool.allocate(11), 1);
    assert_eq!(pool.allocate(12), 2);
    assert_eq!(pool.remove(1), Some(11));
    assert_eq!(pool.remove(0), Some(10));
    // Both 0 and 1 are free; the smaller one comes back first.
    assert_eq!(pool.allocate(20), 0);
    assert_eq!(pool.allocate(21), 1);
    assert_eq!(pool.allocate(22), 3);
}

#[test]
fn discarded_id_is_reused() {
    let mut pool: IdPool<u32> = IdPool::new();
    assert_eq!(pool.allocate(10), 0);
    assert_eq!(pool.allocate(11), 1);
    assert_eq!(pool.remove(0), Some(10));
    assert_eq!(pool.allocate(12), 0);
    assert_eq!(*pool.borrow(0), 12);
    assert_eq!(*pool.borrow(1), 11);
}

#[test]
fn double_remove_is_a_no_op() {
    let mut pool: IdPool<u32> = IdPool::new();
    assert_eq!(pool.allocate(10), 0);
    assert_eq!(pool.remove(0), Some(10));
    assert_eq!(pool.remove(0), None);
    assert_eq!(pool.remove(7), None);
}

#[test]
fn remove_keeps_other_entries() {
    let mut pool: IdPool<u32> = IdPool::new();
    assert_eq!(pool.allocate(10), 0);
    assert_eq!(pool.allocate(11), 1);
    assert_eq!(pool.allocate(12), 2);
    assert_eq!(pool.remove(1), Some(11));
    assert!(pool.contains(0));
    assert!(!pool.contains(1));
    assert!(pool.contains(2));
    assert_eq!(*pool.borrow(0), 10);
    assert_eq!(*pool.borrow(2), 12);
}
