use game_engine::object_pool::ObjectPool;

#[test]
fn test_object_pool_allocation() {
    let mut pool: ObjectPool<i32> = ObjectPool::new(10, 0);
    let idx = pool.allocate(42);
    assert!(idx.is_some());
    assert_eq!(*pool.get(idx.unwrap()).unwrap(), 42);
}

#[test]
fn test_object_pool_deallocation() {
    let mut pool: ObjectPool<i32> = ObjectPool::new(10, 0);
    let idx = pool.allocate(42).unwrap();
    pool.deallocate(idx);
    let idx2 = pool.allocate(99).unwrap();
    assert_eq!(idx, idx2);
}

#[test]
fn test_iter_active_only_returns_active() {
    let mut pool: ObjectPool<i32> = ObjectPool::new(10, 0);
    pool.allocate(1).unwrap();
    let idx2 = pool.allocate(2).unwrap();
    pool.deallocate(idx2);

    let active_count = pool.iter_active().len();
    assert_eq!(active_count, 1);
}

#[test]
fn pool_of_ten_grants_ten_then_refuses() {
    let mut pool: ObjectPool<u32> = ObjectPool::new(10, 0);
    for k in 0..10u32 {
        assert!(pool.allocate(k).is_some());
    }
    assert_eq!(pool.allocate(10), None);
}

#[test]
fn freed_slot_is_reused_first() {
    let mut pool: ObjectPool<u32> = ObjectPool::new(10, 0);
    let mut ids = Vec::new();
    for k in 0..10u32 {
        ids.push(pool.allocate(k).unwrap());
    }
    pool.deallocate(ids[3]);
    assert_eq!(pool.allocate(77), Some(ids[3]));
    assert_eq!(*pool.get(ids[3]).unwrap(), 77);
    assert_eq!(pool.allocate(78), None);
}

#[test]
fn fresh_pool_hands_out_highest_index_first() {
    let mut pool: ObjectPool<u8> = ObjectPool::new(4, 0);
    assert_eq!(pool.allocate(1), Some(3));
    assert_eq!(pool.allocate(2), Some(2));
    assert_eq!(pool.allocate(3), Some(1));
    assert_eq!(pool.allocate(4), Some(0));
    assert_eq!(pool.allocate(5), None);
}

#[test]
fn zero_capacity_pool_refuses_everything() {
    let mut pool: ObjectPool<u8> = ObjectPool::new(0, 0);
    assert_eq!(pool.allocate(1), None);
    assert!(pool.get(0).is_none());
    assert!(pool.iter_active().is_empty());
}

#[test]
fn deallocate_is_idempotent() {
    let mut pool: ObjectPool<u8> = ObjectPool::new(3, 0);
    let a = pool.allocate(1).unwrap();
    let b = pool.allocate(2).unwrap();
    pool.deallocate(a);
    pool.deallocate(a);
    pool.deallocate(99);
    assert_eq!(pool.allocate(5), Some(a));
    assert_eq!(pool.iter_active().len(), 2);
    assert_eq!(*pool.get(b).unwrap(), 2);
    // Slot 0 is the last free one.
    assert_eq!(pool.allocate(6), Some(0));
    assert_eq!(pool.allocate(7), None);
}

#[test]
fn inactive_and_out_of_range_slots_are_absent() {
    let mut pool: ObjectPool<u8> = ObjectPool::new(3, 9);
    assert!(pool.get(2).is_none());
    assert!(pool.get(3).is_none());
    assert!(pool.get_mut(1).is_none());
    let a = pool.allocate(4).unwrap();
    pool.deallocate(a);
    assert!(pool.get(a).is_none());
    assert!(pool.get_mut(a).is_none());
}

#[test]
fn get_mut_writes_into_the_slot() {
    let mut pool: ObjectPool<u32> = ObjectPool::new(5, 0);
    let a = pool.allocate(10).unwrap();
    *pool.get_mut(a).unwrap() += 5;
    assert_eq!(*pool.get(a).unwrap(), 15);
}

#[test]
fn iter_active_lists_slots_in_index_order() {
    let mut pool: ObjectPool<char> = ObjectPool::new(5, ' ');
    let a = pool.allocate('a').unwrap();
    let b = pool.allocate('b').unwrap();
    let c = pool.allocate('c').unwrap();
    pool.deallocate(b);
    let listed: Vec<(usize, char)> = pool.iter_active().into_iter().map(|(i, v)| (i, *v)).collect();
    assert_eq!(listed, vec![(c, 'c'), (a, 'a')]);
}

#[test]
fn iter_active_mut_updates_every_active_slot() {
    let mut pool: ObjectPool<u32> = ObjectPool::new(6, 0);
    let a = pool.allocate(1).unwrap();
    let b = pool.allocate(2).unwrap();
    let c = pool.allocate(3).unwrap();
    pool.deallocate(b);
    let mut seen = Vec::new();
    for (i, v) in pool.iter_active_mut() {
        *v *= 10;
        seen.push(i);
    }
    assert_eq!(seen, vec![c, a]);
    assert_eq!(*pool.get(a).unwrap(), 10);
    assert_eq!(*pool.get(c).unwrap(), 30);
    assert!(pool.get(b).is_none());
}
