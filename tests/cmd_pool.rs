use vrmp::cmd_pool::CmdPool;

/// Submits the current batch, taking a new fence when no spare one is left.
fn submit(pool: &mut CmdPool, next_fence: &mut u64) {
    let fresh = if pool.needs_fence() {
        *next_fence += 1;
        Some(*next_fence)
    } else {
        None
    };
    pool.submit_frame(fresh);
}

#[test]
fn empty_pool_hands_out_nothing() {
    let mut pool = CmdPool::create(vec![], 100);
    assert_eq!(pool.get_buf(), None);
    let mut pool = CmdPool::create(vec![7], 100);
    assert_eq!(pool.get_buf(), Some(7));
    assert_eq!(pool.get_buf(), None);
}

#[test]
fn signaled_batch_returns_its_buffers() {
    let mut pool = CmdPool::create(vec![1, 2, 3, 4], 100);
    let mut next_fence = 100;
    assert_eq!(pool.get_buf(), Some(4));
    assert_eq!(pool.get_buf(), Some(3));
    assert_eq!(pool.current_fence(), 100);
    submit(&mut pool, &mut next_fence);
    assert_eq!(pool.in_flight_fences(), vec![100]);
    assert_eq!(pool.evaluate_active_fences(&vec![false]), Vec::<u64>::new());
    assert_eq!(pool.get_buf(), Some(2));
    // the first batch's fence signals before the second submission
    submit(&mut pool, &mut next_fence);
    assert_eq!(pool.in_flight_fences(), vec![100, 101]);
    assert_eq!(pool.evaluate_active_fences(&vec![true, false]), vec![100]);
    assert_eq!(pool.in_flight_fences(), vec![101]);
    let got = [pool.get_buf(), pool.get_buf(), pool.get_buf()];
    assert_eq!(got, [Some(3), Some(4), Some(1)]);
    assert_eq!(pool.get_buf(), None);
}

#[test]
fn unsignaled_batch_keeps_its_buffers() {
    let mut pool = CmdPool::create(vec![1, 2], 10);
    let mut next_fence = 10;
    assert_eq!(pool.get_buf(), Some(2));
    submit(&mut pool, &mut next_fence);
    assert_eq!(pool.evaluate_active_fences(&vec![false]), Vec::<u64>::new());
    assert_eq!(pool.get_buf(), Some(1));
    assert_eq!(pool.get_buf(), None);
    submit(&mut pool, &mut next_fence);
    assert_eq!(pool.evaluate_active_fences(&vec![false, false]), Vec::<u64>::new());
    assert_eq!(pool.get_buf(), None);
    // only the second batch finishes
    assert_eq!(pool.evaluate_active_fences(&vec![false, true]), vec![11]);
    assert_eq!(pool.get_buf(), Some(1));
    assert_eq!(pool.get_buf(), None);
}

#[test]
fn spare_fence_is_reused() {
    let mut pool = CmdPool::create(vec![1], 5);
    let mut next_fence = 5;
    submit(&mut pool, &mut next_fence);
    assert_eq!(pool.current_fence(), 6);
    assert_eq!(pool.evaluate_active_fences(&vec![true]), vec![5]);
    assert!(!pool.needs_fence());
    submit(&mut pool, &mut next_fence);
    assert_eq!(pool.current_fence(), 5);
    assert_eq!(next_fence, 6);
}

#[test]
fn shutdown_lists_fences() {
    let mut pool = CmdPool::create(vec![1, 2, 3], 20);
    let mut next_fence = 20;
    pool.get_buf();
    submit(&mut pool, &mut next_fence);
    pool.get_buf();
    submit(&mut pool, &mut next_fence);
    assert_eq!(pool.evaluate_active_fences(&vec![true, false]), vec![20]);
    let (wait, destroy) = pool.shutdown();
    assert_eq!(wait, vec![21]);
    assert_eq!(destroy, vec![21, 20, 22]);
    assert!(pool.in_flight_fences().is_empty());
}
