use fastresize::memory::{BufferSize, MemoryMonitor, MemoryPool, MemoryTracker};

#[test]
fn test_memory_pool_basic() {
    let mut pool = MemoryPool::new();

    // Acquire and release a buffer
    {
        let buffer = pool.acquire_buffer(1024);
        assert_eq!(buffer.len(), 1024);
        pool.release(buffer);
    }

    // Should have reused the buffer
    {
        let buffer = pool.acquire_buffer(512);
        assert!(buffer.len() >= 512);
        pool.release(buffer);
    }

    let stats = pool.stats();
    assert!(stats.small_allocated > 0 || stats.small_reused > 0);
}

#[test]
fn test_buffer_size_categories() {
    let mut pool = MemoryPool::new();

    let small = pool.acquire_buffer(1024);
    let medium = pool.acquire_buffer(5 * 1024 * 1024);
    let large = pool.acquire_buffer(50 * 1024 * 1024);

    assert_eq!(small.len(), 1024);
    assert_eq!(medium.len(), 5 * 1024 * 1024);
    assert_eq!(large.len(), 50 * 1024 * 1024);
}

#[test]
fn test_memory_monitor() {
    let mut monitor = MemoryMonitor::new(Some(100)); // 100MB limit

    assert!(monitor.can_allocate(50 * 1024 * 1024));
    assert!(!monitor.can_allocate(150 * 1024 * 1024));

    monitor.allocate(50 * 1024 * 1024);
    assert_eq!(monitor.usage_percentage(), 50);

    monitor.deallocate(25 * 1024 * 1024);
    assert_eq!(monitor.usage_percentage(), 25);
}

#[test]
fn monitor_scenario_hundred_megabytes() {
    let mut monitor = MemoryMonitor::new(Some(100));
    monitor.allocate(50 * 1024 * 1024);
    assert_eq!(monitor.usage_percentage(), 50);
    monitor.deallocate(25 * 1024 * 1024);
    assert_eq!(monitor.usage_percentage(), 25);
    assert!(!monitor.can_allocate(80 * 1024 * 1024));
    assert!(monitor.can_allocate(75 * 1024 * 1024));
}

#[test]
fn test_memory_tracker() {
    let mut monitor = MemoryMonitor::new(Some(100)); // 100MB
    let size = 50 * 1024 * 1024;

    {
        let tracker = MemoryTracker::new(&mut monitor, size).unwrap();
        assert_eq!(monitor.current_usage(), size);
        tracker.release(&mut monitor);
    }

    assert_eq!(monitor.current_usage(), 0);
}

#[test]
fn tracker_refused_over_ceiling() {
    let mut monitor = MemoryMonitor::new(Some(1));
    assert!(MemoryTracker::new(&mut monitor, 2 * 1024 * 1024).is_none());
    assert_eq!(monitor.current_usage(), 0);
}

#[test]
fn paired_accounting_returns_to_zero() {
    let mut monitor = MemoryMonitor::new(Some(10));
    monitor.allocate(300);
    monitor.allocate(700);
    monitor.deallocate(300);
    monitor.deallocate(700);
    assert_eq!(monitor.current_usage(), 0);
    // unmatched release never goes below zero
    monitor.deallocate(5);
    assert_eq!(monitor.current_usage(), 0);
}

#[test]
fn monitor_pressure_and_ceiling() {
    let mut monitor = MemoryMonitor::new(Some(1));
    assert_eq!(monitor.max_usage(), 1024 * 1024);
    assert!(!monitor.is_memory_pressure());
    monitor.allocate(1024 * 1024 * 81 / 100 + 1);
    assert!(monitor.is_memory_pressure());
    monitor.allocate(10 * 1024 * 1024);
    assert_eq!(monitor.usage_percentage(), 100);
}

#[test]
fn monitor_from_available_memory() {
    let m = MemoryMonitor::from_available_memory(8 * 1024 * 1024 * 1024);
    assert_eq!(m.max_usage(), 6144 * 1024 * 1024);
    let small = MemoryMonitor::from_available_memory(100 * 1024 * 1024);
    assert_eq!(small.max_usage(), 512 * 1024 * 1024);
    let auto = MemoryMonitor::new(None);
    assert!(auto.max_usage() >= 512 * 1024 * 1024);
}

#[test]
fn test_managed_buffer_operations() {
    let mut pool = MemoryPool::new();
    let mut buffer = pool.acquire_buffer(1024);

    assert_eq!(buffer.len(), 1024);
    assert!(!buffer.is_empty());

    buffer.resize(2048, 255);
    assert_eq!(buffer.len(), 2048);
    assert_eq!(buffer.as_slice()[2047], 255);
    assert!(buffer.capacity() >= 2048);

    let slice = buffer.as_slice();
    assert_eq!(slice.len(), 2048);

    let mut_slice = buffer.as_mut_slice();
    mut_slice[0] = 100;
    assert_eq!(buffer.as_slice()[0], 100);
}

#[test]
fn test_pool_statistics() {
    let mut pool = MemoryPool::new();

    let buffer1 = pool.acquire_buffer(1024);
    let buffer2 = pool.acquire_buffer(2048);

    let stats = pool.stats();
    assert!(stats.small_allocated >= 2);

    pool.release(buffer1);
    let buffer3 = pool.acquire_buffer(1024);

    let stats = pool.stats();
    assert!(stats.small_reused >= 1);
    assert!(stats.total_memory_saved >= 1024);
    pool.release(buffer2);
    pool.release(buffer3);
}

#[test]
fn pool_reuse_counts_reuse_not_allocation() {
    let mut pool = MemoryPool::new();
    let first = pool.acquire_buffer(4096);
    pool.release(first);
    let before = pool.stats();
    let second = pool.acquire_buffer(1000);
    let after = pool.stats();
    assert_eq!(after.small_reused, before.small_reused + 1);
    assert_eq!(after.small_allocated, before.small_allocated);
    assert_eq!(after.total_memory_saved, before.total_memory_saved + 1000);
    assert_eq!(second.len(), 1000);
    assert_eq!(second.capacity(), 4096);
}

#[test]
fn pool_too_small_buffer_stays_listed() {
    let mut pool = MemoryPool::new();
    let a = pool.acquire_buffer(100);
    pool.release(a);
    let b = pool.acquire_buffer(200);
    let stats = pool.stats();
    assert_eq!(stats.small_allocated, 2);
    assert_eq!(stats.small_reused, 0);
    pool.release(b);
    assert_eq!(pool.current_memory_usage(), 300);
}

#[test]
fn pool_discards_oversized_and_clears() {
    let mut pool = MemoryPool::new();
    let huge = pool.acquire_buffer(101 * 1024 * 1024);
    pool.release(huge);
    assert_eq!(pool.current_memory_usage(), 0);
    let m = pool.acquire_buffer(2 * 1024 * 1024);
    pool.release(m);
    assert_eq!(pool.current_memory_usage(), 2 * 1024 * 1024);
    pool.clear();
    assert_eq!(pool.current_memory_usage(), 0);
    let _ = BufferSize::Medium;
}

#[test]
fn pool_small_class_caps_at_one_hundred() {
    let mut pool = MemoryPool::new();
    let mut held = Vec::new();
    for _ in 0..101 {
        held.push(pool.acquire_buffer(10));
    }
    for b in held {
        pool.release(b);
    }
    assert_eq!(pool.current_memory_usage(), 1000);
}

#[test]
fn pool_scans_past_a_small_front_buffer() {
    let mut pool = MemoryPool::new();
    let small = pool.acquire_buffer(100);
    pool.release(small);
    let big = pool.acquire_buffer(1024);
    pool.release(big);
    assert_eq!(pool.current_memory_usage(), 1124);
    let before = pool.stats();
    let again = pool.acquire_buffer(512);
    let after = pool.stats();
    assert_eq!(after.small_reused, before.small_reused + 1);
    assert_eq!(after.small_allocated, before.small_allocated);
    assert_eq!(again.capacity(), 1024);
    assert_eq!(again.len(), 512);
    assert_eq!(pool.current_memory_usage(), 100);
}
