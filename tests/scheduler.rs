use fastresize::error::FastResizeError;
use fastresize::memory::MemoryMonitor;
use fastresize::scheduler::{
    JobPriority, JobStep, QueueStatus, SchedulerConfig, SchedulerOptimizer, SchedulerStats, WorkItem, WorkQueue,
    WorkScheduler,
};

fn config() -> SchedulerConfig {
    SchedulerConfig::default()
}

#[test]
fn test_work_item_creation() {
    let config = SchedulerConfig::default();
    let path = "test.jpg".to_string();

    let small_item = WorkItem::new(1, path.clone(), 500_000, &config, 0); // 500KB
    assert_eq!(small_item.priority, JobPriority::Low);

    let large_item = WorkItem::new(2, path.clone(), 100_000_000, &config, 0); // 100MB
    assert_eq!(large_item.priority, JobPriority::High);

    let medium_item = WorkItem::new(3, path, 5_000_000, &config, 0); // 5MB
    assert_eq!(medium_item.priority, JobPriority::Normal);
}

#[test]
fn test_work_queue() {
    let mut queue = WorkQueue::new();
    let config = SchedulerConfig::default();

    let high_item = WorkItem::new(1, "high.jpg".to_string(), 100_000_000, &config, 0);
    let normal_item = WorkItem::new(2, "normal.jpg".to_string(), 5_000_000, &config, 0);
    let low_item = WorkItem::new(3, "low.jpg".to_string(), 500_000, &config, 0);

    queue.add_item(low_item);
    queue.add_item(high_item);
    queue.add_item(normal_item);

    let next = queue.get_next_item().unwrap();
    assert_eq!(next.priority, JobPriority::High);

    let next = queue.get_next_item().unwrap();
    assert_eq!(next.priority, JobPriority::Normal);

    let next = queue.get_next_item().unwrap();
    assert_eq!(next.priority, JobPriority::Low);

    assert!(queue.get_next_item().is_none());
}

#[test]
fn test_scheduler_config() {
    let config = SchedulerConfig::default();
    assert!(config.max_concurrent > 0);
    assert!(config.target_memory_usage > 0 && config.target_memory_usage <= 100);
    assert!(config.batch_size > 0);
}

#[test]
fn scheduler_config_for_cpus() {
    assert_eq!(SchedulerConfig::for_cpus(4).max_concurrent, 4);
    assert_eq!(SchedulerConfig::for_cpus(64).max_concurrent, 16);
    assert_eq!(SchedulerConfig::for_cpus(8).large_file_threshold, 50 * 1024 * 1024);
}

#[test]
fn test_queue_status() {
    let status = QueueStatus {
        high_priority_count: 2,
        normal_priority_count: 5,
        low_priority_count: 3,
        total_count: 10,
    };

    assert!(!status.is_empty());
    assert_eq!(status.total_count, 10);

    let depth_text = status.depth_by_priority();
    assert!(depth_text.contains("H:2"));
    assert!(depth_text.contains("N:5"));
    assert!(depth_text.contains("L:3"));
    assert_eq!(depth_text, "H:2 N:5 L:3");
}

#[test]
fn test_work_item_estimates() {
    let large_file_size = 50_000_000; // 50MB
    let memory_estimate = WorkItem::estimate_memory_usage(large_file_size);
    assert!(memory_estimate > large_file_size);

    let processing_time = WorkItem::estimate_processing_time(large_file_size);
    assert!(processing_time > 1000);
}

#[test]
fn work_item_estimate_values() {
    assert_eq!(WorkItem::estimate_memory_usage(1000), 40_000);
    assert_eq!(WorkItem::estimate_memory_usage(u64::MAX), u64::MAX);
    assert_eq!(WorkItem::estimate_processing_time(1_000_000), 100);
    assert_eq!(WorkItem::estimate_processing_time(1_000_001), 500);
    assert_eq!(WorkItem::estimate_processing_time(50_000_000), 2000);
    assert_eq!(WorkItem::estimate_processing_time(50_000_001), 5000);
    let item = WorkItem::new(7, "a.jpg".to_string(), 2_000_000, &config(), 100);
    assert_eq!(item.estimated_memory, 80_000_000);
    assert_eq!(item.age(350), 250);
    assert_eq!(item.age(50), 0);
    assert!(!item.is_high_priority());
}

fn scheduler(max_concurrent: usize) -> WorkScheduler {
    let mut cfg = SchedulerConfig::for_cpus(max_concurrent);
    cfg.max_concurrent = max_concurrent;
    WorkScheduler::new(MemoryMonitor::new(Some(1000)), cfg)
}

fn take(s: &mut WorkScheduler) -> WorkItem {
    match s.get_next_job(0, 0) {
        Ok(JobStep::Ready(Some(item))) => item,
        other => panic!("expected a job, got {:?}", other),
    }
}

#[test]
fn three_sizes_drain_high_normal_low() {
    let mut s = scheduler(8);
    let a = s.schedule_job("small.jpg".to_string(), Ok(500 * 1000), 0).unwrap();
    let b = s.schedule_job("medium.jpg".to_string(), Ok(5 * 1000 * 1000), 0).unwrap();
    let c = s.schedule_job("large.jpg".to_string(), Ok(100 * 1000 * 1000), 0).unwrap();
    let status = s.get_queue_status();
    assert_eq!((status.high_priority_count, status.normal_priority_count, status.low_priority_count), (1, 1, 1));
    let first = take(&mut s);
    let second = take(&mut s);
    let third = take(&mut s);
    assert_eq!((first.id, first.priority), (c, JobPriority::High));
    assert_eq!((second.id, second.priority), (b, JobPriority::Normal));
    assert_eq!((third.id, third.priority), (a, JobPriority::Low));
    assert!(matches!(s.get_next_job(0, 0), Ok(JobStep::Ready(None))));
}

#[test]
fn priority_classes_keep_fifo_order() {
    let mut s = scheduler(16);
    let l1 = s.schedule_job("l1".to_string(), Ok(10), 0).unwrap();
    let h1 = s.schedule_job("h1".to_string(), Ok(60_000_000), 0).unwrap();
    let l2 = s.schedule_job("l2".to_string(), Ok(20), 0).unwrap();
    let n1 = s.schedule_job("n1".to_string(), Ok(2_000_000), 0).unwrap();
    let h2 = s.schedule_job("h2".to_string(), Ok(70_000_000), 0).unwrap();
    let order: Vec<u64> = (0..5).map(|_| take(&mut s).id).collect();
    assert_eq!(order, vec![h1, h2, n1, l1, l2]);
}

#[test]
fn schedule_job_size_failure() {
    let mut s = scheduler(2);
    let r = s.schedule_job("gone.jpg".to_string(), Err("no such file".to_string()), 0);
    assert_eq!(r, Err(FastResizeError::SystemError { message: "no such file".to_string() }));
    assert_eq!(s.get_queue_status().total_count, 0);
    assert_eq!(s.get_stats().jobs_queued, 0);
}

#[test]
fn slots_and_timeouts() {
    let mut s = scheduler(1);
    s.schedule_job("a".to_string(), Ok(10), 0).unwrap();
    s.schedule_job("b".to_string(), Ok(10), 0).unwrap();
    let a = take(&mut s);
    assert!(matches!(s.get_next_job(1000, 0), Ok(JobStep::WaitForSlot)));
    let timeout = s.get_next_job(300_000, 0);
    assert_eq!(timeout.unwrap_err(), FastResizeError::SystemError { message: "Timeout waiting for job slot".to_string() });
    s.complete_job(a.id, true, 2000);
    let b = take(&mut s);
    assert_eq!(b.input_path, "b");
    let stats = s.get_stats();
    assert_eq!(stats.jobs_completed, 1);
    assert_eq!(stats.total_processing_time, 2000);
}

#[test]
fn memory_pressure_waits_and_times_out() {
    let mut s = scheduler(4);
    s.schedule_job("a".to_string(), Ok(10), 0).unwrap();
    s.memory_monitor().allocate(800 * 1024 * 1024);
    assert!(matches!(s.get_next_job(0, 0), Ok(JobStep::WaitForMemory)));
    assert!(matches!(s.get_next_job(0, 30_999), Ok(JobStep::WaitForMemory)));
    assert_eq!(s.get_stats().memory_pressure_events, 2);
    let err = s.get_next_job(0, 31_000).unwrap_err();
    assert_eq!(err, FastResizeError::SystemError { message: "Timeout waiting for memory availability".to_string() });
    assert_eq!(s.get_stats().memory_pressure_events, 3);
    assert_eq!(s.get_queue_status().total_count, 1);
    s.memory_monitor().deallocate(800 * 1024 * 1024);
    assert_eq!(take(&mut s).input_path, "a");
}

#[test]
fn clear_and_update_config() {
    let mut s = scheduler(2);
    s.schedule_job("a".to_string(), Ok(10), 0).unwrap();
    s.schedule_job("b".to_string(), Ok(10), 0).unwrap();
    s.schedule_job("c".to_string(), Ok(10), 0).unwrap();
    let a = take(&mut s);
    let _b = take(&mut s);
    assert!(matches!(s.get_next_job(0, 0), Ok(JobStep::WaitForSlot)));
    let mut cfg = s.config();
    cfg.max_concurrent = 3;
    s.update_config(cfg);
    let _c = take(&mut s);
    s.complete_job(a.id, false, 10);
    assert_eq!(s.get_stats().jobs_failed, 1);
    s.schedule_job("d".to_string(), Ok(10), 0).unwrap();
    assert_eq!(s.clear_queue(), 1);
    assert!(s.get_queue_status().is_empty());
}

#[test]
fn optimizer_reduces_and_raises() {
    let cfg = SchedulerConfig::for_cpus(8);
    let mut stats = SchedulerStats {
        jobs_queued: 0,
        jobs_completed: 0,
        jobs_failed: 0,
        total_wait_time: 0,
        total_processing_time: 0,
        average_queue_length: 0,
        memory_pressure_events: 21,
    };
    let reduced = SchedulerOptimizer::tuned_config(&cfg, &stats).unwrap();
    assert_eq!(reduced.max_concurrent, 6);
    assert_eq!(reduced.target_memory_usage, 65);
    stats.memory_pressure_events = 0;
    stats.jobs_completed = 30;
    stats.total_processing_time = 10_000;
    let raised = SchedulerOptimizer::tuned_config(&cfg, &stats).unwrap();
    assert_eq!(raised.max_concurrent, 10);
    stats.jobs_completed = 20;
    assert!(SchedulerOptimizer::tuned_config(&cfg, &stats).is_none());
    let one = SchedulerConfig::for_cpus(1);
    stats.memory_pressure_events = 50;
    assert_eq!(SchedulerOptimizer::tuned_config(&one, &stats).unwrap().max_concurrent, 1);
    assert_eq!(stats.throughput_files_per_second_milli(), 2000);
    stats.total_processing_time = 0;
    assert_eq!(stats.throughput_files_per_second_milli(), 0);
    let optimizer = SchedulerOptimizer::new();
    assert_eq!(optimizer.optimization_interval(), 60_000);
}

#[test]
fn test_scheduler_basic() {
    let memory_monitor = MemoryMonitor::new(Some(1000)); // 1GB
    let config = SchedulerConfig { max_concurrent: 2, ..SchedulerConfig::default() };

    let mut scheduler = WorkScheduler::new(memory_monitor, config);

    let content = b"dummy content";
    let job_id = scheduler.schedule_job("test.jpg".to_string(), Ok(content.len() as u64), 0).unwrap();
    assert!(job_id > 0);

    let queue_status = scheduler.get_queue_status();
    assert_eq!(queue_status.total_count, 1);
}
