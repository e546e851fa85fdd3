use fastresize::progress::{ProgressMetrics, ProgressState, ProgressTracker, ProgressUpdate};

fn empty_state() -> ProgressState {
    ProgressState::new()
}

#[test]
fn test_progress_tracker_basic() {
    let mut tracker = ProgressTracker::new();

    tracker.start(10, 0);
    let state = tracker.get_state(0);
    assert_eq!(state.total_files, 10);
    assert_eq!(state.completed_files, 0);

    tracker.start_file("test1.jpg".to_string());
    tracker.complete_file(true, 500);

    let state = tracker.get_state(500);
    assert_eq!(state.completed_files, 1);
    assert_eq!(state.completion_percentage, 10);
}

#[test]
fn test_progress_updates() {
    let mut tracker = ProgressTracker::new();

    tracker.start(5, 0);
    let updates = tracker.take_updates();
    assert!(matches!(updates[0], ProgressUpdate::Started { total_files: 5 }));

    tracker.start_file("test.jpg".to_string());
    let updates = tracker.take_updates();
    assert!(matches!(updates[0], ProgressUpdate::FileStarted { .. }));

    tracker.complete_file_with_details(true, 1024, 800 * 600, 100, 100);
    let updates = tracker.take_updates();
    assert!(matches!(updates[0], ProgressUpdate::FileCompleted { success: true, .. }));
}

#[test]
fn test_progress_state_methods() {
    let mut state = ProgressState::new();
    state.total_files = 10;
    state.completed_files = 3;
    state.failed_files = 1;
    state.files_per_second_milli = 2500;

    let status = state.status_text();
    assert!(status.contains("4/10"));

    let speed = state.speed_text();
    assert!(speed.contains("2.5"));
}

#[test]
fn state_texts_exact() {
    let mut state = empty_state();
    state.total_files = 10;
    state.completed_files = 3;
    state.failed_files = 1;
    assert_eq!(state.status_text(), "4/10 files processed");
    state.current_file = Some("a.jpg".to_string());
    assert_eq!(state.status_text(), "Processing: a.jpg (5/10)");
    state.current_file = None;
    state.completion_percentage = 100;
    assert_eq!(state.status_text(), "Completed");

    assert_eq!(state.eta_text(), "Unknown");
    state.estimated_remaining = Some(45_999);
    assert_eq!(state.eta_text(), "45s");
    state.estimated_remaining = Some(125_000);
    assert_eq!(state.eta_text(), "2m 5s");
    state.estimated_remaining = Some(7_380_000);
    assert_eq!(state.eta_text(), "2h 3m");

    state.files_per_second_milli = 0;
    assert_eq!(state.speed_text(), "Unknown");
    state.files_per_second_milli = 500;
    assert_eq!(state.speed_text(), "2.0 sec/file");
    state.files_per_second_milli = 12_340;
    assert_eq!(state.speed_text(), "12.3 files/sec");
}

#[test]
fn test_progress_metrics() {
    let metrics = ProgressMetrics {
        files_per_second_milli: 1500,
        bytes_per_second: 5_000_000,
        pixels_per_second: 10_000_000,
        average_file_size: 2_048_000,
        success_rate: 95,
    };

    let throughput = metrics.throughput_text();
    assert!(throughput.contains("4.8 MB/s"));
    assert!(throughput.contains("10 Mpx/s"));

    let avg_size = metrics.average_size_text();
    assert!(avg_size.contains("2.0 MB"));
}

#[test]
fn metrics_texts_exact() {
    let mut metrics = ProgressMetrics {
        files_per_second_milli: 0,
        bytes_per_second: 5_000_000,
        pixels_per_second: 10_000_000,
        average_file_size: 512_000,
        success_rate: 0,
    };
    assert_eq!(metrics.throughput_text(), "4.8 MB/s, 10 Mpx/s");
    assert_eq!(metrics.average_size_text(), "500 KB");
    metrics.average_file_size = 0;
    assert_eq!(metrics.average_size_text(), "0 KB");
}

#[test]
fn error_reporting_event() {
    let mut tracker = ProgressTracker::new();

    tracker.report_error("bad_file.jpg".to_string(), "Corrupted image".to_string(), 0);

    let updates = tracker.take_updates();
    if let ProgressUpdate::Error { filename, error } = &updates[0] {
        assert_eq!(filename, "bad_file.jpg");
        assert_eq!(error, "Corrupted image");
    } else {
        panic!("Expected Error update");
    }

    let state = tracker.get_state(0);
    assert_eq!(state.failed_files, 0);
    tracker.start(2, 0);
    tracker.report_error("bad_file.jpg".to_string(), "Corrupted image".to_string(), 10);
    assert_eq!(tracker.get_state(10).failed_files, 1);
}

#[test]
fn eta_and_rates() {
    let mut tracker = ProgressTracker::new();
    tracker.start(4, 1000);
    tracker.start_file("a".to_string());
    tracker.complete_file_with_details(true, 2_000_000, 4_000_000, 900, 3000);
    let s = tracker.get_state(3000);
    assert_eq!(s.elapsed_time, 2000);
    assert_eq!(s.completion_percentage, 25);
    assert_eq!(s.files_per_second_milli, 500);
    assert_eq!(s.estimated_remaining, Some(6000));
    assert_eq!(s.bytes_processed, 2_000_000);
    let m = tracker.get_metrics(3000);
    assert_eq!(m.bytes_per_second, 1_000_000);
    assert_eq!(m.pixels_per_second, 2_000_000);
    assert_eq!(m.average_file_size, 2_000_000);
    assert_eq!(m.success_rate, 25);
}

#[test]
fn snapshots_are_idempotent() {
    let mut tracker = ProgressTracker::new();
    tracker.start(3, 0);
    tracker.start_file("a".to_string());
    tracker.complete_file(false, 100);
    let s1 = tracker.get_state(200);
    let s2 = tracker.get_state(200);
    assert_eq!(format!("{:?}", s1), format!("{:?}", s2));
    let s3 = tracker.get_state(400);
    assert_eq!(s3.failed_files, s1.failed_files);
    assert_eq!(s3.completion_percentage, s1.completion_percentage);
    assert!(s3.elapsed_time >= s1.elapsed_time);
}

#[test]
fn batch_completed_event() {
    let mut tracker = ProgressTracker::new();
    tracker.start(1, 0);
    tracker.start_file("a".to_string());
    tracker.complete_file(true, 10);
    tracker.complete_batch(20);
    let updates = tracker.take_updates();
    assert_eq!(updates.len(), 4);
    match &updates[3] {
        ProgressUpdate::BatchCompleted { final_state } => {
            assert_eq!(final_state.completed_files, 1);
            assert_eq!(final_state.elapsed_time, 20);
        },
        other => panic!("unexpected {:?}", other),
    }
    assert!(tracker.take_updates().is_empty());
}

#[test]
fn outbox_keeps_newest_thousand() {
    let mut tracker = ProgressTracker::new();
    for i in 0..1005u64 {
        tracker.start(i, 0);
    }
    let updates = tracker.take_updates();
    assert_eq!(updates.len(), 1000);
    assert!(matches!(updates[0], ProgressUpdate::Started { total_files: 5 }));
}

#[test]
fn complete_file_publishes_event() {
    let mut tracker = ProgressTracker::new();
    tracker.start(2, 0);
    tracker.start_file("a.jpg".to_string());
    let _ = tracker.take_updates();
    tracker.complete_file(false, 5);
    let updates = tracker.take_updates();
    assert_eq!(updates.len(), 1);
    match &updates[0] {
        ProgressUpdate::FileCompleted { filename, success, file_size, .. } => {
            assert_eq!(filename, "a.jpg");
            assert!(!success);
            assert_eq!(*file_size, 0);
        },
        other => panic!("unexpected {:?}", other),
    }
}
