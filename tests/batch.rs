use fastresize::batch::{
    aggregate_results, hybrid_chunk_size, hybrid_chunks, BatchCollector, HybridBatch, BatchProcessingResult, ImageInfo, ProcessingResult, ProcessingStrategy,
};
use fastresize::error::FastResizeError;
use fastresize::format::ImageFormat;

fn info(path: &str, w: u32, h: u32, size: u64, pixels: u64) -> ImageInfo {
    ImageInfo { path: path.to_string(), width: w, height: h, format: ImageFormat::Jpeg, file_size: size, pixel_count: pixels }
}

fn ok_result(input: u64, output: u64, pixels: u64) -> ProcessingResult {
    ProcessingResult {
        input_path: "in.jpg".to_string(),
        output_path: "out.jpg".to_string(),
        original_info: info("in.jpg", 10, 10, input, pixels),
        output_info: info("out.jpg", 5, 5, output, pixels / 4),
        processing_time: 10,
        success: true,
        error: None,
    }
}

#[test]
fn test_processing_strategy_auto() {
    let strategy = ProcessingStrategy::choose_auto(5, 8 * 1024 * 1024 * 1024);
    assert!(matches!(strategy, ProcessingStrategy::Async));

    let strategy = ProcessingStrategy::choose_auto(50, 1 * 1024 * 1024 * 1024);
    assert!(matches!(strategy, ProcessingStrategy::Hybrid));

    let strategy = ProcessingStrategy::choose_auto(150, 8 * 1024 * 1024 * 1024);
    assert!(matches!(strategy, ProcessingStrategy::CpuIntensive));
}

#[test]
fn strategy_auto_boundaries() {
    assert_eq!(ProcessingStrategy::choose_auto(9, 0), ProcessingStrategy::Async);
    assert_eq!(ProcessingStrategy::choose_auto(150, 2 * 1024 * 1024 * 1024 - 1), ProcessingStrategy::Hybrid);
    assert_eq!(ProcessingStrategy::choose_auto(100, 8 * 1024 * 1024 * 1024), ProcessingStrategy::Hybrid);
    assert_eq!(ProcessingStrategy::choose_auto(101, 2 * 1024 * 1024 * 1024), ProcessingStrategy::CpuIntensive);
}

#[test]
fn chunk_sizes() {
    assert_eq!(hybrid_chunk_size(3, 8), 1);
    assert_eq!(hybrid_chunk_size(40, 8), 5);
    assert_eq!(hybrid_chunk_size(1000, 4), 10);
}

#[test]
fn test_batch_processing_result() {
    let result = BatchProcessingResult {
        successful: 10,
        failed: 2,
        successful_results: Vec::new(),
        failed_errors: Vec::new(),
        processing_time: 5000,
        total_input_size: 10_000_000,
        total_output_size: 5_000_000,
        total_pixels_processed: 1_000_000,
        files_per_second_milli: 2000,
        pixels_per_second: 200_000,
    };

    assert_eq!(result.compression_ratio(), 2000);
    assert_eq!(result.size_reduction(), 50_000);
    assert_eq!(result.average_time_per_file(), 500);
}

#[test]
fn batch_ratios_edge_cases() {
    let mut result = BatchProcessingResult {
        successful: 0,
        failed: 0,
        successful_results: Vec::new(),
        failed_errors: Vec::new(),
        processing_time: 5000,
        total_input_size: 0,
        total_output_size: 0,
        total_pixels_processed: 0,
        files_per_second_milli: 0,
        pixels_per_second: 0,
    };
    assert_eq!(result.compression_ratio(), 1000);
    assert_eq!(result.size_reduction(), 0);
    assert_eq!(result.average_time_per_file(), 0);
    result.total_input_size = 100;
    result.total_output_size = 300;
    assert_eq!(result.size_reduction(), 0);
    assert_eq!(result.compression_ratio(), 333);
}

#[test]
fn aggregate_counts_every_item() {
    let mut results: Vec<Result<ProcessingResult, FastResizeError>> = Vec::new();
    for _ in 0..10 {
        results.push(Ok(ok_result(1_000_000, 500_000, 100_000)));
    }
    results.insert(3, Err(FastResizeError::ImageError("bad".to_string())));
    results.push(Err(FastResizeError::IoError("missing".to_string())));
    let batch = aggregate_results(results, 5000);
    assert_eq!(batch.successful, 10);
    assert_eq!(batch.failed, 2);
    assert_eq!(batch.successful + batch.failed, 12);
    assert_eq!(batch.total_input_size, 10_000_000);
    assert_eq!(batch.total_output_size, 5_000_000);
    assert_eq!(batch.total_pixels_processed, 1_000_000);
    assert_eq!(batch.files_per_second_milli, 2000);
    assert_eq!(batch.pixels_per_second, 200_000);
    assert_eq!(batch.compression_ratio(), 2000);
    assert_eq!(batch.size_reduction(), 50_000);
    assert_eq!(batch.average_time_per_file(), 500);
    assert_eq!(batch.failed_errors[0], FastResizeError::ImageError("bad".to_string()));
    assert_eq!(batch.failed_errors[1], FastResizeError::IoError("missing".to_string()));
}

#[test]
fn aggregate_empty_and_zero_time() {
    let batch = aggregate_results(Vec::new(), 0);
    assert_eq!((batch.successful, batch.failed), (0, 0));
    assert_eq!(batch.files_per_second_milli, 0);
    assert_eq!(batch.pixels_per_second, 0);
}

#[test]
fn test_processing_result_metrics() {
    let result = ProcessingResult {
        input_path: "input.jpg".to_string(),
        output_path: "output.jpg".to_string(),
        original_info: ImageInfo {
            path: "input.jpg".to_string(),
            width: 1000,
            height: 800,
            format: ImageFormat::Jpeg,
            file_size: 1000000,
            pixel_count: 800000,
        },
        output_info: ImageInfo {
            path: "output.jpg".to_string(),
            width: 500,
            height: 400,
            format: ImageFormat::Jpeg,
            file_size: 250000,
            pixel_count: 200000,
        },
        processing_time: 1000,
        success: true,
        error: None,
    };

    assert_eq!(result.compression_ratio(), 4000);
    assert_eq!(result.size_reduction(), 75_000);
    assert_eq!(result.pixels_per_second(), 800000);
}

#[test]
fn hybrid_chunks_cover_every_item_once() {
    assert_eq!(hybrid_chunks(0, 4), Vec::<(usize, usize)>::new());
    assert_eq!(hybrid_chunks(7, 2), vec![(0, 3), (3, 6), (6, 7)]);
    let chunks = hybrid_chunks(95, 4);
    assert_eq!(chunks.len(), 10);
    assert_eq!(chunks[9], (90, 95));
    let covered: usize = chunks.iter().map(|(a, b)| b - a).sum();
    assert_eq!(covered, 95);
}

#[test]
fn collector_counts_each_item_once() {
    let mut c = BatchCollector::new(3);
    assert!(c.record(2, Err(FastResizeError::ImageError("x".to_string()))).is_ok());
    assert!(c.record(0, Ok(ok_result(10, 5, 1))).is_ok());
    assert_eq!(
        c.record(0, Ok(ok_result(10, 5, 1))),
        Err(FastResizeError::ParallelError { message: "Item already recorded".to_string() })
    );
    assert_eq!(
        c.record(3, Ok(ok_result(10, 5, 1))),
        Err(FastResizeError::ParallelError { message: "Item index out of range".to_string() })
    );
    assert!(!c.is_complete());
    c.record(1, Ok(ok_result(30, 5, 1))).unwrap();
    assert!(c.is_complete());
    let b = c.finish(100).unwrap();
    assert_eq!((b.successful, b.failed), (2, 1));
    assert_eq!(b.total_input_size, 40);
    assert_eq!(b.successful_results[1].original_info.file_size, 30);
}

#[test]
fn collector_refuses_missing_items() {
    let mut c = BatchCollector::new(2);
    c.record(0, Ok(ok_result(10, 5, 1))).unwrap();
    assert_eq!(
        c.finish(1).unwrap_err(),
        FastResizeError::ParallelError { message: "Batch finished with items missing".to_string() }
    );
}

#[test]
fn hybrid_run_counts_every_item() {
    let mut run = HybridBatch::new(7, 2);
    let mut seen = Vec::new();
    while let Some((start, end)) = run.next_chunk() {
        seen.push((start, end));
        let outcomes: Vec<Result<ProcessingResult, FastResizeError>> = (start..end)
            .map(|i| if i % 3 == 0 { Err(FastResizeError::ImageError("bad".to_string())) } else { Ok(ok_result(10, 5, 1)) })
            .collect();
        run.complete_chunk(outcomes).unwrap();
    }
    assert_eq!(seen, vec![(0, 3), (3, 6), (6, 7)]);
    assert!(run.is_done());
    assert_eq!(
        run.complete_chunk(Vec::new()),
        Err(FastResizeError::ParallelError { message: "No chunk left to complete".to_string() })
    );
    let b = run.finish(70).unwrap();
    assert_eq!((b.successful, b.failed), (4, 3));
}

#[test]
fn hybrid_run_refuses_wrong_counts_and_early_finish() {
    let mut run = HybridBatch::new(4, 4);
    assert_eq!(run.next_chunk(), Some((0, 1)));
    assert_eq!(
        run.complete_chunk(vec![Ok(ok_result(1, 1, 1)), Ok(ok_result(1, 1, 1))]),
        Err(FastResizeError::ParallelError { message: "Chunk outcome count mismatch".to_string() })
    );
    run.complete_chunk(vec![Ok(ok_result(1, 1, 1))]).unwrap();
    assert_eq!(
        run.finish(1).unwrap_err(),
        FastResizeError::ParallelError { message: "Batch finished with items missing".to_string() }
    );
}
