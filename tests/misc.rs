use fastresize::cli::parse_dimensions;
use fastresize::error::{ErrorContext, FastResizeError};
use fastresize::format::ImageFormat;
use fastresize::resize::{calculate_memory_usage, is_memory_intensive, suggest_filter, FilterType, ImageResizer};
use fastresize::validation::{BatchValidator, ImageValidator, ProcessingEngine};
use fastresize::VERSION;

#[test]
fn test_version_is_set() {
    assert!(!VERSION.is_empty());
    assert!(VERSION.contains('.'));
}

#[test]
fn test_error_creation() {
    let err = FastResizeError::config("test message".to_string());
    assert!(matches!(err, FastResizeError::ConfigError { .. }));
}

#[test]
fn test_recoverable_errors() {
    assert!(FastResizeError::validation("test".to_string(), None).is_recoverable());
    assert!(!FastResizeError::out_of_memory("test".to_string()).is_recoverable());
}

#[test]
fn recoverability_by_kind() {
    assert!(FastResizeError::file_too_large(1, 0, "a".to_string()).is_recoverable());
    assert!(FastResizeError::timeout(5, None).is_recoverable());
    assert!(!FastResizeError::system("x".to_string()).is_recoverable());
    assert!(!FastResizeError::parallel("x".to_string()).is_recoverable());
    assert!(!FastResizeError::invalid_parameters("x".to_string()).is_recoverable());
    assert!(!FastResizeError::SerdeError("x".to_string()).is_recoverable());
    assert!(FastResizeError::WatchError("x".to_string()).is_recoverable());
}

#[test]
fn test_file_context() {
    let result: Result<(), FastResizeError> = Err(FastResizeError::config("test".to_string()));
    let result_with_context = result.with_file_context("test.jpg".to_string());
    assert!(result_with_context.is_err());
}

#[test]
fn file_context_fills_empty_slot_only() {
    let r: Result<(), FastResizeError> = Err(FastResizeError::validation("m".to_string(), None));
    let e = r.with_file_context("a.jpg".to_string()).unwrap_err();
    assert_eq!(e.file_path(), Some(&"a.jpg".to_string()));
    let r: Result<(), FastResizeError> = Err(FastResizeError::timeout(3, Some("first".to_string())));
    let e = r.with_file_context("second".to_string()).unwrap_err();
    assert_eq!(e.file_path(), Some(&"first".to_string()));
    let e = FastResizeError::config("c".to_string()).with_file("x".to_string());
    assert_eq!(e.file_path(), None);
    let ok: Result<u8, FastResizeError> = Ok(4);
    assert_eq!(ok.with_file_context("x".to_string()), Ok(4));
}

#[test]
fn test_validator_creation() {
    let validator = ImageValidator::new();
    assert_eq!(validator.max_file_size(), 500 * 1024 * 1024);

    let custom_validator = ImageValidator::with_limits(100, 50, 16384);
    assert_eq!(custom_validator.max_file_size(), 100 * 1024 * 1024);
    assert_eq!(custom_validator.max_image_pixels(), 50_000_000);
}

#[test]
fn test_dimension_validation() {
    let validator = ImageValidator::new();

    assert!(validator.validate_dimensions(1920, 1080, None).is_ok());

    assert!(validator.validate_dimensions(0, 1080, None).is_err());
    assert!(validator.validate_dimensions(1920, 0, None).is_err());

    assert!(validator.validate_dimensions(50000, 50000, None).is_err());
}

#[test]
fn dimension_validation_errors() {
    let v = ImageValidator::with_limits(10, 1, 2000);
    assert_eq!(
        v.validate_dimensions(3000, 10, Some("p".to_string())),
        Err(FastResizeError::ImageTooLarge { width: 3000, height: 10, limit: 2000, file: Some("p".to_string()) })
    );
    assert_eq!(
        v.validate_dimensions(1500, 1000, None),
        Err(FastResizeError::ImageTooLarge { width: 1500, height: 1000, limit: 1_000_000, file: None })
    );
    assert_eq!(
        v.validate_dimensions(0, 5, None),
        Err(FastResizeError::ValidationError { message: "Image has zero width or height".to_string(), file: None })
    );
}

#[test]
fn validate_file_from_facts() {
    let v = ImageValidator::new();
    let jpeg = vec![0xFF, 0xD8, 0xFF, 0xE0, 0, 0x10, 0x4A, 0x46, 0x49, 0x46, 0, 1];
    let ok = v.validate_file("img/photo.jpg", Ok((true, 3000)), Ok(jpeg.clone())).unwrap();
    assert_eq!(ok.format, ImageFormat::Jpeg);
    assert!(ok.header_valid);
    assert_eq!(ok.estimated_pixels, 2000);
    assert_eq!(ok.estimated_dimensions, Some((44, 44)));
    assert_eq!(ok.path, "img/photo.jpg");

    let mismatch = v.validate_file("img/photo.png", Ok((true, 4000)), Ok(jpeg.clone())).unwrap();
    assert!(!mismatch.header_valid);
    assert_eq!(mismatch.estimated_pixels, 1000);

    assert_eq!(
        v.validate_file("a.jpg", Ok((true, 0)), Ok(jpeg.clone())),
        Err(FastResizeError::ValidationError { message: "File is empty".to_string(), file: Some("a.jpg".to_string()) })
    );
    assert_eq!(
        v.validate_file("a.jpg", Ok((false, 10)), Ok(jpeg.clone())),
        Err(FastResizeError::ValidationError { message: "Path is not a regular file".to_string(), file: Some("a.jpg".to_string()) })
    );
    assert_eq!(
        v.validate_file("a.jpg", Ok((true, 600 * 1024 * 1024)), Ok(jpeg.clone())),
        Err(FastResizeError::FileTooLarge { size: 600 * 1024 * 1024, limit: 500 * 1024 * 1024, file: "a.jpg".to_string() })
    );
    assert!(matches!(
        v.validate_file("a.xyz", Ok((true, 10)), Ok(jpeg.clone())),
        Err(FastResizeError::UnsupportedFormat { .. })
    ));
    assert_eq!(
        v.validate_file("a.jpg", Ok((true, 10)), Ok(vec![1, 2, 3])),
        Err(FastResizeError::ValidationError {
            message: "File too small to contain valid image header".to_string(),
            file: Some("a.jpg".to_string())
        })
    );
    let io = FastResizeError::IoError("denied".to_string());
    assert_eq!(v.validate_file("a.jpg", Err(io.clone()), Ok(jpeg.clone())), Err(io.clone()));
    assert_eq!(v.validate_file("a.jpg", Ok((true, 10)), Err(io.clone())), Err(io));

    let tight = ImageValidator::with_limits(500, 1, 100);
    assert_eq!(
        tight.validate_file("a.bmp", Ok((true, 4_000_004)), Ok(jpeg.clone())),
        Err(FastResizeError::ImageTooLarge { width: 1000, height: 1000, limit: 1_000_000, file: Some("a.bmp".to_string()) })
    );
    assert_eq!(
        tight.validate_file("a.bmp", Ok((true, 400_000)), Ok(jpeg)),
        Err(FastResizeError::ImageTooLarge { width: 316, height: 316, limit: 100, file: Some("a.bmp".to_string()) })
    );
}

#[test]
fn quick_check_from_facts() {
    let v = ImageValidator::new();
    assert!(v.quick_check("x/y.JPG", Some(10)));
    assert!(!v.quick_check("x/y.jpg", None));
    assert!(!v.quick_check("x/y.jpg", Some(0)));
    assert!(!v.quick_check("x/y.txt", Some(10)));
    assert!(!v.quick_check("x/y", Some(10)));
    let batch = BatchValidator::new(ImageValidator::with_limits(1, 1, 1));
    assert_eq!(batch.validator().max_dimension(), 1);
    let engine = ProcessingEngine::new();
    assert_eq!(engine.validator().max_dimension(), 32768);
}

#[test]
fn test_resizer_creation() {
    let resizer = ImageResizer::new();
    assert!(matches!(resizer.filter(), FilterType::Lanczos3));
    assert!(resizer.preserves_aspect_ratio());

    let custom_resizer = ImageResizer::with_filter(FilterType::Nearest).preserve_aspect_ratio(false);
    assert!(matches!(custom_resizer.filter(), FilterType::Nearest));
    assert!(!custom_resizer.preserves_aspect_ratio());
}

#[test]
fn utility_functions() {
    let memory = calculate_memory_usage(1920, 1080, 4);
    assert_eq!(memory, 1920 * 1080 * 4);

    assert!(is_memory_intensive(5001, 5000, 5000, 5000));
    assert!(!is_memory_intensive(100, 100, 100, 100));

    let upscale_filter = suggest_filter(100, 100, 500, 500);
    assert!(matches!(upscale_filter, FilterType::Lanczos3));

    let downscale_filter = suggest_filter(1000, 1000, 100, 100);
    assert!(matches!(downscale_filter, FilterType::Triangle));
}

#[test]
fn filter_suggestion_bands() {
    assert_eq!(suggest_filter(1000, 1000, 500, 500), FilterType::Lanczos3);
    assert_eq!(suggest_filter(1000, 1000, 499, 500), FilterType::CatmullRom);
    assert_eq!(suggest_filter(1000, 1000, 250, 900), FilterType::CatmullRom);
    assert_eq!(suggest_filter(1000, 1000, 249, 900), FilterType::Triangle);
    assert!(is_memory_intensive(5001, 5000, 10, 10));
    assert!(!is_memory_intensive(5000, 5000, 10, 10));
}

#[test]
fn dimensions_parsing() {
    assert_eq!(parse_dimensions("1920x1080"), Ok((1920, 1080)));
    assert_eq!(parse_dimensions("+5x7"), Ok((5, 7)));
    let format_msg = "Dimensions must be in format 'WIDTHxHEIGHT' (e.g., '1920x1080')".to_string();
    assert_eq!(parse_dimensions("1920"), Err(format_msg.clone()));
    assert_eq!(parse_dimensions("1x2x3"), Err(format_msg));
    assert_eq!(parse_dimensions("ax5"), Err("Invalid width value".to_string()));
    assert_eq!(parse_dimensions("5x"), Err("Invalid height value".to_string()));
    assert_eq!(parse_dimensions("5x4294967296"), Err("Invalid height value".to_string()));
    assert_eq!(parse_dimensions("4294967295x1"), Ok((4294967295, 1)));
    assert_eq!(parse_dimensions("0x5"), Err("Width and height must be greater than 0".to_string()));
    assert_eq!(parse_dimensions("-1x5"), Err("Invalid width value".to_string()));
}

#[test]
fn test_file_existence_validation() {
    let validator = ImageValidator::new();
    let missing = FastResizeError::validation(
        "Cannot access file: No such file or directory".to_string(),
        Some("nonexistent.jpg".to_string()),
    );
    let result = validator.validate_file("nonexistent.jpg", Err(missing.clone()), Err(missing));
    assert!(result.is_err());
}

#[test]
fn test_empty_file_validation() {
    let validator = ImageValidator::new();
    let result = validator.validate_file("/tmp/.tmpAbC123", Ok((true, 0)), Ok(Vec::new()));
    assert!(result.is_err());
}

#[test]
fn test_unsupported_format_validation() {
    let validator = ImageValidator::new();
    let content = b"dummy content".to_vec();
    let result = validator.validate_file("/tmp/.tmpAbC123.xyz", Ok((true, content.len() as u64)), Ok(content));
    assert!(result.is_err());
}

#[test]
fn test_quick_check() {
    let validator = ImageValidator::new();
    assert!(!validator.quick_check("nonexistent.jpg", None));
    let content = b"dummy jpeg content";
    assert!(validator.quick_check("/tmp/.tmpAbC123.jpg", Some(content.len() as u64)));
}

#[test]
fn test_header_validation() {
    let validator = ImageValidator::new();
    let mut data = vec![0xFF, 0xD8, 0xFF, 0xE0, 0x00, 0x10, 0x4A, 0x46];
    data.extend_from_slice(b"dummy content");
    let result = validator.validate_file("/tmp/.tmpAbC123.jpg", Ok((true, data.len() as u64)), Ok(data));
    assert!(result.is_ok());
    assert!(result.unwrap().header_valid);
}
