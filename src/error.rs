//! Error taxonomy of the library.

use vstd::prelude::*;

verus! {

/// Every failure the library reports. Failures coming from the file system,
/// the image codec or the file watcher carry their message.
#[derive(Debug, Clone, PartialEq, Eq)]
pub enum FastResizeError {
    IoError(String),
    ImageError(String),
    ConfigError { message: String },
    UnsupportedFormat { format: String, file: Option<String> },
    ImageTooLarge { width: u32, height: u32, limit: u64, file: Option<String> },
    FileTooLarge { size: u64, limit: u64, file: String },
    OutOfMemory { message: String },
    Timeout { timeout_secs: u64, file: Option<String> },
    InvalidParameters { message: String },
    ValidationError { message: String, file: Option<String> },
    ParallelError { message: String },
    WatchError(String),
    SerdeError(String),
    SystemError { message: String },
}

/// Whether processing of other items may go on after this failure.
pub open spec fn spec_is_recoverable(e: FastResizeError) -> bool {
    match e {
        FastResizeError::IoError(_) => true,
        FastResizeError::ImageError(_) => true,
        FastResizeError::UnsupportedFormat { .. } => true,
        FastResizeError::ImageTooLarge { .. } => true,
        FastResizeError::FileTooLarge { .. } => true,
        FastResizeError::Timeout { .. } => true,
        FastResizeError::ValidationError { .. } => true,
        FastResizeError::WatchError(_) => true,
        _ => false,
    }
}

/// The file a failure is attributed to, where the variant carries one.
pub open spec fn spec_file_path(e: FastResizeError) -> Option<String> {
    match e {
        FastResizeError::UnsupportedFormat { file, .. } => file,
        FastResizeError::ImageTooLarge { file, .. } => file,
        FastResizeError::Timeout { file, .. } => file,
        FastResizeError::ValidationError { file, .. } => file,
        FastResizeError::FileTooLarge { file, .. } => Some(file),
        _ => None,
    }
}

/// The failure with `file` filled in where the variant has an empty file slot.
pub open spec fn spec_with_file(e: FastResizeError, file: String) -> FastResizeError {
    match e {
        FastResizeError::UnsupportedFormat { format, file: None } =>
            FastResizeError::UnsupportedFormat { format, file: Some(file) },
        FastResizeError::ImageTooLarge { width, height, limit, file: None } =>
            FastResizeError::ImageTooLarge { width, height, limit, file: Some(file) },
        FastResizeError::Timeout { timeout_secs, file: None } =>
            FastResizeError::Timeout { timeout_secs, file: Some(file) },
        FastResizeError::ValidationError { message, file: None } =>
            FastResizeError::ValidationError { message, file: Some(file) },
        _ => e,
    }
}

impl FastResizeError {
    pub fn config(message: String) -> (r: Self)
        ensures
            r == (FastResizeError::ConfigError { message }),
    {
        FastResizeError::ConfigError { message }
    }

    pub fn unsupported_format(format: String, file: Option<String>) -> (r: Self)
        ensures
            r == (FastResizeError::UnsupportedFormat { format, file }),
    {
        FastResizeError::UnsupportedFormat { format, file }
    }

    pub fn image_too_large(width: u32, height: u32, limit: u64, file: Option<String>) -> (r: Self)
        ensures
            r == (FastResizeError::ImageTooLarge { width, height, limit, file }),
    {
        FastResizeError::ImageTooLarge { width, height, limit, file }
    }

    pub fn file_too_large(size: u64, limit: u64, file: String) -> (r: Self)
        ensures
            r == (FastResizeError::FileTooLarge { size, limit, file }),
    {
        FastResizeError::FileTooLarge { size, limit, file }
    }

    pub fn out_of_memory(message: String) -> (r: Self)
        ensures
            r == (FastResizeError::OutOfMemory { message }),
    {
        FastResizeError::OutOfMemory { message }
    }

    pub fn timeout(timeout_secs: u64, file: Option<String>) -> (r: Self)
        ensures
            r == (FastResizeError::Timeout { timeout_secs, file }),
    {
        FastResizeError::Timeout { timeout_secs, file }
    }

    pub fn invalid_parameters(message: String) -> (r: Self)
        ensures
            r == (FastResizeError::InvalidParameters { message }),
    {
        FastResizeError::InvalidParameters { message }
    }

    pub fn validation(message: String, file: Option<String>) -> (r: Self)
        ensures
            r == (FastResizeError::ValidationError { message, file }),
    {
        FastResizeError::ValidationError { message, file }
    }

    pub fn parallel(message: String) -> (r: Self)
        ensures
            r == (FastResizeError::ParallelError { message }),
    {
        FastResizeError::ParallelError { message }
    }

    pub fn system(message: String) -> (r: Self)
        ensures
            r == (FastResizeError::SystemError { message }),
    {
        FastResizeError::SystemError { message }
    }

    /// Whether other items may still be processed after this failure:
    /// per-file failures are, configuration and systemic failures are not.
    pub fn is_recoverable(&self) -> (r: bool)
        ensures
            r == spec_is_recoverable(*self),
    {
        match self {
            FastResizeError::OutOfMemory { .. }
            | FastResizeError::SystemError { .. }
            | FastResizeError::ParallelError { .. } => false,
            FastResizeError::IoError(_)
            | FastResizeError::ImageError(_)
            | FastResizeError::UnsupportedFormat { .. }
            | FastResizeError::ImageTooLarge { .. }
            | FastResizeError::FileTooLarge { .. }
            | FastResizeError::Timeout { .. }
            | FastResizeError::ValidationError { .. } => true,
            FastResizeError::ConfigError { .. }
            | FastResizeError::InvalidParameters { .. }
            | FastResizeError::SerdeError(_) => false,
            FastResizeError::WatchError(_) => true,
        }
    }

    /// The file this failure is attributed to, if any.
    pub fn file_path(&self) -> (r: Option<&String>)
        ensures
            r matches Some(f) ==> spec_file_path(*self) == Some(*f),
            r is None ==> spec_file_path(*self) is None,
    {
        match self {
            FastResizeError::UnsupportedFormat { file, .. }
            | FastResizeError::ImageTooLarge { file, .. }
            | FastResizeError::Timeout { file, .. }
            | FastResizeError::ValidationError { file, .. } => file.as_ref(),
            FastResizeError::FileTooLarge { file, .. } => Some(file),
            _ => None,
        }
    }

    /// Attributes this failure to `file` unless it already names a file.
    pub fn with_file(self, file: String) -> (r: Self)
        ensures
            r == spec_with_file(self, file),
    {
        match self {
            FastResizeError::UnsupportedFormat { format, file: None } =>
                FastResizeError::UnsupportedFormat { format, file: Some(file) },
            FastResizeError::ImageTooLarge { width, height, limit, file: None } =>
                FastResizeError::ImageTooLarge { width, height, limit, file: Some(file) },
            FastResizeError::Timeout { timeout_secs, file: None } =>
                FastResizeError::Timeout { timeout_secs, file: Some(file) },
            FastResizeError::ValidationError { message, file: None } =>
                FastResizeError::ValidationError { message, file: Some(file) },
            other => other,
        }
    }
}

/// Attaching a file to the failure of a result.
pub trait ErrorContext<T>: Sized {
    fn with_file_context(self, file: String) -> Result<T, FastResizeError>;
}

impl<T> ErrorContext<T> for Result<T, FastResizeError> {
    fn with_file_context(self, file: String) -> Result<T, FastResizeError> {
        match self {
            Ok(v) => Ok(v),
            Err(e) => Err(e.with_file(file)),
        }
    }
}

} // verus!
