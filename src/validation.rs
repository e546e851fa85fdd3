//! Checks that a file is an image the library can process.

use vstd::prelude::*;
use crate::error::FastResizeError;
use crate::memory::{BufferSize, MemoryPool};
use crate::format::{
    ImageFormat, detect_format_from_header, detect_format_from_path, is_supported_input_format,
    path_extension, spec_eq_ignore_ascii_case, spec_format_from_header, spec_format_from_path,
    spec_input_formats, extension_of,
};

verus! {

/// Limits on the files and images accepted.
#[derive(Debug, Clone, Copy, PartialEq, Eq)]
pub struct ImageValidator {
    max_file_size: u64,
    max_image_pixels: u64,
    max_dimension: u32,
}

/// What validation found out about a file.
#[derive(Debug, Clone, PartialEq, Eq)]
pub struct ValidationResult {
    pub path: String,
    pub file_size: u64,
    pub format: ImageFormat,
    pub is_valid: bool,
    pub header_valid: bool,
    pub estimated_dimensions: Option<(u32, u32)>,
    pub estimated_pixels: u64,
    pub warnings: Vec<String>,
    pub errors: Vec<String>,
}

/// Pixels estimated from the size of a file in a given format.
pub open spec fn spec_estimated_pixels(format: ImageFormat, size: nat) -> nat {
    match format {
        ImageFormat::Jpeg => size * 2 / 3,
        ImageFormat::Png => size / 4,
        ImageFormat::WebP => size / 2,
        ImageFormat::Bmp => size / 4,
        _ => size / 3,
    }
}

/// Whether the path has an extension that names an input format (ignoring ASCII case).
pub open spec fn spec_supported_extension(path: Seq<char>) -> bool {
    match path_extension(path) {
        Some(e) => exists|i: int| 0 <= i < spec_input_formats().len()
            && spec_eq_ignore_ascii_case(#[trigger] spec_input_formats()[i], e),
        None => false,
    }
}

/// Whether `r` is the integer square root of `n`.
pub open spec fn spec_is_isqrt(r: nat, n: nat) -> bool {
    r * r <= n && n < (r + 1) * (r + 1)
}

/// The integer square root.
fn isqrt(n: u64) -> (r: u32)
    ensures
        spec_is_isqrt(r as nat, n as nat),
{
    let mut lo: u64 = 0;
    let mut hi: u64 = 0x1_0000_0000;
    assert(n < hi * hi) by (nonlinear_arith)
        requires n <= 0xffff_ffff_ffff_ffffu64, hi == 0x1_0000_0000u64;
    while hi - lo > 1
        invariant
            lo < hi <= 0x1_0000_0000,
            lo * lo <= n,
            n < hi * hi,
        decreases hi - lo,
    {
        let mid = lo + (hi - lo) / 2;
        assert(mid * mid <= 0x1_0000_0000nat * 0x1_0000_0000nat) by (nonlinear_arith)
            requires mid <= 0x1_0000_0000u64;
        if (mid as u128) * (mid as u128) <= n as u128 {
            lo = mid;
        } else {
            hi = mid;
        }
    }
    assert(lo + 1 == hi);
    lo as u32
}

impl ImageValidator {
    pub closed spec fn spec_max_file_size(&self) -> nat {
        self.max_file_size as nat
    }

    pub closed spec fn spec_max_image_pixels(&self) -> nat {
        self.max_image_pixels as nat
    }

    pub closed spec fn spec_max_dimension(&self) -> nat {
        self.max_dimension as nat
    }

    pub fn max_file_size(&self) -> (r: u64)
        ensures
            r == self.spec_max_file_size(),
    {
        self.max_file_size
    }

    pub fn max_image_pixels(&self) -> (r: u64)
        ensures
            r == self.spec_max_image_pixels(),
    {
        self.max_image_pixels
    }

    pub fn max_dimension(&self) -> (r: u32)
        ensures
            r == self.spec_max_dimension(),
    {
        self.max_dimension
    }

    /// The default limits.
    pub closed spec fn spec_default() -> Self {
        ImageValidator { max_file_size: 524288000, max_image_pixels: 500000000, max_dimension: 32768 }
    }

    /// 500 MiB files, 500 megapixels, 32768 pixels per side.
    pub fn new() -> (r: Self)
        ensures
            r == Self::spec_default(),
            r.spec_max_file_size() == 524288000,
            r.spec_max_image_pixels() == 500000000,
            r.spec_max_dimension() == 32768,
    {
        ImageValidator { max_file_size: 524288000, max_image_pixels: 500000000, max_dimension: 32768 }
    }

    /// Limits in mebibytes, megapixels and pixels per side.
    pub fn with_limits(max_file_size_mb: u64, max_megapixels: u64, max_dimension: u32) -> (r: Self)
        requires
            max_file_size_mb as nat * 1048576 <= u64::MAX,
            max_megapixels as nat * 1000000 <= u64::MAX,
        ensures
            r.spec_max_file_size() == max_file_size_mb as nat * 1048576,
            r.spec_max_image_pixels() == max_megapixels as nat * 1000000,
            r.spec_max_dimension() == max_dimension,
    {
        ImageValidator {
            max_file_size: max_file_size_mb * 1048576,
            max_image_pixels: max_megapixels * 1000000,
            max_dimension,
        }
    }

    /// Rejects a zero side, a side above the per-side limit, and an area above
    /// the pixel limit, in that order.
    pub fn validate_dimensions(&self, width: u32, height: u32, path: Option<String>) -> (r: Result<(), FastResizeError>)
        ensures
            (width == 0 || height == 0) ==> (r matches Err(FastResizeError::ValidationError { message, file })
                && message@ == "Image has zero width or height"@ && file == path),
            (width != 0 && height != 0 && (width > self.spec_max_dimension() || height > self.spec_max_dimension()))
                ==> r == Err::<(), FastResizeError>(FastResizeError::ImageTooLarge {
                    width, height, limit: self.spec_max_dimension() as u64, file: path }),
            (width != 0 && height != 0 && width <= self.spec_max_dimension() && height <= self.spec_max_dimension()
                && width as nat * height as nat > self.spec_max_image_pixels())
                ==> r == Err::<(), FastResizeError>(FastResizeError::ImageTooLarge {
                    width, height, limit: self.spec_max_image_pixels() as u64, file: path }),
            r is Ok <==> width != 0 && height != 0 && width <= self.spec_max_dimension()
                && height <= self.spec_max_dimension() && width as nat * height as nat <= self.spec_max_image_pixels(),
    {
        if width == 0 || height == 0 {
            return Err(FastResizeError::validation("Image has zero width or height".to_owned(), path));
        }
        if width > self.max_dimension || height > self.max_dimension {
            return Err(FastResizeError::image_too_large(width, height, self.max_dimension as u64, path));
        }
        assert(width as nat * height as nat <= 0xffff_ffffnat * 0xffff_ffffnat) by (nonlinear_arith)
            requires width <= 0xffff_ffffu32, height <= 0xffff_ffffu32;
        let total_pixels = (width as u64) * (height as u64);
        if total_pixels > self.max_image_pixels {
            return Err(FastResizeError::image_too_large(width, height, self.max_image_pixels, path));
        }
        Ok(())
    }

    /// Validates the file `path` from what was read of it: its metadata (whether
    /// it is a regular file, and its size) and its first bytes, or the failure of
    /// either read. In order: the metadata read, a regular file, a non-empty file
    /// within the size limit, a known and supported extension, the header read
    /// and at least 8 header bytes, then the size-based pixel estimate against
    /// the pixel and per-side limits.
    pub fn validate_file(&self, path: &str, metadata: Result<(bool, u64), FastResizeError>,
        header: Result<Vec<u8>, FastResizeError>) -> (r: Result<ValidationResult, FastResizeError>)
        ensures
            metadata matches Err(e) ==> r == Err::<ValidationResult, FastResizeError>(e),
            metadata matches Ok((is_file, size)) ==> {
                &&& !is_file ==> (r matches Err(FastResizeError::ValidationError { message, file: Some(p) })
                    && message@ == "Path is not a regular file"@ && p@ == path@)
                &&& is_file && size == 0 ==> (r matches Err(FastResizeError::ValidationError { message, file: Some(p) })
                    && message@ == "File is empty"@ && p@ == path@)
                &&& is_file && size > self.spec_max_file_size() ==> (r matches Err(FastResizeError::FileTooLarge { size: s, limit, file })
                    && s == size && limit == self.spec_max_file_size() && file@ == path@)
                &&& is_file && 0 < size <= self.spec_max_file_size() ==> match spec_format_from_path(path@) {
                  None => r matches Err(FastResizeError::UnsupportedFormat { .. }),
                  Some(format) => {
                    let ext_ok = spec_supported_extension(path@);
                    let pixels = spec_estimated_pixels(format, size as nat);
                    &&& !ext_ok ==> (r matches Err(FastResizeError::UnsupportedFormat { .. }))
                    &&& ext_ok ==> match header {
                        Err(e) => r == Err::<ValidationResult, FastResizeError>(e),
                        Ok(h) => if h@.len() < 8 {
                            r matches Err(FastResizeError::ValidationError { message, file: Some(p) })
                                && message@ == "File too small to contain valid image header"@ && p@ == path@
                        } else {
                            &&& pixels > self.spec_max_image_pixels() ==>
                                (r matches Err(FastResizeError::ImageTooLarge { width, height, limit, file: Some(p) })
                                && width == height && spec_is_isqrt(width as nat, pixels)
                                && limit == self.spec_max_image_pixels() && p@ == path@)
                            &&& pixels <= self.spec_max_image_pixels() ==> (r is Ok <==> ({
                                let side = choose|s: nat| spec_is_isqrt(s, pixels);
                                side <= self.spec_max_dimension()
                            }))
                            &&& r matches Ok(v) ==> {
                                &&& v.path@ == path@
                                &&& v.file_size == size
                                &&& v.format == format
                                &&& v.is_valid
                                &&& v.header_valid == (spec_format_from_header(h@) == Some(format))
                                &&& v.estimated_pixels == pixels
                                &&& (v.estimated_dimensions matches Some((w, hgt)) && w == hgt
                                    && spec_is_isqrt(w as nat, pixels) && w <= self.spec_max_dimension())
                                &&& v.warnings@.len() == 0
                                &&& v.errors@.len() == 0
                            }
                        },
                    }
                  },
                }
            },
    {
        let (is_file, file_size) = match metadata {
            Err(e) => return Err(e),
            Ok(m) => m,
        };
        if !is_file {
            return Err(FastResizeError::validation("Path is not a regular file".to_owned(), Some(path.to_owned())));
        }
        if file_size == 0 {
            return Err(FastResizeError::validation("File is empty".to_owned(), Some(path.to_owned())));
        }
        if file_size > self.max_file_size {
            return Err(FastResizeError::file_too_large(file_size, self.max_file_size, path.to_owned()));
        }
        let format = match detect_format_from_path(path) {
            Err(e) => return Err(e),
            Ok(f) => f,
        };
        let extension = match extension_of(path) {
            Some(e) => e,
            None => "",
        };
        if !is_supported_input_format(extension) {
            return Err(FastResizeError::unsupported_format(extension.to_owned(), Some(path.to_owned())));
        }
        let header = match header {
            Err(e) => return Err(e),
            Ok(h) => h,
        };
        if header.len() < 8 {
            return Err(FastResizeError::validation("File too small to contain valid image header".to_owned(), Some(path.to_owned())));
        }
        let header_valid = match detect_format_from_header(header.as_slice()) {
            Ok(f) => f == format,
            Err(_) => false,
        };
        let size = file_size as u128;
        let pixels: u64 = match format {
            ImageFormat::Jpeg => (size * 2 / 3) as u64,
            ImageFormat::Png => (size / 4) as u64,
            ImageFormat::WebP => (size / 2) as u64,
            ImageFormat::Bmp => (size / 4) as u64,
            _ => (size / 3) as u64,
        };
        let side = isqrt(pixels);
        if pixels > self.max_image_pixels {
            return Err(FastResizeError::image_too_large(side, side, self.max_image_pixels, Some(path.to_owned())));
        }
        proof {
            lemma_isqrt_unique(side as nat, choose|s: nat| spec_is_isqrt(s, pixels as nat), pixels as nat);
        }
        if side > self.max_dimension {
            return Err(FastResizeError::image_too_large(side, side, self.max_dimension as u64, Some(path.to_owned())));
        }
        Ok(ValidationResult {
            path: path.to_owned(),
            file_size,
            format,
            is_valid: true,
            header_valid,
            estimated_dimensions: Some((side, side)),
            estimated_pixels: pixels,
            warnings: Vec::new(),
            errors: Vec::new(),
        })
    }

    /// The quick pre-filter: a supported extension and a size (if it could be
    /// read) that is neither zero nor above the limit.
    pub fn quick_check(&self, path: &str, file_size: Option<u64>) -> (r: bool)
        ensures
            r == (spec_supported_extension(path@) && match file_size {
                Some(s) => s != 0 && s <= self.spec_max_file_size(),
                None => false,
            }),
    {
        match extension_of(path) {
            Some(extension) => {
                if !is_supported_input_format(extension) {
                    return false;
                }
            },
            None => return false,
        }
        match file_size {
            Some(s) => s != 0 && s <= self.max_file_size,
            None => false,
        }
    }
}

proof fn lemma_isqrt_unique(a: nat, b: nat, n: nat)
    requires
        spec_is_isqrt(a, n),
    ensures
        spec_is_isqrt(b, n) ==> a == b,
        exists|s: nat| spec_is_isqrt(s, n),
{
    if spec_is_isqrt(b, n) && a != b {
        if a < b {
            assert((a + 1) * (a + 1) <= b * b) by (nonlinear_arith) requires a + 1 <= b;
        } else {
            assert((b + 1) * (b + 1) <= a * a) by (nonlinear_arith) requires b + 1 <= a;
        }
    }
}

/// The per-file processing settings shared by the executors: a buffer pool and
/// the validation limits.
pub struct ProcessingEngine {
    memory_pool: MemoryPool,
    validator: ImageValidator,
}

impl ProcessingEngine {
    pub closed spec fn spec_validator(&self) -> ImageValidator {
        self.validator
    }

    pub closed spec fn spec_pool(&self) -> MemoryPool {
        self.memory_pool
    }

    /// An empty buffer pool and the default validation limits.
    pub fn new() -> (r: Self)
        ensures
            r.spec_validator() == ImageValidator::spec_default(),
            r.spec_pool().wf(),
            forall|c: BufferSize| #[trigger] r.spec_pool().spec_free(c).len() == 0,
    {
        ProcessingEngine { memory_pool: MemoryPool::new(), validator: ImageValidator::new() }
    }

    pub fn validator(&self) -> (r: &ImageValidator)
        ensures
            *r == self.spec_validator(),
    {
        &self.validator
    }

    pub fn memory_pool(&mut self) -> (r: &mut MemoryPool)
        ensures
            *r == old(self).spec_pool(),
            final(self).spec_pool() == *final(r),
            final(self).spec_validator() == old(self).spec_validator(),
    {
        &mut self.memory_pool
    }
}

/// Validates several files with one validator.
pub struct BatchValidator {
    validator: ImageValidator,
}

impl BatchValidator {
    pub fn new(validator: ImageValidator) -> (r: Self)
        ensures
            r.spec_validator() == validator,
    {
        BatchValidator { validator }
    }

    pub closed spec fn spec_validator(&self) -> ImageValidator {
        self.validator
    }

    pub fn validator(&self) -> (r: &ImageValidator)
        ensures
            *r == self.spec_validator(),
    {
        &self.validator
    }
}

} // verus!
