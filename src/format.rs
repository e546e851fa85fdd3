//! Image formats: naming, detection by extension and by header, and
//! format-specific settings.

use vstd::prelude::*;
use vstd::string::StrSliceExecFns;
use crate::error::FastResizeError;

verus! {

/// Supported image formats.
#[derive(Debug, Clone, Copy, PartialEq, Eq, Structural)]
pub enum ImageFormat {
    Jpeg,
    Png,
    WebP,
    Gif,
    Tiff,
    Bmp,
}

pub open spec fn spec_extension(f: ImageFormat) -> Seq<char> {
    match f {
        ImageFormat::Jpeg => "jpg"@,
        ImageFormat::Png => "png"@,
        ImageFormat::WebP => "webp"@,
        ImageFormat::Gif => "gif"@,
        ImageFormat::Tiff => "tiff"@,
        ImageFormat::Bmp => "bmp"@,
    }
}

pub open spec fn spec_mime_type(f: ImageFormat) -> Seq<char> {
    match f {
        ImageFormat::Jpeg => "image/jpeg"@,
        ImageFormat::Png => "image/png"@,
        ImageFormat::WebP => "image/webp"@,
        ImageFormat::Gif => "image/gif"@,
        ImageFormat::Tiff => "image/tiff"@,
        ImageFormat::Bmp => "image/bmp"@,
    }
}

impl ImageFormat {
    /// The file extension written for this format.
    pub fn extension(self) -> (r: &'static str)
        ensures
            r@ == spec_extension(self),
    {
        match self {
            ImageFormat::Jpeg => "jpg",
            ImageFormat::Png => "png",
            ImageFormat::WebP => "webp",
            ImageFormat::Gif => "gif",
            ImageFormat::Tiff => "tiff",
            ImageFormat::Bmp => "bmp",
        }
    }

    /// The MIME type of this format.
    pub fn mime_type(self) -> (r: &'static str)
        ensures
            r@ == spec_mime_type(self),
    {
        match self {
            ImageFormat::Jpeg => "image/jpeg",
            ImageFormat::Png => "image/png",
            ImageFormat::WebP => "image/webp",
            ImageFormat::Gif => "image/gif",
            ImageFormat::Tiff => "image/tiff",
            ImageFormat::Bmp => "image/bmp",
        }
    }
}

/// The format named by an already lower-cased file extension.
pub open spec fn spec_format_of_extension(ext: Seq<char>) -> Option<ImageFormat> {
    if ext == "jpg"@ || ext == "jpeg"@ {
        Some(ImageFormat::Jpeg)
    } else if ext == "png"@ {
        Some(ImageFormat::Png)
    } else if ext == "webp"@ {
        Some(ImageFormat::WebP)
    } else if ext == "gif"@ {
        Some(ImageFormat::Gif)
    } else if ext == "tiff"@ || ext == "tif"@ {
        Some(ImageFormat::Tiff)
    } else if ext == "bmp"@ {
        Some(ImageFormat::Bmp)
    } else {
        None
    }
}

/// Character-wise equality of two strings.
fn same_chars(a: &str, b: &str) -> (r: bool)
    ensures
        r == (a@ == b@),
{
    let n = a.unicode_len();
    if n != b.unicode_len() {
        return false;
    }
    let mut i: usize = 0;
    while i < n
        invariant
            n == a@.len(),
            n == b@.len(),
            i <= n,
            forall|j: int| 0 <= j < i ==> a@[j] == b@[j],
        decreases n - i,
    {
        if a.get_char(i) != b.get_char(i) {
            return false;
        }
        i = i + 1;
    }
    assert(a@ =~= b@);
    true
}

/// The format named by the lower-cased extension `ext`, if it is one of
/// jpg, jpeg, png, webp, gif, tiff, tif or bmp.
pub fn format_from_lowercase_extension(ext: &str) -> (r: Option<ImageFormat>)
    ensures
        r == spec_format_of_extension(ext@),
{
    proof {
        reveal_strlit("jpg");
        reveal_strlit("jpeg");
        reveal_strlit("png");
        reveal_strlit("webp");
        reveal_strlit("gif");
        reveal_strlit("tiff");
        reveal_strlit("tif");
        reveal_strlit("bmp");
    }
    if same_chars(ext, "jpg") || same_chars(ext, "jpeg") {
        Some(ImageFormat::Jpeg)
    } else if same_chars(ext, "png") {
        Some(ImageFormat::Png)
    } else if same_chars(ext, "webp") {
        Some(ImageFormat::WebP)
    } else if same_chars(ext, "gif") {
        Some(ImageFormat::Gif)
    } else if same_chars(ext, "tiff") || same_chars(ext, "tif") {
        Some(ImageFormat::Tiff)
    } else if same_chars(ext, "bmp") {
        Some(ImageFormat::Bmp)
    } else {
        None
    }
}

/// What `Path::extension` yields for a path (as text).
pub uninterp spec fn path_extension(path: Seq<char>) -> Option<Seq<char>>;

/// What `str::to_lowercase` yields for a text.
pub uninterp spec fn lower_of(s: Seq<char>) -> Seq<char>;

/// Relies on std's `Path::extension`: the part of the file name after its last
/// dot, if the name has one that is not its first character. The path is text,
/// so the extension is text too.
#[verifier::external_body]
pub(crate) fn extension_of(path: &str) -> (r: Option<&str>)
    ensures
        r matches Some(e) ==> path_extension(path@) == Some(e@),
        r is None ==> path_extension(path@) is None,
{
    match std::path::Path::new(path).extension() {
        Some(e) => e.to_str(),
        None => None,
    }
}

/// Relies on std's `str::to_lowercase`: the lower-case form of `s`.
#[verifier::external_body]
fn to_lowercase(s: &str) -> (r: String)
    ensures
        r@ == lower_of(s@),
{
    s.to_lowercase()
}

/// The format a path names by its extension (compared without regard to case).
pub open spec fn spec_format_from_path(path: Seq<char>) -> Option<ImageFormat> {
    match path_extension(path) {
        Some(e) => spec_format_of_extension(lower_of(e)),
        None => None,
    }
}

/// The format named by the extension of `path`. A path without extension, or
/// with an unknown one, is an unsupported format naming "Unknown" or that
/// extension, attributed to the path.
pub fn detect_format_from_path(path: &str) -> (r: Result<ImageFormat, FastResizeError>)
    ensures
        r is Ok <==> spec_format_from_path(path@) is Some,
        r matches Ok(f) ==> spec_format_from_path(path@) == Some(f),
        path_extension(path@) is None ==> (r matches Err(FastResizeError::UnsupportedFormat { format, file: Some(p) })
            && format@ == "Unknown"@ && p@ == path@),
        path_extension(path@) matches Some(e) ==> (spec_format_of_extension(lower_of(e)) is None ==>
            (r matches Err(FastResizeError::UnsupportedFormat { format, file: Some(p) })
            && format@ == e && p@ == path@)),
{
    match extension_of(path) {
        None => Err(FastResizeError::unsupported_format("Unknown".to_owned(), Some(path.to_owned()))),
        Some(ext) => {
            let lower = to_lowercase(ext);
            match format_from_lowercase_extension(lower.as_str()) {
                Some(f) => Ok(f),
                None => Err(FastResizeError::unsupported_format(ext.to_owned(), Some(path.to_owned()))),
            }
        },
    }
}

/// Whether `data` begins with `prefix`.
pub open spec fn spec_starts_with(data: Seq<u8>, prefix: Seq<u8>) -> bool {
    prefix.len() <= data.len() && data.take(prefix.len() as int) == prefix
}

/// The format whose magic bytes open `data` (at least 12 bytes are needed).
pub open spec fn spec_format_from_header(data: Seq<u8>) -> Option<ImageFormat> {
    if data.len() < 12 {
        None
    } else if spec_starts_with(data, seq![0xFFu8, 0xD8, 0xFF]) {
        Some(ImageFormat::Jpeg)
    } else if spec_starts_with(data, seq![0x89u8, 0x50, 0x4E, 0x47, 0x0D, 0x0A, 0x1A, 0x0A]) {
        Some(ImageFormat::Png)
    } else if spec_starts_with(data, seq![0x47u8, 0x49, 0x46, 0x38, 0x37, 0x61])
        || spec_starts_with(data, seq![0x47u8, 0x49, 0x46, 0x38, 0x39, 0x61]) {
        Some(ImageFormat::Gif)
    } else if spec_starts_with(data, seq![0x52u8, 0x49, 0x46, 0x46])
        && data.subrange(8, 12) == seq![0x57u8, 0x45, 0x42, 0x50] {
        Some(ImageFormat::WebP)
    } else if spec_starts_with(data, seq![0x49u8, 0x49, 0x2A, 0x00])
        || spec_starts_with(data, seq![0x4Du8, 0x4D, 0x00, 0x2A]) {
        Some(ImageFormat::Tiff)
    } else if spec_starts_with(data, seq![0x42u8, 0x4D]) {
        Some(ImageFormat::Bmp)
    } else {
        None
    }
}

/// Whether `data[at..]` begins with `expected`.
fn bytes_at(data: &[u8], at: usize, expected: &[u8]) -> (r: bool)
    requires
        at + expected@.len() <= data@.len(),
    ensures
        r == (data@.subrange(at as int, at + expected@.len()) == expected@),
{
    let n = data.len();
    let mut i: usize = 0;
    while i < expected.len()
        invariant
            n == data@.len(),
            at + expected@.len() <= data@.len(),
            i <= expected@.len(),
            forall|j: int| 0 <= j < i ==> data@[at + j] == expected@[j],
        decreases expected@.len() - i,
    {
        if data[at + i] != expected[i] {
            assert(data@.subrange(at as int, at + expected@.len())[i as int] != expected@[i as int]);
            return false;
        }
        i = i + 1;
    }
    assert(data@.subrange(at as int, at + expected@.len()) =~= expected@);
    true
}

/// The format identified by the magic bytes at the start of `data`. Fewer than
/// 12 bytes is a validation failure; unknown magic bytes an unsupported format.
pub fn detect_format_from_header(data: &[u8]) -> (r: Result<ImageFormat, FastResizeError>)
    ensures
        r is Ok <==> spec_format_from_header(data@) is Some,
        r matches Ok(f) ==> spec_format_from_header(data@) == Some(f),
        data@.len() < 12 ==> (r matches Err(FastResizeError::ValidationError { message, file: None })
            && message@ == "File too small to determine format"@),
        data@.len() >= 12 && spec_format_from_header(data@) is None ==>
            (r matches Err(FastResizeError::UnsupportedFormat { format, file: None })
            && format@ == "Unknown (magic bytes)"@),
{
    if data.len() < 12 {
        return Err(FastResizeError::validation("File too small to determine format".to_owned(), None));
    }
    let ghost d = data@;
    assert(d.take(3) =~= d.subrange(0, 3));
    assert(d.take(8) =~= d.subrange(0, 8));
    assert(d.take(6) =~= d.subrange(0, 6));
    assert(d.take(4) =~= d.subrange(0, 4));
    assert(d.take(2) =~= d.subrange(0, 2));
    if bytes_at(data, 0, &[0xFF, 0xD8, 0xFF]) {
        return Ok(ImageFormat::Jpeg);
    }
    if bytes_at(data, 0, &[0x89, 0x50, 0x4E, 0x47, 0x0D, 0x0A, 0x1A, 0x0A]) {
        return Ok(ImageFormat::Png);
    }
    if bytes_at(data, 0, &[0x47, 0x49, 0x46, 0x38, 0x37, 0x61]) || bytes_at(data, 0, &[0x47, 0x49, 0x46, 0x38, 0x39, 0x61]) {
        return Ok(ImageFormat::Gif);
    }
    if bytes_at(data, 0, &[0x52, 0x49, 0x46, 0x46]) && bytes_at(data, 8, &[0x57, 0x45, 0x42, 0x50]) {
        return Ok(ImageFormat::WebP);
    }
    if bytes_at(data, 0, &[0x49, 0x49, 0x2A, 0x00]) || bytes_at(data, 0, &[0x4D, 0x4D, 0x00, 0x2A]) {
        return Ok(ImageFormat::Tiff);
    }
    if bytes_at(data, 0, &[0x42, 0x4D]) {
        return Ok(ImageFormat::Bmp);
    }
    Err(FastResizeError::unsupported_format("Unknown (magic bytes)".to_owned(), None))
}

/// Extensions accepted for input.
pub open spec fn spec_input_formats() -> Seq<Seq<char>> {
    seq!["jpg"@, "jpeg"@, "png"@, "webp"@, "gif"@, "tiff"@, "tif"@, "bmp"@]
}

/// Extensions accepted for output.
pub open spec fn spec_output_formats() -> Seq<Seq<char>> {
    seq!["jpg"@, "jpeg"@, "png"@, "webp"@, "gif"@, "tiff"@, "bmp"@]
}

/// Extensions accepted for input.
pub fn supported_input_formats() -> (r: Vec<&'static str>)
    ensures
        r@.map_values(|e: &'static str| e@) == spec_input_formats(),
{
    let r = vec!["jpg", "jpeg", "png", "webp", "gif", "tiff", "tif", "bmp"];
    assert(r@.map_values(|e: &'static str| e@) =~= spec_input_formats());
    r
}

/// Extensions accepted for output.
pub fn supported_output_formats() -> (r: Vec<&'static str>)
    ensures
        r@.map_values(|e: &'static str| e@) == spec_output_formats(),
{
    let r = vec!["jpg", "jpeg", "png", "webp", "gif", "tiff", "bmp"];
    assert(r@.map_values(|e: &'static str| e@) =~= spec_output_formats());
    r
}

/// Whether `c` is an ASCII upper-case letter.
pub open spec fn spec_is_ascii_upper(c: char) -> bool {
    'A' <= c && c <= 'Z'
}

/// Equality of two characters ignoring ASCII case.
pub open spec fn spec_eq_ignore_ascii_case_char(a: char, b: char) -> bool {
    a == b || (spec_is_ascii_upper(a) && a as u32 + 32 == b as u32)
        || (spec_is_ascii_upper(b) && b as u32 + 32 == a as u32)
}

/// Equality of two texts ignoring ASCII case.
pub open spec fn spec_eq_ignore_ascii_case(a: Seq<char>, b: Seq<char>) -> bool {
    a.len() == b.len() && forall|i: int| 0 <= i < a.len() ==> spec_eq_ignore_ascii_case_char(#[trigger] a[i], b[i])
}

fn eq_ignore_ascii_case(a: &str, b: &str) -> (r: bool)
    ensures
        r == spec_eq_ignore_ascii_case(a@, b@),
{
    let n = a.unicode_len();
    if n != b.unicode_len() {
        return false;
    }
    let mut i: usize = 0;
    while i < n
        invariant
            n == a@.len(),
            n == b@.len(),
            i <= n,
            forall|j: int| 0 <= j < i ==> spec_eq_ignore_ascii_case_char(#[trigger] a@[j], b@[j]),
        decreases n - i,
    {
        let x = a.get_char(i);
        let y = b.get_char(i);
        let same = x == y || ('A' <= x && x <= 'Z' && (x as u32) + 32 == y as u32)
            || ('A' <= y && y <= 'Z' && (y as u32) + 32 == x as u32);
        if !same {
            return false;
        }
        i = i + 1;
    }
    true
}

fn any_matches(list: &Vec<&'static str>, ext: &str) -> (r: bool)
    ensures
        r == exists|i: int| 0 <= i < list@.len() && spec_eq_ignore_ascii_case(#[trigger] list@[i]@, ext@),
{
    let mut i: usize = 0;
    while i < list.len()
        invariant
            i <= list@.len(),
            forall|j: int| 0 <= j < i ==> !spec_eq_ignore_ascii_case(#[trigger] list@[j]@, ext@),
        decreases list@.len() - i,
    {
        if eq_ignore_ascii_case(list[i], ext) {
            return true;
        }
        i = i + 1;
    }
    false
}

/// Whether `extension` names an input format, ignoring ASCII case.
pub fn is_supported_input_format(extension: &str) -> (r: bool)
    ensures
        r == exists|i: int| 0 <= i < spec_input_formats().len()
            && spec_eq_ignore_ascii_case(#[trigger] spec_input_formats()[i], extension@),
{
    let list = supported_input_formats();
    assert forall|i: int| 0 <= i < list@.len() implies #[trigger] list@[i]@ == spec_input_formats()[i] by {
        assert(list@.map_values(|e: &'static str| e@)[i] == list@[i]@);
    }
    any_matches(&list, extension)
}

/// Whether `extension` names an output format, ignoring ASCII case.
pub fn is_supported_output_format(extension: &str) -> (r: bool)
    ensures
        r == exists|i: int| 0 <= i < spec_output_formats().len()
            && spec_eq_ignore_ascii_case(#[trigger] spec_output_formats()[i], extension@),
{
    let list = supported_output_formats();
    assert forall|i: int| 0 <= i < list@.len() implies #[trigger] list@[i]@ == spec_output_formats()[i] by {
        assert(list@.map_values(|e: &'static str| e@)[i] == list@[i]@);
    }
    any_matches(&list, extension)
}

/// `q` clamped to 1..=100.
pub open spec fn spec_clamp_quality(q: u8) -> u8 {
    if q < 1 { 1 } else if q > 100 { 100 } else { q }
}

/// The encoder setting for a requested quality: the clamped quality for lossy
/// formats and TIFF, its complement to 100 (a compression level) for PNG, and
/// 100 for GIF and BMP.
pub open spec fn spec_optimal_quality(format: ImageFormat, q: u8) -> u8 {
    match format {
        ImageFormat::Jpeg => spec_clamp_quality(q),
        ImageFormat::WebP => spec_clamp_quality(q),
        ImageFormat::Png => (100 - spec_clamp_quality(q)) as u8,
        ImageFormat::Gif => 100,
        ImageFormat::Tiff => spec_clamp_quality(q),
        ImageFormat::Bmp => 100,
    }
}

pub fn get_optimal_quality(format: ImageFormat, target_quality: u8) -> (r: u8)
    ensures
        r == spec_optimal_quality(format, target_quality),
{
    let clamped = if target_quality < 1 { 1 } else if target_quality > 100 { 100 } else { target_quality };
    match format {
        ImageFormat::Jpeg => clamped,
        ImageFormat::WebP => clamped,
        ImageFormat::Png => 100 - clamped,
        ImageFormat::Gif => 100,
        ImageFormat::Tiff => clamped,
        ImageFormat::Bmp => 100,
    }
}

/// Colour space to encode in.
#[derive(Debug, Clone, Copy, PartialEq, Eq, Structural)]
pub enum ColorSpace {
    Srgb,
    AdobeRgb,
    DisplayP3,
    Auto,
}

/// Format-specific encoder settings.
#[derive(Debug, Clone, Copy, PartialEq, Eq)]
pub struct FormatOptimization {
    pub progressive: bool,
    pub optimize_for_web: bool,
    pub preserve_metadata: bool,
    pub color_space: ColorSpace,
}

pub open spec fn spec_format_optimization(format: ImageFormat, web: bool) -> FormatOptimization {
    match format {
        ImageFormat::Jpeg => FormatOptimization {
            progressive: web,
            optimize_for_web: web,
            preserve_metadata: !web,
            color_space: if web { ColorSpace::Srgb } else { ColorSpace::Auto },
        },
        ImageFormat::Png => FormatOptimization {
            progressive: false,
            optimize_for_web: web,
            preserve_metadata: !web,
            color_space: ColorSpace::Srgb,
        },
        ImageFormat::WebP => FormatOptimization {
            progressive: false,
            optimize_for_web: true,
            preserve_metadata: !web,
            color_space: ColorSpace::Srgb,
        },
        _ => FormatOptimization {
            progressive: false,
            optimize_for_web: web,
            preserve_metadata: !web,
            color_space: ColorSpace::Auto,
        },
    }
}

impl FormatOptimization {
    /// Settings for `format`, for web delivery or for keeping.
    pub fn for_format(format: ImageFormat, web_optimized: bool) -> (r: Self)
        ensures
            r == spec_format_optimization(format, web_optimized),
    {
        match format {
            ImageFormat::Jpeg => FormatOptimization {
                progressive: web_optimized,
                optimize_for_web: web_optimized,
                preserve_metadata: !web_optimized,
                color_space: if web_optimized { ColorSpace::Srgb } else { ColorSpace::Auto },
            },
            ImageFormat::Png => FormatOptimization {
                progressive: false,
                optimize_for_web: web_optimized,
                preserve_metadata: !web_optimized,
                color_space: ColorSpace::Srgb,
            },
            ImageFormat::WebP => FormatOptimization {
                progressive: false,
                optimize_for_web: true,
                preserve_metadata: !web_optimized,
                color_space: ColorSpace::Srgb,
            },
            _ => FormatOptimization {
                progressive: false,
                optimize_for_web: web_optimized,
                preserve_metadata: !web_optimized,
                color_space: ColorSpace::Auto,
            },
        }
    }
}

} // verus!
