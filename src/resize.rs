//! Resize settings and sizing heuristics.

use vstd::prelude::*;

verus! {

/// Resampling filters, fastest first.
#[derive(Debug, Clone, Copy, PartialEq, Eq, Structural)]
pub enum FilterType {
    Nearest,
    Triangle,
    CatmullRom,
    Gaussian,
    Lanczos3,
}

/// Filter and aspect-ratio settings of a resize.
#[derive(Debug, Clone, Copy, PartialEq, Eq)]
pub struct ImageResizer {
    filter: FilterType,
    preserve_aspect_ratio: bool,
}

impl ImageResizer {
    pub closed spec fn spec_filter(&self) -> FilterType {
        self.filter
    }

    pub closed spec fn spec_preserves_aspect_ratio(&self) -> bool {
        self.preserve_aspect_ratio
    }

    /// Lanczos3, keeping the aspect ratio.
    pub fn new() -> (r: Self)
        ensures
            r.spec_filter() == FilterType::Lanczos3,
            r.spec_preserves_aspect_ratio(),
    {
        ImageResizer { filter: FilterType::Lanczos3, preserve_aspect_ratio: true }
    }

    /// The given filter, keeping the aspect ratio.
    pub fn with_filter(filter: FilterType) -> (r: Self)
        ensures
            r.spec_filter() == filter,
            r.spec_preserves_aspect_ratio(),
    {
        ImageResizer { filter, preserve_aspect_ratio: true }
    }

    /// These settings with the aspect-ratio choice replaced.
    pub fn preserve_aspect_ratio(self, preserve: bool) -> (r: Self)
        ensures
            r.spec_filter() == self.spec_filter(),
            r.spec_preserves_aspect_ratio() == preserve,
    {
        ImageResizer { preserve_aspect_ratio: preserve, ..self }
    }

    pub fn filter(&self) -> (r: FilterType)
        ensures
            r == self.spec_filter(),
    {
        self.filter
    }

    pub fn preserves_aspect_ratio(&self) -> (r: bool)
        ensures
            r == self.spec_preserves_aspect_ratio(),
    {
        self.preserve_aspect_ratio
    }
}

fn area(width: u32, height: u32) -> (r: u64)
    ensures
        r == width as nat * height as nat,
{
    assert(width as nat * height as nat <= 0xffff_ffffnat * 0xffff_ffffnat) by (nonlinear_arith)
        requires width <= 0xffff_ffffu32, height <= 0xffff_ffffu32;
    (width as u64) * (height as u64)
}

/// Bytes taken by a decoded image.
pub fn calculate_memory_usage(width: u32, height: u32, bytes_per_pixel: u32) -> (r: u64)
    requires
        width as nat * height as nat * bytes_per_pixel as nat <= u64::MAX,
    ensures
        r == width as nat * height as nat * bytes_per_pixel as nat,
{
    area(width, height) * (bytes_per_pixel as u64)
}

/// Decoded RGBA bytes above which a resize counts as memory intensive (100 MB).
pub const HIGH_MEMORY_THRESHOLD: u64 = 100000000;

pub open spec fn spec_is_memory_intensive(ow: nat, oh: nat, tw: nat, th: nat) -> bool {
    let larger = if ow * oh >= tw * th { ow * oh } else { tw * th };
    larger * 4 > HIGH_MEMORY_THRESHOLD
}

/// Whether the larger of the two images takes more than 100 MB as RGBA.
pub fn is_memory_intensive(original_width: u32, original_height: u32, target_width: u32, target_height: u32) -> (r: bool)
    ensures
        r == spec_is_memory_intensive(original_width as nat, original_height as nat, target_width as nat, target_height as nat),
{
    let original = area(original_width, original_height) as u128;
    let target = area(target_width, target_height) as u128;
    let larger = if original >= target { original } else { target };
    larger * 4 > HIGH_MEMORY_THRESHOLD as u128
}

/// Whether `num / den >= a / b` (for positive denominators).
pub open spec fn spec_ratio_at_least(num: nat, den: nat, a: nat, b: nat) -> bool {
    num * b >= a * den
}

/// The filter for a scale: the smaller of the two axis scales picks Lanczos3
/// from one half up, CatmullRom from one quarter, Triangle below. A zero
/// original side counts as an unbounded scale on that axis.
pub open spec fn spec_suggest_filter(ow: nat, oh: nat, tw: nat, th: nat) -> FilterType {
    let at_least = |a: nat, b: nat|
        (ow == 0 || spec_ratio_at_least(tw, ow, a, b)) && (oh == 0 || spec_ratio_at_least(th, oh, a, b));
    if at_least(1, 2) {
        FilterType::Lanczos3
    } else if at_least(1, 4) {
        FilterType::CatmullRom
    } else {
        FilterType::Triangle
    }
}

fn scale_at_least(original: u32, target: u32, a: u64, b: u64) -> (r: bool)
    requires
        a <= 4,
        b <= 4,
    ensures
        r == (original == 0 || spec_ratio_at_least(target as nat, original as nat, a as nat, b as nat)),
{
    assert((target as nat) * (b as nat) <= 0xffff_ffffnat * 4) by (nonlinear_arith)
        requires target <= 0xffff_ffffu32, b <= 4;
    assert((a as nat) * (original as nat) <= 4 * 0xffff_ffffnat) by (nonlinear_arith)
        requires original <= 0xffff_ffffu32, a <= 4;
    original == 0 || (target as u64) * b >= a * (original as u64)
}

/// A filter suited to resizing from the original to the target size.
pub fn suggest_filter(original_width: u32, original_height: u32, target_width: u32, target_height: u32) -> (r: FilterType)
    ensures
        r == spec_suggest_filter(original_width as nat, original_height as nat, target_width as nat, target_height as nat),
{
    if scale_at_least(original_width, target_width, 1, 2) && scale_at_least(original_height, target_height, 1, 2) {
        FilterType::Lanczos3
    } else if scale_at_least(original_width, target_width, 1, 4) && scale_at_least(original_height, target_height, 1, 4) {
        FilterType::CatmullRom
    } else {
        FilterType::Triangle
    }
}

} // verus!
