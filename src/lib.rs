//! Batch image-resizing core: priority scheduling, memory accounting,
//! buffer pooling, batch aggregation and progress tracking.

pub mod batch;
pub mod cli;
pub mod error;
pub mod format;
pub mod memory;
pub mod naming;
pub mod progress;
pub mod resize;
pub mod scheduler;
pub mod validation;
pub mod text;

use vstd::prelude::*;

verus! {

/// Version of the library.
pub const VERSION: &'static str = "0.1.0";

} // verus!
