//! Device-selection and concurrent-adjustment engine for display brightness.
//!
//! The library holds the decision logic of a brightness command-line tool:
//! which devices a selector keeps, what level an adjustment command writes,
//! how a bounded-concurrency pass over the devices is scheduled, and what
//! each report line says. The surrounding binary performs the operating
//! system calls and hands the results to these functions as plain values.
//!
//! Device positions are numbered from 0, both for index-based selection and
//! in report lines.
use vstd::prelude::*;

pub mod command;
pub mod engine;
pub mod error;
pub mod render;
pub mod report;
pub mod selector;

verus! {

/// Highest legal brightness level, in percent.
pub const MAX_BRIGHTNESS: u32 = 100;

/// Lowest level the tool will write. A policy floor, not the hardware zero:
/// many panels black out or flicker below a vendor-specific minimum.
pub const MIN_BRIGHTNESS: u32 = 5;

/// Most device operations allowed in flight at once during an adjustment
/// pass, protecting slow display buses from unbounded parallel access.
pub const MAX_CONCURRENCY: usize = 5;

} // verus!
