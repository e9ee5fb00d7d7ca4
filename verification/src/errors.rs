//! Failures that the core can diagnose by itself.
//!
//! Read, write and ioctl failures on the terminal descriptors happen
//! outside this crate and never reach it; the core only ever rejects
//! values it is handed.

use vstd::prelude::*;

verus! {

/// A value handed to the core that it rejects.
#[derive(Clone, Copy, PartialEq, Eq, Structural, Debug)]
pub enum CoreError {
    /// The reply to a cursor-report request does not have the shape
    /// `ESC [ row ; col R` with both fields decimal numbers in range.
    MalformedGeometryReport,
    /// A screen geometry with zero rows or zero columns.
    InvalidGeometry,
}

} // verus!
