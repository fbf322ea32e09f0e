//! Scalar value types shared by claim records and standardized resources,
//! and the error surface of the transformation engine.

use vstd::prelude::*;

verus! {

/// An exact decimal number, `unscaled * 10^(-scale)`.
///
/// Monetary amounts and dispensed quantities are carried through the
/// transformation without any rounding, so they are modeled as an unscaled
/// integer plus a decimal-point position rather than as a float.
#[derive(Clone, Copy, PartialEq, Eq, Structural, Debug)]
pub struct Decimal {
    pub unscaled: i64,
    pub scale: u32,
}

/// A calendar date as plain year / month / day numbers.
#[derive(Clone, Copy, PartialEq, Eq, Structural, Debug)]
pub struct Date {
    pub year: u16,
    pub month: u8,
    pub day: u8,
}

/// The failures the transformation engine can surface.
pub enum MapError {
    /// The claim record violates a domain rule the mapper enforces; the
    /// message names the offending field.
    InvalidSourceData(String),
    /// The resource count cannot be represented in the bundle's total field.
    NumericOverflow,
}

} // verus!
