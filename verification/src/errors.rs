//! Errors raised by attribute constructors, bounds setters and conversions.
//!
//! Every other attribute operation absorbs invalid input (clamping, or the
//! zero-divisor no-op) instead of failing, so this set stays small.

use vstd::prelude::*;

verus! {

/// An error that can occur when using attributes.
///
/// Bounds violations carry the two offending values for diagnostics;
/// conversion failures carry a human-readable message.
#[derive(Debug, Clone)]
pub enum AttributeError {
    /// A bounds-setting operation was asked to make the minimum greater
    /// than the maximum. Carries `(min, max)` as given by the caller.
    MinGreaterThanMax(i32, i32),
    /// A bounds-setting operation was asked to make the maximum less
    /// than the minimum. Carries `(max, min)` as given by the caller.
    MaxLessThanMin(i32, i32),
    /// A narrowing conversion failed; the message says why.
    ConversionError(String),
}

impl PartialEq for AttributeError {
    fn eq(&self, other: &Self) -> (r: bool) {
        match (self, other) {
            (
                AttributeError::MinGreaterThanMax(a, b),
                AttributeError::MinGreaterThanMax(c, d),
            ) => *a == *c && *b == *d,
            (
                AttributeError::MaxLessThanMin(a, b),
                AttributeError::MaxLessThanMin(c, d),
            ) => *a == *c && *b == *d,
            (
                AttributeError::ConversionError(s),
                AttributeError::ConversionError(t),
            ) => s.eq(t),
            _ => false,
        }
    }
}

impl vstd::std_specs::cmp::PartialEqSpecImpl for AttributeError {
    open spec fn obeys_eq_spec() -> bool {
        true
    }

    open spec fn eq_spec(&self, other: &Self) -> bool {
        match (self, other) {
            (
                AttributeError::MinGreaterThanMax(a, b),
                AttributeError::MinGreaterThanMax(c, d),
            ) => a == c && b == d,
            (
                AttributeError::MaxLessThanMin(a, b),
                AttributeError::MaxLessThanMin(c, d),
            ) => a == c && b == d,
            (
                AttributeError::ConversionError(s),
                AttributeError::ConversionError(t),
            ) => s@ == t@,
            _ => false,
        }
    }
}

} // verus!
