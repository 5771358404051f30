//! User-facing range descriptors.
//!
//! Four shapes describe a target interval: the whole domain, a half-open
//! interval `start..end`, everything from `start` up to the type maximum,
//! and everything from zero up to `end`.

use vstd::prelude::*;

verus! {

/// The whole domain of the target type.
#[derive(Clone, Copy)]
pub struct FullRange;

/// The half-open interval `start <= x < end`; only non-empty intervals are
/// accepted.
pub struct BoundedRange<X> {
    pub start: X,
    pub end: X,
}

/// The interval from `start` to the maximum of the target type, inclusive.
pub struct LowerBoundedRange<X> {
    pub start: X,
}

/// The half-open interval from zero: `0 <= x < end`.
pub struct UpperBoundedRange<X> {
    pub end: X,
}

} // verus!
