//! A study of three API shapes for drawing uniformly distributed values
//! under an optional range constraint, built on one shared rejection
//! sampler.
//!
//! The `assoc` encoding digests a range into a cached constraint record,
//! the `stream` encoding types the digested state by its kind, and the
//! `typeparam` encoding redoes the digestion on every draw. All three draw
//! through the sampler in [`sampler`], and their contracts pin each result
//! to the same ghost draw functions, so equal sources and equal ranges give
//! equal output sequences in every encoding.

use vstd::prelude::*;

pub mod assoc;
pub mod entropy;
pub mod laws;
pub mod ranges;
pub mod sampler;
pub mod stream;
pub mod typeparam;

verus! {

/// Conversion from a user-facing range form into a digested constraint.
pub trait IntoConstraint<Target>: Sized {
    /// When the range form is acceptable (a bounded range must be
    /// non-empty).
    spec fn into_req(self) -> bool;

    /// The constraint this range form digests to.
    spec fn into_spec(self) -> Target;

    /// Digest the range form.
    fn into_constraint(self) -> (r: Target)
        requires
            self.into_req(),
        ensures
            r == self.into_spec(),
    ;
}

} // verus!
