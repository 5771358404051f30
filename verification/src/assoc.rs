//! The associated-type encoding.
//!
//! Each target type names one constraint type; every user-facing range
//! form digests into it once, up front, through [`IntoConstraint`]. A
//! single draw operation then branches on the record's tag. Because the
//! digestion (range width and acceptance threshold) happens outside the
//! draw, iterators built on this encoding pay it only once.

use vstd::prelude::*;

use crate::IntoConstraint;
use crate::entropy::Entropy;
use crate::ranges::BoundedRange;
use crate::ranges::FullRange;
use crate::ranges::LowerBoundedRange;
use crate::ranges::UpperBoundedRange;
use crate::sampler::after32;
use crate::sampler::after64;
use crate::sampler::compute_zone32;
use crate::sampler::compute_zone64;
use crate::sampler::draw32;
use crate::sampler::draw64;
use crate::sampler::lemma_signed_recover;
use crate::sampler::lemma_wrap_add32_exact;
use crate::sampler::sample_bounded32;
use crate::sampler::sample_bounded64;
use crate::sampler::signed64;
use crate::sampler::to_signed64;
use crate::sampler::to_unsigned64;
use crate::sampler::unsigned64;
use crate::sampler::wrap_add32;
use crate::sampler::wrap_add64;
use crate::sampler::zone32;
use crate::sampler::zone64;

verus! {

/// Data types that can be drawn at random under a digested constraint.
pub trait Random<E: Entropy>: Sized {
    /// The digested form of a range over `Self`.
    type Constraint;

    /// Digested records this type's draw accepts: the width is positive,
    /// the acceptance threshold matches it, and the interval fits the
    /// domain.
    spec fn valid(c: Self::Constraint) -> bool;

    /// The interval of values the constraint stands for.
    spec fn admits(c: Self::Constraint, x: Self) -> bool;

    /// The value one draw yields from a source that obeys its model.
    spec fn draw_model(c: Self::Constraint, e: E) -> Self;

    /// The source state one draw leaves behind.
    spec fn source_after(c: Self::Constraint, e: E) -> E;

    /// Draw one value in the constraint's interval.
    fn gen(c: &Self::Constraint, e: &mut E) -> (r: Self)
        requires
            Self::valid(*c),
        ensures
            Self::admits(*c, r),
            old(e).obeys_model() ==> (final(e).obeys_model() && r == Self::draw_model(
                *c,
                *old(e),
            ) && *final(e) == Self::source_after(*c, *old(e))),
    ;
}

/// Draw a single value, mediated by any range form that digests into the
/// target type's constraint.
pub fn gen<T: Random<E>, C: IntoConstraint<T::Constraint>, E: Entropy>(e: &mut E, c: C) -> (r: T)
    requires
        c.into_req(),
        T::valid(c.into_spec()),
    ensures
        T::admits(c.into_spec(), r),
        old(e).obeys_model() ==> (final(e).obeys_model() && r == T::draw_model(
            c.into_spec(),
            *old(e),
        ) && *final(e) == T::source_after(c.into_spec(), *old(e))),
{
    let cons = c.into_constraint();
    T::gen(&cons, e)
}

/// Start an infinite sequence of draws, digesting the range form once.
pub fn gen_iter<T: Random<E>, C: IntoConstraint<T::Constraint>, E: Entropy>(rng: E, c: C) -> (it:
    GenIter<T, E>)
    requires
        c.into_req(),
        T::valid(c.into_spec()),
    ensures
        it.constraint == c.into_spec(),
        it.rng == rng,
        T::valid(it.constraint),
{
    let cons = c.into_constraint();
    GenIter { constraint: cons, rng }
}

/// An infinite lazy sequence of draws; it owns its source and the digested
/// constraint.
pub struct GenIter<T: Random<E>, E: Entropy> {
    pub constraint: T::Constraint,
    pub rng: E,
}

impl<T: Random<E>, E: Entropy> GenIter<T, E> {
    /// The values the next `k` draws will yield from a source that obeys
    /// its model.
    pub open spec fn outputs(self, k: nat) -> Seq<T>
        decreases k,
    {
        if k == 0 {
            Seq::empty()
        } else {
            seq![T::draw_model(self.constraint, self.rng)] + (GenIter {
                constraint: self.constraint,
                rng: T::source_after(self.constraint, self.rng),
            }).outputs((k - 1) as nat)
        }
    }

    /// One more element of the sequence; the iterator never terminates.
    pub fn next(&mut self) -> (r: Option<T>)
        requires
            T::valid(self.constraint),
        ensures
            r is Some,
            r matches Some(x) && T::admits(old(self).constraint, x),
            final(self).constraint == old(self).constraint,
            old(self).rng.obeys_model() ==> (final(self).rng.obeys_model() && r == Some(
                T::draw_model(old(self).constraint, old(self).rng),
            ) && final(self).rng == T::source_after(old(self).constraint, old(self).rng)),
    {
        Some(T::gen(&self.constraint, &mut self.rng))
    }

    /// Collect the next `k` draws; on a source that obeys its model they
    /// are exactly the iterator's next `k` outputs.
    #[verifier::loop_isolation(false)]
    pub fn take(&mut self, k: usize) -> (out: Vec<T>)
        requires
            T::valid(self.constraint),
        ensures
            out.len() == k,
            final(self).constraint == old(self).constraint,
            old(self).rng.obeys_model() ==> (final(self).rng.obeys_model() && out@ == old(
                self,
            ).outputs(k as nat)),
    {
        let mut out: Vec<T> = Vec::new();
        let mut i: usize = 0;
        while i < k
            invariant
                i <= k,
                out.len() == i,
                self.constraint == old(self).constraint,
                old(self).rng.obeys_model() ==> (self.rng.obeys_model() && old(self).outputs(
                    k as nat,
                ) == out@ + self.outputs((k - i) as nat)),
            decreases k - i,
        {
            let ghost pre = *self;
            let ghost out_pre = out@;
            let x = match self.next() {
                Some(x) => x,
                None => {
                    proof {
                        assert(false);
                    }
                    return out;
                },
            };
            out.push(x);
            i = i + 1;
            proof {
                if old(self).rng.obeys_model() {
                    assert(pre.outputs((k - i + 1) as nat) == seq![x] + self.outputs(
                        (k - i) as nat,
                    ));
                    assert((out_pre + seq![x]) + self.outputs((k - i) as nat) =~= out_pre + (
                    seq![x] + self.outputs((k - i) as nat)));
                }
            }
        }
        proof {
            if old(self).rng.obeys_model() {
                assert(self.outputs(0) == Seq::<T>::empty());
                assert(out@ + Seq::<T>::empty() =~= out@);
            }
        }
        out
    }
}

/// The first `k` values of the draw sequence determined by a constraint
/// and a source that obeys its model.
pub open spec fn draw_seq<T: Random<E>, E: Entropy>(c: T::Constraint, e: E, k: nat) -> Seq<T>
    decreases k,
{
    if k == 0 {
        Seq::empty()
    } else {
        seq![T::draw_model(c, e)] + draw_seq::<T, E>(c, T::source_after(c, e), (k - 1) as nat)
    }
}

/// Taking `k` elements from an iterator equals making `k` single draws
/// from an identical source: the iterator adds nothing to a draw beyond
/// caching the digested constraint.
pub proof fn lemma_iter_equals_scalar<T: Random<E>, E: Entropy>(c: T::Constraint, e: E, k: nat)
    ensures
        (GenIter::<T, E> { constraint: c, rng: e }).outputs(k) == draw_seq::<T, E>(c, e, k),
    decreases k,
{
    if k > 0 {
        lemma_iter_equals_scalar::<T, E>(c, T::source_after(c, e), (k - 1) as nat);
    }
}

/// The digested form of an integer range: either the whole domain or a
/// low end with a width and an acceptance threshold, all in the unsigned
/// image of the target type.
pub enum IntegerConstraintKind<X> {
    Full,
    Bounded { low: X, range: X, accept_zone: X },
}

/// Constraints for generating integers; build one from a range form via
/// `IntoConstraint`.
pub struct IntegerConstraint<X> {
    pub inner: IntegerConstraintKind<X>,
}

impl<E: Entropy> Random<E> for u32 {
    type Constraint = IntegerConstraint<u32>;

    open spec fn valid(c: IntegerConstraint<u32>) -> bool {
        match c.inner {
            IntegerConstraintKind::Full => true,
            IntegerConstraintKind::Bounded { low, range, accept_zone } => range > 0 && accept_zone
                == zone32(range) && low + range <= 0x1_0000_0000int,
        }
    }

    open spec fn admits(c: IntegerConstraint<u32>, x: u32) -> bool {
        match c.inner {
            IntegerConstraintKind::Full => true,
            IntegerConstraintKind::Bounded { low, range, accept_zone } => low <= x && x < low
                + range,
        }
    }

    open spec fn draw_model(c: IntegerConstraint<u32>, e: E) -> u32 {
        match c.inner {
            IntegerConstraintKind::Full => e.peek32(),
            IntegerConstraintKind::Bounded { low, range, accept_zone } => draw32(
                e,
                low,
                range,
                accept_zone,
            ),
        }
    }

    open spec fn source_after(c: IntegerConstraint<u32>, e: E) -> E {
        match c.inner {
            IntegerConstraintKind::Full => e.skip32(),
            IntegerConstraintKind::Bounded { low, range, accept_zone } => after32(e, accept_zone),
        }
    }

    fn gen(c: &IntegerConstraint<u32>, e: &mut E) -> (r: u32) {
        match &c.inner {
            IntegerConstraintKind::Full => e.next32(),
            IntegerConstraintKind::Bounded { low, range, accept_zone } => {
                let r = sample_bounded32(*low, *range, *accept_zone, e);
                proof {
                    let k = choose|k: u32| k < *range && r == wrap_add32(*low, k);
                    lemma_wrap_add32_exact(*low, k);
                }
                r
            },
        }
    }
}

impl<E: Entropy> Random<E> for i64 {
    type Constraint = IntegerConstraint<u64>;

    open spec fn valid(c: IntegerConstraint<u64>) -> bool {
        match c.inner {
            IntegerConstraintKind::Full => true,
            IntegerConstraintKind::Bounded { low, range, accept_zone } => range > 0 && accept_zone
                == zone64(range) && signed64(low) + range <= 0x8000_0000_0000_0000int,
        }
    }

    open spec fn admits(c: IntegerConstraint<u64>, x: i64) -> bool {
        match c.inner {
            IntegerConstraintKind::Full => true,
            IntegerConstraintKind::Bounded { low, range, accept_zone } => signed64(low) <= x && x
                < signed64(low) + range,
        }
    }

    open spec fn draw_model(c: IntegerConstraint<u64>, e: E) -> i64 {
        match c.inner {
            IntegerConstraintKind::Full => signed64(e.peek64()) as i64,
            IntegerConstraintKind::Bounded { low, range, accept_zone } => signed64(
                draw64(e, low, range, accept_zone),
            ) as i64,
        }
    }

    open spec fn source_after(c: IntegerConstraint<u64>, e: E) -> E {
        match c.inner {
            IntegerConstraintKind::Full => e.skip64(),
            IntegerConstraintKind::Bounded { low, range, accept_zone } => after64(e, accept_zone),
        }
    }

    fn gen(c: &IntegerConstraint<u64>, e: &mut E) -> (r: i64) {
        match &c.inner {
            IntegerConstraintKind::Full => {
                let w = e.next64();
                to_signed64(w)
            },
            IntegerConstraintKind::Bounded { low, range, accept_zone } => {
                let w = sample_bounded64(*low, *range, *accept_zone, e);
                proof {
                    let k = choose|k: u64| k < *range && w == wrap_add64(*low, k);
                    lemma_signed_recover(*low, k);
                }
                to_signed64(w)
            },
        }
    }
}

impl IntoConstraint<IntegerConstraint<u32>> for FullRange {
    open spec fn into_req(self) -> bool {
        true
    }

    open spec fn into_spec(self) -> IntegerConstraint<u32> {
        IntegerConstraint { inner: IntegerConstraintKind::Full }
    }

    fn into_constraint(self) -> (r: IntegerConstraint<u32>) {
        IntegerConstraint { inner: IntegerConstraintKind::Full }
    }
}

impl IntoConstraint<IntegerConstraint<u32>> for BoundedRange<u32> {
    open spec fn into_req(self) -> bool {
        self.start < self.end
    }

    open spec fn into_spec(self) -> IntegerConstraint<u32> {
        IntegerConstraint {
            inner: IntegerConstraintKind::Bounded {
                low: self.start,
                range: (self.end - self.start) as u32,
                accept_zone: zone32((self.end - self.start) as u32),
            },
        }
    }

    fn into_constraint(self) -> (r: IntegerConstraint<u32>) {
        let range = self.end - self.start;
        let accept_zone = compute_zone32(range);
        IntegerConstraint {
            inner: IntegerConstraintKind::Bounded { low: self.start, range, accept_zone },
        }
    }
}

impl IntoConstraint<IntegerConstraint<u32>> for LowerBoundedRange<u32> {
    open spec fn into_req(self) -> bool {
        true
    }

    open spec fn into_spec(self) -> IntegerConstraint<u32> {
        if self.start == 0 {
            IntegerConstraint { inner: IntegerConstraintKind::Full }
        } else {
            IntegerConstraint {
                inner: IntegerConstraintKind::Bounded {
                    low: self.start,
                    range: (0x1_0000_0000int - self.start) as u32,
                    accept_zone: zone32((0x1_0000_0000int - self.start) as u32),
                },
            }
        }
    }

    fn into_constraint(self) -> (r: IntegerConstraint<u32>) {
        if self.start == 0 {
            IntegerConstraint { inner: IntegerConstraintKind::Full }
        } else {
            let range = 0u32.wrapping_sub(self.start);
            let accept_zone = compute_zone32(range);
            IntegerConstraint {
                inner: IntegerConstraintKind::Bounded { low: self.start, range, accept_zone },
            }
        }
    }
}

impl IntoConstraint<IntegerConstraint<u32>> for UpperBoundedRange<u32> {
    open spec fn into_req(self) -> bool {
        self.end > 0
    }

    open spec fn into_spec(self) -> IntegerConstraint<u32> {
        IntegerConstraint {
            inner: IntegerConstraintKind::Bounded {
                low: 0,
                range: self.end,
                accept_zone: zone32(self.end),
            },
        }
    }

    fn into_constraint(self) -> (r: IntegerConstraint<u32>) {
        let accept_zone = compute_zone32(self.end);
        IntegerConstraint {
            inner: IntegerConstraintKind::Bounded { low: 0, range: self.end, accept_zone },
        }
    }
}

impl IntoConstraint<IntegerConstraint<u64>> for FullRange {
    open spec fn into_req(self) -> bool {
        true
    }

    open spec fn into_spec(self) -> IntegerConstraint<u64> {
        IntegerConstraint { inner: IntegerConstraintKind::Full }
    }

    fn into_constraint(self) -> (r: IntegerConstraint<u64>) {
        IntegerConstraint { inner: IntegerConstraintKind::Full }
    }
}

impl IntoConstraint<IntegerConstraint<u64>> for BoundedRange<i64> {
    open spec fn into_req(self) -> bool {
        self.start < self.end
    }

    open spec fn into_spec(self) -> IntegerConstraint<u64> {
        IntegerConstraint {
            inner: IntegerConstraintKind::Bounded {
                low: unsigned64(self.start),
                range: (self.end - self.start) as u64,
                accept_zone: zone64((self.end - self.start) as u64),
            },
        }
    }

    fn into_constraint(self) -> (r: IntegerConstraint<u64>) {
        let low = to_unsigned64(self.start);
        let hi = to_unsigned64(self.end);
        let range = hi.wrapping_sub(low);
        let accept_zone = compute_zone64(range);
        IntegerConstraint { inner: IntegerConstraintKind::Bounded { low, range, accept_zone } }
    }
}

impl IntoConstraint<IntegerConstraint<u64>> for LowerBoundedRange<i64> {
    open spec fn into_req(self) -> bool {
        true
    }

    open spec fn into_spec(self) -> IntegerConstraint<u64> {
        if self.start == i64::MIN {
            IntegerConstraint { inner: IntegerConstraintKind::Full }
        } else {
            IntegerConstraint {
                inner: IntegerConstraintKind::Bounded {
                    low: unsigned64(self.start),
                    range: (0x8000_0000_0000_0000int - self.start) as u64,
                    accept_zone: zone64((0x8000_0000_0000_0000int - self.start) as u64),
                },
            }
        }
    }

    fn into_constraint(self) -> (r: IntegerConstraint<u64>) {
        if self.start == i64::MIN {
            IntegerConstraint { inner: IntegerConstraintKind::Full }
        } else {
            let low = to_unsigned64(self.start);
            let range = 0x8000_0000_0000_0000u64.wrapping_sub(low);
            let accept_zone = compute_zone64(range);
            IntegerConstraint { inner: IntegerConstraintKind::Bounded { low, range, accept_zone } }
        }
    }
}

/// Constraints for generating floating-point values: either the whole
/// unit-interval domain or a half-open interval stored verbatim. The
/// floating-point draw itself lives outside the verified core.
pub struct FloatConstraint<X> {
    pub inner: Option<BoundedRange<X>>,
}

impl<X> IntoConstraint<FloatConstraint<X>> for FullRange {
    open spec fn into_req(self) -> bool {
        true
    }

    open spec fn into_spec(self) -> FloatConstraint<X> {
        FloatConstraint { inner: None }
    }

    fn into_constraint(self) -> (r: FloatConstraint<X>) {
        FloatConstraint { inner: None }
    }
}

impl<X> IntoConstraint<FloatConstraint<X>> for BoundedRange<X> {
    open spec fn into_req(self) -> bool {
        true
    }

    open spec fn into_spec(self) -> FloatConstraint<X> {
        FloatConstraint { inner: Some(self) }
    }

    fn into_constraint(self) -> (r: FloatConstraint<X>) {
        FloatConstraint { inner: Some(self) }
    }
}

} // verus!
