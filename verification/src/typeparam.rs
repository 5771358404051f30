//! The type-parameter encoding.
//!
//! The draw operation is polymorphic over the range form itself rather
//! than over a digested record, so the width and the acceptance threshold
//! are recomputed on every draw. The encoding is kept as a negative
//! result: hoisting that recomputation out of an iterator loop is left to
//! the optimizer, which does not reliably oblige.

use vstd::prelude::*;

use crate::entropy::Entropy;
use crate::ranges::BoundedRange;
use crate::ranges::FullRange;
use crate::ranges::LowerBoundedRange;
use crate::ranges::UpperBoundedRange;
use crate::sampler::after32;
use crate::sampler::after64;
use crate::sampler::compute_zone32;
use crate::sampler::compute_zone64;
use crate::sampler::draw32;
use crate::sampler::draw64;
use crate::sampler::lemma_signed_recover;
use crate::sampler::lemma_wrap_add32_exact;
use crate::sampler::sample_bounded32;
use crate::sampler::sample_bounded64;
use crate::sampler::signed64;
use crate::sampler::to_signed64;
use crate::sampler::to_unsigned64;
use crate::sampler::unsigned64;
use crate::sampler::wrap_add32;
use crate::sampler::wrap_add64;
use crate::sampler::zone32;
use crate::sampler::zone64;
use core::marker::PhantomData;

verus! {

/// Data types that can be drawn at random, with the range form as a type
/// parameter and no cached digestion.
pub trait Random<Constraint, E: Entropy>: Sized {
    /// When the range form is acceptable.
    spec fn gen_req(c: Constraint) -> bool;

    /// The interval of values the range form stands for.
    spec fn admits(c: Constraint, x: Self) -> bool;

    /// The value one draw yields from a source that obeys its model.
    spec fn draw_model(c: Constraint, e: E) -> Self;

    /// The source state one draw leaves behind.
    spec fn source_after(c: Constraint, e: E) -> E;

    /// Draw one value in the range form's interval.
    fn gen(c: &Constraint, e: &mut E) -> (r: Self)
        requires
            Self::gen_req(*c),
        ensures
            Self::admits(*c, r),
            old(e).obeys_model() ==> (final(e).obeys_model() && r == Self::draw_model(
                *c,
                *old(e),
            ) && *final(e) == Self::source_after(*c, *old(e))),
    ;
}

/// Draw a single value, mediated by `constraint`.
pub fn gen<T: Random<C, E>, C, E: Entropy>(e: &mut E, constraint: C) -> (r: T)
    requires
        T::gen_req(constraint),
    ensures
        T::admits(constraint, r),
        old(e).obeys_model() ==> (final(e).obeys_model() && r == T::draw_model(
            constraint,
            *old(e),
        ) && *final(e) == T::source_after(constraint, *old(e))),
{
    T::gen(&constraint, e)
}

/// Start an infinite sequence of draws; the range form is stored as it
/// is and redigested on every draw.
pub fn gen_iter<T: Random<C, E>, C, E: Entropy>(rng: E, constraint: C) -> (it: GenIter<T, C, E>)
    requires
        T::gen_req(constraint),
    ensures
        it.constraint == constraint,
        it.rng == rng,
{
    GenIter { constraint, rng, marker: PhantomData }
}

/// An infinite lazy sequence of draws; it owns its source and the range
/// form.
pub struct GenIter<T: Random<C, E>, C, E: Entropy> {
    pub constraint: C,
    pub rng: E,
    pub marker: PhantomData<T>,
}

impl<T: Random<C, E>, C, E: Entropy> GenIter<T, C, E> {
    /// The values the next `k` draws will yield from a source that obeys
    /// its model.
    pub open spec fn outputs(self, k: nat) -> Seq<T>
        decreases k,
    {
        if k == 0 {
            Seq::empty()
        } else {
            seq![T::draw_model(self.constraint, self.rng)] + (GenIter {
                constraint: self.constraint,
                rng: T::source_after(self.constraint, self.rng),
                marker: self.marker,
            }).outputs((k - 1) as nat)
        }
    }

    /// One more element of the sequence; the iterator never terminates.
    pub fn next(&mut self) -> (r: Option<T>)
        requires
            T::gen_req(self.constraint),
        ensures
            r is Some,
            r matches Some(x) && T::admits(old(self).constraint, x),
            final(self).constraint == old(self).constraint,
            old(self).rng.obeys_model() ==> (final(self).rng.obeys_model() && r == Some(
                T::draw_model(old(self).constraint, old(self).rng),
            ) && final(self).rng == T::source_after(old(self).constraint, old(self).rng)),
    {
        Some(T::gen(&self.constraint, &mut self.rng))
    }

    /// Collect the next `k` draws; on a source that obeys its model they
    /// are exactly the iterator's next `k` outputs.
    #[verifier::loop_isolation(false)]
    pub fn take(&mut self, k: usize) -> (out: Vec<T>)
        requires
            T::gen_req(self.constraint),
        ensures
            out.len() == k,
            final(self).constraint == old(self).constraint,
            old(self).rng.obeys_model() ==> (final(self).rng.obeys_model() && out@ == old(
                self,
            ).outputs(k as nat)),
    {
        let mut out: Vec<T> = Vec::new();
        let mut i: usize = 0;
        while i < k
            invariant
                i <= k,
                out.len() == i,
                self.constraint == old(self).constraint,
                self.marker == old(self).marker,
                old(self).rng.obeys_model() ==> (self.rng.obeys_model() && old(self).outputs(
                    k as nat,
                ) == out@ + self.outputs((k - i) as nat)),
            decreases k - i,
        {
            let ghost pre = *self;
            let ghost out_pre = out@;
            let x = match self.next() {
                Some(x) => x,
                None => {
                    proof {
                        assert(false);
                    }
                    return out;
                },
            };
            out.push(x);
            i = i + 1;
            proof {
                if old(self).rng.obeys_model() {
                    assert(pre.outputs((k - i + 1) as nat) == seq![x] + self.outputs(
                        (k - i) as nat,
                    ));
                    assert((out_pre + seq![x]) + self.outputs((k - i) as nat) =~= out_pre + (
                    seq![x] + self.outputs((k - i) as nat)));
                }
            }
        }
        proof {
            if old(self).rng.obeys_model() {
                assert(self.outputs(0) == Seq::<T>::empty());
                assert(out@ + Seq::<T>::empty() =~= out@);
            }
        }
        out
    }
}

impl<E: Entropy> Random<FullRange, E> for u32 {
    open spec fn gen_req(c: FullRange) -> bool {
        true
    }

    open spec fn admits(c: FullRange, x: u32) -> bool {
        true
    }

    open spec fn draw_model(c: FullRange, e: E) -> u32 {
        e.peek32()
    }

    open spec fn source_after(c: FullRange, e: E) -> E {
        e.skip32()
    }

    fn gen(c: &FullRange, e: &mut E) -> (r: u32) {
        e.next32()
    }
}

impl<E: Entropy> Random<BoundedRange<u32>, E> for u32 {
    open spec fn gen_req(c: BoundedRange<u32>) -> bool {
        c.start < c.end
    }

    open spec fn admits(c: BoundedRange<u32>, x: u32) -> bool {
        c.start <= x && x < c.end
    }

    open spec fn draw_model(c: BoundedRange<u32>, e: E) -> u32 {
        draw32(e, c.start, (c.end - c.start) as u32, zone32((c.end - c.start) as u32))
    }

    open spec fn source_after(c: BoundedRange<u32>, e: E) -> E {
        after32(e, zone32((c.end - c.start) as u32))
    }

    fn gen(c: &BoundedRange<u32>, e: &mut E) -> (r: u32) {
        let range = c.end - c.start;
        let zone = compute_zone32(range);
        let r = sample_bounded32(c.start, range, zone, e);
        proof {
            let k = choose|k: u32| k < range && r == wrap_add32(c.start, k);
            lemma_wrap_add32_exact(c.start, k);
        }
        r
    }
}

impl<E: Entropy> Random<UpperBoundedRange<u32>, E> for u32 {
    open spec fn gen_req(c: UpperBoundedRange<u32>) -> bool {
        c.end > 0
    }

    open spec fn admits(c: UpperBoundedRange<u32>, x: u32) -> bool {
        x < c.end
    }

    open spec fn draw_model(c: UpperBoundedRange<u32>, e: E) -> u32 {
        <u32 as Random<BoundedRange<u32>, E>>::draw_model(BoundedRange { start: 0, end: c.end }, e)
    }

    open spec fn source_after(c: UpperBoundedRange<u32>, e: E) -> E {
        <u32 as Random<BoundedRange<u32>, E>>::source_after(
            BoundedRange { start: 0, end: c.end },
            e,
        )
    }

    fn gen(c: &UpperBoundedRange<u32>, e: &mut E) -> (r: u32) {
        <u32 as Random<BoundedRange<u32>, E>>::gen(&BoundedRange { start: 0, end: c.end }, e)
    }
}

impl<E: Entropy> Random<LowerBoundedRange<u32>, E> for u32 {
    open spec fn gen_req(c: LowerBoundedRange<u32>) -> bool {
        true
    }

    open spec fn admits(c: LowerBoundedRange<u32>, x: u32) -> bool {
        c.start <= x
    }

    open spec fn draw_model(c: LowerBoundedRange<u32>, e: E) -> u32 {
        if c.start == 0 {
            e.peek32()
        } else {
            draw32(
                e,
                c.start,
                (0x1_0000_0000int - c.start) as u32,
                zone32((0x1_0000_0000int - c.start) as u32),
            )
        }
    }

    open spec fn source_after(c: LowerBoundedRange<u32>, e: E) -> E {
        if c.start == 0 {
            e.skip32()
        } else {
            after32(e, zone32((0x1_0000_0000int - c.start) as u32))
        }
    }

    fn gen(c: &LowerBoundedRange<u32>, e: &mut E) -> (r: u32) {
        if c.start == 0 {
            return e.next32();
        }
        let range = 0u32.wrapping_sub(c.start);
        let zone = compute_zone32(range);
        let r = sample_bounded32(c.start, range, zone, e);
        proof {
            let k = choose|k: u32| k < range && r == wrap_add32(c.start, k);
            lemma_wrap_add32_exact(c.start, k);
        }
        r
    }
}

impl<E: Entropy> Random<FullRange, E> for i64 {
    open spec fn gen_req(c: FullRange) -> bool {
        true
    }

    open spec fn admits(c: FullRange, x: i64) -> bool {
        true
    }

    open spec fn draw_model(c: FullRange, e: E) -> i64 {
        signed64(e.peek64()) as i64
    }

    open spec fn source_after(c: FullRange, e: E) -> E {
        e.skip64()
    }

    fn gen(c: &FullRange, e: &mut E) -> (r: i64) {
        let w = e.next64();
        to_signed64(w)
    }
}

impl<E: Entropy> Random<BoundedRange<i64>, E> for i64 {
    open spec fn gen_req(c: BoundedRange<i64>) -> bool {
        c.start < c.end
    }

    open spec fn admits(c: BoundedRange<i64>, x: i64) -> bool {
        c.start <= x && x < c.end
    }

    open spec fn draw_model(c: BoundedRange<i64>, e: E) -> i64 {
        signed64(
            draw64(
                e,
                unsigned64(c.start),
                (c.end - c.start) as u64,
                zone64((c.end - c.start) as u64),
            ),
        ) as i64
    }

    open spec fn source_after(c: BoundedRange<i64>, e: E) -> E {
        after64(e, zone64((c.end - c.start) as u64))
    }

    fn gen(c: &BoundedRange<i64>, e: &mut E) -> (r: i64) {
        let low = to_unsigned64(c.start);
        let hi = to_unsigned64(c.end);
        let range = hi.wrapping_sub(low);
        let zone = compute_zone64(range);
        let w = sample_bounded64(low, range, zone, e);
        proof {
            let k = choose|k: u64| k < range && w == wrap_add64(low, k);
            lemma_signed_recover(low, k);
        }
        to_signed64(w)
    }
}

impl<E: Entropy> Random<LowerBoundedRange<i64>, E> for i64 {
    open spec fn gen_req(c: LowerBoundedRange<i64>) -> bool {
        true
    }

    open spec fn admits(c: LowerBoundedRange<i64>, x: i64) -> bool {
        c.start <= x
    }

    open spec fn draw_model(c: LowerBoundedRange<i64>, e: E) -> i64 {
        if c.start == i64::MIN {
            signed64(e.peek64()) as i64
        } else {
            signed64(
                draw64(
                    e,
                    unsigned64(c.start),
                    (0x8000_0000_0000_0000int - c.start) as u64,
                    zone64((0x8000_0000_0000_0000int - c.start) as u64),
                ),
            ) as i64
        }
    }

    open spec fn source_after(c: LowerBoundedRange<i64>, e: E) -> E {
        if c.start == i64::MIN {
            e.skip64()
        } else {
            after64(e, zone64((0x8000_0000_0000_0000int - c.start) as u64))
        }
    }

    fn gen(c: &LowerBoundedRange<i64>, e: &mut E) -> (r: i64) {
        if c.start == i64::MIN {
            let w = e.next64();
            return to_signed64(w);
        }
        let low = to_unsigned64(c.start);
        let range = 0x8000_0000_0000_0000u64.wrapping_sub(low);
        let zone = compute_zone64(range);
        let w = sample_bounded64(low, range, zone, e);
        proof {
            let k = choose|k: u64| k < range && w == wrap_add64(low, k);
            lemma_signed_recover(low, k);
        }
        to_signed64(w)
    }
}

} // verus!
