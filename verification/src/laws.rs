//! Laws that tie the encodings together.
//!
//! Every encoding states its draws with the ghost functions of
//! [`crate::sampler`], so sameness of behaviour across encodings is a
//! matter of unfolding; the proof functions here write that sameness
//! down, together with the degenerate reductions of the from-range
//! shapes.

use vstd::prelude::*;

use crate::IntoConstraint;
use crate::assoc;
use crate::entropy::Entropy;
use crate::ranges::BoundedRange;
use crate::ranges::FullRange;
use crate::ranges::LowerBoundedRange;
use crate::stream;
use crate::stream::RandStream;
use crate::typeparam;

verus! {

/// A from-zero range over `u32` and a from-minimum range over `i64`
/// degenerate to the whole domain: digestion takes the unbounded path and
/// the draw skips rejection entirely.
pub proof fn lemma_degenerate_from_is_full()
    ensures
        <LowerBoundedRange<u32> as IntoConstraint<assoc::IntegerConstraint<u32>>>::into_spec(
            LowerBoundedRange { start: 0u32 },
        ).inner is Full,
        <LowerBoundedRange<i64> as IntoConstraint<assoc::IntegerConstraint<u64>>>::into_spec(
            LowerBoundedRange { start: i64::MIN },
        ).inner is Full,
{
}

/// For the whole `u32` domain, the three encodings consume one raw word
/// and return it: equal sources give equal draws and equal states after.
pub proof fn lemma_encodings_agree_full_u32<E: Entropy>(e: E)
    ensures
        <u32 as assoc::Random<E>>::draw_model(
            <FullRange as IntoConstraint<assoc::IntegerConstraint<u32>>>::into_spec(FullRange),
            e,
        ) == <u32 as typeparam::Random<FullRange, E>>::draw_model(FullRange, e),
        <u32 as stream::Rand<FullRange, E>>::rand_spec(FullRange).draw_model(e) == <u32 as
            typeparam::Random<FullRange, E>>::draw_model(FullRange, e),
        <u32 as assoc::Random<E>>::source_after(
            <FullRange as IntoConstraint<assoc::IntegerConstraint<u32>>>::into_spec(FullRange),
            e,
        ) == <u32 as typeparam::Random<FullRange, E>>::source_after(FullRange, e),
        <u32 as stream::Rand<FullRange, E>>::rand_spec(FullRange).source_after(e) == <u32 as
            typeparam::Random<FullRange, E>>::source_after(FullRange, e),
{
}

/// For a half-open `u32` range, the three encodings digest the same low
/// end, width and acceptance threshold, so equal sources give equal draws
/// and equal states after.
pub proof fn lemma_encodings_agree_bounded_u32<E: Entropy>(r: BoundedRange<u32>, e: E)
    requires
        r.start < r.end,
    ensures
        <u32 as assoc::Random<E>>::draw_model(
            <BoundedRange<u32> as IntoConstraint<assoc::IntegerConstraint<u32>>>::into_spec(r),
            e,
        ) == <u32 as typeparam::Random<BoundedRange<u32>, E>>::draw_model(r, e),
        <u32 as stream::Rand<BoundedRange<u32>, E>>::rand_spec(r).draw_model(e) == <u32 as
            typeparam::Random<BoundedRange<u32>, E>>::draw_model(r, e),
        <u32 as assoc::Random<E>>::source_after(
            <BoundedRange<u32> as IntoConstraint<assoc::IntegerConstraint<u32>>>::into_spec(r),
            e,
        ) == <u32 as typeparam::Random<BoundedRange<u32>, E>>::source_after(r, e),
        <u32 as stream::Rand<BoundedRange<u32>, E>>::rand_spec(r).source_after(e) == <u32 as
            typeparam::Random<BoundedRange<u32>, E>>::source_after(r, e),
{
}

/// For a from-range over `u32`, the associated-type and the
/// type-parameter encodings agree; the stream encoding has no from-range
/// form.
pub proof fn lemma_encodings_agree_from_u32<E: Entropy>(r: LowerBoundedRange<u32>, e: E)
    ensures
        <u32 as assoc::Random<E>>::draw_model(
            <LowerBoundedRange<u32> as IntoConstraint<assoc::IntegerConstraint<u32>>>::into_spec(
                r,
            ),
            e,
        ) == <u32 as typeparam::Random<LowerBoundedRange<u32>, E>>::draw_model(r, e),
        <u32 as assoc::Random<E>>::source_after(
            <LowerBoundedRange<u32> as IntoConstraint<assoc::IntegerConstraint<u32>>>::into_spec(
                r,
            ),
            e,
        ) == <u32 as typeparam::Random<LowerBoundedRange<u32>, E>>::source_after(r, e),
{
}

/// For the whole `i64` domain, the three encodings consume one raw word
/// and reinterpret its bit pattern: equal sources agree throughout.
pub proof fn lemma_encodings_agree_full_i64<E: Entropy>(e: E)
    ensures
        <i64 as assoc::Random<E>>::draw_model(
            <FullRange as IntoConstraint<assoc::IntegerConstraint<u64>>>::into_spec(FullRange),
            e,
        ) == <i64 as typeparam::Random<FullRange, E>>::draw_model(FullRange, e),
        <i64 as stream::Rand<FullRange, E>>::rand_spec(FullRange).draw_model(e) == <i64 as
            typeparam::Random<FullRange, E>>::draw_model(FullRange, e),
        <i64 as assoc::Random<E>>::source_after(
            <FullRange as IntoConstraint<assoc::IntegerConstraint<u64>>>::into_spec(FullRange),
            e,
        ) == <i64 as typeparam::Random<FullRange, E>>::source_after(FullRange, e),
        <i64 as stream::Rand<FullRange, E>>::rand_spec(FullRange).source_after(e) == <i64 as
            typeparam::Random<FullRange, E>>::source_after(FullRange, e),
{
}

/// For a half-open `i64` range, the three encodings digest the same
/// unsigned image, so equal sources give equal draws and equal states
/// after.
pub proof fn lemma_encodings_agree_bounded_i64<E: Entropy>(r: BoundedRange<i64>, e: E)
    requires
        r.start < r.end,
    ensures
        <i64 as assoc::Random<E>>::draw_model(
            <BoundedRange<i64> as IntoConstraint<assoc::IntegerConstraint<u64>>>::into_spec(r),
            e,
        ) == <i64 as typeparam::Random<BoundedRange<i64>, E>>::draw_model(r, e),
        <i64 as stream::Rand<BoundedRange<i64>, E>>::rand_spec(r).draw_model(e) == <i64 as
            typeparam::Random<BoundedRange<i64>, E>>::draw_model(r, e),
        <i64 as assoc::Random<E>>::source_after(
            <BoundedRange<i64> as IntoConstraint<assoc::IntegerConstraint<u64>>>::into_spec(r),
            e,
        ) == <i64 as typeparam::Random<BoundedRange<i64>, E>>::source_after(r, e),
        <i64 as stream::Rand<BoundedRange<i64>, E>>::rand_spec(r).source_after(e) == <i64 as
            typeparam::Random<BoundedRange<i64>, E>>::source_after(r, e),
{
}

/// For a from-range over `i64`, the associated-type and the
/// type-parameter encodings agree, the degenerate from-minimum case
/// included.
pub proof fn lemma_encodings_agree_from_i64<E: Entropy>(r: LowerBoundedRange<i64>, e: E)
    ensures
        <i64 as assoc::Random<E>>::draw_model(
            <LowerBoundedRange<i64> as IntoConstraint<assoc::IntegerConstraint<u64>>>::into_spec(
                r,
            ),
            e,
        ) == <i64 as typeparam::Random<LowerBoundedRange<i64>, E>>::draw_model(r, e),
        <i64 as assoc::Random<E>>::source_after(
            <LowerBoundedRange<i64> as IntoConstraint<assoc::IntegerConstraint<u64>>>::into_spec(
                r,
            ),
            e,
        ) == <i64 as typeparam::Random<LowerBoundedRange<i64>, E>>::source_after(r, e),
{
}

} // verus!
