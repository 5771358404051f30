//! The stream-object encoding.
//!
//! A target type paired with a range form yields a stream object whose
//! type already says whether it is bounded: the draw is dispatched
//! statically on that type, with no tag check at run time. The stream
//! caches the digested state, so repeated draws pay the digestion once.

use vstd::prelude::*;

use crate::entropy::Entropy;
use crate::ranges::BoundedRange;
use crate::ranges::FullRange;
use crate::sampler::after32;
use crate::sampler::after64;
use crate::sampler::compute_zone32;
use crate::sampler::compute_zone64;
use crate::sampler::draw32;
use crate::sampler::draw64;
use crate::sampler::lemma_signed_recover;
use crate::sampler::lemma_wrap_add32_exact;
use crate::sampler::sample_bounded32;
use crate::sampler::sample_bounded64;
use crate::sampler::signed64;
use crate::sampler::to_signed64;
use crate::sampler::to_unsigned64;
use crate::sampler::unsigned64;
use crate::sampler::wrap_add32;
use crate::sampler::wrap_add64;
use crate::sampler::zone32;
use crate::sampler::zone64;
use core::marker::PhantomData;

verus! {

/// Data types that can be drawn at random by first building a stream
/// object from a range form.
pub trait Rand<Distribution, E: Entropy>: Sized {
    /// The stream type this range form digests to.
    type Stream: RandStream<Self, E>;

    /// When the range form is acceptable.
    spec fn rand_req(dist: Distribution) -> bool;

    /// The stream the range form digests to.
    spec fn rand_spec(dist: Distribution) -> Self::Stream;

    /// Digest the range form into a stream object.
    fn rand(dist: Distribution) -> (s: Self::Stream)
        requires
            Self::rand_req(dist),
        ensures
            s == Self::rand_spec(dist),
            s.valid(),
    ;
}

/// A digested stream of draws of `T`.
pub trait RandStream<T, E: Entropy>: Sized {
    /// Streams the draw accepts: width positive, threshold matching, and
    /// the interval within the domain.
    spec fn valid(self) -> bool;

    /// The interval of values this stream yields.
    spec fn admits(self, x: T) -> bool;

    /// The value one draw yields from a source that obeys its model.
    spec fn draw_model(self, e: E) -> T;

    /// The source state one draw leaves behind.
    spec fn source_after(self, e: E) -> E;

    /// Draw the stream's next value.
    fn next(&self, e: &mut E) -> (r: T)
        requires
            self.valid(),
        ensures
            self.admits(r),
            old(e).obeys_model() ==> (final(e).obeys_model() && r == self.draw_model(*old(e))
                && *final(e) == self.source_after(*old(e))),
    ;
}

/// Draw a single value, mediated by `dist`.
pub fn gen<Gen: Rand<Dist, E>, Dist, E: Entropy>(e: &mut E, dist: Dist) -> (r: Gen)
    requires
        Gen::rand_req(dist),
    ensures
        Gen::rand_spec(dist).admits(r),
        old(e).obeys_model() ==> (final(e).obeys_model() && r == Gen::rand_spec(dist).draw_model(
            *old(e),
        ) && *final(e) == Gen::rand_spec(dist).source_after(*old(e))),
{
    Gen::rand(dist).next(e)
}

/// Start an infinite sequence of draws, digesting the range form once.
pub fn gen_iter<Gen: Rand<Dist, E>, Dist, E: Entropy>(rng: E, dist: Dist) -> (it: GenIter<
    Gen,
    Dist,
    E,
>)
    requires
        Gen::rand_req(dist),
    ensures
        it.stream == Gen::rand_spec(dist),
        it.stream.valid(),
        it.rng == rng,
{
    GenIter { stream: Gen::rand(dist), rng }
}

/// An infinite lazy sequence of draws; it owns its source and the
/// digested stream.
pub struct GenIter<Gen: Rand<Dist, E>, Dist, E: Entropy> {
    pub stream: Gen::Stream,
    pub rng: E,
}

impl<Gen: Rand<Dist, E>, Dist, E: Entropy> GenIter<Gen, Dist, E> {
    /// The values the next `k` draws will yield from a source that obeys
    /// its model.
    pub open spec fn outputs(self, k: nat) -> Seq<Gen>
        decreases k,
    {
        if k == 0 {
            Seq::empty()
        } else {
            seq![self.stream.draw_model(self.rng)] + (GenIter {
                stream: self.stream,
                rng: self.stream.source_after(self.rng),
            }).outputs((k - 1) as nat)
        }
    }

    /// One more element of the sequence; the iterator never terminates.
    pub fn next(&mut self) -> (r: Option<Gen>)
        requires
            self.stream.valid(),
        ensures
            r is Some,
            r matches Some(x) && old(self).stream.admits(x),
            final(self).stream == old(self).stream,
            old(self).rng.obeys_model() ==> (final(self).rng.obeys_model() && r == Some(
                old(self).stream.draw_model(old(self).rng),
            ) && final(self).rng == old(self).stream.source_after(old(self).rng)),
    {
        Some(self.stream.next(&mut self.rng))
    }

    /// Collect the next `k` draws; on a source that obeys its model they
    /// are exactly the iterator's next `k` outputs.
    #[verifier::loop_isolation(false)]
    pub fn take(&mut self, k: usize) -> (out: Vec<Gen>)
        requires
            self.stream.valid(),
        ensures
            out.len() == k,
            final(self).stream == old(self).stream,
            old(self).rng.obeys_model() ==> (final(self).rng.obeys_model() && out@ == old(
                self,
            ).outputs(k as nat)),
    {
        let mut out: Vec<Gen> = Vec::new();
        let mut i: usize = 0;
        while i < k
            invariant
                i <= k,
                out.len() == i,
                self.stream == old(self).stream,
                old(self).rng.obeys_model() ==> (self.rng.obeys_model() && old(self).outputs(
                    k as nat,
                ) == out@ + self.outputs((k - i) as nat)),
            decreases k - i,
        {
            let ghost pre = *self;
            let ghost out_pre = out@;
            let x = match self.next() {
                Some(x) => x,
                None => {
                    proof {
                        assert(false);
                    }
                    return out;
                },
            };
            out.push(x);
            i = i + 1;
            proof {
                if old(self).rng.obeys_model() {
                    assert(pre.outputs((k - i + 1) as nat) == seq![x] + self.outputs(
                        (k - i) as nat,
                    ));
                    assert((out_pre + seq![x]) + self.outputs((k - i) as nat) =~= out_pre + (
                    seq![x] + self.outputs((k - i) as nat)));
                }
            }
        }
        proof {
            if old(self).rng.obeys_model() {
                assert(self.outputs(0) == Seq::<Gen>::empty());
                assert(out@ + Seq::<Gen>::empty() =~= out@);
            }
        }
        out
    }
}

/// The first `k` values of the draw sequence a stream and a source that
/// obeys its model determine.
pub open spec fn stream_seq<T, S: RandStream<T, E>, E: Entropy>(s: S, e: E, k: nat) -> Seq<T>
    decreases k,
{
    if k == 0 {
        Seq::empty()
    } else {
        seq![s.draw_model(e)] + stream_seq::<T, S, E>(s, s.source_after(e), (k - 1) as nat)
    }
}

/// Taking `k` elements from an iterator equals asking the stream for `k`
/// single draws from an identical source.
pub proof fn lemma_iter_equals_scalar<Gen: Rand<Dist, E>, Dist, E: Entropy>(
    s: Gen::Stream,
    e: E,
    k: nat,
)
    ensures
        (GenIter::<Gen, Dist, E> { stream: s, rng: e }).outputs(k) == stream_seq::<
            Gen,
            Gen::Stream,
            E,
        >(s, e, k),
    decreases k,
{
    if k > 0 {
        lemma_iter_equals_scalar::<Gen, Dist, E>(s, s.source_after(e), (k - 1) as nat);
    }
}

/// The digested state of a bounded integer stream, in the unsigned image
/// of the target type.
pub struct IntegerStreamBounded<T> {
    pub low: T,
    pub range: T,
    pub accept_zone: T,
}

/// A stream over the whole domain of the target type.
pub struct IntegerStreamFull<T> {
    pub marker: PhantomData<T>,
}

impl<E: Entropy> Rand<BoundedRange<u32>, E> for u32 {
    type Stream = IntegerStreamBounded<u32>;

    open spec fn rand_req(dist: BoundedRange<u32>) -> bool {
        dist.start < dist.end
    }

    open spec fn rand_spec(dist: BoundedRange<u32>) -> IntegerStreamBounded<u32> {
        IntegerStreamBounded {
            low: dist.start,
            range: (dist.end - dist.start) as u32,
            accept_zone: zone32((dist.end - dist.start) as u32),
        }
    }

    fn rand(dist: BoundedRange<u32>) -> (s: IntegerStreamBounded<u32>) {
        let range = dist.end - dist.start;
        let accept_zone = compute_zone32(range);
        IntegerStreamBounded { low: dist.start, range, accept_zone }
    }
}

impl<E: Entropy> Rand<FullRange, E> for u32 {
    type Stream = IntegerStreamFull<u32>;

    open spec fn rand_req(dist: FullRange) -> bool {
        true
    }

    open spec fn rand_spec(dist: FullRange) -> IntegerStreamFull<u32> {
        IntegerStreamFull { marker: PhantomData }
    }

    fn rand(dist: FullRange) -> (s: IntegerStreamFull<u32>) {
        IntegerStreamFull { marker: PhantomData }
    }
}

impl<E: Entropy> RandStream<u32, E> for IntegerStreamBounded<u32> {
    open spec fn valid(self) -> bool {
        self.range > 0 && self.accept_zone == zone32(self.range) && self.low + self.range
            <= 0x1_0000_0000int
    }

    open spec fn admits(self, x: u32) -> bool {
        self.low <= x && x < self.low + self.range
    }

    open spec fn draw_model(self, e: E) -> u32 {
        draw32(e, self.low, self.range, self.accept_zone)
    }

    open spec fn source_after(self, e: E) -> E {
        after32(e, self.accept_zone)
    }

    fn next(&self, e: &mut E) -> (r: u32) {
        let r = sample_bounded32(self.low, self.range, self.accept_zone, e);
        proof {
            let k = choose|k: u32| k < self.range && r == wrap_add32(self.low, k);
            lemma_wrap_add32_exact(self.low, k);
        }
        r
    }
}

impl<E: Entropy> RandStream<u32, E> for IntegerStreamFull<u32> {
    open spec fn valid(self) -> bool {
        true
    }

    open spec fn admits(self, x: u32) -> bool {
        true
    }

    open spec fn draw_model(self, e: E) -> u32 {
        e.peek32()
    }

    open spec fn source_after(self, e: E) -> E {
        e.skip32()
    }

    fn next(&self, e: &mut E) -> (r: u32) {
        e.next32()
    }
}

impl<E: Entropy> Rand<BoundedRange<i64>, E> for i64 {
    type Stream = IntegerStreamBounded<u64>;

    open spec fn rand_req(dist: BoundedRange<i64>) -> bool {
        dist.start < dist.end
    }

    open spec fn rand_spec(dist: BoundedRange<i64>) -> IntegerStreamBounded<u64> {
        IntegerStreamBounded {
            low: unsigned64(dist.start),
            range: (dist.end - dist.start) as u64,
            accept_zone: zone64((dist.end - dist.start) as u64),
        }
    }

    fn rand(dist: BoundedRange<i64>) -> (s: IntegerStreamBounded<u64>) {
        let low = to_unsigned64(dist.start);
        let hi = to_unsigned64(dist.end);
        let range = hi.wrapping_sub(low);
        let accept_zone = compute_zone64(range);
        IntegerStreamBounded { low, range, accept_zone }
    }
}

impl<E: Entropy> Rand<FullRange, E> for i64 {
    type Stream = IntegerStreamFull<i64>;

    open spec fn rand_req(dist: FullRange) -> bool {
        true
    }

    open spec fn rand_spec(dist: FullRange) -> IntegerStreamFull<i64> {
        IntegerStreamFull { marker: PhantomData }
    }

    fn rand(dist: FullRange) -> (s: IntegerStreamFull<i64>) {
        IntegerStreamFull { marker: PhantomData }
    }
}

impl<E: Entropy> RandStream<i64, E> for IntegerStreamBounded<u64> {
    open spec fn valid(self) -> bool {
        self.range > 0 && self.accept_zone == zone64(self.range) && signed64(self.low) + self.range
            <= 0x8000_0000_0000_0000int
    }

    open spec fn admits(self, x: i64) -> bool {
        signed64(self.low) <= x && x < signed64(self.low) + self.range
    }

    open spec fn draw_model(self, e: E) -> i64 {
        signed64(draw64(e, self.low, self.range, self.accept_zone)) as i64
    }

    open spec fn source_after(self, e: E) -> E {
        after64(e, self.accept_zone)
    }

    fn next(&self, e: &mut E) -> (r: i64) {
        let w = sample_bounded64(self.low, self.range, self.accept_zone, e);
        proof {
            let k = choose|k: u64| k < self.range && w == wrap_add64(self.low, k);
            lemma_signed_recover(self.low, k);
        }
        to_signed64(w)
    }
}

impl<E: Entropy> RandStream<i64, E> for IntegerStreamFull<i64> {
    open spec fn valid(self) -> bool {
        true
    }

    open spec fn admits(self, x: i64) -> bool {
        true
    }

    open spec fn draw_model(self, e: E) -> i64 {
        signed64(e.peek64()) as i64
    }

    open spec fn source_after(self, e: E) -> E {
        e.skip64()
    }

    fn next(&self, e: &mut E) -> (r: i64) {
        let w = e.next64();
        to_signed64(w)
    }
}

} // verus!
