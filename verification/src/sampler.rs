//! The bounded uniform sampler shared by all API encodings.
//!
//! A bounded draw from `[low, low + width)` (in the unsigned image of the
//! target type) works by rejection: raw words are discarded while they fall
//! at or above the acceptance threshold — the largest multiple of `width`
//! that fits in the raw word type — and the first accepted word `v` yields
//! `low + (v % width)` with wrap-around addition. Rejecting the tail makes
//! every residue class equally likely, so the draw has no modulo bias.
//!
//! The ghost functions here describe that procedure over the [`Entropy`]
//! model: `chosen32(e, z)` is the index of the word the sampler consumes,
//! `draw32`/`after32` are the value drawn and the source state left behind.
//! All three encodings state their results with these same functions, which
//! is what makes them interchangeable.

use vstd::prelude::*;

use crate::entropy::Entropy;
use vstd::arithmetic::div_mod::lemma_fundamental_div_mod;
use vstd::arithmetic::div_mod::lemma_mod_multiples_basic;
use vstd::arithmetic::div_mod::lemma_mod_multiples_vanish;
use vstd::arithmetic::div_mod::lemma_small_mod;

verus! {

/// A draw gives up and falls back to the last word drawn after this many
/// raw words were rejected in a row. The bound exists only to make every
/// draw provably finite; the chance of reaching it is below 2^-RETRY_LIMIT.
pub const RETRY_LIMIT: u64 = 0xFFFF_FFFF_FFFF_FFFF;

/// Largest multiple of `width` representable in a 32-bit word: raw words at
/// or above it are rejected so that `v % width` is unbiased.
pub open spec fn zone32(width: u32) -> u32
    recommends
        width > 0,
{
    (0xFFFF_FFFFint - (0xFFFF_FFFFint % (width as int))) as u32
}

/// Largest multiple of `width` representable in a 64-bit word.
pub open spec fn zone64(width: u64) -> u64
    recommends
        width > 0,
{
    (0xFFFF_FFFF_FFFF_FFFFint - (0xFFFF_FFFF_FFFF_FFFFint % (width as int))) as u64
}

/// The acceptance threshold is the largest multiple of `width` not above
/// the raw-word maximum: it is divisible by `width`, adding back the
/// remainder of the maximum restores the maximum, and it is at least
/// `width` (so a draw of 0 is always accepted).
pub proof fn lemma_zone32(width: u32)
    requires
        width > 0,
    ensures
        zone32(width) as int % (width as int) == 0,
        zone32(width) as int + (0xFFFF_FFFFint % (width as int)) == 0xFFFF_FFFFint,
        width <= zone32(width),
{
    let w = width as int;
    let m = 0xFFFF_FFFFint;
    let q = m / w;
    lemma_fundamental_div_mod(m, w);
    lemma_mod_multiples_basic(q, w);
    assert(w * q == q * w) by (nonlinear_arith);
    assert(m - m % w == q * w);
    assert(q >= 1) by (nonlinear_arith)
        requires
            0 < w <= m,
            q == m / w,
    ;
    assert(q * w >= w) by (nonlinear_arith)
        requires
            q >= 1,
            w > 0,
    ;
}

/// The 64-bit analogue of `lemma_zone32`.
pub proof fn lemma_zone64(width: u64)
    requires
        width > 0,
    ensures
        zone64(width) as int % (width as int) == 0,
        zone64(width) as int + (0xFFFF_FFFF_FFFF_FFFFint % (width as int))
            == 0xFFFF_FFFF_FFFF_FFFFint,
        width <= zone64(width),
{
    let w = width as int;
    let m = 0xFFFF_FFFF_FFFF_FFFFint;
    let q = m / w;
    lemma_fundamental_div_mod(m, w);
    lemma_mod_multiples_basic(q, w);
    assert(w * q == q * w) by (nonlinear_arith);
    assert(m - m % w == q * w);
    assert(q >= 1) by (nonlinear_arith)
        requires
            0 < w <= m,
            q == m / w,
    ;
    assert(q * w >= w) by (nonlinear_arith)
        requires
            q >= 1,
            w > 0,
    ;
}

/// Compute the 32-bit acceptance threshold for a positive width.
pub fn compute_zone32(width: u32) -> (z: u32)
    requires
        width > 0,
    ensures
        z == zone32(width),
        z as int % (width as int) == 0,
        width <= z,
{
    proof {
        lemma_zone32(width);
    }
    u32::MAX - (u32::MAX % width)
}

/// Compute the 64-bit acceptance threshold for a positive width.
pub fn compute_zone64(width: u64) -> (z: u64)
    requires
        width > 0,
    ensures
        z == zone64(width),
        z as int % (width as int) == 0,
        width <= z,
{
    proof {
        lemma_zone64(width);
    }
    u64::MAX - (u64::MAX % width)
}

/// Addition modulo 2^32.
pub open spec fn wrap_add32(a: u32, b: u32) -> u32 {
    ((a + b) % 0x1_0000_0000int) as u32
}

/// Addition modulo 2^64.
pub open spec fn wrap_add64(a: u64, b: u64) -> u64 {
    ((a + b) % 0x1_0000_0000_0000_0000int) as u64
}

/// Rejection leaves no modulo bias: every raw word below the threshold
/// splits uniquely into a multiple of `width` and a residue, and the
/// multiple stays below `zone / width`. Together with
/// `lemma_residue_composes32` this pairs the accepted words one-to-one
/// with `(multiple, residue)` pairs, so each residue — hence each value of
/// the interval — is hit by exactly `zone / width` of the equally likely
/// accepted words.
pub proof fn lemma_residue_decomposes32(width: u32, v: u32)
    requires
        width > 0,
        v < zone32(width),
    ensures
        v == (v as int / width as int) * (width as int) + (v as int % (width as int)),
        (v as int) / (width as int) < (zone32(width) as int) / (width as int),
        (v as int) % (width as int) < width as int,
{
    let w = width as int;
    let z = zone32(width) as int;
    lemma_fundamental_div_mod(v as int, w);
    lemma_zone32(width);
    assert(z % w == 0);
    lemma_fundamental_div_mod(z, w);
    assert(z == w * (z / w));
    assert(v as int / w < z / w) by (nonlinear_arith)
        requires
            w > 0,
            0 <= v as int,
            (v as int) < z,
            z == w * (z / w),
            v as int == w * (v as int / w) + (v as int % w),
            0 <= (v as int) % w < w,
    ;
}

/// The converse pairing: every multiple of `width` below the threshold,
/// offset by any residue, lands on an accepted word.
pub proof fn lemma_residue_composes32(width: u32, k: int, c: int)
    requires
        width > 0,
        0 <= c < width,
        0 <= k < (zone32(width) as int) / (width as int),
    ensures
        0 <= k * width + c < zone32(width),
{
    let w = width as int;
    let z = zone32(width) as int;
    lemma_zone32(width);
    lemma_fundamental_div_mod(z, w);
    assert(z == w * (z / w));
    assert(k * w + c < z) by (nonlinear_arith)
        requires
            w > 0,
            0 <= c < w,
            0 <= k,
            k < z / w,
            z == w * (z / w),
    ;
    assert(0 <= k * w + c) by (nonlinear_arith)
        requires
            0 <= c,
            0 <= k,
            w > 0,
    ;
}

/// The 64-bit analogue of `lemma_residue_decomposes32`.
pub proof fn lemma_residue_decomposes64(width: u64, v: u64)
    requires
        width > 0,
        v < zone64(width),
    ensures
        v == (v as int / width as int) * (width as int) + (v as int % (width as int)),
        (v as int) / (width as int) < (zone64(width) as int) / (width as int),
        (v as int) % (width as int) < width as int,
{
    let w = width as int;
    let z = zone64(width) as int;
    lemma_fundamental_div_mod(v as int, w);
    lemma_zone64(width);
    assert(z % w == 0);
    lemma_fundamental_div_mod(z, w);
    assert(z == w * (z / w));
    assert(v as int / w < z / w) by (nonlinear_arith)
        requires
            w > 0,
            0 <= v as int,
            (v as int) < z,
            z == w * (z / w),
            v as int == w * (v as int / w) + (v as int % w),
            0 <= (v as int) % w < w,
    ;
}

/// The 64-bit analogue of `lemma_residue_composes32`.
pub proof fn lemma_residue_composes64(width: u64, k: int, c: int)
    requires
        width > 0,
        0 <= c < width,
        0 <= k < (zone64(width) as int) / (width as int),
    ensures
        0 <= k * width + c < zone64(width),
{
    let w = width as int;
    let z = zone64(width) as int;
    lemma_zone64(width);
    lemma_fundamental_div_mod(z, w);
    assert(z == w * (z / w));
    assert(k * w + c < z) by (nonlinear_arith)
        requires
            w > 0,
            0 <= c < w,
            0 <= k,
            k < z / w,
            z == w * (z / w),
    ;
    assert(0 <= k * w + c) by (nonlinear_arith)
        requires
            0 <= c,
            0 <= k,
            w > 0,
    ;
}

/// The signed value whose two's-complement bit pattern is the word `x`.
pub open spec fn signed64(x: u64) -> int {
    if x < 0x8000_0000_0000_0000 {
        x as int
    } else {
        x as int - 0x1_0000_0000_0000_0000int
    }
}

/// The unsigned image (two's-complement bit pattern) of a signed value.
pub open spec fn unsigned64(x: i64) -> u64 {
    if x >= 0 {
        x as u64
    } else {
        (x + 0x1_0000_0000_0000_0000int) as u64
    }
}

/// Reinterpret a 64-bit word as a signed value, preserving the bit
/// pattern.
pub fn to_signed64(x: u64) -> (r: i64)
    ensures
        r as int == signed64(x),
{
    proof {
        assert(x < 0x8000_0000_0000_0000 ==> x as i64 == x) by (bit_vector);
        assert(x >= 0x8000_0000_0000_0000 ==> x as i64 == x - 0x1_0000_0000_0000_0000)
            by (bit_vector);
    }
    #[verifier::truncate]
    (x as i64)
}

/// Reinterpret a signed value as a 64-bit word, preserving the bit
/// pattern.
pub fn to_unsigned64(x: i64) -> (r: u64)
    ensures
        r == unsigned64(x),
{
    proof {
        assert(x >= 0 ==> x as u64 == x) by (bit_vector);
        assert(x < 0 ==> x as u64 == x + 0x1_0000_0000_0000_0000) by (bit_vector);
    }
    #[verifier::truncate]
    (x as u64)
}

/// Wrap-around addition that stays below 2^32 is plain addition.
pub proof fn lemma_wrap_add32_exact(a: u32, b: u32)
    requires
        a + b < 0x1_0000_0000int,
    ensures
        wrap_add32(a, b) == a + b,
{
    lemma_small_mod((a + b) as nat, 0x1_0000_0000nat);
}

/// Wrap-around addition that stays below 2^64 is plain addition.
pub proof fn lemma_wrap_add64_exact(a: u64, b: u64)
    requires
        a + b < 0x1_0000_0000_0000_0000int,
    ensures
        wrap_add64(a, b) == a + b,
{
    lemma_small_mod((a + b) as nat, 0x1_0000_0000_0000_0000nat);
}

/// Adding an offset to the unsigned image of a signed lower end and
/// reinterpreting the wrapped sum recovers plain signed addition, as long
/// as the sum stays within the signed domain.
pub proof fn lemma_signed_recover(low: u64, k: u64)
    requires
        signed64(low) + k < 0x8000_0000_0000_0000int,
    ensures
        signed64(wrap_add64(low, k)) == signed64(low) + k,
{
    let m = 0x1_0000_0000_0000_0000int;
    let s = signed64(low) + k;
    if low < 0x8000_0000_0000_0000 {
        lemma_small_mod((low + k) as nat, m as nat);
    } else {
        assert(low + k == m * 1 + s);
        lemma_mod_multiples_vanish(1, s, m);
        if s >= 0 {
            lemma_small_mod(s as nat, m as nat);
        } else {
            assert(s == m * (-1) + (s + m));
            lemma_mod_multiples_vanish(-1, s + m, m);
            lemma_small_mod((s + m) as nat, m as nat);
        }
    }
}

/// The source `e` after `n` 32-bit draws.
pub open spec fn advance32<E: Entropy>(e: E, n: nat) -> E
    decreases n,
{
    if n == 0 {
        e
    } else {
        advance32(e, (n - 1) as nat).skip32()
    }
}

/// The source `e` after `n` 64-bit draws.
pub open spec fn advance64<E: Entropy>(e: E, n: nat) -> E
    decreases n,
{
    if n == 0 {
        e
    } else {
        advance64(e, (n - 1) as nat).skip64()
    }
}

/// The first `n` 32-bit words of `e` all fall in the rejected tail.
pub open spec fn all_rejected32<E: Entropy>(e: E, zone: u32, n: nat) -> bool {
    forall|j: nat| j < n ==> (#[trigger] advance32(e, j)).peek32() >= zone
}

/// The first `n` 64-bit words of `e` all fall in the rejected tail.
pub open spec fn all_rejected64<E: Entropy>(e: E, zone: u64, n: nat) -> bool {
    forall|j: nat| j < n ==> (#[trigger] advance64(e, j)).peek64() >= zone
}

/// Word number `n` of `e` is the first one below `zone`.
pub open spec fn first_accept32<E: Entropy>(e: E, zone: u32, n: nat) -> bool {
    all_rejected32(e, zone, n) && advance32(e, n).peek32() < zone
}

/// Word number `n` of `e` is the first 64-bit word below `zone`.
pub open spec fn first_accept64<E: Entropy>(e: E, zone: u64, n: nat) -> bool {
    all_rejected64(e, zone, n) && advance64(e, n).peek64() < zone
}

/// Some word of `e` within the retry budget is accepted.
pub open spec fn accepts32<E: Entropy>(e: E, zone: u32) -> bool {
    exists|n: nat| n < RETRY_LIMIT && #[trigger] first_accept32(e, zone, n)
}

/// Some 64-bit word of `e` within the retry budget is accepted.
pub open spec fn accepts64<E: Entropy>(e: E, zone: u64) -> bool {
    exists|n: nat| n < RETRY_LIMIT && #[trigger] first_accept64(e, zone, n)
}

/// The index of the word a bounded 32-bit draw consumes: the first accepted
/// one, or the last word of the exhausted retry budget.
pub open spec fn chosen32<E: Entropy>(e: E, zone: u32) -> nat {
    if accepts32(e, zone) {
        choose|n: nat| n < RETRY_LIMIT && #[trigger] first_accept32(e, zone, n)
    } else {
        (RETRY_LIMIT - 1) as nat
    }
}

/// The index of the word a bounded 64-bit draw consumes.
pub open spec fn chosen64<E: Entropy>(e: E, zone: u64) -> nat {
    if accepts64(e, zone) {
        choose|n: nat| n < RETRY_LIMIT && #[trigger] first_accept64(e, zone, n)
    } else {
        (RETRY_LIMIT - 1) as nat
    }
}

/// The raw word a bounded 32-bit draw consumes.
pub open spec fn word32<E: Entropy>(e: E, zone: u32) -> u32 {
    advance32(e, chosen32(e, zone)).peek32()
}

/// The raw word a bounded 64-bit draw consumes.
pub open spec fn word64<E: Entropy>(e: E, zone: u64) -> u64 {
    advance64(e, chosen64(e, zone)).peek64()
}

/// The value of one bounded 32-bit draw from `e`.
pub open spec fn draw32<E: Entropy>(e: E, low: u32, width: u32, zone: u32) -> u32 {
    wrap_add32(low, (word32(e, zone) as int % (width as int)) as u32)
}

/// The value of one bounded 64-bit draw from `e`, in the unsigned image.
pub open spec fn draw64<E: Entropy>(e: E, low: u64, width: u64, zone: u64) -> u64 {
    wrap_add64(low, (word64(e, zone) as int % (width as int)) as u64)
}

/// The state of `e` after one bounded 32-bit draw.
pub open spec fn after32<E: Entropy>(e: E, zone: u32) -> E {
    advance32(e, chosen32(e, zone) + 1)
}

/// The state of `e` after one bounded 64-bit draw.
pub open spec fn after64<E: Entropy>(e: E, zone: u64) -> E {
    advance64(e, chosen64(e, zone) + 1)
}

/// At most one word index can be the first accepted one: a source and a
/// threshold determine the draw completely, which is why every encoding of
/// the sampler produces the same sequence of values.
pub proof fn lemma_first_accept_unique32<E: Entropy>(e: E, zone: u32, n1: nat, n2: nat)
    requires
        first_accept32(e, zone, n1),
        first_accept32(e, zone, n2),
    ensures
        n1 == n2,
{
    if n1 < n2 {
        assert(advance32(e, n1).peek32() >= zone);
    } else if n2 < n1 {
        assert(advance32(e, n2).peek32() >= zone);
    }
}

/// The 64-bit analogue of `lemma_first_accept_unique32`.
pub proof fn lemma_first_accept_unique64<E: Entropy>(e: E, zone: u64, n1: nat, n2: nat)
    requires
        first_accept64(e, zone, n1),
        first_accept64(e, zone, n2),
    ensures
        n1 == n2,
{
    if n1 < n2 {
        assert(advance64(e, n1).peek64() >= zone);
    } else if n2 < n1 {
        assert(advance64(e, n2).peek64() >= zone);
    }
}

/// One bounded 32-bit draw: reject raw words at or above `zone`, then add
/// the accepted word's residue to `low` with wrap-around.
#[verifier::loop_isolation(false)]
pub fn sample_bounded32<E: Entropy>(low: u32, width: u32, zone: u32, e: &mut E) -> (r: u32)
    requires
        width > 0,
        zone == zone32(width),
    ensures
        exists|k: u32| k < width && r == #[trigger] wrap_add32(low, k),
        old(e).obeys_model() ==> (final(e).obeys_model() && r == draw32(
            *old(e),
            low,
            width,
            zone,
        ) && *final(e) == after32(*old(e), zone)),
{
    let ghost e0 = *e;
    let mut tries: u64 = 0;
    loop
        invariant
            tries < RETRY_LIMIT,
            e0.obeys_model() ==> ((*e).obeys_model() && *e == advance32(e0, tries as nat)
                && all_rejected32(e0, zone, tries as nat)),
        decreases RETRY_LIMIT - tries,
    {
        let v = e.next32();
        proof {
            if e0.obeys_model() {
                assert(advance32(e0, tries as nat + 1) == advance32(e0, tries as nat).skip32());
            }
        }
        if v < zone {
            proof {
                if e0.obeys_model() {
                    assert(first_accept32(e0, zone, tries as nat));
                    assert(accepts32(e0, zone));
                    lemma_first_accept_unique32(e0, zone, tries as nat, chosen32(e0, zone));
                }
                assert(v % width < width);
                assert(((low + v % width) % 0x1_0000_0000int) as u32 == wrap_add32(low, v % width));
            }
            return low.wrapping_add(v % width);
        }
        if tries >= RETRY_LIMIT - 1 {
            proof {
                if e0.obeys_model() {
                    assert(advance32(e0, tries as nat).peek32() >= zone);
                    assert(all_rejected32(e0, zone, (tries + 1) as nat));
                    assert(!accepts32(e0, zone)) by {
                        if accepts32(e0, zone) {
                            let n = choose|n: nat|
                                n < RETRY_LIMIT && #[trigger] first_accept32(e0, zone, n);
                            assert(advance32(e0, n).peek32() >= zone);
                        }
                    };
                    assert(chosen32(e0, zone) == tries as nat);
                }
                assert(v % width < width);
                assert(((low + v % width) % 0x1_0000_0000int) as u32 == wrap_add32(
                    low,
                    v % width,
                ));
            }
            return low.wrapping_add(v % width);
        }
        tries = tries + 1;
    }
}

/// One bounded 64-bit draw, in the unsigned image of the target type.
#[verifier::loop_isolation(false)]
pub fn sample_bounded64<E: Entropy>(low: u64, width: u64, zone: u64, e: &mut E) -> (r: u64)
    requires
        width > 0,
        zone == zone64(width),
    ensures
        exists|k: u64| k < width && r == #[trigger] wrap_add64(low, k),
        old(e).obeys_model() ==> (final(e).obeys_model() && r == draw64(
            *old(e),
            low,
            width,
            zone,
        ) && *final(e) == after64(*old(e), zone)),
{
    let ghost e0 = *e;
    let mut tries: u64 = 0;
    loop
        invariant
            tries < RETRY_LIMIT,
            e0.obeys_model() ==> ((*e).obeys_model() && *e == advance64(e0, tries as nat)
                && all_rejected64(e0, zone, tries as nat)),
        decreases RETRY_LIMIT - tries,
    {
        let v = e.next64();
        proof {
            if e0.obeys_model() {
                assert(advance64(e0, tries as nat + 1) == advance64(e0, tries as nat).skip64());
            }
        }
        if v < zone {
            proof {
                if e0.obeys_model() {
                    assert(first_accept64(e0, zone, tries as nat));
                    assert(accepts64(e0, zone));
                    lemma_first_accept_unique64(e0, zone, tries as nat, chosen64(e0, zone));
                }
                assert(v % width < width);
                assert(((low + v % width) % 0x1_0000_0000_0000_0000int) as u64 == wrap_add64(
                    low,
                    v % width,
                ));
            }
            return low.wrapping_add(v % width);
        }
        if tries >= RETRY_LIMIT - 1 {
            proof {
                if e0.obeys_model() {
                    assert(advance64(e0, tries as nat).peek64() >= zone);
                    assert(all_rejected64(e0, zone, (tries + 1) as nat));
                    assert(!accepts64(e0, zone)) by {
                        if accepts64(e0, zone) {
                            let n = choose|n: nat|
                                n < RETRY_LIMIT && #[trigger] first_accept64(e0, zone, n);
                            assert(advance64(e0, n).peek64() >= zone);
                        }
                    };
                    assert(chosen64(e0, zone) == tries as nat);
                }
                assert(v % width < width);
                assert(((low + v % width) % 0x1_0000_0000_0000_0000int) as u64 == wrap_add64(
                    low,
                    v % width,
                ));
            }
            return low.wrapping_add(v % width);
        }
        tries = tries + 1;
    }
}

} // verus!
