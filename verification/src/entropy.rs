//! Sources of raw uniform machine words.
//!
//! Every consumer of randomness in this crate is generic over [`Entropy`].
//! The trait carries a ghost model of the word stream (`peek*`/`skip*`): a
//! source whose `obeys_model` flag is true promises that its draws follow
//! that model exactly, which lets callers prove precise, deterministic
//! contracts about whole draw sequences. A source backed by a real random
//! number generator sets the flag to false and promises nothing about the
//! words it hands out.

use vstd::prelude::*;

use rand::RngCore;
use rand::SeedableRng;

verus! {

/// A producer of uniform 32-bit and 64-bit machine words.
pub trait Entropy: Sized {
    /// Whether the `peek`/`skip` model below really describes this source.
    spec fn obeys_model(&self) -> bool;

    /// The next 32-bit word this source would produce.
    spec fn peek32(&self) -> u32;

    /// The next 64-bit word this source would produce.
    spec fn peek64(&self) -> u64;

    /// The state of the source after producing one 32-bit word.
    spec fn skip32(&self) -> Self;

    /// The state of the source after producing one 64-bit word.
    spec fn skip64(&self) -> Self;

    /// Produce one uniform 32-bit word.
    fn next32(&mut self) -> (r: u32)
        ensures
            old(self).obeys_model() ==> (final(self).obeys_model() && r == old(self).peek32()
                && *final(self) == old(self).skip32()),
    ;

    /// Produce one uniform 64-bit word.
    fn next64(&mut self) -> (r: u64)
        ensures
            old(self).obeys_model() ==> (final(self).obeys_model() && r == old(self).peek64()
                && *final(self) == old(self).skip64()),
    ;
}

/// A deterministic source that replays a fixed script of 64-bit words and
/// yields 0 once the script is exhausted. A 32-bit draw takes the low half
/// of the next scripted word.
#[derive(Clone)]
pub struct ScriptedEntropy {
    pub words: Vec<u64>,
    pub pos: usize,
}

impl ScriptedEntropy {
    /// A source that will produce the given words in order.
    pub fn from_script(words: Vec<u64>) -> (s: ScriptedEntropy)
        ensures
            s.words == words,
            s.pos == 0,
    {
        ScriptedEntropy { words, pos: 0 }
    }
}

impl Entropy for ScriptedEntropy {
    open spec fn obeys_model(&self) -> bool {
        true
    }

    open spec fn peek64(&self) -> u64 {
        if self.pos < self.words.len() {
            self.words[self.pos as int]
        } else {
            0
        }
    }

    open spec fn peek32(&self) -> u32 {
        (self.peek64() as int % 0x1_0000_0000int) as u32
    }

    open spec fn skip64(&self) -> Self {
        if self.pos < self.words.len() {
            ScriptedEntropy { words: self.words, pos: (self.pos + 1) as usize }
        } else {
            ScriptedEntropy { words: self.words, pos: self.pos }
        }
    }

    open spec fn skip32(&self) -> Self {
        self.skip64()
    }

    fn next64(&mut self) -> (r: u64) {
        if self.pos < self.words.len() {
            let w = self.words[self.pos];
            self.pos = self.pos + 1;
            w
        } else {
            0
        }
    }

    fn next32(&mut self) -> (r: u32) {
        let w = self.next64();
        proof {
            assert(w as u32 == w as int % 0x1_0000_0000int) by (bit_vector);
        }
        #[verifier::truncate]
        (w as u32)
    }
}

#[verifier::external_type_specification]
#[verifier::external_body]
pub struct ExStdRng(rand::rngs::StdRng);

/// A source backed by rand's standard generator. Its words are
/// unpredictable, so it does not obey the ghost model and nothing is
/// promised about the values it produces; bounds proved without the model
/// still hold for every draw.
pub struct RandEntropy {
    rng: rand::rngs::StdRng,
}

impl RandEntropy {
    /// Relies on rand's `SeedableRng::seed_from_u64` for `StdRng`: builds a
    /// generator from a 64-bit seed.
    #[verifier::external_body]
    pub fn from_seed(seed: u64) -> RandEntropy {
        RandEntropy { rng: rand::rngs::StdRng::seed_from_u64(seed) }
    }

    /// Relies on rand's `RngCore::next_u32` for `StdRng`: one 32-bit word.
    #[verifier::external_body]
    fn fresh32(&mut self) -> (r: u32) {
        self.rng.next_u32()
    }

    /// Relies on rand's `RngCore::next_u64` for `StdRng`: one 64-bit word.
    #[verifier::external_body]
    fn fresh64(&mut self) -> (r: u64) {
        self.rng.next_u64()
    }
}

impl Clone for RandEntropy {
    /// Relies on rand's derived `Clone` for `StdRng`: a copy of the
    /// generator state; nothing further is assumed of it.
    #[verifier::external_body]
    fn clone(&self) -> (r: Self) {
        RandEntropy { rng: self.rng.clone() }
    }
}

impl Entropy for RandEntropy {
    open spec fn obeys_model(&self) -> bool {
        false
    }

    // With `obeys_model` false, no contract ever consults the model, so
    // the functions below are arbitrary placeholders.
    open spec fn peek32(&self) -> u32 {
        0
    }

    open spec fn peek64(&self) -> u64 {
        0
    }

    open spec fn skip32(&self) -> Self {
        *self
    }

    open spec fn skip64(&self) -> Self {
        *self
    }

    fn next32(&mut self) -> (r: u32) {
        self.fresh32()
    }

    fn next64(&mut self) -> (r: u64) {
        self.fresh64()
    }
}

} // verus!
