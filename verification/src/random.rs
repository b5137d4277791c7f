//! The single stream of random draws that drives every stochastic decision.
//!
//! The draws come from the standard generator of the `rand` crate. Nothing
//! is assumed of the values it hands out: every user of the stream is
//! verified for all of them. What is kept is the record of the draws made,
//! so that contracts can say what was done with them.

use rand::rngs::StdRng;
use rand::RngCore;
use rand::SeedableRng;
use vstd::prelude::*;

verus! {

/// The generator of the `rand` crate; its state is opaque here.
#[verifier::external_type_specification]
#[verifier::external_body]
pub struct ExStdRng(StdRng);

/// Calls `StdRng::seed_from_u64`. Nothing is claimed of the generator that
/// comes back.
#[verifier::external_body]
fn seeded_generator(seed: u64) -> (rng: StdRng) {
    StdRng::seed_from_u64(seed)
}

/// Calls `RngCore::next_u64` on the generator. Nothing is claimed of the word
/// that comes back: the callers are verified for every value of it.
#[verifier::external_body]
fn next_word(rng: &mut StdRng) -> (word: u64) {
    rng.next_u64()
}

/// Whether each of `draws` stands for a number of the unit interval: it
/// is below [`DRAW_RANGE`](crate::fixed::DRAW_RANGE).
pub open spec fn in_draw_range(draws: Seq<u64>) -> bool {
    forall|i: int| 0 <= i < draws.len() ==> #[trigger] draws[i] < crate::fixed::DRAW_RANGE
}

/// A seedable stream of uniform draws, together with the record of every
/// draw it has handed out so far.
pub struct RandomStream {
    rng: StdRng,
    drawn: Ghost<Seq<u64>>,
}

impl RandomStream {
    /// The draws handed out so far, oldest first.
    pub closed spec fn history(&self) -> Seq<u64> {
        self.drawn@
    }

    /// A fresh stream over a generator seeded with `seed`. It has handed out
    /// nothing yet.
    pub fn seeded(seed: u64) -> (stream: RandomStream)
        ensures
            stream.history() == Seq::<u64>::empty(),
    {
        RandomStream { rng: seeded_generator(seed), drawn: Ghost(Seq::empty()) }
    }

    /// A stream over a generator that is already in use. The stream keeps
    /// record of its own draws only, so it has handed out nothing yet.
    pub fn from_generator(rng: StdRng) -> (stream: RandomStream)
        ensures
            stream.history() == Seq::<u64>::empty(),
    {
        RandomStream { rng, drawn: Ghost(Seq::empty()) }
    }

    /// The next uniform draw: 53 random bits, standing for the number
    /// `draw / DRAW_RANGE` of the unit interval.
    pub fn next_draw(&mut self) -> (draw: u64)
        ensures
            draw < crate::fixed::DRAW_RANGE,
            final(self).history() == old(self).history().push(draw),
    {
        let word: u64 = next_word(&mut self.rng);
        let draw: u64 = word >> 11;
        assert(draw < 0x20_0000_0000_0000) by (bit_vector)
            requires
                draw == word >> 11,
        ;
        proof {
            self.drawn@ = self.drawn@.push(draw);
        }
        draw
    }
}

} // verus!
