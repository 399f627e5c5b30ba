//! rand's generators as sources of random words.
use vstd::prelude::*;
use crate::api::BitSource;

verus! {

#[verifier::external_type_specification]
#[verifier::external_body]
pub struct ExXorShiftRng(rand::XorShiftRng);

/// Relies on `rand::Rng::next_u32` of `XorShiftRng`: one word from the
/// generator, which advances its state. Nothing is known of the word.
#[verifier::external_body]
fn xorshift_next_u32(rng: &mut rand::XorShiftRng) -> u32 {
    rand::Rng::next_u32(rng)
}

/// Relies on `rand::Rng::next_u64` of `XorShiftRng`: two words from the
/// generator, joined. Nothing is known of the result.
#[verifier::external_body]
fn xorshift_next_u64(rng: &mut rand::XorShiftRng) -> u64 {
    rand::Rng::next_u64(rng)
}

/// rand's `XorShiftRng` as a source of random words, with a record of the
/// words drawn from it.
pub struct XorShiftSource {
    rng: rand::XorShiftRng,
    history: Ghost<Seq<u64>>,
}

impl XorShiftSource {
    /// A source drawing from `rng`, with nothing drawn yet.
    pub fn new(rng: rand::XorShiftRng) -> (r: XorShiftSource)
        ensures
            r.drawn() == Seq::<u64>::empty(),
    {
        XorShiftSource { rng, history: Ghost(Seq::empty()) }
    }
}

impl BitSource for XorShiftSource {
    closed spec fn drawn(&self) -> Seq<u64> {
        self.history@
    }

    fn next_u32(&mut self) -> (r: u32) {
        let w = xorshift_next_u32(&mut self.rng);
        self.history = Ghost(self.history@.push(w as u64));
        w
    }

    fn next_u64(&mut self) -> (r: u64) {
        let w = xorshift_next_u64(&mut self.rng);
        self.history = Ghost(self.history@.push(w));
        w
    }
}

} // verus!
