//! The random trigger: whether an event fires on a frame, given the chance
//! of it and one sample from a source of randomness.
//!
//! Chances and samples are whole numbers of `SAMPLE_SPACE` equal parts, so a
//! chance of `c` stands for the probability `c / SAMPLE_SPACE`.

use rand::Rng;
use vstd::prelude::*;

verus! {

/// Number of equally likely samples that a source draws from.
pub const SAMPLE_SPACE: u32 = 100_000;

/// A source of samples.
pub trait RandomSource {
    /// The samples that the next draw may return.
    spec fn support(&self) -> Set<u32>;

    /// Draws one sample. Drawing does not change what later draws may return.
    fn next_sample(&mut self) -> (sample: u32)
        ensures
            old(self).support().contains(sample),
            final(self).support() == old(self).support(),
    ;
}

/// The thread's own generator, seeded by the system.
pub struct ThreadRandom;

/// A source that returns the same sample on every draw.
pub struct FixedSource {
    pub sample: u32,
}

impl FixedSource {
    /// The source that always returns `sample`.
    pub fn new(sample: u32) -> (source: FixedSource)
        ensures
            source.sample == sample,
    {
        FixedSource { sample }
    }
}

/// Calls `rand::thread_rng().gen_range(0..bound)`. The contract claims only
/// that the sample lies below `bound`; an empty range, on which `gen_range`
/// panics, is left out. `thread_rng` itself fails when the system cannot
/// seed the generator.
#[verifier::external_body]
fn uniform_below(bound: u32) -> (sample: u32)
    requires
        bound > 0,
    ensures
        sample < bound,
{
    rand::thread_rng().gen_range(0..bound)
}

impl RandomSource for ThreadRandom {
    open spec fn support(&self) -> Set<u32> {
        Set::new(|sample: u32| sample < SAMPLE_SPACE)
    }

    fn next_sample(&mut self) -> (sample: u32) {
        uniform_below(SAMPLE_SPACE)
    }
}

impl RandomSource for FixedSource {
    open spec fn support(&self) -> Set<u32> {
        set![self.sample]
    }

    fn next_sample(&mut self) -> (sample: u32)
        ensures
            sample == old(self).sample,
            *final(self) == *old(self),
    {
        self.sample
    }
}

/// Whether an event with the given chance fires on the given sample: it
/// does when the sample lies below the chance.
pub fn fires(chance: u64, sample: u32) -> (fired: bool)
    ensures
        fired == (sample < chance),
{
    (sample as u64) < chance
}

/// `fired` is what some sample out of `support` decides for an event with
/// the given chance.
pub open spec fn may_fire(support: Set<u32>, chance: u64, fired: bool) -> bool {
    exists|sample: u32| #[trigger] support.contains(sample) && fired == (sample < chance)
}

/// Draws one sample from `source` and says whether an event with the given
/// chance fires on it.
pub fn should_fire<S: RandomSource>(chance: u64, source: &mut S) -> (fired: bool)
    ensures
        final(source).support() == old(source).support(),
        may_fire(old(source).support(), chance, fired),
{
    let sample: u32 = source.next_sample();
    fires(chance, sample)
}

} // verus!
