//! The source of randomness that the generators draw from.

use rand::rngs::StdRng;
use rand::Rng;
use rand::SeedableRng;
use vstd::prelude::*;

verus! {

/// `rand::rngs::StdRng`, the generator behind [`RandomSource`]. Its state is
/// opaque to the verifier.
#[verifier::external_type_specification]
#[verifier::external_body]
pub struct ExStdRng(StdRng);

/// Calls `rand::SeedableRng::seed_from_u64` for `StdRng`. Nothing is claimed
/// of the generator that comes back.
#[verifier::external_body]
fn std_rng_from_seed(seed: u64) -> StdRng {
    StdRng::seed_from_u64(seed)
}

/// Calls `rand::Rng::gen_range` on the half-open range `low..high`. The call
/// panics on an empty range, which `requires` leaves out; the value that
/// comes back is some member of the range, and nothing more is claimed of it.
#[verifier::external_body]
fn std_rng_gen_range(rng: &mut StdRng, low: i64, high: i64) -> (r: i64)
    requires
        low < high,
    ensures
        low <= r < high,
{
    rng.gen_range(low..high)
}

/// What a draw from `low..high` that guards an empty range may return: a
/// member of the range, or `high` itself where the range is empty.
pub open spec fn safe_sample(low: int, high: int, r: int) -> bool {
    if low < high {
        low <= r < high
    } else {
        r == high
    }
}

/// A seeded random number generator that keeps a record of the draws made
/// from it.
pub struct RandomSource {
    rng: StdRng,
    drawn: Ghost<Seq<(i64, i64, i64)>>,
}

impl RandomSource {
    /// Every draw made from the source since it was seeded, oldest first:
    /// the range `low..high` and the value that came back, as
    /// `(low, high, value)`.
    pub closed spec fn drawn(&self) -> Seq<(i64, i64, i64)> {
        self.drawn@
    }

    /// The number of draws made from the source since it was seeded.
    pub open spec fn draws(&self) -> nat {
        self.drawn().len()
    }

    /// A source whose stream of draws is fixed by `seed`.
    pub fn seeded(seed: u64) -> (source: RandomSource)
        ensures
            source.drawn() == Seq::<(i64, i64, i64)>::empty(),
    {
        RandomSource { rng: std_rng_from_seed(seed), drawn: Ghost(Seq::empty()) }
    }

    /// Draws one value from the half-open range `low..high`.
    pub fn uniform(&mut self, low: i64, high: i64) -> (r: i64)
        requires
            low < high,
        ensures
            low <= r < high,
            final(self).drawn() == old(self).drawn().push((low, high, r)),
    {
        let r = std_rng_gen_range(&mut self.rng, low, high);
        self.drawn = Ghost(self.drawn@.push((low, high, r)));
        r
    }

    /// Draws from `low..high`, and returns `high` without drawing where the
    /// range is empty.
    pub fn sample_safely(&mut self, low: i64, high: i64) -> (r: i64)
        ensures
            safe_sample(low as int, high as int, r as int),
            final(self).drawn() == if low < high {
                old(self).drawn().push((low, high, r))
            } else {
                old(self).drawn()
            },
            low >= high ==> *final(self) == *old(self),
    {
        if low >= high {
            return high;
        }
        self.uniform(low, high)
    }
}

} // verus!
