use vstd::prelude::*;
use crate::seed::{parse_seed, seed_from_text, SeedParseError};

verus! {

/// What drawing from `low..=high` gives on a generator in state `state`:
/// the value drawn and the state that the generator is left in.
pub uninterp spec fn range_draw(state: u64, low: u64, high: u64) -> (u64, u64);

/// Relies on fastrand's `Rng::with_seed`, `Rng::u64` and `Rng::get_seed`.
/// A generator's whole state is the `u64` that `with_seed` sets and
/// `get_seed` reads; `u64(low..=high)` returns a value in that range, and
/// the value and the state it leaves depend on the state and the bounds
/// alone. It panics only on an empty range.
#[verifier::external_body]
fn draw_in_range(state: u64, low: u64, high: u64) -> (r: (u64, u64))
    requires
        low <= high,
    ensures
        r == range_draw(state, low, high),
        low <= r.0 <= high,
{
    let rng = fastrand::Rng::with_seed(state);
    let value = rng.u64(low..=high);
    (value, rng.get_seed())
}

/// Relies on fastrand's `Rng::new`, which seeds a generator from the
/// thread's own generator; nothing is known of the seed.
#[verifier::external_body]
fn fresh_seed() -> (r: u64) {
    fastrand::Rng::new().get_seed()
}

/// The generator that every placement and generation decision draws from.
///
/// Its state is one `u64`; a fixed state gives a fixed stream of draws,
/// so a saved seed reproduces a world. Draws take `&mut self`: only one
/// caller can draw at a time.
pub struct EarthRng {
    state: u64,
}

impl View for EarthRng {
    type V = u64;

    closed spec fn view(&self) -> u64 {
        self.state
    }
}

impl EarthRng {
    /// A generator with an unpredictable seed.
    pub fn new() -> (r: EarthRng) {
        EarthRng { state: fresh_seed() }
    }

    /// A generator in state `seed`.
    pub fn with_seed(seed: u64) -> (r: EarthRng)
        ensures
            r@ == seed,
    {
        EarthRng { state: seed }
    }

    /// Puts the generator in state `seed`.
    pub fn seed(&mut self, seed: u64)
        ensures
            final(self)@ == seed,
    {
        self.state = seed;
    }

    /// The current state, from which the draws that follow are determined.
    pub fn get_seed(&self) -> (r: u64)
        ensures
            r == self@,
    {
        self.state
    }

    /// Draws a value in `low..=high`.
    pub fn uniform_u64_range(&mut self, low: u64, high: u64) -> (r: u64)
        requires
            low <= high,
        ensures
            (r, final(self)@) == range_draw(old(self)@, low, high),
            low <= r <= high,
    {
        let (value, next) = draw_in_range(self.state, low, high);
        self.state = next;
        value
    }

    /// Reseeds the generator from saved seed text. Text that is not a
    /// decimal `u64` leaves the generator as it was.
    pub fn load_seed(&mut self, text: &[u8]) -> (r: Result<(), SeedParseError>)
        ensures
            r is Ok <==> seed_from_text(text@) is Some,
            seed_from_text(text@) matches Some(s) ==> final(self)@ == s,
            seed_from_text(text@) is None ==> final(self)@ == old(self)@,
    {
        match parse_seed(text) {
            Ok(seed) => {
                self.state = seed;
                Ok(())
            },
            Err(e) => Err(e),
        }
    }
}

/// The state the generator was in when the last world was generated, kept
/// so that it can be saved after the fact.
#[derive(Clone, Copy, PartialEq, Eq, Structural, Debug)]
pub struct LastGenerationSeed(pub u64);

} // verus!
