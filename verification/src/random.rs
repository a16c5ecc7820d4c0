use vstd::prelude::*;

verus! {

/// Source of randomness for the arpeggiator.
pub trait Random {
    /// The draws made so far, oldest first: each modulo asked for, with the
    /// value drawn for it.
    ///
    /// The contract of [`Random::u8_mod`] says that every call records its
    /// draw here. This default records nothing, so an implementation that
    /// keeps it cannot meet that contract, and what the library proves of
    /// code that draws from the source does not hold of such an
    /// implementation. The default exists so that sources
    /// written as plain Rust, which cannot name a `Seq`, can still implement
    /// the trait; [`RandomGenerator`] records its draws.
    open spec fn draws(&self) -> Seq<(u8, u8)> {
        Seq::empty()
    }

    /// A value in `0..modulo`; the draw is recorded.
    fn u8_mod(&mut self, modulo: u8) -> (r: u8)
        requires
            modulo > 0,
        ensures
            r < modulo,
            final(self).draws() == old(self).draws().push((modulo, r)),
    ;
}

#[verifier::external_type_specification]
#[verifier::external_body]
pub struct ExRng(fastrand::Rng);

/// Pseudo-random generator seeded once at start.
pub struct RandomGenerator {
    rng: fastrand::Rng,
    history: Ghost<Seq<(u8, u8)>>,
}

/// `fastrand::Rng::with_seed`: a generator whose sequence is determined by the seed.
#[verifier::external_body]
fn rng_with_seed(seed: u64) -> fastrand::Rng {
    fastrand::Rng::with_seed(seed)
}

/// `fastrand::Rng::u8` over `0..upper`: a value of that range (the range
/// must not be empty, else the call panics).
#[verifier::external_body]
fn rng_u8_below(rng: &mut fastrand::Rng, upper: u8) -> (r: u8)
    requires
        upper > 0,
    ensures
        r < upper,
{
    rng.u8(0..upper)
}

impl RandomGenerator {
    /// A generator seeded once; it has drawn nothing yet.
    pub fn with_seed(seed: u64) -> (r: Self)
        ensures
            r.draws() == Seq::<(u8, u8)>::empty(),
    {
        Self { rng: rng_with_seed(seed), history: Ghost(Seq::empty()) }
    }
}

impl Random for RandomGenerator {
    closed spec fn draws(&self) -> Seq<(u8, u8)> {
        self.history@
    }

    fn u8_mod(&mut self, modulo: u8) -> (r: u8) {
        let r = rng_u8_below(&mut self.rng, modulo);
        self.history = Ghost(self.history@.push((modulo, r)));
        r
    }
}

} // verus!
