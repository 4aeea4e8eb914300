//! Seeds, and the generator that hands them out.
//!
//! A [`Seed`] wraps a small pseudo-random generator (xoroshiro128+), whose
//! whole state is two 64-bit words. Everything a seed turns into is a
//! function of those two words, and the contracts here say which function.
//!
//! The generator itself is `xoroshiro128`'s. The functions that call it are
//! trusted; their contracts restate what its source computes.

use rand::Rng;
use rand::SeedableRng;
use vstd::prelude::*;
use vstd::std_specs::convert::FromSpecImpl;
use xoroshiro128::Xoroshiro128Rng;

use crate::wide::high_half;
use crate::wide::join_halves;
use crate::wide::lemma_halves_of_wide;
use crate::wide::low_half;
use crate::wide::wide;

verus! {

/// Trusted. The generator type of `xoroshiro128`, opaque to the verifier.
#[verifier::external_type_specification]
#[verifier::external_body]
pub struct ExXoroshiro128Rng(Xoroshiro128Rng);

/// Trusted. The 64-bit words that a generator holds, in the order in which it
/// keeps them.
pub uninterp spec fn generator_words(rng: Xoroshiro128Rng) -> Seq<u64>;

/// `x` rotated to the left by `k` bits, for `0 < k < 64`.
pub open spec fn rotate_left(x: u64, k: u64) -> u64 {
    (x << k) | (x >> ((64 - k) as u64))
}

/// The number that a generator in state `s` gives out next: the sum of its
/// two words, wrapping at 64 bits.
pub open spec fn output(s: (u64, u64)) -> u64 {
    ((s.0 as int + s.1 as int) % 0x1_0000_0000_0000_0000) as u64
}

/// The state that follows `s`, once the generator has given out a number.
pub open spec fn advance(s: (u64, u64)) -> (u64, u64) {
    let t = s.1 ^ s.0;
    (rotate_left(s.0, 55) ^ t ^ (t << 14), rotate_left(t, 36))
}

/// The lower 32 bits of a 64-bit number.
pub open spec fn low_32(x: u64) -> u32 {
    (x as int % 0x1_0000_0000) as u32
}

/// The state of a generator as a pair of words.
pub open spec fn state_of(rng: Xoroshiro128Rng) -> (u64, u64) {
    (generator_words(rng)[0], generator_words(rng)[1])
}

/// Trusted. Calls `SeedableRng::from_seed` of `Xoroshiro128Rng` with an array
/// of the two words. The outside function stores the array as its state, and
/// panics where both words are zero: `requires` leaves that seed out.
#[verifier::external_body]
fn generator_from_words(s0: u64, s1: u64) -> (rng: Xoroshiro128Rng)
    requires
        !(s0 == 0 && s1 == 0),
    ensures
        generator_words(rng) == seq![s0, s1],
{
    Xoroshiro128Rng::from_seed([s0, s1])
}

/// Trusted. Calls `Xoroshiro128Rng::new`, which seeds a generator from the
/// operating system's entropy source, and drops the error's detail. The
/// outside function draws two words from that source until they are not both
/// zero, and makes them the state: the contract claims that the state has two
/// words, not both zero, and nothing else of it. The call fails where the
/// source cannot be opened. Where the source is opened and then cannot be
/// read, the outside crate panics.
#[verifier::external_body]
fn generator_from_entropy() -> (r: Option<Xoroshiro128Rng>)
    ensures
        r matches Some(rng) ==> generator_words(rng).len() == 2 && state_of(rng) != (0u64, 0u64),
{
    Xoroshiro128Rng::new().ok()
}

/// Trusted. Calls `Rng::next_u64` as `Xoroshiro128Rng` implements it. The
/// outside function returns the wrapping sum of its two words; it then sets
/// the first word to `rotl(s0, 55) ^ t ^ (t << 14)` and the second to
/// `rotl(t, 36)`, where `t = s1 ^ s0`.
#[verifier::external_body]
fn generator_next_u64(rng: &mut Xoroshiro128Rng) -> (out: u64)
    ensures
        out == output(state_of(*old(rng))),
        generator_words(*final(rng)) == seq![
            advance(state_of(*old(rng))).0,
            advance(state_of(*old(rng))).1,
        ],
{
    rng.next_u64()
}

/// Trusted. Calls `Rng::next_u32` as `Xoroshiro128Rng` implements it: the
/// outside function calls its own `next_u64` and cuts the result down to 32
/// bits.
#[verifier::external_body]
fn generator_next_u32(rng: &mut Xoroshiro128Rng) -> (out: u32)
    ensures
        out == low_32(output(state_of(*old(rng)))),
        generator_words(*final(rng)) == seq![
            advance(state_of(*old(rng))).0,
            advance(state_of(*old(rng))).1,
        ],
{
    rng.next_u32()
}

/// Why no seed could be handed out.
#[derive(Clone, Copy, Debug, PartialEq, Eq, Structural)]
pub enum SeedError {
    /// The operating system's entropy source is not available.
    EntropyUnavailable,
    /// Both words of a generator state would be zero. From that state the
    /// generator gives out nothing but zeros, so it is never entered.
    ZeroState,
}

/// Randomized input for a hash algorithm: a generator state of two words.
///
/// A seed is a value. Turning one into a scalar works on a copy, so the same
/// seed turns into the same scalar every time; [`Seed::next_u64`] is the
/// operation that draws a number and moves the seed on.
#[derive(Clone, Copy, Debug)]
pub struct Seed {
    rng: Xoroshiro128Rng,
}

impl View for Seed {
    type V = (u64, u64);

    /// The two words of the seed's generator.
    closed spec fn view(&self) -> (u64, u64) {
        state_of(self.rng)
    }
}

/// The 32-bit scalar that a seed in state `s` turns into: the next number of
/// the generator, cut down to 32 bits.
pub open spec fn scalar_32(s: (u64, u64)) -> u32 {
    low_32(output(s))
}

/// The 64-bit scalar that a seed in state `s` turns into: the next number of
/// the generator.
pub open spec fn scalar_64(s: (u64, u64)) -> u64 {
    output(s)
}

/// The pair that a seed in state `s` turns into: the next two numbers of the
/// generator.
pub open spec fn pair(s: (u64, u64)) -> (u64, u64) {
    (output(s), output(advance(s)))
}

/// The 128-bit scalar that a seed in state `s` turns into: the next number
/// of the generator as the upper half, and the one after it as the lower.
pub open spec fn scalar_128(s: (u64, u64)) -> u128 {
    wide(output(s), output(advance(s)))
}

/// The four numbers that a seed in state `s` turns into: the next four
/// numbers of the generator.
pub open spec fn quad(s: (u64, u64)) -> (u64, u64, u64, u64) {
    (
        output(s),
        output(advance(s)),
        output(advance(advance(s))),
        output(advance(advance(advance(s)))),
    )
}

/// The state that a cached generator is given when a seed is drawn from it:
/// the next two numbers it gives out.
pub open spec fn reseeded(s: (u64, u64)) -> (u64, u64) {
    pair(s)
}

/// What drawing a seed from a cached generator in state `s` comes to: the
/// state of the seed that is handed out, and the state of the cache after
/// the draw. The seed handed out is the cached generator as it was, and the
/// cache is reseeded with the next two numbers of that generator. Where
/// those two numbers are both zero, no seed is handed out and the cache stays
/// as it was.
pub open spec fn draw_from(s: (u64, u64)) -> (Result<(u64, u64), SeedError>, (u64, u64)) {
    if reseeded(s) == (0u64, 0u64) {
        (Err(SeedError::ZeroState), s)
    } else {
        (Ok(s), reseeded(s))
    }
}

/// A result with the view of what it holds in place of the value.
pub open spec fn viewed<T: View>(r: Result<T, SeedError>) -> Result<T::V, SeedError> {
    match r {
        Ok(value) => Ok(value@),
        Err(e) => Err(e),
    }
}

impl Seed {
    /// A brand-new seed, backed by the operating system's entropy source.
    /// Its state is never two zero words. It fails only where that source
    /// is not available.
    ///
    /// # Panics
    ///
    /// Where the entropy source is found but cannot be read, the generator's
    /// crate panics.
    pub fn new() -> (r: Result<Seed, SeedError>)
        ensures
            r matches Ok(seed) ==> seed@ != (0u64, 0u64),
            r matches Err(e) ==> e == SeedError::EntropyUnavailable,
    {
        match generator_from_entropy() {
            Some(rng) => Ok(Seed { rng }),
            None => Err(SeedError::EntropyUnavailable),
        }
    }

    /// The seed whose state is the two words given. Two zero words are no
    /// state of the generator.
    pub fn with_state(s0: u64, s1: u64) -> (r: Result<Seed, SeedError>)
        ensures
            r is Ok <==> !(s0 == 0 && s1 == 0),
            r matches Ok(seed) ==> seed@ == (s0, s1),
            r matches Err(e) ==> e == SeedError::ZeroState,
    {
        if s0 == 0 && s1 == 0 {
            Err(SeedError::ZeroState)
        } else {
            Ok(Seed { rng: generator_from_words(s0, s1) })
        }
    }

    /// Draws the next number and moves this seed on.
    pub fn next_u64(&mut self) -> (out: u64)
        ensures
            out == output(old(self)@),
            final(self)@ == advance(old(self)@),
    {
        generator_next_u64(&mut self.rng)
    }

    /// Draws the next number, cut down to 32 bits, and moves this seed on.
    pub fn next_u32(&mut self) -> (out: u32)
        ensures
            out == low_32(output(old(self)@)),
            final(self)@ == advance(old(self)@),
    {
        generator_next_u32(&mut self.rng)
    }

    /// Draws a seed from this one, taken as a cached generator state.
    ///
    /// Two numbers are drawn from a copy of the cached generator and become
    /// the new cached state. The seed handed out is the cached generator as
    /// it was before that. Where both numbers are zero there is no such
    /// state: the draw fails and the cache stays as it was.
    pub fn draw(&mut self) -> (r: Result<Seed, SeedError>)
        ensures
            (viewed(r), final(self)@) == draw_from(old(self)@),
    {
        let seed = *self;
        let mut copy = *self;
        let a = copy.next_u64();
        let b = copy.next_u64();
        if a == 0 && b == 0 {
            Err(SeedError::ZeroState)
        } else {
            self.rng = generator_from_words(a, b);
            Ok(seed)
        }
    }

    /// Generates a new seed from the generator's cached state.
    ///
    /// The first call on a generator seeds its cache from the operating
    /// system's entropy source; every later call works on the cache alone, as
    /// [`Seed::draw`] says.
    ///
    /// # Panics
    ///
    /// On the first call, where the entropy source is found but cannot be
    /// read, the generator's crate panics.
    pub fn gen(generator: &mut SeedGenerator) -> (r: Result<Seed, SeedError>)
        ensures
            old(generator)@ matches Some(s) ==> viewed(r) == draw_from(s).0 && final(generator)@
                == Some(draw_from(s).1),
            old(generator)@ is None ==> {
                ||| viewed(r) == Err::<(u64, u64), _>(SeedError::EntropyUnavailable)
                    && final(generator)@ is None
                ||| exists|s: (u64, u64)|
                    s != (0u64, 0u64) && viewed(r) == (#[trigger] draw_from(s)).0
                        && final(generator)@ == Some(draw_from(s).1)
            },
    {
        match generator.cached {
            Some(mut cached) => {
                let r = cached.draw();
                generator.cached = Some(cached);
                r
            },
            None => match Seed::new() {
                Ok(mut fresh) => {
                    let ghost s = fresh@;
                    let r = fresh.draw();
                    generator.cached = Some(fresh);
                    assert(s != (0u64, 0u64) && viewed(r) == draw_from(s).0 && generator@ == Some(
                        draw_from(s).1,
                    ));
                    r
                },
                Err(_) => Err(SeedError::EntropyUnavailable),
            },
        }
    }
}

/// The cached generator state from which seeds are drawn: one slot, empty
/// until the first seed is asked for.
///
/// One such handle stands for one thread of execution; it is passed to
/// whatever needs a seed.
pub struct SeedGenerator {
    cached: Option<Seed>,
}

impl View for SeedGenerator {
    type V = Option<(u64, u64)>;

    /// The state of the cached generator, once the slot has been filled.
    closed spec fn view(&self) -> Option<(u64, u64)> {
        match self.cached {
            Some(seed) => Some(seed@),
            None => None,
        }
    }
}

impl SeedGenerator {
    /// A generator with an empty slot.
    pub fn new() -> (generator: SeedGenerator)
        ensures
            generator@ is None,
    {
        SeedGenerator { cached: None }
    }

    /// A generator whose slot holds the given seed.
    pub fn seeded(seed: Seed) -> (generator: SeedGenerator)
        ensures
            generator@ == Some(seed@),
    {
        SeedGenerator { cached: Some(seed) }
    }

    /// Whether the slot has been filled.
    pub fn is_seeded(&self) -> (b: bool)
        ensures
            b == (self@ is Some),
    {
        self.cached.is_some()
    }
}

impl From<Seed> for u32 {
    fn from(seed: Seed) -> (r: u32) {
        let mut seed = seed;
        seed.next_u32()
    }
}

impl FromSpecImpl<Seed> for u32 {
    open spec fn obeys_from_spec() -> bool {
        true
    }

    open spec fn from_spec(seed: Seed) -> u32 {
        scalar_32(seed@)
    }
}

impl From<Seed> for u64 {
    fn from(seed: Seed) -> (r: u64) {
        let mut seed = seed;
        seed.next_u64()
    }
}

impl FromSpecImpl<Seed> for u64 {
    open spec fn obeys_from_spec() -> bool {
        true
    }

    open spec fn from_spec(seed: Seed) -> u64 {
        scalar_64(seed@)
    }
}

impl From<Seed> for u128 {
    fn from(seed: Seed) -> (r: u128) {
        let mut seed = seed;
        let hi = seed.next_u64();
        let lo = seed.next_u64();
        join_halves(hi, lo)
    }
}

impl FromSpecImpl<Seed> for u128 {
    open spec fn obeys_from_spec() -> bool {
        true
    }

    open spec fn from_spec(seed: Seed) -> u128 {
        scalar_128(seed@)
    }
}

impl From<Seed> for (u64, u64) {
    fn from(seed: Seed) -> (r: (u64, u64)) {
        let mut seed = seed;
        let a = seed.next_u64();
        let b = seed.next_u64();
        (a, b)
    }
}

impl FromSpecImpl<Seed> for (u64, u64) {
    open spec fn obeys_from_spec() -> bool {
        true
    }

    open spec fn from_spec(seed: Seed) -> (u64, u64) {
        pair(seed@)
    }
}

impl From<Seed> for (u64, u64, u64, u64) {
    fn from(seed: Seed) -> (r: (u64, u64, u64, u64)) {
        let mut seed = seed;
        let a = seed.next_u64();
        let b = seed.next_u64();
        let c = seed.next_u64();
        let d = seed.next_u64();
        (a, b, c, d)
    }
}

impl FromSpecImpl<Seed> for (u64, u64, u64, u64) {
    open spec fn obeys_from_spec() -> bool {
        true
    }

    open spec fn from_spec(seed: Seed) -> (u64, u64, u64, u64) {
        quad(seed@)
    }
}

/// What a seed turns into in one shape is part of what it turns into in a
/// larger one: the 32-bit scalar is the lower half of the 64-bit scalar; the
/// 64-bit scalar is the upper half of the 128-bit scalar and the first of
/// the pair; the second of the pair is the lower half of the 128-bit scalar;
/// and the pair is the first two of the four.
pub proof fn lemma_scalars_agree(s: (u64, u64))
    ensures
        scalar_32(s) == low_32(scalar_64(s)),
        scalar_64(s) == high_half(scalar_128(s)),
        scalar_64(s) == pair(s).0,
        pair(s).1 == low_half(scalar_128(s)),
        pair(s) == (quad(s).0, quad(s).1),
{
    lemma_halves_of_wide(output(s), output(advance(s)));
}

/// Two seeds drawn one after the other from a cache in state `s` turn into
/// the same 64-bit scalar only where the second of the two numbers that
/// reseed the cache is zero. The first seed is the cache as it was and turns
/// into the first of the two numbers; the second seed is the reseeded cache
/// and turns into their sum.
pub proof fn lemma_next_seed_differs(s: (u64, u64))
    requires
        reseeded(s) != (0u64, 0u64),
    ensures
        draw_from(s) == (Ok::<(u64, u64), SeedError>(s), reseeded(s)),
        draw_from(reseeded(s)).0 matches Ok(next) ==> (scalar_64(next) == scalar_64(s)
            <==> reseeded(s).1 == 0),
{
}

} // verus!
