//! The randomized hasher factory.
//!
//! A [`RandomState`] holds one seed, drawn when it is made, and makes every
//! hasher with that seed. One table so hashes all its keys alike, and two
//! tables almost never hash alike.

use std::marker::PhantomData;
use vstd::prelude::*;

use crate::hasher::BuildHasherExt;
use crate::hasher::FastHash;
use crate::hasher::FastHasher;
use crate::seed::draw_from;
use crate::seed::viewed;
use crate::seed::Seed;
use crate::seed::SeedError;
use crate::seed::SeedGenerator;

verus! {

/// The default state of a hash map or hash set that hashes with the
/// algorithm `T`.
pub struct RandomState<T: FastHash> {
    seed: Seed,
    phantom: PhantomData<T>,
}

impl<T: FastHash> View for RandomState<T> {
    type V = (u64, u64);

    /// The state of the seed that this factory holds.
    closed spec fn view(&self) -> (u64, u64) {
        self.seed@
    }
}

impl<T: BuildHasherExt> RandomState<T> {
    /// A factory that holds a seed newly drawn from `generator`, as
    /// [`Seed::gen`] draws it.
    ///
    /// # Panics
    ///
    /// On the first draw from a generator, where the entropy source is found
    /// but cannot be read, the generator's crate panics.
    pub fn new(generator: &mut SeedGenerator) -> (r: Result<Self, SeedError>)
        ensures
            old(generator)@ matches Some(s) ==> viewed(r) == draw_from(s).0 && final(generator)@
                == Some(draw_from(s).1),
            old(generator)@ is None ==> {
                ||| viewed(r) == Err::<(u64, u64), _>(SeedError::EntropyUnavailable)
                    && final(generator)@ is None
                ||| exists|s: (u64, u64)|
                    s != (0u64, 0u64) && viewed(r) == (#[trigger] draw_from(s)).0
                        && final(generator)@ == Some(draw_from(s).1)
            },
    {
        match Seed::gen(generator) {
            Ok(seed) => Ok(RandomState { seed, phantom: PhantomData }),
            Err(e) => Err(e),
        }
    }

    /// A factory that holds the given seed.
    pub fn with_seed(seed: Seed) -> (state: Self)
        ensures
            state@ == seed@,
    {
        RandomState { seed, phantom: PhantomData }
    }

    /// A fresh hasher of the algorithm, made with the seed of this factory.
    pub fn build_hasher(&self) -> (hasher: T::Hasher)
        ensures
            hasher.seed() == Some(T::hasher_seed(self@)),
            hasher.written() == Seq::<u8>::empty(),
    {
        T::build_hasher_with_seed(&self.seed)
    }
}

/// All hashers that one factory makes are alike: they have the same seed, and
/// nothing has been written to any of them.
pub proof fn lemma_one_factory_one_seed<T: BuildHasherExt>(
    state: &RandomState<T>,
    one: T::Hasher,
    other: T::Hasher,
)
    requires
        call_ensures(RandomState::<T>::build_hasher, (state,), one),
        call_ensures(RandomState::<T>::build_hasher, (state,), other),
    ensures
        one.seed() == other.seed(),
        one.written() == other.written(),
{
}

} // verus!
