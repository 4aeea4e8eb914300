//! How the hashers and the factory of this library serve the hash maps and
//! hash sets of the standard library.

use std::hash::BuildHasher;
use std::hash::Hasher;
use vstd::prelude::*;

use crate::buffer::BufferedHasher;
use crate::hasher::BuildHasherExt;
use crate::hasher::Digest;
use crate::hasher::FastHash;
use crate::state::RandomState;

verus! {

impl<A: FastHash> Hasher for BufferedHasher<A> where A::Value: Digest {
    /// The digest of the buffer, as [`crate::hasher::FastHasher::finish`]
    /// gives it.
    fn finish(&self) -> (r: u64)
        ensures
            r == <Self as crate::hasher::FastHasher>::digest(self@.0, self@.1),
    {
        crate::hasher::FastHasher::finish(self)
    }

    /// Writes to the buffer, as [`crate::hasher::FastHasher::write`] does.
    fn write(&mut self, bytes: &[u8])
        ensures
            final(self)@ == (old(self)@.0, old(self)@.1 + bytes@),
    {
        crate::hasher::FastHasher::write(self, bytes)
    }
}

impl<T: BuildHasherExt> BuildHasher for RandomState<T> where T::Hasher: Hasher {
    type Hasher = T::Hasher;

    /// A fresh hasher, made with the seed of this factory: every call gives
    /// a hasher with the same seed.
    fn build_hasher(&self) -> (hasher: T::Hasher)
        ensures
            crate::hasher::FastHasher::seed(&hasher) == Some(T::hasher_seed(self@)),
            crate::hasher::FastHasher::written(&hasher) == Seq::<u8>::empty(),
    {
        RandomState::build_hasher(self)
    }
}

impl<A: FastHash> AsRef<[u8]> for BufferedHasher<A> where A::Value: Digest {
    fn as_ref(&self) -> (bytes: &[u8])
        ensures
            bytes@ == self@.1,
    {
        crate::hasher::BufHasher::as_slice(self)
    }
}

} // verus!
