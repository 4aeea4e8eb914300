//! The buffer-mode hasher: a hasher for any hash algorithm.
//!
//! It keeps every byte written to it and leaves all the hashing to the
//! algorithm, which is given the whole buffer when a digest is asked for.
//! Writing is cheap; finishing hashes the whole buffer, each time anew.

use vstd::prelude::*;
use vstd::std_specs::convert::FromSpec;

use crate::hasher::BufHasher;
use crate::hasher::Digest;
use crate::hasher::FastHash;
use crate::hasher::FastHasher;
use crate::hasher::HasherExt;
use crate::seed::Seed;
use crate::stream::StreamHasher;
use crate::wide::low_half;

verus! {

/// The room that is set aside for the bytes of a typical short key.
pub const INITIAL_CAPACITY: usize = 64;

/// A hasher that buffers what is written to it and hashes the buffer with
/// the algorithm `A`.
pub struct BufferedHasher<A: FastHash> {
    seed: Option<A::Seed>,
    bytes: Vec<u8>,
}

impl<A: FastHash> View for BufferedHasher<A> {
    type V = (Option<A::Seed>, Seq<u8>);

    /// The seed, if there is one, and the buffer.
    closed spec fn view(&self) -> (Option<A::Seed>, Seq<u8>) {
        (self.seed, self.bytes@)
    }
}

/// The seed under which a hasher made with `seed` hashes.
pub open spec fn effective_seed<A: FastHash>(seed: Option<A::Seed>) -> A::Seed {
    match seed {
        Some(seed) => seed,
        None => A::default_seed(),
    }
}

impl<A: FastHash> BufferedHasher<A> {
    /// A hasher with an empty buffer, whose seed is what `seed` turns into
    /// in the algorithm's seed type.
    pub fn from_seed(seed: &Seed) -> (hasher: Self) where A::Seed: From<Seed>
        ensures
            hasher@.1 == Seq::<u8>::empty(),
            hasher@.0 is Some,
            <A::Seed as FromSpec<Seed>>::obeys_from_spec() ==> hasher@.0 == Some(
                <A::Seed as FromSpec<Seed>>::from_spec(*seed),
            ),
    {
        let seed: A::Seed = A::Seed::from(*seed);
        BufferedHasher { seed: Some(seed), bytes: Vec::with_capacity(INITIAL_CAPACITY) }
    }

    /// The digest of the buffer, as the algorithm gives it.
    fn finalize(&self) -> (r: A::Value)
        ensures
            r == A::digest(self@.1, effective_seed::<A>(self@.0)),
    {
        match self.seed {
            Some(seed) => A::hash_with_seed(self.bytes.as_slice(), seed),
            None => A::hash(self.bytes.as_slice()),
        }
    }
}

impl<A: FastHash> Default for BufferedHasher<A> {
    /// A hasher without a seed and with an empty buffer.
    fn default() -> (hasher: Self)
        ensures
            hasher@ == (None::<A::Seed>, Seq::<u8>::empty()),
    {
        BufferedHasher { seed: None, bytes: Vec::with_capacity(INITIAL_CAPACITY) }
    }
}

impl<A: FastHash> Clone for BufferedHasher<A> {
    /// A hasher with the same seed and the same buffer.
    fn clone(&self) -> (hasher: Self)
        ensures
            hasher@ == self@,
    {
        let hasher = BufferedHasher { seed: self.seed, bytes: self.bytes.clone() };
        assert(hasher.bytes@ =~= self.bytes@);
        hasher
    }
}

impl<A: FastHash> FastHasher for BufferedHasher<A> where A::Value: Digest {
    type Seed = A::Seed;

    open spec fn seed(&self) -> Option<A::Seed> {
        self@.0
    }

    open spec fn written(&self) -> Seq<u8> {
        self@.1
    }

    open spec fn digest(seed: Option<A::Seed>, bytes: Seq<u8>) -> u64 {
        A::digest(bytes, effective_seed::<A>(seed)).narrowed()
    }

    proof fn default_seed_is_one(one: A::Seed, other: A::Seed) {
        A::default_seed_is_default(one);
        A::default_seed_is_default(other);
    }

    /// A hasher without a seed: it hashes as the algorithm does when it is
    /// given none, which is under the default seed.
    fn new() -> (hasher: Self)
        ensures
            hasher.seed() is None,
    {
        let hasher = BufferedHasher { seed: None, bytes: Vec::with_capacity(INITIAL_CAPACITY) };
        assert forall|seed: A::Seed, bytes: Seq<u8>|
            call_ensures(<A::Seed as Default>::default, (), seed) implies Self::digest(
            hasher.seed(),
            bytes,
        ) == #[trigger] Self::digest(Some(seed), bytes) by {
            A::default_seed_is_default(seed);
        }
        hasher
    }

    fn with_seed(seed: A::Seed) -> (hasher: Self) {
        BufferedHasher { seed: Some(seed), bytes: Vec::with_capacity(INITIAL_CAPACITY) }
    }

    fn write(&mut self, bytes: &[u8]) {
        self.bytes.extend_from_slice(bytes);
        assert(self.bytes@ =~= old(self).bytes@ + bytes@);
    }

    fn finish(&self) -> (r: u64) {
        self.finalize().narrow()
    }
}

impl<A: FastHash> BufHasher for BufferedHasher<A> where A::Value: Digest {
    fn as_slice(&self) -> (bytes: &[u8]) {
        self.bytes.as_slice()
    }
}

impl<A: FastHash> StreamHasher for BufferedHasher<A> where A::Value: Digest {}

impl<A: FastHash<Value = u128>> HasherExt for BufferedHasher<A> {
    open spec fn wide_digest(seed: Option<A::Seed>, bytes: Seq<u8>) -> u128 {
        A::digest(bytes, effective_seed::<A>(seed))
    }

    open spec fn narrowing(wide: u128) -> u64 {
        low_half(wide)
    }

    fn finish_ext(&self) -> (wide: u128) {
        self.finalize()
    }
}

} // verus!
