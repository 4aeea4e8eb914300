//! What a hash algorithm and a hasher can do.
//!
//! A hash algorithm ([`FastHash`]) is a function from bytes and a seed to a
//! digest. A hasher ([`FastHasher`]) takes bytes over time and gives the
//! digest of all of them when asked. Both are stated over a model: an
//! algorithm names its digest function, a hasher the seed it was made with
//! and the bytes written to it so far.
//!
//! No algorithm is defined here. These traits are what one has to provide.

use vstd::bytes::spec_u128_to_le_bytes;
use vstd::bytes::u128_to_le_bytes;
use vstd::prelude::*;

use crate::seed::Seed;
use crate::wide::as_unsigned;
use crate::wide::low64;
use crate::wide::low_half;
use crate::wide::unsigned_bits;

verus! {

/// A value with a fingerprint: a good, portable, forever-fixed hash value.
pub trait Fingerprint<T> {
    /// The fingerprint of this value. It depends on the value and on nothing
    /// else.
    spec fn fingerprint_of(&self) -> T;

    /// Computes the fingerprint.
    fn fingerprint(&self) -> (r: T)
        ensures
            r == self.fingerprint_of(),
    ;
}

/// A digest that has a standard 64-bit form.
pub trait Digest {
    /// The standard-width form of this digest.
    spec fn narrowed(self) -> u64;

    /// Cuts or widens this digest to the standard width.
    fn narrow(self) -> (r: u64)
        ensures
            r == self.narrowed(),
    ;
}

/// A 32-bit digest is widened with zeros.
impl Digest for u32 {
    open spec fn narrowed(self) -> u64 {
        self as u64
    }

    fn narrow(self) -> (r: u64) {
        self as u64
    }
}

/// A 64-bit digest has the standard width.
impl Digest for u64 {
    open spec fn narrowed(self) -> u64 {
        self
    }

    fn narrow(self) -> (r: u64) {
        self
    }
}

/// A 128-bit digest is cut down to its lower 64 bits.
impl Digest for u128 {
    open spec fn narrowed(self) -> u64 {
        low_half(self)
    }

    fn narrow(self) -> (r: u64) {
        low64(self)
    }
}

/// A fast non-cryptographic hash algorithm: a pure function from a byte
/// sequence and a seed to a digest.
pub trait FastHash {
    /// The digest.
    type Value;

    /// The seed.
    type Seed: Default + Copy;

    /// The digest of `bytes` under `seed`.
    spec fn digest(bytes: Seq<u8>, seed: Self::Seed) -> Self::Value;

    /// The seed that [`FastHash::hash`] supplies.
    spec fn default_seed() -> Self::Seed;

    /// `Default::default()` of the seed type gives `default_seed()` and
    /// nothing else.
    proof fn default_seed_is_default(seed: Self::Seed)
        requires
            call_ensures(<Self::Seed as Default>::default, (), seed),
        ensures
            seed == Self::default_seed(),
    ;

    /// Hashes a byte sequence under a seed.
    fn hash_with_seed(bytes: &[u8], seed: Self::Seed) -> (r: Self::Value)
        ensures
            r == Self::digest(bytes@, seed),
    ;

    /// Hashes a byte sequence under the default seed.
    fn hash(bytes: &[u8]) -> (r: Self::Value)
        ensures
            r == Self::digest(bytes@, Self::default_seed()),
    {
        let seed: Self::Seed = Default::default();
        proof {
            Self::default_seed_is_default(seed);
        }
        Self::hash_with_seed(bytes, seed)
    }
}

/// A hash algorithm with a seeded factory for hashers: it makes a hasher for
/// a given [`Seed`].
pub trait BuildHasherExt: FastHash {
    /// The hashers that this factory makes.
    type Hasher: FastHasher;

    /// The seed of the hasher that is made for a `Seed` in state `s`.
    spec fn hasher_seed(s: (u64, u64)) -> <Self::Hasher as FastHasher>::Seed;

    /// A fresh hasher, seeded from `seed`. Its seed depends on the state of
    /// `seed` alone, and nothing has been written to it.
    fn build_hasher_with_seed(seed: &Seed) -> (hasher: Self::Hasher)
        ensures
            hasher.seed() == Some(Self::hasher_seed(seed@)),
            hasher.written() == Seq::<u8>::empty(),
    ;
}

/// A fast non-cryptographic hasher: it takes bytes over several calls and
/// gives their digest on demand.
pub trait FastHasher: Sized {
    /// The seed.
    type Seed: Default + Copy;

    /// The seed this hasher was made with, if it was made with one. It is
    /// fixed for the hasher's lifetime.
    spec fn seed(&self) -> Option<Self::Seed>;

    /// All bytes written to this hasher so far, in order.
    spec fn written(&self) -> Seq<u8>;

    /// The standard-width digest of `bytes` for a hasher made with `seed`.
    spec fn digest(seed: Option<Self::Seed>, bytes: Seq<u8>) -> u64;

    /// `Default::default()` of the seed type gives one seed and no other.
    proof fn default_seed_is_one(one: Self::Seed, other: Self::Seed)
        requires
            call_ensures(<Self::Seed as Default>::default, (), one),
            call_ensures(<Self::Seed as Default>::default, (), other),
        ensures
            one == other,
    ;

    /// A hasher to which nothing has been written, and which hashes as one
    /// made with the default seed does: whatever bytes are written to it, its
    /// digest is that of a hasher made with a seed that `Default::default()`
    /// gave. If it has a seed, that is the default seed.
    fn new() -> (hasher: Self)
        ensures
            hasher.written() == Seq::<u8>::empty(),
            hasher.seed() matches Some(seed) ==> call_ensures(
                <Self::Seed as Default>::default,
                (),
                seed,
            ),
            forall|seed: Self::Seed, bytes: Seq<u8>|
                call_ensures(<Self::Seed as Default>::default, (), seed) ==> Self::digest(
                    hasher.seed(),
                    bytes,
                ) == #[trigger] Self::digest(Some(seed), bytes),
    {
        let default: Self::Seed = Default::default();
        let hasher = Self::with_seed(default);
        assert forall|seed: Self::Seed, bytes: Seq<u8>|
            call_ensures(<Self::Seed as Default>::default, (), seed) implies Self::digest(
            hasher.seed(),
            bytes,
        ) == #[trigger] Self::digest(Some(seed), bytes) by {
            Self::default_seed_is_one(seed, default);
        }
        hasher
    }

    /// A hasher with the given seed, to which nothing has been written.
    fn with_seed(seed: Self::Seed) -> (hasher: Self)
        ensures
            hasher.seed() == Some(seed),
            hasher.written() == Seq::<u8>::empty(),
    ;

    /// Writes `bytes` behind what was written before.
    fn write(&mut self, bytes: &[u8])
        ensures
            final(self).seed() == old(self).seed(),
            final(self).written() == old(self).written() + bytes@,
    ;

    /// The digest of everything written so far. The hasher is left as it is.
    fn finish(&self) -> (r: u64)
        ensures
            r == Self::digest(self.seed(), self.written()),
    ;
}

/// `after` is the hasher `before` once `bytes` have been written to it: the
/// bytes stand behind what was written before, and the seed is as it was.
pub open spec fn wrote<H: FastHasher>(before: H, bytes: Seq<u8>, after: H) -> bool {
    &&& after.seed() == before.seed()
    &&& after.written() == before.written() + bytes
}

/// A hasher in buffer mode: it keeps all bytes written to it and hashes them
/// when the digest is asked for.
pub trait BufHasher: FastHasher {
    /// The whole buffer.
    fn as_slice(&self) -> (bytes: &[u8])
        ensures
            bytes@ == self.written(),
    ;

    /// The number of bytes in the buffer.
    fn len(&self) -> (n: usize)
        ensures
            n == self.written().len(),
    {
        self.as_slice().len()
    }
}

/// A hasher that also gives the full 128-bit digest of an algorithm whose
/// digest is wider than the standard 64 bits.
pub trait HasherExt: FastHasher {
    /// The wide digest of `bytes` for a hasher made with `seed`.
    spec fn wide_digest(seed: Option<Self::Seed>, bytes: Seq<u8>) -> u128;

    /// How this hasher narrows a wide digest to the standard width.
    spec fn narrowing(wide: u128) -> u64;

    /// The wide digest of everything written so far. The standard-width
    /// digest is its narrowing.
    fn finish_ext(&self) -> (wide: u128)
        ensures
            wide == Self::wide_digest(self.seed(), self.written()),
            Self::narrowing(wide) == Self::digest(self.seed(), self.written()),
    ;

    /// Writes a 128-bit value: its sixteen bytes, the lowest first, whatever
    /// the byte order of the machine.
    fn write_u128(&mut self, i: u128)
        ensures
            wrote(*old(self), spec_u128_to_le_bytes(i), *final(self)),
    {
        let bytes = u128_to_le_bytes(i);
        self.write(bytes.as_slice());
    }

    /// Writes a signed 128-bit value: the bytes of the unsigned value that has
    /// the same bits.
    fn write_i128(&mut self, i: i128)
        ensures
            wrote(*old(self), spec_u128_to_le_bytes(unsigned_bits(i)), *final(self)),
    {
        self.write_u128(as_unsigned(i));
    }
}

/// Hashing under the default seed is hashing with that seed: whatever `hash`
/// returns for some bytes, `hash_with_seed` returns for the same bytes and a
/// seed that `Default::default()` gave.
pub proof fn lemma_hash_is_hash_with_default_seed<A: FastHash>(
    bytes: &[u8],
    seed: A::Seed,
    plain: A::Value,
    seeded: A::Value,
)
    requires
        call_ensures(<A::Seed as Default>::default, (), seed),
        call_ensures(A::hash, (bytes,), plain),
        call_ensures(A::hash_with_seed, (bytes, seed), seeded),
    ensures
        plain == seeded,
{
    A::default_seed_is_default(seed);
}

/// Writing `first` and then `second` comes to the same as writing the two
/// joined: the hashers that result have the same seed, hold the same bytes
/// and finish with the same digest.
pub proof fn lemma_split_write<H: FastHasher>(
    hasher: H,
    first: Seq<u8>,
    second: Seq<u8>,
    between: H,
    split: H,
    whole: H,
    split_digest: u64,
    whole_digest: u64,
)
    requires
        wrote(hasher, first, between),
        wrote(between, second, split),
        wrote(hasher, first + second, whole),
        call_ensures(H::finish, (&split,), split_digest),
        call_ensures(H::finish, (&whole,), whole_digest),
    ensures
        split.seed() == whole.seed(),
        split.written() == whole.written(),
        split_digest == whole_digest,
{
    assert((hasher.written() + first) + second =~= hasher.written() + (first + second));
}

/// Finishing twice an unmodified hasher gives the same digest both times.
pub proof fn lemma_finish_repeats<H: FastHasher>(hasher: &H, once: u64, again: u64)
    requires
        call_ensures(H::finish, (hasher,), once),
        call_ensures(H::finish, (hasher,), again),
    ensures
        once == again,
{
}

/// Asking twice an unmodified hasher for its wide digest gives the same
/// digest both times.
pub proof fn lemma_finish_ext_repeats<H: HasherExt>(hasher: &H, once: u128, again: u128)
    requires
        call_ensures(H::finish_ext, (hasher,), once),
        call_ensures(H::finish_ext, (hasher,), again),
    ensures
        once == again,
{
}

/// The standard-width digest of a hasher is the narrowing of its wide digest.
pub proof fn lemma_finish_narrows_finish_ext<H: HasherExt>(hasher: &H, standard: u64, wide: u128)
    requires
        call_ensures(H::finish, (hasher,), standard),
        call_ensures(H::finish_ext, (hasher,), wide),
    ensures
        standard == H::narrowing(wide),
{
}

} // verus!
