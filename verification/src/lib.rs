//! A common interface to fast non-cryptographic hash algorithms.
//!
//! Any algorithm that hashes a byte sequence under a seed ([`FastHash`]) gets
//! a hasher ([`BufferedHasher`]) and a randomized hasher factory
//! ([`RandomState`]) for hash maps and hash sets. Seeds come from a small
//! pseudo-random generator whose state is cached, so that the operating
//! system is asked for entropy once ([`Seed`], [`SeedGenerator`]).
//!
//! No algorithm is part of this crate.

pub mod buffer;
pub mod hasher;
pub mod seed;
pub mod state;
pub mod stream;
pub mod table;
pub mod wide;

pub use crate::buffer::BufferedHasher;
pub use crate::hasher::BufHasher;
pub use crate::hasher::BuildHasherExt;
pub use crate::hasher::Digest;
pub use crate::hasher::FastHash;
pub use crate::hasher::FastHasher;
pub use crate::hasher::Fingerprint;
pub use crate::hasher::HasherExt;
pub use crate::seed::Seed;
pub use crate::seed::SeedError;
pub use crate::seed::SeedGenerator;
pub use crate::state::RandomState;
pub use crate::stream::Phase;
pub use crate::stream::ReadEvent;
pub use crate::stream::StreamAction;
pub use crate::stream::StreamFeed;
pub use crate::stream::StreamHasher;
pub use crate::stream::CHUNK_SIZE;
