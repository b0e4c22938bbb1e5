//! A collision-resistant hash built from Edwards BLS12 group operations with
//! the windowed Bowe–Hopwood/Pedersen construction.
//!
//! An instance is created once by [`crh::BHPCRH::setup`] from a
//! domain-separation string and a window geometry, and is immutable
//! afterwards; its [`crh::BHPCRH::hash`] maps a bit string to the affine
//! x-coordinate of a sum of precomputed lookup entries.  The elliptic-curve
//! arithmetic and the hash-to-curve primitive come from outside crates and
//! are trusted; everything built on them — the scalar safety bound, the
//! domain-separated generator derivation, the lookup tables, padding,
//! partitioning and summation — is verified.

pub mod bits;
pub mod bound;
pub mod crh;
pub mod curve;
pub mod generators;
pub mod laws;
pub mod text;

use vstd::prelude::*;

verus! {

/// Number of input bits consumed by one lookup, fixed by the construction.
pub const BOWE_HOPWOOD_CHUNK_SIZE: usize = 3;

/// Number of entries in one lookup table: one per three-bit chunk value.
pub const BOWE_HOPWOOD_LOOKUP_SIZE: usize = 8;

} // verus!
