//! The Bowe–Hopwood/Pedersen collision-resistant hash instance.
//!
//! [`BHPCRH::setup`] derives one domain-separated base point per window,
//! expands each into a geometric sequence of window points, and precomputes
//! the eight chunk encodings of every window point.  [`BHPCRH::hash`] checks
//! the input length, zero-pads to whole three-bit chunks, selects one table
//! entry per chunk, sums the selections, and projects the sum to its affine
//! x-coordinate.

use vstd::prelude::*;
use vstd::arithmetic::div_mod::lemma_multiply_divide_lt;

use snarkvm_curves::edwards_bls12::Fq;

use crate::bits::{bytes_to_bits, bits_of_bytes, chunk_index, pad_bits, spec_chunk_index, zero_padded};
use crate::bound::spec_maximum_window_size;
use crate::curve::{
    add_points, chunk_encoding, chunk_encoding_at, generator_at, identity, sum_points,
    x_coordinate, Point,
};
use crate::generators::{derive_window_generator, lookup_table_for, window_generator, window_points};

verus! {

/// Largest window size an instance may be configured with.
pub const MAX_WINDOW_SIZE: usize = 64;

/// Largest window count an instance may be configured with.
pub const MAX_NUM_WINDOWS: usize = 4096;

/// The recoverable error of the hash: the input held more bits than the
/// instance's capacity.  Carries the offending bit count and the configured
/// window size and window count.
#[derive(Clone, Copy, Debug, PartialEq, Eq, Structural)]
pub enum CRHError {
    IncorrectInputLength(usize, usize, usize),
}

/// The lookup entries that a padded bit string selects, in hashing order:
/// chunk `t` is encoded over window point `t % window_size` of window
/// `t / window_size`.
pub open spec fn selected_points(
    domain: Seq<char>,
    window_size: nat,
    padded: Seq<bool>,
) -> Seq<Point>
    recommends
        window_size >= 1,
{
    Seq::new(
        padded.len() / 3,
        |t: int|
            chunk_encoding(
                generator_at(
                    window_generator(domain, (t / window_size as int) as nat).unwrap(),
                    (t % window_size as int) as nat,
                ),
                padded[3 * t],
                padded[3 * t + 1],
                padded[3 * t + 2],
            ),
    )
}

/// The group element the hash accumulates over `bits`: the left-to-right sum
/// of the selected lookup entries, from the identity.
pub open spec fn spec_hash_point(domain: Seq<char>, window_size: nat, bits: Seq<bool>) -> Point {
    sum_points(selected_points(domain, window_size, zero_padded(bits)))
}

/// The field element the hash returns for `bits`: the affine x-coordinate of
/// the accumulated group element.
pub open spec fn spec_hash(domain: Seq<char>, window_size: nat, bits: Seq<bool>) -> Fq {
    x_coordinate(spec_hash_point(domain, window_size, bits))
}

/// A Bowe–Hopwood/Pedersen hash instance: the window points and their chunk
/// lookup tables, immutable once constructed.
pub struct BHPCRH {
    /// The window points: `num_windows` windows of `window_size` points each.
    pub bases: Vec<Vec<Point>>,
    /// One eight-entry lookup table per window point.
    pub base_lookup: Vec<Vec<Vec<Point>>>,
    /// How many windows the instance hashes over.
    pub num_windows: usize,
    /// How many points, and so chunks, one window holds.
    pub window_size: usize,
    /// The domain-separation string the instance was set up with.
    pub domain: Ghost<Seq<char>>,
}

impl BHPCRH {
    /// The shape and contents every instance has after `setup`: sizes within
    /// their ceilings, the window size safe for the scalar field, every
    /// window generator found, window `i` holding the `16^j`-multiples of its
    /// base point, and every table slot holding the matching chunk encoding.
    pub open spec fn wf(&self) -> bool {
        &&& 1 <= self.window_size <= MAX_WINDOW_SIZE
        &&& self.num_windows <= MAX_NUM_WINDOWS
        &&& self.window_size <= spec_maximum_window_size()
        &&& self.bases@.len() == self.num_windows
        &&& self.base_lookup@.len() == self.num_windows
        &&& forall|i: int|
            0 <= i < self.num_windows ==> (#[trigger] window_generator(
                self.domain@,
                i as nat,
            )).is_some()
        &&& forall|i: int|
            0 <= i < self.num_windows ==> (#[trigger] self.bases@[i])@.len() == self.window_size
        &&& forall|i: int, j: int|
            0 <= i < self.num_windows && 0 <= j < self.window_size ==> (#[trigger] self.bases@[i]@[j])
                == generator_at(window_generator(self.domain@, i as nat).unwrap(), j as nat)
        &&& forall|i: int|
            0 <= i < self.num_windows ==> (#[trigger] self.base_lookup@[i])@.len()
                == self.window_size
        &&& forall|i: int, j: int|
            0 <= i < self.num_windows && 0 <= j < self.window_size ==> (
            #[trigger] self.base_lookup@[i]@[j])@.len() == 8
        &&& forall|i: int, j: int, k: int|
            0 <= i < self.num_windows && 0 <= j < self.window_size && 0 <= k < 8 ==> (
            #[trigger] self.base_lookup@[i]@[j]@[k]) == chunk_encoding_at(
                generator_at(window_generator(self.domain@, i as nat).unwrap(), j as nat),
                k,
            )
    }

    /// How many input bits the instance accepts: one per window point.
    ///
    /// This is the construction's early-rejection bound, deliberately
    /// narrower than the three bits per chunk that the partitioning step
    /// could consume; inputs between the two are rejected, never truncated.
    pub open spec fn spec_capacity(&self) -> int {
        self.window_size * self.num_windows
    }

    /// Constructs an instance over the given domain-separation string.
    ///
    /// The window size must be positive, within its ceiling, and no larger
    /// than the scalar field's safety bound: a caller that cannot show the
    /// bound checks it against [`crate::bound::calculate_maximum_window_size`]
    /// first, and must not construct an instance when the check fails.
    /// Returns `None` only if the generator search fails for some window,
    /// which no known domain string makes it do.
    pub fn setup(message: &str, num_windows: usize, window_size: usize) -> (r: Option<BHPCRH>)
        requires
            1 <= window_size <= MAX_WINDOW_SIZE,
            num_windows <= MAX_NUM_WINDOWS,
            window_size <= spec_maximum_window_size(),
        ensures
            match r {
                Some(crh) => crh.wf() && crh.domain@ == message@ && crh.num_windows == num_windows
                    && crh.window_size == window_size,
                None => exists|i: int|
                    0 <= i < num_windows && (#[trigger] window_generator(
                        message@,
                        i as nat,
                    )).is_none(),
            },
    {
        let mut bases: Vec<Vec<Point>> = Vec::new();
        let mut i: usize = 0;
        while i < num_windows
            invariant
                i <= num_windows,
                1 <= window_size,
                bases@.len() == i,
                forall|t: int|
                    0 <= t < i ==> (#[trigger] window_generator(message@, t as nat)).is_some(),
                forall|t: int| 0 <= t < i ==> (#[trigger] bases@[t])@.len() == window_size,
                forall|t: int, j: int|
                    0 <= t < i && 0 <= j < window_size ==> (#[trigger] bases@[t]@[j])
                        == generator_at(window_generator(message@, t as nat).unwrap(), j as nat),
            decreases num_windows - i,
        {
            match derive_window_generator(message, i as u64) {
                Some(base) => {
                    bases.push(window_points(&base, window_size));
                },
                None => {
                    proof {
                        let w = i as int;
                        assert(0 <= w < num_windows && (#[trigger] window_generator(
                            message@,
                            w as nat,
                        )).is_none());
                    }
                    return None;
                },
            }
            i = i + 1;
        }
        let mut base_lookup: Vec<Vec<Vec<Point>>> = Vec::new();
        let mut i: usize = 0;
        while i < num_windows
            invariant
                i <= num_windows,
                1 <= window_size,
                bases@.len() == num_windows,
                base_lookup@.len() == i,
                forall|t: int|
                    0 <= t < num_windows ==> (#[trigger] window_generator(
                        message@,
                        t as nat,
                    )).is_some(),
                forall|t: int| 0 <= t < num_windows ==> (#[trigger] bases@[t])@.len() == window_size,
                forall|t: int, j: int|
                    0 <= t < num_windows && 0 <= j < window_size ==> (#[trigger] bases@[t]@[j])
                        == generator_at(window_generator(message@, t as nat).unwrap(), j as nat),
                forall|t: int| 0 <= t < i ==> (#[trigger] base_lookup@[t])@.len() == window_size,
                forall|t: int, j: int|
                    0 <= t < i && 0 <= j < window_size ==> (#[trigger] base_lookup@[t]@[j])@.len()
                        == 8,
                forall|t: int, j: int, k: int|
                    0 <= t < i && 0 <= j < window_size && 0 <= k < 8 ==> (
                    #[trigger] base_lookup@[t]@[j]@[k]) == chunk_encoding_at(
                        generator_at(window_generator(message@, t as nat).unwrap(), j as nat),
                        k,
                    ),
            decreases num_windows - i,
        {
            let mut window_tables: Vec<Vec<Point>> = Vec::new();
            let mut j: usize = 0;
            while j < window_size
                invariant
                    j <= window_size,
                    i < num_windows,
                    bases@.len() == num_windows,
                    bases@[i as int]@.len() == window_size,
                    window_tables@.len() == j,
                    forall|u: int|
                        0 <= u < j ==> (#[trigger] window_tables@[u])@.len() == 8,
                    forall|u: int, k: int|
                        0 <= u < j && 0 <= k < 8 ==> (#[trigger] window_tables@[u]@[k])
                            == chunk_encoding_at(bases@[i as int]@[u], k),
                decreases window_size - j,
            {
                window_tables.push(lookup_table_for(&bases[i][j]));
                j = j + 1;
            }
            base_lookup.push(window_tables);
            i = i + 1;
        }
        Some(
            BHPCRH {
                bases,
                base_lookup,
                num_windows,
                window_size,
                domain: Ghost(message@),
            },
        )
    }

    /// Accumulates the group element for `input`: one lookup per three-bit
    /// chunk of the zero-padded input, summed left to right.  Fails exactly
    /// when the input holds more bits than the instance's capacity.
    pub fn hash_bits_inner(&self, input: &[bool]) -> (r: Result<Point, CRHError>)
        requires
            self.wf(),
        ensures
            input@.len() > self.spec_capacity() ==> r == Err::<Point, CRHError>(
                CRHError::IncorrectInputLength(
                    input@.len() as usize,
                    self.window_size,
                    self.num_windows,
                ),
            ),
            input@.len() <= self.spec_capacity() ==> r == Ok::<Point, CRHError>(
                spec_hash_point(self.domain@, self.window_size as nat, input@),
            ),
    {
        proof {
            assert(self.window_size * self.num_windows <= 262144) by (nonlinear_arith)
                requires
                    self.window_size <= 64,
                    self.num_windows <= 4096,
            ;
        }
        if input.len() > self.window_size * self.num_windows {
            return Err(
                CRHError::IncorrectInputLength(input.len(), self.window_size, self.num_windows),
            );
        }
        let mut bits: Vec<bool> = vstd::slice::slice_to_vec(input);
        proof {
            assert(bits@.len() + 2 <= usize::MAX);
        }
        pad_bits(&mut bits);
        let ghost padded = zero_padded(input@);
        let ghost selected = selected_points(self.domain@, self.window_size as nat, padded);
        proof {
            assert(bits@ == padded);
            assert(padded.len() % 3 == 0 && padded.len() <= self.spec_capacity() + 2);
            assert(selected.len() == padded.len() / 3);
        }
        let n_chunks = bits.len() / 3;
        proof {
            vstd::arithmetic::div_mod::lemma_fundamental_div_mod(padded.len() as int, 3);
        }
        let mut acc: Point = identity();
        let mut t: usize = 0;
        while t < n_chunks
            invariant
                self.wf(),
                t <= n_chunks,
                bits@ == padded,
                selected == selected_points(self.domain@, self.window_size as nat, padded),
                selected.len() == n_chunks,
                n_chunks == padded.len() / 3,
                3 * n_chunks == padded.len(),
                padded.len() % 3 == 0,
                padded.len() <= self.spec_capacity() + 2,
                padded.len() <= 262146,
                acc == sum_points(selected.take(t as int)),
            decreases n_chunks - t,
        {
            proof {
                // chunk t addresses a window inside the instance
                assert(3 * t + 2 < padded.len());
                assert(t < self.window_size * self.num_windows) by (nonlinear_arith)
                    requires
                        3 * t + 2 < padded.len(),
                        padded.len() <= self.window_size * self.num_windows + 2,
                        self.window_size >= 1,
                        self.num_windows >= 0,
                ;
                lemma_multiply_divide_lt(t as int, self.window_size as int, self.num_windows as int);
            }
            let i = t / self.window_size;
            let j = t % self.window_size;
            let b0 = bits[3 * t];
            let b1 = bits[3 * t + 1];
            let b2 = bits[3 * t + 2];
            let idx = chunk_index(b0, b1, b2);
            proof {
                // the slot selected by the chunk holds its encoding
                assert(chunk_encoding_at(
                    generator_at(window_generator(self.domain@, i as nat).unwrap(), j as nat),
                    spec_chunk_index(b0, b1, b2),
                ) == selected[t as int]);
            }
            let entry = &self.base_lookup[i][j][idx];
            acc = add_points(&acc, entry);
            t = t + 1;
            proof {
                assert(selected.take(t as int).drop_last() =~= selected.take(t - 1));
                assert(acc == sum_points(selected.take(t as int)));
            }
        }
        proof {
            assert(selected.take(n_chunks as int) =~= selected);
        }
        Ok(acc)
    }

    /// Hashes a bit string to a field element: the affine x-coordinate of
    /// the accumulated group element.  Fails exactly when the input holds
    /// more bits than the instance's capacity.
    pub fn hash(&self, input: &[bool]) -> (r: Result<Fq, CRHError>)
        requires
            self.wf(),
        ensures
            input@.len() > self.spec_capacity() ==> r == Err::<Fq, CRHError>(
                CRHError::IncorrectInputLength(
                    input@.len() as usize,
                    self.window_size,
                    self.num_windows,
                ),
            ),
            input@.len() <= self.spec_capacity() ==> r == Ok::<Fq, CRHError>(
                spec_hash(self.domain@, self.window_size as nat, input@),
            ),
    {
        match self.hash_bits_inner(input) {
            Ok(point) => Ok(point.to_x_coordinate()),
            Err(e) => Err(e),
        }
    }

    /// Hashes a byte string: each byte contributes its eight bits, least
    /// significant first.
    pub fn hash_bytes(&self, input: &[u8]) -> (r: Result<Fq, CRHError>)
        requires
            self.wf(),
            input@.len() * 8 <= usize::MAX,
        ensures
            input@.len() * 8 > self.spec_capacity() ==> r == Err::<Fq, CRHError>(
                CRHError::IncorrectInputLength(
                    (input@.len() * 8) as usize,
                    self.window_size,
                    self.num_windows,
                ),
            ),
            input@.len() * 8 <= self.spec_capacity() ==> r == Ok::<Fq, CRHError>(
                spec_hash(self.domain@, self.window_size as nat, bits_of_bytes(input@)),
            ),
    {
        let bits = bytes_to_bits(input);
        self.hash(bits.as_slice())
    }

    /// The window points, the instance's public parameters.
    pub fn parameters(&self) -> (r: &Vec<Vec<Point>>)
        ensures
            r == &self.bases,
    {
        &self.bases
    }

    /// The constraint-field elements of the parameters: this component
    /// exposes none, the circuit-embedding layer owns that conversion.
    pub fn to_field_elements(&self) -> (r: Vec<Fq>)
        ensures
            r@ =~= Seq::<Fq>::empty(),
    {
        Vec::new()
    }
}

} // verus!
