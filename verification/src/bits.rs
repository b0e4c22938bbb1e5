//! Bit-string handling: zero padding to whole chunks, chunk indexing, and
//! the little-endian expansion of bytes into bits.

use vstd::prelude::*;

verus! {

/// Rounds a bit count up to the next multiple of the chunk size.
pub open spec fn spec_padded_len(n: nat) -> nat {
    if n % 3 == 0 {
        n
    } else {
        (n + (3 - n % 3)) as nat
    }
}

/// A bit string extended with zero bits up to the next multiple of the chunk
/// size.
pub open spec fn zero_padded(bits: Seq<bool>) -> Seq<bool> {
    bits + Seq::new((spec_padded_len(bits.len()) - bits.len()) as nat, |i: int| false)
}

/// The table slot addressed by a three-bit chunk: its value read with the
/// first bit least significant.
pub open spec fn spec_chunk_index(b0: bool, b1: bool, b2: bool) -> int {
    (if b0 {
        1int
    } else {
        0
    }) + (if b1 {
        2int
    } else {
        0
    }) + (if b2 {
        4int
    } else {
        0
    })
}

/// Bit `k` of a byte, least significant first.
pub open spec fn bit_of_byte(byte: u8, k: nat) -> bool {
    (byte >> k) & 1 == 1
}

/// The little-endian bit expansion of a byte string: eight bits per byte,
/// least significant first.
pub open spec fn bits_of_bytes(bytes: Seq<u8>) -> Seq<bool> {
    Seq::new(bytes.len() * 8, |i: int| bit_of_byte(bytes[i / 8], (i % 8) as nat))
}

/// Rounds a bit count up to the next multiple of the chunk size.
pub fn padded_len(n: usize) -> (r: usize)
    requires
        n + 2 <= usize::MAX,
    ensures
        r == spec_padded_len(n as nat),
{
    if n % 3 == 0 {
        n
    } else {
        n + (3 - n % 3)
    }
}

/// The table slot addressed by a three-bit chunk.
pub fn chunk_index(b0: bool, b1: bool, b2: bool) -> (r: usize)
    ensures
        r == spec_chunk_index(b0, b1, b2),
{
    let i0: usize = if b0 {
        1
    } else {
        0
    };
    let i1: usize = if b1 {
        2
    } else {
        0
    };
    let i2: usize = if b2 {
        4
    } else {
        0
    };
    i0 + i1 + i2
}

/// Pads a bit string with zero bits up to the next multiple of the chunk
/// size.
pub fn pad_bits(bits: &mut Vec<bool>)
    requires
        old(bits)@.len() + 2 <= usize::MAX,
    ensures
        final(bits)@ == zero_padded(old(bits)@),
{
    while bits.len() % 3 != 0
        invariant
            old(bits)@.len() <= bits@.len() <= spec_padded_len(old(bits)@.len()),
            bits@ =~= old(bits)@ + Seq::new(
                (bits@.len() - old(bits)@.len()) as nat,
                |i: int| false,
            ),
        decreases (3 - bits@.len() % 3) % 3,
    {
        bits.push(false);
    }
    proof {
        assert(bits@.len() % 3 == 0);
        assert(bits@ =~= zero_padded(old(bits)@));
    }
}

/// Expands a byte string into its bits, least significant bit of each byte
/// first.
pub fn bytes_to_bits(bytes: &[u8]) -> (r: Vec<bool>)
    ensures
        r@ == bits_of_bytes(bytes@),
{
    let n = bytes.len();
    let mut r: Vec<bool> = Vec::new();
    let mut i: usize = 0;
    while i < n
        invariant
            i <= n,
            n == bytes@.len(),
            r@.len() == 8 * i,
            forall|m: int|
                0 <= m < 8 * i ==> r@[m] == bit_of_byte(bytes@[m / 8], (m % 8) as nat),
        decreases n - i,
    {
        let byte = bytes[i];
        let mut k: usize = 0;
        while k < 8
            invariant
                k <= 8,
                i < n,
                n == bytes@.len(),
                byte == bytes@[i as int],
                r@.len() == 8 * i + k,
                forall|m: int|
                    0 <= m < 8 * i + k ==> r@[m] == bit_of_byte(bytes@[m / 8], (m % 8) as nat),
            decreases 8 - k,
        {
            r.push((byte >> (k as u8)) & 1 == 1);
            k = k + 1;
            proof {
                let m = 8 * i + k - 1;
                assert(m / 8 == i && m % 8 == k - 1) by (nonlinear_arith)
                    requires
                        m == 8 * i + k - 1,
                        1 <= k <= 8,
                        i >= 0,
                ;
            }
        }
        i = i + 1;
    }
    proof {
        assert(r@ =~= bits_of_bytes(bytes@));
    }
    r
}

} // verus!
