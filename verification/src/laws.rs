//! Laws of the construction, stated over the same specification functions
//! that the executable contracts use.

use vstd::prelude::*;

use crate::bits::{spec_padded_len, zero_padded};
use crate::crh::{spec_hash, BHPCRH};
use crate::curve::{generator_at, Point};
use crate::generators::window_generator;

verus! {

/// Determinism: two well-formed instances with the same domain string and the
/// same window geometry hash any bit string to the same field element.
pub proof fn lemma_hash_deterministic(h1: &BHPCRH, h2: &BHPCRH, bits: Seq<bool>)
    requires
        h1.wf(),
        h2.wf(),
        h1.domain@ == h2.domain@,
        h1.window_size == h2.window_size,
    ensures
        spec_hash(h1.domain@, h1.window_size as nat, bits) == spec_hash(
            h2.domain@,
            h2.window_size as nat,
            bits,
        ),
{
}

/// Padding idempotence: appending up to as many zero bits as the padding
/// itself would add leaves the padded bit string, and so the hash,
/// unchanged.
pub proof fn lemma_padding_idempotent(
    domain: Seq<char>,
    window_size: nat,
    bits: Seq<bool>,
    k: nat,
)
    requires
        bits.len() + k <= spec_padded_len(bits.len()),
    ensures
        spec_hash(domain, window_size, bits + Seq::new(k, |i: int| false)) == spec_hash(
            domain,
            window_size,
            bits,
        ),
{
    let extended = bits + Seq::new(k, |i: int| false);
    assert(spec_padded_len(extended.len()) == spec_padded_len(bits.len()));
    assert(zero_padded(extended) =~= zero_padded(bits));
}

/// Index-ordered assembly: a window sequence put together from per-window
/// results by index — in whatever order the windows were computed — equals
/// the bases of any well-formed instance over the same domain and geometry.
pub proof fn lemma_index_assembly(h: &BHPCRH, parts: Seq<Seq<Point>>)
    requires
        h.wf(),
        parts.len() == h.num_windows,
        forall|i: int| 0 <= i < h.num_windows ==> (#[trigger] parts[i]).len() == h.window_size,
        forall|i: int, j: int|
            0 <= i < h.num_windows && 0 <= j < h.window_size ==> (#[trigger] parts[i][j])
                == generator_at(window_generator(h.domain@, i as nat).unwrap(), j as nat),
    ensures
        parts =~~= h.bases@.map_values(|w: Vec<Point>| w@),
{
    let assembled = h.bases@.map_values(|w: Vec<Point>| w@);
    assert forall|i: int| 0 <= i < parts.len() implies parts[i] =~= assembled[i] by {
        assert(assembled[i] == h.bases@[i]@);
    }
}

} // verus!
