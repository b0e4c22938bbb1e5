//! Base generator derivation and lookup-table construction.
//!
//! Each window's base point is found by hashing `"{domain} at {index}"` to
//! the curve, retrying with `"... in {k}"` for `k` up to 127 as the outside
//! primitive does.  A window is the geometric sequence of its base point
//! under repeated sixteen-fold multiplication, and every window point gets a
//! table of its eight chunk encodings.
//!
//! Both constructions are deterministic functions of their inputs, so work
//! split across parallel workers and reassembled by index yields the same
//! sequences as a sequential run; see the lemmas in [`crate::laws`].

use vstd::prelude::*;

use crate::curve::{
    add_of, add_points, chunk_encoding_at, generator_at, neg_point, times_sixteen, try_hash_to_group,
    try_point_for, Point,
};
use crate::text::{attempt_message, format_attempt_message, format_indexed_message, indexed_message};

verus! {

/// How many hash-to-curve attempts are made before giving up on a message.
pub const MAX_GENERATOR_ATTEMPTS: u64 = 128;

/// The generator that the attempts `k, k + 1, ..., 127` over `message`
/// yield: the first attempt that produces a point wins.
pub open spec fn generator_search_from(message: Seq<char>, k: nat) -> Option<Point>
    decreases 128 - k,
{
    if k >= 128 {
        None
    } else {
        match try_point_for(attempt_message(message, k)) {
            Some(g) => Some(g),
            None => generator_search_from(message, k + 1),
        }
    }
}

/// The base point of window `index`, if the search for it succeeds.
pub open spec fn window_generator(domain: Seq<char>, index: nat) -> Option<Point> {
    generator_search_from(indexed_message(domain, index), 0)
}

/// Searches for a generator as the outside `hash_to_curve` does: one attempt
/// per counter value, at most 128 attempts, first success wins.
pub fn derive_generator(message: &str) -> (r: Option<Point>)
    ensures
        r == generator_search_from(message@, 0),
{
    let mut k: u64 = 0;
    while k < MAX_GENERATOR_ATTEMPTS
        invariant
            k <= 128,
            generator_search_from(message@, 0) == generator_search_from(message@, k as nat),
        decreases 128 - k,
    {
        let attempt = format_attempt_message(message, k);
        match try_hash_to_group(attempt.as_str()) {
            Some(g) => {
                return Some(g);
            },
            None => {
                k = k + 1;
            },
        }
    }
    None
}

/// The base point of window `index` for the given domain string, if the
/// generator search succeeds.
pub fn derive_window_generator(domain: &str, index: u64) -> (r: Option<Point>)
    ensures
        r == window_generator(domain@, index as nat),
{
    let message = format_indexed_message(domain, index);
    derive_generator(message.as_str())
}

/// Multiplies a point by sixteen, by four successive doublings.
fn multiply_by_sixteen(p: &Point) -> (r: Point)
    ensures
        r == times_sixteen(*p),
{
    let d1 = add_points(p, p);
    let d2 = add_points(&d1, &d1);
    let d3 = add_points(&d2, &d2);
    add_points(&d3, &d3)
}

/// The ordered points of one window: the base point and its successive
/// sixteen-fold multiples, `window_size` of them.
pub fn window_points(base: &Point, window_size: usize) -> (r: Vec<Point>)
    ensures
        r@.len() == window_size,
        forall|j: int| 0 <= j < window_size ==> r@[j] == generator_at(*base, j as nat),
{
    let mut powers: Vec<Point> = Vec::new();
    let mut current: Point = base.clone();
    let mut j: usize = 0;
    while j < window_size
        invariant
            j <= window_size,
            powers@.len() == j,
            current == generator_at(*base, j as nat),
            forall|t: int| 0 <= t < j ==> powers@[t] == generator_at(*base, t as nat),
        decreases window_size - j,
    {
        powers.push(current.clone());
        current = multiply_by_sixteen(&current);
        j = j + 1;
        proof {
            assert(current == generator_at(*base, j as nat));
        }
    }
    powers
}

/// The lookup table of one window point: its eight chunk encodings, in slot
/// order.
pub fn lookup_table_for(g: &Point) -> (r: Vec<Point>)
    ensures
        r@.len() == 8,
        forall|k: int| 0 <= k < 8 ==> r@[k] == chunk_encoding_at(*g, k),
{
    let two_g = add_points(g, g);
    let mut table: Vec<Point> = Vec::new();
    let mut k: usize = 0;
    while k < 8
        invariant
            k <= 8,
            table@.len() == k,
            two_g == add_of(*g, *g),
            forall|t: int| 0 <= t < k ==> table@[t] == chunk_encoding_at(*g, t),
        decreases 8 - k,
    {
        let mut encoded: Point = g.clone();
        if k % 2 == 1 {
            encoded = add_points(&encoded, g);
        }
        if (k / 2) % 2 == 1 {
            encoded = add_points(&encoded, &two_g);
        }
        if (k / 4) % 2 == 1 {
            encoded = neg_point(&encoded);
        }
        table.push(encoded);
        k = k + 1;
    }
    table
}

} // verus!
