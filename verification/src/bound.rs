//! Scalar safety bound: the largest window size the scalar field admits.
//!
//! Each window position multiplies its base point by sixteen, so a window of
//! size `c` reaches scalars up to `2 * 16^c`.  The construction is binding
//! only while those scalars stay strictly below `(r - 1) / 2`, half the
//! scalar field's order.  This module computes the largest such `c` from the
//! field's modulus, carried as little-endian 64-bit limbs.

use vstd::prelude::*;
use vstd::arithmetic::div_mod::{lemma_fundamental_div_mod, lemma_mod_bound};
use vstd::arithmetic::mul::{lemma_mul_inequality, lemma_mul_is_distributive_add_other_way};
use vstd::arithmetic::power::{lemma_pow0, lemma_pow1, lemma_pow_adds, lemma_pow_positive, pow};
use vstd::arithmetic::power2::{
    lemma2_to64, lemma2_to64_rest, lemma_pow2_adds, lemma_pow2_pos, lemma_pow2_strictly_increases,
    pow2,
};

use snarkvm_curves::edwards_bls12::Fr;
use snarkvm_fields::PrimeField;

verus! {

/// The natural number that a little-endian sequence of 64-bit limbs denotes.
pub open spec fn limbs_value(s: Seq<u64>) -> nat
    decreases s.len(),
{
    if s.len() == 0 {
        0
    } else {
        (limbs_value(s.drop_last()) + s.last() * pow2(64 * (s.len() - 1) as nat)) as nat
    }
}

/// The little-endian limbs of `(r - 1) / 2` for the Edwards BLS12 scalar
/// field, whose modulus `r` has 251 bits.
pub open spec fn half_modulus_limbs() -> Seq<u64> {
    seq![
        6678124996694371583u64,
        2975139753996731775u64,
        14706092969812227584u64,
        168160046336021674u64,
    ]
}

/// Relies on `PrimeField::modulus_minus_one_div_two` for `Fr` in
/// `snarkvm-curves`: the constant `MODULUS_MINUS_ONE_DIV_TWO` of the scalar
/// field's parameters, as little-endian limbs.
#[verifier::external_body]
fn scalar_field_half_modulus() -> (r: Vec<u64>)
    ensures
        r@ == half_modulus_limbs(),
{
    <Fr as PrimeField>::modulus_minus_one_div_two().0.to_vec()
}

/// How many times a running value, starting at `range`, can be multiplied by
/// sixteen before it reaches `upper` or beyond.
pub open spec fn sixteen_steps_below(range: nat, upper: nat) -> nat
    decreases (if range < upper {
        (upper - range) as nat
    } else {
        0
    }),
{
    if 1 <= range && range < upper {
        1 + sixteen_steps_below(range * 16, upper)
    } else {
        0
    }
}

/// The largest safe window size: how many sixteen-fold steps keep a running
/// scalar, starting at 2, strictly below `(r - 1) / 2`.
pub open spec fn spec_maximum_window_size() -> nat {
    sixteen_steps_below(2, limbs_value(half_modulus_limbs()))
}

proof fn lemma_limbs_value_bound(s: Seq<u64>)
    ensures
        limbs_value(s) < pow2(64 * s.len()),
    decreases s.len(),
{
    lemma2_to64();
    if s.len() == 0 {
    } else {
        let n = s.len();
        let p = pow2(64 * (n - 1) as nat);
        lemma_limbs_value_bound(s.drop_last());
        lemma_pow2_adds(64 * (n - 1) as nat, 64);
        assert(s.last() * p <= (0x10000000000000000 - 1) * p) by {
            lemma_mul_inequality(s.last() as int, 0x10000000000000000 - 1, p as int);
        }
        assert((0x10000000000000000 - 1) * p + p == p * 0x10000000000000000) by {
            lemma_mul_is_distributive_add_other_way(p as int, 0x10000000000000000 - 1, 1);
        }
    }
}

proof fn lemma_limbs_value_push(s: Seq<u64>, x: u64)
    ensures
        limbs_value(s.push(x)) == limbs_value(s) + x * pow2(64 * s.len()),
{
    assert(s.push(x).drop_last() =~= s);
    assert(s.push(x).last() == x);
}

proof fn lemma_limbs_value_of_four(a: u64, b: u64, c: u64, d: u64)
    ensures
        limbs_value(seq![a, b, c, d]) == a + b * pow2(64) + c * pow2(128) + d * pow2(192),
{
    let s = seq![a, b, c, d];
    lemma2_to64();
    assert(seq![a].drop_last() =~= Seq::<u64>::empty());
    assert(limbs_value(Seq::<u64>::empty()) == 0);
    assert(limbs_value(seq![a]) == a);
    assert(seq![a, b].drop_last() =~= seq![a]);
    assert(limbs_value(seq![a, b]) == a + b * pow2(64));
    assert(seq![a, b, c].drop_last() =~= seq![a, b]);
    assert(limbs_value(seq![a, b, c]) == a + b * pow2(64) + c * pow2(128));
    assert(s.drop_last() =~= seq![a, b, c]);
    assert(limbs_value(s) == a + b * pow2(64) + c * pow2(128) + d * pow2(192));
}

/// Compares two equal-length limb sequences by value.
fn limbs_less(a: &Vec<u64>, b: &Vec<u64>) -> (r: bool)
    requires
        a@.len() == b@.len(),
    ensures
        r == (limbs_value(a@) < limbs_value(b@)),
{
    let n = a.len();
    let mut r = false;
    let mut i: usize = 0;
    while i < n
        invariant
            i <= n,
            n == a@.len() == b@.len(),
            r == (limbs_value(a@.take(i as int)) < limbs_value(b@.take(i as int))),
        decreases n - i,
    {
        let x = a[i];
        let y = b[i];
        proof {
            let pa = a@.take(i as int);
            let pb = b@.take(i as int);
            let p = pow2(64 * i as nat);
            assert(a@.take(i + 1) =~= pa.push(x));
            assert(b@.take(i + 1) =~= pb.push(y));
            lemma_limbs_value_push(pa, x);
            lemma_limbs_value_push(pb, y);
            lemma_limbs_value_bound(pa);
            lemma_limbs_value_bound(pb);
            lemma_pow2_pos(64 * i as nat);
            if x < y {
                assert((x + 1) * p <= y * p) by {
                    lemma_mul_inequality(x + 1, y as int, p as int);
                }
                assert((x + 1) * p == x * p + p) by {
                    lemma_mul_is_distributive_add_other_way(p as int, x as int, 1);
                }
                assert(limbs_value(pa) + x * p < limbs_value(pb) + y * p);
            } else if x > y {
                assert((y + 1) * p <= x * p) by {
                    lemma_mul_inequality(y + 1, x as int, p as int);
                }
                assert((y + 1) * p == y * p + p) by {
                    lemma_mul_is_distributive_add_other_way(p as int, y as int, 1);
                }
                assert(limbs_value(pb) + y * p < limbs_value(pa) + x * p);
            }
        }
        if x < y {
            r = true;
        } else if x > y {
            r = false;
        }
        i = i + 1;
    }
    proof {
        assert(a@.take(n as int) =~= a@);
        assert(b@.take(n as int) =~= b@);
    }
    r
}

/// Multiplies a limb sequence in place by sixteen; the product must fit.
fn limbs_times_sixteen(a: &mut Vec<u64>)
    requires
        16 * limbs_value(old(a)@) < pow2(64 * old(a)@.len()),
    ensures
        final(a)@.len() == old(a)@.len(),
        limbs_value(final(a)@) == 16 * limbs_value(old(a)@),
{
    let n = a.len();
    let mut carry: u64 = 0;
    let mut i: usize = 0;
    while i < n
        invariant
            i <= n,
            n == a@.len() == old(a)@.len(),
            carry < 16,
            forall|j: int| i <= j < n ==> a@[j] == old(a)@[j],
            limbs_value(a@.take(i as int)) + carry * pow2(64 * i as nat) == 16 * limbs_value(
                old(a)@.take(i as int),
            ),
        decreases n - i,
    {
        let ghost pa = a@.take(i as int);
        let ghost po = old(a)@.take(i as int);
        let ghost p = pow2(64 * i as nat);
        let ghost q = pow2(64 * (i + 1) as nat);
        let ghost carry0 = carry;
        let x = a[i];
        let t: u128 = (x as u128) * 16 + (carry as u128);
        let lo128: u128 = t % 0x10000000000000000;
        let hi128: u128 = t / 0x10000000000000000;
        proof {
            lemma_fundamental_div_mod(t as int, 0x10000000000000000);
            lemma_mod_bound(t as int, 0x10000000000000000);
        }
        let lo: u64 = lo128 as u64;
        let hi: u64 = hi128 as u64;
        a[i] = lo;
        carry = hi;
        i = i + 1;
        proof {
            lemma2_to64();
            lemma_pow2_adds(64 * (i - 1) as nat, 64);
            assert(a@.take(i - 1) =~= pa);
            assert(a@.take(i as int) =~= pa.push(lo));
            assert(old(a)@.take(i as int) =~= po.push(x));
            lemma_limbs_value_push(pa, lo);
            lemma_limbs_value_push(po, x);
            assert(limbs_value(pa.push(lo)) + hi * q == 16 * limbs_value(po.push(x)))
                by (nonlinear_arith)
                requires
                    limbs_value(pa.push(lo)) == limbs_value(pa) + lo * p,
                    limbs_value(po.push(x)) == limbs_value(po) + x * p,
                    limbs_value(pa) + carry0 * p == 16 * limbs_value(po),
                    t == 16 * x + carry0,
                    t == 0x10000000000000000 * hi + lo,
                    q == p * 0x10000000000000000,
            ;
        }
    }
    proof {
        assert(a@.take(n as int) =~= a@);
        assert(old(a)@.take(n as int) =~= old(a)@);
        if carry > 0 {
            lemma_pow2_pos(64 * n as nat);
            assert(carry * pow2(64 * n as nat) >= pow2(64 * n as nat)) by {
                lemma_mul_inequality(1, carry as int, pow2(64 * n as nat) as int);
            }
        }
    }
}

/// The denoted half-modulus is at least 2 and below `2^250`.
proof fn lemma_half_modulus_bounds()
    ensures
        2 <= limbs_value(half_modulus_limbs()) < pow2(250),
{
    let s = half_modulus_limbs();
    let s3 = seq![6678124996694371583u64, 2975139753996731775u64, 14706092969812227584u64];
    lemma2_to64();
    lemma2_to64_rest();
    lemma_limbs_value_bound(s3);
    assert(s.drop_last() =~= s3);
    assert(limbs_value(s) == limbs_value(s3) + 168160046336021674 * pow2(192));
    assert((168160046336021674int + 1) * pow2(192) <= pow2(58) * pow2(192)) by {
        lemma_mul_inequality(168160046336021674int + 1, pow2(58) as int, pow2(192) as int);
    }
    assert((168160046336021674int + 1) * pow2(192) == 168160046336021674 * pow2(192) + pow2(
        192,
    )) by {
        lemma_mul_is_distributive_add_other_way(pow2(192) as int, 168160046336021674, 1);
    }
    lemma_pow2_adds(58, 192);
    lemma_pow2_pos(192);
    assert(168160046336021674 * pow2(192) >= 2) by (nonlinear_arith)
        requires
            pow2(192) >= 1,
    ;
}

proof fn lemma_pow16_is_pow2(k: nat)
    ensures
        pow(16, k) == pow2(4 * k),
    decreases k,
{
    lemma2_to64();
    if k == 0 {
        lemma_pow0(16);
    } else {
        lemma_pow16_is_pow2((k - 1) as nat);
        lemma_pow1(16);
        lemma_pow_adds(16, 1, (k - 1) as nat);
        lemma_pow2_adds(4, 4 * (k - 1) as nat);
    }
}

/// Computes the largest safe window size for the scalar field: the number of
/// sixteen-fold steps a running value starting at 2 can take while staying
/// strictly below `(r - 1) / 2`.
pub fn calculate_maximum_window_size() -> (c: usize)
    ensures
        c == spec_maximum_window_size(),
{
    let upper = scalar_field_half_modulus();
    let mut range: Vec<u64> = Vec::new();
    range.push(2u64);
    range.push(0u64);
    range.push(0u64);
    range.push(0u64);
    let mut c: usize = 0;
    proof {
        assert(range@ =~= seq![2u64, 0u64, 0u64, 0u64]);
        lemma_limbs_value_of_four(2, 0, 0, 0);
        lemma_pow0(16);
        lemma_half_modulus_bounds();
    }
    loop
        invariant
            upper@ == half_modulus_limbs(),
            range@.len() == 4,
            c <= 63,
            limbs_value(range@) == 2 * pow(16, c as nat),
            spec_maximum_window_size() == c + sixteen_steps_below(limbs_value(range@), limbs_value(upper@)),
        decreases 64 - c,
    {
        if !limbs_less(&range, &upper) {
            proof {
                assert(sixteen_steps_below(limbs_value(range@), limbs_value(upper@)) == 0);
            }
            return c;
        }
        proof {
            let rv = limbs_value(range@);
            lemma2_to64();
            lemma_half_modulus_bounds();
            lemma_pow_positive(16, c as nat);
            // one more step stays inside four limbs: 16 * rv < 16 * 2^250 == 2^254
            lemma_pow2_adds(4, 250);
            lemma_pow2_strictly_increases(254, 256);
            assert(16 * rv < pow2(4) * pow2(250)) by {
                lemma_mul_inequality(rv as int + 1, pow2(250) as int, 16);
            }
            // a value of 2 * 16^63 == 2^253 would already be at or above the bound
            if c == 63 {
                lemma_pow16_is_pow2(63);
                lemma_pow2_adds(1, 252);
                lemma_pow2_strictly_increases(250, 253);
                assert(rv == 2 * pow2(252));
                assert(false);
            }
            // unfold one step of the search
            assert(rv >= 1);
            assert(sixteen_steps_below(rv, limbs_value(upper@)) == 1 + sixteen_steps_below(rv * 16, limbs_value(upper@)));
        }
        limbs_times_sixteen(&mut range);
        c = c + 1;
        proof {
            lemma_pow1(16);
            lemma_pow_adds(16, (c - 1) as nat, 1);
        }
    }
}

} // verus!
