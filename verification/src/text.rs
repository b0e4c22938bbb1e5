//! Construction of the domain-separation messages.
//!
//! Each window derives its base point from the string `"{domain} at {index}"`,
//! and each hash-to-curve attempt `k` over a message `m` hashes the string
//! `"{m} in {k}"`.  The decimal rendering of the index is verified against
//! [`dec_str`].

use vstd::prelude::*;
use vstd::string::StringExecFns;

verus! {

/// The character for one decimal digit.
pub open spec fn digit_char(d: nat) -> char {
    if d == 0 {
        '0'
    } else if d == 1 {
        '1'
    } else if d == 2 {
        '2'
    } else if d == 3 {
        '3'
    } else if d == 4 {
        '4'
    } else if d == 5 {
        '5'
    } else if d == 6 {
        '6'
    } else if d == 7 {
        '7'
    } else if d == 8 {
        '8'
    } else {
        '9'
    }
}

/// The decimal digits of `n`, most significant first, without leading zeros
/// (`0` is rendered as `"0"`).
pub open spec fn dec_str(n: nat) -> Seq<char>
    decreases n,
{
    if n < 10 {
        seq![digit_char(n)]
    } else {
        dec_str(n / 10).push(digit_char(n % 10))
    }
}

/// The message whose hash derives the base point of window `index`.
pub open spec fn indexed_message(domain: Seq<char>, index: nat) -> Seq<char> {
    domain + " at "@ + dec_str(index)
}

/// The string hashed by attempt `attempt` of the generator search over
/// `message`.
pub open spec fn attempt_message(message: Seq<char>, attempt: nat) -> Seq<char> {
    message + " in "@ + dec_str(attempt)
}

fn digit_str(d: u64) -> (s: &'static str)
    requires
        d < 10,
    ensures
        s@ == seq![digit_char(d as nat)],
{
    let s: &'static str = if d == 0 {
        "0"
    } else if d == 1 {
        "1"
    } else if d == 2 {
        "2"
    } else if d == 3 {
        "3"
    } else if d == 4 {
        "4"
    } else if d == 5 {
        "5"
    } else if d == 6 {
        "6"
    } else if d == 7 {
        "7"
    } else if d == 8 {
        "8"
    } else {
        "9"
    };
    proof {
        reveal_strlit("0");
        reveal_strlit("1");
        reveal_strlit("2");
        reveal_strlit("3");
        reveal_strlit("4");
        reveal_strlit("5");
        reveal_strlit("6");
        reveal_strlit("7");
        reveal_strlit("8");
        reveal_strlit("9");
        assert(s@ =~= seq![digit_char(d as nat)]);
    }
    s
}

/// Appends the decimal rendering of `n` to `s`.
fn push_decimal(s: &mut String, n: u64)
    ensures
        final(s)@ == old(s)@ + dec_str(n as nat),
    decreases n,
{
    if n >= 10 {
        push_decimal(s, n / 10);
    }
    s.append(digit_str(n % 10));
    proof {
        assert(s@ =~= old(s)@ + dec_str(n as nat));
    }
}

/// Builds the string `"{domain} at {index}"`.
pub fn format_indexed_message(domain: &str, index: u64) -> (s: String)
    ensures
        s@ == indexed_message(domain@, index as nat),
{
    let mut s = domain.to_owned();
    s.append(" at ");
    push_decimal(&mut s, index);
    proof {
        assert(s@ =~= indexed_message(domain@, index as nat));
    }
    s
}

/// Builds the string `"{message} in {attempt}"`.
pub fn format_attempt_message(message: &str, attempt: u64) -> (s: String)
    ensures
        s@ == attempt_message(message@, attempt as nat),
{
    let mut s = message.to_owned();
    s.append(" in ");
    push_decimal(&mut s, attempt);
    proof {
        assert(s@ =~= attempt_message(message@, attempt as nat));
    }
    s
}

} // verus!
