//! Decimal text of computed values.
//!
//! A served result is written out as its decimal digits; the service also
//! records the byte length of that text. `dec_str` is the specification of
//! that text, and the JSON encoder of the `serde_json` crate is trusted to
//! produce exactly it for an unsigned integer.

use vstd::prelude::*;

verus! {

/// The character for a single decimal digit.
pub open spec fn digit_char(d: nat) -> char {
    if d == 0 {
        '0'
    } else if d == 1 {
        '1'
    } else if d == 2 {
        '2'
    } else if d == 3 {
        '3'
    } else if d == 4 {
        '4'
    } else if d == 5 {
        '5'
    } else if d == 6 {
        '6'
    } else if d == 7 {
        '7'
    } else if d == 8 {
        '8'
    } else {
        '9'
    }
}

/// The decimal representation of `v`, most significant digit first,
/// without leading zeroes (a single `'0'` for zero itself).
pub open spec fn dec_str(v: nat) -> Seq<char>
    decreases v,
{
    if v < 10 {
        seq![digit_char(v)]
    } else {
        dec_str(v / 10).push(digit_char(v % 10))
    }
}

/// Powers of ten.
pub open spec fn pow10(k: nat) -> nat
    decreases k,
{
    if k == 0 {
        1
    } else {
        10 * pow10((k - 1) as nat)
    }
}

/// A value below the `k`-th power of ten has at most `k` decimal digits.
pub proof fn lemma_dec_str_len(v: nat, k: nat)
    requires
        1 <= k,
        v < pow10(k),
    ensures
        dec_str(v).len() <= k,
    decreases v,
{
    if v >= 10 {
        assert(k >= 2) by {
            if k == 1 {
                assert(pow10(1) == 10);
            }
        }
        assert(v / 10 < pow10((k - 1) as nat)) by (nonlinear_arith)
            requires
                v < 10 * pow10((k - 1) as nat),
        ;
        lemma_dec_str_len(v / 10, (k - 1) as nat);
    }
}

/// A 64-bit value has at most twenty decimal digits.
pub proof fn lemma_dec_str_len_u64(v: nat)
    requires
        v <= u64::MAX,
    ensures
        dec_str(v).len() <= 20,
{
    assert(pow10(20) > u64::MAX) by {
        reveal_with_fuel(pow10, 21);
    }
    lemma_dec_str_len(v, 20);
}

/// Relies on `serde_json::to_string`: an unsigned integer serializes to
/// exactly its decimal digits, and serializing an integer cannot fail.
#[verifier::external_body]
fn encode_u64(v: u64) -> (r: String)
    ensures
        r@ == dec_str(v as nat),
{
    serde_json::to_string(&v).unwrap()
}

/// The text a value is served as: its decimal digits.
pub fn render_u64(v: u64) -> (r: String)
    ensures
        r@ == dec_str(v as nat),
{
    encode_u64(v)
}

} // verus!
