//! What the listing asks about a directory entry: whether its name is an
//! application id.

use vstd::prelude::*;

verus! {

/// Whether `c` is one of the digits `0` to `9`.
pub open spec fn is_digit(c: char) -> bool {
    '0' <= c <= '9'
}

/// The number that a digit stands for.
pub open spec fn digit_value(c: char) -> nat {
    (c as u32 - '0' as u32) as nat
}

/// The number that a string of digits writes in decimal.
pub open spec fn decimal_value(digits: Seq<char>) -> nat
    decreases digits.len(),
{
    if digits.len() == 0 {
        0
    } else {
        decimal_value(digits.drop_last()) * 10 + digit_value(digits.last())
    }
}

/// How many characters the sign of a name takes: one where the name begins
/// with `+`, none otherwise.
pub open spec fn sign_len(name: Seq<char>) -> int {
    if name.len() > 0 && name[0] == '+' {
        1
    } else {
        0
    }
}

/// The digits of a name: all that follows its sign.
pub open spec fn digits_of(name: Seq<char>) -> Seq<char> {
    name.subrange(sign_len(name), name.len() as int)
}

/// The application id that a name writes, if it writes one: the name is one
/// decimal digit or more, with or without a `+` before them, and the number
/// fits 64 bits.
pub open spec fn appid_of(name: Seq<char>) -> Option<u64> {
    let digits = digits_of(name);
    if digits.len() > 0 && (forall|i: int| 0 <= i < digits.len() ==> is_digit(#[trigger] digits[i]))
        && decimal_value(digits) <= u64::MAX {
        Some(decimal_value(digits) as u64)
    } else {
        None
    }
}

/// A string of digits writes no smaller a number than any of its prefixes.
proof fn lemma_prefix_value(digits: Seq<char>, n: int)
    requires
        0 <= n <= digits.len(),
    ensures
        decimal_value(digits.take(n)) <= decimal_value(digits),
    decreases digits.len(),
{
    if n == digits.len() {
        assert(digits.take(n) == digits);
    } else {
        assert(digits.drop_last().take(n) == digits.take(n));
        lemma_prefix_value(digits.drop_last(), n);
    }
}

/// The application id that the name of a directory entry writes.
pub fn appid_of_name(name: &str) -> (appid: Option<u64>)
    ensures
        appid == appid_of(name@),
{
    let mut value: u64 = 0;
    let mut first = true;
    let mut any = false;
    let ghost sign = sign_len(name@);
    for c in it: name.chars()
        invariant
            it.seq() == name@,
            sign == sign_len(name@),
            first == (it.index() == 0),
            any == (it.index() > sign),
            forall|j: int| sign <= j < it.index() ==> is_digit(#[trigger] name@[j]),
            value == decimal_value(
                name@.subrange(sign, if it.index() < sign { sign } else { it.index() as int }),
            ),
    {
        let ghost i = it.index() as int;
        assert(c == name@[i]);
        if first && c == '+' {
            assert(name@.subrange(1, 1) == name@.subrange(0, 0));
        } else if c >= '0' && c <= '9' {
            let digit: u64 = (c as u32 - 48) as u64;
            proof {
                let seen = name@.subrange(sign, i + 1);
                assert(seen.drop_last() == name@.subrange(sign, i));
                assert(seen.last() == c);
                assert(digit == digit_value(c));
            }
            if value > (u64::MAX - digit) / 10 {
                proof {
                    let digits = digits_of(name@);
                    assert(digits.take(i + 1 - sign) == name@.subrange(sign, i + 1));
                    lemma_prefix_value(digits, i + 1 - sign);
                }
                return None;
            }
            value = value * 10 + digit;
            any = true;
        } else {
            assert(!is_digit(digits_of(name@)[i - sign]));
            return None;
        }
        first = false;
    }
    assert(digits_of(name@) == name@.subrange(sign, if name@.len() < sign { sign } else { name@.len() as int }));
    if any {
        Some(value)
    } else {
        None
    }
}

} // verus!
