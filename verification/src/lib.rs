//! Reports the call stack space that remains available to the current
//! thread as a human-readable string.
//!
//! The measurement itself comes from the `stacker` crate and may fail
//! (for instance when the thread's stack bounds are unknown); that
//! failure is absorbed into a fixed fallback message, so the public
//! function always returns a string and never panics.

use vstd::prelude::*;

verus! {

/// The character for a single decimal digit value.
pub open spec fn digit_char(d: nat) -> char
    recommends
        d < 10,
{
    if d == 0 {
        '0'
    } else if d == 1 {
        '1'
    } else if d == 2 {
        '2'
    } else if d == 3 {
        '3'
    } else if d == 4 {
        '4'
    } else if d == 5 {
        '5'
    } else if d == 6 {
        '6'
    } else if d == 7 {
        '7'
    } else if d == 8 {
        '8'
    } else {
        '9'
    }
}

/// The decimal rendering of `n`: most significant digit first, no sign,
/// no leading zero (except that `0` itself renders as `"0"`).
pub open spec fn spec_decimal(n: nat) -> Seq<char>
    decreases n,
{
    if n < 10 {
        seq![digit_char(n)]
    } else {
        spec_decimal(n / 10) + seq![digit_char(n % 10)]
    }
}

/// The message returned when the measurement succeeds with value `x`.
pub open spec fn success_message(x: nat) -> Seq<char> {
    "remaining stack: "@ + spec_decimal(x)
}

/// The message returned when the measurement fails.
pub open spec fn fallback_message() -> Seq<char> {
    "failed to get remaining stack"@
}

/// What the report says for a given measurement outcome.
pub open spec fn spec_report(q: Option<usize>) -> Seq<char> {
    match q {
        Some(x) => success_message(x as nat),
        None => fallback_message(),
    }
}

/// Whether `c` is a decimal digit character.
pub open spec fn is_digit(c: char) -> bool {
    '0' <= c && c <= '9'
}

/// The numeric value of a decimal digit character.
pub open spec fn digit_value(c: char) -> nat
    recommends
        is_digit(c),
{
    (c as int - '0' as int) as nat
}

/// The number that a sequence of decimal digit characters denotes,
/// most significant digit first.
pub open spec fn digits_value(s: Seq<char>) -> nat
    decreases s.len(),
{
    if s.len() == 0 {
        0
    } else {
        digits_value(s.drop_last()) * 10 + digit_value(s.last())
    }
}

proof fn lemma_digit_char_value(d: nat)
    requires
        d < 10,
    ensures
        is_digit(digit_char(d)),
        digit_value(digit_char(d)) == d,
{
}

/// Decimal rendering is faithful: every character of `spec_decimal(n)` is
/// a digit, the sequence is non-empty with no leading zero (unless `n` is
/// zero, which renders as the single digit `'0'`), and reading the digits
/// back as a base-ten numeral yields `n` again.
pub proof fn lemma_decimal_faithful(n: nat)
    ensures
        spec_decimal(n).len() >= 1,
        forall|i: int| 0 <= i < spec_decimal(n).len() ==> is_digit(#[trigger] spec_decimal(n)[i]),
        n > 0 ==> spec_decimal(n)[0] != '0',
        n == 0 ==> spec_decimal(n) =~= seq!['0'],
        digits_value(spec_decimal(n)) == n,
    decreases n,
{
    if n < 10 {
        lemma_digit_char_value(n);
        let whole = spec_decimal(n);
        assert(whole.drop_last() =~= Seq::<char>::empty());
        assert(digits_value(whole) == digits_value(whole.drop_last()) * 10 + digit_value(whole.last()));
    } else {
        lemma_decimal_faithful(n / 10);
        lemma_digit_char_value(n % 10);
        let prefix = spec_decimal(n / 10);
        let whole = spec_decimal(n);
        assert(whole.drop_last() =~= prefix);
        assert(digits_value(whole) == digits_value(prefix) * 10 + digit_value(whole.last()));
        vstd::arithmetic::div_mod::lemma_fundamental_div_mod(n as int, 10);
    }
}

fn digit_to_str(d: usize) -> (r: &'static str)
    requires
        d < 10,
    ensures
        r@ =~= seq![digit_char(d as nat)],
{
    proof {
        reveal_strlit("0");
        reveal_strlit("1");
        reveal_strlit("2");
        reveal_strlit("3");
        reveal_strlit("4");
        reveal_strlit("5");
        reveal_strlit("6");
        reveal_strlit("7");
        reveal_strlit("8");
        reveal_strlit("9");
    }
    if d == 0 {
        "0"
    } else if d == 1 {
        "1"
    } else if d == 2 {
        "2"
    } else if d == 3 {
        "3"
    } else if d == 4 {
        "4"
    } else if d == 5 {
        "5"
    } else if d == 6 {
        "6"
    } else if d == 7 {
        "7"
    } else if d == 8 {
        "8"
    } else {
        "9"
    }
}

/// Appends the decimal rendering of `n` to `s`.
fn push_decimal(s: &mut String, n: usize)
    ensures
        final(s)@ == old(s)@ + spec_decimal(n as nat),
    decreases n,
{
    if n >= 10 {
        push_decimal(s, n / 10);
    }
    let d = digit_to_str(n % 10);
    s.append(d);
}

/// Formats a measurement outcome: `Some(x)` becomes
/// `"remaining stack: "` followed by `x` in decimal, `None` becomes the
/// fixed fallback message.
pub fn format_remaining_stack(q: Option<usize>) -> (r: String)
    ensures
        r@ == spec_report(q),
{
    match q {
        Some(x) => {
            let mut s = String::from_str("remaining stack: ");
            push_decimal(&mut s, x);
            s
        },
        None => String::from_str("failed to get remaining stack"),
    }
}

/// Relies on `stacker::remaining_stack`: the stack space estimated to
/// remain before overflow for the calling thread, in the platform's
/// native unit, or `None` when the thread's stack limit is unknown.
/// The value depends on the calling thread's state, so nothing is
/// promised of it.
#[verifier::external_body]
fn query_remaining_stack() -> Option<usize> {
    stacker::remaining_stack()
}

/// Describes the call stack space remaining for the current thread:
/// either `"remaining stack: "` followed by the measured amount in
/// decimal, or the fixed fallback message when the measurement fails.
pub fn get_remaining_stack() -> (r: String)
    ensures
        exists|q: Option<usize>| r@ == #[trigger] spec_report(q),
{
    let q = query_remaining_stack();
    format_remaining_stack(q)
}

} // verus!
