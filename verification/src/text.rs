//! Small text helpers: slice equality and decimal rendering of status codes.

use vstd::prelude::*;
use vstd::string::StringExecFns;

verus! {

/// Relies on `<str as PartialEq>::eq` from std: two string slices compare
/// equal exactly when they hold the same characters.
#[verifier::external_body]
pub(crate) fn str_eq(a: &str, b: &str) -> (r: bool)
    ensures
        r == (a@ == b@),
{
    a == b
}

/// The character for one decimal digit.
pub open spec fn spec_digit_char(d: int) -> char {
    if d == 0 {
        '0'
    } else if d == 1 {
        '1'
    } else if d == 2 {
        '2'
    } else if d == 3 {
        '3'
    } else if d == 4 {
        '4'
    } else if d == 5 {
        '5'
    } else if d == 6 {
        '6'
    } else if d == 7 {
        '7'
    } else if d == 8 {
        '8'
    } else {
        '9'
    }
}

/// The decimal rendering of a non-negative integer, most significant digit
/// first and without leading zeros (`0` renders as `"0"`).
pub open spec fn spec_dec(n: int) -> Seq<char>
    recommends
        n >= 0,
    decreases n,
{
    if n >= 10 {
        spec_dec(n / 10).push(spec_digit_char(n % 10))
    } else {
        seq![spec_digit_char(n)]
    }
}

fn digit_str(d: u16) -> (r: &'static str)
    requires
        d < 10,
    ensures
        r@ == seq![spec_digit_char(d as int)],
{
    proof {
        reveal_strlit("0");
        reveal_strlit("1");
        reveal_strlit("2");
        reveal_strlit("3");
        reveal_strlit("4");
        reveal_strlit("5");
        reveal_strlit("6");
        reveal_strlit("7");
        reveal_strlit("8");
        reveal_strlit("9");
        assert(("0")@ =~= seq!['0']);
        assert(("1")@ =~= seq!['1']);
        assert(("2")@ =~= seq!['2']);
        assert(("3")@ =~= seq!['3']);
        assert(("4")@ =~= seq!['4']);
        assert(("5")@ =~= seq!['5']);
        assert(("6")@ =~= seq!['6']);
        assert(("7")@ =~= seq!['7']);
        assert(("8")@ =~= seq!['8']);
        assert(("9")@ =~= seq!['9']);
    }
    if d == 0 {
        "0"
    } else if d == 1 {
        "1"
    } else if d == 2 {
        "2"
    } else if d == 3 {
        "3"
    } else if d == 4 {
        "4"
    } else if d == 5 {
        "5"
    } else if d == 6 {
        "6"
    } else if d == 7 {
        "7"
    } else if d == 8 {
        "8"
    } else {
        "9"
    }
}

/// Appends the decimal rendering of `n` to `s`.
pub fn push_dec(s: &mut String, n: u16)
    ensures
        final(s)@ == old(s)@ + spec_dec(n as int),
    decreases n,
{
    if n >= 10 {
        push_dec(s, n / 10);
        let d = digit_str(n % 10);
        s.append(d);
        proof {
            assert((n / 10) as int == n as int / 10);
            assert((n % 10) as int == n as int % 10);
            assert(old(s)@ + spec_dec(n as int / 10) + seq![spec_digit_char(n as int % 10)] =~= old(
                s,
            )@ + spec_dec(n as int));
        }
    } else {
        let d = digit_str(n);
        s.append(d);
    }
}

/// Renders a status code as its decimal digits.
pub fn u16_to_string(n: u16) -> (s: String)
    ensures
        s@ == spec_dec(n as int),
{
    let mut s = String::new();
    push_dec(&mut s, n);
    proof {
        assert(s@ =~= spec_dec(n as int));
    }
    s
}

} // verus!
