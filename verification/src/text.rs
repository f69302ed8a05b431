//! Fixed-point rendering of elapsed time: a nanosecond count becomes the text
//! `WHOLE.FFFFms`, with four fractional digits (truncated) and the whole part
//! padded with spaces to a field of at least eight characters before `ms`.

use vstd::prelude::*;

verus! {

/// The decimal digit character for a value below ten.
pub open spec fn digit_char(d: int) -> char {
    if d == 0 {
        '0'
    } else if d == 1 {
        '1'
    } else if d == 2 {
        '2'
    } else if d == 3 {
        '3'
    } else if d == 4 {
        '4'
    } else if d == 5 {
        '5'
    } else if d == 6 {
        '6'
    } else if d == 7 {
        '7'
    } else if d == 8 {
        '8'
    } else {
        '9'
    }
}

/// The decimal representation of a number, most significant digit first,
/// without leading zeros (a lone zero for zero itself).
pub open spec fn dec_rep(n: nat) -> Seq<char>
    decreases n,
{
    if n < 10 {
        seq![digit_char(n as int)]
    } else {
        dec_rep(n / 10) + seq![digit_char((n % 10) as int)]
    }
}

/// The four fractional digits, zero-padded on the left.
pub open spec fn frac4_rep(n: nat) -> Seq<char>
    recommends
        n < 10000,
{
    if n < 10 {
        seq!['0', '0', '0'] + dec_rep(n)
    } else if n < 100 {
        seq!['0', '0'] + dec_rep(n)
    } else if n < 1000 {
        seq!['0'] + dec_rep(n)
    } else {
        dec_rep(n)
    }
}

/// The whole text for a nanosecond count: whole milliseconds, a point, four
/// fractional digits (hundreds of nanoseconds, truncated), then `ms`, the
/// numeric part space-padded on the left to eight characters.
pub open spec fn spec_millis_text(nanos: u128) -> Seq<char> {
    let whole = (nanos / 1000000) as nat;
    let frac = ((nanos % 1000000) / 100) as nat;
    let line = dec_rep(whole) + seq!['.'] + frac4_rep(frac) + seq!['m', 's'];
    if whole < 10 {
        seq![' ', ' '] + line
    } else if whole < 100 {
        seq![' '] + line
    } else {
        line
    }
}

/// A text that is the millisecond rendering of some nanosecond count.
pub open spec fn is_millis_text(s: Seq<char>) -> bool {
    exists|n: u128| s == #[trigger] spec_millis_text(n)
}

/// The one-character string for a decimal digit.
fn digit_str(d: u64) -> (r: &'static str)
    requires
        d < 10,
    ensures
        r@ == dec_rep(d as nat),
{
    let r = if d == 0 {
        "0"
    } else if d == 1 {
        "1"
    } else if d == 2 {
        "2"
    } else if d == 3 {
        "3"
    } else if d == 4 {
        "4"
    } else if d == 5 {
        "5"
    } else if d == 6 {
        "6"
    } else if d == 7 {
        "7"
    } else if d == 8 {
        "8"
    } else {
        "9"
    };
    proof {
        reveal_strlit("0");
        reveal_strlit("1");
        reveal_strlit("2");
        reveal_strlit("3");
        reveal_strlit("4");
        reveal_strlit("5");
        reveal_strlit("6");
        reveal_strlit("7");
        reveal_strlit("8");
        reveal_strlit("9");
        assert(r@ =~= dec_rep(d as nat));
    }
    r
}

/// The decimal text of a number, most significant digit first.
pub fn dec_string(n: u128) -> (r: String)
    ensures
        r@ == dec_rep(n as nat),
    decreases n,
{
    if n < 10 {
        let mut s = String::new();
        s.append(digit_str(n as u64));
        proof {
            assert(s@ =~= dec_rep(n as nat));
        }
        s
    } else {
        let mut s = dec_string(n / 10);
        s.append(digit_str((n % 10) as u64));
        proof {
            assert(s@ =~= dec_rep(n as nat));
        }
        s
    }
}

/// The four-digit, zero-padded text of a fractional part.
fn frac4_string(n: u64) -> (r: String)
    requires
        n < 10000,
    ensures
        r@ == frac4_rep(n as nat),
{
    let mut s = if n < 10 {
        String::from_str("000")
    } else if n < 100 {
        String::from_str("00")
    } else if n < 1000 {
        String::from_str("0")
    } else {
        String::new()
    };
    let digits = dec_string(n as u128);
    s.append(digits.as_str());
    proof {
        reveal_strlit("000");
        reveal_strlit("00");
        reveal_strlit("0");
        assert(s@ =~= frac4_rep(n as nat));
    }
    s
}

/// Render a nanosecond count as the padded millisecond text.
pub fn fmt_millis(nanos: u128) -> (r: String)
    ensures
        r@ == spec_millis_text(nanos),
        is_millis_text(r@),
{
    let whole = nanos / 1000000;
    let frac = ((nanos % 1000000) / 100) as u64;
    let mut s = if whole < 10 {
        String::from_str("  ")
    } else if whole < 100 {
        String::from_str(" ")
    } else {
        String::new()
    };
    let whole_digits = dec_string(whole);
    s.append(whole_digits.as_str());
    s.append(".");
    let frac_digits = frac4_string(frac);
    s.append(frac_digits.as_str());
    s.append("ms");
    proof {
        reveal_strlit("  ");
        reveal_strlit(" ");
        reveal_strlit(".");
        reveal_strlit("ms");
        assert(s@ =~= spec_millis_text(nanos));
    }
    s
}

} // verus!
