//! Decimal rendering of integers, used by the diagnostic descriptions
//! that error leaves embed.

use vstd::prelude::*;
use vstd::string::StringExecFns;

verus! {

/// The character for one decimal digit.
pub open spec fn digit_char(d: nat) -> char {
    if d == 0 {
        '0'
    } else if d == 1 {
        '1'
    } else if d == 2 {
        '2'
    } else if d == 3 {
        '3'
    } else if d == 4 {
        '4'
    } else if d == 5 {
        '5'
    } else if d == 6 {
        '6'
    } else if d == 7 {
        '7'
    } else if d == 8 {
        '8'
    } else {
        '9'
    }
}

/// The decimal digits of `n`, most significant first, with no sign and
/// no leading zeros (`0` itself is the single digit `0`).
pub open spec fn dec_digits(n: nat) -> Seq<char>
    decreases n,
{
    if n < 10 {
        seq![digit_char(n)]
    } else {
        dec_digits(n / 10).push(digit_char(n % 10))
    }
}

/// The decimal rendering of a possibly negative value: a minus sign,
/// if any, then the digits of the magnitude.
pub open spec fn dec_int(v: int) -> Seq<char> {
    if v < 0 {
        seq!['-'] + dec_digits((-v) as nat)
    } else {
        dec_digits(v as nat)
    }
}

/// Appends the character of one decimal digit.
fn append_digit(out: &mut String, d: u64)
    requires
        d < 10,
    ensures
        final(out)@ == old(out)@.push(digit_char(d as nat)),
{
    if d == 0 {
        out.append("0");
        proof {
            reveal_strlit("0");
            assert(final(out)@ =~= old(out)@.push(digit_char(d as nat)));
        }
    } else if d == 1 {
        out.append("1");
        proof {
            reveal_strlit("1");
            assert(final(out)@ =~= old(out)@.push(digit_char(d as nat)));
        }
    } else if d == 2 {
        out.append("2");
        proof {
            reveal_strlit("2");
            assert(final(out)@ =~= old(out)@.push(digit_char(d as nat)));
        }
    } else if d == 3 {
        out.append("3");
        proof {
            reveal_strlit("3");
            assert(final(out)@ =~= old(out)@.push(digit_char(d as nat)));
        }
    } else if d == 4 {
        out.append("4");
        proof {
            reveal_strlit("4");
            assert(final(out)@ =~= old(out)@.push(digit_char(d as nat)));
        }
    } else if d == 5 {
        out.append("5");
        proof {
            reveal_strlit("5");
            assert(final(out)@ =~= old(out)@.push(digit_char(d as nat)));
        }
    } else if d == 6 {
        out.append("6");
        proof {
            reveal_strlit("6");
            assert(final(out)@ =~= old(out)@.push(digit_char(d as nat)));
        }
    } else if d == 7 {
        out.append("7");
        proof {
            reveal_strlit("7");
            assert(final(out)@ =~= old(out)@.push(digit_char(d as nat)));
        }
    } else if d == 8 {
        out.append("8");
        proof {
            reveal_strlit("8");
            assert(final(out)@ =~= old(out)@.push(digit_char(d as nat)));
        }
    } else {
        out.append("9");
        proof {
            reveal_strlit("9");
            assert(final(out)@ =~= old(out)@.push(digit_char(d as nat)));
        }
    }
}

/// Appends the decimal digits of `n`.
pub fn append_dec_u64(out: &mut String, n: u64)
    ensures
        final(out)@ == old(out)@ + dec_digits(n as nat),
    decreases n,
{
    if n >= 10 {
        append_dec_u64(out, n / 10);
        append_digit(out, n % 10);
        proof {
            assert(final(out)@ =~= old(out)@ + dec_digits(n as nat));
        }
    } else {
        append_digit(out, n);
        proof {
            assert(final(out)@ =~= old(out)@ + dec_digits(n as nat));
        }
    }
}

/// Appends the decimal rendering of a signed value.
pub fn append_dec_i64(out: &mut String, v: i64)
    ensures
        final(out)@ == old(out)@ + dec_int(v as int),
{
    if v >= 0 {
        append_dec_u64(out, v as u64);
    } else {
        out.append("-");
        let mag: u64 = ((-(v + 1)) as u64) + 1;
        assert(mag as int == -(v as int));
        append_dec_u64(out, mag);
        proof {
            reveal_strlit("-");
            assert("-"@ =~= seq!['-']);
            assert(final(out)@ =~= old(out)@ + dec_int(v as int));
        }
    }
}

} // verus!
