//! Decimal rendering of the integer parameters that appear in query
//! strings: day counts, city ids, epoch seconds, thresholds, and
//! microdegree coordinates.

use vstd::prelude::*;
use vstd::string::StringExecFns;

verus! {

/// The decimal digit character for `d`, which must lie in 0 through 9.
pub open spec fn digit_char(d: int) -> char {
    if d == 0 {
        '0'
    } else if d == 1 {
        '1'
    } else if d == 2 {
        '2'
    } else if d == 3 {
        '3'
    } else if d == 4 {
        '4'
    } else if d == 5 {
        '5'
    } else if d == 6 {
        '6'
    } else if d == 7 {
        '7'
    } else if d == 8 {
        '8'
    } else {
        '9'
    }
}

/// The base-ten rendering of `n`: no sign, no leading zeros
/// (a single `'0'` for zero itself).
pub open spec fn dec_digits(n: nat) -> Seq<char>
    decreases n,
{
    if n < 10 {
        seq![digit_char(n as int)]
    } else {
        dec_digits(n / 10) + seq![digit_char((n % 10) as int)]
    }
}

/// The base-ten rendering of a signed value: a leading `'-'` for a
/// negative one, then the rendering of its magnitude.
pub open spec fn signed_digits(n: int) -> Seq<char> {
    if n < 0 {
        seq!['-'] + dec_digits((-n) as nat)
    } else {
        dec_digits(n as nat)
    }
}

fn digit_str(d: u64) -> (r: &'static str)
    requires
        d < 10,
    ensures
        r@ == seq![digit_char(d as int)],
{
    let r: &'static str = if d == 0 {
        "0"
    } else if d == 1 {
        "1"
    } else if d == 2 {
        "2"
    } else if d == 3 {
        "3"
    } else if d == 4 {
        "4"
    } else if d == 5 {
        "5"
    } else if d == 6 {
        "6"
    } else if d == 7 {
        "7"
    } else if d == 8 {
        "8"
    } else {
        "9"
    };
    proof {
        reveal_strlit("0");
        reveal_strlit("1");
        reveal_strlit("2");
        reveal_strlit("3");
        reveal_strlit("4");
        reveal_strlit("5");
        reveal_strlit("6");
        reveal_strlit("7");
        reveal_strlit("8");
        reveal_strlit("9");
        assert(r@ =~= seq![digit_char(d as int)]);
    }
    r
}

/// Renders `n` in base ten.
pub fn u64_to_dec(n: u64) -> (r: String)
    ensures
        r@ == dec_digits(n as nat),
    decreases n,
{
    if n < 10 {
        digit_str(n).to_owned()
    } else {
        proof {
            assert(n / 10 < n) by (nonlinear_arith)
                requires
                    n >= 10,
            ;
        }
        let mut s = u64_to_dec(n / 10);
        s.append(digit_str(n % 10));
        s
    }
}

/// Renders `n` in base ten, with a leading minus sign when negative.
pub fn i64_to_dec(n: i64) -> (r: String)
    ensures
        r@ == signed_digits(n as int),
{
    if n >= 0 {
        u64_to_dec(n as u64)
    } else {
        let mag: u64 = (-(n as i128)) as u64;
        proof {
            assert(mag as int == -(n as int));
        }
        let mut s = "-".to_owned();
        proof {
            reveal_strlit("-");
            assert(s@ =~= seq!['-']);
        }
        s.append(u64_to_dec(mag).as_str());
        s
    }
}

/// The six-digit, zero-padded rendering of a fractional part `f`,
/// which must be below one million.
pub open spec fn frac6_digits(f: nat) -> Seq<char> {
    seq![
        digit_char(((f / 100000) % 10) as int),
        digit_char(((f / 10000) % 10) as int),
        digit_char(((f / 1000) % 10) as int),
        digit_char(((f / 100) % 10) as int),
        digit_char(((f / 10) % 10) as int),
        digit_char((f % 10) as int),
    ]
}

/// The decimal rendering of a coordinate stored in microdegrees:
/// an optional minus sign, the whole degrees, a point, and exactly
/// six fractional digits.
pub open spec fn micro_digits(n: int) -> Seq<char> {
    let sign = if n < 0 {
        seq!['-']
    } else {
        Seq::<char>::empty()
    };
    let a = if n < 0 {
        -n
    } else {
        n
    };
    sign + dec_digits((a / 1000000) as nat) + seq!['.'] + frac6_digits((a % 1000000) as nat)
}

fn frac6_to_dec(f: u64) -> (r: String)
    requires
        f < 1000000,
    ensures
        r@ == frac6_digits(f as nat),
{
    let mut s = digit_str((f / 100000) % 10).to_owned();
    s.append(digit_str((f / 10000) % 10));
    s.append(digit_str((f / 1000) % 10));
    s.append(digit_str((f / 100) % 10));
    s.append(digit_str((f / 10) % 10));
    s.append(digit_str(f % 10));
    proof {
        assert(s@ =~= frac6_digits(f as nat));
    }
    s
}

/// Renders a microdegree coordinate as signed degrees with six
/// fractional digits.
pub fn micro_to_dec(n: i64) -> (r: String)
    ensures
        r@ == micro_digits(n as int),
{
    let mag: u64 = if n >= 0 {
        n as u64
    } else {
        (-(n as i128)) as u64
    };
    let mut s = if n < 0 {
        let t = "-".to_owned();
        proof {
            reveal_strlit("-");
            assert(t@ =~= seq!['-']);
        }
        t
    } else {
        String::new()
    };
    s.append(u64_to_dec(mag / 1000000).as_str());
    s.append(".");
    s.append(frac6_to_dec(mag % 1000000).as_str());
    proof {
        reveal_strlit(".");
        assert("."@ =~= seq!['.']);
        assert(s@ =~= micro_digits(n as int));
    }
    s
}

} // verus!
