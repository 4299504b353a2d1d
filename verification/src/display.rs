//! Rendering of magnitudes and unit names.
//!
//! A magnitude prints as its exact decimal form: the digits of the
//! numerator, zeros appended for a positive exponent or a decimal point
//! inserted for a negative one, and `/denominator` when the denominator is
//! not one (`3/2` rather than a rounded `1.5`, since nothing here rounds).
//! Long unit names pluralise exactly when the magnitude is not one.

use vstd::prelude::*;

use crate::magnitude::Magnitude;
use crate::rat::{rat_eq, rat_int};

verus! {

/// The character of one decimal digit.
pub open spec fn digit_char(d: nat) -> char {
    if d == 0 {
        '0'
    } else if d == 1 {
        '1'
    } else if d == 2 {
        '2'
    } else if d == 3 {
        '3'
    } else if d == 4 {
        '4'
    } else if d == 5 {
        '5'
    } else if d == 6 {
        '6'
    } else if d == 7 {
        '7'
    } else if d == 8 {
        '8'
    } else {
        '9'
    }
}

/// The decimal digits of `n`, most significant first.
pub open spec fn dec_digits(n: nat) -> Seq<char>
    decreases n,
{
    if n < 10 {
        seq![digit_char(n)]
    } else {
        dec_digits(n / 10).push(digit_char(n % 10))
    }
}

/// `k` zero characters.
pub open spec fn zero_chars(k: nat) -> Seq<char>
    decreases k,
{
    if k == 0 {
        Seq::empty()
    } else {
        zero_chars((k - 1) as nat).push('0')
    }
}

/// Digits with a decimal point `frac` places from the right, padded with
/// leading zeros when there are fewer digits than that.
pub open spec fn pointed(ds: Seq<char>, frac: nat) -> Seq<char> {
    if frac == 0 {
        ds
    } else if ds.len() > frac {
        ds.take(ds.len() - frac) + seq!['.'] + ds.skip(ds.len() - frac)
    } else {
        seq!['0', '.'] + zero_chars((frac - ds.len()) as nat) + ds
    }
}

/// The exact decimal rendering of a magnitude.
pub open spec fn mag_chars(m: Magnitude) -> Seq<char> {
    if m.num == 0 {
        seq!['0']
    } else {
        let mag = if m.num < 0 {
            (-m.num) as nat
        } else {
            m.num as nat
        };
        let body = if m.exp >= 0 {
            dec_digits(mag) + zero_chars(m.exp as nat)
        } else {
            pointed(dec_digits(mag), (-m.exp) as nat)
        };
        let with_den = if m.den == 1 {
            body
        } else {
            body + seq!['/'] + dec_digits(m.den as nat)
        };
        if m.num < 0 {
            seq!['-'] + with_den
        } else {
            with_den
        }
    }
}

/// One decimal digit as a string slice.
fn digit_str(d: u128) -> (s: &'static str)
    requires
        d < 10,
    ensures
        s@ == seq![digit_char(d as nat)],
{
    proof {
        reveal_strlit("0");
        reveal_strlit("1");
        reveal_strlit("2");
        reveal_strlit("3");
        reveal_strlit("4");
        reveal_strlit("5");
        reveal_strlit("6");
        reveal_strlit("7");
        reveal_strlit("8");
        reveal_strlit("9");
    }
    if d == 0 {
        "0"
    } else if d == 1 {
        "1"
    } else if d == 2 {
        "2"
    } else if d == 3 {
        "3"
    } else if d == 4 {
        "4"
    } else if d == 5 {
        "5"
    } else if d == 6 {
        "6"
    } else if d == 7 {
        "7"
    } else if d == 8 {
        "8"
    } else {
        "9"
    }
}

/// The decimal digits of `n` as a string.
pub fn digits_string(n: u128) -> (s: String)
    ensures
        s@ == dec_digits(n as nat),
    decreases n,
{
    if n < 10 {
        let s = String::from_str(digit_str(n));
        proof {
            assert(s@ =~= dec_digits(n as nat));
        }
        s
    } else {
        let head = digits_string(n / 10);
        let s = head.concat(digit_str(n % 10));
        proof {
            assert(s@ =~= dec_digits(n as nat));
        }
        s
    }
}

/// `k` zeros as a string.
fn zeros_string(k: u32) -> (s: String)
    ensures
        s@ == zero_chars(k as nat),
{
    proof {
        reveal_strlit("0");
    }
    let mut s = String::new();
    let mut i: u32 = 0;
    while i < k
        invariant
            i <= k,
            s@ == zero_chars(i as nat),
        decreases k - i,
    {
        s.append("0");
        i = i + 1;
        proof {
            reveal_strlit("0");
            assert(s@ =~= zero_chars(i as nat));
        }
    }
    s
}

/// Digits with a decimal point inserted `frac` places from the right.
fn pointed_string(ds: String, frac: u32) -> (s: String)
    requires
        ds@.len() >= 1,
    ensures
        s@ == pointed(ds@, frac as nat),
{
    if frac == 0 {
        return ds;
    }
    let n = ds.as_str().unicode_len();
    if n > frac as usize {
        let head = ds.as_str().substring_char(0, n - frac as usize);
        let tail = ds.as_str().substring_char(n - frac as usize, n);
        let s = String::from_str(head).concat(".").concat(tail);
        proof {
            reveal_strlit(".");
            assert(s@ =~= pointed(ds@, frac as nat));
        }
        s
    } else {
        let mut s = String::from_str("0.");
        s.append(zeros_string(frac - n as u32).as_str());
        s.append(ds.as_str());
        proof {
            reveal_strlit("0.");
            assert(s@ =~= pointed(ds@, frac as nat));
        }
        s
    }
}

/// The exact decimal rendering of a magnitude.
pub fn mag_string(m: &Magnitude) -> (s: String)
    requires
        m.wf(),
    ensures
        s@ == mag_chars(*m),
{
    if m.num == 0 {
        let s = String::from_str("0");
        proof {
            reveal_strlit("0");
            assert(s@ =~= mag_chars(*m));
        }
        return s;
    }
    let neg = m.num < 0;
    let a: u128 = if neg {
        (-m.num) as u128
    } else {
        m.num as u128
    };
    let ds = digits_string(a);
    proof {
        if ds@.len() == 0 {
            assert(dec_digits(a as nat).len() >= 1);
        }
    }
    let body = if m.exp >= 0 {
        let s = ds.concat(zeros_string(m.exp as u32).as_str());
        s
    } else {
        pointed_string(ds, (0 - m.exp) as u32)
    };
    let with_den = if m.den == 1 {
        body
    } else {
        let s = body.concat("/").concat(digits_string(m.den as u128).as_str());
        proof {
            reveal_strlit("/");
            assert(s@ =~= (if m.exp >= 0 {
                dec_digits(a as nat) + zero_chars(m.exp as nat)
            } else {
                pointed(dec_digits(a as nat), (-m.exp) as nat)
            }) + seq!['/'] + dec_digits(m.den as nat));
        }
        s
    };
    if neg {
        let s = String::from_str("-").concat(with_den.as_str());
        proof {
            reveal_strlit("-");
            assert(s@ =~= mag_chars(*m));
        }
        s
    } else {
        proof {
            assert(with_den@ =~= mag_chars(*m));
        }
        with_den
    }
}

/// The singular name when the magnitude is exactly one, the plural name
/// otherwise.
pub fn pluralized(m: &Magnitude, singular: &str, plural: &str) -> (s: String)
    requires
        m.wf(),
    ensures
        s@ == if rat_eq(m@, rat_int(1)) {
            singular@
        } else {
            plural@
        },
{
    if m.is_one() {
        String::from_str(singular)
    } else {
        String::from_str(plural)
    }
}

/// `"<magnitude> <name>"` with the name correctly pluralised.
pub fn long_form(m: &Magnitude, singular: &str, plural: &str) -> (s: String)
    requires
        m.wf(),
    ensures
        s@ == mag_chars(*m) + " "@ + (if rat_eq(m@, rat_int(1)) {
            singular@
        } else {
            plural@
        }),
{
    let name = pluralized(m, singular, plural);
    let s = mag_string(m).concat(" ").concat(name.as_str());
    proof {
        reveal_strlit(" ");
        assert(s@ =~= mag_chars(*m) + " "@ + name@);
    }
    s
}

/// `"<magnitude> <symbol>"`: the short display form.
pub fn short_form(m: &Magnitude, symbol: &str) -> (s: String)
    requires
        m.wf(),
    ensures
        s@ == mag_chars(*m) + " "@ + symbol@,
{
    let s = mag_string(m).concat(" ").concat(symbol);
    proof {
        reveal_strlit(" ");
        assert(s@ =~= mag_chars(*m) + " "@ + symbol@);
    }
    s
}

} // verus!
