//! Small verified helpers: character-wise string equality, and parsing a
//! decimal configuration value with a fallback default.

use vstd::prelude::*;

verus! {

/// Character-wise string equality.
pub fn str_eq(a: &str, b: &str) -> (r: bool)
    ensures
        r == (a@ == b@),
{
    let na = a.unicode_len();
    let nb = b.unicode_len();
    if na != nb {
        return false;
    }
    let mut i: usize = 0;
    while i < na
        invariant
            i <= na,
            na == a@.len(),
            nb == b@.len(),
            na == nb,
            forall|j: int| 0 <= j < i ==> a@[j] == b@[j],
        decreases na - i,
    {
        let ca = a.get_char(i);
        let cb = b.get_char(i);
        if ca != cb {
            return false;
        }
        i = i + 1;
    }
    proof {
        assert(a@ =~= b@);
    }
    true
}

/// Whether `c` is a decimal digit.
pub open spec fn is_digit(c: char) -> bool {
    '0' <= c && c <= '9'
}

/// The value of the decimal digit `c`.
pub open spec fn digit_value(c: char) -> nat {
    (c as nat - 48) as nat
}

/// The value of `s` read as a decimal numeral.
pub open spec fn dec_value(s: Seq<char>) -> nat
    decreases s.len(),
{
    if s.len() == 0 {
        0
    } else {
        dec_value(s.drop_last()) * 10 + digit_value(s.last())
    }
}

/// The digits of a numeral after an optional leading plus sign.
pub open spec fn unsigned_part(s: Seq<char>) -> Seq<char> {
    if s.len() > 0 && s[0] == '+' {
        s.subrange(1, s.len() as int)
    } else {
        s
    }
}

/// Whether every character of `s` is a decimal digit.
pub open spec fn all_digits(s: Seq<char>) -> bool {
    forall|j: int| 0 <= j < s.len() ==> is_digit(s[j])
}

/// Whether `s` reads as a decimal numeral that fits in sixteen bits: an
/// optional plus sign, then at least one digit, with a value of at most
/// `u16::MAX`.
pub open spec fn is_dec_u16(s: Seq<char>) -> bool {
    unsigned_part(s).len() > 0 && all_digits(unsigned_part(s)) && dec_value(unsigned_part(s))
        <= 65535
}

/// What a configuration variable yields: its value read as a decimal
/// numeral where that succeeds, the default everywhere else.
pub open spec fn parse_integral_spec(val: Option<Seq<char>>, default_value: u16) -> u16 {
    match val {
        Some(s) => if is_dec_u16(s) {
            dec_value(unsigned_part(s)) as u16
        } else {
            default_value
        },
        None => default_value,
    }
}

/// Read a decimal numeral out of an optional configuration value, falling
/// back to the default when the value is absent, malformed, or too large.
pub fn parse_integral(val: Option<&str>, default_value: u16) -> (r: u16)
    ensures
        r == parse_integral_spec(
            match val {
                Some(s) => Some(s@),
                None => None,
            },
            default_value,
        ),
{
    let s = match val {
        Some(s) => s,
        None => { return default_value },
    };
    let n = s.unicode_len();
    let mut start: usize = 0;
    if n > 0 && s.get_char(0) == '+' {
        start = 1;
    }
    if start == n {
        return default_value;
    }
    let ghost d = unsigned_part(s@);
    proof {
        assert(d =~= s@.subrange(start as int, n as int));
    }
    let mut acc: u32 = 0;
    let mut too_big = false;
    let mut i: usize = start;
    while i < n
        invariant
            val == Some(s),
            start <= i <= n,
            n == s@.len(),
            d == unsigned_part(s@),
            d == s@.subrange(start as int, n as int),
            forall|j: int| start <= j < i ==> is_digit(s@[j]),
            !too_big ==> acc == dec_value(s@.subrange(start as int, i as int)) && acc <= 65535,
            too_big ==> dec_value(s@.subrange(start as int, i as int)) > 65535,
        decreases n - i,
    {
        let c = s.get_char(i);
        if c < '0' || c > '9' {
            proof {
                let j: int = i - start;
                assert(d[j] == s@[i as int]);
                assert(!is_digit(d[j]));
                assert(!all_digits(d));
                assert(!is_dec_u16(s@));
            }
            return default_value;
        }
        let dv: u32 = (c as u32) - 48;
        proof {
            assert(s@.subrange(start as int, i as int + 1).drop_last() =~= s@.subrange(
                start as int,
                i as int,
            ));
            assert(s@.subrange(start as int, i as int + 1).last() == s@[i as int]);
        }
        if too_big {
            proof {
                assert(dec_value(s@.subrange(start as int, i as int + 1)) > 65535);
            }
        } else {
            acc = acc * 10 + dv;
            if acc > 65535 {
                too_big = true;
            }
        }
        i = i + 1;
    }
    proof {
        assert(s@.subrange(start as int, n as int) == d);
    }
    if too_big {
        return default_value;
    }
    proof {
        assert(is_dec_u16(s@));
    }
    acc as u16
}

} // verus!
