use vstd::prelude::*;

verus! {

use vstd::string::StrSliceExecFns;
use crate::digits::spec_pow10;
use crate::engine::in_engine_range;
use crate::rational::{Rat, Ratio};

/// A decimal digit character.
pub open spec fn is_digit(c: char) -> bool {
    '0' <= c && c <= '9'
}

/// The value of a decimal digit character.
pub open spec fn digit_val(c: char) -> int {
    c as int - 48
}

/// Scan the rest of a decimal literal: `digits` and `count` are the value
/// and the number of the digits already read (the dot does not interrupt
/// the accumulation, so the digits are read as one integer), and `frac`
/// counts the digits behind the dot once one was seen. Yields the digit
/// value, how many digits there were, and how many stood behind the dot;
/// or nothing for a second dot, a foreign character, or no digit at all.
pub open spec fn scan_decimal(digits: int, count: nat, frac: Option<nat>, rest: Seq<char>) -> Option<
    (int, nat, nat),
>
    decreases rest.len(),
{
    if rest.len() == 0 {
        if count == 0 {
            None
        } else {
            Some(
                (
                    digits,
                    count,
                    match frac {
                        Some(f) => f,
                        None => 0,
                    },
                ),
            )
        }
    } else {
        let c = rest[0];
        if c == '.' {
            match frac {
                Some(_) => None,
                None => scan_decimal(digits, count, Some(0), rest.subrange(1, rest.len() as int)),
            }
        } else if is_digit(c) {
            scan_decimal(
                digits * 10 + digit_val(c),
                count + 1,
                match frac {
                    Some(f) => Some((f + 1) as nat),
                    None => None,
                },
                rest.subrange(1, rest.len() as int),
            )
        } else {
            None
        }
    }
}

/// A scan never loses digits it has already counted.
proof fn lemma_scan_count_grows(digits: int, count: nat, frac: Option<nat>, rest: Seq<char>)
    ensures
        (scan_decimal(digits, count, frac, rest) matches Some(t) ==> t.1 >= count),
    decreases rest.len(),
{
    if rest.len() > 0 {
        let c = rest[0];
        let tail = rest.subrange(1, rest.len() as int);
        if c == '.' {
            if frac is None {
                lemma_scan_count_grows(digits, count, Some(0), tail);
            }
        } else if is_digit(c) {
            lemma_scan_count_grows(
                digits * 10 + digit_val(c),
                count + 1,
                match frac {
                    Some(f) => Some((f + 1) as nat),
                    None => None,
                },
                tail,
            );
        }
    }
}

/// A decimal string after its optional leading sign.
pub open spec fn spec_decimal_body(s: Seq<char>) -> Seq<char> {
    if s.len() > 0 && (s[0] == '+' || s[0] == '-') {
        s.subrange(1, s.len() as int)
    } else {
        s
    }
}

/// Which rational a decimal string denotes: an optional sign, then
/// digits with at most one dot among them and at least one digit. The
/// numerator is the digit string with the dot removed; the denominator
/// is ten to the number of digits behind the dot. At most 17 digits in
/// all and 12 behind the dot are accepted, so the value always fits the
/// engine and the display.
pub open spec fn spec_parse_decimal(s: Seq<char>) -> Option<Ratio> {
    let neg = s.len() > 0 && s[0] == '-';
    match scan_decimal(0, 0, None, spec_decimal_body(s)) {
        None => None,
        Some(t) => {
            if t.1 <= 17 && t.2 <= 12 {
                Some(
                    Ratio {
                        num: if neg {
                            -t.0
                        } else {
                            t.0
                        },
                        den: spec_pow10(t.2),
                    },
                )
            } else {
                None
            }
        },
    }
}

/// Powers of ten are positive.
proof fn lemma_pow10_pos(e: nat)
    ensures
        spec_pow10(e) >= 1,
    decreases e,
{
    if e > 0 {
        lemma_pow10_pos((e - 1) as nat);
    }
}

/// Ten to the 35th, spelled out once so loop bodies need not unfold the
/// power function that deep themselves.
proof fn lemma_pow10_value_35()
    ensures
        spec_pow10(35) == 100000000000000000000000000000000000,
{
    reveal_with_fuel(spec_pow10, 36);
}

/// Ten to the 17th and the 12th, spelled out.
proof fn lemma_pow10_value_17_12()
    ensures
        spec_pow10(17) == 100000000000000000,
        spec_pow10(12) == 1000000000000,
{
    reveal_with_fuel(spec_pow10, 18);
}

/// Powers of ten grow with the exponent.
proof fn lemma_pow10_mono(a: nat, b: nat)
    requires
        a <= b,
    ensures
        spec_pow10(a) <= spec_pow10(b),
    decreases b,
{
    if a < b {
        lemma_pow10_mono(a, (b - 1) as nat);
        lemma_pow10_pos((b - 1) as nat);
    }
}

/// Parse a decimal string into an exact rational: an optional sign,
/// digits, at most one dot, at least one digit; at most 17 digits in all
/// and 12 behind the dot. Anything else is rejected.
pub fn parse_decimal(s: &str) -> (r: Option<Rat>)
    ensures
        (r matches Some(v) ==> {
            &&& spec_parse_decimal(s@) == Some(v@)
            &&& v.wf()
            &&& in_engine_range(v@)
            &&& 1 <= v@.den <= 1000000000000
        }),
        r is None ==> spec_parse_decimal(s@) is None,
{
    let n = s.unicode_len();
    let mut i: usize = 0;
    let mut neg = false;
    if n > 0 {
        let c0 = s.get_char(0);
        if c0 == '+' || c0 == '-' {
            i = 1;
            neg = c0 == '-';
        }
    }
    let ghost body = s@.subrange(i as int, n as int);
    proof {
        assert(body =~= spec_decimal_body(s@));
    }
    let start = i;
    let mut value: i128 = 0;
    let mut count: usize = 0;
    let mut den: i128 = 1;
    let mut fcount: usize = 0;
    let mut has_dot = false;
    while i < n
        invariant
            start <= i <= n,
            n == s@.len(),
            body == spec_decimal_body(s@),
            neg == (s@.len() > 0 && s@[0] == '-'),
            !has_dot ==> fcount == 0,
            0 <= value,
            value < spec_pow10(count as nat),
            count <= 36,
            den == spec_pow10(fcount as nat),
            1 <= den <= 1000000000000000000000000000000000000,
            fcount <= count,
            scan_decimal(0, 0, None, body) == scan_decimal(
                value as int,
                count as nat,
                if has_dot {
                    Some(fcount as nat)
                } else {
                    None
                },
                s@.subrange(i as int, n as int),
            ),
        decreases n - i,
    {
        let ghost rest = s@.subrange(i as int, n as int);
        let ghost frac_state: Option<nat> = if has_dot {
            Some(fcount as nat)
        } else {
            None
        };
        proof {
            assert(rest.subrange(1, rest.len() as int) =~= s@.subrange(i + 1, n as int));
        }
        let c = s.get_char(i);
        proof {
            assert(rest[0] == c);
        }
        if c == '.' {
            if has_dot {
                proof {
                    assert(scan_decimal(value as int, count as nat, frac_state, rest) is None);
                }
                return None;
            }
            has_dot = true;
            proof {
                assert(scan_decimal(value as int, count as nat, frac_state, rest) == scan_decimal(
                    value as int,
                    count as nat,
                    Some(0),
                    s@.subrange(i + 1, n as int),
                ));
            }
        } else if '0' <= c && c <= '9' {
            if count == 36 {
                // too many digits for any accepted value: the scan keeps
                // counting, so the final count check would reject it too
                proof {
                    lemma_scan_count_grows(value as int, count as nat, frac_state, rest);
                    assert(spec_parse_decimal(s@) is None);
                }
                return None;
            }
            let d: i128 = (c as u32 - 48) as i128;
            let ghost old_value = value as int;
            let ghost old_count = count as nat;
            proof {
                lemma_pow10_mono(count as nat, 35);
                lemma_pow10_value_35();
                assert(spec_pow10(count as nat + 1) == 10 * spec_pow10(count as nat));
                assert(d == digit_val(c));
            }
            value = value * 10 + d;
            count = count + 1;
            if has_dot {
                proof {
                    lemma_pow10_mono(fcount as nat, 35);
                    lemma_pow10_value_35();
                    assert(spec_pow10(fcount as nat + 1) == 10 * spec_pow10(fcount as nat));
                }
                den = den * 10;
                fcount = fcount + 1;
            }
            proof {
                assert(scan_decimal(old_value, old_count, frac_state, rest) == scan_decimal(
                    value as int,
                    count as nat,
                    if has_dot {
                        Some(fcount as nat)
                    } else {
                        None
                    },
                    s@.subrange(i + 1, n as int),
                ));
            }
        } else {
            proof {
                assert(!is_digit(c));
                assert(scan_decimal(value as int, count as nat, frac_state, rest) is None);
            }
            return None;
        }
        i = i + 1;
    }
    proof {
        assert(s@.subrange(i as int, n as int) =~= Seq::<char>::empty());
    }
    if count == 0 {
        return None;
    }
    if count > 17 || fcount > 12 {
        return None;
    }
    proof {
        lemma_pow10_mono(count as nat, 17);
        lemma_pow10_mono(fcount as nat, 12);
        lemma_pow10_value_17_12();
    }
    let num: i128 = if neg {
        -value
    } else {
        value
    };
    Some(Rat { num, den })
}

} // verus!
