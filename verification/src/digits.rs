use vstd::prelude::*;

verus! {

use vstd::string::StringExecFns;

/// The character for one decimal digit value.
pub open spec fn digit_char(d: int) -> char {
    if d == 0 {
        '0'
    } else if d == 1 {
        '1'
    } else if d == 2 {
        '2'
    } else if d == 3 {
        '3'
    } else if d == 4 {
        '4'
    } else if d == 5 {
        '5'
    } else if d == 6 {
        '6'
    } else if d == 7 {
        '7'
    } else if d == 8 {
        '8'
    } else {
        '9'
    }
}

/// The decimal digits of a nonnegative integer, most significant first,
/// with no leading zeros (a single `'0'` for zero).
pub open spec fn spec_digits(n: nat) -> Seq<char>
    decreases n,
{
    if n < 10 {
        seq![digit_char(n as int)]
    } else {
        spec_digits(n / 10).push(digit_char((n % 10) as int))
    }
}

/// The low `width` decimal digits of a nonnegative integer, zero padded
/// on the left to exactly `width` characters.
pub open spec fn spec_padded(n: nat, width: nat) -> Seq<char>
    decreases width,
{
    if width == 0 {
        Seq::empty()
    } else {
        spec_padded(n / 10, (width - 1) as nat).push(digit_char((n % 10) as int))
    }
}

/// Powers of ten.
pub open spec fn spec_pow10(e: nat) -> int
    decreases e,
{
    if e == 0 {
        1
    } else {
        10 * spec_pow10((e - 1) as nat)
    }
}

/// The single-character string for one decimal digit value.
fn digit_str(d: i128) -> (s: &'static str)
    requires
        0 <= d < 10,
    ensures
        s@.len() == 1,
        s@[0] == digit_char(d as int),
{
    proof {
        reveal_strlit("0");
        reveal_strlit("1");
        reveal_strlit("2");
        reveal_strlit("3");
        reveal_strlit("4");
        reveal_strlit("5");
        reveal_strlit("6");
        reveal_strlit("7");
        reveal_strlit("8");
        reveal_strlit("9");
    }
    match d {
        0 => "0",
        1 => "1",
        2 => "2",
        3 => "3",
        4 => "4",
        5 => "5",
        6 => "6",
        7 => "7",
        8 => "8",
        _ => "9",
    }
}

/// Render a nonnegative integer in decimal, most significant digit first.
pub fn digits_string(n: i128) -> (s: String)
    requires
        n >= 0,
    ensures
        s@ == spec_digits(n as nat),
    decreases n,
{
    if n < 10 {
        let s = String::from_str(digit_str(n));
        proof {
            assert(s@ =~= spec_digits(n as nat));
        }
        s
    } else {
        let high = digits_string(n / 10);
        let s = high.concat(digit_str(n % 10));
        proof {
            assert(s@ =~= spec_digits(n as nat));
        }
        s
    }
}

/// Render the low `width` decimal digits of a nonnegative integer,
/// zero padded to exactly `width` characters.
pub fn padded_string(n: i128, width: usize) -> (s: String)
    requires
        n >= 0,
    ensures
        s@ == spec_padded(n as nat, width as nat),
    decreases width,
{
    if width == 0 {
        let s = String::new();
        proof {
            assert(s@ =~= spec_padded(n as nat, 0));
        }
        s
    } else {
        let high = padded_string(n / 10, width - 1);
        let s = high.concat(digit_str(n % 10));
        proof {
            assert(s@ =~= spec_padded(n as nat, width as nat));
        }
        s
    }
}

/// Ten to a small power, for fixed-point scaling.
pub fn pow10(e: usize) -> (r: i128)
    requires
        e <= 4,
    ensures
        r == spec_pow10(e as nat),
        1 <= r <= 10000,
{
    proof {
        reveal_with_fuel(spec_pow10, 5);
        assert(spec_pow10(0) == 1 && spec_pow10(1) == 10 && spec_pow10(2) == 100 && spec_pow10(3)
            == 1000 && spec_pow10(4) == 10000);
    }
    match e {
        0 => 1,
        1 => 10,
        2 => 100,
        3 => 1000,
        _ => 10000,
    }
}

} // verus!
