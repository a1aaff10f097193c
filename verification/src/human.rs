use vstd::prelude::*;

verus! {

use vstd::arithmetic::div_mod::lemma_div_denominator;
use vstd::string::StringExecFns;
use crate::digits::{spec_digits, digits_string};
use crate::fixed::{spec_fixed, format_fixed};
use crate::rational::Rat;

/// Bytes as megabytes: the exact rational num_bytes / (1024 * 1024).
pub fn bytes_to_mb(num_bytes: u64) -> (r: Rat)
    ensures
        r@.num == num_bytes as int,
        r@.den == 1048576,
        r.wf(),
{
    Rat { num: num_bytes as i128, den: 1048576 }
}

/// How many powers of 1024 the human-readable byte display divides out:
/// as many as it takes to push the magnitude under 1024, but at most
/// five, since petabytes are the largest unit.
pub open spec fn byte_unit_index(n: nat) -> nat {
    if n < 1024 {
        0
    } else if n < 1048576 {
        1
    } else if n < 1073741824 {
        2
    } else if n < 1099511627776 {
        3
    } else if n < 1125899906842624 {
        4
    } else {
        5
    }
}

/// 1024 to the power of a byte unit index.
pub open spec fn byte_unit_divisor(idx: nat) -> int {
    if idx == 0 {
        1
    } else if idx == 1 {
        1024
    } else if idx == 2 {
        1048576
    } else if idx == 3 {
        1073741824
    } else if idx == 4 {
        1099511627776
    } else {
        1125899906842624
    }
}

/// The suffix of a byte unit index.
pub open spec fn byte_unit_suffix(idx: nat) -> Seq<char> {
    if idx == 0 {
        seq!['B']
    } else if idx == 1 {
        seq!['K', 'B']
    } else if idx == 2 {
        seq!['M', 'B']
    } else if idx == 3 {
        seq!['G', 'B']
    } else if idx == 4 {
        seq!['T', 'B']
    } else {
        seq!['P', 'B']
    }
}

/// The human-readable byte display: the count scaled down by the chosen
/// power of 1024, shown with two decimal places, a space, and the unit.
pub open spec fn spec_bytes_readable(n: nat) -> Seq<char> {
    spec_fixed(n as int, byte_unit_divisor(byte_unit_index(n)), 2) + seq![' ']
        + byte_unit_suffix(byte_unit_index(n))
}

/// The suffix string of a byte unit index.
fn byte_suffix_str(idx: usize) -> (s: &'static str)
    requires
        idx <= 5,
    ensures
        s@ == byte_unit_suffix(idx as nat),
{
    proof {
        reveal_strlit("B");
        reveal_strlit("KB");
        reveal_strlit("MB");
        reveal_strlit("GB");
        reveal_strlit("TB");
        reveal_strlit("PB");
        assert("B"@ =~= byte_unit_suffix(0));
        assert("KB"@ =~= byte_unit_suffix(1));
        assert("MB"@ =~= byte_unit_suffix(2));
        assert("GB"@ =~= byte_unit_suffix(3));
        assert("TB"@ =~= byte_unit_suffix(4));
        assert("PB"@ =~= byte_unit_suffix(5));
    }
    match idx {
        0 => "B",
        1 => "KB",
        2 => "MB",
        3 => "GB",
        4 => "TB",
        _ => "PB",
    }
}

/// Scale a byte count through B, KB, MB, GB, TB, PB, dividing by 1024
/// while the magnitude is at least 1024 and a larger unit remains, and
/// show the result with two decimals and the unit's suffix.
pub fn bytes_to_human_readable(num_bytes: u64) -> (s: String)
    ensures
        s@ == spec_bytes_readable(num_bytes as nat),
{
    let mut divisor: u64 = 1;
    let mut idx: usize = 0;
    while num_bytes >= divisor * 1024 && idx < 5
        invariant
            idx <= 5,
            divisor == byte_unit_divisor(idx as nat),
            idx > 0 ==> num_bytes >= divisor,
        decreases 5 - idx,
    {
        divisor = divisor * 1024;
        idx = idx + 1;
    }
    proof {
        assert(idx as nat == byte_unit_index(num_bytes as nat));
    }
    let scaled = Rat { num: num_bytes as i128, den: divisor as i128 };
    let body = format_fixed(&scaled, 2);
    let out = body.concat(" ").concat(byte_suffix_str(idx));
    proof {
        reveal_strlit(" ");
        assert(out@ =~= spec_bytes_readable(num_bytes as nat));
    }
    out
}

/// Append a component to a space-separated list.
pub open spec fn with_part(acc: Seq<char>, part: Seq<char>) -> Seq<char> {
    if acc.len() == 0 {
        acc + part
    } else {
        acc + seq![' '] + part
    }
}

/// The human-readable time display: days, hours, minutes and seconds in
/// descending order, each with its suffix, only nonzero components shown,
/// except that the seconds always appear when everything else is zero.
pub open spec fn spec_seconds_readable(total: nat) -> Seq<char> {
    let d = total / 86400;
    let h = (total / 3600) % 24;
    let m = (total / 60) % 60;
    let s = total % 60;
    let p1 = if d > 0 {
        spec_digits(d) + seq!['d']
    } else {
        Seq::empty()
    };
    let p2 = if h > 0 {
        with_part(p1, spec_digits(h) + seq!['h'])
    } else {
        p1
    };
    let p3 = if m > 0 {
        with_part(p2, spec_digits(m) + seq!['m'])
    } else {
        p2
    };
    if s > 0 || p3.len() == 0 {
        with_part(p3, spec_digits(s) + seq!['s'])
    } else {
        p3
    }
}

/// Decompose a seconds count into days, hours, minutes and seconds
/// (60 s/min, 60 min/h, 24 h/day) and print the nonzero components in
/// descending order, space separated; a bare zero prints as "0s".
pub fn seconds_to_human_readable(seconds: u64) -> (out: String)
    ensures
        out@ == spec_seconds_readable(seconds as nat),
{
    let total_m = seconds / 60;
    let s = seconds % 60;
    let total_h = total_m / 60;
    let m = total_m % 60;
    let d = total_h / 24;
    let h = total_h % 24;
    proof {
        reveal_strlit("d");
        reveal_strlit("h");
        reveal_strlit("m");
        reveal_strlit("s");
        reveal_strlit(" ");
        lemma_div_denominator(seconds as int, 60, 60);
        lemma_div_denominator(seconds as int, 3600, 24);
        assert(total_h as int == seconds as int / 3600);
        assert(d as int == seconds as int / 86400);
    }
    let mut out = String::new();
    let mut empty = true;
    if d > 0 {
        out = out.concat(digits_string(d as i128).as_str());
        out = out.concat("d");
        empty = false;
    }
    let ghost p1 = if d > 0 {
        spec_digits(d as nat) + seq!['d']
    } else {
        Seq::<char>::empty()
    };
    proof {
        assert(out@ =~= p1);
    }
    if h > 0 {
        if !empty {
            out = out.concat(" ");
        }
        out = out.concat(digits_string(h as i128).as_str());
        out = out.concat("h");
        empty = false;
    }
    let ghost p2 = if h > 0 {
        with_part(p1, spec_digits(h as nat) + seq!['h'])
    } else {
        p1
    };
    proof {
        assert(out@ =~= p2);
    }
    if m > 0 {
        if !empty {
            out = out.concat(" ");
        }
        out = out.concat(digits_string(m as i128).as_str());
        out = out.concat("m");
        empty = false;
    }
    let ghost p3 = if m > 0 {
        with_part(p2, spec_digits(m as nat) + seq!['m'])
    } else {
        p2
    };
    proof {
        assert(out@ =~= p3);
    }
    if s > 0 || empty {
        if !empty {
            out = out.concat(" ");
        }
        out = out.concat(digits_string(s as i128).as_str());
        out = out.concat("s");
    }
    proof {
        assert(out@ =~= spec_seconds_readable(seconds as nat));
    }
    out
}

} // verus!
