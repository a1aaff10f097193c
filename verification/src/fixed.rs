use vstd::prelude::*;

verus! {

use vstd::arithmetic::div_mod::{
    lemma_fundamental_div_mod,
    lemma_fundamental_div_mod_converse,
    lemma_mod_multiples_vanish,
    lemma_div_is_ordered_by_denominator,
};
use vstd::string::StringExecFns;
use crate::digits::{spec_digits, spec_padded, spec_pow10, digits_string, padded_string, pow10};
use crate::rational::Rat;

/// Largest denominator the fixed-point formatter accepts: it scales the
/// remainder by at most ten thousand, which must not overflow.
pub open spec fn fits_fixed_den(den: int) -> bool {
    0 < den <= i128::MAX as int / 10000
}

/// The integer nearest to a / b, ties going to the even neighbour, for
/// a >= 0 and b > 0 (the rule used when a decimal is cut to a fixed
/// number of places).
pub open spec fn round_half_even(a: int, b: int) -> int {
    let q = a / b;
    let r = a % b;
    if 2 * r < b {
        q
    } else if 2 * r > b {
        q + 1
    } else if q % 2 == 0 {
        q
    } else {
        q + 1
    }
}

/// The text of the rational num / den with exactly `d` decimal places:
/// optional minus sign, the whole part without leading zeros, a dot, and
/// `d` fraction digits, the magnitude rounded half-to-even at the last
/// place.
pub open spec fn spec_fixed(num: int, den: int, d: nat) -> Seq<char> {
    let mag = if num < 0 {
        -num
    } else {
        num
    };
    let total = round_half_even(mag * spec_pow10(d), den);
    let body = spec_digits((total / spec_pow10(d)) as nat) + seq!['.'] + spec_padded(
        (total % spec_pow10(d)) as nat,
        d,
    );
    if num < 0 {
        seq!['-'] + body
    } else {
        body
    }
}

/// Render a rational with exactly `d` decimal places, rounding the
/// magnitude half-to-even at the last place.
pub fn format_fixed(v: &Rat, d: usize) -> (s: String)
    requires
        v.wf(),
        1 <= d <= 4,
        v.num > i128::MIN,
        fits_fixed_den(v.den as int),
    ensures
        s@ == spec_fixed(v@.num, v@.den, d as nat),
{
    let p = pow10(d);
    let neg = v.num < 0;
    let mag: i128 = if neg {
        -v.num
    } else {
        v.num
    };
    let q = mag / v.den;
    let r = mag % v.den;
    proof {
        lemma_fundamental_div_mod(mag as int, v.den as int);
        assert(r * p <= i128::MAX) by (nonlinear_arith)
            requires
                0 <= r,
                r < v.den,
                v.den <= i128::MAX / 10000,
                1 <= p <= 10000,
        ;
    }
    let t = r * p;
    let dq = t / v.den;
    let r2 = t % v.den;
    proof {
        lemma_fundamental_div_mod(t as int, v.den as int);
        assert(t <= (v.den - 1) * p) by (nonlinear_arith)
            requires
                t == r * p,
                0 <= r,
                r <= v.den - 1,
                p >= 1,
        ;
        // dq stays below p, so dq + 1 cannot overflow
        assert(dq < p) by (nonlinear_arith)
            requires
                0 <= t,
                t <= (v.den - 1) * p,
                v.den >= 1,
                p >= 1,
                t == v.den * dq + r2,
                0 <= r2 < v.den,
        ;
    }
    let rounded: i128 = if 2 * r2 > v.den {
        dq + 1
    } else if 2 * r2 < v.den {
        dq
    } else if dq % 2 == 0 {
        dq
    } else {
        dq + 1
    };
    let mut whole = q;
    let mut frac = rounded;
    if rounded == p {
        proof {
            // the fraction only carries when a remainder existed, so the
            // denominator is at least 2 and the whole part has headroom
            assert(r2 < v.den);
            assert(v.den >= 2);
            lemma_div_is_ordered_by_denominator(mag as int, 2, v.den as int);
        }
        whole = q + 1;
        frac = 0;
    }
    // relate the two division steps to the rounding of mag * p by den
    proof {
        let m = mag as int;
        let dn = v.den as int;
        let pp = p as int;
        assert(m * pp == (q * pp + dq) * dn + r2) by (nonlinear_arith)
            requires
                m == dn * q + r,
                t == r * pp,
                t == dn * dq + r2,
        ;
        lemma_fundamental_div_mod_converse(m * pp, dn, q * pp + dq, r2 as int);
        // the parity test on dq decides the tie, since q * p is even
        assert(pp % 2 == 0);
        assert((q * pp + dq) % 2 == dq % 2) by {
            assert(q * pp == 2 * (q * (pp / 2))) by (nonlinear_arith)
                requires
                    pp % 2 == 0,
                    pp == 2 * (pp / 2),
            ;
            lemma_mod_multiples_vanish(q * (pp / 2), dq as int, 2);
        }
        assert(round_half_even(m * pp, dn) == q * pp + rounded);
        // split the rounded total back into whole and fraction digits
        if rounded == p {
            assert(q * pp + rounded == (q + 1) * pp + 0) by (nonlinear_arith)
                requires
                    rounded == pp,
            ;
            lemma_fundamental_div_mod_converse(q * pp + rounded, pp, q as int + 1, 0);
        } else {
            lemma_fundamental_div_mod_converse(q * pp + rounded, pp, q as int, rounded as int);
        }
        assert(whole == round_half_even(m * pp, dn) / pp);
        assert(frac == round_half_even(m * pp, dn) % pp);
    }
    let whole_str = digits_string(whole);
    let frac_str = padded_string(frac, d);
    let mut out = String::new();
    if neg {
        out = out.concat("-");
    }
    out = out.concat(whole_str.as_str());
    out = out.concat(".");
    out = out.concat(frac_str.as_str());
    proof {
        reveal_strlit("-");
        reveal_strlit(".");
        assert(out@ =~= spec_fixed(v@.num, v@.den, d as nat));
    }
    out
}

} // verus!
