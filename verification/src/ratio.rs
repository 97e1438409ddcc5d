//! A product over a divisor, rounded down, without the product having to fit.

use vstd::arithmetic::div_mod::lemma_fundamental_div_mod_converse;
use vstd::prelude::*;

verus! {

/// A quotient whose multiple stays within a number is within that number's
/// quotient.
proof fn quotient_bounds(q: int, x: int, d: int, r: int)
    requires
        0 < d,
        0 <= r,
        q * d + r <= x,
    ensures
        q <= x / d,
{
    assert(q <= x / d) by (nonlinear_arith)
        requires
            0 < d,
            q * d <= x,
    ;
}

/// `a` times `b` over `c`, rounded down.
pub open spec fn scaled(a: int, b: int, c: int) -> int {
    a * b / c
}

/// `a * b / c`, rounded down, for numbers that are not negative: `None` where
/// the quotient does not fit, whether or not the product does.
///
/// The product is built up from the bits of `a`, lowest first, as a quotient
/// and a remainder by `c`, so that nothing larger than twice the divisor or
/// the quotient itself is ever held.
pub fn mul_div(a: i128, b: i128, c: i128) -> (q: Option<i128>)
    requires
        0 <= a,
        0 <= b,
        0 < c,
    ensures
        q is Some <==> scaled(a as int, b as int, c as int) <= i128::MAX,
        q matches Some(v) ==> v == scaled(a as int, b as int, c as int),
{
    let cap: u128 = i128::MAX as u128;
    let by: u128 = c as u128;
    // what is done of `a` so far, times `b`, as quotient and remainder
    let mut quot: u128 = 0;
    let mut rest: u128 = 0;
    // the weight of the next bit of `a`, times `b`, as quotient and remainder
    let mut term_quot: u128 = b as u128 / by;
    let mut term_rest: u128 = b as u128 % by;
    let mut left: u128 = a as u128;
    let ghost mut unit: int = 1;
    let ghost mut done: int = 0;
    proof {
        assert(a * b >= 0) by (nonlinear_arith)
            requires
                0 <= a,
                0 <= b,
        ;
        assert(1 * b == term_quot * c + term_rest) by (nonlinear_arith)
            requires
                0 < c,
                b == c * term_quot + term_rest,
        ;
    }
    while left > 0
        invariant
            by == c,
            cap == i128::MAX,
            0 <= a,
            0 <= b,
            0 < c,
            1 <= unit,
            0 <= done,
            a == left * unit + done,
            done * b == quot * c + rest,
            rest < c,
            quot <= cap,
            left > 0 ==> unit * b == term_quot * c + term_rest && term_rest < c && term_quot <= cap,
        decreases left,
    {
        let ghost half: int = (left / 2) as int;
        if left % 2 == 1 {
            let sum: u128 = rest + term_rest;
            let carry: u128 = if sum >= by { 1 } else { 0 };
            let next: u128 = quot + term_quot + carry;
            proof {
                assert((done + unit) * b == next * c + (sum - carry * c)) by (nonlinear_arith)
                    requires
                        done * b == quot * c + rest,
                        unit * b == term_quot * c + term_rest,
                        next == quot + term_quot + carry,
                        sum == rest + term_rest,
                ;
                assert(a == half * (2 * unit) + (done + unit)) by (nonlinear_arith)
                    requires
                        a == left * unit + done,
                        left == 2 * half + 1,
                ;
                assert((done + unit) * b <= a * b) by (nonlinear_arith)
                    requires
                        a == half * (2 * unit) + (done + unit),
                        0 <= half,
                        1 <= unit,
                        0 <= b,
                ;
                quotient_bounds(next as int, a * b, c as int, sum - carry * c);
            }
            if next > cap {
                return None;
            }
            quot = next;
            rest = sum - carry * by;
            proof {
                done = done + unit;
            }
        } else {
            proof {
                assert(a == half * (2 * unit) + done) by (nonlinear_arith)
                    requires
                        a == left * unit + done,
                        left == 2 * half,
                ;
            }
        }
        left = left / 2;
        if left > 0 {
            let twice: u128 = term_rest + term_rest;
            let carry: u128 = if twice >= by { 1 } else { 0 };
            let next: u128 = term_quot + term_quot + carry;
            proof {
                assert((2 * unit) * b == next * c + (twice - carry * c)) by (nonlinear_arith)
                    requires
                        unit * b == term_quot * c + term_rest,
                        next == term_quot + term_quot + carry,
                        twice == term_rest + term_rest,
                ;
                assert((2 * unit) * b <= a * b) by (nonlinear_arith)
                    requires
                        a == left * (2 * unit) + done,
                        1 <= left,
                        1 <= unit,
                        0 <= done,
                        0 <= b,
                ;
                quotient_bounds(next as int, a * b, c as int, twice - carry * c);
            }
            if next > cap {
                return None;
            }
            term_quot = next;
            term_rest = twice - carry * by;
        }
        proof {
            unit = 2 * unit;
        }
    }
    proof {
        assert(a * b == quot * c + rest) by (nonlinear_arith)
            requires
                done * b == quot * c + rest,
                a == left * unit + done,
                left == 0,
        ;
        lemma_fundamental_div_mod_converse(a * b, c as int, quot as int, rest as int);
    }
    Some(quot as i128)
}

} // verus!
