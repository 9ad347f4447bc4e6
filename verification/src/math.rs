//! Exact arithmetic on products that do not fit one machine word: a 128-bit
//! factor times a 64-bit factor, divided by a 128-bit divisor.

use vstd::prelude::*;
use vstd::arithmetic::div_mod::lemma_div_is_ordered;
use vstd::arithmetic::div_mod::lemma_fundamental_div_mod_converse;

verus! {

/// One in Q64.64 fixed point.
pub const Q64: u128 = 18446744073709551616;

/// `a * b / d`, rounded down.
pub open spec fn spec_mul_div_floor(a: u128, b: u64, d: u128) -> int {
    (a as int * b as int) / (d as int)
}

/// `a * b / d`, rounded up.
pub open spec fn spec_mul_div_ceil(a: u128, b: u64, d: u128) -> int {
    if (a as int * b as int) % (d as int) == 0 {
        (a as int * b as int) / (d as int)
    } else {
        (a as int * b as int) / (d as int) + 1
    }
}

proof fn lemma_halves(a: int, b: int, h: int, bit: int)
    by (nonlinear_arith)
    requires
        b == 2 * h + bit,
    ensures
        a * b == 2 * (a * h) + bit * a,
{
}

proof fn lemma_recombine(d: int, q: int, r: int, qa: int, ra: int, bit: int, c: int)
    by (nonlinear_arith)
    ensures
        (2 * q + bit * qa + c) * d + (2 * r + bit * ra - c * d) == 2 * (q * d + r) + bit * (qa * d
            + ra),
{
}

proof fn lemma_product_grows(a: int, h: int, b: int)
    by (nonlinear_arith)
    requires
        0 <= a,
        0 <= h <= b,
    ensures
        a * h <= a * b,
{
}

/// Quotient and remainder of `a * b` by `d`, or `None` where the quotient does
/// not fit 128 bits. Works bit by bit on `b`, so that no intermediate value
/// leaves 128 bits.
pub fn mul_div_rem(a: u128, b: u64, d: u128) -> (res: Option<(u128, u128)>)
    requires
        d > 0,
    ensures
        match res {
            Some((q, r)) => q == (a as int * b as int) / (d as int) && r == (a as int * b as int)
                % (d as int),
            None => (a as int * b as int) / (d as int) > u128::MAX,
        },
    decreases b,
{
    if b == 0 {
        assert(0int / (d as int) == 0 && 0int % (d as int) == 0) by {
            lemma_fundamental_div_mod_converse(0, d as int, 0, 0);
        }
        return Some((0, 0));
    }
    let half: u64 = b / 2;
    let bit: u64 = b % 2;
    let ghost prod = a as int * b as int;
    let ghost prod_half = a as int * half as int;
    proof {
        lemma_halves(a as int, b as int, half as int, bit as int);
    }
    match mul_div_rem(a, half, d) {
        None => {
            proof {
                lemma_product_grows(a as int, half as int, b as int);
                lemma_div_is_ordered(prod_half, prod, d as int);
            }
            None
        },
        Some((q, r)) => {
            let qa: u128 = a / d;
            let ra: u128 = a % d;
            proof {
                vstd::arithmetic::div_mod::lemma_fundamental_div_mod(prod_half, d as int);
                vstd::arithmetic::div_mod::lemma_fundamental_div_mod(a as int, d as int);
                assert(prod_half == q * d + r) by (nonlinear_arith)
                    requires
                        prod_half == d * q + r,
                ;
                assert(a == qa * d + ra) by (nonlinear_arith)
                    requires
                        a == d * qa + ra,
                ;
            }
            // twice the remainder, reduced below d
            let (c1, r2): (u128, u128) = if r >= d - r {
                (1, r - (d - r))
            } else {
                (0, r + r)
            };
            // plus the remainder of a, where the low bit of b is set
            let (c2, r3): (u128, u128) = if bit == 1 {
                if r2 >= d - ra {
                    (1, r2 - (d - ra))
                } else {
                    (0, r2 + ra)
                }
            } else {
                (0, r2)
            };
            let ghost quot: int = 2 * q + bit * qa + c1 + c2;
            proof {
                assert(bit * qa == if bit == 1 { qa as int } else { 0 }) by (nonlinear_arith)
                    requires
                        bit == 0 || bit == 1,
                ;
                assert(bit * ra == if bit == 1 { ra as int } else { 0 }) by (nonlinear_arith)
                    requires
                        bit == 0 || bit == 1,
                ;
                assert(r3 == 2 * r + bit * ra - (c1 + c2) * d) by (nonlinear_arith)
                    requires
                        r2 == 2 * r - c1 * d,
                        r3 == r2 + bit * ra - c2 * d,
                ;
                lemma_recombine(
                    d as int,
                    q as int,
                    r as int,
                    qa as int,
                    ra as int,
                    bit as int,
                    (c1 + c2) as int,
                );
                assert(prod == quot * d + r3);
                lemma_fundamental_div_mod_converse(prod, d as int, quot, r3 as int);
            }
            let add_a: u128 = if bit == 1 {
                qa
            } else {
                0
            };
            let s1 = match q.checked_add(q) {
                Some(v) => v,
                None => {
                    return None;
                },
            };
            let s2 = match s1.checked_add(add_a) {
                Some(v) => v,
                None => {
                    return None;
                },
            };
            let s3 = match s2.checked_add(c1 + c2) {
                Some(v) => v,
                None => {
                    return None;
                },
            };
            Some((s3, r3))
        },
    }
}

/// `a * b / d` rounded down; `None` where `d` is zero or the result does not
/// fit 128 bits.
pub fn mul_div_floor(a: u128, b: u64, d: u128) -> (res: Option<u128>)
    ensures
        res == if d == 0 || spec_mul_div_floor(a, b, d) > u128::MAX {
            None
        } else {
            Some(spec_mul_div_floor(a, b, d) as u128)
        },
{
    if d == 0 {
        return None;
    }
    match mul_div_rem(a, b, d) {
        Some((q, _)) => Some(q),
        None => None,
    }
}

/// `a * b / d` rounded up; `None` where `d` is zero or the result does not
/// fit 128 bits.
pub fn mul_div_ceil(a: u128, b: u64, d: u128) -> (res: Option<u128>)
    ensures
        res == if d == 0 || spec_mul_div_ceil(a, b, d) > u128::MAX {
            None
        } else {
            Some(spec_mul_div_ceil(a, b, d) as u128)
        },
{
    if d == 0 {
        return None;
    }
    match mul_div_rem(a, b, d) {
        Some((q, r)) => if r == 0 {
            Some(q)
        } else {
            q.checked_add(1)
        },
        None => None,
    }
}

} // verus!
