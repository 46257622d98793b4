//! Integer primitives: checked (overflow gives the failed outcome carrying
//! nil), saturating and wrapping arithmetic, and bit manipulation.

use vstd::prelude::*;
use crate::{V, ValueBase};
use crate::fun::util::{R, as_int, as_non_zero_int, as_positive_int, int_or_err_nil};

verus! {

/// The sign of an integer: -1, 0 or 1.
pub open spec fn sign(x: int) -> int {
    if x > 0 {
        1
    } else if x < 0 {
        -1
    } else {
        0
    }
}

/// The absolute value of an integer.
pub open spec fn abs_int(x: int) -> int {
    if x < 0 {
        -x
    } else {
        x
    }
}

/// Wrapping a value that is off the `i64` range by less than 2^64 takes one
/// step of 2^64.
proof fn lemma_wrap_near(x: int)
    requires
        -crate::fun::util::modulus64() <= x < crate::fun::util::modulus64(),
    ensures
        crate::fun::util::wrap64(x) == if x > i64::MAX {
            x - crate::fun::util::modulus64()
        } else if x < i64::MIN {
            x + crate::fun::util::modulus64()
        } else {
            x
        },
{
    let m = crate::fun::util::modulus64();
    if x >= 0 {
        vstd::arithmetic::div_mod::lemma_small_mod(x as nat, m as nat);
    } else {
        vstd::arithmetic::div_mod::lemma_small_mod((x + m) as nat, m as nat);
        vstd::arithmetic::div_mod::lemma_mod_add_multiples_vanish(x, m);
    }
}

/// The sign of an integer: -1, 0 or 1.
pub fn signum<SS: ValueBase, SA: ValueBase, DS: ValueBase, DA: ValueBase>(n: &V<SS, SA, DS, DA>) -> (r: R<SS, SA, DS, DA>)
    ensures
        crate::fun::util::on_int(*n, r, |x: int| Some(sign(x))),
{
    let a = match as_int(n) {
        Ok(a) => a,
        Err(e) => return Err(e),
    };
    Ok(V::Int(if a > 0 { 1 } else if a < 0 { -1 } else { 0 }))
}

/// Checked addition.
pub fn add<SS: ValueBase, SA: ValueBase, DS: ValueBase, DA: ValueBase>(n: &V<SS, SA, DS, DA>, m: &V<SS, SA, DS, DA>) -> (r: R<SS, SA, DS, DA>)
    ensures
        crate::fun::util::on_ints(*n, *m, r, |x: int, y: int| crate::fun::util::checked64(x + y)),
{
    let a = match as_int(n) {
        Ok(a) => a,
        Err(e) => return Err(e),
    };
    let b = match as_int(m) {
        Ok(b) => b,
        Err(e) => return Err(e),
    };
    int_or_err_nil(a.checked_add(b))
}

/// Checked subtraction.
pub fn sub<SS: ValueBase, SA: ValueBase, DS: ValueBase, DA: ValueBase>(n: &V<SS, SA, DS, DA>, m: &V<SS, SA, DS, DA>) -> (r: R<SS, SA, DS, DA>)
    ensures
        crate::fun::util::on_ints(*n, *m, r, |x: int, y: int| crate::fun::util::checked64(x - y)),
{
    let a = match as_int(n) {
        Ok(a) => a,
        Err(e) => return Err(e),
    };
    let b = match as_int(m) {
        Ok(b) => b,
        Err(e) => return Err(e),
    };
    int_or_err_nil(a.checked_sub(b))
}

/// Checked multiplication.
pub fn mul<SS: ValueBase, SA: ValueBase, DS: ValueBase, DA: ValueBase>(n: &V<SS, SA, DS, DA>, m: &V<SS, SA, DS, DA>) -> (r: R<SS, SA, DS, DA>)
    ensures
        crate::fun::util::on_ints(*n, *m, r, |x: int, y: int| crate::fun::util::checked64(x * y)),
{
    let a = match as_int(n) {
        Ok(a) => a,
        Err(e) => return Err(e),
    };
    let b = match as_int(m) {
        Ok(b) => b,
        Err(e) => return Err(e),
    };
    int_or_err_nil(a.checked_mul(b))
}

/// Checked Euclidean division; the divisor must not be zero.
pub fn div<SS: ValueBase, SA: ValueBase, DS: ValueBase, DA: ValueBase>(n: &V<SS, SA, DS, DA>, m: &V<SS, SA, DS, DA>) -> (r: R<SS, SA, DS, DA>)
    ensures
        crate::fun::util::on_int_divisor(*n, *m, r, |x: int, y: int| crate::fun::util::checked64(x / y)),
{
    let a = match as_int(n) {
        Ok(a) => a,
        Err(e) => return Err(e),
    };
    let b = match as_non_zero_int(m) {
        Ok(b) => b,
        Err(e) => return Err(e),
    };
    int_or_err_nil(a.checked_div_euclid(b))
}

/// Checked division rounding toward zero; the divisor must not be zero.
pub fn div_trunc<SS: ValueBase, SA: ValueBase, DS: ValueBase, DA: ValueBase>(n: &V<SS, SA, DS, DA>, m: &V<SS, SA, DS, DA>) -> (r: R<SS, SA, DS, DA>)
    ensures
        crate::fun::util::on_int_divisor(*n, *m, r, |x: int, y: int| crate::fun::util::checked64(crate::fun::util::trunc_div(x, y))),
{
    let a = match as_int(n) {
        Ok(a) => a,
        Err(e) => return Err(e),
    };
    let b = match as_non_zero_int(m) {
        Ok(b) => b,
        Err(e) => return Err(e),
    };
    int_or_err_nil(a.checked_div(b))
}

/// Checked Euclidean remainder (never negative); the divisor must not be zero.
/// Like the quotient, it overflows for the least integer and -1.
pub fn mod_<SS: ValueBase, SA: ValueBase, DS: ValueBase, DA: ValueBase>(n: &V<SS, SA, DS, DA>, m: &V<SS, SA, DS, DA>) -> (r: R<SS, SA, DS, DA>)
    ensures
        crate::fun::util::on_int_divisor(*n, *m, r, |x: int, y: int| if x == i64::MIN && y == -1 { None } else { Some(x % y) }),
{
    let a = match as_int(n) {
        Ok(a) => a,
        Err(e) => return Err(e),
    };
    let b = match as_non_zero_int(m) {
        Ok(b) => b,
        Err(e) => return Err(e),
    };
    int_or_err_nil(a.checked_rem_euclid(b))
}

/// Checked remainder of division rounding toward zero; the divisor must not
/// be zero. Like the quotient, it overflows for the least integer and -1.
pub fn mod_trunc<SS: ValueBase, SA: ValueBase, DS: ValueBase, DA: ValueBase>(n: &V<SS, SA, DS, DA>, m: &V<SS, SA, DS, DA>) -> (r: R<SS, SA, DS, DA>)
    ensures
        crate::fun::util::on_int_divisor(*n, *m, r, |x: int, y: int| if x == i64::MIN && y == -1 { None } else { Some(crate::fun::util::trunc_rem(x, y)) }),
{
    let a = match as_int(n) {
        Ok(a) => a,
        Err(e) => return Err(e),
    };
    let b = match as_non_zero_int(m) {
        Ok(b) => b,
        Err(e) => return Err(e),
    };
    proof {
        if !(a == i64::MIN && b == -1) {
            lemma_div_range(a as int, b as int);
        }
    }
    int_or_err_nil(a.checked_rem(b))
}

/// Checked negation.
pub fn neg<SS: ValueBase, SA: ValueBase, DS: ValueBase, DA: ValueBase>(n: &V<SS, SA, DS, DA>) -> (r: R<SS, SA, DS, DA>)
    ensures
        crate::fun::util::on_int(*n, r, |x: int| crate::fun::util::checked64(-x)),
{
    let a = match as_int(n) {
        Ok(a) => a,
        Err(e) => return Err(e),
    };
    int_or_err_nil(0i64.checked_sub(a))
}

/// Checked absolute value.
pub fn abs<SS: ValueBase, SA: ValueBase, DS: ValueBase, DA: ValueBase>(n: &V<SS, SA, DS, DA>) -> (r: R<SS, SA, DS, DA>)
    ensures
        crate::fun::util::on_int(*n, r, |x: int| crate::fun::util::checked64(abs_int(x))),
{
    let a = match as_int(n) {
        Ok(a) => a,
        Err(e) => return Err(e),
    };
    if a < 0 {
        int_or_err_nil(0i64.checked_sub(a))
    } else {
        Ok(V::Int(a))
    }
}

/// Saturating addition.
pub fn sat_add<SS: ValueBase, SA: ValueBase, DS: ValueBase, DA: ValueBase>(n: &V<SS, SA, DS, DA>, m: &V<SS, SA, DS, DA>) -> (r: R<SS, SA, DS, DA>)
    ensures
        crate::fun::util::on_ints(*n, *m, r, |x: int, y: int| Some(crate::fun::util::clamp64(x + y))),
{
    let a = match as_int(n) {
        Ok(a) => a,
        Err(e) => return Err(e),
    };
    let b = match as_int(m) {
        Ok(b) => b,
        Err(e) => return Err(e),
    };
    Ok(V::Int(match a.checked_add(b) {
        Some(x) => x,
        None => if b > 0 { i64::MAX } else { i64::MIN },
    }))
}

/// Saturating subtraction.
pub fn sat_sub<SS: ValueBase, SA: ValueBase, DS: ValueBase, DA: ValueBase>(n: &V<SS, SA, DS, DA>, m: &V<SS, SA, DS, DA>) -> (r: R<SS, SA, DS, DA>)
    ensures
        crate::fun::util::on_ints(*n, *m, r, |x: int, y: int| Some(crate::fun::util::clamp64(x - y))),
{
    let a = match as_int(n) {
        Ok(a) => a,
        Err(e) => return Err(e),
    };
    let b = match as_int(m) {
        Ok(b) => b,
        Err(e) => return Err(e),
    };
    Ok(V::Int(match a.checked_sub(b) {
        Some(x) => x,
        None => if b < 0 { i64::MAX } else { i64::MIN },
    }))
}

/// Saturating multiplication.
pub fn sat_mul<SS: ValueBase, SA: ValueBase, DS: ValueBase, DA: ValueBase>(n: &V<SS, SA, DS, DA>, m: &V<SS, SA, DS, DA>) -> (r: R<SS, SA, DS, DA>)
    ensures
        crate::fun::util::on_ints(*n, *m, r, |x: int, y: int| Some(crate::fun::util::clamp64(x * y))),
{
    let a = match as_int(n) {
        Ok(a) => a,
        Err(e) => return Err(e),
    };
    let b = match as_int(m) {
        Ok(b) => b,
        Err(e) => return Err(e),
    };
    Ok(V::Int(match a.checked_mul(b) {
        Some(x) => x,
        None => {
            proof {
                if (a < 0) == (b < 0) {
                    assert(a * b >= 0) by (nonlinear_arith)
                        requires (a < 0) == (b < 0);
                } else {
                    assert(a * b <= 0) by (nonlinear_arith)
                        requires (a < 0) != (b < 0);
                }
            }
            if (a < 0) == (b < 0) { i64::MAX } else { i64::MIN }
        },
    }))
}

/// Wrapping addition.
pub fn wrap_add<SS: ValueBase, SA: ValueBase, DS: ValueBase, DA: ValueBase>(n: &V<SS, SA, DS, DA>, m: &V<SS, SA, DS, DA>) -> (r: R<SS, SA, DS, DA>)
    ensures
        crate::fun::util::on_ints(*n, *m, r, |x: int, y: int| Some(crate::fun::util::wrap64(x + y))),
{
    let a = match as_int(n) {
        Ok(a) => a,
        Err(e) => return Err(e),
    };
    let b = match as_int(m) {
        Ok(b) => b,
        Err(e) => return Err(e),
    };
    proof {
        lemma_wrap_near(a + b);
    }
    Ok(V::Int(a.wrapping_add(b)))
}

/// Wrapping subtraction.
pub fn wrap_sub<SS: ValueBase, SA: ValueBase, DS: ValueBase, DA: ValueBase>(n: &V<SS, SA, DS, DA>, m: &V<SS, SA, DS, DA>) -> (r: R<SS, SA, DS, DA>)
    ensures
        crate::fun::util::on_ints(*n, *m, r, |x: int, y: int| Some(crate::fun::util::wrap64(x - y))),
{
    let a = match as_int(n) {
        Ok(a) => a,
        Err(e) => return Err(e),
    };
    let b = match as_int(m) {
        Ok(b) => b,
        Err(e) => return Err(e),
    };
    proof {
        lemma_wrap_near(a - b);
    }
    Ok(V::Int(a.wrapping_sub(b)))
}

/// Wrapping multiplication.
pub fn wrap_mul<SS: ValueBase, SA: ValueBase, DS: ValueBase, DA: ValueBase>(n: &V<SS, SA, DS, DA>, m: &V<SS, SA, DS, DA>) -> (r: R<SS, SA, DS, DA>)
    ensures
        crate::fun::util::on_ints(*n, *m, r, |x: int, y: int| Some(crate::fun::util::wrap64(x * y))),
{
    let a = match as_int(n) {
        Ok(a) => a,
        Err(e) => return Err(e),
    };
    let b = match as_int(m) {
        Ok(b) => b,
        Err(e) => return Err(e),
    };
    Ok(V::Int(a.wrapping_mul(b)))
}

/// Wrapping Euclidean division; the divisor must not be zero.
pub fn wrap_div<SS: ValueBase, SA: ValueBase, DS: ValueBase, DA: ValueBase>(n: &V<SS, SA, DS, DA>, m: &V<SS, SA, DS, DA>) -> (r: R<SS, SA, DS, DA>)
    ensures
        crate::fun::util::on_int_divisor(*n, *m, r, |x: int, y: int| Some(crate::fun::util::wrap64(x / y))),
{
    let a = match as_int(n) {
        Ok(a) => a,
        Err(e) => return Err(e),
    };
    let b = match as_non_zero_int(m) {
        Ok(b) => b,
        Err(e) => return Err(e),
    };
    if a == i64::MIN && b == -1 {
        proof {
            assert(a / b == 0x8000_0000_0000_0000) by (nonlinear_arith)
                requires a == i64::MIN, b == -1;
            lemma_wrap_near(a / b);
        }
        Ok(V::Int(i64::MIN))
    } else {
        match a.checked_div_euclid(b) {
            Some(q) => {
                proof {
                    lemma_wrap_near(q as int);
                }
                Ok(V::Int(q))
            },
            None => {
                proof {
                    lemma_div_range(a as int, b as int);
                }
                Ok(V::Int(0))
            },
        }
    }
}

/// Wrapping division rounding toward zero; the divisor must not be zero.
pub fn wrap_div_trunc<SS: ValueBase, SA: ValueBase, DS: ValueBase, DA: ValueBase>(n: &V<SS, SA, DS, DA>, m: &V<SS, SA, DS, DA>) -> (r: R<SS, SA, DS, DA>)
    ensures
        crate::fun::util::on_int_divisor(*n, *m, r, |x: int, y: int| Some(crate::fun::util::wrap64(crate::fun::util::trunc_div(x, y)))),
{
    let a = match as_int(n) {
        Ok(a) => a,
        Err(e) => return Err(e),
    };
    let b = match as_non_zero_int(m) {
        Ok(b) => b,
        Err(e) => return Err(e),
    };
    if a == i64::MIN && b == -1 {
        proof {
            assert((-a) / (-b) == 0x8000_0000_0000_0000) by (nonlinear_arith)
                requires a == i64::MIN, b == -1;
            lemma_wrap_near(crate::fun::util::trunc_div(a as int, b as int));
        }
        Ok(V::Int(i64::MIN))
    } else {
        match a.checked_div(b) {
            Some(q) => {
                proof {
                    lemma_wrap_near(q as int);
                }
                Ok(V::Int(q))
            },
            None => {
                proof {
                    lemma_div_range(a as int, b as int);
                }
                Ok(V::Int(0))
            },
        }
    }
}

/// Wrapping Euclidean remainder (never negative); the divisor must not be zero.
pub fn wrap_mod<SS: ValueBase, SA: ValueBase, DS: ValueBase, DA: ValueBase>(n: &V<SS, SA, DS, DA>, m: &V<SS, SA, DS, DA>) -> (r: R<SS, SA, DS, DA>)
    ensures
        crate::fun::util::on_int_divisor(*n, *m, r, |x: int, y: int| Some(x % y)),
{
    let a = match as_int(n) {
        Ok(a) => a,
        Err(e) => return Err(e),
    };
    let b = match as_non_zero_int(m) {
        Ok(b) => b,
        Err(e) => return Err(e),
    };
    if a == i64::MIN && b == -1 {
        Ok(V::Int(0))
    } else {
        match a.checked_rem_euclid(b) {
            Some(q) => Ok(V::Int(q)),
            None => {
                proof {
                    lemma_div_range(a as int, b as int);
                }
                Ok(V::Int(0))
            },
        }
    }
}

/// Wrapping remainder of division rounding toward zero; the divisor must not
/// be zero.
pub fn wrap_mod_trunc<SS: ValueBase, SA: ValueBase, DS: ValueBase, DA: ValueBase>(n: &V<SS, SA, DS, DA>, m: &V<SS, SA, DS, DA>) -> (r: R<SS, SA, DS, DA>)
    ensures
        crate::fun::util::on_int_divisor(*n, *m, r, |x: int, y: int| Some(crate::fun::util::trunc_rem(x, y))),
{
    let a = match as_int(n) {
        Ok(a) => a,
        Err(e) => return Err(e),
    };
    let b = match as_non_zero_int(m) {
        Ok(b) => b,
        Err(e) => return Err(e),
    };
    if a == i64::MIN && b == -1 {
        proof {
            assert((-a) % (-b) == 0) by (nonlinear_arith)
                requires a == i64::MIN, b == -1;
        }
        Ok(V::Int(0))
    } else {
        proof {
            lemma_div_range(a as int, b as int);
        }
        match a.checked_rem(b) {
            Some(q) => Ok(V::Int(q)),
            None => {
                proof {
                    lemma_div_range(a as int, b as int);
                }
                Ok(V::Int(0))
            },
        }
    }
}

/// Wrapping negation.
pub fn wrap_neg<SS: ValueBase, SA: ValueBase, DS: ValueBase, DA: ValueBase>(n: &V<SS, SA, DS, DA>) -> (r: R<SS, SA, DS, DA>)
    ensures
        crate::fun::util::on_int(*n, r, |x: int| Some(crate::fun::util::wrap64(-x))),
{
    let a = match as_int(n) {
        Ok(a) => a,
        Err(e) => return Err(e),
    };
    proof {
        lemma_wrap_near(-a);
    }
    Ok(V::Int(0i64.wrapping_sub(a)))
}

/// Wrapping absolute value.
pub fn wrap_abs<SS: ValueBase, SA: ValueBase, DS: ValueBase, DA: ValueBase>(n: &V<SS, SA, DS, DA>) -> (r: R<SS, SA, DS, DA>)
    ensures
        crate::fun::util::on_int(*n, r, |x: int| Some(crate::fun::util::wrap64(abs_int(x)))),
{
    let a = match as_int(n) {
        Ok(a) => a,
        Err(e) => return Err(e),
    };
    proof {
        lemma_wrap_near(abs_int(a as int));
    }
    if a < 0 {
        Ok(V::Int(0i64.wrapping_sub(a)))
    } else {
        Ok(V::Int(a))
    }
}

/// Quotients and remainders of `i64`s by a non-zero `i64` fit in an `i64`,
/// but for the least integer divided by -1.
proof fn lemma_div_range(a: int, b: int)
    requires
        i64::MIN <= a <= i64::MAX,
        i64::MIN <= b <= i64::MAX,
        b != 0,
        !(a == i64::MIN && b == -1),
    ensures
        i64::MIN <= a / b <= i64::MAX,
        i64::MIN <= crate::fun::util::trunc_div(a, b) <= i64::MAX,
        0 <= a % b < abs_int(b),
        abs_int(crate::fun::util::trunc_rem(a, b)) < abs_int(b),
        a == 0 ==> crate::fun::util::trunc_rem(a, b) == 0,
{
    if a == 0 {
        assert(0int % abs_int(b) == 0) by (nonlinear_arith)
            requires b != 0;
    }
    if a >= 0 && b > 0 {
        assert(0 <= a % b < b) by (nonlinear_arith)
            requires b > 0;
    } else if a >= 0 {
        assert(0 <= a % (-b) < -b) by (nonlinear_arith)
            requires -b > 0;
    } else if b > 0 {
        assert(0 <= (-a) % b < b) by (nonlinear_arith)
            requires b > 0;
    } else {
        assert(0 <= (-a) % (-b) < -b) by (nonlinear_arith)
            requires -b > 0;
    }
    assert(a == b * (a / b) + a % b && 0 <= a % b < abs_int(b)) by (nonlinear_arith)
        requires b != 0;
    let q = a / b;
    let r = a % b;
    if b > 0 {
        assert(i64::MIN <= q <= i64::MAX) by (nonlinear_arith)
            requires a == b * q + r, 0 <= r < b, i64::MIN <= a <= i64::MAX, b > 0;
    } else {
        assert(i64::MIN <= q <= i64::MAX) by (nonlinear_arith)
            requires a == b * q + r, 0 <= r < -b, i64::MIN <= a <= i64::MAX, b < 0, i64::MIN <= b,
                !(a == i64::MIN && b == -1);
    }
    let t = crate::fun::util::trunc_div(a, b);
    if a >= 0 && b > 0 {
    } else if a >= 0 {
        assert(0 <= a / (-b) <= a) by (nonlinear_arith)
            requires a >= 0, -b > 0;
    } else if b > 0 {
        assert(0 <= (-a) / b <= -a) by (nonlinear_arith)
            requires -a > 0, b > 0;
    } else {
        assert(0 <= (-a) / (-b) <= -a) by (nonlinear_arith)
            requires -a > 0, -b > 0;
        if b == -1 {
            assert((-a) / 1 == -a);
        } else {
            assert((-a) / (-b) <= (-a) / 2) by (nonlinear_arith)
                requires -a > 0, -b >= 2;
        }
    }
}

/// Powers of a base of magnitude at least two at least double with each
/// further step.
proof fn lemma_pow_grows(a: int, i: nat, j: nat)
    requires
        abs_int(a) >= 2,
        i < j,
    ensures
        abs_int(vstd::arithmetic::power::pow(a, j)) >= 2 * abs_int(vstd::arithmetic::power::pow(a, i)),
    decreases j,
{
    reveal(vstd::arithmetic::power::pow);
    let p = vstd::arithmetic::power::pow(a, (j - 1) as nat);
    assert(vstd::arithmetic::power::pow(a, j) == a * p);
    assert(abs_int(a * p) >= 2 * abs_int(p)) by (nonlinear_arith)
        requires abs_int(a) >= 2;
    if i < j - 1 {
        lemma_pow_grows(a, i, (j - 1) as nat);
    }
}

/// Powers of -1 alternate between 1 and -1.
proof fn lemma_pow_minus_one(e: nat)
    ensures
        vstd::arithmetic::power::pow(-1, e) == if e % 2 == 0 { 1int } else { -1int },
    decreases e,
{
    reveal(vstd::arithmetic::power::pow);
    if e > 0 {
        lemma_pow_minus_one((e - 1) as nat);
    }
}

/// The sign of a power: a negative base to an odd exponent gives a negative
/// power, any other non-zero base a positive one.
proof fn lemma_pow_sign(a: int, e: nat)
    requires
        a != 0,
    ensures
        (a < 0 && e % 2 == 1) ==> vstd::arithmetic::power::pow(a, e) < 0,
        !(a < 0 && e % 2 == 1) ==> vstd::arithmetic::power::pow(a, e) > 0,
{
    reveal(vstd::arithmetic::power::pow);
    if a > 0 {
        vstd::arithmetic::power::lemma_pow_positive(a, e);
    } else {
        vstd::arithmetic::power::lemma_pow_positive(-a, e);
        vstd::arithmetic::power::lemma_pow_distributes(-1, -a, e);
        lemma_pow_minus_one(e);
        let t = -1 * (-a);
        assert(t == a);
        assert(vstd::arithmetic::power::pow(t, e) == vstd::arithmetic::power::pow(a, e));
        let q = vstd::arithmetic::power::pow(-a, e);
        assert(vstd::arithmetic::power::pow(a, e) == vstd::arithmetic::power::pow(-1, e) * q);
        assert(q > 0);
        if e % 2 == 1 {
            assert(vstd::arithmetic::power::pow(-1, e) == -1);
            let s = vstd::arithmetic::power::pow(-1, e);
            let p = vstd::arithmetic::power::pow(a, e);
            assert(p == -q) by (nonlinear_arith)
                requires s == -1, p == s * q;
        } else {
            assert(vstd::arithmetic::power::pow(-1, e) == 1);
            assert(vstd::arithmetic::power::pow(a, e) == q);
        }
    }
}

/// The power `a` to the `e` where it fits in an `i64`, and none where it
/// does not.
fn checked_power(a: i64, e: i64) -> (r: Option<i64>)
    requires
        e >= 0,
    ensures
        match r {
            Some(v) => v == vstd::arithmetic::power::pow(a as int, e as nat),
            None => !crate::fun::util::in_i64(vstd::arithmetic::power::pow(a as int, e as nat)),
        },
{
    proof {
        reveal(vstd::arithmetic::power::pow);
    }
    if a == 0 || a == 1 {
        proof {
            if a == 0 {
                if e > 0 {
                    vstd::arithmetic::power::lemma0_pow(e as nat);
                }
            } else {
                vstd::arithmetic::power::lemma1_pow(e as nat);
            }
        }
        return Some(if e == 0 { 1 } else { a });
    }
    if a == -1 {
        proof {
            lemma_pow_minus_one(e as nat);
        }
        return Some(if e % 2 == 0 { 1 } else { -1 });
    }
    let mut acc: i64 = 1;
    let mut i: i64 = 0;
    while i < e
        invariant
            0 <= i <= e,
            abs_int(a as int) >= 2,
            acc == vstd::arithmetic::power::pow(a as int, i as nat),
        decreases e - i,
    {
        proof {
            reveal(vstd::arithmetic::power::pow);
        }
        match acc.checked_mul(a) {
            Some(x) => {
                acc = x;
            },
            None => {
                proof {
                    let next = vstd::arithmetic::power::pow(a as int, (i + 1) as nat);
                    assert(next == a * acc);
                    if i + 1 < e {
                        lemma_pow_grows(a as int, (i + 1) as nat, e as nat);
                    }
                }
                return None;
            },
        }
        i = i + 1;
    }
    Some(acc)
}

/// `wrap64` depends on the remainder modulo 2^64 alone, and keeps it.
proof fn lemma_wrap_mod(x: int)
    ensures
        crate::fun::util::wrap64(x) % crate::fun::util::modulus64() == x % crate::fun::util::modulus64(),
{
    let m = crate::fun::util::modulus64();
    let r = x % m;
    if r > i64::MAX {
        vstd::arithmetic::div_mod::lemma_mod_sub_multiples_vanish(r, m);
        vstd::arithmetic::div_mod::lemma_small_mod(r as nat, m as nat);
    } else {
        vstd::arithmetic::div_mod::lemma_small_mod(r as nat, m as nat);
    }
}

/// One step of exponentiation by squaring, modulo 2^64.
proof fn lemma_square_step(acc: int, base: int, k: nat)
    requires
        k > 0,
    ensures
        ({
            let m = crate::fun::util::modulus64();
            let acc2 = if k % 2 == 1 { crate::fun::util::wrap64(acc * base) } else { acc };
            let base2 = crate::fun::util::wrap64(base * base);
            (acc2 * vstd::arithmetic::power::pow(base2, k / 2)) % m == (acc * vstd::arithmetic::power::pow(base, k)) % m
        }),
{
    reveal(vstd::arithmetic::power::pow);
    let m = crate::fun::util::modulus64();
    let j = k / 2;
    let bb = base * base;
    let base2 = crate::fun::util::wrap64(bb);
    vstd::arithmetic::power::lemma_square_is_pow2(base);
    vstd::arithmetic::power::lemma_pow_multiplies(base, 2, j);
    assert(vstd::arithmetic::power::pow(bb, j) == vstd::arithmetic::power::pow(base, 2 * j));
    lemma_wrap_mod(bb);
    vstd::arithmetic::power::lemma_pow_mod_noop(base2, j, m);
    vstd::arithmetic::power::lemma_pow_mod_noop(bb, j, m);
    assert(vstd::arithmetic::power::pow(base2, j) % m == vstd::arithmetic::power::pow(bb, j) % m);
    if k % 2 == 1 {
        let ab = acc * base;
        let acc2 = crate::fun::util::wrap64(ab);
        lemma_wrap_mod(ab);
        vstd::arithmetic::power::lemma_pow_adds(base, 1, 2 * j);
        vstd::arithmetic::power::lemma_pow1(base);
        assert(vstd::arithmetic::power::pow(base, k) == base * vstd::arithmetic::power::pow(base, 2 * j));
        vstd::arithmetic::div_mod::lemma_mul_mod_noop(acc2, vstd::arithmetic::power::pow(base2, j), m);
        vstd::arithmetic::div_mod::lemma_mul_mod_noop(ab, vstd::arithmetic::power::pow(bb, j), m);
        assert(acc * vstd::arithmetic::power::pow(base, k) == ab * vstd::arithmetic::power::pow(bb, j)) by (nonlinear_arith)
            requires vstd::arithmetic::power::pow(base, k) == base * vstd::arithmetic::power::pow(bb, j), ab == acc * base;
    } else {
        assert(k == 2 * j);
        vstd::arithmetic::div_mod::lemma_mul_mod_noop(acc, vstd::arithmetic::power::pow(base2, j), m);
        vstd::arithmetic::div_mod::lemma_mul_mod_noop(acc, vstd::arithmetic::power::pow(bb, j), m);
    }
}

/// The power `a` to the `e`, wrapped into an `i64`.
fn wrapping_power(a: i64, e: i64) -> (r: i64)
    requires
        e >= 0,
    ensures
        r == crate::fun::util::wrap64(vstd::arithmetic::power::pow(a as int, e as nat)),
{
    let mut acc: i64 = 1;
    let mut base: i64 = a;
    let mut k: i64 = e;
    proof {
        vstd::arithmetic::power::lemma_pow1(a as int);
    }
    while k > 0
        invariant
            k >= 0,
            (acc * vstd::arithmetic::power::pow(base as int, k as nat)) % crate::fun::util::modulus64()
                == vstd::arithmetic::power::pow(a as int, e as nat) % crate::fun::util::modulus64(),
        decreases k,
    {
        proof {
            lemma_square_step(acc as int, base as int, k as nat);
        }
        if k % 2 == 1 {
            acc = acc.wrapping_mul(base);
        }
        base = base.wrapping_mul(base);
        k = k / 2;
    }
    proof {
        vstd::arithmetic::power::lemma_pow0(base as int);
        lemma_wrap_near(acc as int);
        lemma_wrap_mod(vstd::arithmetic::power::pow(a as int, e as nat));
    }
    acc
}

/// Checked power; the exponent must not be negative.
pub fn pow<SS: ValueBase, SA: ValueBase, DS: ValueBase, DA: ValueBase>(n: &V<SS, SA, DS, DA>, m: &V<SS, SA, DS, DA>) -> (r: R<SS, SA, DS, DA>)
    ensures
        crate::fun::util::on_int_count(*n, *m, r, |x: int, y: nat| crate::fun::util::checked64(vstd::arithmetic::power::pow(x, y))),
{
    let a = match as_int(n) {
        Ok(a) => a,
        Err(e) => return Err(e),
    };
    let b = match as_positive_int(m) {
        Ok(b) => b,
        Err(e) => return Err(e),
    };
    match checked_power(a, b) {
        Some(x) => Ok(V::Int(x)),
        None => Ok(V::err_nil()),
    }
}

/// Saturating power; the exponent must not be negative.
pub fn sat_pow<SS: ValueBase, SA: ValueBase, DS: ValueBase, DA: ValueBase>(n: &V<SS, SA, DS, DA>, m: &V<SS, SA, DS, DA>) -> (r: R<SS, SA, DS, DA>)
    ensures
        crate::fun::util::on_int_count(*n, *m, r, |x: int, y: nat| Some(crate::fun::util::clamp64(vstd::arithmetic::power::pow(x, y)))),
{
    let a = match as_int(n) {
        Ok(a) => a,
        Err(e) => return Err(e),
    };
    let b = match as_positive_int(m) {
        Ok(b) => b,
        Err(e) => return Err(e),
    };
    match checked_power(a, b) {
        Some(x) => Ok(V::Int(x)),
        None => {
            proof {
                reveal(vstd::arithmetic::power::pow);
                if a == 0 {
                    if b > 0 {
                        vstd::arithmetic::power::lemma0_pow(b as nat);
                    }
                } else {
                    lemma_pow_sign(a as int, b as nat);
                }
            }
            if a < 0 && b % 2 == 1 {
                Ok(V::Int(i64::MIN))
            } else {
                Ok(V::Int(i64::MAX))
            }
        },
    }
}

/// Wrapping power; the exponent must not be negative.
pub fn wrap_pow<SS: ValueBase, SA: ValueBase, DS: ValueBase, DA: ValueBase>(n: &V<SS, SA, DS, DA>, m: &V<SS, SA, DS, DA>) -> (r: R<SS, SA, DS, DA>)
    ensures
        crate::fun::util::on_int_count(*n, *m, r, |x: int, y: nat| Some(crate::fun::util::wrap64(vstd::arithmetic::power::pow(x, y)))),
{
    let a = match as_int(n) {
        Ok(a) => a,
        Err(e) => return Err(e),
    };
    let b = match as_positive_int(m) {
        Ok(b) => b,
        Err(e) => return Err(e),
    };
    Ok(V::Int(wrapping_power(a, b)))
}

/// The number of set bits among the lowest `n` bits of `x`.
pub open spec fn count_ones_below(x: nat, n: nat) -> nat
    decreases n,
{
    if n == 0 {
        0
    } else {
        x % 2 + count_ones_below(x / 2, (n - 1) as nat)
    }
}

/// The lowest `count` digits of `x` in base `base`, in reverse order,
/// appended to the digits of `acc`.
pub open spec fn reverse_digits(x: nat, base: nat, count: nat, acc: nat) -> nat
    decreases count,
{
    if count == 0 {
        acc
    } else {
        reverse_digits(x / base, base, (count - 1) as nat, acc * base + x % base)
    }
}

/// The bits of `x` rotated left by `k` places.
pub open spec fn rotate_left_spec(x: u64, k: nat) -> u64 {
    if k % 64 == 0 {
        x
    } else {
        (x << ((k % 64) as u64)) | (x >> ((64 - k % 64) as u64))
    }
}

/// The bits of `x` rotated right by `k` places.
pub open spec fn rotate_right_spec(x: u64, k: nat) -> u64 {
    if k % 64 == 0 {
        x
    } else {
        (x >> ((k % 64) as u64)) | (x << ((64 - k % 64) as u64))
    }
}

/// The number of set bits in a 64-bit word.
fn count_ones_u64(x: u64) -> (r: u64)
    ensures
        r == count_ones_below(x as nat, 64),
        r <= 64,
{
    let mut y: u64 = x;
    let mut c: u64 = 0;
    let mut i: u64 = 0;
    while i < 64
        invariant
            i <= 64,
            c <= i,
            c + count_ones_below(y as nat, (64 - i) as nat) == count_ones_below(x as nat, 64),
        decreases 64 - i,
    {
        c = c + y % 2;
        y = y / 2;
        i = i + 1;
    }
    c
}

/// The lowest `count` digits of `x` in base `base`, reversed.
fn reverse_digits_u64(x: u64, base: u64, count: u64) -> (r: u64)
    requires
        2 <= base,
        reverse_digits_fit(base as nat, count as nat),
    ensures
        r == reverse_digits(x as nat, base as nat, count as nat, 0),
{
    let mut y: u64 = x;
    let mut acc: u64 = 0;
    let mut i: u64 = 0;
    proof {
        reveal(vstd::arithmetic::power::pow);
    }
    while i < count
        invariant
            2 <= base,
            i <= count,
            reverse_digits_fit(base as nat, count as nat),
            acc < vstd::arithmetic::power::pow(base as int, i as nat),
            reverse_digits(y as nat, base as nat, (count - i) as nat, acc as nat)
                == reverse_digits(x as nat, base as nat, count as nat, 0),
        decreases count - i,
    {
        proof {
            reveal(vstd::arithmetic::power::pow);
            let p = vstd::arithmetic::power::pow(base as int, i as nat);
            let q = vstd::arithmetic::power::pow(base as int, (i + 1) as nat);
            assert(q == base * p);
            vstd::arithmetic::power::lemma_pow_increases(base as nat, (i + 1) as nat, count as nat);
            assert(acc * base + y % base < q) by (nonlinear_arith)
                requires acc < p, y % base < base, base >= 2, q == base * p;
            assert(acc * base + y % base <= u64::MAX);
        }
        acc = acc * base + y % base;
        y = y / base;
        i = i + 1;
    }
    acc
}

/// Whether `count` digits in base `base` fit in a `u64`.
pub open spec fn reverse_digits_fit(base: nat, count: nat) -> bool {
    vstd::arithmetic::power::pow(base as int, count) <= u64::MAX + 1
}

/// The number of set bits.
pub fn bit_count_ones<SS: ValueBase, SA: ValueBase, DS: ValueBase, DA: ValueBase>(n: &V<SS, SA, DS, DA>) -> (r: R<SS, SA, DS, DA>)
    ensures
        crate::fun::util::on_int(*n, r, |x: int| Some(count_ones_below((x as u64) as nat, 64) as int)),
{
    let a = match as_int(n) {
        Ok(a) => a,
        Err(e) => return Err(e),
    };
    let c = count_ones_u64(a as u64);
    Ok(V::Int(c as i64))
}

/// The number of clear bits.
pub fn bit_count_zeros<SS: ValueBase, SA: ValueBase, DS: ValueBase, DA: ValueBase>(n: &V<SS, SA, DS, DA>) -> (r: R<SS, SA, DS, DA>)
    ensures
        crate::fun::util::on_int(*n, r, |x: int| Some(64 - count_ones_below((x as u64) as nat, 64))),
{
    let a = match as_int(n) {
        Ok(a) => a,
        Err(e) => return Err(e),
    };
    let c = count_ones_u64(a as u64);
    Ok(V::Int(64 - c as i64))
}

/// The number of set bits above the highest clear bit.
pub fn bit_leading_ones<SS: ValueBase, SA: ValueBase, DS: ValueBase, DA: ValueBase>(n: &V<SS, SA, DS, DA>) -> (r: R<SS, SA, DS, DA>)
    ensures
        crate::fun::util::on_int(*n, r, |x: int| Some(vstd::std_specs::bits::u64_leading_ones(x as u64) as int)),
{
    let a = match as_int(n) {
        Ok(a) => a,
        Err(e) => return Err(e),
    };
    Ok(V::Int((a as u64).leading_ones() as i64))
}

/// The number of clear bits above the highest set bit.
pub fn bit_leading_zeros<SS: ValueBase, SA: ValueBase, DS: ValueBase, DA: ValueBase>(n: &V<SS, SA, DS, DA>) -> (r: R<SS, SA, DS, DA>)
    ensures
        crate::fun::util::on_int(*n, r, |x: int| Some(vstd::std_specs::bits::u64_leading_zeros(x as u64))),
{
    let a = match as_int(n) {
        Ok(a) => a,
        Err(e) => return Err(e),
    };
    let z = (a as u64).leading_zeros();
    Ok(V::Int(z as i64))
}

/// The number of set bits below the lowest clear bit.
pub fn bit_trailing_ones<SS: ValueBase, SA: ValueBase, DS: ValueBase, DA: ValueBase>(n: &V<SS, SA, DS, DA>) -> (r: R<SS, SA, DS, DA>)
    ensures
        crate::fun::util::on_int(*n, r, |x: int| Some(vstd::std_specs::bits::u64_trailing_ones(x as u64) as int)),
{
    let a = match as_int(n) {
        Ok(a) => a,
        Err(e) => return Err(e),
    };
    Ok(V::Int((a as u64).trailing_ones() as i64))
}

/// The number of clear bits below the lowest set bit.
pub fn bit_trailing_zeros<SS: ValueBase, SA: ValueBase, DS: ValueBase, DA: ValueBase>(n: &V<SS, SA, DS, DA>) -> (r: R<SS, SA, DS, DA>)
    ensures
        crate::fun::util::on_int(*n, r, |x: int| Some(vstd::std_specs::bits::u64_trailing_zeros(x as u64) as int)),
{
    let a = match as_int(n) {
        Ok(a) => a,
        Err(e) => return Err(e),
    };
    Ok(V::Int((a as u64).trailing_zeros() as i64))
}

/// The bits rotated left; the count must not be negative.
pub fn bit_rotate_left<SS: ValueBase, SA: ValueBase, DS: ValueBase, DA: ValueBase>(n: &V<SS, SA, DS, DA>, m: &V<SS, SA, DS, DA>) -> (r: R<SS, SA, DS, DA>)
    ensures
        crate::fun::util::on_int_count(*n, *m, r, |x: int, y: nat| Some((rotate_left_spec(x as u64, y) as i64) as int)),
{
    let a = match as_int(n) {
        Ok(a) => a,
        Err(e) => return Err(e),
    };
    let b = match as_positive_int(m) {
        Ok(b) => b,
        Err(e) => return Err(e),
    };
    let x = a as u64;
    let k = (b % 64) as u64;
    let r = if k == 0 { x } else { (x << k) | (x >> (64 - k)) };
    Ok(V::Int(r as i64))
}

/// The bits rotated right; the count must not be negative.
pub fn bit_rotate_right<SS: ValueBase, SA: ValueBase, DS: ValueBase, DA: ValueBase>(n: &V<SS, SA, DS, DA>, m: &V<SS, SA, DS, DA>) -> (r: R<SS, SA, DS, DA>)
    ensures
        crate::fun::util::on_int_count(*n, *m, r, |x: int, y: nat| Some((rotate_right_spec(x as u64, y) as i64) as int)),
{
    let a = match as_int(n) {
        Ok(a) => a,
        Err(e) => return Err(e),
    };
    let b = match as_positive_int(m) {
        Ok(b) => b,
        Err(e) => return Err(e),
    };
    let x = a as u64;
    let k = (b % 64) as u64;
    let r = if k == 0 { x } else { (x >> k) | (x << (64 - k)) };
    Ok(V::Int(r as i64))
}

/// The bytes in reverse order.
pub fn bit_reverse_bytes<SS: ValueBase, SA: ValueBase, DS: ValueBase, DA: ValueBase>(n: &V<SS, SA, DS, DA>) -> (r: R<SS, SA, DS, DA>)
    ensures
        crate::fun::util::on_int(*n, r, |x: int| Some((reverse_digits((x as u64) as nat, 256, 8, 0) as u64 as i64) as int)),
{
    let a = match as_int(n) {
        Ok(a) => a,
        Err(e) => return Err(e),
    };
    proof {
        lemma_two_to_the_64();
        vstd::arithmetic::power::lemma_pow_multiplies(2, 8, 8);
    }
    let r = reverse_digits_u64(a as u64, 256, 8);
    Ok(V::Int(r as i64))
}

/// The bits in reverse order.
pub fn bit_reverse_bits<SS: ValueBase, SA: ValueBase, DS: ValueBase, DA: ValueBase>(n: &V<SS, SA, DS, DA>) -> (r: R<SS, SA, DS, DA>)
    ensures
        crate::fun::util::on_int(*n, r, |x: int| Some((reverse_digits((x as u64) as nat, 2, 64, 0) as u64 as i64) as int)),
{
    let a = match as_int(n) {
        Ok(a) => a,
        Err(e) => return Err(e),
    };
    proof {
        lemma_two_to_the_64();
    }
    let r = reverse_digits_u64(a as u64, 2, 64);
    Ok(V::Int(r as i64))
}

/// Shifts the bits left, filling with zeros; a count of 64 or more gives
/// zero.
pub fn bit_shl<SS: ValueBase, SA: ValueBase, DS: ValueBase, DA: ValueBase>(n: &V<SS, SA, DS, DA>, m: &V<SS, SA, DS, DA>) -> (r: R<SS, SA, DS, DA>)
    ensures
        crate::fun::util::on_int_count(*n, *m, r, |x: int, y: nat| Some(if y >= 64 { 0 } else { ((x as i64) << (y as u64)) as int })),
{
    let a = match as_int(n) {
        Ok(a) => a,
        Err(e) => return Err(e),
    };
    let b = match as_positive_int(m) {
        Ok(b) => b,
        Err(e) => return Err(e),
    };
    if b >= 64 {
        Ok(V::Int(0))
    } else {
        Ok(V::Int(a << (b as u64)))
    }
}

/// Shifts the bits right, keeping the sign; a count of 64 or more gives
/// zero.
pub fn bit_shr<SS: ValueBase, SA: ValueBase, DS: ValueBase, DA: ValueBase>(n: &V<SS, SA, DS, DA>, m: &V<SS, SA, DS, DA>) -> (r: R<SS, SA, DS, DA>)
    ensures
        crate::fun::util::on_int_count(*n, *m, r, |x: int, y: nat| Some(if y >= 64 { 0 } else { ((x as i64) >> (y as u64)) as int })),
{
    let a = match as_int(n) {
        Ok(a) => a,
        Err(e) => return Err(e),
    };
    let b = match as_positive_int(m) {
        Ok(b) => b,
        Err(e) => return Err(e),
    };
    if b >= 64 {
        Ok(V::Int(0))
    } else {
        Ok(V::Int(a >> (b as u64)))
    }
}

/// 2 to the 8 is 256, and 2 to the 64 is one past the largest `u64`.
proof fn lemma_two_to_the_64()
    ensures
        vstd::arithmetic::power::pow(2, 8) == 256,
        vstd::arithmetic::power::pow(2, 64) == u64::MAX + 1,
{
    vstd::arithmetic::power2::lemma2_to64();
    vstd::arithmetic::power2::lemma2_to64_rest();
    vstd::arithmetic::power2::lemma_pow2(8);
    vstd::arithmetic::power2::lemma_pow2(64);
}

} // verus!
