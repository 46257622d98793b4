//! Float primitives that need no floating-point arithmetic: conversions
//! between floats, integers and bit patterns, read off the binary64 layout.

use vstd::prelude::*;
use crate::{V, ValueBase};
use crate::float::{PavoFloat, SIGN_BIT};
use crate::fun::CoreFailure;
use crate::fun::util::{R, as_float, as_int};

verus! {

/// 2^52: one past the largest fraction field.
pub const FRACTION_LIMIT: u64 = 0x10_0000_0000_0000;

/// The biased exponent field of a pattern.
pub open spec fn exponent_field(b: u64) -> int {
    crate::float::magnitude(b) / (FRACTION_LIMIT as int)
}

/// The fraction field of a pattern.
pub open spec fn fraction_field(b: u64) -> int {
    crate::float::magnitude(b) % (FRACTION_LIMIT as int)
}

/// The magnitude of the value of a finite pattern, rounded toward zero to an
/// integer: the significand (with its hidden bit for normal numbers) scaled
/// by two to the unbiased exponent. Subnormal numbers are below one.
pub open spec fn truncated_magnitude(b: u64) -> int {
    let e = exponent_field(b);
    let s = FRACTION_LIMIT as int + fraction_field(b);
    if e == 0 {
        0
    } else if e >= 1075 {
        s * (vstd::arithmetic::power2::pow2((e - 1075) as nat) as int)
    } else {
        s / (vstd::arithmetic::power2::pow2((1075 - e) as nat) as int)
    }
}

/// The integer a pattern's value rounds to toward zero, where it is not NaN
/// and lies strictly between -2^63 and 2^63; none otherwise.
pub open spec fn to_int_spec(b: u64) -> Option<int> {
    if exponent_field(b) >= 1086 {
        None
    } else if crate::float::sign_negative(b) {
        Some(-truncated_magnitude(b))
    } else {
        Some(truncated_magnitude(b))
    }
}

/// Two to the `k`, for `k` below 64.
fn power_of_two(k: u64) -> (r: u64)
    requires
        k < 64,
    ensures
        r as int == vstd::arithmetic::power2::pow2(k as nat),
{
    let mut p: u64 = 1;
    let mut i: u64 = 0;
    proof {
        vstd::arithmetic::power2::lemma2_to64();
    }
    while i < k
        invariant
            i <= k < 64,
            p as int == vstd::arithmetic::power2::pow2(i as nat),
        decreases k - i,
    {
        proof {
            vstd::arithmetic::power2::lemma_pow2_unfold((i + 1) as nat);
            vstd::arithmetic::power2::lemma_pow2_strictly_increases((i + 1) as nat, 64);
            vstd::arithmetic::power2::lemma2_to64_rest();
        }
        p = p * 2;
        i = i + 1;
    }
    p
}

/// The float rounded toward zero to an integer, as a successful outcome;
/// the failed outcome carrying a copy of the argument where it is NaN, an
/// infinity, or not strictly between -2^63 and 2^63.
pub fn to_int<SS: ValueBase, SA: ValueBase, DS: ValueBase, DA: ValueBase>(
    x: &V<SS, SA, DS, DA>,
) -> (r: R<SS, SA, DS, DA>)
    ensures
        match *x {
            V::Float(f) => match to_int_spec(f.0) {
                Some(n) => r == Ok::<V<SS, SA, DS, DA>, CoreFailure<V<SS, SA, DS, DA>>>(V::Int(n as i64))
                    && i64::MIN < n < i64::MAX + 1,
                None => r matches Ok(e) && e is Array && e->Array_0@.len() == 2
                    && crate::is_string(e->Array_0@[0], "err"@) && crate::same(*x, e->Array_0@[1]),
            },
            _ => crate::fun::util::fails_not_float(r, *x),
        },
{
    let f = match as_float(x) {
        Ok(f) => f,
        Err(e) => return Err(e),
    };
    let mag = f.0 % SIGN_BIT;
    let e = mag / FRACTION_LIMIT;
    if e >= 1086 {
        return Ok(V::err(x.copy()));
    }
    let s = FRACTION_LIMIT + mag % FRACTION_LIMIT;
    let t: u64 = if e == 0 {
        0
    } else if e >= 1075 {
        let p = power_of_two(e - 1075);
        proof {
            vstd::arithmetic::power2::lemma_pow2_strictly_increases((e - 1075) as nat, 11);
            vstd::arithmetic::power2::lemma2_to64();
            assert(s * p < 0x8000_0000_0000_0000) by (nonlinear_arith)
                requires s < 2 * FRACTION_LIMIT, p <= 0x400;
        }
        s * p
    } else if 1075 - e >= 64 {
        proof {
            vstd::arithmetic::power2::lemma_pow2_strictly_increases(53, (1075 - e) as nat);
            vstd::arithmetic::power2::lemma2_to64();
            vstd::arithmetic::power2::lemma2_to64_rest();
            assert(s as int / (vstd::arithmetic::power2::pow2((1075 - e) as nat) as int) == 0) by (nonlinear_arith)
                requires 0 <= s < vstd::arithmetic::power2::pow2(53), vstd::arithmetic::power2::pow2(53) < vstd::arithmetic::power2::pow2((1075 - e) as nat);
        }
        0
    } else {
        let p = power_of_two(1075 - e);
        proof {
            vstd::arithmetic::power2::lemma_pow2_pos((1075 - e) as nat);
            assert(s / p <= s) by (nonlinear_arith)
                requires p >= 1;
        }
        s / p
    };
    proof {
        assert(t < 0x8000_0000_0000_0000);
    }
    if f.0 >= SIGN_BIT {
        Ok(V::Int(-(t as i64)))
    } else {
        Ok(V::Int(t as i64))
    }
}

/// The float's bit pattern as an integer; every NaN gives -1.
pub fn to_bits<SS: ValueBase, SA: ValueBase, DS: ValueBase, DA: ValueBase>(
    x: &V<SS, SA, DS, DA>,
) -> (r: R<SS, SA, DS, DA>)
    ensures
        match *x {
            V::Float(f) => r == Ok::<V<SS, SA, DS, DA>, CoreFailure<V<SS, SA, DS, DA>>>(V::Int(
                if crate::float::is_nan(f.0) { -1i64 } else { f.0 as i64 },
            )),
            _ => crate::fun::util::fails_not_float(r, *x),
        },
{
    let f = match as_float(x) {
        Ok(f) => f,
        Err(e) => return Err(e),
    };
    if f.is_nan() {
        Ok(V::Int(-1))
    } else {
        Ok(V::Int(f.0 as i64))
    }
}

/// The float whose bit pattern is the integer's two's-complement bits.
pub fn from_bits<SS: ValueBase, SA: ValueBase, DS: ValueBase, DA: ValueBase>(
    n: &V<SS, SA, DS, DA>,
) -> (r: R<SS, SA, DS, DA>)
    ensures
        match *n {
            V::Int(a) => r == Ok::<V<SS, SA, DS, DA>, CoreFailure<V<SS, SA, DS, DA>>>(V::Float(PavoFloat(a as u64))),
            _ => crate::fun::util::fails_not_int(r, *n),
        },
{
    let a = match as_int(n) {
        Ok(a) => a,
        Err(e) => return Err(e),
    };
    Ok(V::Float(PavoFloat(a as u64)))
}

/// The number of binary digits of `x`: zero for zero.
pub open spec fn bit_length(x: nat) -> nat
    decreases x,
{
    if x == 0 {
        0
    } else {
        1 + bit_length(x / 2)
    }
}

/// A positive number lies between two to one less than its bit length and
/// two to its bit length.
proof fn lemma_bit_length(x: nat)
    requires
        x > 0,
    ensures
        vstd::arithmetic::power2::pow2((bit_length(x) - 1) as nat) <= x,
        x < vstd::arithmetic::power2::pow2(bit_length(x)),
    decreases x,
{
    let b = bit_length(x);
    let h = x / 2;
    assert(b == 1 + bit_length(h));
    vstd::arithmetic::power2::lemma_pow2_unfold(b);
    if h > 0 {
        lemma_bit_length(h);
        vstd::arithmetic::power2::lemma_pow2_unfold((b - 1) as nat);
        let lo = vstd::arithmetic::power2::pow2((b - 2) as nat);
        let hi = vstd::arithmetic::power2::pow2((b - 1) as nat);
        assert(lo <= h < hi);
        assert(2 * h <= x <= 2 * h + 1);
    } else {
        assert(bit_length(0) == 0);
        assert(x == 1);
        vstd::arithmetic::power2::lemma2_to64();
    }
}

/// The significand (53 bits, hidden bit included) and bit length of the
/// binary64 value nearest to `a`, which has `l` bits; halfway cases go to
/// the even significand, and rounding up to 2^53 moves to the next length.
pub open spec fn rounded_significand(a: nat, l: nat) -> (nat, nat) {
    if l <= 53 {
        (a * vstd::arithmetic::power2::pow2((53 - l) as nat), l)
    } else {
        let k = (l - 53) as nat;
        let q = a / vstd::arithmetic::power2::pow2(k);
        let rem = a % vstd::arithmetic::power2::pow2(k);
        let half = vstd::arithmetic::power2::pow2((k - 1) as nat);
        let up = rem > half || (rem == half && q % 2 == 1);
        let q2 = if up { q + 1 } else { q };
        if q2 == vstd::arithmetic::power2::pow2(53) {
            (vstd::arithmetic::power2::pow2(52), l + 1)
        } else {
            (q2, l)
        }
    }
}

/// The binary64 pattern nearest to the integer `n`, ties to even; zero
/// gives +0.0.
pub open spec fn from_int_spec(n: int) -> int {
    if n == 0 {
        0
    } else {
        let a = if n < 0 { -n } else { n };
        let l = bit_length(a as nat);
        let (sig, e) = rounded_significand(a as nat, l);
        let bits = (e + 1022) * (FRACTION_LIMIT as int) + (sig - FRACTION_LIMIT as int);
        if n < 0 {
            bits + SIGN_BIT as int
        } else {
            bits
        }
    }
}

/// The number of binary digits of `x`.
fn bit_length_u64(x: u64) -> (r: u64)
    ensures
        r == bit_length(x as nat),
        r <= 64,
{
    let mut y: u64 = x;
    let mut l: u64 = 0;
    proof {
        if x > 0 {
            lemma_bit_length(x as nat);
            vstd::arithmetic::power2::lemma2_to64();
            vstd::arithmetic::power2::lemma2_to64_rest();
            if bit_length(x as nat) > 64 {
                vstd::arithmetic::power2::lemma_pow2_strictly_increases(64, (bit_length(x as nat) - 1) as nat);
            }
        }
    }
    while y > 0
        invariant
            l + bit_length(y as nat) == bit_length(x as nat),
            bit_length(x as nat) <= 64,
        decreases y,
    {
        y = y / 2;
        l = l + 1;
    }
    l
}

/// The float nearest to the integer, halfway cases to the even significand.
pub fn from_int<SS: ValueBase, SA: ValueBase, DS: ValueBase, DA: ValueBase>(
    n: &V<SS, SA, DS, DA>,
) -> (r: R<SS, SA, DS, DA>)
    ensures
        match *n {
            V::Int(a) => r == Ok::<V<SS, SA, DS, DA>, CoreFailure<V<SS, SA, DS, DA>>>(
                V::Float(PavoFloat(from_int_spec(a as int) as u64)),
            ),
            _ => crate::fun::util::fails_not_int(r, *n),
        },
{
    let v = match as_int(n) {
        Ok(v) => v,
        Err(e) => return Err(e),
    };
    if v == 0 {
        return Ok(V::Float(PavoFloat(0)));
    }
    let a: u64 = if v < 0 { (0 - (v as i128)) as u64 } else { v as u64 };
    let l = bit_length_u64(a);
    proof {
        lemma_bit_length(a as nat);
        vstd::arithmetic::power2::lemma2_to64();
        vstd::arithmetic::power2::lemma2_to64_rest();
    }
    let (sig, e): (u64, u64) = if l <= 53 {
        let p = power_of_two(53 - l);
        proof {
            vstd::arithmetic::power2::lemma_pow2_adds((l - 1) as nat, (53 - l) as nat);
            vstd::arithmetic::power2::lemma_pow2_adds(l as nat, (53 - l) as nat);
            let lo = vstd::arithmetic::power2::pow2((l - 1) as nat) as int;
            let hi = vstd::arithmetic::power2::pow2(l as nat) as int;
            assert(lo * p <= a * p < hi * p) by (nonlinear_arith)
                requires lo <= a < hi, p > 0;
        }
        (a * p, l)
    } else {
        let k = l - 53;
        let p = power_of_two(k);
        let q = a / p;
        let rem = a % p;
        let half = p / 2;
        proof {
            vstd::arithmetic::power2::lemma_pow2_unfold(k as nat);
            vstd::arithmetic::power2::lemma_pow2_adds(52, k as nat);
            vstd::arithmetic::power2::lemma_pow2_adds(53, k as nat);
            let lo = vstd::arithmetic::power2::pow2(52) as int;
            let hi = vstd::arithmetic::power2::pow2(53) as int;
            assert(lo <= q < hi) by (nonlinear_arith)
                requires lo * p <= a < hi * p, p > 0, q == a / p;
        }
        let up = rem > half || (rem == half && q % 2 == 1);
        let q2 = if up { q + 1 } else { q };
        if q2 == FRACTION_LIMIT * 2 {
            (FRACTION_LIMIT, l + 1)
        } else {
            (q2, l)
        }
    };
    let bits = (e + 1022) * FRACTION_LIMIT + (sig - FRACTION_LIMIT);
    if v < 0 {
        Ok(V::Float(PavoFloat(bits + SIGN_BIT)))
    } else {
        Ok(V::Float(PavoFloat(bits)))
    }
}

} // verus!
