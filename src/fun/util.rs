//! Reading the arguments of primitives, and the shapes of their outcomes.

use vstd::prelude::*;
use crate::{V, ValueBase, ValueBaseOrdered};
use crate::float::PavoFloat;
use crate::fun::CoreFailure;

verus! {

/// The outcome of a primitive: a value, or the failure that stopped it.
pub type R<SS, SA, DS, DA> = Result<V<SS, SA, DS, DA>, CoreFailure<V<SS, SA, DS, DA>>>;

/// 2^64, the number of 64-bit patterns.
pub open spec fn modulus64() -> int {
    0x1_0000_0000_0000_0000
}

/// Whether an integer fits in an `i64`.
pub open spec fn in_i64(x: int) -> bool {
    i64::MIN <= x <= i64::MAX
}

/// The `i64` that is congruent to `x` modulo 2^64.
pub open spec fn wrap64(x: int) -> int {
    if x % modulus64() > i64::MAX {
        x % modulus64() - modulus64()
    } else {
        x % modulus64()
    }
}

/// `x` clamped into the `i64` range.
pub open spec fn clamp64(x: int) -> int {
    if x > i64::MAX {
        i64::MAX as int
    } else if x < i64::MIN {
        i64::MIN as int
    } else {
        x
    }
}

/// `x` where it fits in an `i64`, and none otherwise.
pub open spec fn checked64(x: int) -> Option<int> {
    if in_i64(x) {
        Some(x)
    } else {
        None
    }
}

/// Division rounding toward zero.
pub open spec fn trunc_div(x: int, d: int) -> int {
    if x >= 0 && d > 0 {
        x / d
    } else if x >= 0 {
        -(x / -d)
    } else if d > 0 {
        -((-x) / d)
    } else {
        (-x) / (-d)
    }
}

/// The remainder of division rounding toward zero; it has the sign of `x`.
pub open spec fn trunc_rem(x: int, d: int) -> int {
    if x >= 0 && d > 0 {
        x % d
    } else if x >= 0 {
        x % (-d)
    } else if d > 0 {
        -((-x) % d)
    } else {
        -((-x) % (-d))
    }
}

/// Whether `r` is the failure `NotBool` carrying a copy of `v`.
pub open spec fn fails_not_bool<SS, SA, DS, DA>(r: R<SS, SA, DS, DA>, v: V<SS, SA, DS, DA>) -> bool {
    r matches Err(CoreFailure::NotBool(w)) && crate::same(v, w)
}

/// Whether `r` is the failure `NotInt` carrying a copy of `v`.
pub open spec fn fails_not_int<SS, SA, DS, DA>(r: R<SS, SA, DS, DA>, v: V<SS, SA, DS, DA>) -> bool {
    r matches Err(CoreFailure::NotInt(w)) && crate::same(v, w)
}

/// Whether `r` is the failure `NotFloat` carrying a copy of `v`.
pub open spec fn fails_not_float<SS, SA, DS, DA>(r: R<SS, SA, DS, DA>, v: V<SS, SA, DS, DA>) -> bool {
    r matches Err(CoreFailure::NotFloat(w)) && crate::same(v, w)
}

/// Whether `r` is the integer `x` where there is one, and the failed
/// outcome carrying nil where there is none.
pub open spec fn int_outcome<SS, SA, DS, DA>(r: R<SS, SA, DS, DA>, x: Option<int>) -> bool {
    match x {
        Some(n) => in_i64(n) && r == Ok::<V<SS, SA, DS, DA>, CoreFailure<V<SS, SA, DS, DA>>>(V::Int(n as i64)),
        None => r matches Ok(e) && crate::is_err(e, V::<SS, SA, DS, DA>::Nil),
    }
}

/// What a primitive over one integer owes: `NotInt` on anything else, and
/// otherwise the outcome `f` gives.
pub open spec fn on_int<SS, SA, DS, DA>(
    n: V<SS, SA, DS, DA>,
    r: R<SS, SA, DS, DA>,
    f: spec_fn(int) -> Option<int>,
) -> bool {
    match n {
        V::Int(a) => int_outcome(r, f(a as int)),
        _ => fails_not_int(r, n),
    }
}

/// What a primitive over two integers owes: `NotInt` on the first argument
/// that is no integer, and otherwise the outcome `f` gives.
pub open spec fn on_ints<SS, SA, DS, DA>(
    n: V<SS, SA, DS, DA>,
    m: V<SS, SA, DS, DA>,
    r: R<SS, SA, DS, DA>,
    f: spec_fn(int, int) -> Option<int>,
) -> bool {
    match (n, m) {
        (V::Int(a), V::Int(b)) => int_outcome(r, f(a as int, b as int)),
        (V::Int(_), _) => fails_not_int(r, m),
        _ => fails_not_int(r, n),
    }
}

/// What a primitive over an integer and a divisor owes: as `on_ints`, but
/// `NotNonZeroInt` where the divisor is zero.
pub open spec fn on_int_divisor<SS, SA, DS, DA>(
    n: V<SS, SA, DS, DA>,
    m: V<SS, SA, DS, DA>,
    r: R<SS, SA, DS, DA>,
    f: spec_fn(int, int) -> Option<int>,
) -> bool {
    match (n, m) {
        (V::Int(a), V::Int(b)) => if b == 0 {
            r matches Err(CoreFailure::NotNonZeroInt(w)) && crate::same(m, w)
        } else {
            int_outcome(r, f(a as int, b as int))
        },
        (V::Int(_), _) => fails_not_int(r, m),
        _ => fails_not_int(r, n),
    }
}

/// What a primitive over an integer and a count owes: as `on_ints`, but
/// `NotPositiveInt` where the count is negative.
pub open spec fn on_int_count<SS, SA, DS, DA>(
    n: V<SS, SA, DS, DA>,
    m: V<SS, SA, DS, DA>,
    r: R<SS, SA, DS, DA>,
    f: spec_fn(int, nat) -> Option<int>,
) -> bool {
    match (n, m) {
        (V::Int(a), V::Int(b)) => if b < 0 {
            r matches Err(CoreFailure::NotPositiveInt(w)) && crate::same(m, w)
        } else {
            int_outcome(r, f(a as int, b as nat))
        },
        (V::Int(_), _) => fails_not_int(r, m),
        _ => fails_not_int(r, n),
    }
}

/// The boolean a value holds, or `NotBool`.
pub fn as_bool<SS: ValueBase, SA: ValueBase, DS: ValueBase, DA: ValueBase>(
    v: &V<SS, SA, DS, DA>,
) -> (r: Result<bool, CoreFailure<V<SS, SA, DS, DA>>>)
    ensures
        match *v {
            V::Bool(b) => r == Ok::<bool, CoreFailure<V<SS, SA, DS, DA>>>(b),
            _ => r matches Err(CoreFailure::NotBool(w)) && crate::same(*v, w),
        },
{
    match v {
        V::Bool(b) => Ok(*b),
        _ => Err(CoreFailure::NotBool(v.copy())),
    }
}

/// The float a value holds, or `NotFloat`.
pub fn as_float<SS: ValueBase, SA: ValueBase, DS: ValueBase, DA: ValueBase>(
    v: &V<SS, SA, DS, DA>,
) -> (r: Result<PavoFloat, CoreFailure<V<SS, SA, DS, DA>>>)
    ensures
        match *v {
            V::Float(f) => r == Ok::<PavoFloat, CoreFailure<V<SS, SA, DS, DA>>>(f),
            _ => r matches Err(CoreFailure::NotFloat(w)) && crate::same(*v, w),
        },
{
    match v {
        V::Float(f) => Ok(*f),
        _ => Err(CoreFailure::NotFloat(v.copy())),
    }
}

/// The integer a value holds, or `NotInt`.
pub fn as_int<SS: ValueBase, SA: ValueBase, DS: ValueBase, DA: ValueBase>(
    v: &V<SS, SA, DS, DA>,
) -> (r: Result<i64, CoreFailure<V<SS, SA, DS, DA>>>)
    ensures
        match *v {
            V::Int(n) => r == Ok::<i64, CoreFailure<V<SS, SA, DS, DA>>>(n),
            _ => r matches Err(CoreFailure::NotInt(w)) && crate::same(*v, w),
        },
{
    match v {
        V::Int(n) => Ok(*n),
        _ => Err(CoreFailure::NotInt(v.copy())),
    }
}

/// The integer a value holds if it is not negative; `NotInt` on a value
/// that is no integer, `NotPositiveInt` on a negative one.
pub fn as_positive_int<SS: ValueBase, SA: ValueBase, DS: ValueBase, DA: ValueBase>(
    v: &V<SS, SA, DS, DA>,
) -> (r: Result<i64, CoreFailure<V<SS, SA, DS, DA>>>)
    ensures
        match *v {
            V::Int(n) => if n >= 0 {
                r == Ok::<i64, CoreFailure<V<SS, SA, DS, DA>>>(n)
            } else {
                r matches Err(CoreFailure::NotPositiveInt(w)) && crate::same(*v, w)
            },
            _ => r matches Err(CoreFailure::NotInt(w)) && crate::same(*v, w),
        },
{
    match as_int(v) {
        Ok(n) => if n >= 0 {
            Ok(n)
        } else {
            Err(CoreFailure::NotPositiveInt(v.copy()))
        },
        Err(e) => Err(e),
    }
}

/// The integer a value holds if it is not zero; `NotInt` on a value that is
/// no integer, `NotNonZeroInt` on zero.
pub fn as_non_zero_int<SS: ValueBase, SA: ValueBase, DS: ValueBase, DA: ValueBase>(
    v: &V<SS, SA, DS, DA>,
) -> (r: Result<i64, CoreFailure<V<SS, SA, DS, DA>>>)
    ensures
        match *v {
            V::Int(n) => if n != 0 {
                r == Ok::<i64, CoreFailure<V<SS, SA, DS, DA>>>(n)
            } else {
                r matches Err(CoreFailure::NotNonZeroInt(w)) && crate::same(*v, w)
            },
            _ => r matches Err(CoreFailure::NotInt(w)) && crate::same(*v, w),
        },
{
    match as_int(v) {
        Ok(n) => if n != 0 {
            Ok(n)
        } else {
            Err(CoreFailure::NotNonZeroInt(v.copy()))
        },
        Err(e) => Err(e),
    }
}

/// Turns an integer that may be missing into an outcome: the integer, or
/// the failed outcome carrying nil.
pub fn int_or_err_nil<SS, SA, DS, DA>(x: Option<i64>) -> (r: R<SS, SA, DS, DA>)
    ensures
        int_outcome(r, match x { Some(n) => Some(n as int), None => None }),
{
    match x {
        Some(n) => Ok(V::Int(n)),
        None => Ok(V::err_nil()),
    }
}

} // verus!
