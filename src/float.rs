//! Floating-point scalars, held as their IEEE-754 binary64 bit pattern, with a
//! NaN-aware total order and the IEEE partial order.

use vstd::prelude::*;
use core::cmp::Ordering;
use crate::cmp_i128;

verus! {

/// The sign bit of a binary64 pattern.
pub const SIGN_BIT: u64 = 0x8000_0000_0000_0000;

/// The bit pattern of positive infinity: the largest magnitude that is not NaN.
pub const INFINITY_BITS: u64 = 0x7FF0_0000_0000_0000;

/// The magnitude of a pattern: everything but the sign bit.
pub open spec fn magnitude(b: u64) -> int {
    (b as int) % (SIGN_BIT as int)
}

/// Whether the sign bit is set.
pub open spec fn sign_negative(b: u64) -> bool {
    b >= SIGN_BIT
}

/// Whether the pattern is a NaN: all exponent bits set and a non-zero fraction.
pub open spec fn is_nan(b: u64) -> bool {
    magnitude(b) > INFINITY_BITS as int
}

/// The position of a pattern in the total order: every NaN lowest, then the
/// negative values from -infinity up to -0.0, then +0.0 up to +infinity.
pub open spec fn total_key(b: u64) -> int {
    if is_nan(b) {
        -(INFINITY_BITS as int) - 2
    } else if sign_negative(b) {
        -1 - magnitude(b)
    } else {
        magnitude(b)
    }
}

/// The numeric position of a pattern that is not NaN: the order of the reals
/// it denotes (infinities at the ends), with -0.0 and +0.0 at the same place.
pub open spec fn numeric_key(b: u64) -> int {
    if sign_negative(b) {
        -magnitude(b)
    } else {
        magnitude(b)
    }
}

/// The total order on patterns.
pub open spec fn total_cmp_spec(a: u64, b: u64) -> Ordering {
    crate::cmp_int(total_key(a), total_key(b))
}

/// The IEEE partial order on patterns: none where either is NaN.
pub open spec fn partial_cmp_spec(a: u64, b: u64) -> Option<Ordering> {
    if is_nan(a) || is_nan(b) {
        None
    } else {
        Some(crate::cmp_int(numeric_key(a), numeric_key(b)))
    }
}

/// A floating-point scalar, as its binary64 bit pattern. Every pattern is a
/// value; NaN payloads are kept but all NaNs are alike under the total order.
#[derive(Clone, Copy, Debug)]
pub struct PavoFloat(pub u64);

impl PavoFloat {
    /// Whether this is a NaN.
    pub fn is_nan(&self) -> (r: bool)
        ensures
            r == is_nan(self.0),
    {
        self.0 % SIGN_BIT > INFINITY_BITS
    }

    /// Whether the sign bit is set.
    pub fn is_sign_negative(&self) -> (r: bool)
        ensures
            r == sign_negative(self.0),
    {
        self.0 >= SIGN_BIT
    }

    /// The place of this value in the total order.
    pub fn total_key(&self) -> (r: i128)
        ensures
            r as int == total_key(self.0),
    {
        let m = (self.0 % SIGN_BIT) as i128;
        if m > INFINITY_BITS as i128 {
            -(INFINITY_BITS as i128) - 2
        } else if self.0 >= SIGN_BIT {
            -1 - m
        } else {
            m
        }
    }

    /// The total order: NaN below everything and equal to every NaN; then the
    /// sign, with -0.0 below +0.0; then numeric order.
    pub fn total_cmp(&self, other: &Self) -> (r: Ordering)
        ensures
            r == total_cmp_spec(self.0, other.0),
    {
        cmp_i128(self.total_key(), other.total_key())
    }

    /// Equality under the total order: two NaNs are equal, and otherwise the
    /// bit patterns must agree.
    pub fn total_eq(&self, other: &Self) -> (r: bool)
        ensures
            r == (total_cmp_spec(self.0, other.0) == Ordering::Equal),
            r == ((is_nan(self.0) && is_nan(other.0)) || self.0 == other.0),
    {
        proof {
            lemma_total_key_injective(self.0, other.0);
        }
        if self.is_nan() && other.is_nan() {
            true
        } else {
            self.0 == other.0
        }
    }

    /// The IEEE comparison: `None` when either operand is NaN, otherwise the
    /// numeric order, with -0.0 equal to +0.0.
    pub fn partial_compare(&self, other: &Self) -> (r: Option<Ordering>)
        ensures
            r == partial_cmp_spec(self.0, other.0),
    {
        if self.is_nan() || other.is_nan() {
            None
        } else {
            let m = (self.0 % SIGN_BIT) as i128;
            let n = (other.0 % SIGN_BIT) as i128;
            let x = if self.0 >= SIGN_BIT { -m } else { m };
            let y = if other.0 >= SIGN_BIT { -n } else { n };
            Some(cmp_i128(x, y))
        }
    }

    /// The greatest lower bound under the partial order: the smaller operand
    /// (`self` where they are equal), and `None` where either is NaN.
    pub fn greatest_lower_bound(&self, other: &Self) -> (r: Option<PavoFloat>)
        ensures
            r == match partial_cmp_spec(self.0, other.0) {
                None => None,
                Some(Ordering::Greater) => Some(*other),
                Some(_) => Some(*self),
            },
    {
        match self.partial_compare(other) {
            None => None,
            Some(Ordering::Greater) => Some(*other),
            Some(_) => Some(*self),
        }
    }

    /// The least upper bound under the partial order: the larger operand
    /// (`self` where they are equal), and `None` where either is NaN.
    pub fn least_upper_bound(&self, other: &Self) -> (r: Option<PavoFloat>)
        ensures
            r == match partial_cmp_spec(self.0, other.0) {
                None => None,
                Some(Ordering::Less) => Some(*other),
                Some(_) => Some(*self),
            },
    {
        match self.partial_compare(other) {
            None => None,
            Some(Ordering::Less) => Some(*other),
            Some(_) => Some(*self),
        }
    }
}

/// Two patterns share a place in the total order exactly when both are NaN or
/// they are the same pattern.
pub proof fn lemma_total_key_injective(a: u64, b: u64)
    ensures
        total_key(a) == total_key(b) <==> ((is_nan(a) && is_nan(b)) || a == b),
{
    assert(a as int == magnitude(a) + (if sign_negative(a) { SIGN_BIT as int } else { 0 }));
    assert(b as int == magnitude(b) + (if sign_negative(b) { SIGN_BIT as int } else { 0 }));
}

/// Under the total order every NaN equals every other, whatever its sign
/// and payload.
pub proof fn lemma_nan_total_equal(a: u64, b: u64)
    requires
        is_nan(a),
        is_nan(b),
    ensures
        total_cmp_spec(a, b) == Ordering::Equal,
{
}

/// Under the total order every NaN is below every value that is not NaN,
/// -infinity included.
pub proof fn lemma_nan_total_least(a: u64, b: u64)
    requires
        is_nan(a),
        !is_nan(b),
    ensures
        total_cmp_spec(a, b) == Ordering::Less,
{
}

/// Under the total order a value that is not NaN with its sign bit set is
/// below one without; so -0.0 is below +0.0.
pub proof fn lemma_sign_first(a: u64, b: u64)
    requires
        !is_nan(a),
        !is_nan(b),
        sign_negative(a),
        !sign_negative(b),
    ensures
        total_cmp_spec(a, b) == Ordering::Less,
{
}

/// Under the partial order the two zeros are equal.
pub proof fn lemma_zeros_partially_equal()
    ensures
        partial_cmp_spec(0, SIGN_BIT) == Some(Ordering::Equal),
{
}

/// The total order on patterns obeys the laws of a total order.
pub proof fn lemma_float_order_laws(a: u64, b: u64, c: u64)
    ensures
        crate::order_laws(
            total_cmp_spec(a, b),
            total_cmp_spec(b, a),
            total_cmp_spec(a, a),
            total_cmp_spec(b, c),
            total_cmp_spec(a, c),
        ),
{
    crate::lemma_cmp_int_laws(total_key(a), total_key(b), total_key(c));
}

impl PartialEq for PavoFloat {
    fn eq(&self, other: &Self) -> (r: bool) {
        self.total_eq(other)
    }
}

impl vstd::std_specs::cmp::PartialEqSpecImpl for PavoFloat {
    open spec fn obeys_eq_spec() -> bool {
        true
    }

    open spec fn eq_spec(&self, other: &PavoFloat) -> bool {
        total_cmp_spec(self.0, other.0) == Ordering::Equal
    }
}

impl Eq for PavoFloat {
}

impl PartialOrd for PavoFloat {
    fn partial_cmp(&self, other: &Self) -> (r: Option<Ordering>) {
        Some(self.total_cmp(other))
    }
}

impl vstd::std_specs::cmp::PartialOrdSpecImpl for PavoFloat {
    open spec fn obeys_partial_cmp_spec() -> bool {
        true
    }

    open spec fn partial_cmp_spec(&self, other: &PavoFloat) -> Option<Ordering> {
        Some(total_cmp_spec(self.0, other.0))
    }
}

} // verus!
