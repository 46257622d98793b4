//! Comparison primitives: the total order, which never fails, and the
//! partial order, whose answers come wrapped as successful or failed
//! outcomes.

use vstd::prelude::*;
use core::cmp::Ordering;
use crate::{V, ValueBase, ValueBaseOrdered};
use crate::fun::CoreFailure;
use crate::fun::util::R;

verus! {

/// The string that names an ordering: "<", "=" or ">".
pub open spec fn ordering_name(o: Ordering) -> Seq<char> {
    match o {
        Ordering::Less => "<"@,
        Ordering::Equal => "="@,
        Ordering::Greater => ">"@,
    }
}

/// The string that names an ordering.
fn ordering_string<SS: ValueBaseOrdered, SA: ValueBaseOrdered, DS: ValueBase, DA: ValueBase>(o: Ordering) -> (r: V<SS, SA, DS, DA>)
    ensures
        crate::is_string(r, ordering_name(o)),
{
    match o {
        Ordering::Less => V::string("<"),
        Ordering::Equal => V::string("="),
        Ordering::Greater => V::string(">"),
    }
}

/// Whether `r` is a partial answer: the successful outcome carrying the
/// boolean where there is one, the failed outcome carrying nil where the
/// operands are incomparable.
pub open spec fn partial_outcome<SS, SA, DS, DA>(r: R<SS, SA, DS, DA>, b: Option<bool>) -> bool {
    match b {
        Some(x) => r matches Ok(o) && crate::is_ok(o, V::<SS, SA, DS, DA>::Bool(x)),
        None => r matches Ok(o) && crate::is_err(o, V::<SS, SA, DS, DA>::Nil),
    }
}

/// Wraps a partial answer.
fn wrap_partial<SS: ValueBaseOrdered, SA: ValueBaseOrdered, DS: ValueBase, DA: ValueBase>(b: Option<bool>) -> (r: R<SS, SA, DS, DA>)
    ensures
        partial_outcome(r, b),
{
    match b {
        Some(x) => Ok(V::ok(V::boo(x))),
        None => Ok(V::err_nil()),
    }
}

/// Compares under the total order, answering "<", "=" or ">".
pub fn total_compare<SS: ValueBaseOrdered, SA: ValueBaseOrdered, DS: ValueBase, DA: ValueBase>(v: &V<SS, SA, DS, DA>, w: &V<SS, SA, DS, DA>) -> (r: R<SS, SA, DS, DA>)
    ensures
        r matches Ok(s) && crate::is_string(s, ordering_name(crate::value_cmp(*v, *w))),
{
    Ok(ordering_string(v.total_cmp(w)))
}

/// Whether the first argument is less under the total order.
pub fn total_lt<SS: ValueBaseOrdered, SA: ValueBaseOrdered, DS: ValueBase, DA: ValueBase>(v: &V<SS, SA, DS, DA>, w: &V<SS, SA, DS, DA>) -> (r: R<SS, SA, DS, DA>)
    ensures
        r == Ok::<V<SS, SA, DS, DA>, CoreFailure<V<SS, SA, DS, DA>>>(V::Bool(crate::value_cmp(*v, *w) == Ordering::Less)),
{
    let c = v.total_cmp(w);
    Ok(V::boo(matches!(c, Ordering::Less)))
}

/// Whether the first argument is less or equal under the total order.
pub fn total_leq<SS: ValueBaseOrdered, SA: ValueBaseOrdered, DS: ValueBase, DA: ValueBase>(v: &V<SS, SA, DS, DA>, w: &V<SS, SA, DS, DA>) -> (r: R<SS, SA, DS, DA>)
    ensures
        r == Ok::<V<SS, SA, DS, DA>, CoreFailure<V<SS, SA, DS, DA>>>(V::Bool(crate::value_cmp(*v, *w) != Ordering::Greater)),
{
    let c = v.total_cmp(w);
    Ok(V::boo(!matches!(c, Ordering::Greater)))
}

/// Whether the arguments are equal under the total order.
pub fn total_eq<SS: ValueBaseOrdered, SA: ValueBaseOrdered, DS: ValueBase, DA: ValueBase>(v: &V<SS, SA, DS, DA>, w: &V<SS, SA, DS, DA>) -> (r: R<SS, SA, DS, DA>)
    ensures
        r == Ok::<V<SS, SA, DS, DA>, CoreFailure<V<SS, SA, DS, DA>>>(V::Bool(crate::value_cmp(*v, *w) == Ordering::Equal)),
{
    let c = v.total_cmp(w);
    Ok(V::boo(matches!(c, Ordering::Equal)))
}

/// Whether the first argument is greater or equal under the total order.
pub fn total_geq<SS: ValueBaseOrdered, SA: ValueBaseOrdered, DS: ValueBase, DA: ValueBase>(v: &V<SS, SA, DS, DA>, w: &V<SS, SA, DS, DA>) -> (r: R<SS, SA, DS, DA>)
    ensures
        r == Ok::<V<SS, SA, DS, DA>, CoreFailure<V<SS, SA, DS, DA>>>(V::Bool(crate::value_cmp(*v, *w) != Ordering::Less)),
{
    let c = v.total_cmp(w);
    Ok(V::boo(!matches!(c, Ordering::Less)))
}

/// Whether the first argument is greater under the total order.
pub fn total_gt<SS: ValueBaseOrdered, SA: ValueBaseOrdered, DS: ValueBase, DA: ValueBase>(v: &V<SS, SA, DS, DA>, w: &V<SS, SA, DS, DA>) -> (r: R<SS, SA, DS, DA>)
    ensures
        r == Ok::<V<SS, SA, DS, DA>, CoreFailure<V<SS, SA, DS, DA>>>(V::Bool(crate::value_cmp(*v, *w) == Ordering::Greater)),
{
    let c = v.total_cmp(w);
    Ok(V::boo(matches!(c, Ordering::Greater)))
}

/// Whether the arguments differ under the total order.
pub fn total_neq<SS: ValueBaseOrdered, SA: ValueBaseOrdered, DS: ValueBase, DA: ValueBase>(v: &V<SS, SA, DS, DA>, w: &V<SS, SA, DS, DA>) -> (r: R<SS, SA, DS, DA>)
    ensures
        r == Ok::<V<SS, SA, DS, DA>, CoreFailure<V<SS, SA, DS, DA>>>(V::Bool(crate::value_cmp(*v, *w) != Ordering::Equal)),
{
    let c = v.total_cmp(w);
    Ok(V::boo(!matches!(c, Ordering::Equal)))
}

/// A copy of the lesser argument under the total order; of the first where
/// they are equal.
pub fn total_min<SS: ValueBaseOrdered, SA: ValueBaseOrdered, DS: ValueBase, DA: ValueBase>(v: &V<SS, SA, DS, DA>, w: &V<SS, SA, DS, DA>) -> (r: R<SS, SA, DS, DA>)
    ensures
        r matches Ok(m) && crate::same(
            if crate::value_cmp(*v, *w) == Ordering::Greater { *w } else { *v },
            m,
        ),
{
    match v.total_cmp(w) {
        Ordering::Greater => Ok(w.copy()),
        _ => Ok(v.copy()),
    }
}

/// A copy of the greater argument under the total order; of the second
/// where they are equal.
pub fn total_max<SS: ValueBaseOrdered, SA: ValueBaseOrdered, DS: ValueBase, DA: ValueBase>(v: &V<SS, SA, DS, DA>, w: &V<SS, SA, DS, DA>) -> (r: R<SS, SA, DS, DA>)
    ensures
        r matches Ok(m) && crate::same(
            if crate::value_cmp(*v, *w) == Ordering::Greater { *v } else { *w },
            m,
        ),
{
    match v.total_cmp(w) {
        Ordering::Greater => Ok(v.copy()),
        _ => Ok(w.copy()),
    }
}

/// Compares under the partial order: the successful outcome carrying "<",
/// "=" or ">", or the failed outcome carrying nil where the arguments are
/// incomparable.
pub fn partial_compare<SS: ValueBaseOrdered, SA: ValueBaseOrdered, DS: ValueBase, DA: ValueBase>(v: &V<SS, SA, DS, DA>, w: &V<SS, SA, DS, DA>) -> (r: R<SS, SA, DS, DA>)
    ensures
        match crate::partial_cmp_spec(*v, *w) {
            Some(o) => r matches Ok(x) && x is Array && x->Array_0@.len() == 2
                && crate::is_string(x->Array_0@[0], "ok"@)
                && crate::is_string(x->Array_0@[1], ordering_name(o)),
            None => r matches Ok(x) && crate::is_err(x, V::<SS, SA, DS, DA>::Nil),
        },
{
    match v.partial_compare(w) {
        Some(o) => Ok(V::ok(ordering_string(o))),
        None => Ok(V::err_nil()),
    }
}

/// Whether the first argument is less under the partial order, as a
/// successful outcome; the failed outcome carrying nil where the arguments
/// are incomparable.
pub fn partial_lt<SS: ValueBaseOrdered, SA: ValueBaseOrdered, DS: ValueBase, DA: ValueBase>(v: &V<SS, SA, DS, DA>, w: &V<SS, SA, DS, DA>) -> (r: R<SS, SA, DS, DA>)
    ensures
        partial_outcome(r, crate::partial_test(crate::partial_cmp_spec(*v, *w), true, false, false)),
{
    wrap_partial(v.partial_lt(w))
}

/// Whether the first argument is less or equal under the partial order, as a
/// successful outcome; the failed outcome carrying nil where the arguments
/// are incomparable.
pub fn partial_leq<SS: ValueBaseOrdered, SA: ValueBaseOrdered, DS: ValueBase, DA: ValueBase>(v: &V<SS, SA, DS, DA>, w: &V<SS, SA, DS, DA>) -> (r: R<SS, SA, DS, DA>)
    ensures
        partial_outcome(r, crate::partial_test(crate::partial_cmp_spec(*v, *w), true, true, false)),
{
    wrap_partial(v.partial_leq(w))
}

/// Whether the first argument is equal under the partial order, as a
/// successful outcome; the failed outcome carrying nil where the arguments
/// are incomparable.
pub fn partial_eq<SS: ValueBaseOrdered, SA: ValueBaseOrdered, DS: ValueBase, DA: ValueBase>(v: &V<SS, SA, DS, DA>, w: &V<SS, SA, DS, DA>) -> (r: R<SS, SA, DS, DA>)
    ensures
        partial_outcome(r, crate::partial_test(crate::partial_cmp_spec(*v, *w), false, true, false)),
{
    wrap_partial(v.partial_eq(w))
}

/// Whether the first argument is greater or equal under the partial order, as a
/// successful outcome; the failed outcome carrying nil where the arguments
/// are incomparable.
pub fn partial_geq<SS: ValueBaseOrdered, SA: ValueBaseOrdered, DS: ValueBase, DA: ValueBase>(v: &V<SS, SA, DS, DA>, w: &V<SS, SA, DS, DA>) -> (r: R<SS, SA, DS, DA>)
    ensures
        partial_outcome(r, crate::partial_test(crate::partial_cmp_spec(*v, *w), false, true, true)),
{
    wrap_partial(v.partial_geq(w))
}

/// Whether the first argument is greater under the partial order, as a
/// successful outcome; the failed outcome carrying nil where the arguments
/// are incomparable.
pub fn partial_gt<SS: ValueBaseOrdered, SA: ValueBaseOrdered, DS: ValueBase, DA: ValueBase>(v: &V<SS, SA, DS, DA>, w: &V<SS, SA, DS, DA>) -> (r: R<SS, SA, DS, DA>)
    ensures
        partial_outcome(r, crate::partial_test(crate::partial_cmp_spec(*v, *w), false, false, true)),
{
    wrap_partial(v.partial_gt(w))
}

/// Whether the first argument is different under the partial order, as a
/// successful outcome; the failed outcome carrying nil where the arguments
/// are incomparable.
pub fn partial_neq<SS: ValueBaseOrdered, SA: ValueBaseOrdered, DS: ValueBase, DA: ValueBase>(v: &V<SS, SA, DS, DA>, w: &V<SS, SA, DS, DA>) -> (r: R<SS, SA, DS, DA>)
    ensures
        partial_outcome(r, crate::partial_test(crate::partial_cmp_spec(*v, *w), true, false, true)),
{
    wrap_partial(v.partial_neq(w))
}

/// The greatest lower bound under the partial order as a successful outcome; the
/// failed outcome carrying nil where the arguments are incomparable.
pub fn partial_greatest_lower_bound<SS: ValueBaseOrdered, SA: ValueBaseOrdered, DS: ValueBase, DA: ValueBase>(v: &V<SS, SA, DS, DA>, w: &V<SS, SA, DS, DA>) -> (r: R<SS, SA, DS, DA>)
    ensures
        match crate::partial_cmp_spec(*v, *w) {
            Some(o) => r matches Ok(x) && x is Array && x->Array_0@.len() == 2
                && crate::is_string(x->Array_0@[0], "ok"@)
                && crate::same(if o == Ordering::Greater { *w } else { *v }, x->Array_0@[1]),
            None => r matches Ok(x) && crate::is_err(x, V::<SS, SA, DS, DA>::Nil),
        },
{
    match v.partial_greatest_lower_bound(w) {
        Some(b) => Ok(V::ok(b)),
        None => Ok(V::err_nil()),
    }
}

/// The least upper bound under the partial order as a successful outcome; the
/// failed outcome carrying nil where the arguments are incomparable.
pub fn partial_least_upper_bound<SS: ValueBaseOrdered, SA: ValueBaseOrdered, DS: ValueBase, DA: ValueBase>(v: &V<SS, SA, DS, DA>, w: &V<SS, SA, DS, DA>) -> (r: R<SS, SA, DS, DA>)
    ensures
        match crate::partial_cmp_spec(*v, *w) {
            Some(o) => r matches Ok(x) && x is Array && x->Array_0@.len() == 2
                && crate::is_string(x->Array_0@[0], "ok"@)
                && crate::same(if o == Ordering::Less { *w } else { *v }, x->Array_0@[1]),
            None => r matches Ok(x) && crate::is_err(x, V::<SS, SA, DS, DA>::Nil),
        },
{
    match v.partial_least_upper_bound(w) {
        Some(b) => Ok(V::ok(b)),
        None => Ok(V::err_nil()),
    }
}

} // verus!
