//! Boolean primitives. Both arguments are always checked: a non-boolean
//! fails with `NotBool` whatever the other argument is.

use vstd::prelude::*;
use crate::{V, ValueBase};
use crate::fun::CoreFailure;
use crate::fun::util::{R, as_bool};

verus! {

/// What a primitive over two booleans owes: `NotBool` on the first argument
/// that is no boolean, and otherwise the boolean `f` gives.
pub open spec fn on_bools<SS, SA, DS, DA>(
    b: V<SS, SA, DS, DA>,
    c: V<SS, SA, DS, DA>,
    r: R<SS, SA, DS, DA>,
    f: spec_fn(bool, bool) -> bool,
) -> bool {
    match (b, c) {
        (V::Bool(x), V::Bool(y)) => r == Ok::<V<SS, SA, DS, DA>, CoreFailure<V<SS, SA, DS, DA>>>(V::Bool(f(x, y))),
        (V::Bool(_), _) => crate::fun::util::fails_not_bool(r, c),
        _ => crate::fun::util::fails_not_bool(r, b),
    }
}

/// Negation.
pub fn not<SS: ValueBase, SA: ValueBase, DS: ValueBase, DA: ValueBase>(b: &V<SS, SA, DS, DA>) -> (r: R<SS, SA, DS, DA>)
    ensures
        match *b {
            V::Bool(x) => r == Ok::<V<SS, SA, DS, DA>, CoreFailure<V<SS, SA, DS, DA>>>(V::Bool(!x)),
            _ => crate::fun::util::fails_not_bool(r, *b),
        },
{
    match as_bool(b) {
        Ok(x) => Ok(V::boo(!x)),
        Err(e) => Err(e),
    }
}

/// Conjunction.
pub fn and<SS: ValueBase, SA: ValueBase, DS: ValueBase, DA: ValueBase>(b: &V<SS, SA, DS, DA>, c: &V<SS, SA, DS, DA>) -> (r: R<SS, SA, DS, DA>)
    ensures
        on_bools(*b, *c, r, |x: bool, y: bool| x && y),
{
    let x = match as_bool(b) {
        Ok(x) => x,
        Err(e) => return Err(e),
    };
    let y = match as_bool(c) {
        Ok(y) => y,
        Err(e) => return Err(e),
    };
    Ok(V::boo(x && y))
}

/// Disjunction.
pub fn or<SS: ValueBase, SA: ValueBase, DS: ValueBase, DA: ValueBase>(b: &V<SS, SA, DS, DA>, c: &V<SS, SA, DS, DA>) -> (r: R<SS, SA, DS, DA>)
    ensures
        on_bools(*b, *c, r, |x: bool, y: bool| x || y),
{
    let x = match as_bool(b) {
        Ok(x) => x,
        Err(e) => return Err(e),
    };
    let y = match as_bool(c) {
        Ok(y) => y,
        Err(e) => return Err(e),
    };
    Ok(V::boo(x || y))
}

/// Implication: the second argument where the first holds, and true otherwise.
pub fn if_<SS: ValueBase, SA: ValueBase, DS: ValueBase, DA: ValueBase>(b: &V<SS, SA, DS, DA>, c: &V<SS, SA, DS, DA>) -> (r: R<SS, SA, DS, DA>)
    ensures
        on_bools(*b, *c, r, |x: bool, y: bool| if x { y } else { true }),
{
    let x = match as_bool(b) {
        Ok(x) => x,
        Err(e) => return Err(e),
    };
    let y = match as_bool(c) {
        Ok(y) => y,
        Err(e) => return Err(e),
    };
    Ok(V::boo(if x { y } else { true }))
}

/// Equivalence.
pub fn iff<SS: ValueBase, SA: ValueBase, DS: ValueBase, DA: ValueBase>(b: &V<SS, SA, DS, DA>, c: &V<SS, SA, DS, DA>) -> (r: R<SS, SA, DS, DA>)
    ensures
        on_bools(*b, *c, r, |x: bool, y: bool| x == y),
{
    let x = match as_bool(b) {
        Ok(x) => x,
        Err(e) => return Err(e),
    };
    let y = match as_bool(c) {
        Ok(y) => y,
        Err(e) => return Err(e),
    };
    Ok(V::boo(x == y))
}

/// Exclusive or.
pub fn xor<SS: ValueBase, SA: ValueBase, DS: ValueBase, DA: ValueBase>(b: &V<SS, SA, DS, DA>, c: &V<SS, SA, DS, DA>) -> (r: R<SS, SA, DS, DA>)
    ensures
        on_bools(*b, *c, r, |x: bool, y: bool| x != y),
{
    let x = match as_bool(b) {
        Ok(x) => x,
        Err(e) => return Err(e),
    };
    let y = match as_bool(c) {
        Ok(y) => y,
        Err(e) => return Err(e),
    };
    Ok(V::boo(x != y))
}

} // verus!
