//! Primitives that look at any value: halting, its type, its truthiness.

use vstd::prelude::*;
use crate::{V, ValueBase};
use crate::fun::CoreFailure;
use crate::fun::util::R;

verus! {

/// The name of a value's type.
pub open spec fn kind_name<SS, SA, DS, DA>(v: V<SS, SA, DS, DA>) -> Seq<char> {
    match v {
        V::Nil => "nil"@,
        V::Bool(_) => "bool"@,
        V::Float(_) => "float"@,
        V::Int(_) => "int"@,
        V::Array(_) => "array"@,
        V::Mapping(_) => "map"@,
        V::Fun(_) => "function"@,
    }
}

/// Stops execution, handing the scheduler a copy of the argument.
pub fn halt<SS: ValueBase, SA: ValueBase, DS: ValueBase, DA: ValueBase>(
    v: &V<SS, SA, DS, DA>,
) -> (r: R<SS, SA, DS, DA>)
    ensures
        r matches Err(CoreFailure::Halt(w)) && crate::same(*v, w),
{
    Err(CoreFailure::Halt(v.copy()))
}

/// The name of the argument's type, as a string.
pub fn type_of<SS: ValueBase, SA: ValueBase, DS: ValueBase, DA: ValueBase>(
    v: &V<SS, SA, DS, DA>,
) -> (r: R<SS, SA, DS, DA>)
    ensures
        r matches Ok(s) && crate::is_string(s, kind_name(*v)),
{
    let name = match v {
        V::Nil => "nil",
        V::Bool(_) => "bool",
        V::Float(_) => "float",
        V::Int(_) => "int",
        V::Array(_) => "array",
        V::Mapping(_) => "map",
        V::Fun(_) => "function",
    };
    Ok(V::string(name))
}

/// Whether the argument is truthy.
pub fn truthy<SS: ValueBase, SA: ValueBase, DS: ValueBase, DA: ValueBase>(
    v: &V<SS, SA, DS, DA>,
) -> (r: R<SS, SA, DS, DA>)
    ensures
        r == Ok::<V<SS, SA, DS, DA>, CoreFailure<V<SS, SA, DS, DA>>>(V::Bool(crate::truthy_spec(*v))),
{
    Ok(V::boo(v.truthy()))
}

/// Whether the argument is falsey: nil or false.
pub fn falsey<SS: ValueBase, SA: ValueBase, DS: ValueBase, DA: ValueBase>(
    v: &V<SS, SA, DS, DA>,
) -> (r: R<SS, SA, DS, DA>)
    ensures
        r == Ok::<V<SS, SA, DS, DA>, CoreFailure<V<SS, SA, DS, DA>>>(V::Bool(!crate::truthy_spec(*v))),
{
    Ok(V::boo(!v.truthy()))
}

} // verus!
