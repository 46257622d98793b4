//! The value domain of a dynamically typed language runtime: runtime values,
//! their total and partial orders, callables and the core primitives.
//!
//! - Floats are held as their binary64 bit patterns (`float::PavoFloat`), so
//!   their orders and the conversions to and from integers are integer
//!   arithmetic. Primitives that compute on floats are left to the host,
//!   which gets their arguments checked by `float_arguments`.
//! - Arrays are vectors of values and maps are vectors of entries kept in
//!   strictly increasing key order (`map_insert` keeps them so). Values are
//!   immutable once built; `copy` copies a value element by element.
//! - Dynamic natives and closures draw their ordinals from one
//!   `OrdinalCounter`. Should a dynamic native and a closure still share an
//!   ordinal, the native comes first, so that the order stays total and
//!   agrees with equality.

use vstd::prelude::*;
use vstd::string::StrSliceExecFns;

pub mod float;
pub mod fun;

use core::cmp::Ordering;
use float::PavoFloat;
use fun::{Fun, SynchronousFun, AsynchronousFun, Closure, CoreFailure, CoreFuture};

verus! {

/// Orders two mathematical integers.
pub open spec fn cmp_int(x: int, y: int) -> core::cmp::Ordering {
    if x < y {
        core::cmp::Ordering::Less
    } else if x == y {
        core::cmp::Ordering::Equal
    } else {
        core::cmp::Ordering::Greater
    }
}

/// Orders two machine integers, as `cmp_int` orders them.
pub fn cmp_i128(x: i128, y: i128) -> (r: core::cmp::Ordering)
    ensures
        r == cmp_int(x as int, y as int),
{
    if x < y {
        core::cmp::Ordering::Less
    } else if x == y {
        core::cmp::Ordering::Equal
    } else {
        core::cmp::Ordering::Greater
    }
}

/// What every native a host supplies can do.
pub trait ValueBase: Sized {
    /// A copy of this native that shares its data with it.
    fn duplicate(&self) -> (r: Self)
        ensures
            r == *self;
}

/// A native that a host supplies statically, with its place in the host's
/// order (for an enum of natives, its declaration order).
pub trait ValueBaseOrdered: ValueBase {
    /// The place of this native in the host's order.
    spec fn position(&self) -> int;

    /// Compares the places of two natives.
    fn compare(&self, other: &Self) -> (r: core::cmp::Ordering)
        ensures
            r == crate::cmp_int(self.position(), other.position());
}

/// A runtime value. Arrays and maps hold values already built, so no value
/// contains itself. A map's entries stand in strictly increasing key order.
#[derive(Debug)]
pub enum V<SS, SA, DS, DA> {
    Nil,
    Bool(bool),
    Float(PavoFloat),
    Int(i64),
    Array(Vec<V<SS, SA, DS, DA>>),
    Mapping(Vec<(V<SS, SA, DS, DA>, V<SS, SA, DS, DA>)>),
    Fun(Fun<SS, SA, DS, DA>),
}

/// The place of a value's variant in the total order.
pub open spec fn variant_rank<SS, SA, DS, DA>(v: V<SS, SA, DS, DA>) -> int {
    match v {
        V::Nil => 0,
        V::Bool(_) => 1,
        V::Float(_) => 2,
        V::Int(_) => 3,
        V::Array(_) => 4,
        V::Mapping(_) => 5,
        V::Fun(_) => 6,
    }
}

/// The total order on values: by variant (nil, booleans, floats, integers,
/// arrays, maps, callables), then by payload.
pub open spec fn value_cmp<SS: ValueBaseOrdered, SA: ValueBaseOrdered, DS, DA>(
    a: V<SS, SA, DS, DA>,
    b: V<SS, SA, DS, DA>,
) -> Ordering
    decreases a,
{
    if variant_rank(a) != variant_rank(b) {
        cmp_int(variant_rank(a), variant_rank(b))
    } else {
        match (a, b) {
            (V::Bool(x), V::Bool(y)) => cmp_int(if x { 1 } else { 0 }, if y { 1 } else { 0 }),
            (V::Float(x), V::Float(y)) => float::total_cmp_spec(x.0, y.0),
            (V::Int(x), V::Int(y)) => cmp_int(x as int, y as int),
            (V::Array(x), V::Array(y)) => seq_cmp(x@, y@),
            (V::Mapping(x), V::Mapping(y)) => entries_cmp(x@, y@),
            (V::Fun(f), V::Fun(g)) => fun::rank_cmp(f.rank(), g.rank()),
            _ => Ordering::Equal,
        }
    }
}

/// Lexicographic order on sequences of values; a proper prefix comes first.
pub open spec fn seq_cmp<SS: ValueBaseOrdered, SA: ValueBaseOrdered, DS, DA>(
    x: Seq<V<SS, SA, DS, DA>>,
    y: Seq<V<SS, SA, DS, DA>>,
) -> Ordering
    decreases x,
{
    if x.len() == 0 {
        if y.len() == 0 { Ordering::Equal } else { Ordering::Less }
    } else if y.len() == 0 {
        Ordering::Greater
    } else {
        match value_cmp(x[0], y[0]) {
            Ordering::Equal => seq_cmp(x.subrange(1, x.len() as int), y.subrange(1, y.len() as int)),
            o => o,
        }
    }
}

/// Lexicographic order on sequences of map entries, an entry ordered by key
/// and then by value.
pub open spec fn entries_cmp<SS: ValueBaseOrdered, SA: ValueBaseOrdered, DS, DA>(
    x: Seq<(V<SS, SA, DS, DA>, V<SS, SA, DS, DA>)>,
    y: Seq<(V<SS, SA, DS, DA>, V<SS, SA, DS, DA>)>,
) -> Ordering
    decreases x,
{
    if x.len() == 0 {
        if y.len() == 0 { Ordering::Equal } else { Ordering::Less }
    } else if y.len() == 0 {
        Ordering::Greater
    } else {
        match value_cmp(x[0].0, y[0].0) {
            Ordering::Equal => match value_cmp(x[0].1, y[0].1) {
                Ordering::Equal => entries_cmp(x.subrange(1, x.len() as int), y.subrange(1, y.len() as int)),
                o => o,
            },
            o => o,
        }
    }
}

/// Stepping past one equal element keeps the lexicographic comparison.
proof fn lemma_seq_cmp_step<SS: ValueBaseOrdered, SA: ValueBaseOrdered, DS, DA>(
    x: Seq<V<SS, SA, DS, DA>>,
    y: Seq<V<SS, SA, DS, DA>>,
    i: int,
)
    requires
        0 <= i < x.len(),
        i < y.len(),
        value_cmp(x[i], y[i]) == Ordering::Equal,
    ensures
        seq_cmp(x.subrange(i, x.len() as int), y.subrange(i, y.len() as int))
            == seq_cmp(x.subrange(i + 1, x.len() as int), y.subrange(i + 1, y.len() as int)),
{
    let xs = x.subrange(i, x.len() as int);
    let ys = y.subrange(i, y.len() as int);
    assert(xs.subrange(1, xs.len() as int) =~= x.subrange(i + 1, x.len() as int));
    assert(ys.subrange(1, ys.len() as int) =~= y.subrange(i + 1, y.len() as int));
    assert(xs[0] == x[i]);
    assert(ys[0] == y[i]);
}

/// Stepping past one equal entry keeps the lexicographic comparison.
proof fn lemma_entries_cmp_step<SS: ValueBaseOrdered, SA: ValueBaseOrdered, DS, DA>(
    x: Seq<(V<SS, SA, DS, DA>, V<SS, SA, DS, DA>)>,
    y: Seq<(V<SS, SA, DS, DA>, V<SS, SA, DS, DA>)>,
    i: int,
)
    requires
        0 <= i < x.len(),
        i < y.len(),
        value_cmp(x[i].0, y[i].0) == Ordering::Equal,
        value_cmp(x[i].1, y[i].1) == Ordering::Equal,
    ensures
        entries_cmp(x.subrange(i, x.len() as int), y.subrange(i, y.len() as int))
            == entries_cmp(x.subrange(i + 1, x.len() as int), y.subrange(i + 1, y.len() as int)),
{
    let xs = x.subrange(i, x.len() as int);
    let ys = y.subrange(i, y.len() as int);
    assert(xs.subrange(1, xs.len() as int) =~= x.subrange(i + 1, x.len() as int));
    assert(ys.subrange(1, ys.len() as int) =~= y.subrange(i + 1, y.len() as int));
    assert(xs[0] == x[i]);
    assert(ys[0] == y[i]);
}

impl<SS: ValueBaseOrdered, SA: ValueBaseOrdered, DS, DA> V<SS, SA, DS, DA> {
    /// The place of the value's variant in the total order.
    pub fn variant_index(&self) -> (r: u8)
        ensures
            r as int == variant_rank(*self),
    {
        match self {
            V::Nil => 0,
            V::Bool(_) => 1,
            V::Float(_) => 2,
            V::Int(_) => 3,
            V::Array(_) => 4,
            V::Mapping(_) => 5,
            V::Fun(_) => 6,
        }
    }

    /// The total order on values: by variant, then by payload. Floats go by
    /// their total order, arrays and maps lexicographically, callables by
    /// their own order.
    pub fn total_cmp(&self, other: &Self) -> (r: Ordering)
        ensures
            r == value_cmp(*self, *other),
        decreases self,
    {
        let a = self.variant_index();
        let b = other.variant_index();
        if a != b {
            return cmp_i128(a as i128, b as i128);
        }
        match (self, other) {
            (V::Bool(x), V::Bool(y)) => cmp_i128(if *x { 1 } else { 0 }, if *y { 1 } else { 0 }),
            (V::Float(x), V::Float(y)) => x.total_cmp(y),
            (V::Int(x), V::Int(y)) => cmp_i128(*x as i128, *y as i128),
            (V::Array(x), V::Array(y)) => {
                let mut i: usize = 0;
                proof {
                    assert(x@.subrange(0, x@.len() as int) =~= x@);
                    assert(y@.subrange(0, y@.len() as int) =~= y@);
                }
                while i < x.len() && i < y.len()
                    invariant
                        *self == V::<SS, SA, DS, DA>::Array(*x),
                        value_cmp(*self, *other) == seq_cmp(x@, y@),
                        0 <= i <= x.len(),
                        i <= y.len(),
                        seq_cmp(x@, y@) == seq_cmp(
                            x@.subrange(i as int, x@.len() as int),
                            y@.subrange(i as int, y@.len() as int),
                        ),
                    decreases x.len() - i,
                {
                    proof {
                        assert(decreases_to!(*self => x@[i as int]));
                    }
                    match x[i].total_cmp(&y[i]) {
                        Ordering::Equal => {},
                        o => {
                            proof {
                                assert(x@.subrange(i as int, x@.len() as int)[0] == x@[i as int]);
                                assert(y@.subrange(i as int, y@.len() as int)[0] == y@[i as int]);
                            }
                            return o;
                        },
                    }
                    proof {
                        lemma_seq_cmp_step(x@, y@, i as int);
                    }
                    i = i + 1;
                }
                cmp_i128((x.len() - i) as i128, (y.len() - i) as i128)
            },
            (V::Mapping(x), V::Mapping(y)) => {
                let mut i: usize = 0;
                proof {
                    assert(x@.subrange(0, x@.len() as int) =~= x@);
                    assert(y@.subrange(0, y@.len() as int) =~= y@);
                }
                while i < x.len() && i < y.len()
                    invariant
                        *self == V::<SS, SA, DS, DA>::Mapping(*x),
                        value_cmp(*self, *other) == entries_cmp(x@, y@),
                        0 <= i <= x.len(),
                        i <= y.len(),
                        entries_cmp(x@, y@) == entries_cmp(
                            x@.subrange(i as int, x@.len() as int),
                            y@.subrange(i as int, y@.len() as int),
                        ),
                    decreases x.len() - i,
                {
                    proof {
                        assert(decreases_to!(*self => (*self)->Mapping_0));
                        assert(decreases_to!(*x => x@));
                        assert(decreases_to!(x@ => x@[i as int]));
                        assert(decreases_to!(x@[i as int] => x@[i as int].0));
                        assert(decreases_to!(x@[i as int] => x@[i as int].1));
                    }
                    match x[i].0.total_cmp(&y[i].0) {
                        Ordering::Equal => {},
                        o => {
                            proof {
                                assert(x@.subrange(i as int, x@.len() as int)[0] == x@[i as int]);
                                assert(y@.subrange(i as int, y@.len() as int)[0] == y@[i as int]);
                            }
                            return o;
                        },
                    }
                    match x[i].1.total_cmp(&y[i].1) {
                        Ordering::Equal => {},
                        o => {
                            proof {
                                assert(x@.subrange(i as int, x@.len() as int)[0] == x@[i as int]);
                                assert(y@.subrange(i as int, y@.len() as int)[0] == y@[i as int]);
                            }
                            return o;
                        },
                    }
                    proof {
                        lemma_entries_cmp_step(x@, y@, i as int);
                    }
                    i = i + 1;
                }
                cmp_i128((x.len() - i) as i128, (y.len() - i) as i128)
            },
            (V::Fun(f), V::Fun(g)) => f.total_cmp(g),
            _ => Ordering::Equal,
        }
    }
}

/// The converse of an ordering.
pub open spec fn flip(o: Ordering) -> Ordering {
    match o {
        Ordering::Less => Ordering::Greater,
        Ordering::Equal => Ordering::Equal,
        Ordering::Greater => Ordering::Less,
    }
}

/// What a total order owes on three elements a, b, c, given the outcomes of
/// comparing a with b, b with a, a with itself, b with c and a with c.
pub open spec fn order_laws(ab: Ordering, ba: Ordering, aa: Ordering, bc: Ordering, ac: Ordering) -> bool {
    &&& ba == flip(ab)
    &&& aa == Ordering::Equal
    &&& (ab == Ordering::Equal && bc == Ordering::Equal ==> ac == Ordering::Equal)
    &&& (ab == Ordering::Less && bc != Ordering::Greater ==> ac == Ordering::Less)
    &&& (ab != Ordering::Greater && bc == Ordering::Less ==> ac == Ordering::Less)
}

/// The order on integers obeys the laws of a total order.
pub proof fn lemma_cmp_int_laws(a: int, b: int, c: int)
    ensures
        order_laws(cmp_int(a, b), cmp_int(b, a), cmp_int(a, a), cmp_int(b, c), cmp_int(a, c)),
{
}

/// Values obey the laws of a total order: comparing the other way round
/// gives the converse, every value equals itself, and the order and its
/// equality are transitive.
pub proof fn lemma_value_order_laws<SS: ValueBaseOrdered, SA: ValueBaseOrdered, DS, DA>(
    a: V<SS, SA, DS, DA>,
    b: V<SS, SA, DS, DA>,
    c: V<SS, SA, DS, DA>,
)
    ensures
        order_laws(value_cmp(a, b), value_cmp(b, a), value_cmp(a, a), value_cmp(b, c), value_cmp(a, c)),
    decreases a,
{
    lemma_cmp_int_laws(variant_rank(a), variant_rank(b), variant_rank(c));
    match a {
        V::Bool(x) => {
            lemma_cmp_int_laws(
                if x { 1 } else { 0 },
                if b matches V::Bool(y) && y { 1 } else { 0 },
                if c matches V::Bool(z) && z { 1 } else { 0 },
            );
        },
        V::Float(x) => {
            let ky = if let V::Float(y) = b { float::total_key(y.0) } else { 0 };
            let kz = if let V::Float(z) = c { float::total_key(z.0) } else { 0 };
            lemma_cmp_int_laws(float::total_key(x.0), ky, kz);
        },
        V::Int(x) => {
            let ky = if let V::Int(y) = b { y as int } else { 0 };
            let kz = if let V::Int(z) = c { z as int } else { 0 };
            lemma_cmp_int_laws(x as int, ky, kz);
        },
        V::Array(x) => {
            let ys = if let V::Array(y) = b { y@ } else { Seq::empty() };
            let zs = if let V::Array(z) = c { z@ } else { Seq::empty() };
            lemma_seq_order_laws(x@, ys, zs);
        },
        V::Mapping(x) => {
            let ys = if let V::Mapping(y) = b { y@ } else { Seq::empty() };
            let zs = if let V::Mapping(z) = c { z@ } else { Seq::empty() };
            lemma_entries_order_laws(x@, ys, zs);
        },
        V::Fun(f) => {
            let rf = f.rank();
            let rg = if let V::Fun(g) = b { g.rank() } else { rf };
            let rh = if let V::Fun(h) = c { h.rank() } else { rf };
            fun::lemma_rank_order_laws(rf, rg, rh);
        },
        V::Nil => {},
    }
}

/// Sequences of values obey the laws of a total order under the
/// lexicographic order.
pub proof fn lemma_seq_order_laws<SS: ValueBaseOrdered, SA: ValueBaseOrdered, DS, DA>(
    x: Seq<V<SS, SA, DS, DA>>,
    y: Seq<V<SS, SA, DS, DA>>,
    z: Seq<V<SS, SA, DS, DA>>,
)
    ensures
        order_laws(seq_cmp(x, y), seq_cmp(y, x), seq_cmp(x, x), seq_cmp(y, z), seq_cmp(x, z)),
    decreases x,
{
    if x.len() > 0 {
        let y0 = if y.len() > 0 { y[0] } else { x[0] };
        let z0 = if z.len() > 0 { z[0] } else { x[0] };
        lemma_value_order_laws(x[0], y0, z0);
        let ty = if y.len() > 0 { y.subrange(1, y.len() as int) } else { y };
        let tz = if z.len() > 0 { z.subrange(1, z.len() as int) } else { z };
        lemma_seq_order_laws(x.subrange(1, x.len() as int), ty, tz);
    }
}

/// Sequences of map entries obey the laws of a total order under the
/// lexicographic order.
pub proof fn lemma_entries_order_laws<SS: ValueBaseOrdered, SA: ValueBaseOrdered, DS, DA>(
    x: Seq<(V<SS, SA, DS, DA>, V<SS, SA, DS, DA>)>,
    y: Seq<(V<SS, SA, DS, DA>, V<SS, SA, DS, DA>)>,
    z: Seq<(V<SS, SA, DS, DA>, V<SS, SA, DS, DA>)>,
)
    ensures
        order_laws(entries_cmp(x, y), entries_cmp(y, x), entries_cmp(x, x), entries_cmp(y, z), entries_cmp(x, z)),
    decreases x,
{
    if x.len() > 0 {
        let y0 = if y.len() > 0 { y[0] } else { x[0] };
        let z0 = if z.len() > 0 { z[0] } else { x[0] };
        lemma_value_order_laws(x[0].0, y0.0, z0.0);
        lemma_value_order_laws(x[0].1, y0.1, z0.1);
        let ty = if y.len() > 0 { y.subrange(1, y.len() as int) } else { y };
        let tz = if z.len() > 0 { z.subrange(1, z.len() as int) } else { z };
        lemma_entries_order_laws(x.subrange(1, x.len() as int), ty, tz);
    }
}

/// Whether `b` is a copy of `a`: the same value, arrays and maps element by
/// element.
pub open spec fn same<SS, SA, DS, DA>(a: V<SS, SA, DS, DA>, b: V<SS, SA, DS, DA>) -> bool
    decreases a,
{
    match (a, b) {
        (V::Array(x), V::Array(y)) => same_seq(x@, y@),
        (V::Mapping(x), V::Mapping(y)) => same_entries(x@, y@),
        (V::Array(_), _) => false,
        (V::Mapping(_), _) => false,
        _ => a == b,
    }
}

/// Whether `y` is a copy of `x`, element by element.
pub open spec fn same_seq<SS, SA, DS, DA>(x: Seq<V<SS, SA, DS, DA>>, y: Seq<V<SS, SA, DS, DA>>) -> bool
    decreases x,
{
    if x.len() == 0 {
        y.len() == 0
    } else {
        &&& y.len() == x.len()
        &&& same(x[x.len() - 1], y[y.len() - 1])
        &&& same_seq(x.subrange(0, x.len() - 1), y.subrange(0, y.len() - 1))
    }
}

/// Whether `y` is a copy of `x`, entry by entry.
pub open spec fn same_entries<SS, SA, DS, DA>(
    x: Seq<(V<SS, SA, DS, DA>, V<SS, SA, DS, DA>)>,
    y: Seq<(V<SS, SA, DS, DA>, V<SS, SA, DS, DA>)>,
) -> bool
    decreases x,
{
    if x.len() == 0 {
        y.len() == 0
    } else {
        &&& y.len() == x.len()
        &&& same(x[x.len() - 1].0, y[y.len() - 1].0)
        &&& same(x[x.len() - 1].1, y[y.len() - 1].1)
        &&& same_entries(x.subrange(0, x.len() - 1), y.subrange(0, y.len() - 1))
    }
}

impl<SS: ValueBase, SA: ValueBase, DS: ValueBase, DA: ValueBase> V<SS, SA, DS, DA> {
    /// A copy of the value; arrays and maps are copied element by element.
    pub fn copy(&self) -> (r: Self)
        ensures
            same(*self, r),
        decreases self,
    {
        match self {
            V::Nil => V::Nil,
            V::Bool(b) => V::Bool(*b),
            V::Float(f) => V::Float(*f),
            V::Int(n) => V::Int(*n),
            V::Array(x) => {
                let mut r: Vec<V<SS, SA, DS, DA>> = Vec::new();
                let mut i: usize = 0;
                while i < x.len()
                    invariant
                        *self == V::<SS, SA, DS, DA>::Array(*x),
                        0 <= i <= x.len(),
                        same_seq(x@.subrange(0, i as int), r@),
                    decreases x.len() - i,
                {
                    proof {
                        assert(decreases_to!(*self => (*self)->Array_0));
                        assert(decreases_to!(*x => x@));
                        assert(decreases_to!(x@ => x@[i as int]));
                    }
                    let e = x[i].copy();
                    let ghost before = r@;
                    r.push(e);
                    proof {
                        let xs = x@.subrange(0, i + 1);
                        assert(xs.subrange(0, i as int) =~= x@.subrange(0, i as int));
                        assert(r@.subrange(0, i as int) =~= before);
                    }
                    i = i + 1;
                }
                proof {
                    assert(x@.subrange(0, x@.len() as int) =~= x@);
                }
                let res = V::Array(r);
                res
            },
            V::Mapping(x) => {
                let mut r: Vec<(V<SS, SA, DS, DA>, V<SS, SA, DS, DA>)> = Vec::new();
                let mut i: usize = 0;
                while i < x.len()
                    invariant
                        *self == V::<SS, SA, DS, DA>::Mapping(*x),
                        0 <= i <= x.len(),
                        same_entries(x@.subrange(0, i as int), r@),
                    decreases x.len() - i,
                {
                    proof {
                        assert(decreases_to!(*self => (*self)->Mapping_0));
                        assert(decreases_to!(*x => x@));
                        assert(decreases_to!(x@ => x@[i as int]));
                        assert(decreases_to!(x@[i as int] => x@[i as int].0));
                        assert(decreases_to!(x@[i as int] => x@[i as int].1));
                    }
                    let k = x[i].0.copy();
                    let v = x[i].1.copy();
                    let ghost before = r@;
                    r.push((k, v));
                    proof {
                        let xs = x@.subrange(0, i + 1);
                        assert(xs.subrange(0, i as int) =~= x@.subrange(0, i as int));
                        assert(r@.subrange(0, i as int) =~= before);
                    }
                    i = i + 1;
                }
                proof {
                    assert(x@.subrange(0, x@.len() as int) =~= x@);
                }
                let res = V::Mapping(r);
                res
            },
            V::Fun(f) => V::Fun(f.clone()),
        }
    }
}

impl<SS: ValueBase, SA: ValueBase, DS: ValueBase, DA: ValueBase> Clone for V<SS, SA, DS, DA> {
    fn clone(&self) -> (r: Self)
        ensures
            same(*self, r),
    {
        self.copy()
    }
}

impl<SS, SA, DS, DA> Default for V<SS, SA, DS, DA> {
    fn default() -> (r: Self)
        ensures
            r is Nil,
    {
        V::Nil
    }
}

/// Whether `v` is the string `s`: an array of the characters' code points.
pub open spec fn is_string<SS, SA, DS, DA>(v: V<SS, SA, DS, DA>, s: Seq<char>) -> bool {
    &&& v is Array
    &&& v->Array_0@.len() == s.len()
    &&& forall|i: int| 0 <= i < s.len() ==> #[trigger] v->Array_0@[i] == V::<SS, SA, DS, DA>::Int(s[i] as i64)
}

/// Whether `v` is `payload` under the tag `tag`: a pair of the tag, as a
/// string, and the payload.
pub open spec fn is_tagged<SS, SA, DS, DA>(v: V<SS, SA, DS, DA>, tag: Seq<char>, payload: V<SS, SA, DS, DA>) -> bool {
    &&& v is Array
    &&& v->Array_0@.len() == 2
    &&& is_string(v->Array_0@[0], tag)
    &&& v->Array_0@[1] == payload
}

/// Whether `v` is a successful outcome carrying `payload`.
pub open spec fn is_ok<SS, SA, DS, DA>(v: V<SS, SA, DS, DA>, payload: V<SS, SA, DS, DA>) -> bool {
    is_tagged(v, "ok"@, payload)
}

/// Whether `v` is a failed outcome carrying `payload`.
pub open spec fn is_err<SS, SA, DS, DA>(v: V<SS, SA, DS, DA>, payload: V<SS, SA, DS, DA>) -> bool {
    is_tagged(v, "err"@, payload)
}

/// Whether a value is truthy: everything but nil and false.
pub open spec fn truthy_spec<SS, SA, DS, DA>(v: V<SS, SA, DS, DA>) -> bool {
    !(v is Nil || v == V::<SS, SA, DS, DA>::Bool(false))
}

/// Whether a value is a NaN float.
pub open spec fn is_nan_value<SS, SA, DS, DA>(v: V<SS, SA, DS, DA>) -> bool {
    v matches V::Float(f) && float::is_nan(f.0)
}

/// The partial order on values: incomparable where either operand is a NaN,
/// the IEEE order between two floats, and the total order otherwise.
pub open spec fn partial_cmp_spec<SS: ValueBaseOrdered, SA: ValueBaseOrdered, DS, DA>(
    a: V<SS, SA, DS, DA>,
    b: V<SS, SA, DS, DA>,
) -> Option<Ordering> {
    if is_nan_value(a) || is_nan_value(b) {
        None
    } else {
        match (a, b) {
            (V::Float(x), V::Float(y)) => float::partial_cmp_spec(x.0, y.0),
            _ => Some(value_cmp(a, b)),
        }
    }
}

/// Applies a test to a partial comparison, keeping incomparability.
pub open spec fn partial_test(o: Option<Ordering>, lt: bool, eq: bool, gt: bool) -> Option<bool> {
    match o {
        None => None,
        Some(Ordering::Less) => Some(lt),
        Some(Ordering::Equal) => Some(eq),
        Some(Ordering::Greater) => Some(gt),
    }
}

impl<SS, SA, DS, DA> V<SS, SA, DS, DA> {
    /// Nil.
    pub fn nil() -> (r: Self)
        ensures
            r is Nil,
    {
        V::Nil
    }

    /// A boolean.
    pub fn boo(b: bool) -> (r: Self)
        ensures
            r == V::<SS, SA, DS, DA>::Bool(b),
    {
        V::Bool(b)
    }

    /// An integer.
    pub fn integer(n: i64) -> (r: Self)
        ensures
            r == V::<SS, SA, DS, DA>::Int(n),
    {
        V::Int(n)
    }

    /// A float.
    pub fn float(f: PavoFloat) -> (r: Self)
        ensures
            r == V::<SS, SA, DS, DA>::Float(f),
    {
        V::Float(f)
    }

    /// A string: the array of its characters' code points.
    pub fn string(s: &str) -> (r: Self)
        ensures
            is_string(r, s@),
    {
        let n = s.unicode_len();
        let mut x: Vec<V<SS, SA, DS, DA>> = Vec::new();
        let mut i: usize = 0;
        while i < n
            invariant
                n == s@.len(),
                i <= n,
                x@.len() == i,
                forall|j: int| 0 <= j < i ==> #[trigger] x@[j] == V::<SS, SA, DS, DA>::Int(s@[j] as i64),
            decreases n - i,
        {
            let c = s.get_char(i);
            x.push(V::Int(c as u32 as i64));
            i = i + 1;
        }
        V::Array(x)
    }

    /// A successful outcome: the pair of the string "ok" and the payload.
    pub fn ok(v: Self) -> (r: Self)
        ensures
            is_ok(r, v),
    {
        let mut x: Vec<V<SS, SA, DS, DA>> = Vec::new();
        x.push(V::string("ok"));
        x.push(v);
        V::Array(x)
    }

    /// A failed outcome: the pair of the string "err" and the payload.
    pub fn err(v: Self) -> (r: Self)
        ensures
            is_err(r, v),
    {
        let mut x: Vec<V<SS, SA, DS, DA>> = Vec::new();
        x.push(V::string("err"));
        x.push(v);
        V::Array(x)
    }

    /// A failed outcome that carries nil.
    pub fn err_nil() -> (r: Self)
        ensures
            is_err(r, V::<SS, SA, DS, DA>::Nil),
    {
        Self::err(Self::nil())
    }

    /// Whether the value is truthy: everything but nil and false, so also
    /// zero and the empty array.
    pub fn truthy(&self) -> (r: bool)
        ensures
            r == truthy_spec(*self),
    {
        match self {
            V::Nil => false,
            V::Bool(b) => *b,
            _ => true,
        }
    }

    /// Whether the value is a NaN float.
    pub fn is_nan(&self) -> (r: bool)
        ensures
            r == is_nan_value(*self),
    {
        match self {
            V::Float(f) => f.is_nan(),
            _ => false,
        }
    }

    /// The synchronous built-in function this value is, if it is one.
    pub fn as_built_in_function(self) -> (r: Option<SynchronousFun<SS, DS>>)
        ensures
            r matches Some(f) ==> self == V::<SS, SA, DS, DA>::Fun(Fun::SynchronousFunction(f)),
            r is None ==> !(self matches V::Fun(Fun::SynchronousFunction(_))),
    {
        match self {
            V::Fun(Fun::SynchronousFunction(f)) => Some(f),
            _ => None,
        }
    }

    /// The synchronous built-in function this value is, if it is one.
    pub fn as_built_in_function_ref(&self) -> (r: Option<&SynchronousFun<SS, DS>>)
        ensures
            r matches Some(f) ==> *self == V::<SS, SA, DS, DA>::Fun(Fun::SynchronousFunction(*f)),
            r is None ==> !(*self matches V::Fun(Fun::SynchronousFunction(_))),
    {
        match self {
            V::Fun(Fun::SynchronousFunction(f)) => Some(f),
            _ => None,
        }
    }

    /// The asynchronous built-in function this value is, if it is one.
    pub fn as_built_in_async(self) -> (r: Option<AsynchronousFun<SA, DA>>)
        ensures
            r matches Some(f) ==> self == V::<SS, SA, DS, DA>::Fun(Fun::AsynchronousFunction(f)),
            r is None ==> !(self matches V::Fun(Fun::AsynchronousFunction(_))),
    {
        match self {
            V::Fun(Fun::AsynchronousFunction(f)) => Some(f),
            _ => None,
        }
    }

    /// The asynchronous built-in function this value is, if it is one.
    pub fn as_built_in_async_ref(&self) -> (r: Option<&AsynchronousFun<SA, DA>>)
        ensures
            r matches Some(f) ==> *self == V::<SS, SA, DS, DA>::Fun(Fun::AsynchronousFunction(*f)),
            r is None ==> !(*self matches V::Fun(Fun::AsynchronousFunction(_))),
    {
        match self {
            V::Fun(Fun::AsynchronousFunction(f)) => Some(f),
            _ => None,
        }
    }

    /// The value of a closure.
    pub fn new_closure(c: Closure) -> (r: Self)
        ensures
            r == V::<SS, SA, DS, DA>::Fun(Fun::Closure(c)),
    {
        V::Fun(Fun::Closure(c))
    }

    /// The closure this value is, if it is one.
    pub fn as_closure(self) -> (r: Option<Closure>)
        ensures
            r matches Some(c) ==> self == V::<SS, SA, DS, DA>::Fun(Fun::Closure(c)),
            r is None ==> !(self matches V::Fun(Fun::Closure(_))),
    {
        match self {
            V::Fun(Fun::Closure(c)) => Some(c),
            _ => None,
        }
    }

    /// The closure this value is, if it is one.
    pub fn as_closure_ref(&self) -> (r: Option<&Closure>)
        ensures
            r matches Some(c) ==> *self == V::<SS, SA, DS, DA>::Fun(Fun::Closure(*c)),
            r is None ==> !(*self matches V::Fun(Fun::Closure(_))),
    {
        match self {
            V::Fun(Fun::Closure(c)) => Some(c),
            _ => None,
        }
    }
}

impl<SS: ValueBaseOrdered, SA: ValueBaseOrdered, DS: ValueBase, DA: ValueBase> V<SS, SA, DS, DA> {
    /// Equality under the total order; two NaN floats are equal.
    pub fn total_eq(&self, other: &Self) -> (r: bool)
        ensures
            r == (value_cmp(*self, *other) == Ordering::Equal),
    {
        match self.total_cmp(other) {
            Ordering::Equal => true,
            _ => false,
        }
    }

    /// The partial order: `None` where either operand is a NaN float, the
    /// IEEE order between two floats (-0.0 equal to 0.0), and the total order
    /// otherwise.
    pub fn partial_compare(&self, other: &Self) -> (r: Option<Ordering>)
        ensures
            r == partial_cmp_spec(*self, *other),
    {
        if self.is_nan() || other.is_nan() {
            return None;
        }
        match (self, other) {
            (V::Float(x), V::Float(y)) => x.partial_compare(y),
            _ => Some(self.total_cmp(other)),
        }
    }

    /// Whether `self < other` under the partial order.
    pub fn partial_lt(&self, other: &Self) -> (r: Option<bool>)
        ensures
            r == partial_test(partial_cmp_spec(*self, *other), true, false, false),
    {
        match self.partial_compare(other) {
            None => None,
            Some(Ordering::Less) => Some(true),
            Some(_) => Some(false),
        }
    }

    /// Whether `self <= other` under the partial order.
    pub fn partial_leq(&self, other: &Self) -> (r: Option<bool>)
        ensures
            r == partial_test(partial_cmp_spec(*self, *other), true, true, false),
    {
        match self.partial_compare(other) {
            None => None,
            Some(Ordering::Greater) => Some(false),
            Some(_) => Some(true),
        }
    }

    /// Whether `self == other` under the partial order.
    pub fn partial_eq(&self, other: &Self) -> (r: Option<bool>)
        ensures
            r == partial_test(partial_cmp_spec(*self, *other), false, true, false),
    {
        match self.partial_compare(other) {
            None => None,
            Some(Ordering::Equal) => Some(true),
            Some(_) => Some(false),
        }
    }

    /// Whether `self >= other` under the partial order.
    pub fn partial_geq(&self, other: &Self) -> (r: Option<bool>)
        ensures
            r == partial_test(partial_cmp_spec(*self, *other), false, true, true),
    {
        match self.partial_compare(other) {
            None => None,
            Some(Ordering::Less) => Some(false),
            Some(_) => Some(true),
        }
    }

    /// Whether `self > other` under the partial order.
    pub fn partial_gt(&self, other: &Self) -> (r: Option<bool>)
        ensures
            r == partial_test(partial_cmp_spec(*self, *other), false, false, true),
    {
        match self.partial_compare(other) {
            None => None,
            Some(Ordering::Greater) => Some(true),
            Some(_) => Some(false),
        }
    }

    /// Whether `self != other` under the partial order.
    pub fn partial_neq(&self, other: &Self) -> (r: Option<bool>)
        ensures
            r == partial_test(partial_cmp_spec(*self, *other), true, false, true),
    {
        match self.partial_compare(other) {
            None => None,
            Some(Ordering::Equal) => Some(false),
            Some(_) => Some(true),
        }
    }

    /// The greatest lower bound under the partial order: a copy of the lesser
    /// operand (of `self` where they are equal), `None` where they are
    /// incomparable.
    pub fn partial_greatest_lower_bound(&self, other: &Self) -> (r: Option<Self>)
        ensures
            r is None <==> partial_cmp_spec(*self, *other) is None,
            r matches Some(m) ==> same(
                if partial_cmp_spec(*self, *other) == Some(Ordering::Greater) { *other } else { *self },
                m,
            ),
    {
        match self.partial_compare(other) {
            None => None,
            Some(Ordering::Greater) => Some(other.copy()),
            Some(_) => Some(self.copy()),
        }
    }

    /// The least upper bound under the partial order: a copy of the greater
    /// operand (of `self` where they are equal), `None` where they are
    /// incomparable.
    pub fn partial_least_upper_bound(&self, other: &Self) -> (r: Option<Self>)
        ensures
            r is None <==> partial_cmp_spec(*self, *other) is None,
            r matches Some(m) ==> same(
                if partial_cmp_spec(*self, *other) == Some(Ordering::Less) { *other } else { *self },
                m,
            ),
    {
        match self.partial_compare(other) {
            None => None,
            Some(Ordering::Less) => Some(other.copy()),
            Some(_) => Some(self.copy()),
        }
    }
}

/// A NaN is comparable to nothing under the partial order, itself included,
/// on either side.
pub proof fn lemma_partial_nan_incomparable<SS: ValueBaseOrdered, SA: ValueBaseOrdered, DS, DA>(
    a: V<SS, SA, DS, DA>,
    b: V<SS, SA, DS, DA>,
)
    requires
        is_nan_value(a),
    ensures
        partial_cmp_spec(a, b) is None,
        partial_cmp_spec(b, a) is None,
{
}

/// Why a callable produced no value: a core primitive's failure or the
/// host's own.
#[derive(Debug)]
pub enum VvvmFailure<Val, F> {
    Core(CoreFailure<Val>),
    Other(F),
}

impl<Val, F> From<CoreFailure<Val>> for VvvmFailure<Val, F> {
    fn from(f: CoreFailure<Val>) -> (r: Self)
        ensures
            r == VvvmFailure::<Val, F>::Core(f),
    {
        VvvmFailure::Core(f)
    }
}

impl<Val, F> vstd::std_specs::convert::FromSpecImpl<CoreFailure<Val>> for VvvmFailure<Val, F> {
    open spec fn obeys_from_spec() -> bool {
        true
    }

    open spec fn from_spec(f: CoreFailure<Val>) -> Self {
        VvvmFailure::Core(f)
    }
}

/// What invoking an asynchronous callable hands the scheduler to poll: a
/// core future, which is ready at once, or the host's own.
#[derive(Debug)]
pub enum VvvmFuture<Val, Fut> {
    Core(CoreFuture<Val>),
    Other(Fut),
}

/// A synchronous native a host supplies: it takes a fixed number of
/// arguments and computes a value or fails.
pub trait SynchronousNative<Val, Fail> {
    /// The number of arguments it takes.
    fn arity(&self) -> usize;

    /// Runs it on as many arguments as its arity says.
    fn invoke(&mut self, args: &[Val]) -> Result<Val, Fail>;
}

/// An asynchronous native a host supplies: it takes a fixed number of
/// arguments and hands back a future for the scheduler to poll.
pub trait AsynchronousNative<Val, Fut> {
    /// The number of arguments it takes.
    fn arity(&self) -> usize;

    /// Starts it on as many arguments as its arity says.
    fn invoke(&mut self, args: &[Val]) -> Fut;
}

/// A native that a host keeps in a table of its own, named by its index
/// there. Such natives order by index.
#[derive(Clone, Copy, Debug, PartialEq, Eq, Structural)]
pub struct NativeIndex(pub u32);

impl ValueBase for NativeIndex {
    fn duplicate(&self) -> (r: Self) {
        *self
    }
}

impl ValueBaseOrdered for NativeIndex {
    open spec fn position(&self) -> int {
        self.0 as int
    }

    fn compare(&self, other: &Self) -> (r: Ordering) {
        cmp_i128(self.0 as i128, other.0 as i128)
    }
}

impl<SS: ValueBaseOrdered, SA: ValueBaseOrdered, DS: ValueBase, DA: ValueBase> PartialEq for V<SS, SA, DS, DA> {
    fn eq(&self, other: &Self) -> (r: bool) {
        self.total_eq(other)
    }
}

impl<SS: ValueBaseOrdered, SA: ValueBaseOrdered, DS: ValueBase, DA: ValueBase> vstd::std_specs::cmp::PartialEqSpecImpl for V<SS, SA, DS, DA> {
    open spec fn obeys_eq_spec() -> bool {
        true
    }

    open spec fn eq_spec(&self, other: &Self) -> bool {
        value_cmp(*self, *other) == Ordering::Equal
    }
}

impl<SS: ValueBaseOrdered, SA: ValueBaseOrdered, DS: ValueBase, DA: ValueBase> Eq for V<SS, SA, DS, DA> {
}

impl<SS: ValueBaseOrdered, SA: ValueBaseOrdered, DS: ValueBase, DA: ValueBase> PartialOrd for V<SS, SA, DS, DA> {
    fn partial_cmp(&self, other: &Self) -> (r: Option<Ordering>) {
        Some(self.total_cmp(other))
    }
}

impl<SS: ValueBaseOrdered, SA: ValueBaseOrdered, DS: ValueBase, DA: ValueBase> vstd::std_specs::cmp::PartialOrdSpecImpl for V<SS, SA, DS, DA> {
    open spec fn obeys_partial_cmp_spec() -> bool {
        true
    }

    open spec fn partial_cmp_spec(&self, other: &Self) -> Option<Ordering> {
        Some(value_cmp(*self, *other))
    }
}

/// Whether map entries stand in strictly increasing key order under the
/// total order, so that no two keys are equal.
pub open spec fn entries_sorted<SS: ValueBaseOrdered, SA: ValueBaseOrdered, DS, DA>(
    x: Seq<(V<SS, SA, DS, DA>, V<SS, SA, DS, DA>)>,
) -> bool {
    forall|i: int, j: int| 0 <= i < j < x.len() ==> #[trigger] value_cmp(x[i].0, x[j].0) == Ordering::Less
}

impl<SS: ValueBaseOrdered, SA: ValueBaseOrdered, DS: ValueBase, DA: ValueBase> V<SS, SA, DS, DA> {
    /// The value a map's entries hold under a key equal to `key`, if any.
    pub fn map_get<'a>(entries: &'a Vec<(Self, Self)>, key: &Self) -> (r: Option<&'a Self>)
        ensures
            r matches Some(v) ==> exists|i: int|
                0 <= i < entries@.len() && value_cmp(#[trigger] entries@[i].0, *key) == Ordering::Equal
                    && *v == entries@[i].1,
            r is None ==> forall|i: int|
                0 <= i < entries@.len() ==> value_cmp(#[trigger] entries@[i].0, *key) != Ordering::Equal,
    {
        let mut i: usize = 0;
        while i < entries.len()
            invariant
                i <= entries@.len(),
                forall|k: int| 0 <= k < i ==> value_cmp(#[trigger] entries@[k].0, *key) != Ordering::Equal,
            decreases entries@.len() - i,
        {
            if entries[i].0.total_eq(key) {
                return Some(&entries[i].1);
            }
            i = i + 1;
        }
        None
    }

    /// The entries with `value` under `key`: in place of the entry whose key
    /// equals `key`, or added at the place that keeps the keys in order.
    pub fn map_insert(entries: Vec<(Self, Self)>, key: Self, value: Self) -> (r: Vec<(Self, Self)>)
        requires
            entries_sorted(entries@),
        ensures
            entries_sorted(r@),
            exists|i: int| 0 <= i < r@.len() && #[trigger] r@[i] == (key, value),
            forall|i: int|
                0 <= i < entries@.len() && value_cmp(#[trigger] entries@[i].0, key) != Ordering::Equal
                    ==> r@.contains(entries@[i]),
            forall|i: int|
                0 <= i < r@.len() && value_cmp(#[trigger] r@[i].0, key) != Ordering::Equal
                    ==> entries@.contains(r@[i]),
    {
        let mut entries = entries;
        let ghost old_entries = entries@;
        let mut p: usize = 0;
        let mut stop = false;
        while p < entries.len() && !stop
            invariant
                entries@ == old_entries,
                p <= entries@.len(),
                forall|k: int| 0 <= k < p ==> value_cmp(#[trigger] entries@[k].0, key) == Ordering::Less,
                stop ==> p < entries@.len() && value_cmp(entries@[p as int].0, key) != Ordering::Less,
            decreases entries@.len() - p, if stop { 0int } else { 1int },
        {
            match entries[p].0.total_cmp(&key) {
                Ordering::Less => {
                    p = p + 1;
                },
                _ => {
                    stop = true;
                },
            }
        }
        let equal = p < entries.len() && entries[p].0.total_eq(&key);
        let ghost k = key;
        let ghost v = value;
        if equal {
            entries.set(p, (key, value));
            proof {
                lemma_replace_entry(old_entries, p as int, k, v);
            }
        } else {
            proof {
                if p < old_entries.len() {
                    lemma_value_order_laws(old_entries[p as int].0, k, k);
                }
            }
            entries.insert(p, (key, value));
            proof {
                lemma_insert_entry(old_entries, p as int, k, v);
            }
        }
        entries
    }
}

/// Replacing the entry whose key equals `key` keeps the entries sorted and
/// touches no other entry.
proof fn lemma_replace_entry<SS: ValueBaseOrdered, SA: ValueBaseOrdered, DS, DA>(e: Seq<(V<SS, SA, DS, DA>, V<SS, SA, DS, DA>)>, p: int, key: V<SS, SA, DS, DA>, value: V<SS, SA, DS, DA>)
    requires
        entries_sorted(e),
        0 <= p < e.len(),
        value_cmp(e[p].0, key) == Ordering::Equal,
    ensures
        entries_sorted(e.update(p, (key, value))),
        e.update(p, (key, value))[p] == (key, value),
        forall|i: int|
            0 <= i < e.len() && value_cmp(#[trigger] e[i].0, key) != Ordering::Equal
                ==> e.update(p, (key, value)).contains(e[i]),
        forall|i: int|
            0 <= i < e.len() && value_cmp(#[trigger] e.update(p, (key, value))[i].0, key) != Ordering::Equal
                ==> e.contains(e.update(p, (key, value))[i]),
{
    let r = e.update(p, (key, value));
    assert forall|i: int, j: int| 0 <= i < j < r.len() implies #[trigger] value_cmp(r[i].0, r[j].0)
        == Ordering::Less by {
        if i == p {
            lemma_value_order_laws(e[p].0, key, e[j].0);
            lemma_value_order_laws(key, e[p].0, e[j].0);
        } else if j == p {
            lemma_value_order_laws(e[i].0, e[p].0, key);
        }
    }
    assert(r[p] == (key, value));
    assert forall|i: int|
        0 <= i < e.len() && value_cmp(#[trigger] e[i].0, key) != Ordering::Equal implies r.contains(e[i]) by {
        assert(i != p);
        assert(r[i] == e[i]);
    }
    assert forall|i: int|
        0 <= i < r.len() && value_cmp(#[trigger] r[i].0, key) != Ordering::Equal implies e.contains(r[i]) by {
        lemma_value_order_laws(key, key, key);
        assert(i != p);
        assert(r[i] == e[i]);
    }
}

/// Adding an entry at the first place whose key is not below `key`, where no
/// key equals it, keeps the entries sorted and keeps every other entry.
proof fn lemma_insert_entry<SS: ValueBaseOrdered, SA: ValueBaseOrdered, DS, DA>(e: Seq<(V<SS, SA, DS, DA>, V<SS, SA, DS, DA>)>, p: int, key: V<SS, SA, DS, DA>, value: V<SS, SA, DS, DA>)
    requires
        entries_sorted(e),
        0 <= p <= e.len(),
        forall|k: int| 0 <= k < p ==> value_cmp(#[trigger] e[k].0, key) == Ordering::Less,
        p < e.len() ==> value_cmp(e[p].0, key) == Ordering::Greater,
    ensures
        entries_sorted(e.insert(p, (key, value))),
        e.insert(p, (key, value))[p] == (key, value),
        forall|i: int|
            0 <= i < e.len() && value_cmp(#[trigger] e[i].0, key) != Ordering::Equal
                ==> e.insert(p, (key, value)).contains(e[i]),
        forall|i: int|
            0 <= i <= e.len() && value_cmp(#[trigger] e.insert(p, (key, value))[i].0, key) != Ordering::Equal
                ==> e.contains(e.insert(p, (key, value))[i]),
{
    let r = e.insert(p, (key, value));
    assert forall|i: int, j: int| 0 <= i < j < r.len() implies #[trigger] value_cmp(r[i].0, r[j].0)
        == Ordering::Less by {
        if i < p && j == p {
        } else if i < p && j > p {
            assert(r[j] == e[j - 1]);
        } else if i == p {
            assert(r[j] == e[j - 1]);
            lemma_value_order_laws(key, e[p].0, e[j - 1].0);
            lemma_value_order_laws(e[p].0, key, key);
        } else if i > p {
            assert(r[i] == e[i - 1]);
            assert(r[j] == e[j - 1]);
        }
    }
    assert(r[p] == (key, value));
    assert forall|i: int|
        0 <= i < e.len() && value_cmp(#[trigger] e[i].0, key) != Ordering::Equal implies r.contains(e[i]) by {
        if i < p {
            assert(r[i] == e[i]);
        } else {
            assert(r[i + 1] == e[i]);
        }
    }
    assert forall|i: int|
        0 <= i < r.len() && value_cmp(#[trigger] r[i].0, key) != Ordering::Equal implies e.contains(r[i]) by {
        lemma_value_order_laws(key, key, key);
        if i < p {
            assert(r[i] == e[i]);
        } else {
            assert(i != p);
            assert(r[i] == e[i - 1]);
        }
    }
}

} // verus!
