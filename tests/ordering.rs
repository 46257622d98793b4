use std::cmp::Ordering;

use vvvm::float::PavoFloat;
use vvvm::fun::{AsynchronousFun, Closure, Fun, OrdinalCounter, SynchronousCoreFunction, SynchronousFun};
use vvvm::{NativeIndex, V};

type Val = V<NativeIndex, NativeIndex, NativeIndex, NativeIndex>;
type Callable = Fun<NativeIndex, NativeIndex, NativeIndex, NativeIndex>;

fn flt(x: f64) -> Val {
    V::Float(PavoFloat(x.to_bits()))
}

fn pf(x: f64) -> PavoFloat {
    PavoFloat(x.to_bits())
}

fn samples() -> Vec<Val> {
    let mut counter = OrdinalCounter::new();
    let c1 = counter.register_closure(false).unwrap();
    let c2 = counter.register_closure(true).unwrap();
    let d: SynchronousFun<NativeIndex, NativeIndex> = counter.register_synchronous(NativeIndex(0)).unwrap();
    vec![
        V::Nil,
        V::Bool(false),
        V::Bool(true),
        flt(f64::NAN),
        flt(-f64::NAN),
        flt(f64::NEG_INFINITY),
        flt(-1.5),
        flt(-0.0),
        flt(0.0),
        flt(2.0),
        flt(f64::INFINITY),
        V::Int(i64::MIN),
        V::Int(0),
        V::Int(7),
        V::Array(vec![]),
        V::Array(vec![V::Int(1)]),
        V::Array(vec![V::Int(1), flt(f64::NAN)]),
        V::Array(vec![V::Int(2)]),
        V::Mapping(vec![]),
        V::Mapping(vec![(V::Int(1), V::Nil)]),
        V::Mapping(vec![(V::Int(1), V::Bool(true))]),
        V::Fun(Fun::SynchronousFunction(SynchronousFun::Core(SynchronousCoreFunction::ValueHalt))),
        V::Fun(Fun::SynchronousFunction(SynchronousFun::StaticSynchronous(NativeIndex(1)))),
        V::new_closure(c1),
        V::Fun(Fun::SynchronousFunction(d)),
        V::Fun(Fun::AsynchronousFunction(AsynchronousFun::StaticAsynchronous(NativeIndex(0)))),
        V::new_closure(c2),
    ]
}

fn flip(o: Ordering) -> Ordering {
    o.reverse()
}

#[test]
fn total_order_laws_hold_on_mixed_values() {
    let vs = samples();
    for a in &vs {
        assert_eq!(a.total_cmp(a), Ordering::Equal);
        for b in &vs {
            assert_eq!(b.total_cmp(a), flip(a.total_cmp(b)));
            for c in &vs {
                if a.total_cmp(b) == Ordering::Less && b.total_cmp(c) == Ordering::Less {
                    assert_eq!(a.total_cmp(c), Ordering::Less);
                }
                if a.total_eq(b) && b.total_eq(c) {
                    assert!(a.total_eq(c));
                }
            }
        }
    }
    for (i, a) in vs.iter().enumerate() {
        for b in &vs[i + 1..] {
            assert_ne!(a.total_cmp(b), Ordering::Greater);
        }
    }
}

#[test]
fn nan_total_order_identity() {
    assert_eq!(pf(f64::NAN).total_cmp(&pf(-f64::NAN)), Ordering::Equal);
    assert!(pf(f64::NAN).total_eq(&pf(f64::from_bits(0x7FF0_0000_0000_0001))));
    assert_eq!(pf(f64::NAN).total_cmp(&pf(f64::NEG_INFINITY)), Ordering::Less);
    assert_eq!(pf(f64::NAN).total_cmp(&pf(0.0)), Ordering::Less);
    assert_eq!(pf(-0.0).total_cmp(&pf(0.0)), Ordering::Less);
    assert!(!pf(-0.0).total_eq(&pf(0.0)));
    assert_eq!(pf(-0.0).partial_compare(&pf(0.0)), Some(Ordering::Equal));
    assert_eq!(pf(-3.0).total_cmp(&pf(-2.0)), Ordering::Less);
    assert_eq!(pf(1e300).total_cmp(&pf(f64::INFINITY)), Ordering::Less);
}

#[test]
fn partial_order_excludes_nan() {
    let nan = flt(f64::NAN);
    for x in samples() {
        assert_eq!(nan.partial_compare(&x), None);
        assert_eq!(x.partial_compare(&nan), None);
        assert!(nan.partial_greatest_lower_bound(&x).is_none());
        assert!(x.partial_least_upper_bound(&nan).is_none());
    }
    assert_eq!(flt(1.0).partial_lt(&flt(2.0)), Some(true));
    assert_eq!(flt(-0.0).partial_eq(&flt(0.0)), Some(true));
    assert_eq!(flt(1.0).partial_neq(&flt(f64::NAN)), None);
    assert!(matches!(flt(1.0).partial_greatest_lower_bound(&flt(-4.0)), Some(V::Float(f)) if f64::from_bits(f.0) == -4.0));
    assert!(matches!(flt(1.0).partial_least_upper_bound(&flt(-4.0)), Some(V::Float(f)) if f64::from_bits(f.0) == 1.0));
    assert_eq!(pf(f64::NAN).greatest_lower_bound(&pf(1.0)).map(|f| f.0), None);
    assert_eq!(pf(3.0).least_upper_bound(&pf(1.0)).map(|f| f.0), Some(3.0f64.to_bits()));
}

#[test]
fn ordinals_strictly_increase() {
    let mut counter = OrdinalCounter::new();
    let mut last = None;
    for i in 0..10 {
        let o = if i % 2 == 0 {
            counter.register_closure(i % 3 == 0).unwrap().ordinal
        } else {
            counter.fresh().unwrap()
        };
        if let Some(l) = last {
            assert!(o > l);
        }
        last = Some(o);
    }
    let mut full = OrdinalCounter { next: usize::MAX };
    assert_eq!(full.fresh(), None);
    assert_eq!(full.next, usize::MAX);
}

#[test]
fn callable_ordering() {
    let core: Callable = Fun::SynchronousFunction(SynchronousFun::Core(SynchronousCoreFunction::ValueHalt));
    let stat: Callable = Fun::SynchronousFunction(SynchronousFun::StaticSynchronous(NativeIndex(0)));
    let dynamic: Callable = Fun::SynchronousFunction(SynchronousFun::Dynamic {
        ordinal: 3,
        fun: vvvm::fun::DynamicSynchronous::Custom(NativeIndex(0)),
    });
    let closure: Callable = Fun::Closure(Closure { ordinal: 5, asynchronous: false });
    let order = [&core, &stat, &dynamic, &closure];
    for i in 0..order.len() {
        for j in i + 1..order.len() {
            assert_eq!(order[i].total_cmp(order[j]), Ordering::Less);
            assert_eq!(order[j].total_cmp(order[i]), Ordering::Greater);
        }
    }
    let late: Callable = Fun::Closure(Closure { ordinal: 1, asynchronous: true });
    for f in order {
        assert_eq!(f.total_cmp(&late), Ordering::Less);
    }
    let twin: Callable = Fun::Closure(Closure { ordinal: 3, asynchronous: false });
    assert!(!dynamic.total_eq(&twin));
    assert_eq!(dynamic.total_cmp(&twin), Ordering::Less);
    assert!(closure.total_eq(&Fun::Closure(Closure { ordinal: 5, asynchronous: false })));
}

#[test]
fn values_copy_and_construct() {
    let v: Val = V::Array(vec![V::Int(1), V::Mapping(vec![(V::Nil, flt(2.0))])]);
    let w = v.clone();
    assert!(v.total_eq(&w));
    assert!(matches!(V::<NativeIndex, NativeIndex, NativeIndex, NativeIndex>::boo(true), V::Bool(true)));
    assert!(matches!(Val::default(), V::Nil));
    let s = Val::string("ab");
    assert!(matches!(&s, V::Array(x) if x.len() == 2 && matches!(x[0], V::Int(97)) && matches!(x[1], V::Int(98))));
    assert!(matches!(Val::err_nil(), V::Array(x) if x.len() == 2 && matches!(x[1], V::Nil)));
    assert!(Val::Int(0).truthy());
    assert!(!Val::Bool(false).truthy());
    let c = Closure { ordinal: 4, asynchronous: true };
    assert_eq!(Val::new_closure(c).as_closure(), Some(c));
    assert!(Val::Nil.as_closure().is_none());
}

#[test]
fn map_entries_stay_sorted_and_unique() {
    let mut m: Vec<(Val, Val)> = Vec::new();
    for k in [5i64, 1, 3, 1, 9] {
        m = Val::map_insert(m, V::Int(k), V::Int(k * 10));
    }
    m = Val::map_insert(m, flt(f64::NAN), V::Nil);
    m = Val::map_insert(m, flt(-f64::NAN), V::Bool(true));
    let keys: Vec<String> = m.iter().map(|(k, _)| format!("{:?}", k)).collect();
    assert_eq!(m.len(), 5);
    for w in m.windows(2) {
        assert_eq!(w[0].0.total_cmp(&w[1].0), Ordering::Less, "{:?}", keys);
    }
    assert!(matches!(Val::map_get(&m, &V::Int(3)), Some(V::Int(30))));
    assert!(matches!(Val::map_get(&m, &V::Int(1)), Some(V::Int(10))));
    assert!(matches!(Val::map_get(&m, &flt(f64::NAN)), Some(V::Bool(true))));
    assert!(Val::map_get(&m, &V::Int(4)).is_none());
}
