use vvvm::float::PavoFloat;
use vvvm::fun::boolean;
use vvvm::fun::float;
use vvvm::fun::integer;
use vvvm::fun::order;
use vvvm::fun::util::{as_non_zero_int, as_positive_int};
use vvvm::fun::value;
use vvvm::fun::{CoreFailure, SynchronousCoreFunction};
use vvvm::{NativeIndex, V};

type Val = V<NativeIndex, NativeIndex, NativeIndex, NativeIndex>;
type Res = Result<Val, CoreFailure<Val>>;

fn num(n: i64) -> Val {
    V::Int(n)
}

fn flt(x: f64) -> Val {
    V::Float(PavoFloat(x.to_bits()))
}

fn text(v: &Val) -> Option<String> {
    match v {
        V::Array(items) => items
            .iter()
            .map(|c| match c {
                V::Int(n) => char::from_u32(*n as u32),
                _ => None,
            })
            .collect(),
        _ => None,
    }
}

fn tagged<'a>(v: &'a Val, tag: &str) -> Option<&'a Val> {
    match v {
        V::Array(items) if items.len() == 2 && text(&items[0]).as_deref() == Some(tag) => Some(&items[1]),
        _ => None,
    }
}

fn is_err_nil(r: &Res) -> bool {
    matches!(r, Ok(v) if matches!(tagged(v, "err"), Some(V::Nil)))
}

fn int_of(r: &Res) -> Option<i64> {
    match r {
        Ok(V::Int(n)) => Some(*n),
        _ => None,
    }
}

#[test]
fn it_works() {
    assert_eq!(2 + 2, 4);
}

#[test]
fn checked_add_overflow_is_data_level_err() {
    assert!(is_err_nil(&integer::add(&num(i64::MAX), &num(1))));
    assert_eq!(int_of(&integer::add(&num(2), &num(3))), Some(5));
}

#[test]
fn saturating_add_clamps() {
    assert_eq!(int_of(&integer::sat_add(&num(i64::MAX), &num(1))), Some(i64::MAX));
    assert_eq!(int_of(&integer::sat_sub(&num(i64::MIN), &num(1))), Some(i64::MIN));
    assert_eq!(int_of(&integer::sat_mul(&num(i64::MIN), &num(2))), Some(i64::MIN));
    assert_eq!(int_of(&integer::sat_mul(&num(-3), &num(i64::MIN))), Some(i64::MAX));
}

#[test]
fn wrapping_add_wraps() {
    assert_eq!(int_of(&integer::wrap_add(&num(i64::MAX), &num(1))), Some(i64::MIN));
    assert_eq!(int_of(&integer::wrap_sub(&num(i64::MIN), &num(1))), Some(i64::MAX));
    assert_eq!(int_of(&integer::wrap_mul(&num(i64::MAX), &num(2))), Some(-2));
    assert_eq!(int_of(&integer::wrap_neg(&num(i64::MIN))), Some(i64::MIN));
    assert_eq!(int_of(&integer::wrap_abs(&num(i64::MIN))), Some(i64::MIN));
    assert_eq!(int_of(&integer::wrap_div(&num(i64::MIN), &num(-1))), Some(i64::MIN));
}

#[test]
fn checked_multiplication_is_multiplication() {
    assert_eq!(int_of(&integer::mul(&num(6), &num(7))), Some(42));
    assert!(is_err_nil(&integer::mul(&num(i64::MAX), &num(2))));
}

#[test]
fn euclidean_and_truncating_division() {
    assert_eq!(int_of(&integer::div(&num(-7), &num(2))), Some(-4));
    assert_eq!(int_of(&integer::div_trunc(&num(-7), &num(2))), Some(-3));
    assert_eq!(int_of(&integer::mod_(&num(-7), &num(2))), Some(1));
    assert_eq!(int_of(&integer::mod_trunc(&num(-7), &num(2))), Some(-1));
    assert_eq!(int_of(&integer::div(&num(7), &num(-2))), Some(-3));
    assert_eq!(int_of(&integer::mod_(&num(7), &num(-2))), Some(1));
    assert!(is_err_nil(&integer::div(&num(i64::MIN), &num(-1))));
    assert!(is_err_nil(&integer::mod_trunc(&num(i64::MIN), &num(-1))));
    assert_eq!(int_of(&integer::wrap_mod_trunc(&num(i64::MIN), &num(-1))), Some(0));
}

#[test]
fn negation_and_absolute_value() {
    assert_eq!(int_of(&integer::neg(&num(5))), Some(-5));
    assert!(is_err_nil(&integer::neg(&num(i64::MIN))));
    assert_eq!(int_of(&integer::abs(&num(-9))), Some(9));
    assert!(is_err_nil(&integer::abs(&num(i64::MIN))));
    assert_eq!(int_of(&integer::signum(&num(-9))), Some(-1));
    assert_eq!(int_of(&integer::signum(&num(0))), Some(0));
}

#[test]
fn powers() {
    assert_eq!(int_of(&integer::pow(&num(3), &num(4))), Some(81));
    assert_eq!(int_of(&integer::pow(&num(-2), &num(63))), Some(i64::MIN));
    assert!(is_err_nil(&integer::pow(&num(2), &num(63))));
    assert_eq!(int_of(&integer::pow(&num(-1), &num(1_000_000_001))), Some(-1));
    assert_eq!(int_of(&integer::pow(&num(0), &num(0))), Some(1));
    assert_eq!(int_of(&integer::sat_pow(&num(-3), &num(41))), Some(i64::MIN));
    assert_eq!(int_of(&integer::sat_pow(&num(3), &num(41))), Some(i64::MAX));
    assert_eq!(int_of(&integer::wrap_pow(&num(3), &num(41))), Some(3i64.wrapping_pow(41)));
    assert_eq!(int_of(&integer::wrap_pow(&num(2), &num(64))), Some(0));
    assert_eq!(int_of(&integer::wrap_pow(&num(3), &num(1 << 40))), Some(wrapping_pow_by_squaring(3, 1 << 40)));
}

fn wrapping_pow_by_squaring(mut b: i64, mut e: u64) -> i64 {
    let mut r: i64 = 1;
    while e > 0 {
        if e % 2 == 1 {
            r = r.wrapping_mul(b);
        }
        b = b.wrapping_mul(b);
        e /= 2;
    }
    r
}

#[test]
fn bit_counts() {
    assert_eq!(int_of(&integer::bit_count_ones(&num(0b1011))), Some(3));
    assert_eq!(int_of(&integer::bit_count_ones(&num(-1))), Some(64));
    assert_eq!(int_of(&integer::bit_count_zeros(&num(0b1011))), Some(61));
    assert_eq!(int_of(&integer::bit_leading_zeros(&num(1))), Some(63));
    assert_eq!(int_of(&integer::bit_leading_ones(&num(-1))), Some(64));
    assert_eq!(int_of(&integer::bit_trailing_zeros(&num(8))), Some(3));
    assert_eq!(int_of(&integer::bit_trailing_ones(&num(7))), Some(3));
}

#[test]
fn bit_rotations_and_reversals() {
    let n: i64 = 0x0123_4567_89AB_CDEF;
    assert_eq!(int_of(&integer::bit_rotate_left(&num(n), &num(8))), Some(n.rotate_left(8)));
    assert_eq!(int_of(&integer::bit_rotate_right(&num(n), &num(72))), Some(n.rotate_right(8)));
    assert_eq!(int_of(&integer::bit_rotate_left(&num(n), &num(0))), Some(n));
    assert_eq!(int_of(&integer::bit_reverse_bytes(&num(n))), Some(n.swap_bytes()));
    assert_eq!(int_of(&integer::bit_reverse_bits(&num(n))), Some(n.reverse_bits()));
    assert_eq!(int_of(&integer::bit_reverse_bits(&num(1))), Some(i64::MIN));
}

#[test]
fn shift_by_sixty_four_or_more_is_zero() {
    for n in [1i64, -1, 12345, i64::MIN, i64::MAX] {
        assert_eq!(int_of(&integer::bit_shl(&num(n), &num(64))), Some(0));
        assert_eq!(int_of(&integer::bit_shl(&num(n), &num(1000))), Some(0));
        assert_eq!(int_of(&integer::bit_shr(&num(n), &num(64))), Some(0));
    }
    assert_eq!(int_of(&integer::bit_shl(&num(3), &num(2))), Some(12));
    assert_eq!(int_of(&integer::bit_shr(&num(-8), &num(1))), Some(-4));
}

#[test]
fn float_int_round_trip() {
    assert_eq!(int_of(&float::to_int(&flt(5.0))), Some(5));
    assert_eq!(int_of(&float::to_int(&flt(-5.9))), Some(-5));
    assert_eq!(int_of(&float::to_int(&flt(0.25))), Some(0));
    assert_eq!(int_of(&float::to_int(&flt(1e18))), Some(1_000_000_000_000_000_000));
    for x in [f64::NAN, 1e300, f64::INFINITY, -9.3e18, 9223372036854775808.0] {
        let r = float::to_int(&flt(x));
        match &r {
            Ok(v) => assert!(matches!(tagged(v, "err"), Some(V::Float(_)))),
            Err(_) => panic!("a primitive failure"),
        }
    }
}

fn float_of(r: &Res) -> Option<f64> {
    match r {
        Ok(V::Float(f)) => Some(f64::from_bits(f.0)),
        _ => None,
    }
}

#[test]
fn from_int_of_to_int_gives_back_five() {
    let n = float::to_int(&flt(5.0)).ok().unwrap();
    assert_eq!(float_of(&float::from_int(&n)), Some(5.0));
}

#[test]
fn from_int_rounds_to_nearest_even() {
    let cases = [
        0i64, 1, -1, 5, -7, 1 << 52, (1 << 53) + 1, (1 << 53) + 3, (1 << 54) + 2, (1 << 54) + 6,
        i64::MAX, i64::MIN, i64::MIN + 1, 0x0123_4567_89AB_CDEF, -0x7FFF_FFFF_FFFF_FC00, 0x7FFF_FFFF_FFFF_FDFF,
    ];
    for n in cases {
        let r = float::from_int(&num(n));
        assert_eq!(float_of(&r).map(f64::to_bits), Some((n as f64).to_bits()), "{}", n);
    }
    assert_eq!(float_of(&float::from_int(&num((1 << 53) + 1))), Some(9007199254740992.0));
    assert!(matches!(float::from_int(&flt(1.0)), Err(CoreFailure::NotInt(_))));
}

#[test]
fn float_bits() {
    assert_eq!(int_of(&float::to_bits(&flt(1.0))), Some(1.0f64.to_bits() as i64));
    assert_eq!(int_of(&float::to_bits(&flt(f64::NAN))), Some(-1));
    assert_eq!(int_of(&float::to_bits(&flt(-f64::NAN))), Some(-1));
    match float::from_bits(&num(2.5f64.to_bits() as i64)) {
        Ok(V::Float(f)) => assert_eq!(f64::from_bits(f.0), 2.5),
        _ => panic!("not a float"),
    }
}

#[test]
fn failures_name_the_argument() {
    assert!(matches!(boolean::not(&num(1)), Err(CoreFailure::NotBool(V::Int(1)))));
    assert!(matches!(float::to_int(&num(1)), Err(CoreFailure::NotFloat(V::Int(1)))));
    assert!(matches!(integer::add(&Val::Nil, &num(1)), Err(CoreFailure::NotInt(V::Nil))));
    assert!(matches!(integer::add(&num(1), &Val::Bool(true)), Err(CoreFailure::NotInt(V::Bool(true)))));
    assert!(matches!(integer::pow(&num(2), &num(-1)), Err(CoreFailure::NotPositiveInt(V::Int(-1)))));
    assert!(matches!(integer::div(&num(2), &num(0)), Err(CoreFailure::NotNonZeroInt(V::Int(0)))));
    assert!(matches!(value::halt(&num(7)), Err(CoreFailure::Halt(V::Int(7)))));
    assert!(matches!(as_positive_int::<NativeIndex, NativeIndex, NativeIndex, NativeIndex>(&num(-3)), Err(CoreFailure::NotPositiveInt(_))));
    assert!(matches!(as_non_zero_int::<NativeIndex, NativeIndex, NativeIndex, NativeIndex>(&num(0)), Err(CoreFailure::NotNonZeroInt(_))));
}

#[test]
fn booleans_check_both_arguments() {
    assert!(matches!(boolean::and(&Val::Bool(true), &Val::Bool(false)), Ok(V::Bool(false))));
    assert!(matches!(boolean::and(&Val::Bool(false), &num(0)), Err(CoreFailure::NotBool(V::Int(0)))));
    assert!(matches!(boolean::or(&Val::Bool(false), &Val::Bool(true)), Ok(V::Bool(true))));
    assert!(matches!(boolean::if_(&Val::Bool(false), &Val::Bool(false)), Ok(V::Bool(true))));
    assert!(matches!(boolean::if_(&Val::Bool(true), &Val::Bool(false)), Ok(V::Bool(false))));
    assert!(matches!(boolean::iff(&Val::Bool(true), &Val::Bool(true)), Ok(V::Bool(true))));
    assert!(matches!(boolean::xor(&Val::Bool(true), &Val::Bool(true)), Ok(V::Bool(false))));
    assert!(matches!(boolean::not(&Val::Bool(true)), Ok(V::Bool(false))));
}

#[test]
fn truthiness_and_types() {
    assert!(matches!(value::truthy(&num(0)), Ok(V::Bool(true))));
    assert!(matches!(value::truthy(&flt(0.0)), Ok(V::Bool(true))));
    assert!(matches!(value::truthy(&Val::Nil), Ok(V::Bool(false))));
    assert!(matches!(value::falsey(&Val::Bool(false)), Ok(V::Bool(true))));
    assert_eq!(text(&value::type_of(&Val::Nil).ok().unwrap()).as_deref(), Some("nil"));
    assert_eq!(text(&value::type_of(&num(3)).ok().unwrap()).as_deref(), Some("int"));
    assert_eq!(text(&value::type_of(&Val::Array(vec![])).ok().unwrap()).as_deref(), Some("array"));
}

#[test]
fn comparison_primitives() {
    let r = order::total_compare(&flt(f64::NAN), &flt(f64::NEG_INFINITY)).ok().unwrap();
    assert_eq!(text(&r).as_deref(), Some("<"));
    assert!(matches!(order::total_eq(&flt(f64::NAN), &flt(-f64::NAN)), Ok(V::Bool(true))));
    assert!(matches!(order::total_min(&num(3), &Val::Nil), Ok(V::Nil)));
    assert!(matches!(order::total_max(&num(3), &Val::Nil), Ok(V::Int(3))));
    assert!(is_err_nil(&order::partial_lt(&flt(f64::NAN), &flt(1.0))));
    assert!(is_err_nil(&order::partial_greatest_lower_bound(&flt(1.0), &flt(f64::NAN))));
    let r = order::partial_lt(&flt(1.0), &flt(2.0)).ok().unwrap();
    assert!(matches!(tagged(&r, "ok"), Some(V::Bool(true))));
    let r = order::partial_compare(&flt(-0.0), &flt(0.0)).ok().unwrap();
    assert_eq!(tagged(&r, "ok").and_then(text).as_deref(), Some("="));
}

#[test]
fn dispatch_runs_primitives() {
    let args = [num(40), num(2)];
    assert_eq!(SynchronousCoreFunction::IntAdd.arity(), 2);
    assert_eq!(int_of(&SynchronousCoreFunction::IntAdd.invoke(&args)), Some(42));
    assert_eq!(int_of(&SynchronousCoreFunction::IntWrapSub.invoke(&args)), Some(38));
    assert!(SynchronousCoreFunction::FloatSin.is_float_arithmetic());
    assert!(!SynchronousCoreFunction::FloatToInt.is_float_arithmetic());
    let fs = SynchronousCoreFunction::FloatAdd.float_arguments(&[flt(1.5), flt(2.0)]).ok().unwrap();
    assert_eq!(fs.len(), 2);
    assert_eq!(f64::from_bits(fs[0].0), 1.5);
    assert!(matches!(
        SynchronousCoreFunction::FloatAdd.float_arguments(&[flt(1.5), num(2)]),
        Err(CoreFailure::NotFloat(V::Int(2)))
    ));
}
