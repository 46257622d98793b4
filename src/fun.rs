//! Callables: the core primitives, the natives a host supplies and closures,
//! with the total order that places them all in one sequence.

use vstd::prelude::*;
use core::cmp::Ordering;
use crate::{cmp_i128, ValueBase, ValueBaseOrdered, SynchronousNative, AsynchronousNative, VvvmFailure, VvvmFuture};
use crate::float::PavoFloat;

pub mod util;
pub mod integer;
pub mod value;
pub mod boolean;
pub mod order;
pub mod float;

verus! {

/// What a closure shows of itself: the ordinal it was registered under and
/// whether calling it suspends. The scheduler owns everything else about it.
#[derive(Clone, Copy, Debug, PartialEq, Eq, Structural)]
pub struct Closure {
    pub ordinal: usize,
    pub asynchronous: bool,
}

/// A synchronous callable: a core primitive, a static host native, or a
/// dynamically registered native with its ordinal.
#[derive(Debug)]
pub enum SynchronousFun<S, D> {
    Core(SynchronousCoreFunction),
    StaticSynchronous(S),
    Dynamic { ordinal: usize, fun: DynamicSynchronous<D> },
}

/// A dynamically registered synchronous native: a dynamic core primitive or
/// one of the host's.
#[derive(Debug)]
pub enum DynamicSynchronous<D> {
    Core(DynamicCoreFunction),
    Custom(D),
}

/// An asynchronous callable: a core primitive, a static host native, or a
/// dynamically registered native with its ordinal.
#[derive(Debug)]
pub enum AsynchronousFun<S, D> {
    Core(AsynchronousCoreFunction),
    StaticAsynchronous(S),
    Dynamic { ordinal: usize, fun: D },
}

/// Anything that can be called.
#[derive(Debug)]
pub enum Fun<SS, SA, DS, DA> {
    SynchronousFunction(SynchronousFun<SS, DS>),
    AsynchronousFunction(AsynchronousFun<SA, DA>),
    Closure(Closure),
}

/// The built-in asynchronous primitives.
#[derive(Clone, Copy, Debug, PartialEq, Eq, Structural)]
pub enum AsynchronousCoreFunction {
    PreemptiveYield,
}

/// The built-in primitives that are registered dynamically. The one
/// variant holds the place: it has no behaviour yet, so a dynamic native
/// that is invoked is one of the host's.
#[derive(Clone, Copy, Debug, PartialEq, Eq, Structural)]
pub enum DynamicCoreFunction {
    Foo,
}

/// Why a primitive did not produce a value.
#[derive(Debug)]
pub enum CoreFailure<Val> {
    Halt(Val),
    NotBool(Val),
    NotFloat(Val),
    NotInt(Val),
    NotPositiveInt(Val),
    NotNonZeroInt(Val),
}

/// A place in the order of callables: synchrony (0 or 1), then tier (core 0,
/// static 1, ordinal-bearing 2), then the place inside the tier, then 0 for a
/// dynamic native and 1 for a closure, so that no two distinct entities tie.
pub struct Rank {
    pub synchrony: int,
    pub tier: int,
    pub place: int,
    pub closure: int,
}

/// Lexicographic order on ranks.
pub open spec fn rank_cmp(a: Rank, b: Rank) -> Ordering {
    if a.synchrony != b.synchrony {
        crate::cmp_int(a.synchrony, b.synchrony)
    } else if a.tier != b.tier {
        crate::cmp_int(a.tier, b.tier)
    } else if a.place != b.place {
        crate::cmp_int(a.place, b.place)
    } else {
        crate::cmp_int(a.closure, b.closure)
    }
}

impl<S: ValueBaseOrdered, D> SynchronousFun<S, D> {
    /// The place of this callable in the order of callables.
    pub open spec fn rank(&self) -> Rank {
        match self {
            SynchronousFun::Core(c) => Rank { synchrony: 0, tier: 0, place: c.spec_index(), closure: 0 },
            SynchronousFun::StaticSynchronous(s) => Rank { synchrony: 0, tier: 1, place: s.position(), closure: 0 },
            SynchronousFun::Dynamic { ordinal, .. } => Rank { synchrony: 0, tier: 2, place: *ordinal as int, closure: 0 },
        }
    }

    /// The tier: core 0, static 1, dynamic 2.
    pub fn tier(&self) -> (r: u8)
        ensures
            r as int == self.rank().tier,
    {
        match self {
            SynchronousFun::Core(_) => 0,
            SynchronousFun::StaticSynchronous(_) => 1,
            SynchronousFun::Dynamic { .. } => 2,
        }
    }

    /// Orders by tier (core below static below dynamic), then by primitive
    /// order, the host's order or the ordinal.
    pub fn total_cmp(&self, other: &Self) -> (r: Ordering)
        ensures
            r == rank_cmp(self.rank(), other.rank()),
    {
        match (self, other) {
            (SynchronousFun::Core(a), SynchronousFun::Core(b)) => cmp_i128(a.index() as i128, b.index() as i128),
            (SynchronousFun::StaticSynchronous(a), SynchronousFun::StaticSynchronous(b)) => a.compare(b),
            (SynchronousFun::Dynamic { ordinal: a, .. }, SynchronousFun::Dynamic { ordinal: b, .. }) => cmp_i128(*a as i128, *b as i128),
            _ => cmp_i128(self.tier() as i128, other.tier() as i128),
        }
    }

    /// Equality: the same primitive, natives at the same place in the host's
    /// order, or dynamic natives with the same ordinal.
    pub fn total_eq(&self, other: &Self) -> (r: bool)
        ensures
            r == (rank_cmp(self.rank(), other.rank()) == Ordering::Equal),
    {
        match self.total_cmp(other) {
            Ordering::Equal => true,
            _ => false,
        }
    }
}

impl<S: ValueBaseOrdered, D> AsynchronousFun<S, D> {
    /// The place of this callable in the order of callables.
    pub open spec fn rank(&self) -> Rank {
        match self {
            AsynchronousFun::Core(c) => Rank { synchrony: 1, tier: 0, place: c.spec_index(), closure: 0 },
            AsynchronousFun::StaticAsynchronous(s) => Rank { synchrony: 1, tier: 1, place: s.position(), closure: 0 },
            AsynchronousFun::Dynamic { ordinal, .. } => Rank { synchrony: 1, tier: 2, place: *ordinal as int, closure: 0 },
        }
    }

    /// The tier: core 0, static 1, dynamic 2.
    pub fn tier(&self) -> (r: u8)
        ensures
            r as int == self.rank().tier,
    {
        match self {
            AsynchronousFun::Core(_) => 0,
            AsynchronousFun::StaticAsynchronous(_) => 1,
            AsynchronousFun::Dynamic { .. } => 2,
        }
    }

    /// Orders by tier (core below static below dynamic), then by primitive
    /// order, the host's order or the ordinal.
    pub fn total_cmp(&self, other: &Self) -> (r: Ordering)
        ensures
            r == rank_cmp(self.rank(), other.rank()),
    {
        match (self, other) {
            (AsynchronousFun::Core(a), AsynchronousFun::Core(b)) => cmp_i128(a.index() as i128, b.index() as i128),
            (AsynchronousFun::StaticAsynchronous(a), AsynchronousFun::StaticAsynchronous(b)) => a.compare(b),
            (AsynchronousFun::Dynamic { ordinal: a, .. }, AsynchronousFun::Dynamic { ordinal: b, .. }) => cmp_i128(*a as i128, *b as i128),
            _ => cmp_i128(self.tier() as i128, other.tier() as i128),
        }
    }

    /// Equality: the same primitive, natives at the same place in the host's
    /// order, or dynamic natives with the same ordinal.
    pub fn total_eq(&self, other: &Self) -> (r: bool)
        ensures
            r == (rank_cmp(self.rank(), other.rank()) == Ordering::Equal),
    {
        match self.total_cmp(other) {
            Ordering::Equal => true,
            _ => false,
        }
    }
}

impl Closure {
    /// The place of this closure in the order of callables: in the tier of
    /// its synchrony, beside the dynamic natives, by ordinal.
    pub open spec fn rank(&self) -> Rank {
        Rank { synchrony: if self.asynchronous { 1 } else { 0 }, tier: 2, place: self.ordinal as int, closure: 1 }
    }
}

impl<SS: ValueBaseOrdered, SA: ValueBaseOrdered, DS, DA> Fun<SS, SA, DS, DA> {
    /// The place of this callable in the order of callables.
    pub open spec fn rank(&self) -> Rank {
        match self {
            Fun::SynchronousFunction(f) => f.rank(),
            Fun::AsynchronousFunction(f) => f.rank(),
            Fun::Closure(c) => c.rank(),
        }
    }

    /// Synchrony and tier in one number: three times the synchrony plus the tier.
    fn class(&self) -> (r: i128)
        ensures
            r == 3 * self.rank().synchrony + self.rank().tier,
    {
        match self {
            Fun::SynchronousFunction(f) => f.tier() as i128,
            Fun::AsynchronousFunction(f) => 3 + f.tier() as i128,
            Fun::Closure(c) => if c.asynchronous { 5 } else { 2 },
        }
    }

    /// Ordinal and kind in one number, for the ordinal-bearing tier.
    fn ordinal_key(&self) -> (r: i128)
        ensures
            self.rank().tier == 2 ==> r == 2 * self.rank().place + self.rank().closure,
    {
        match self {
            Fun::SynchronousFunction(SynchronousFun::Dynamic { ordinal, .. }) => 2 * (*ordinal as i128),
            Fun::AsynchronousFunction(AsynchronousFun::Dynamic { ordinal, .. }) => 2 * (*ordinal as i128),
            Fun::Closure(c) => 2 * (c.ordinal as i128) + 1,
            _ => 0,
        }
    }

    /// The total order on callables: every synchronous entity below every
    /// asynchronous one; within a synchrony, core primitives, then static
    /// natives, then dynamic natives and closures together by ordinal, a
    /// dynamic native below a closure that has the same ordinal.
    pub fn total_cmp(&self, other: &Self) -> (r: Ordering)
        ensures
            r == rank_cmp(self.rank(), other.rank()),
    {
        match cmp_i128(self.class(), other.class()) {
            Ordering::Equal => {},
            o => { return o; },
        }
        match (self, other) {
            (Fun::SynchronousFunction(a), Fun::SynchronousFunction(b)) => a.total_cmp(b),
            (Fun::AsynchronousFunction(a), Fun::AsynchronousFunction(b)) => a.total_cmp(b),
            _ => cmp_i128(self.ordinal_key(), other.ordinal_key()),
        }
    }

    /// Equality of callables: the same place in the order. A closure and a
    /// dynamic native are never equal.
    pub fn total_eq(&self, other: &Self) -> (r: bool)
        ensures
            r == (rank_cmp(self.rank(), other.rank()) == Ordering::Equal),
    {
        match self.total_cmp(other) {
            Ordering::Equal => true,
            _ => false,
        }
    }
}

impl AsynchronousCoreFunction {
    /// The place of the primitive in declaration order.
    pub open spec fn spec_index(&self) -> int {
        0
    }

    /// The place of the primitive in declaration order.
    pub fn index(&self) -> (r: u8)
        ensures
            r as int == self.spec_index(),
    {
        0
    }

    /// The number of arguments the primitive takes.
    pub fn arity(&self) -> (r: usize)
        ensures
            r == 0,
    {
        match self {
            AsynchronousCoreFunction::PreemptiveYield => 0,
        }
    }
}

/// The built-in synchronous primitives, in their order.
#[derive(Clone, Copy, Debug, PartialEq, Eq, Structural)]
pub enum SynchronousCoreFunction {
    ValueHalt,
    ValueTypeOf,
    ValueTruthy,
    ValueFalsey,

    OrderTotalCompare,
    OrderTotalLt,
    OrderTotalLeq,
    OrderTotalEq,
    OrderTotalGeq,
    OrderTotalGt,
    OrderTotalNeq,
    OrderTotalMin,
    OrderTotalMax,

    OrderPartialCompare,
    OrderPartialLt,
    OrderPartialLeq,
    OrderPartialEq,
    OrderPartialGeq,
    OrderPartialGt,
    OrderPartialNeq,
    OrderPartialGreatestLowerBound,
    OrderPartialLeastUpperBound,

    BoolNot,
    BoolAnd,
    BoolOr,
    BoolIf,
    BoolIff,
    BoolXor,

    FloatAdd,
    FloatSub,
    FloatMul,
    FloatDiv,
    FloatMulAdd,
    FloatNeg,
    FloatFloor,
    FloatCeil,
    FloatRound,
    FloatTrunc,
    FloatFract,
    FloatAbs,
    FloatSignum,
    FloatPow,
    FloatSqrt,
    FloatExp,
    FloatExp2,
    FloatLn,
    FloatLog2,
    FloatLog10,
    FloatHypot,
    FloatSin,
    FloatCos,
    FloatTan,
    FloatAsin,
    FloatAcos,
    FloatAtan,
    FloatAtan2,
    FloatExpM1,
    FloatLn1P,
    FloatSinh,
    FloatCosh,
    FloatTanh,
    FloatAsinh,
    FloatAcosh,
    FloatAtanh,
    FloatIsNormal,
    FloatToDegrees,
    FloatToRadians,
    FloatToInt,
    FloatFromInt,
    FloatToBits,
    FloatFromBits,

    IntSignum,
    IntAdd,
    IntSub,
    IntMul,
    IntDiv,
    IntDivTrunc,
    IntMod,
    IntModTrunc,
    IntNeg,
    IntAbs,
    IntPow,

    IntSatAdd,
    IntSatSub,
    IntSatMul,
    IntSatPow,

    IntWrapAdd,
    IntWrapSub,
    IntWrapMul,
    IntWrapDiv,
    IntWrapDivTrunc,
    IntWrapMod,
    IntWrapModTrunc,
    IntWrapNeg,
    IntWrapAbs,
    IntWrapPow,

    IntBitCountOnes,
    IntBitCountZeros,
    IntBitLeadingOnes,
    IntBitLeadingZeros,
    IntBitTrailingOnes,
    IntBitTrailingZeros,
    IntBitRotateLeft,
    IntBitRotateRight,
    IntBitReverseBytes,
    IntBitReverseBits,
    IntBitShl,
    IntBitShr,
}

impl SynchronousCoreFunction {
    /// The place of the primitive in declaration order.
    pub open spec fn spec_index(&self) -> int {
        match self {
            SynchronousCoreFunction::ValueHalt => 0,
            SynchronousCoreFunction::ValueTypeOf => 1,
            SynchronousCoreFunction::ValueTruthy => 2,
            SynchronousCoreFunction::ValueFalsey => 3,
            SynchronousCoreFunction::OrderTotalCompare => 4,
            SynchronousCoreFunction::OrderTotalLt => 5,
            SynchronousCoreFunction::OrderTotalLeq => 6,
            SynchronousCoreFunction::OrderTotalEq => 7,
            SynchronousCoreFunction::OrderTotalGeq => 8,
            SynchronousCoreFunction::OrderTotalGt => 9,
            SynchronousCoreFunction::OrderTotalNeq => 10,
            SynchronousCoreFunction::OrderTotalMin => 11,
            SynchronousCoreFunction::OrderTotalMax => 12,
            SynchronousCoreFunction::OrderPartialCompare => 13,
            SynchronousCoreFunction::OrderPartialLt => 14,
            SynchronousCoreFunction::OrderPartialLeq => 15,
            SynchronousCoreFunction::OrderPartialEq => 16,
            SynchronousCoreFunction::OrderPartialGeq => 17,
            SynchronousCoreFunction::OrderPartialGt => 18,
            SynchronousCoreFunction::OrderPartialNeq => 19,
            SynchronousCoreFunction::OrderPartialGreatestLowerBound => 20,
            SynchronousCoreFunction::OrderPartialLeastUpperBound => 21,
            SynchronousCoreFunction::BoolNot => 22,
            SynchronousCoreFunction::BoolAnd => 23,
            SynchronousCoreFunction::BoolOr => 24,
            SynchronousCoreFunction::BoolIf => 25,
            SynchronousCoreFunction::BoolIff => 26,
            SynchronousCoreFunction::BoolXor => 27,
            SynchronousCoreFunction::FloatAdd => 28,
            SynchronousCoreFunction::FloatSub => 29,
            SynchronousCoreFunction::FloatMul => 30,
            SynchronousCoreFunction::FloatDiv => 31,
            SynchronousCoreFunction::FloatMulAdd => 32,
            SynchronousCoreFunction::FloatNeg => 33,
            SynchronousCoreFunction::FloatFloor => 34,
            SynchronousCoreFunction::FloatCeil => 35,
            SynchronousCoreFunction::FloatRound => 36,
            SynchronousCoreFunction::FloatTrunc => 37,
            SynchronousCoreFunction::FloatFract => 38,
            SynchronousCoreFunction::FloatAbs => 39,
            SynchronousCoreFunction::FloatSignum => 40,
            SynchronousCoreFunction::FloatPow => 41,
            SynchronousCoreFunction::FloatSqrt => 42,
            SynchronousCoreFunction::FloatExp => 43,
            SynchronousCoreFunction::FloatExp2 => 44,
            SynchronousCoreFunction::FloatLn => 45,
            SynchronousCoreFunction::FloatLog2 => 46,
            SynchronousCoreFunction::FloatLog10 => 47,
            SynchronousCoreFunction::FloatHypot => 48,
            SynchronousCoreFunction::FloatSin => 49,
            SynchronousCoreFunction::FloatCos => 50,
            SynchronousCoreFunction::FloatTan => 51,
            SynchronousCoreFunction::FloatAsin => 52,
            SynchronousCoreFunction::FloatAcos => 53,
            SynchronousCoreFunction::FloatAtan => 54,
            SynchronousCoreFunction::FloatAtan2 => 55,
            SynchronousCoreFunction::FloatExpM1 => 56,
            SynchronousCoreFunction::FloatLn1P => 57,
            SynchronousCoreFunction::FloatSinh => 58,
            SynchronousCoreFunction::FloatCosh => 59,
            SynchronousCoreFunction::FloatTanh => 60,
            SynchronousCoreFunction::FloatAsinh => 61,
            SynchronousCoreFunction::FloatAcosh => 62,
            SynchronousCoreFunction::FloatAtanh => 63,
            SynchronousCoreFunction::FloatIsNormal => 64,
            SynchronousCoreFunction::FloatToDegrees => 65,
            SynchronousCoreFunction::FloatToRadians => 66,
            SynchronousCoreFunction::FloatToInt => 67,
            SynchronousCoreFunction::FloatFromInt => 68,
            SynchronousCoreFunction::FloatToBits => 69,
            SynchronousCoreFunction::FloatFromBits => 70,
            SynchronousCoreFunction::IntSignum => 71,
            SynchronousCoreFunction::IntAdd => 72,
            SynchronousCoreFunction::IntSub => 73,
            SynchronousCoreFunction::IntMul => 74,
            SynchronousCoreFunction::IntDiv => 75,
            SynchronousCoreFunction::IntDivTrunc => 76,
            SynchronousCoreFunction::IntMod => 77,
            SynchronousCoreFunction::IntModTrunc => 78,
            SynchronousCoreFunction::IntNeg => 79,
            SynchronousCoreFunction::IntAbs => 80,
            SynchronousCoreFunction::IntPow => 81,
            SynchronousCoreFunction::IntSatAdd => 82,
            SynchronousCoreFunction::IntSatSub => 83,
            SynchronousCoreFunction::IntSatMul => 84,
            SynchronousCoreFunction::IntSatPow => 85,
            SynchronousCoreFunction::IntWrapAdd => 86,
            SynchronousCoreFunction::IntWrapSub => 87,
            SynchronousCoreFunction::IntWrapMul => 88,
            SynchronousCoreFunction::IntWrapDiv => 89,
            SynchronousCoreFunction::IntWrapDivTrunc => 90,
            SynchronousCoreFunction::IntWrapMod => 91,
            SynchronousCoreFunction::IntWrapModTrunc => 92,
            SynchronousCoreFunction::IntWrapNeg => 93,
            SynchronousCoreFunction::IntWrapAbs => 94,
            SynchronousCoreFunction::IntWrapPow => 95,
            SynchronousCoreFunction::IntBitCountOnes => 96,
            SynchronousCoreFunction::IntBitCountZeros => 97,
            SynchronousCoreFunction::IntBitLeadingOnes => 98,
            SynchronousCoreFunction::IntBitLeadingZeros => 99,
            SynchronousCoreFunction::IntBitTrailingOnes => 100,
            SynchronousCoreFunction::IntBitTrailingZeros => 101,
            SynchronousCoreFunction::IntBitRotateLeft => 102,
            SynchronousCoreFunction::IntBitRotateRight => 103,
            SynchronousCoreFunction::IntBitReverseBytes => 104,
            SynchronousCoreFunction::IntBitReverseBits => 105,
            SynchronousCoreFunction::IntBitShl => 106,
            SynchronousCoreFunction::IntBitShr => 107,
        }
    }

    /// The number of arguments the primitive takes.
    pub open spec fn spec_arity(&self) -> nat {
        match self {
            SynchronousCoreFunction::ValueHalt => 1,
            SynchronousCoreFunction::ValueTypeOf => 1,
            SynchronousCoreFunction::ValueTruthy => 1,
            SynchronousCoreFunction::ValueFalsey => 1,
            SynchronousCoreFunction::OrderTotalCompare => 2,
            SynchronousCoreFunction::OrderTotalLt => 2,
            SynchronousCoreFunction::OrderTotalLeq => 2,
            SynchronousCoreFunction::OrderTotalEq => 2,
            SynchronousCoreFunction::OrderTotalGeq => 2,
            SynchronousCoreFunction::OrderTotalGt => 2,
            SynchronousCoreFunction::OrderTotalNeq => 2,
            SynchronousCoreFunction::OrderTotalMin => 2,
            SynchronousCoreFunction::OrderTotalMax => 2,
            SynchronousCoreFunction::OrderPartialCompare => 2,
            SynchronousCoreFunction::OrderPartialLt => 2,
            SynchronousCoreFunction::OrderPartialLeq => 2,
            SynchronousCoreFunction::OrderPartialEq => 2,
            SynchronousCoreFunction::OrderPartialGeq => 2,
            SynchronousCoreFunction::OrderPartialGt => 2,
            SynchronousCoreFunction::OrderPartialNeq => 2,
            SynchronousCoreFunction::OrderPartialGreatestLowerBound => 2,
            SynchronousCoreFunction::OrderPartialLeastUpperBound => 2,
            SynchronousCoreFunction::BoolNot => 1,
            SynchronousCoreFunction::BoolAnd => 2,
            SynchronousCoreFunction::BoolOr => 2,
            SynchronousCoreFunction::BoolIf => 2,
            SynchronousCoreFunction::BoolIff => 2,
            SynchronousCoreFunction::BoolXor => 2,
            SynchronousCoreFunction::FloatAdd => 2,
            SynchronousCoreFunction::FloatSub => 2,
            SynchronousCoreFunction::FloatMul => 2,
            SynchronousCoreFunction::FloatDiv => 2,
            SynchronousCoreFunction::FloatMulAdd => 3,
            SynchronousCoreFunction::FloatNeg => 1,
            SynchronousCoreFunction::FloatFloor => 1,
            SynchronousCoreFunction::FloatCeil => 1,
            SynchronousCoreFunction::FloatRound => 1,
            SynchronousCoreFunction::FloatTrunc => 1,
            SynchronousCoreFunction::FloatFract => 1,
            SynchronousCoreFunction::FloatAbs => 1,
            SynchronousCoreFunction::FloatSignum => 1,
            SynchronousCoreFunction::FloatPow => 2,
            SynchronousCoreFunction::FloatSqrt => 1,
            SynchronousCoreFunction::FloatExp => 1,
            SynchronousCoreFunction::FloatExp2 => 1,
            SynchronousCoreFunction::FloatLn => 1,
            SynchronousCoreFunction::FloatLog2 => 1,
            SynchronousCoreFunction::FloatLog10 => 1,
            SynchronousCoreFunction::FloatHypot => 2,
            SynchronousCoreFunction::FloatSin => 1,
            SynchronousCoreFunction::FloatCos => 1,
            SynchronousCoreFunction::FloatTan => 1,
            SynchronousCoreFunction::FloatAsin => 1,
            SynchronousCoreFunction::FloatAcos => 1,
            SynchronousCoreFunction::FloatAtan => 1,
            SynchronousCoreFunction::FloatAtan2 => 2,
            SynchronousCoreFunction::FloatExpM1 => 1,
            SynchronousCoreFunction::FloatLn1P => 1,
            SynchronousCoreFunction::FloatSinh => 1,
            SynchronousCoreFunction::FloatCosh => 1,
            SynchronousCoreFunction::FloatTanh => 1,
            SynchronousCoreFunction::FloatAsinh => 1,
            SynchronousCoreFunction::FloatAcosh => 1,
            SynchronousCoreFunction::FloatAtanh => 1,
            SynchronousCoreFunction::FloatIsNormal => 1,
            SynchronousCoreFunction::FloatToDegrees => 1,
            SynchronousCoreFunction::FloatToRadians => 1,
            SynchronousCoreFunction::FloatToInt => 1,
            SynchronousCoreFunction::FloatFromInt => 1,
            SynchronousCoreFunction::FloatToBits => 1,
            SynchronousCoreFunction::FloatFromBits => 1,
            SynchronousCoreFunction::IntSignum => 1,
            SynchronousCoreFunction::IntAdd => 2,
            SynchronousCoreFunction::IntSub => 2,
            SynchronousCoreFunction::IntMul => 2,
            SynchronousCoreFunction::IntDiv => 2,
            SynchronousCoreFunction::IntDivTrunc => 2,
            SynchronousCoreFunction::IntMod => 2,
            SynchronousCoreFunction::IntModTrunc => 2,
            SynchronousCoreFunction::IntNeg => 1,
            SynchronousCoreFunction::IntAbs => 1,
            SynchronousCoreFunction::IntPow => 2,
            SynchronousCoreFunction::IntSatAdd => 2,
            SynchronousCoreFunction::IntSatSub => 2,
            SynchronousCoreFunction::IntSatMul => 2,
            SynchronousCoreFunction::IntSatPow => 2,
            SynchronousCoreFunction::IntWrapAdd => 2,
            SynchronousCoreFunction::IntWrapSub => 2,
            SynchronousCoreFunction::IntWrapMul => 2,
            SynchronousCoreFunction::IntWrapDiv => 2,
            SynchronousCoreFunction::IntWrapDivTrunc => 2,
            SynchronousCoreFunction::IntWrapMod => 2,
            SynchronousCoreFunction::IntWrapModTrunc => 2,
            SynchronousCoreFunction::IntWrapNeg => 1,
            SynchronousCoreFunction::IntWrapAbs => 1,
            SynchronousCoreFunction::IntWrapPow => 2,
            SynchronousCoreFunction::IntBitCountOnes => 1,
            SynchronousCoreFunction::IntBitCountZeros => 1,
            SynchronousCoreFunction::IntBitLeadingOnes => 1,
            SynchronousCoreFunction::IntBitLeadingZeros => 1,
            SynchronousCoreFunction::IntBitTrailingOnes => 1,
            SynchronousCoreFunction::IntBitTrailingZeros => 1,
            SynchronousCoreFunction::IntBitRotateLeft => 2,
            SynchronousCoreFunction::IntBitRotateRight => 2,
            SynchronousCoreFunction::IntBitReverseBytes => 1,
            SynchronousCoreFunction::IntBitReverseBits => 1,
            SynchronousCoreFunction::IntBitShl => 2,
            SynchronousCoreFunction::IntBitShr => 2,
        }
    }

    /// Whether the primitive computes on floating-point numbers, which this
    /// library hands to its host (see `float_arguments`).
    pub open spec fn spec_is_float_arithmetic(&self) -> bool {
        match self {
            SynchronousCoreFunction::FloatAdd => true,
            SynchronousCoreFunction::FloatSub => true,
            SynchronousCoreFunction::FloatMul => true,
            SynchronousCoreFunction::FloatDiv => true,
            SynchronousCoreFunction::FloatMulAdd => true,
            SynchronousCoreFunction::FloatNeg => true,
            SynchronousCoreFunction::FloatFloor => true,
            SynchronousCoreFunction::FloatCeil => true,
            SynchronousCoreFunction::FloatRound => true,
            SynchronousCoreFunction::FloatTrunc => true,
            SynchronousCoreFunction::FloatFract => true,
            SynchronousCoreFunction::FloatAbs => true,
            SynchronousCoreFunction::FloatSignum => true,
            SynchronousCoreFunction::FloatPow => true,
            SynchronousCoreFunction::FloatSqrt => true,
            SynchronousCoreFunction::FloatExp => true,
            SynchronousCoreFunction::FloatExp2 => true,
            SynchronousCoreFunction::FloatLn => true,
            SynchronousCoreFunction::FloatLog2 => true,
            SynchronousCoreFunction::FloatLog10 => true,
            SynchronousCoreFunction::FloatHypot => true,
            SynchronousCoreFunction::FloatSin => true,
            SynchronousCoreFunction::FloatCos => true,
            SynchronousCoreFunction::FloatTan => true,
            SynchronousCoreFunction::FloatAsin => true,
            SynchronousCoreFunction::FloatAcos => true,
            SynchronousCoreFunction::FloatAtan => true,
            SynchronousCoreFunction::FloatAtan2 => true,
            SynchronousCoreFunction::FloatExpM1 => true,
            SynchronousCoreFunction::FloatLn1P => true,
            SynchronousCoreFunction::FloatSinh => true,
            SynchronousCoreFunction::FloatCosh => true,
            SynchronousCoreFunction::FloatTanh => true,
            SynchronousCoreFunction::FloatAsinh => true,
            SynchronousCoreFunction::FloatAcosh => true,
            SynchronousCoreFunction::FloatAtanh => true,
            SynchronousCoreFunction::FloatIsNormal => true,
            SynchronousCoreFunction::FloatToDegrees => true,
            SynchronousCoreFunction::FloatToRadians => true,
            _ => false,
        }
    }

    /// The place of the primitive in declaration order.
    pub fn index(&self) -> (r: u8)
        ensures
            r as int == self.spec_index(),
    {
        match self {
            SynchronousCoreFunction::ValueHalt => 0,
            SynchronousCoreFunction::ValueTypeOf => 1,
            SynchronousCoreFunction::ValueTruthy => 2,
            SynchronousCoreFunction::ValueFalsey => 3,
            SynchronousCoreFunction::OrderTotalCompare => 4,
            SynchronousCoreFunction::OrderTotalLt => 5,
            SynchronousCoreFunction::OrderTotalLeq => 6,
            SynchronousCoreFunction::OrderTotalEq => 7,
            SynchronousCoreFunction::OrderTotalGeq => 8,
            SynchronousCoreFunction::OrderTotalGt => 9,
            SynchronousCoreFunction::OrderTotalNeq => 10,
            SynchronousCoreFunction::OrderTotalMin => 11,
            SynchronousCoreFunction::OrderTotalMax => 12,
            SynchronousCoreFunction::OrderPartialCompare => 13,
            SynchronousCoreFunction::OrderPartialLt => 14,
            SynchronousCoreFunction::OrderPartialLeq => 15,
            SynchronousCoreFunction::OrderPartialEq => 16,
            SynchronousCoreFunction::OrderPartialGeq => 17,
            SynchronousCoreFunction::OrderPartialGt => 18,
            SynchronousCoreFunction::OrderPartialNeq => 19,
            SynchronousCoreFunction::OrderPartialGreatestLowerBound => 20,
            SynchronousCoreFunction::OrderPartialLeastUpperBound => 21,
            SynchronousCoreFunction::BoolNot => 22,
            SynchronousCoreFunction::BoolAnd => 23,
            SynchronousCoreFunction::BoolOr => 24,
            SynchronousCoreFunction::BoolIf => 25,
            SynchronousCoreFunction::BoolIff => 26,
            SynchronousCoreFunction::BoolXor => 27,
            SynchronousCoreFunction::FloatAdd => 28,
            SynchronousCoreFunction::FloatSub => 29,
            SynchronousCoreFunction::FloatMul => 30,
            SynchronousCoreFunction::FloatDiv => 31,
            SynchronousCoreFunction::FloatMulAdd => 32,
            SynchronousCoreFunction::FloatNeg => 33,
            SynchronousCoreFunction::FloatFloor => 34,
            SynchronousCoreFunction::FloatCeil => 35,
            SynchronousCoreFunction::FloatRound => 36,
            SynchronousCoreFunction::FloatTrunc => 37,
            SynchronousCoreFunction::FloatFract => 38,
            SynchronousCoreFunction::FloatAbs => 39,
            SynchronousCoreFunction::FloatSignum => 40,
            SynchronousCoreFunction::FloatPow => 41,
            SynchronousCoreFunction::FloatSqrt => 42,
            SynchronousCoreFunction::FloatExp => 43,
            SynchronousCoreFunction::FloatExp2 => 44,
            SynchronousCoreFunction::FloatLn => 45,
            SynchronousCoreFunction::FloatLog2 => 46,
            SynchronousCoreFunction::FloatLog10 => 47,
            SynchronousCoreFunction::FloatHypot => 48,
            SynchronousCoreFunction::FloatSin => 49,
            SynchronousCoreFunction::FloatCos => 50,
            SynchronousCoreFunction::FloatTan => 51,
            SynchronousCoreFunction::FloatAsin => 52,
            SynchronousCoreFunction::FloatAcos => 53,
            SynchronousCoreFunction::FloatAtan => 54,
            SynchronousCoreFunction::FloatAtan2 => 55,
            SynchronousCoreFunction::FloatExpM1 => 56,
            SynchronousCoreFunction::FloatLn1P => 57,
            SynchronousCoreFunction::FloatSinh => 58,
            SynchronousCoreFunction::FloatCosh => 59,
            SynchronousCoreFunction::FloatTanh => 60,
            SynchronousCoreFunction::FloatAsinh => 61,
            SynchronousCoreFunction::FloatAcosh => 62,
            SynchronousCoreFunction::FloatAtanh => 63,
            SynchronousCoreFunction::FloatIsNormal => 64,
            SynchronousCoreFunction::FloatToDegrees => 65,
            SynchronousCoreFunction::FloatToRadians => 66,
            SynchronousCoreFunction::FloatToInt => 67,
            SynchronousCoreFunction::FloatFromInt => 68,
            SynchronousCoreFunction::FloatToBits => 69,
            SynchronousCoreFunction::FloatFromBits => 70,
            SynchronousCoreFunction::IntSignum => 71,
            SynchronousCoreFunction::IntAdd => 72,
            SynchronousCoreFunction::IntSub => 73,
            SynchronousCoreFunction::IntMul => 74,
            SynchronousCoreFunction::IntDiv => 75,
            SynchronousCoreFunction::IntDivTrunc => 76,
            SynchronousCoreFunction::IntMod => 77,
            SynchronousCoreFunction::IntModTrunc => 78,
            SynchronousCoreFunction::IntNeg => 79,
            SynchronousCoreFunction::IntAbs => 80,
            SynchronousCoreFunction::IntPow => 81,
            SynchronousCoreFunction::IntSatAdd => 82,
            SynchronousCoreFunction::IntSatSub => 83,
            SynchronousCoreFunction::IntSatMul => 84,
            SynchronousCoreFunction::IntSatPow => 85,
            SynchronousCoreFunction::IntWrapAdd => 86,
            SynchronousCoreFunction::IntWrapSub => 87,
            SynchronousCoreFunction::IntWrapMul => 88,
            SynchronousCoreFunction::IntWrapDiv => 89,
            SynchronousCoreFunction::IntWrapDivTrunc => 90,
            SynchronousCoreFunction::IntWrapMod => 91,
            SynchronousCoreFunction::IntWrapModTrunc => 92,
            SynchronousCoreFunction::IntWrapNeg => 93,
            SynchronousCoreFunction::IntWrapAbs => 94,
            SynchronousCoreFunction::IntWrapPow => 95,
            SynchronousCoreFunction::IntBitCountOnes => 96,
            SynchronousCoreFunction::IntBitCountZeros => 97,
            SynchronousCoreFunction::IntBitLeadingOnes => 98,
            SynchronousCoreFunction::IntBitLeadingZeros => 99,
            SynchronousCoreFunction::IntBitTrailingOnes => 100,
            SynchronousCoreFunction::IntBitTrailingZeros => 101,
            SynchronousCoreFunction::IntBitRotateLeft => 102,
            SynchronousCoreFunction::IntBitRotateRight => 103,
            SynchronousCoreFunction::IntBitReverseBytes => 104,
            SynchronousCoreFunction::IntBitReverseBits => 105,
            SynchronousCoreFunction::IntBitShl => 106,
            SynchronousCoreFunction::IntBitShr => 107,
        }
    }

    /// The number of arguments the primitive takes.
    pub fn arity(&self) -> (r: usize)
        ensures
            r as nat == self.spec_arity(),
    {
        match self {
            SynchronousCoreFunction::ValueHalt => 1,
            SynchronousCoreFunction::ValueTypeOf => 1,
            SynchronousCoreFunction::ValueTruthy => 1,
            SynchronousCoreFunction::ValueFalsey => 1,
            SynchronousCoreFunction::OrderTotalCompare => 2,
            SynchronousCoreFunction::OrderTotalLt => 2,
            SynchronousCoreFunction::OrderTotalLeq => 2,
            SynchronousCoreFunction::OrderTotalEq => 2,
            SynchronousCoreFunction::OrderTotalGeq => 2,
            SynchronousCoreFunction::OrderTotalGt => 2,
            SynchronousCoreFunction::OrderTotalNeq => 2,
            SynchronousCoreFunction::OrderTotalMin => 2,
            SynchronousCoreFunction::OrderTotalMax => 2,
            SynchronousCoreFunction::OrderPartialCompare => 2,
            SynchronousCoreFunction::OrderPartialLt => 2,
            SynchronousCoreFunction::OrderPartialLeq => 2,
            SynchronousCoreFunction::OrderPartialEq => 2,
            SynchronousCoreFunction::OrderPartialGeq => 2,
            SynchronousCoreFunction::OrderPartialGt => 2,
            SynchronousCoreFunction::OrderPartialNeq => 2,
            SynchronousCoreFunction::OrderPartialGreatestLowerBound => 2,
            SynchronousCoreFunction::OrderPartialLeastUpperBound => 2,
            SynchronousCoreFunction::BoolNot => 1,
            SynchronousCoreFunction::BoolAnd => 2,
            SynchronousCoreFunction::BoolOr => 2,
            SynchronousCoreFunction::BoolIf => 2,
            SynchronousCoreFunction::BoolIff => 2,
            SynchronousCoreFunction::BoolXor => 2,
            SynchronousCoreFunction::FloatAdd => 2,
            SynchronousCoreFunction::FloatSub => 2,
            SynchronousCoreFunction::FloatMul => 2,
            SynchronousCoreFunction::FloatDiv => 2,
            SynchronousCoreFunction::FloatMulAdd => 3,
            SynchronousCoreFunction::FloatNeg => 1,
            SynchronousCoreFunction::FloatFloor => 1,
            SynchronousCoreFunction::FloatCeil => 1,
            SynchronousCoreFunction::FloatRound => 1,
            SynchronousCoreFunction::FloatTrunc => 1,
            SynchronousCoreFunction::FloatFract => 1,
            SynchronousCoreFunction::FloatAbs => 1,
            SynchronousCoreFunction::FloatSignum => 1,
            SynchronousCoreFunction::FloatPow => 2,
            SynchronousCoreFunction::FloatSqrt => 1,
            SynchronousCoreFunction::FloatExp => 1,
            SynchronousCoreFunction::FloatExp2 => 1,
            SynchronousCoreFunction::FloatLn => 1,
            SynchronousCoreFunction::FloatLog2 => 1,
            SynchronousCoreFunction::FloatLog10 => 1,
            SynchronousCoreFunction::FloatHypot => 2,
            SynchronousCoreFunction::FloatSin => 1,
            SynchronousCoreFunction::FloatCos => 1,
            SynchronousCoreFunction::FloatTan => 1,
            SynchronousCoreFunction::FloatAsin => 1,
            SynchronousCoreFunction::FloatAcos => 1,
            SynchronousCoreFunction::FloatAtan => 1,
            SynchronousCoreFunction::FloatAtan2 => 2,
            SynchronousCoreFunction::FloatExpM1 => 1,
            SynchronousCoreFunction::FloatLn1P => 1,
            SynchronousCoreFunction::FloatSinh => 1,
            SynchronousCoreFunction::FloatCosh => 1,
            SynchronousCoreFunction::FloatTanh => 1,
            SynchronousCoreFunction::FloatAsinh => 1,
            SynchronousCoreFunction::FloatAcosh => 1,
            SynchronousCoreFunction::FloatAtanh => 1,
            SynchronousCoreFunction::FloatIsNormal => 1,
            SynchronousCoreFunction::FloatToDegrees => 1,
            SynchronousCoreFunction::FloatToRadians => 1,
            SynchronousCoreFunction::FloatToInt => 1,
            SynchronousCoreFunction::FloatFromInt => 1,
            SynchronousCoreFunction::FloatToBits => 1,
            SynchronousCoreFunction::FloatFromBits => 1,
            SynchronousCoreFunction::IntSignum => 1,
            SynchronousCoreFunction::IntAdd => 2,
            SynchronousCoreFunction::IntSub => 2,
            SynchronousCoreFunction::IntMul => 2,
            SynchronousCoreFunction::IntDiv => 2,
            SynchronousCoreFunction::IntDivTrunc => 2,
            SynchronousCoreFunction::IntMod => 2,
            SynchronousCoreFunction::IntModTrunc => 2,
            SynchronousCoreFunction::IntNeg => 1,
            SynchronousCoreFunction::IntAbs => 1,
            SynchronousCoreFunction::IntPow => 2,
            SynchronousCoreFunction::IntSatAdd => 2,
            SynchronousCoreFunction::IntSatSub => 2,
            SynchronousCoreFunction::IntSatMul => 2,
            SynchronousCoreFunction::IntSatPow => 2,
            SynchronousCoreFunction::IntWrapAdd => 2,
            SynchronousCoreFunction::IntWrapSub => 2,
            SynchronousCoreFunction::IntWrapMul => 2,
            SynchronousCoreFunction::IntWrapDiv => 2,
            SynchronousCoreFunction::IntWrapDivTrunc => 2,
            SynchronousCoreFunction::IntWrapMod => 2,
            SynchronousCoreFunction::IntWrapModTrunc => 2,
            SynchronousCoreFunction::IntWrapNeg => 1,
            SynchronousCoreFunction::IntWrapAbs => 1,
            SynchronousCoreFunction::IntWrapPow => 2,
            SynchronousCoreFunction::IntBitCountOnes => 1,
            SynchronousCoreFunction::IntBitCountZeros => 1,
            SynchronousCoreFunction::IntBitLeadingOnes => 1,
            SynchronousCoreFunction::IntBitLeadingZeros => 1,
            SynchronousCoreFunction::IntBitTrailingOnes => 1,
            SynchronousCoreFunction::IntBitTrailingZeros => 1,
            SynchronousCoreFunction::IntBitRotateLeft => 2,
            SynchronousCoreFunction::IntBitRotateRight => 2,
            SynchronousCoreFunction::IntBitReverseBytes => 1,
            SynchronousCoreFunction::IntBitReverseBits => 1,
            SynchronousCoreFunction::IntBitShl => 2,
            SynchronousCoreFunction::IntBitShr => 2,
        }
    }

    /// Whether the primitive computes on floating-point numbers.
    pub fn is_float_arithmetic(&self) -> (r: bool)
        ensures
            r == self.spec_is_float_arithmetic(),
    {
        match self {
            SynchronousCoreFunction::FloatAdd => true,
            SynchronousCoreFunction::FloatSub => true,
            SynchronousCoreFunction::FloatMul => true,
            SynchronousCoreFunction::FloatDiv => true,
            SynchronousCoreFunction::FloatMulAdd => true,
            SynchronousCoreFunction::FloatNeg => true,
            SynchronousCoreFunction::FloatFloor => true,
            SynchronousCoreFunction::FloatCeil => true,
            SynchronousCoreFunction::FloatRound => true,
            SynchronousCoreFunction::FloatTrunc => true,
            SynchronousCoreFunction::FloatFract => true,
            SynchronousCoreFunction::FloatAbs => true,
            SynchronousCoreFunction::FloatSignum => true,
            SynchronousCoreFunction::FloatPow => true,
            SynchronousCoreFunction::FloatSqrt => true,
            SynchronousCoreFunction::FloatExp => true,
            SynchronousCoreFunction::FloatExp2 => true,
            SynchronousCoreFunction::FloatLn => true,
            SynchronousCoreFunction::FloatLog2 => true,
            SynchronousCoreFunction::FloatLog10 => true,
            SynchronousCoreFunction::FloatHypot => true,
            SynchronousCoreFunction::FloatSin => true,
            SynchronousCoreFunction::FloatCos => true,
            SynchronousCoreFunction::FloatTan => true,
            SynchronousCoreFunction::FloatAsin => true,
            SynchronousCoreFunction::FloatAcos => true,
            SynchronousCoreFunction::FloatAtan => true,
            SynchronousCoreFunction::FloatAtan2 => true,
            SynchronousCoreFunction::FloatExpM1 => true,
            SynchronousCoreFunction::FloatLn1P => true,
            SynchronousCoreFunction::FloatSinh => true,
            SynchronousCoreFunction::FloatCosh => true,
            SynchronousCoreFunction::FloatTanh => true,
            SynchronousCoreFunction::FloatAsinh => true,
            SynchronousCoreFunction::FloatAcosh => true,
            SynchronousCoreFunction::FloatAtanh => true,
            SynchronousCoreFunction::FloatIsNormal => true,
            SynchronousCoreFunction::FloatToDegrees => true,
            SynchronousCoreFunction::FloatToRadians => true,
            _ => false,
        }
    }
}

/// A future that is ready at once with its value.
#[derive(Debug)]
pub struct CoreFuture<Val> {
    pub value: Val,
}

/// Ranks obey the laws of a total order under the lexicographic order.
pub proof fn lemma_rank_order_laws(a: Rank, b: Rank, c: Rank)
    ensures
        crate::order_laws(rank_cmp(a, b), rank_cmp(b, a), rank_cmp(a, a), rank_cmp(b, c), rank_cmp(a, c)),
{
}

impl<D: ValueBase> Clone for DynamicSynchronous<D> {
    fn clone(&self) -> (r: Self)
        ensures
            r == *self,
    {
        match self {
            DynamicSynchronous::Core(c) => DynamicSynchronous::Core(*c),
            DynamicSynchronous::Custom(d) => DynamicSynchronous::Custom(d.duplicate()),
        }
    }
}

impl<S: ValueBase, D: ValueBase> Clone for SynchronousFun<S, D> {
    fn clone(&self) -> (r: Self)
        ensures
            r == *self,
    {
        match self {
            SynchronousFun::Core(c) => SynchronousFun::Core(*c),
            SynchronousFun::StaticSynchronous(s) => SynchronousFun::StaticSynchronous(s.duplicate()),
            SynchronousFun::Dynamic { ordinal, fun } => SynchronousFun::Dynamic { ordinal: *ordinal, fun: fun.clone() },
        }
    }
}

impl<S: ValueBase, D: ValueBase> Clone for AsynchronousFun<S, D> {
    fn clone(&self) -> (r: Self)
        ensures
            r == *self,
    {
        match self {
            AsynchronousFun::Core(c) => AsynchronousFun::Core(*c),
            AsynchronousFun::StaticAsynchronous(s) => AsynchronousFun::StaticAsynchronous(s.duplicate()),
            AsynchronousFun::Dynamic { ordinal, fun } => AsynchronousFun::Dynamic { ordinal: *ordinal, fun: fun.duplicate() },
        }
    }
}

impl<SS: ValueBase, SA: ValueBase, DS: ValueBase, DA: ValueBase> Clone for Fun<SS, SA, DS, DA> {
    fn clone(&self) -> (r: Self)
        ensures
            r == *self,
    {
        match self {
            Fun::SynchronousFunction(f) => Fun::SynchronousFunction(f.clone()),
            Fun::AsynchronousFunction(f) => Fun::AsynchronousFunction(f.clone()),
            Fun::Closure(c) => Fun::Closure(*c),
        }
    }
}

impl SynchronousCoreFunction {
    /// Runs the primitive on arguments of its arity. The primitives that
    /// compute on floating-point numbers are the host's to run, after
    /// `float_arguments` has checked their arguments.
    pub fn invoke<SS: ValueBaseOrdered, SA: ValueBaseOrdered, DS: ValueBase, DA: ValueBase>(&self, args: &[crate::V<SS, SA, DS, DA>]) -> (r: util::R<SS, SA, DS, DA>)
        requires
            args@.len() == self.spec_arity(),
            !self.spec_is_float_arithmetic(),
        ensures
            match *self {
            SynchronousCoreFunction::ValueHalt => call_ensures(value::halt::<SS, SA, DS, DA>, (&args@[0],), r),
            SynchronousCoreFunction::ValueTypeOf => call_ensures(value::type_of::<SS, SA, DS, DA>, (&args@[0],), r),
            SynchronousCoreFunction::ValueTruthy => call_ensures(value::truthy::<SS, SA, DS, DA>, (&args@[0],), r),
            SynchronousCoreFunction::ValueFalsey => call_ensures(value::falsey::<SS, SA, DS, DA>, (&args@[0],), r),
            SynchronousCoreFunction::OrderTotalCompare => call_ensures(order::total_compare::<SS, SA, DS, DA>, (&args@[0], &args@[1],), r),
            SynchronousCoreFunction::OrderTotalLt => call_ensures(order::total_lt::<SS, SA, DS, DA>, (&args@[0], &args@[1],), r),
            SynchronousCoreFunction::OrderTotalLeq => call_ensures(order::total_leq::<SS, SA, DS, DA>, (&args@[0], &args@[1],), r),
            SynchronousCoreFunction::OrderTotalEq => call_ensures(order::total_eq::<SS, SA, DS, DA>, (&args@[0], &args@[1],), r),
            SynchronousCoreFunction::OrderTotalGeq => call_ensures(order::total_geq::<SS, SA, DS, DA>, (&args@[0], &args@[1],), r),
            SynchronousCoreFunction::OrderTotalGt => call_ensures(order::total_gt::<SS, SA, DS, DA>, (&args@[0], &args@[1],), r),
            SynchronousCoreFunction::OrderTotalNeq => call_ensures(order::total_neq::<SS, SA, DS, DA>, (&args@[0], &args@[1],), r),
            SynchronousCoreFunction::OrderTotalMin => call_ensures(order::total_min::<SS, SA, DS, DA>, (&args@[0], &args@[1],), r),
            SynchronousCoreFunction::OrderTotalMax => call_ensures(order::total_max::<SS, SA, DS, DA>, (&args@[0], &args@[1],), r),
            SynchronousCoreFunction::OrderPartialCompare => call_ensures(order::partial_compare::<SS, SA, DS, DA>, (&args@[0], &args@[1],), r),
            SynchronousCoreFunction::OrderPartialLt => call_ensures(order::partial_lt::<SS, SA, DS, DA>, (&args@[0], &args@[1],), r),
            SynchronousCoreFunction::OrderPartialLeq => call_ensures(order::partial_leq::<SS, SA, DS, DA>, (&args@[0], &args@[1],), r),
            SynchronousCoreFunction::OrderPartialEq => call_ensures(order::partial_eq::<SS, SA, DS, DA>, (&args@[0], &args@[1],), r),
            SynchronousCoreFunction::OrderPartialGeq => call_ensures(order::partial_geq::<SS, SA, DS, DA>, (&args@[0], &args@[1],), r),
            SynchronousCoreFunction::OrderPartialGt => call_ensures(order::partial_gt::<SS, SA, DS, DA>, (&args@[0], &args@[1],), r),
            SynchronousCoreFunction::OrderPartialNeq => call_ensures(order::partial_neq::<SS, SA, DS, DA>, (&args@[0], &args@[1],), r),
            SynchronousCoreFunction::OrderPartialGreatestLowerBound => call_ensures(order::partial_greatest_lower_bound::<SS, SA, DS, DA>, (&args@[0], &args@[1],), r),
            SynchronousCoreFunction::OrderPartialLeastUpperBound => call_ensures(order::partial_least_upper_bound::<SS, SA, DS, DA>, (&args@[0], &args@[1],), r),
            SynchronousCoreFunction::BoolNot => call_ensures(boolean::not::<SS, SA, DS, DA>, (&args@[0],), r),
            SynchronousCoreFunction::BoolAnd => call_ensures(boolean::and::<SS, SA, DS, DA>, (&args@[0], &args@[1],), r),
            SynchronousCoreFunction::BoolOr => call_ensures(boolean::or::<SS, SA, DS, DA>, (&args@[0], &args@[1],), r),
            SynchronousCoreFunction::BoolIf => call_ensures(boolean::if_::<SS, SA, DS, DA>, (&args@[0], &args@[1],), r),
            SynchronousCoreFunction::BoolIff => call_ensures(boolean::iff::<SS, SA, DS, DA>, (&args@[0], &args@[1],), r),
            SynchronousCoreFunction::BoolXor => call_ensures(boolean::xor::<SS, SA, DS, DA>, (&args@[0], &args@[1],), r),
            SynchronousCoreFunction::FloatToInt => call_ensures(float::to_int::<SS, SA, DS, DA>, (&args@[0],), r),
            SynchronousCoreFunction::FloatFromInt => call_ensures(float::from_int::<SS, SA, DS, DA>, (&args@[0],), r),
            SynchronousCoreFunction::FloatToBits => call_ensures(float::to_bits::<SS, SA, DS, DA>, (&args@[0],), r),
            SynchronousCoreFunction::FloatFromBits => call_ensures(float::from_bits::<SS, SA, DS, DA>, (&args@[0],), r),
            SynchronousCoreFunction::IntSignum => call_ensures(integer::signum::<SS, SA, DS, DA>, (&args@[0],), r),
            SynchronousCoreFunction::IntAdd => call_ensures(integer::add::<SS, SA, DS, DA>, (&args@[0], &args@[1],), r),
            SynchronousCoreFunction::IntSub => call_ensures(integer::sub::<SS, SA, DS, DA>, (&args@[0], &args@[1],), r),
            SynchronousCoreFunction::IntMul => call_ensures(integer::mul::<SS, SA, DS, DA>, (&args@[0], &args@[1],), r),
            SynchronousCoreFunction::IntDiv => call_ensures(integer::div::<SS, SA, DS, DA>, (&args@[0], &args@[1],), r),
            SynchronousCoreFunction::IntDivTrunc => call_ensures(integer::div_trunc::<SS, SA, DS, DA>, (&args@[0], &args@[1],), r),
            SynchronousCoreFunction::IntMod => call_ensures(integer::mod_::<SS, SA, DS, DA>, (&args@[0], &args@[1],), r),
            SynchronousCoreFunction::IntModTrunc => call_ensures(integer::mod_trunc::<SS, SA, DS, DA>, (&args@[0], &args@[1],), r),
            SynchronousCoreFunction::IntNeg => call_ensures(integer::neg::<SS, SA, DS, DA>, (&args@[0],), r),
            SynchronousCoreFunction::IntAbs => call_ensures(integer::abs::<SS, SA, DS, DA>, (&args@[0],), r),
            SynchronousCoreFunction::IntPow => call_ensures(integer::pow::<SS, SA, DS, DA>, (&args@[0], &args@[1],), r),
            SynchronousCoreFunction::IntSatAdd => call_ensures(integer::sat_add::<SS, SA, DS, DA>, (&args@[0], &args@[1],), r),
            SynchronousCoreFunction::IntSatSub => call_ensures(integer::sat_sub::<SS, SA, DS, DA>, (&args@[0], &args@[1],), r),
            SynchronousCoreFunction::IntSatMul => call_ensures(integer::sat_mul::<SS, SA, DS, DA>, (&args@[0], &args@[1],), r),
            SynchronousCoreFunction::IntSatPow => call_ensures(integer::sat_pow::<SS, SA, DS, DA>, (&args@[0], &args@[1],), r),
            SynchronousCoreFunction::IntWrapAdd => call_ensures(integer::wrap_add::<SS, SA, DS, DA>, (&args@[0], &args@[1],), r),
            SynchronousCoreFunction::IntWrapSub => call_ensures(integer::wrap_sub::<SS, SA, DS, DA>, (&args@[0], &args@[1],), r),
            SynchronousCoreFunction::IntWrapMul => call_ensures(integer::wrap_mul::<SS, SA, DS, DA>, (&args@[0], &args@[1],), r),
            SynchronousCoreFunction::IntWrapDiv => call_ensures(integer::wrap_div::<SS, SA, DS, DA>, (&args@[0], &args@[1],), r),
            SynchronousCoreFunction::IntWrapDivTrunc => call_ensures(integer::wrap_div_trunc::<SS, SA, DS, DA>, (&args@[0], &args@[1],), r),
            SynchronousCoreFunction::IntWrapMod => call_ensures(integer::wrap_mod::<SS, SA, DS, DA>, (&args@[0], &args@[1],), r),
            SynchronousCoreFunction::IntWrapModTrunc => call_ensures(integer::wrap_mod_trunc::<SS, SA, DS, DA>, (&args@[0], &args@[1],), r),
            SynchronousCoreFunction::IntWrapNeg => call_ensures(integer::wrap_neg::<SS, SA, DS, DA>, (&args@[0],), r),
            SynchronousCoreFunction::IntWrapAbs => call_ensures(integer::wrap_abs::<SS, SA, DS, DA>, (&args@[0],), r),
            SynchronousCoreFunction::IntWrapPow => call_ensures(integer::wrap_pow::<SS, SA, DS, DA>, (&args@[0], &args@[1],), r),
            SynchronousCoreFunction::IntBitCountOnes => call_ensures(integer::bit_count_ones::<SS, SA, DS, DA>, (&args@[0],), r),
            SynchronousCoreFunction::IntBitCountZeros => call_ensures(integer::bit_count_zeros::<SS, SA, DS, DA>, (&args@[0],), r),
            SynchronousCoreFunction::IntBitLeadingOnes => call_ensures(integer::bit_leading_ones::<SS, SA, DS, DA>, (&args@[0],), r),
            SynchronousCoreFunction::IntBitLeadingZeros => call_ensures(integer::bit_leading_zeros::<SS, SA, DS, DA>, (&args@[0],), r),
            SynchronousCoreFunction::IntBitTrailingOnes => call_ensures(integer::bit_trailing_ones::<SS, SA, DS, DA>, (&args@[0],), r),
            SynchronousCoreFunction::IntBitTrailingZeros => call_ensures(integer::bit_trailing_zeros::<SS, SA, DS, DA>, (&args@[0],), r),
            SynchronousCoreFunction::IntBitRotateLeft => call_ensures(integer::bit_rotate_left::<SS, SA, DS, DA>, (&args@[0], &args@[1],), r),
            SynchronousCoreFunction::IntBitRotateRight => call_ensures(integer::bit_rotate_right::<SS, SA, DS, DA>, (&args@[0], &args@[1],), r),
            SynchronousCoreFunction::IntBitReverseBytes => call_ensures(integer::bit_reverse_bytes::<SS, SA, DS, DA>, (&args@[0],), r),
            SynchronousCoreFunction::IntBitReverseBits => call_ensures(integer::bit_reverse_bits::<SS, SA, DS, DA>, (&args@[0],), r),
            SynchronousCoreFunction::IntBitShl => call_ensures(integer::bit_shl::<SS, SA, DS, DA>, (&args@[0], &args@[1],), r),
            SynchronousCoreFunction::IntBitShr => call_ensures(integer::bit_shr::<SS, SA, DS, DA>, (&args@[0], &args@[1],), r),
                _ => false,
            },
    {
        match self {
            SynchronousCoreFunction::ValueHalt => value::halt(&args[0]),
            SynchronousCoreFunction::ValueTypeOf => value::type_of(&args[0]),
            SynchronousCoreFunction::ValueTruthy => value::truthy(&args[0]),
            SynchronousCoreFunction::ValueFalsey => value::falsey(&args[0]),
            SynchronousCoreFunction::OrderTotalCompare => order::total_compare(&args[0], &args[1]),
            SynchronousCoreFunction::OrderTotalLt => order::total_lt(&args[0], &args[1]),
            SynchronousCoreFunction::OrderTotalLeq => order::total_leq(&args[0], &args[1]),
            SynchronousCoreFunction::OrderTotalEq => order::total_eq(&args[0], &args[1]),
            SynchronousCoreFunction::OrderTotalGeq => order::total_geq(&args[0], &args[1]),
            SynchronousCoreFunction::OrderTotalGt => order::total_gt(&args[0], &args[1]),
            SynchronousCoreFunction::OrderTotalNeq => order::total_neq(&args[0], &args[1]),
            SynchronousCoreFunction::OrderTotalMin => order::total_min(&args[0], &args[1]),
            SynchronousCoreFunction::OrderTotalMax => order::total_max(&args[0], &args[1]),
            SynchronousCoreFunction::OrderPartialCompare => order::partial_compare(&args[0], &args[1]),
            SynchronousCoreFunction::OrderPartialLt => order::partial_lt(&args[0], &args[1]),
            SynchronousCoreFunction::OrderPartialLeq => order::partial_leq(&args[0], &args[1]),
            SynchronousCoreFunction::OrderPartialEq => order::partial_eq(&args[0], &args[1]),
            SynchronousCoreFunction::OrderPartialGeq => order::partial_geq(&args[0], &args[1]),
            SynchronousCoreFunction::OrderPartialGt => order::partial_gt(&args[0], &args[1]),
            SynchronousCoreFunction::OrderPartialNeq => order::partial_neq(&args[0], &args[1]),
            SynchronousCoreFunction::OrderPartialGreatestLowerBound => order::partial_greatest_lower_bound(&args[0], &args[1]),
            SynchronousCoreFunction::OrderPartialLeastUpperBound => order::partial_least_upper_bound(&args[0], &args[1]),
            SynchronousCoreFunction::BoolNot => boolean::not(&args[0]),
            SynchronousCoreFunction::BoolAnd => boolean::and(&args[0], &args[1]),
            SynchronousCoreFunction::BoolOr => boolean::or(&args[0], &args[1]),
            SynchronousCoreFunction::BoolIf => boolean::if_(&args[0], &args[1]),
            SynchronousCoreFunction::BoolIff => boolean::iff(&args[0], &args[1]),
            SynchronousCoreFunction::BoolXor => boolean::xor(&args[0], &args[1]),
            SynchronousCoreFunction::FloatToInt => float::to_int(&args[0]),
            SynchronousCoreFunction::FloatFromInt => float::from_int(&args[0]),
            SynchronousCoreFunction::FloatToBits => float::to_bits(&args[0]),
            SynchronousCoreFunction::FloatFromBits => float::from_bits(&args[0]),
            SynchronousCoreFunction::IntSignum => integer::signum(&args[0]),
            SynchronousCoreFunction::IntAdd => integer::add(&args[0], &args[1]),
            SynchronousCoreFunction::IntSub => integer::sub(&args[0], &args[1]),
            SynchronousCoreFunction::IntMul => integer::mul(&args[0], &args[1]),
            SynchronousCoreFunction::IntDiv => integer::div(&args[0], &args[1]),
            SynchronousCoreFunction::IntDivTrunc => integer::div_trunc(&args[0], &args[1]),
            SynchronousCoreFunction::IntMod => integer::mod_(&args[0], &args[1]),
            SynchronousCoreFunction::IntModTrunc => integer::mod_trunc(&args[0], &args[1]),
            SynchronousCoreFunction::IntNeg => integer::neg(&args[0]),
            SynchronousCoreFunction::IntAbs => integer::abs(&args[0]),
            SynchronousCoreFunction::IntPow => integer::pow(&args[0], &args[1]),
            SynchronousCoreFunction::IntSatAdd => integer::sat_add(&args[0], &args[1]),
            SynchronousCoreFunction::IntSatSub => integer::sat_sub(&args[0], &args[1]),
            SynchronousCoreFunction::IntSatMul => integer::sat_mul(&args[0], &args[1]),
            SynchronousCoreFunction::IntSatPow => integer::sat_pow(&args[0], &args[1]),
            SynchronousCoreFunction::IntWrapAdd => integer::wrap_add(&args[0], &args[1]),
            SynchronousCoreFunction::IntWrapSub => integer::wrap_sub(&args[0], &args[1]),
            SynchronousCoreFunction::IntWrapMul => integer::wrap_mul(&args[0], &args[1]),
            SynchronousCoreFunction::IntWrapDiv => integer::wrap_div(&args[0], &args[1]),
            SynchronousCoreFunction::IntWrapDivTrunc => integer::wrap_div_trunc(&args[0], &args[1]),
            SynchronousCoreFunction::IntWrapMod => integer::wrap_mod(&args[0], &args[1]),
            SynchronousCoreFunction::IntWrapModTrunc => integer::wrap_mod_trunc(&args[0], &args[1]),
            SynchronousCoreFunction::IntWrapNeg => integer::wrap_neg(&args[0]),
            SynchronousCoreFunction::IntWrapAbs => integer::wrap_abs(&args[0]),
            SynchronousCoreFunction::IntWrapPow => integer::wrap_pow(&args[0], &args[1]),
            SynchronousCoreFunction::IntBitCountOnes => integer::bit_count_ones(&args[0]),
            SynchronousCoreFunction::IntBitCountZeros => integer::bit_count_zeros(&args[0]),
            SynchronousCoreFunction::IntBitLeadingOnes => integer::bit_leading_ones(&args[0]),
            SynchronousCoreFunction::IntBitLeadingZeros => integer::bit_leading_zeros(&args[0]),
            SynchronousCoreFunction::IntBitTrailingOnes => integer::bit_trailing_ones(&args[0]),
            SynchronousCoreFunction::IntBitTrailingZeros => integer::bit_trailing_zeros(&args[0]),
            SynchronousCoreFunction::IntBitRotateLeft => integer::bit_rotate_left(&args[0], &args[1]),
            SynchronousCoreFunction::IntBitRotateRight => integer::bit_rotate_right(&args[0], &args[1]),
            SynchronousCoreFunction::IntBitReverseBytes => integer::bit_reverse_bytes(&args[0]),
            SynchronousCoreFunction::IntBitReverseBits => integer::bit_reverse_bits(&args[0]),
            SynchronousCoreFunction::IntBitShl => integer::bit_shl(&args[0], &args[1]),
            SynchronousCoreFunction::IntBitShr => integer::bit_shr(&args[0], &args[1]),
            _ => vstd::pervasive::unreached(),
        }
    }

    /// The floats among the arguments of a floating-point primitive, in
    /// order; `NotFloat` carrying a copy of the first argument that is no
    /// float.
    pub fn float_arguments<SS: ValueBaseOrdered, SA: ValueBaseOrdered, DS: ValueBase, DA: ValueBase>(&self, args: &[crate::V<SS, SA, DS, DA>]) -> (r: Result<Vec<PavoFloat>, CoreFailure<crate::V<SS, SA, DS, DA>>>)
        requires
            args@.len() == self.spec_arity(),
        ensures
            match r {
                Ok(fs) => fs@.len() == args@.len() && forall|i: int|
                    0 <= i < args@.len() ==> #[trigger] args@[i] == crate::V::<SS, SA, DS, DA>::Float(fs@[i]),
                Err(e) => exists|j: int|
                    0 <= j < args@.len()
                        && !(args@[j] is Float)
                        && (forall|i: int| 0 <= i < j ==> #[trigger] args@[i] is Float)
                        && (e matches CoreFailure::NotFloat(w) && crate::same(args@[j], w)),
            },
    {
        let mut fs: Vec<PavoFloat> = Vec::new();
        let mut i: usize = 0;
        while i < args.len()
            invariant
                i <= args@.len(),
                fs@.len() == i,
                forall|k: int| 0 <= k < i ==> #[trigger] args@[k] == crate::V::<SS, SA, DS, DA>::Float(fs@[k]),
            decreases args@.len() - i,
        {
            match util::as_float(&args[i]) {
                Ok(f) => fs.push(f),
                Err(e) => {
                    proof {
                        assert(forall|k: int| 0 <= k < i ==> #[trigger] args@[k] is Float);
                    }
                    return Err(e);
                },
            }
            i = i + 1;
        }
        Ok(fs)
    }
}

impl AsynchronousCoreFunction {
    /// Runs the primitive. Yielding hands control back to the scheduler and
    /// resumes with nil.
    pub fn invoke<SS, SA, DS, DA>(&self, args: &[crate::V<SS, SA, DS, DA>]) -> (r: CoreFuture<crate::V<SS, SA, DS, DA>>)
        requires
            args@.len() == 0,
        ensures
            r.value is Nil,
    {
        match self {
            AsynchronousCoreFunction::PreemptiveYield => CoreFuture { value: crate::V::Nil },
        }
    }
}

impl<D> DynamicSynchronous<D> {
    /// The number of arguments the host's native takes.
    pub fn arity<Val, Fail>(&self) -> (r: usize)
        where D: SynchronousNative<Val, Fail>,
        requires
            self is Custom,
    {
        match self {
            DynamicSynchronous::Custom(d) => d.arity(),
            DynamicSynchronous::Core(_) => vstd::pervasive::unreached(),
        }
    }

    /// Runs the host's native.
    pub fn invoke<Val, Fail>(&mut self, args: &[Val]) -> (r: Result<Val, Fail>)
        where D: SynchronousNative<Val, Fail>,
        requires
            *old(self) is Custom,
    {
        match self {
            DynamicSynchronous::Custom(d) => d.invoke(args),
            DynamicSynchronous::Core(_) => vstd::pervasive::unreached(),
        }
    }
}

impl<S, D> SynchronousFun<S, D> {
    /// The number of arguments the callable takes.
    pub fn arity<Val, Fail>(&self) -> (r: usize)
        where S: SynchronousNative<Val, Fail>, D: SynchronousNative<Val, Fail>,
        requires
            self matches SynchronousFun::Dynamic { fun, .. } ==> fun is Custom,
        ensures
            self matches SynchronousFun::Core(c) ==> r == c.spec_arity(),
    {
        match self {
            SynchronousFun::Core(c) => c.arity(),
            SynchronousFun::StaticSynchronous(s) => s.arity(),
            SynchronousFun::Dynamic { fun, .. } => fun.arity(),
        }
    }
}

impl<SS: ValueBaseOrdered, DS: ValueBase> SynchronousFun<SS, DS> {
    /// Runs the callable. A core primitive is run here; its failure comes
    /// back as `VvvmFailure::Core`. A native is the host's to run.
    pub fn invoke<SA: ValueBaseOrdered, DA: ValueBase, F>(
        &mut self,
        args: &[crate::V<SS, SA, DS, DA>],
    ) -> (r: Result<crate::V<SS, SA, DS, DA>, VvvmFailure<crate::V<SS, SA, DS, DA>, F>>)
        where
            SS: SynchronousNative<crate::V<SS, SA, DS, DA>, VvvmFailure<crate::V<SS, SA, DS, DA>, F>>,
            DS: SynchronousNative<crate::V<SS, SA, DS, DA>, VvvmFailure<crate::V<SS, SA, DS, DA>, F>>,
        requires
            *old(self) matches SynchronousFun::Core(c) ==> args@.len() == c.spec_arity()
                && !c.spec_is_float_arithmetic(),
            *old(self) matches SynchronousFun::Dynamic { fun, .. } ==> fun is Custom,
        ensures
            *old(self) matches SynchronousFun::Core(c) ==> *final(self) == *old(self) && match r {
                Ok(v) => call_ensures(
                    SynchronousCoreFunction::invoke::<SS, SA, DS, DA>,
                    (&c, args),
                    Ok::<crate::V<SS, SA, DS, DA>, CoreFailure<crate::V<SS, SA, DS, DA>>>(v),
                ),
                Err(VvvmFailure::Core(e)) => call_ensures(
                    SynchronousCoreFunction::invoke::<SS, SA, DS, DA>,
                    (&c, args),
                    Err::<crate::V<SS, SA, DS, DA>, CoreFailure<crate::V<SS, SA, DS, DA>>>(e),
                ),
                Err(VvvmFailure::Other(_)) => false,
            },
    {
        match self {
            SynchronousFun::Core(c) => match c.invoke(args) {
                Ok(v) => Ok(v),
                Err(e) => Err(VvvmFailure::Core(e)),
            },
            SynchronousFun::StaticSynchronous(s) => s.invoke(args),
            SynchronousFun::Dynamic { fun, .. } => fun.invoke(args),
        }
    }
}

impl<S, D> AsynchronousFun<S, D> {
    /// The number of arguments the callable takes.
    pub fn arity<Val, Fut>(&self) -> (r: usize)
        where S: AsynchronousNative<Val, Fut>, D: AsynchronousNative<Val, Fut>,
        ensures
            self is Core ==> r == 0,
    {
        match self {
            AsynchronousFun::Core(c) => c.arity(),
            AsynchronousFun::StaticAsynchronous(s) => s.arity(),
            AsynchronousFun::Dynamic { fun, .. } => fun.arity(),
        }
    }
}

impl<SA: ValueBaseOrdered, DA: ValueBase> AsynchronousFun<SA, DA> {
    /// Starts the callable. A core primitive gives a future that is ready at
    /// once; a native gives the host's future.
    pub fn invoke<SS: ValueBaseOrdered, DS: ValueBase, Fut>(
        &mut self,
        args: &[crate::V<SS, SA, DS, DA>],
    ) -> (r: VvvmFuture<crate::V<SS, SA, DS, DA>, Fut>)
        where
            SA: AsynchronousNative<crate::V<SS, SA, DS, DA>, VvvmFuture<crate::V<SS, SA, DS, DA>, Fut>>,
            DA: AsynchronousNative<crate::V<SS, SA, DS, DA>, VvvmFuture<crate::V<SS, SA, DS, DA>, Fut>>,
        requires
            *old(self) is Core ==> args@.len() == 0,
        ensures
            *old(self) is Core ==> *final(self) == *old(self) && (r matches VvvmFuture::Core(f) && f.value is Nil),
    {
        match self {
            AsynchronousFun::Core(c) => VvvmFuture::Core(c.invoke(args)),
            AsynchronousFun::StaticAsynchronous(s) => s.invoke(args),
            AsynchronousFun::Dynamic { fun, .. } => fun.invoke(args),
        }
    }
}

/// Hands out ordinals to dynamic natives and closures as they are
/// registered: one counter for both, so that no two entities share an
/// ordinal, and each ordinal above every one handed out before.
#[derive(Debug)]
pub struct OrdinalCounter {
    pub next: usize,
}

/// Whether registering once took the counter from `before` to `after` and
/// handed out `o`.
pub open spec fn issues(before: OrdinalCounter, after: OrdinalCounter, o: usize) -> bool {
    o == before.next && after.next == before.next + 1
}

impl OrdinalCounter {
    /// A counter that has handed out nothing.
    pub fn new() -> (r: Self)
        ensures
            r.next == 0,
    {
        OrdinalCounter { next: 0 }
    }

    /// The next ordinal; `None` once every `usize` has been handed out.
    pub fn fresh(&mut self) -> (r: Option<usize>)
        ensures
            r matches Some(o) ==> issues(*old(self), *final(self), o),
            r is None <==> old(self).next == usize::MAX,
            r is None ==> *final(self) == *old(self),
    {
        if self.next == usize::MAX {
            None
        } else {
            let o = self.next;
            self.next = self.next + 1;
            Some(o)
        }
    }

    /// Registers a closure under a fresh ordinal.
    pub fn register_closure(&mut self, asynchronous: bool) -> (r: Option<Closure>)
        ensures
            r matches Some(c) ==> issues(*old(self), *final(self), c.ordinal) && c.asynchronous == asynchronous,
            r is None <==> old(self).next == usize::MAX,
            r is None ==> *final(self) == *old(self),
    {
        match self.fresh() {
            Some(o) => Some(Closure { ordinal: o, asynchronous }),
            None => None,
        }
    }

    /// Registers a synchronous dynamic native under a fresh ordinal.
    pub fn register_synchronous<S, D>(&mut self, fun: D) -> (r: Option<SynchronousFun<S, D>>)
        ensures
            r matches Some(f) ==> f == (SynchronousFun::<S, D>::Dynamic {
                ordinal: old(self).next,
                fun: DynamicSynchronous::Custom(fun),
            }) && issues(*old(self), *final(self), old(self).next as usize),
            r is None <==> old(self).next == usize::MAX,
            r is None ==> *final(self) == *old(self),
    {
        match self.fresh() {
            Some(o) => Some(SynchronousFun::Dynamic { ordinal: o, fun: DynamicSynchronous::Custom(fun) }),
            None => None,
        }
    }

    /// Registers an asynchronous dynamic native under a fresh ordinal.
    pub fn register_asynchronous<S, D>(&mut self, fun: D) -> (r: Option<AsynchronousFun<S, D>>)
        ensures
            r matches Some(f) ==> f == (AsynchronousFun::<S, D>::Dynamic { ordinal: old(self).next, fun })
                && issues(*old(self), *final(self), old(self).next as usize),
            r is None <==> old(self).next == usize::MAX,
            r is None ==> *final(self) == *old(self),
    {
        match self.fresh() {
            Some(o) => Some(AsynchronousFun::Dynamic { ordinal: o, fun }),
            None => None,
        }
    }
}

/// Ordinals handed out one after another strictly increase, so none is
/// handed out twice: whatever the counter handed out first is below what it
/// hands out at any later registration.
pub proof fn lemma_ordinals_increase(
    c0: OrdinalCounter,
    c1: OrdinalCounter,
    c2: OrdinalCounter,
    c3: OrdinalCounter,
    first: usize,
    later: usize,
)
    requires
        issues(c0, c1, first),
        c1.next <= c2.next,
        issues(c2, c3, later),
    ensures
        first < later,
{
}

impl<S: ValueBaseOrdered, D> PartialEq for SynchronousFun<S, D> {
    fn eq(&self, other: &Self) -> (r: bool) {
        self.total_eq(other)
    }
}

impl<S: ValueBaseOrdered, D> vstd::std_specs::cmp::PartialEqSpecImpl for SynchronousFun<S, D> {
    open spec fn obeys_eq_spec() -> bool {
        true
    }

    open spec fn eq_spec(&self, other: &Self) -> bool {
        rank_cmp(self.rank(), other.rank()) == Ordering::Equal
    }
}

impl<S: ValueBaseOrdered, D> Eq for SynchronousFun<S, D> {
}

impl<S: ValueBaseOrdered, D> PartialOrd for SynchronousFun<S, D> {
    fn partial_cmp(&self, other: &Self) -> (r: Option<Ordering>) {
        Some(self.total_cmp(other))
    }
}

impl<S: ValueBaseOrdered, D> vstd::std_specs::cmp::PartialOrdSpecImpl for SynchronousFun<S, D> {
    open spec fn obeys_partial_cmp_spec() -> bool {
        true
    }

    open spec fn partial_cmp_spec(&self, other: &Self) -> Option<Ordering> {
        Some(rank_cmp(self.rank(), other.rank()))
    }
}

impl<S: ValueBaseOrdered, D> PartialEq for AsynchronousFun<S, D> {
    fn eq(&self, other: &Self) -> (r: bool) {
        self.total_eq(other)
    }
}

impl<S: ValueBaseOrdered, D> vstd::std_specs::cmp::PartialEqSpecImpl for AsynchronousFun<S, D> {
    open spec fn obeys_eq_spec() -> bool {
        true
    }

    open spec fn eq_spec(&self, other: &Self) -> bool {
        rank_cmp(self.rank(), other.rank()) == Ordering::Equal
    }
}

impl<S: ValueBaseOrdered, D> Eq for AsynchronousFun<S, D> {
}

impl<S: ValueBaseOrdered, D> PartialOrd for AsynchronousFun<S, D> {
    fn partial_cmp(&self, other: &Self) -> (r: Option<Ordering>) {
        Some(self.total_cmp(other))
    }
}

impl<S: ValueBaseOrdered, D> vstd::std_specs::cmp::PartialOrdSpecImpl for AsynchronousFun<S, D> {
    open spec fn obeys_partial_cmp_spec() -> bool {
        true
    }

    open spec fn partial_cmp_spec(&self, other: &Self) -> Option<Ordering> {
        Some(rank_cmp(self.rank(), other.rank()))
    }
}

impl<SS: ValueBaseOrdered, SA: ValueBaseOrdered, DS, DA> PartialEq for Fun<SS, SA, DS, DA> {
    fn eq(&self, other: &Self) -> (r: bool) {
        self.total_eq(other)
    }
}

impl<SS: ValueBaseOrdered, SA: ValueBaseOrdered, DS, DA> vstd::std_specs::cmp::PartialEqSpecImpl for Fun<SS, SA, DS, DA> {
    open spec fn obeys_eq_spec() -> bool {
        true
    }

    open spec fn eq_spec(&self, other: &Self) -> bool {
        rank_cmp(self.rank(), other.rank()) == Ordering::Equal
    }
}

impl<SS: ValueBaseOrdered, SA: ValueBaseOrdered, DS, DA> Eq for Fun<SS, SA, DS, DA> {
}

impl<SS: ValueBaseOrdered, SA: ValueBaseOrdered, DS, DA> PartialOrd for Fun<SS, SA, DS, DA> {
    fn partial_cmp(&self, other: &Self) -> (r: Option<Ordering>) {
        Some(self.total_cmp(other))
    }
}

impl<SS: ValueBaseOrdered, SA: ValueBaseOrdered, DS, DA> vstd::std_specs::cmp::PartialOrdSpecImpl for Fun<SS, SA, DS, DA> {
    open spec fn obeys_partial_cmp_spec() -> bool {
        true
    }

    open spec fn partial_cmp_spec(&self, other: &Self) -> Option<Ordering> {
        Some(rank_cmp(self.rank(), other.rank()))
    }
}

/// Every synchronous callable comes before every asynchronous one,
/// whatever their ordinals; among synchronous ones a core primitive comes
/// before a static native, which comes before any dynamic native, and a
/// dynamic native and a closure go by ordinal.
pub proof fn lemma_callable_tiers<SS: ValueBaseOrdered, SA: ValueBaseOrdered, DS, DA>(
    core: SynchronousCoreFunction,
    native: SS,
    dynamic: SynchronousFun<SS, DS>,
    closure: Closure,
    later: Fun<SS, SA, DS, DA>,
)
    requires
        dynamic is Dynamic,
        !closure.asynchronous,
        dynamic->ordinal < closure.ordinal,
        later.rank().synchrony == 1,
    ensures
        rank_cmp(
            SynchronousFun::<SS, DS>::Core(core).rank(),
            SynchronousFun::<SS, DS>::StaticSynchronous(native).rank(),
        ) == Ordering::Less,
        rank_cmp(SynchronousFun::<SS, DS>::StaticSynchronous(native).rank(), dynamic.rank()) == Ordering::Less,
        rank_cmp(dynamic.rank(), closure.rank()) == Ordering::Less,
        rank_cmp(closure.rank(), later.rank()) == Ordering::Less,
        rank_cmp(SynchronousFun::<SS, DS>::Core(core).rank(), later.rank()) == Ordering::Less,
{
}

} // verus!
