//! The literal suffix rewriter: a cast of an integer literal can instead
//! re-declare the literal at the target type, but only inside a conservative
//! safety envelope — the digits must be representable in the target.  A
//! platform-width target admits only values that fit in 16 bits, the
//! narrowest width any supported platform could give it.
//!
//! Literals the engine cannot read exactly — floats among them — are never
//! re-suffixed: absence of proof of safety blocks the rewrite, and the cast
//! simply stays.

use vstd::prelude::*;
use crate::ast::{IntTy, LitIntType, LitKind, StaticTy, UintTy};

verus! {

/// The largest digits value the rewriter accepts for each integer target
/// type.  Literal digits are never negative, so only the upper bound binds.
pub open spec fn suffix_limit(ty: StaticTy) -> u128
    recommends
        ty is Int || ty is Uint,
{
    match ty {
        StaticTy::Int(IntTy::Isize) => 0x7fff,
        StaticTy::Int(IntTy::I8) => 0x7f,
        StaticTy::Int(IntTy::I16) => 0x7fff,
        StaticTy::Int(IntTy::I32) => 0x7fffffff,
        StaticTy::Int(IntTy::I64) => 0x7fffffffffffffff,
        StaticTy::Int(IntTy::I128) => 0x7fffffffffffffffffffffffffffffff,
        StaticTy::Uint(UintTy::Usize) => 0xffff,
        StaticTy::Uint(UintTy::U8) => 0xff,
        StaticTy::Uint(UintTy::U16) => 0xffff,
        StaticTy::Uint(UintTy::U32) => 0xffffffff,
        StaticTy::Uint(UintTy::U64) => 0xffffffffffffffff,
        StaticTy::Uint(UintTy::U128) => 0xffffffffffffffffffffffffffffffff,
        _ => 0,
    }
}

/// What the rewriter returns: the same digits under the target type's own
/// suffix when the digits fit the envelope, and nothing otherwise or for any
/// non-integer literal or target.
pub open spec fn replace_suffix_s(lit: LitKind, ty: StaticTy) -> Option<LitKind> {
    match (lit, ty) {
        (LitKind::Int(i, _), StaticTy::Int(it)) => if i <= suffix_limit(ty) {
            Some(LitKind::Int(i, LitIntType::Signed(it)))
        } else {
            None
        },
        (LitKind::Int(i, _), StaticTy::Uint(ut)) => if i <= suffix_limit(ty) {
            Some(LitKind::Int(i, LitIntType::Unsigned(ut)))
        } else {
            None
        },
        _ => None,
    }
}

/// Re-declares an integer literal at the target type where that is inside
/// the safety envelope.  `None` is not an error: the cast is retained.
pub fn replace_suffix(lit: &LitKind, ty: &StaticTy) -> (r: Option<LitKind>)
    ensures
        r == replace_suffix_s(*lit, *ty),
{
    match (lit, ty) {
        (LitKind::Int(i, _), StaticTy::Int(it)) => {
            let limit: u128 = match it {
                IntTy::Isize => 0x7fff,
                IntTy::I8 => 0x7f,
                IntTy::I16 => 0x7fff,
                IntTy::I32 => 0x7fffffff,
                IntTy::I64 => 0x7fffffffffffffff,
                IntTy::I128 => 0x7fffffffffffffffffffffffffffffff,
            };
            if *i <= limit {
                Some(LitKind::Int(*i, LitIntType::Signed(*it)))
            } else {
                None
            }
        },
        (LitKind::Int(i, _), StaticTy::Uint(ut)) => {
            let limit: u128 = match ut {
                UintTy::Usize => 0xffff,
                UintTy::U8 => 0xff,
                UintTy::U16 => 0xffff,
                UintTy::U32 => 0xffffffff,
                UintTy::U64 => 0xffffffffffffffff,
                UintTy::U128 => 0xffffffffffffffffffffffffffffffff,
            };
            if *i <= limit {
                Some(LitKind::Int(*i, LitIntType::Unsigned(*ut)))
            } else {
                None
            }
        },
        _ => None,
    }
}

} // verus!
