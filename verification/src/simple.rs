//! The type classifier: a resolved static type is reduced to a small tag that
//! captures exactly what the cast rules need — width, signedness, and whether
//! the type is a platform-width integer, a float or a pointer.

use vstd::prelude::*;
use crate::ast::{FloatTy, IntTy, StaticTy, UintTy};

verus! {

/// The classifier's output.  `Size` is a platform-width integer, kept apart
/// from fixed-width integers because its bit width is not statically known.
/// `Pointer` covers raw pointers, references and function pointers, which are
/// bit-compatible for cast purposes.  `Other` means no classification is
/// available, and every rule treats it conservatively.
#[derive(Copy, Clone, Debug, PartialEq, Eq, Structural)]
pub enum SimpleTy {
    /// A fixed-width integer: bit width and signedness.
    Int(usize, bool),
    /// A platform-width integer: signedness only.
    Size(bool),
    Float32,
    Float64,
    Pointer,
    Other,
}

/// The bit width a signed integer type has in the engine's value model.  The
/// platform-width type is modeled pessimistically at 16 bits — the narrowest
/// width any supported platform could give it; the classifier itself never
/// reads a width for it, sending it to `Size` first.
pub open spec fn int_ty_bits(t: IntTy) -> usize {
    match t {
        IntTy::Isize => 16,
        IntTy::I8 => 8,
        IntTy::I16 => 16,
        IntTy::I32 => 32,
        IntTy::I64 => 64,
        IntTy::I128 => 128,
    }
}

/// The bit width an unsigned integer type has in the engine's value model;
/// `Usize` is modeled at 16 bits, as `Isize` is.
pub open spec fn uint_ty_bits(t: UintTy) -> usize {
    match t {
        UintTy::Usize => 16,
        UintTy::U8 => 8,
        UintTy::U16 => 16,
        UintTy::U32 => 32,
        UintTy::U64 => 64,
        UintTy::U128 => 128,
    }
}

/// Executable form of `int_ty_bits`.
pub fn int_ty_width(t: IntTy) -> (r: usize)
    ensures
        r == int_ty_bits(t),
{
    match t {
        IntTy::Isize => 16,
        IntTy::I8 => 8,
        IntTy::I16 => 16,
        IntTy::I32 => 32,
        IntTy::I64 => 64,
        IntTy::I128 => 128,
    }
}

/// Executable form of `uint_ty_bits`.
pub fn uint_ty_width(t: UintTy) -> (r: usize)
    ensures
        r == uint_ty_bits(t),
{
    match t {
        UintTy::Usize => 16,
        UintTy::U8 => 8,
        UintTy::U16 => 16,
        UintTy::U32 => 32,
        UintTy::U64 => 64,
        UintTy::U128 => 128,
    }
}

/// What the classifier returns for each resolved type.
pub open spec fn simple_of(t: StaticTy) -> SimpleTy {
    match t {
        StaticTy::Int(IntTy::Isize) => SimpleTy::Size(true),
        StaticTy::Uint(UintTy::Usize) => SimpleTy::Size(false),
        StaticTy::Int(it) => SimpleTy::Int(int_ty_bits(it), true),
        StaticTy::Uint(ut) => SimpleTy::Int(uint_ty_bits(ut), false),
        StaticTy::Float(FloatTy::F32) => SimpleTy::Float32,
        StaticTy::Float(FloatTy::F64) => SimpleTy::Float64,
        StaticTy::RawPtr(_, _) => SimpleTy::Pointer,
        StaticTy::Ref(_) => SimpleTy::Pointer,
        StaticTy::FnPtr => SimpleTy::Pointer,
        _ => SimpleTy::Other,
    }
}

/// Classifies a resolved static type.  Total: anything unclassifiable comes
/// back as `SimpleTy::Other`.
pub fn classify(t: &StaticTy) -> (r: SimpleTy)
    ensures
        r == simple_of(*t),
{
    match t {
        StaticTy::Int(IntTy::Isize) => SimpleTy::Size(true),
        StaticTy::Uint(UintTy::Usize) => SimpleTy::Size(false),
        StaticTy::Int(IntTy::I8) => SimpleTy::Int(8, true),
        StaticTy::Int(IntTy::I16) => SimpleTy::Int(16, true),
        StaticTy::Int(IntTy::I32) => SimpleTy::Int(32, true),
        StaticTy::Int(IntTy::I64) => SimpleTy::Int(64, true),
        StaticTy::Int(IntTy::I128) => SimpleTy::Int(128, true),
        StaticTy::Uint(UintTy::U8) => SimpleTy::Int(8, false),
        StaticTy::Uint(UintTy::U16) => SimpleTy::Int(16, false),
        StaticTy::Uint(UintTy::U32) => SimpleTy::Int(32, false),
        StaticTy::Uint(UintTy::U64) => SimpleTy::Int(64, false),
        StaticTy::Uint(UintTy::U128) => SimpleTy::Int(128, false),
        StaticTy::Float(FloatTy::F32) => SimpleTy::Float32,
        StaticTy::Float(FloatTy::F64) => SimpleTy::Float64,
        StaticTy::RawPtr(_, _) => SimpleTy::Pointer,
        StaticTy::Ref(_) => SimpleTy::Pointer,
        StaticTy::FnPtr => SimpleTy::Pointer,
        StaticTy::Slice(_) => SimpleTy::Other,
        StaticTy::Array(_, _) => SimpleTy::Other,
        StaticTy::Other(_) => SimpleTy::Other,
    }
}

impl From<StaticTy> for SimpleTy {
    /// Classification, as the conversion the callers reach for.
    fn from(t: StaticTy) -> (r: SimpleTy) {
        classify(&t)
    }
}

impl vstd::std_specs::convert::FromSpecImpl<StaticTy> for SimpleTy {
    open spec fn obeys_from_spec() -> bool {
        true
    }

    open spec fn from_spec(t: StaticTy) -> SimpleTy {
        simple_of(t)
    }
}

impl SimpleTy {
    /// Whether values of the type carry a sign.  The float tags count as
    /// signed — a tie-break flag only, no IEEE semantics — and `Pointer` and
    /// `Other` as unsigned.
    pub open spec fn is_signed_s(self) -> bool {
        match self {
            SimpleTy::Int(_, s) => s,
            SimpleTy::Size(s) => s,
            SimpleTy::Float32 => true,
            SimpleTy::Float64 => true,
            _ => false,
        }
    }

    /// Executable form of `is_signed_s`.
    pub fn is_signed(&self) -> (r: bool)
        ensures
            r == self.is_signed_s(),
    {
        match self {
            SimpleTy::Int(_, s) => *s,
            SimpleTy::Size(s) => *s,
            SimpleTy::Float32 => true,
            SimpleTy::Float64 => true,
            _ => false,
        }
    }
}

} // verus!
