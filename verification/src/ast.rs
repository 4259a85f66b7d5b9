//! The expression trees and resolved static types that the engine works on.
//!
//! The surrounding tool owns the real syntax trees; the engine only reads the
//! shapes below: a cast, a literal, a unary negation, a call of `as_ptr` /
//! `as_mut_ptr`, and an opaque catch-all.  Every node carries the resolved
//! static type that the tool's type oracle assigned to it.

use vstd::prelude::*;

verus! {

/// A fixed- or platform-width signed integer type.
#[derive(Copy, Clone, Debug, PartialEq, Eq, Structural)]
pub enum IntTy {
    Isize,
    I8,
    I16,
    I32,
    I64,
    I128,
}

/// A fixed- or platform-width unsigned integer type.
#[derive(Copy, Clone, Debug, PartialEq, Eq, Structural)]
pub enum UintTy {
    Usize,
    U8,
    U16,
    U32,
    U64,
    U128,
}

/// One of the two IEEE floating-point type names.  The engine never touches a
/// floating-point value; it only compares the type tags.
#[derive(Copy, Clone, Debug, PartialEq, Eq, Structural)]
pub enum FloatTy {
    F32,
    F64,
}

/// A resolved static type, as handed over by the type oracle: aliases are
/// resolved and lifetimes erased before a type reaches the engine.  Types the
/// engine cannot classify arrive as `Other`, with a tag that distinguishes
/// distinct source types.
#[derive(Debug, PartialEq, Eq)]
pub enum StaticTy {
    Int(IntTy),
    Uint(UintTy),
    Float(FloatTy),
    /// A raw pointer; the flag is true for `*mut`.
    RawPtr(bool, Box<StaticTy>),
    /// A reference; the engine never needs its mutability.
    Ref(Box<StaticTy>),
    FnPtr,
    Slice(Box<StaticTy>),
    Array(Box<StaticTy>, usize),
    Other(u64),
}

/// The declared suffix of an integer literal.
#[derive(Copy, Clone, Debug, PartialEq, Eq, Structural)]
pub enum LitIntType {
    Unsuffixed,
    Signed(IntTy),
    Unsigned(UintTy),
}

/// A literal.  Integer literals carry their (never negative) digits value and
/// suffix.  Every other literal form is opaque to the engine and is never
/// rewritten or evaluated; the tag keeps distinct literals distinct.
#[derive(Copy, Clone, Debug, PartialEq, Eq, Structural)]
pub enum LitKind {
    Int(u128, LitIntType),
    Other(u64),
}

/// An expression node: its resolved static type and its shape.
#[derive(Debug, PartialEq, Eq)]
pub struct Expr {
    pub ty: StaticTy,
    pub kind: ExprKind,
}

/// The expression shapes the engine can see.  A `Cast` node's target type is
/// the node's own resolved type.  Everything else is `Other`, a leaf whose
/// tag distinguishes distinct source expressions.
#[derive(Debug, PartialEq, Eq)]
pub enum ExprKind {
    Lit(LitKind),
    Cast(Box<Expr>),
    Neg(Box<Expr>),
    AsPtr(Box<Expr>),
    AsMutPtr(Box<Expr>),
    Other(u64),
}

/// Whether a resolved type is an integer type, platform-width ones included.
pub open spec fn is_int_ty(t: StaticTy) -> bool {
    t is Int || t is Uint
}

/// The number of nodes in an expression tree; rewrites only ever shrink it.
pub open spec fn expr_size(e: Expr) -> nat
    decreases e,
{
    match e.kind {
        ExprKind::Cast(inner) => 1 + expr_size(*inner),
        ExprKind::Neg(inner) => 1 + expr_size(*inner),
        ExprKind::AsPtr(inner) => 1 + expr_size(*inner),
        ExprKind::AsMutPtr(inner) => 1 + expr_size(*inner),
        ExprKind::Lit(_) => 1,
        ExprKind::Other(_) => 1,
    }
}

impl Clone for StaticTy {
    /// A clone is the identical type.
    fn clone(&self) -> (res: Self)
        ensures
            res == *self,
        decreases self,
    {
        match self {
            StaticTy::Int(t) => StaticTy::Int(*t),
            StaticTy::Uint(t) => StaticTy::Uint(*t),
            StaticTy::Float(t) => StaticTy::Float(*t),
            StaticTy::RawPtr(m, elem) => StaticTy::RawPtr(*m, Box::new((&**elem).clone())),
            StaticTy::Ref(elem) => StaticTy::Ref(Box::new((&**elem).clone())),
            StaticTy::FnPtr => StaticTy::FnPtr,
            StaticTy::Slice(elem) => StaticTy::Slice(Box::new((&**elem).clone())),
            StaticTy::Array(elem, n) => StaticTy::Array(Box::new((&**elem).clone()), *n),
            StaticTy::Other(tag) => StaticTy::Other(*tag),
        }
    }
}

impl Clone for ExprKind {
    /// A clone is the identical shape.
    fn clone(&self) -> (res: Self)
        ensures
            res == *self,
        decreases self,
    {
        match self {
            ExprKind::Lit(l) => ExprKind::Lit(*l),
            ExprKind::Cast(inner) => ExprKind::Cast(Box::new((&**inner).clone())),
            ExprKind::Neg(inner) => ExprKind::Neg(Box::new((&**inner).clone())),
            ExprKind::AsPtr(inner) => ExprKind::AsPtr(Box::new((&**inner).clone())),
            ExprKind::AsMutPtr(inner) => ExprKind::AsMutPtr(Box::new((&**inner).clone())),
            ExprKind::Other(tag) => ExprKind::Other(*tag),
        }
    }
}

impl Clone for Expr {
    /// A clone is the identical tree.
    fn clone(&self) -> (res: Self)
        ensures
            res == *self,
        decreases self,
    {
        Expr { ty: self.ty.clone(), kind: self.kind.clone() }
    }
}

/// Structural equality of resolved types, the test behind "the operand
/// already has the cast's target type".
pub fn ty_eq(a: &StaticTy, b: &StaticTy) -> (r: bool)
    ensures
        r == (*a == *b),
    decreases a,
{
    match (a, b) {
        (StaticTy::Int(x), StaticTy::Int(y)) => x == y,
        (StaticTy::Uint(x), StaticTy::Uint(y)) => x == y,
        (StaticTy::Float(x), StaticTy::Float(y)) => x == y,
        (StaticTy::RawPtr(m1, e1), StaticTy::RawPtr(m2, e2)) => m1 == m2 && ty_eq(e1, e2),
        (StaticTy::Ref(e1), StaticTy::Ref(e2)) => ty_eq(e1, e2),
        (StaticTy::FnPtr, StaticTy::FnPtr) => true,
        (StaticTy::Slice(e1), StaticTy::Slice(e2)) => ty_eq(e1, e2),
        (StaticTy::Array(e1, n1), StaticTy::Array(e2, n2)) => n1 == n2 && ty_eq(e1, e2),
        (StaticTy::Other(x), StaticTy::Other(y)) => x == y,
        _ => false,
    }
}

} // verus!
