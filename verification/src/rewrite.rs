//! The two tree transforms.
//!
//! `RemoveRedundantCasts` walks a tree bottom-up and, at every cast node,
//! removes a cast whose operand already has the target type, fuses a nested
//! double cast per the resolver's decision table, or re-suffixes a literal
//! (possibly under a negation) when the constant evaluator confirms the
//! values agree exactly.  At each node the rules are re-applied until none
//! fires, so the result is in normal form and a second run changes nothing.
//!
//! `ConvertCastAsPtr` replaces a cast of a slice or array reference to a raw
//! pointer of its element type with an explicit take-address call.

use vstd::prelude::*;
use crate::ast::{is_int_ty, Expr, ExprKind, LitKind, StaticTy};
use crate::ast::{expr_size, ty_eq};
use crate::resolve::{check_double_cast, check_double_cast_s, DoubleCastAction};
use crate::simple::{classify, simple_of};
use crate::suffix::{replace_suffix, replace_suffix_s};
use crate::value::{eval_const, eval_s, evaluable};

verus! {

/// The candidate a literal rewrite proposes for `e == cast(lit)`: the same
/// digits re-declared at the cast's target type, committed only when the
/// evaluator confirms both expressions denote the same constant.
pub open spec fn lit_rewrite_s(e: Expr, lit: LitKind) -> Option<Expr> {
    match replace_suffix_s(lit, e.ty) {
        Some(nl) => {
            let ne = Expr { ty: e.ty, kind: ExprKind::Lit(nl) };
            if eval_s(ne) is Some && eval_s(ne) == eval_s(e) {
                Some(ne)
            } else {
                None
            }
        },
        None => None,
    }
}

/// The candidate for `e == cast(-lit)`: the negation wrapped back around the
/// re-suffixed literal, under the same evaluator check.
pub open spec fn neg_lit_rewrite_s(e: Expr, lit: LitKind) -> Option<Expr> {
    match replace_suffix_s(lit, e.ty) {
        Some(nl) => {
            let ne = Expr {
                ty: e.ty,
                kind: ExprKind::Neg(Box::new(Expr { ty: e.ty, kind: ExprKind::Lit(nl) })),
            };
            if eval_s(ne) is Some && eval_s(ne) == eval_s(e) {
                Some(ne)
            } else {
                None
            }
        },
        None => None,
    }
}

/// One rewrite step at the root of `e`, or `None` when no rule applies.
/// Only a cast node can be rewritten; the redundant-single-cast check comes
/// first, so the resolver is only ever consulted when the intermediate type
/// differs from the target type.
pub open spec fn try_rewrite_s(e: Expr) -> Option<Expr> {
    match e.kind {
        ExprKind::Cast(oe) => {
            if oe.ty == e.ty {
                Some(*oe)
            } else {
                match oe.kind {
                    ExprKind::Cast(ie) => match check_double_cast_s(
                        simple_of(ie.ty),
                        simple_of(oe.ty),
                        simple_of(e.ty),
                    ) {
                        DoubleCastAction::RemoveBoth => Some(*ie),
                        DoubleCastAction::RemoveInner => Some(
                            Expr { ty: e.ty, kind: ExprKind::Cast(ie) },
                        ),
                        DoubleCastAction::KeepBoth => None,
                    },
                    ExprKind::Lit(lit) => lit_rewrite_s(e, lit),
                    ExprKind::Neg(ne) => match ne.kind {
                        ExprKind::Lit(lit) => neg_lit_rewrite_s(e, lit),
                        _ => None,
                    },
                    _ => None,
                }
            }
        },
        _ => None,
    }
}

/// Every rewrite step strictly shrinks the tree, so re-applying the rules at
/// a node terminates.
pub proof fn lemma_try_rewrite_shrinks(e: Expr)
    ensures
        try_rewrite_s(e) matches Some(e2) ==> expr_size(e2) < expr_size(e),
{
    match e.kind {
        ExprKind::Cast(oe) => {
            assert(expr_size(e) == 1 + expr_size(*oe));
            match oe.kind {
                ExprKind::Cast(ie) => {
                    assert(expr_size(*oe) == 1 + expr_size(*ie));
                    assert(expr_size(Expr { ty: e.ty, kind: ExprKind::Cast(ie) }) == 1 + expr_size(
                        *ie,
                    ));
                },
                ExprKind::Lit(lit) => {
                    if let Some(ne) = lit_rewrite_s(e, lit) {
                        assert(expr_size(ne) == 1);
                        assert(expr_size(*oe) == 1);
                    }
                },
                ExprKind::Neg(ne_inner) => {
                    match ne_inner.kind {
                        ExprKind::Lit(lit) => {
                            assert(expr_size(*oe) == 1 + expr_size(*ne_inner));
                            if let Some(ne) = neg_lit_rewrite_s(e, lit) {
                                assert(expr_size(ne) == 1 + expr_size(
                                    Expr {
                                        ty: e.ty,
                                        kind: ExprKind::Lit(replace_suffix_s(lit, e.ty)->Some_0),
                                    },
                                ));
                            }
                        },
                        _ => {},
                    }
                },
                _ => {},
            }
        },
        _ => {},
    }
}

/// The rules at a node, applied until none fires.
pub open spec fn reduce_s(e: Expr) -> Expr
    decreases expr_size(e),
{
    match try_rewrite_s(e) {
        Some(e2) => if expr_size(e2) < expr_size(e) {
            reduce_s(e2)
        } else {
            e2
        },
        None => e,
    }
}

/// The whole transform: children first, then the rules at the node.
pub open spec fn normalize_s(e: Expr) -> Expr
    decreases e,
{
    let kind1 = match e.kind {
        ExprKind::Cast(inner) => ExprKind::Cast(Box::new(normalize_s(*inner))),
        ExprKind::Neg(inner) => ExprKind::Neg(Box::new(normalize_s(*inner))),
        ExprKind::AsPtr(inner) => ExprKind::AsPtr(Box::new(normalize_s(*inner))),
        ExprKind::AsMutPtr(inner) => ExprKind::AsMutPtr(Box::new(normalize_s(*inner))),
        k => k,
    };
    reduce_s(Expr { ty: e.ty, kind: kind1 })
}

/// One rewrite step at the root, executably.
fn try_rewrite(e: &Expr) -> (r: Option<Expr>)
    ensures
        r == try_rewrite_s(*e),
{
    match &e.kind {
        ExprKind::Cast(oe) => {
            if ty_eq(&oe.ty, &e.ty) {
                return Some((**oe).clone());
            }
            match &oe.kind {
                ExprKind::Cast(ie) => {
                    let action = check_double_cast(
                        classify(&ie.ty),
                        classify(&oe.ty),
                        classify(&e.ty),
                    );
                    match action {
                        DoubleCastAction::RemoveBoth => Some((**ie).clone()),
                        DoubleCastAction::RemoveInner => Some(
                            Expr { ty: e.ty.clone(), kind: ExprKind::Cast(Box::new((**ie).clone())) },
                        ),
                        DoubleCastAction::KeepBoth => None,
                    }
                },
                ExprKind::Lit(lit) => {
                    match replace_suffix(lit, &e.ty) {
                        Some(nl) => {
                            let ne = Expr { ty: e.ty.clone(), kind: ExprKind::Lit(nl) };
                            proof {
                                // the suffix rewrite only succeeds for an
                                // integer target, so both sides are in the
                                // evaluator's domain
                                assert(is_int_ty(e.ty));
                                assert(evaluable(**oe));
                                assert(evaluable(*e));
                                assert(evaluable(ne));
                            }
                            let new_const = eval_const(&ne);
                            let ast_const = eval_const(e);
                            match (new_const, ast_const) {
                                (Some(nc), Some(ac)) => if nc == ac {
                                    Some(ne)
                                } else {
                                    None
                                },
                                _ => None,
                            }
                        },
                        None => None,
                    }
                },
                ExprKind::Neg(ne_inner) => {
                    match &ne_inner.kind {
                        ExprKind::Lit(lit) => {
                            match replace_suffix(lit, &e.ty) {
                                Some(nl) => {
                                    let new_lit = Expr { ty: e.ty.clone(), kind: ExprKind::Lit(nl) };
                                    proof {
                                        assert(evaluable(new_lit));
                                    }
                                    let ne = Expr {
                                        ty: e.ty.clone(),
                                        kind: ExprKind::Neg(Box::new(new_lit)),
                                    };
                                    proof {
                                        assert(is_int_ty(e.ty));
                                        assert(evaluable(**ne_inner));
                                        assert(evaluable(**oe));
                                        assert(evaluable(*e));
                                        assert(evaluable(ne));
                                    }
                                    let new_const = eval_const(&ne);
                                    let ast_const = eval_const(e);
                                    match (new_const, ast_const) {
                                        (Some(nc), Some(ac)) => if nc == ac {
                                            Some(ne)
                                        } else {
                                            None
                                        },
                                        _ => None,
                                    }
                                },
                                None => None,
                            }
                        },
                        _ => None,
                    }
                },
                _ => None,
            }
        },
        _ => None,
    }
}

/// Applies the rules at a node until none fires.
fn reduce(e: Expr) -> (r: Expr)
    ensures
        r == reduce_s(e),
    decreases expr_size(e),
{
    proof {
        lemma_try_rewrite_shrinks(e);
    }
    match try_rewrite(&e) {
        Some(e2) => reduce(e2),
        None => e,
    }
}

/// Removes all casts whose operand already has the target type, and fuses
/// double casts where the inner cast is redundant.
pub struct RemoveRedundantCasts;

impl RemoveRedundantCasts {
    /// Rewrites the tree to normal form; the result evaluates exactly as the
    /// input did.
    pub fn transform(&self, e: &Expr) -> (r: Expr)
        ensures
            r == normalize_s(*e),
        decreases e,
    {
        let kind1 = match &e.kind {
            ExprKind::Cast(inner) => ExprKind::Cast(Box::new(self.transform(inner))),
            ExprKind::Neg(inner) => ExprKind::Neg(Box::new(self.transform(inner))),
            ExprKind::AsPtr(inner) => ExprKind::AsPtr(Box::new(self.transform(inner))),
            ExprKind::AsMutPtr(inner) => ExprKind::AsMutPtr(Box::new(self.transform(inner))),
            ExprKind::Lit(lit) => ExprKind::Lit(*lit),
            ExprKind::Other(tag) => ExprKind::Other(*tag),
        };
        reduce(Expr { ty: e.ty.clone(), kind: kind1 })
    }
}

/// Normal form: no rewrite rule fires anywhere in the tree.
pub open spec fn normal(e: Expr) -> bool
    decreases e,
{
    &&& try_rewrite_s(e) is None
    &&& match e.kind {
        ExprKind::Cast(inner) => normal(*inner),
        ExprKind::Neg(inner) => normal(*inner),
        ExprKind::AsPtr(inner) => normal(*inner),
        ExprKind::AsMutPtr(inner) => normal(*inner),
        _ => true,
    }
}

/// Normal form of the immediate children alone.
pub open spec fn children_normal(e: Expr) -> bool {
    match e.kind {
        ExprKind::Cast(inner) => normal(*inner),
        ExprKind::Neg(inner) => normal(*inner),
        ExprKind::AsPtr(inner) => normal(*inner),
        ExprKind::AsMutPtr(inner) => normal(*inner),
        _ => true,
    }
}

proof fn lemma_normal_unfold(e: Expr)
    requires
        normal(e),
    ensures
        try_rewrite_s(e) is None,
        children_normal(e),
{
}

/// A rewrite step hands back a tree whose children are again in normal
/// form: every rule replaces the node with a subtree of a normalized
/// operand, or with a fresh literal.
proof fn lemma_rewrite_keeps_children_normal(e: Expr)
    requires
        children_normal(e),
        try_rewrite_s(e) is Some,
    ensures
        children_normal(try_rewrite_s(e)->Some_0),
{
    let e2 = try_rewrite_s(e)->Some_0;
    match e.kind {
        ExprKind::Cast(oe) => {
            assert(normal(*oe));
            if oe.ty == e.ty {
                lemma_normal_unfold(*oe);
            } else {
                match oe.kind {
                    ExprKind::Cast(ie) => {
                        assert(normal(*ie));
                        lemma_normal_unfold(*ie);
                    },
                    _ => {},
                }
            }
        },
        _ => {},
    }
}

/// Re-applying the rules at a node whose children are normalized ends in a
/// tree in normal form.
proof fn lemma_reduce_normal(e: Expr)
    requires
        children_normal(e),
    ensures
        normal(reduce_s(e)),
    decreases expr_size(e),
{
    lemma_try_rewrite_shrinks(e);
    match try_rewrite_s(e) {
        Some(e2) => {
            lemma_rewrite_keeps_children_normal(e);
            lemma_reduce_normal(e2);
        },
        None => {},
    }
}

/// The transform always produces a tree in normal form.
pub proof fn lemma_normalize_normal(e: Expr)
    ensures
        normal(normalize_s(e)),
    decreases e,
{
    match e.kind {
        ExprKind::Cast(inner) => lemma_normalize_normal(*inner),
        ExprKind::Neg(inner) => lemma_normalize_normal(*inner),
        ExprKind::AsPtr(inner) => lemma_normalize_normal(*inner),
        ExprKind::AsMutPtr(inner) => lemma_normalize_normal(*inner),
        _ => {},
    }
    let kind1 = match e.kind {
        ExprKind::Cast(inner) => ExprKind::Cast(Box::new(normalize_s(*inner))),
        ExprKind::Neg(inner) => ExprKind::Neg(Box::new(normalize_s(*inner))),
        ExprKind::AsPtr(inner) => ExprKind::AsPtr(Box::new(normalize_s(*inner))),
        ExprKind::AsMutPtr(inner) => ExprKind::AsMutPtr(Box::new(normalize_s(*inner))),
        k => k,
    };
    lemma_reduce_normal(Expr { ty: e.ty, kind: kind1 });
}

/// A tree already in normal form passes through the transform unchanged.
pub proof fn lemma_normal_identity(e: Expr)
    requires
        normal(e),
    ensures
        normalize_s(e) == e,
    decreases e,
{
    match e.kind {
        ExprKind::Cast(inner) => lemma_normal_identity(*inner),
        ExprKind::Neg(inner) => lemma_normal_identity(*inner),
        ExprKind::AsPtr(inner) => lemma_normal_identity(*inner),
        ExprKind::AsMutPtr(inner) => lemma_normal_identity(*inner),
        _ => {},
    }
}

/// Running the rewrite engine twice gives what one run gives: on a tree that
/// is already normalized the second run changes nothing.
pub proof fn lemma_transform_idempotent(e: Expr)
    ensures
        normalize_s(normalize_s(e)) == normalize_s(e),
{
    lemma_normalize_normal(e);
    lemma_normal_identity(normalize_s(e));
}

/// The one structural rule of `ConvertCastAsPtr`: a reference to a slice or
/// array, cast to a raw pointer of the element type, becomes an explicit
/// take-address call of the matching mutability.
pub open spec fn ptr_rule_s(e: Expr) -> Option<Expr> {
    match e.kind {
        ExprKind::Cast(oe) => match e.ty {
            StaticTy::RawPtr(mutbl, elem) => {
                let elem_matches = match oe.ty {
                    StaticTy::Ref(pointee) => match *pointee {
                        StaticTy::Slice(se) => *se == *elem,
                        StaticTy::Array(ae, _) => *ae == *elem,
                        _ => false,
                    },
                    _ => false,
                };
                if elem_matches {
                    if mutbl {
                        Some(Expr { ty: e.ty, kind: ExprKind::AsMutPtr(oe) })
                    } else {
                        Some(Expr { ty: e.ty, kind: ExprKind::AsPtr(oe) })
                    }
                } else {
                    None
                }
            },
            _ => None,
        },
        _ => None,
    }
}

/// The whole pointer-cast transform: children first, then the rule.
pub open spec fn convert_casts_s(e: Expr) -> Expr
    decreases e,
{
    let kind1 = match e.kind {
        ExprKind::Cast(inner) => ExprKind::Cast(Box::new(convert_casts_s(*inner))),
        ExprKind::Neg(inner) => ExprKind::Neg(Box::new(convert_casts_s(*inner))),
        ExprKind::AsPtr(inner) => ExprKind::AsPtr(Box::new(convert_casts_s(*inner))),
        ExprKind::AsMutPtr(inner) => ExprKind::AsMutPtr(Box::new(convert_casts_s(*inner))),
        k => k,
    };
    let e1 = Expr { ty: e.ty, kind: kind1 };
    match ptr_rule_s(e1) {
        Some(r) => r,
        None => e1,
    }
}

/// Executable form of `ptr_rule_s`.
fn ptr_rule(e: &Expr) -> (r: Option<Expr>)
    ensures
        r == ptr_rule_s(*e),
{
    match (&e.kind, &e.ty) {
        (ExprKind::Cast(oe), StaticTy::RawPtr(mutbl, elem)) => {
            let elem_matches = match &oe.ty {
                StaticTy::Ref(pointee) => match &**pointee {
                    StaticTy::Slice(se) => ty_eq(se, elem),
                    StaticTy::Array(ae, _) => ty_eq(ae, elem),
                    _ => false,
                },
                _ => false,
            };
            if elem_matches {
                if *mutbl {
                    Some(Expr { ty: e.ty.clone(), kind: ExprKind::AsMutPtr(Box::new((**oe).clone())) })
                } else {
                    Some(Expr { ty: e.ty.clone(), kind: ExprKind::AsPtr(Box::new((**oe).clone())) })
                }
            } else {
                None
            }
        },
        _ => None,
    }
}

/// Converts casts of slice and array references to raw pointers into
/// explicit take-address calls.
pub struct ConvertCastAsPtr;

impl ConvertCastAsPtr {
    /// Applies the pointer-cast rule everywhere in the tree.
    pub fn transform(&self, e: &Expr) -> (r: Expr)
        ensures
            r == convert_casts_s(*e),
        decreases e,
    {
        let kind1 = match &e.kind {
            ExprKind::Cast(inner) => ExprKind::Cast(Box::new(self.transform(inner))),
            ExprKind::Neg(inner) => ExprKind::Neg(Box::new(self.transform(inner))),
            ExprKind::AsPtr(inner) => ExprKind::AsPtr(Box::new(self.transform(inner))),
            ExprKind::AsMutPtr(inner) => ExprKind::AsMutPtr(Box::new(self.transform(inner))),
            ExprKind::Lit(lit) => ExprKind::Lit(*lit),
            ExprKind::Other(tag) => ExprKind::Other(*tag),
        };
        let e1 = Expr { ty: e.ty.clone(), kind: kind1 };
        match ptr_rule(&e1) {
            Some(r) => r,
            None => e1,
        }
    }
}

/// Normal form for the pointer-cast transform.
pub open spec fn ptr_normal(e: Expr) -> bool
    decreases e,
{
    &&& ptr_rule_s(e) is None
    &&& match e.kind {
        ExprKind::Cast(inner) => ptr_normal(*inner),
        ExprKind::Neg(inner) => ptr_normal(*inner),
        ExprKind::AsPtr(inner) => ptr_normal(*inner),
        ExprKind::AsMutPtr(inner) => ptr_normal(*inner),
        _ => true,
    }
}

/// The pointer-cast transform leaves no place for its rule to fire again.
pub proof fn lemma_convert_casts_normal(e: Expr)
    ensures
        ptr_normal(convert_casts_s(e)),
    decreases e,
{
    match e.kind {
        ExprKind::Cast(inner) => lemma_convert_casts_normal(*inner),
        ExprKind::Neg(inner) => lemma_convert_casts_normal(*inner),
        ExprKind::AsPtr(inner) => lemma_convert_casts_normal(*inner),
        ExprKind::AsMutPtr(inner) => lemma_convert_casts_normal(*inner),
        _ => {},
    }
}

/// A tree the pointer-cast transform cannot touch passes through unchanged.
pub proof fn lemma_ptr_normal_identity(e: Expr)
    requires
        ptr_normal(e),
    ensures
        convert_casts_s(e) == e,
    decreases e,
{
    match e.kind {
        ExprKind::Cast(inner) => lemma_ptr_normal_identity(*inner),
        ExprKind::Neg(inner) => lemma_ptr_normal_identity(*inner),
        ExprKind::AsPtr(inner) => lemma_ptr_normal_identity(*inner),
        ExprKind::AsMutPtr(inner) => lemma_ptr_normal_identity(*inner),
        _ => {},
    }
}

/// Running the pointer-cast transform twice gives what one run gives.
pub proof fn lemma_convert_casts_idempotent(e: Expr)
    ensures
        convert_casts_s(convert_casts_s(e)) == convert_casts_s(e),
{
    lemma_convert_casts_normal(e);
    lemma_ptr_normal_identity(convert_casts_s(e));
}

} // verus!
