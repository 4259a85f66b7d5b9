//! The double-cast resolver: given the three classified types of a nested
//! cast `e as t1 as t2`, decide whether both casts, only the inner one, or
//! neither can be removed.

use vstd::prelude::*;
use crate::kind::{cast_kind, cast_kind_s, CastKind};
use crate::simple::SimpleTy;

verus! {

/// What to do with a double cast.
#[derive(Copy, Clone, Debug, PartialEq, Eq, Structural)]
pub enum DoubleCastAction {
    /// Replace `e as t1 as t2` with `e`.
    RemoveBoth,
    /// Replace `e as t1 as t2` with `e as t2`.
    RemoveInner,
    /// No decidable equivalence: keep the expression as it stands.
    KeepBoth,
}

/// The decision table, over the kinds of the two cast steps:
///
/// * both steps reinterpret at the same width, or the first extends and the
///   second truncates, and the source type equals the final type — the round
///   trip returns every value unchanged: remove both;
/// * the first step extends or keeps the width, the second extends or
///   crosses into or out of a pointer-width type, and the second step's own
///   source signedness — the intermediate type's — equals the original
///   source's: the intermediate step adds no information beyond the source's
///   own sign and width: remove the inner cast;
/// * the second step keeps the width or truncates — its result depends only
///   on low bits that the source already determines: remove the inner cast;
/// * anything else: keep both.
pub open spec fn check_double_cast_s(e_ty: SimpleTy, t1_ty: SimpleTy, t2_ty: SimpleTy) -> DoubleCastAction {
    let inner_cast = cast_kind_s(e_ty, t1_ty);
    let outer_cast = cast_kind_s(t1_ty, t2_ty);
    if ((inner_cast is SameWidth && outer_cast is SameWidth) || (inner_cast is Extend
        && outer_cast is Truncate)) && e_ty == t2_ty {
        DoubleCastAction::RemoveBoth
    } else if (match (inner_cast, outer_cast) {
        (CastKind::Extend(_), CastKind::Extend(s)) => s == e_ty.is_signed_s(),
        (CastKind::SameWidth, CastKind::Extend(s)) => s == e_ty.is_signed_s(),
        (CastKind::SameWidth, CastKind::FromPointer(s)) => s == e_ty.is_signed_s(),
        (CastKind::SameWidth, CastKind::ToPointer(s)) => s == e_ty.is_signed_s(),
        _ => false,
    }) {
        DoubleCastAction::RemoveInner
    } else if outer_cast is SameWidth || outer_cast is Truncate {
        DoubleCastAction::RemoveInner
    } else {
        DoubleCastAction::KeepBoth
    }
}

/// Executable form of `check_double_cast_s`.  Invoked only when the
/// intermediate type differs from the target type; the orchestrator's
/// redundant-single-cast check fires first and guarantees that.
pub fn check_double_cast(e_ty: SimpleTy, t1_ty: SimpleTy, t2_ty: SimpleTy) -> (r: DoubleCastAction)
    ensures
        r == check_double_cast_s(e_ty, t1_ty, t2_ty),
{
    let inner_cast = cast_kind(e_ty, t1_ty);
    let outer_cast = cast_kind(t1_ty, t2_ty);
    let cancels = match (inner_cast, outer_cast) {
        (CastKind::SameWidth, CastKind::SameWidth) => true,
        (CastKind::Extend(_), CastKind::Truncate) => true,
        _ => false,
    };
    if cancels && e_ty == t2_ty {
        return DoubleCastAction::RemoveBoth;
    }
    let inner_adds_nothing = match (inner_cast, outer_cast) {
        (CastKind::Extend(_), CastKind::Extend(s)) => s == e_ty.is_signed(),
        (CastKind::SameWidth, CastKind::Extend(s)) => s == e_ty.is_signed(),
        (CastKind::SameWidth, CastKind::FromPointer(s)) => s == e_ty.is_signed(),
        (CastKind::SameWidth, CastKind::ToPointer(s)) => s == e_ty.is_signed(),
        _ => false,
    };
    if inner_adds_nothing {
        return DoubleCastAction::RemoveInner;
    }
    match outer_cast {
        CastKind::SameWidth => DoubleCastAction::RemoveInner,
        CastKind::Truncate => DoubleCastAction::RemoveInner,
        _ => DoubleCastAction::KeepBoth,
    }
}

} // verus!
