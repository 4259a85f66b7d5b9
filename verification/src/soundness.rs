//! The engine's safety laws.
//!
//! The double-cast decision table must be value-preserving for every
//! representable value of the source type, whatever width the platform gives
//! its pointer-width integers; and a literal suffix rewrite must succeed
//! exactly for the values representable in the target, producing a constant
//! equal to what the cast itself would produce.  Both are proved here
//! against the machine-integer value model of `numeric`.

use vstd::prelude::*;
use crate::ast::{is_int_ty, Expr, ExprKind, LitIntType, LitKind, StaticTy};
use crate::kind::{cast_kind_s, CastKind};
use crate::numeric::{
    in_range, lemma_extend_identity, lemma_round_trip, lemma_trunc_compose, lemma_trunc_identity,
    trunc_val,
};
use crate::resolve::{check_double_cast_s, DoubleCastAction};
use crate::simple::{int_ty_bits, uint_ty_bits, SimpleTy};
use crate::suffix::replace_suffix_s;
use crate::value::{eval_s, lit_value_s, model_width};
use vstd::arithmetic::power2::{lemma2_to64, lemma2_to64_rest, lemma_pow2_adds, pow2};

verus! {

/// The classified types whose values the integer model covers: fixed-width
/// and platform-width integers, and pointers, which cast like platform-width
/// unsigned integers.  Floats stay outside the model.
pub open spec fn int_like(t: SimpleTy) -> bool {
    t is Int || t is Size || t is Pointer
}

/// A classified type's bit width on a platform whose pointers are `pw` bits
/// wide.
pub open spec fn ty_width(t: SimpleTy, pw: nat) -> nat {
    match t {
        SimpleTy::Int(w, _) => w as nat,
        SimpleTy::Size(_) => pw,
        SimpleTy::Pointer => pw,
        _ => 0,
    }
}

/// A fixed-width tag carries a positive width; the classifier only ever
/// produces 8 to 128.
pub open spec fn width_ok(t: SimpleTy) -> bool {
    t matches SimpleTy::Int(w, _) ==> w >= 1
}

/// Whether the value is representable in the classified type.
pub open spec fn value_fits(v: int, t: SimpleTy, pw: nat) -> bool {
    in_range(v, ty_width(t, pw), t.is_signed_s())
}

/// What a cast to the classified type makes of a value: its low bits,
/// reinterpreted under the target's signedness.  For integer types the
/// result depends only on the value and the target.
pub open spec fn cast_value(v: int, t: SimpleTy, pw: nat) -> int {
    trunc_val(v, ty_width(t, pw), t.is_signed_s())
}

/// What each cast kind certifies about widths and signedness, once the
/// pointer width is known to be in the 32-to-64-bit band the analyzer
/// assumes.  No pair of integer-like types is ever `Unknown`.
proof fn lemma_kind_facts(f: SimpleTy, t: SimpleTy, pw: nat)
    requires
        int_like(f),
        int_like(t),
        width_ok(f),
        width_ok(t),
        32 <= pw <= 64,
    ensures
        match cast_kind_s(f, t) {
            CastKind::Extend(s) => ty_width(f, pw) <= ty_width(t, pw) && s == f.is_signed_s(),
            CastKind::Truncate => ty_width(t, pw) <= ty_width(f, pw),
            CastKind::SameWidth => ty_width(f, pw) == ty_width(t, pw),
            CastKind::FromPointer(s) => s == f.is_signed_s() && ty_width(f, pw) == pw,
            CastKind::ToPointer(s) => s == f.is_signed_s() && ty_width(t, pw) == pw,
            CastKind::Unknown => false,
        },
{
}

/// Soundness of fusion: for every triple of integer-like classified types,
/// every pointer width the analyzer admits, and every representable value of
/// the source type, the resolver's action preserves the value exactly —
/// removing both casts returns the value itself, and removing the inner cast
/// returns what the direct cast returns.
pub proof fn lemma_double_cast_sound(src: SimpleTy, mid: SimpleTy, dst: SimpleTy, pw: nat, v: int)
    requires
        int_like(src),
        int_like(mid),
        int_like(dst),
        width_ok(src),
        width_ok(mid),
        width_ok(dst),
        32 <= pw <= 64,
        value_fits(v, src, pw),
    ensures
        match check_double_cast_s(src, mid, dst) {
            DoubleCastAction::RemoveBoth => cast_value(cast_value(v, mid, pw), dst, pw) == v,
            DoubleCastAction::RemoveInner => cast_value(cast_value(v, mid, pw), dst, pw)
                == cast_value(v, dst, pw),
            DoubleCastAction::KeepBoth => true,
        },
{
    let inner = cast_kind_s(src, mid);
    let outer = cast_kind_s(mid, dst);
    let ws = ty_width(src, pw);
    let wm = ty_width(mid, pw);
    let wt = ty_width(dst, pw);
    let ss = src.is_signed_s();
    let sm = mid.is_signed_s();
    let st = dst.is_signed_s();
    lemma_kind_facts(src, mid, pw);
    lemma_kind_facts(mid, dst, pw);
    match check_double_cast_s(src, mid, dst) {
        DoubleCastAction::RemoveBoth => {
            // the guard gives src == dst, and an inner step that is at least
            // as wide as the source; the low source-width bits survive both
            // steps, and the source value is the one representable value
            // they encode
            lemma_round_trip(v, ws, ss, wm, sm);
        },
        DoubleCastAction::RemoveInner => {
            let signed_extend = match (inner, outer) {
                (CastKind::Extend(_), CastKind::Extend(_)) => true,
                (CastKind::SameWidth, CastKind::Extend(_)) => true,
                (CastKind::SameWidth, CastKind::FromPointer(_)) => true,
                (CastKind::SameWidth, CastKind::ToPointer(_)) => true,
                _ => false,
            };
            if signed_extend && (match outer {
                CastKind::Extend(s) => s == ss,
                CastKind::FromPointer(s) => s == ss,
                CastKind::ToPointer(s) => s == ss,
                _ => false,
            }) {
                // the intermediate type is at least as wide as the source
                // and shares its signedness, so the inner step is the
                // identity on every representable source value
                assert(sm == ss);
                assert(ws <= wm);
                lemma_extend_identity(v, ws, ss, wm);
                assert(cast_value(v, mid, pw) == v);
            } else {
                // the outer step keeps or narrows the width, so it reads
                // only low bits that the inner step preserved
                assert(wt <= wm);
                lemma_trunc_compose(v, wm, sm, wt, st);
            }
        },
        DoubleCastAction::KeepBoth => {},
    }
}

/// A redundant single cast is sound outright: casting a value to its own
/// type returns it unchanged.
pub proof fn lemma_single_cast_sound(t: SimpleTy, pw: nat, v: int)
    requires
        int_like(t),
        width_ok(t),
        32 <= pw <= 64,
        value_fits(v, t, pw),
    ensures
        cast_value(v, t, pw) == v,
{
    lemma_trunc_identity(v, ty_width(t, pw), t.is_signed_s());
}

/// An integer literal expression, as the evaluator sees it.
pub open spec fn int_lit_expr(i: u128, suffix: LitIntType, lit_ty: StaticTy) -> Expr {
    Expr { ty: lit_ty, kind: ExprKind::Lit(LitKind::Int(i, suffix)) }
}

/// A cast expression around an operand.
pub open spec fn cast_expr(inner: Expr, ty: StaticTy) -> Expr {
    Expr { ty, kind: ExprKind::Cast(Box::new(inner)) }
}

/// Whether a literal's digits are representable under its own declared
/// suffix — the well-formedness every literal taken from real source text
/// has.
pub open spec fn lit_fits_suffix(i: u128, suffix: LitIntType) -> bool {
    match suffix {
        LitIntType::Unsuffixed => true,
        LitIntType::Signed(it) => in_range(i as int, int_ty_bits(it) as nat, true),
        LitIntType::Unsigned(ut) => in_range(i as int, uint_ty_bits(ut) as nat, false),
    }
}

/// Literal safety: re-suffixing a well-formed integer literal to an integer
/// target succeeds exactly when the digits are representable at the target's
/// modeled width, and on success the new literal evaluates to precisely what
/// the original cast expression evaluates to.
pub proof fn lemma_literal_safety(i: u128, suffix: LitIntType, lit_ty: StaticTy, ty: StaticTy)
    requires
        is_int_ty(ty),
        lit_fits_suffix(i, suffix),
    ensures
        replace_suffix_s(LitKind::Int(i, suffix), ty) is Some <==> in_range(
            i as int,
            model_width(ty),
            ty is Int,
        ),
        replace_suffix_s(LitKind::Int(i, suffix), ty) matches Some(nl) ==> eval_s(
            Expr { ty, kind: ExprKind::Lit(nl) },
        ) == eval_s(cast_expr(int_lit_expr(i, suffix, lit_ty), ty)),
        replace_suffix_s(LitKind::Int(i, suffix), ty) matches Some(nl) ==> eval_s(
            Expr { ty, kind: ExprKind::Lit(nl) },
        ) is Some,
{
    lemma2_to64();
    lemma2_to64_rest();
    lemma_pow2_adds(64, 63);
    lemma_pow2_adds(64, 64);
    assert(pow2(127) == 0x80000000000000000000000000000000) by (nonlinear_arith)
        requires pow2(127) == pow2(64) * pow2(63), pow2(64) == 0x10000000000000000, pow2(63) == 0x8000000000000000;
    assert(pow2(128) == 0x100000000000000000000000000000000) by (nonlinear_arith)
        requires pow2(128) == pow2(64) * pow2(64), pow2(64) == 0x10000000000000000;
    let lit = LitKind::Int(i, suffix);
    if replace_suffix_s(lit, ty) is Some {
        let nl = replace_suffix_s(lit, ty)->Some_0;
        let w = model_width(ty);
        let signed = ty is Int;
        assert(in_range(i as int, w, signed));
        // the re-suffixed literal evaluates to the digits themselves
        lemma_trunc_identity(i as int, w, signed);
        // so does the original literal, under its own suffix
        match suffix {
            LitIntType::Unsuffixed => {},
            LitIntType::Signed(it) => {
                lemma_trunc_identity(i as int, int_ty_bits(it) as nat, true);
            },
            LitIntType::Unsigned(ut) => {
                lemma_trunc_identity(i as int, uint_ty_bits(ut) as nat, false);
            },
        }
        // and the cast then maps the digits to the digits
        assert(lit_value_s(i, suffix).val() == i as int);
        assert(eval_s(int_lit_expr(i, suffix, lit_ty)) == Some(lit_value_s(i, suffix)));
    }
}

} // verus!
