//! The constant evaluator: literal, negation and cast sub-expressions are
//! evaluated to a tagged 128-bit value, with overflow detection, so that a
//! candidate rewrite can be checked for exact equivalence before it is
//! committed.  Anything the evaluator cannot pin down yields no result, which
//! blocks the rewrite.

use vstd::prelude::*;
use crate::ast::{is_int_ty, Expr, ExprKind, LitIntType, LitKind, StaticTy};
use crate::numeric::{lemma_neg_mod, lemma_trunc_in_range, trunc_val};
use crate::simple::{int_ty_bits, int_ty_width, uint_ty_bits, uint_ty_width};
use vstd::arithmetic::div_mod::{lemma_mod_add_multiples_vanish, lemma_mod_bound, lemma_small_mod};
use vstd::arithmetic::power2::{lemma2_to64, lemma_pow2_adds, pow2};

verus! {

/// A tagged numeric constant.  Signed values are sign-extended to 128 bits,
/// unsigned ones zero-extended; two constants are compared for exact
/// equality, tag included.
#[derive(Copy, Clone, Debug, PartialEq, Eq, Structural)]
pub enum ConstantValue {
    Int(i128),
    Uint(u128),
}

impl ConstantValue {
    /// The mathematical value of the constant.
    pub open spec fn val(self) -> int {
        match self {
            ConstantValue::Int(v) => v as int,
            ConstantValue::Uint(v) => v as int,
        }
    }

    /// What casting the constant to a `w`-bit integer type of the given
    /// signedness yields.
    pub open spec fn convert_s(self, w: nat, signed: bool) -> ConstantValue {
        if signed {
            ConstantValue::Int(trunc_val(self.val(), w, true) as i128)
        } else {
            ConstantValue::Uint(trunc_val(self.val(), w, false) as u128)
        }
    }
}

/// Casts a constant to a `w`-bit integer type: the value modulo 2^w,
/// reinterpreted under the target's signedness.
pub fn convert(cv: ConstantValue, w: usize, signed: bool) -> (r: ConstantValue)
    requires
        w == 8 || w == 16 || w == 32 || w == 64 || w == 128,
    ensures
        r == cv.convert_s(w as nat, signed),
{
    proof {
        lemma2_to64();
        lemma_pow2_adds(64, 64);
        lemma_pow2_adds((w - 1) as nat, 1);
        lemma_trunc_in_range(cv.val(), w as nat, signed);
    }
    if w == 128 {
        let bits: u128;
        match cv {
            ConstantValue::Uint(u) => {
                bits = u;
                proof {
                    lemma_small_mod(u as nat, pow2(128));
                }
            },
            ConstantValue::Int(i) => {
                if i >= 0 {
                    bits = i as u128;
                    proof {
                        lemma_small_mod(i as nat, pow2(128));
                    }
                } else {
                    let k: i128 = -(i + 1);
                    bits = u128::MAX - (k as u128);
                    proof {
                        let p = pow2(128) as int;
                        lemma_mod_add_multiples_vanish(i as int, p);
                        lemma_small_mod((i + p) as nat, p as nat);
                    }
                }
            },
        }
        if signed {
            if bits >= 0x80000000000000000000000000000000u128 {
                let d: u128 = u128::MAX - bits;
                ConstantValue::Int(-1 - (d as i128))
            } else {
                ConstantValue::Int(bits as i128)
            }
        } else {
            ConstantValue::Uint(bits)
        }
    } else {
        let p: u128 = if w == 8 {
            0x100
        } else if w == 16 {
            0x10000
        } else if w == 32 {
            0x100000000
        } else {
            0x10000000000000000
        };
        assert(p as nat == pow2(w as nat));
        let bits: u128;
        match cv {
            ConstantValue::Uint(u) => {
                bits = u % p;
            },
            ConstantValue::Int(i) => {
                if i >= 0 {
                    bits = (i as u128) % p;
                } else {
                    let k: i128 = -(i + 1);
                    let km: u128 = (k as u128) % p;
                    proof {
                        lemma_neg_mod(k as int, p as int);
                        lemma_mod_bound(k as int, p as int);
                    }
                    bits = p - 1 - km;
                }
            },
        }
        assert(bits as int == cv.val() % (p as int));
        if signed {
            let h: u128 = p / 2;
            assert(h as nat == pow2((w - 1) as nat));
            if bits >= h {
                ConstantValue::Int((bits as i128) - (p as i128))
            } else {
                ConstantValue::Int(bits as i128)
            }
        } else {
            ConstantValue::Uint(bits)
        }
    }
}

/// The width, in the engine's value model, of an integer static type.
pub open spec fn model_width(ty: StaticTy) -> nat {
    match ty {
        StaticTy::Int(it) => int_ty_bits(it) as nat,
        StaticTy::Uint(ut) => uint_ty_bits(ut) as nat,
        _ => 0,
    }
}

impl ConstantValue {
    /// The constant seen at an integer static type.
    pub open spec fn as_ty_s(self, ty: StaticTy) -> ConstantValue
        recommends
            is_int_ty(ty),
    {
        self.convert_s(model_width(ty), ty is Int)
    }

    /// Casts the constant to the given integer type.  Non-numeric target
    /// types never reach the evaluator; float targets stay outside the
    /// engine's value model altogether, and a cast to one is never rewritten.
    pub fn as_ty(self, ty: &StaticTy) -> (r: ConstantValue)
        requires
            is_int_ty(*ty),
        ensures
            r == self.as_ty_s(*ty),
    {
        match ty {
            StaticTy::Int(it) => convert(self, int_ty_width(*it), true),
            StaticTy::Uint(ut) => convert(self, uint_ty_width(*ut), false),
            _ => self,
        }
    }
}

/// The constant an integer literal denotes: its digits, extended to 128 bits
/// per the declared suffix, or kept unsigned where there is none.
pub open spec fn lit_value_s(i: u128, suffix: LitIntType) -> ConstantValue {
    match suffix {
        LitIntType::Unsuffixed => ConstantValue::Uint(i),
        LitIntType::Signed(it) => ConstantValue::Uint(i).convert_s(int_ty_bits(it) as nat, true),
        LitIntType::Unsigned(ut) => ConstantValue::Uint(i).convert_s(uint_ty_bits(ut) as nat, false),
    }
}

/// Executable form of `lit_value_s`.
pub fn lit_value(i: u128, suffix: LitIntType) -> (r: ConstantValue)
    ensures
        r == lit_value_s(i, suffix),
{
    match suffix {
        LitIntType::Unsuffixed => ConstantValue::Uint(i),
        LitIntType::Signed(it) => convert(ConstantValue::Uint(i), int_ty_width(it), true),
        LitIntType::Unsigned(ut) => convert(ConstantValue::Uint(i), uint_ty_width(ut), false),
    }
}

/// Negation with overflow detection: negating an unsigned value beyond the
/// signed 128-bit range, or the one signed value without a negation, yields
/// no result rather than wrapping around.
pub open spec fn neg_value_s(cv: ConstantValue) -> Option<ConstantValue> {
    match cv {
        ConstantValue::Uint(u) => if u > (i128::MAX as u128) {
            None
        } else {
            Some(ConstantValue::Int((-(u as int)) as i128))
        },
        ConstantValue::Int(i) => if i == i128::MIN {
            None
        } else {
            Some(ConstantValue::Int((-(i as int)) as i128))
        },
    }
}

/// Executable form of `neg_value_s`.
pub fn neg_value(cv: ConstantValue) -> (r: Option<ConstantValue>)
    ensures
        r == neg_value_s(cv),
{
    match cv {
        ConstantValue::Uint(u) => if u > (i128::MAX as u128) {
            None
        } else {
            Some(ConstantValue::Int(-(u as i128)))
        },
        ConstantValue::Int(i) => if i == i128::MIN {
            None
        } else {
            Some(ConstantValue::Int(-i))
        },
    }
}

/// The shapes the evaluator is defined over: literals, negations and casts
/// whose target is an integer type.  Calling it on anything else would be an
/// internal-invariant violation at its intended call sites.
pub open spec fn evaluable(e: Expr) -> bool
    decreases e,
{
    match e.kind {
        ExprKind::Lit(_) => true,
        ExprKind::Neg(inner) => evaluable(*inner),
        ExprKind::Cast(inner) => is_int_ty(e.ty) && evaluable(*inner),
        _ => false,
    }
}

/// What the evaluator returns: `None` stands for any literal it cannot read
/// or an overflow on the way, and blocks the rewrite being checked.
pub open spec fn eval_s(e: Expr) -> Option<ConstantValue>
    decreases e,
{
    match e.kind {
        ExprKind::Lit(LitKind::Int(i, suffix)) => Some(lit_value_s(i, suffix)),
        ExprKind::Lit(LitKind::Other(_)) => None,
        ExprKind::Neg(inner) => match eval_s(*inner) {
            Some(cv) => neg_value_s(cv),
            None => None,
        },
        ExprKind::Cast(inner) => match eval_s(*inner) {
            Some(cv) => Some(cv.as_ty_s(e.ty)),
            None => None,
        },
        _ => None,
    }
}

/// Evaluates a literal / negation / cast expression to a constant, or to
/// `None` where no exact value can be established.
pub fn eval_const(e: &Expr) -> (r: Option<ConstantValue>)
    requires
        evaluable(*e),
    ensures
        r == eval_s(*e),
    decreases *e,
{
    match &e.kind {
        ExprKind::Lit(LitKind::Int(i, suffix)) => Some(lit_value(*i, *suffix)),
        ExprKind::Lit(LitKind::Other(_)) => None,
        ExprKind::Neg(inner) => match eval_const(inner) {
            Some(cv) => neg_value(cv),
            None => None,
        },
        ExprKind::Cast(inner) => match eval_const(inner) {
            Some(cv) => Some(cv.as_ty(&e.ty)),
            None => None,
        },
        _ => None,
    }
}

} // verus!
