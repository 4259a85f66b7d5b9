//! The value model for machine integers: what a cast between integer types
//! does to the mathematical value a bit pattern stands for.
//!
//! A `w`-bit integer stores the remainder of a value modulo 2^w; a signed
//! type reads bit patterns at or above 2^(w-1) as negative.  A cast keeps
//! exactly the low `w` bits of its operand and reinterprets them in the
//! target type, so its result depends only on the operand's value and the
//! target type.  Every rewrite the engine performs is justified against this
//! model.

use vstd::prelude::*;
use vstd::arithmetic::div_mod::{
    lemma_fundamental_div_mod, lemma_fundamental_div_mod_converse_mod, lemma_mod_add_multiples_vanish,
    lemma_mod_bound, lemma_mod_mod, lemma_mod_sub_multiples_vanish, lemma_small_mod,
};
use vstd::arithmetic::power2::{lemma2_to64, lemma_pow2_adds, lemma_pow2_pos, lemma_pow2_strictly_increases, pow2};

verus! {

/// The value a `w`-bit integer of the given signedness holds after being
/// assigned the mathematical value `v`: Rust's `as` semantics between
/// integer types.
pub open spec fn trunc_val(v: int, w: nat, signed: bool) -> int
    recommends
        w >= 1,
{
    let u = v % (pow2(w) as int);
    if signed && u >= pow2((w - 1) as nat) {
        u - pow2(w)
    } else {
        u
    }
}

/// Whether `v` is representable in a `w`-bit integer of the given
/// signedness.
pub open spec fn in_range(v: int, w: nat, signed: bool) -> bool
    recommends
        w >= 1,
{
    if signed {
        -(pow2((w - 1) as nat) as int) <= v < pow2((w - 1) as nat)
    } else {
        0 <= v < pow2(w)
    }
}

/// A cast never changes the value modulo 2^w.
pub proof fn lemma_trunc_congruent(v: int, w: nat, signed: bool)
    requires
        w >= 1,
    ensures
        trunc_val(v, w, signed) % (pow2(w) as int) == v % (pow2(w) as int),
{
    lemma_pow2_pos(w);
    let p = pow2(w) as int;
    let u = v % p;
    lemma_mod_bound(v, p);
    if signed && u >= pow2((w - 1) as nat) {
        lemma_mod_sub_multiples_vanish(u, p);
        lemma_small_mod(u as nat, p as nat);
    } else {
        lemma_small_mod(u as nat, p as nat);
    }
}

/// A cast's result is representable in its target type.
pub proof fn lemma_trunc_in_range(v: int, w: nat, signed: bool)
    requires
        w >= 1,
    ensures
        in_range(trunc_val(v, w, signed), w, signed),
{
    lemma_pow2_pos(w);
    lemma_pow2_adds((w - 1) as nat, 1);
    lemma2_to64();
    let p = pow2(w) as int;
    lemma_mod_bound(v, p);
}

/// A representable value passes through a cast to its own type unchanged.
pub proof fn lemma_trunc_identity(v: int, w: nat, signed: bool)
    requires
        w >= 1,
        in_range(v, w, signed),
    ensures
        trunc_val(v, w, signed) == v,
{
    lemma_pow2_pos(w);
    lemma_pow2_adds((w - 1) as nat, 1);
    lemma2_to64();
    let p = pow2(w) as int;
    let h = pow2((w - 1) as nat) as int;
    if v >= 0 {
        lemma_small_mod(v as nat, p as nat);
    } else {
        lemma_mod_add_multiples_vanish(v, p);
        lemma_small_mod((v + p) as nat, p as nat);
    }
}

/// Two representable values that agree modulo 2^w are the same value.
pub proof fn lemma_trunc_unique(a: int, b: int, w: nat, signed: bool)
    requires
        w >= 1,
        in_range(a, w, signed),
        in_range(b, w, signed),
        a % (pow2(w) as int) == b % (pow2(w) as int),
    ensures
        a == b,
{
    lemma_trunc_identity(a, w, signed);
    lemma_trunc_identity(b, w, signed);
}

/// Taking a value modulo a wider power of two first does not change the
/// remainder modulo a narrower one.
pub proof fn lemma_mod_shrink(v: int, w1: nat, w2: nat)
    requires
        w1 <= w2,
    ensures
        (v % (pow2(w2) as int)) % (pow2(w1) as int) == v % (pow2(w1) as int),
{
    lemma_pow2_adds(w1, (w2 - w1) as nat);
    lemma_pow2_pos(w1);
    lemma_pow2_pos((w2 - w1) as nat);
    lemma_mod_mod(v, pow2(w1) as int, pow2((w2 - w1) as nat) as int);
}

/// Two values that agree modulo 2^w2 also agree modulo any narrower 2^w1,
/// so they cast to a w1-bit type identically.
pub proof fn lemma_trunc_of_congruent(a: int, b: int, w1: nat, w2: nat, signed: bool)
    requires
        1 <= w1 <= w2,
        a % (pow2(w2) as int) == b % (pow2(w2) as int),
    ensures
        trunc_val(a, w1, signed) == trunc_val(b, w1, signed),
{
    lemma_mod_shrink(a, w1, w2);
    lemma_mod_shrink(b, w1, w2);
}

/// Casting through an intermediate type at least as wide as the final one is
/// the same as casting directly: the final step keeps only low bits that the
/// intermediate step already preserved.
pub proof fn lemma_trunc_compose(v: int, wm: nat, sm: bool, wt: nat, st: bool)
    requires
        1 <= wt <= wm,
    ensures
        trunc_val(trunc_val(v, wm, sm), wt, st) == trunc_val(v, wt, st),
{
    lemma_trunc_congruent(v, wm, sm);
    lemma_trunc_of_congruent(trunc_val(v, wm, sm), v, wt, wm, st);
}

/// A widening (or width-preserving) step of matching signedness passes a
/// representable value through unchanged.
pub proof fn lemma_extend_identity(v: int, ws: nat, ss: bool, wm: nat)
    requires
        1 <= ws <= wm,
        in_range(v, ws, ss),
    ensures
        in_range(v, wm, ss),
        trunc_val(v, wm, ss) == v,
{
    if ws < wm {
        lemma_pow2_strictly_increases(ws, wm);
        lemma_pow2_strictly_increases((ws - 1) as nat, (wm - 1) as nat);
    }
    lemma_trunc_identity(v, wm, ss);
}

/// A round trip through a type at least as wide, back to the value's own
/// type, returns the value itself.
pub proof fn lemma_round_trip(v: int, ws: nat, ss: bool, wm: nat, sm: bool)
    requires
        1 <= ws <= wm,
        in_range(v, ws, ss),
    ensures
        trunc_val(trunc_val(v, wm, sm), ws, ss) == v,
{
    lemma_trunc_compose(v, wm, sm, ws, ss);
    lemma_trunc_identity(v, ws, ss);
}

/// The remainder of `-x - 1`, the form negative two's-complement values take
/// when computed from a non-negative magnitude.
pub proof fn lemma_neg_mod(x: int, p: int)
    requires
        x >= 0,
        p > 0,
    ensures
        (-x - 1) % p == p - 1 - (x % p),
{
    let q = x / p;
    let r = x % p;
    lemma_fundamental_div_mod(x, p);
    lemma_mod_bound(x, p);
    assert((-q - 1) * p == -(q * p) - p) by (nonlinear_arith);
    assert(q * p == p * q) by (nonlinear_arith);
    assert(-x - 1 == (-q - 1) * p + (p - 1 - r));
    lemma_fundamental_div_mod_converse_mod(-x - 1, p, -q - 1, p - 1 - r);
}

} // verus!
