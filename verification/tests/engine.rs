//! End-to-end scenarios for the two tree transforms.

use castnorm::ast::{Expr, ExprKind, FloatTy, IntTy, LitIntType, LitKind, StaticTy, UintTy};
use castnorm::rewrite::{ConvertCastAsPtr, RemoveRedundantCasts};

fn opaque(tag: u64, ty: StaticTy) -> Expr {
    Expr { ty, kind: ExprKind::Other(tag) }
}

fn cast(inner: Expr, ty: StaticTy) -> Expr {
    Expr { ty, kind: ExprKind::Cast(Box::new(inner)) }
}

fn neg(inner: Expr, ty: StaticTy) -> Expr {
    Expr { ty, kind: ExprKind::Neg(Box::new(inner)) }
}

fn lit(i: u128, suffix: LitIntType, ty: StaticTy) -> Expr {
    Expr { ty, kind: ExprKind::Lit(LitKind::Int(i, suffix)) }
}

fn i32_ty() -> StaticTy {
    StaticTy::Int(IntTy::I32)
}

#[test]
fn extend_truncate_back_to_source_removes_both() {
    // x as i64 as i32, with x: i32, rewrites to x
    let x = opaque(1, i32_ty());
    let tree = cast(cast(x.clone(), StaticTy::Int(IntTy::I64)), i32_ty());
    let out = RemoveRedundantCasts.transform(&tree);
    assert_eq!(out, x);
}

#[test]
fn matching_sign_extends_remove_inner() {
    // x as u16 as u32, with x: u8, rewrites to x as u32
    let x = opaque(2, StaticTy::Uint(UintTy::U8));
    let tree = cast(
        cast(x.clone(), StaticTy::Uint(UintTy::U16)),
        StaticTy::Uint(UintTy::U32),
    );
    let out = RemoveRedundantCasts.transform(&tree);
    assert_eq!(out, cast(x, StaticTy::Uint(UintTy::U32)));
}

#[test]
fn same_width_outer_subsumes_inner_truncate() {
    // x as i8 as u8, with x: i32, rewrites to x as u8
    let x = opaque(3, i32_ty());
    let tree = cast(
        cast(x.clone(), StaticTy::Int(IntTy::I8)),
        StaticTy::Uint(UintTy::U8),
    );
    let out = RemoveRedundantCasts.transform(&tree);
    assert_eq!(out, cast(x, StaticTy::Uint(UintTy::U8)));
}

#[test]
fn literal_beyond_signed_range_is_kept() {
    // 200 as i8 stays as it is: 200 does not fit i8
    let tree = cast(lit(200, LitIntType::Unsuffixed, i32_ty()), StaticTy::Int(IntTy::I8));
    let out = RemoveRedundantCasts.transform(&tree);
    assert_eq!(out, tree);
}

#[test]
fn unknown_kinds_keep_both() {
    // x as f32 as i32, with x: i64, stays as it is
    let x = opaque(4, StaticTy::Int(IntTy::I64));
    let tree = cast(cast(x, StaticTy::Float(FloatTy::F32)), i32_ty());
    let out = RemoveRedundantCasts.transform(&tree);
    assert_eq!(out, tree);
}

#[test]
fn redundant_single_cast_is_removed() {
    let x = opaque(5, i32_ty());
    let tree = cast(x.clone(), i32_ty());
    let out = RemoveRedundantCasts.transform(&tree);
    assert_eq!(out, x);
}

#[test]
fn literal_rewrite_commits_when_values_agree() {
    // 200 as u16 becomes 200u16
    let tree = cast(lit(200, LitIntType::Unsuffixed, i32_ty()), StaticTy::Uint(UintTy::U16));
    let out = RemoveRedundantCasts.transform(&tree);
    assert_eq!(
        out,
        lit(200, LitIntType::Unsigned(UintTy::U16), StaticTy::Uint(UintTy::U16))
    );
}

#[test]
fn literal_rewrite_blocked_by_evaluator_disagreement() {
    // (65535 as i16) as u32: the suffix envelope admits 65535 at u32, but
    // 65535i16 denotes -1, whose cast to u32 is 4294967295, not 65535
    let tree = cast(
        lit(65535, LitIntType::Signed(IntTy::I16), StaticTy::Int(IntTy::I16)),
        StaticTy::Uint(UintTy::U32),
    );
    let out = RemoveRedundantCasts.transform(&tree);
    assert_eq!(out, tree);
}

#[test]
fn negated_literal_rewrites_under_the_negation() {
    // -(5) as i64 becomes -(5i64)
    let inner = neg(lit(5, LitIntType::Unsuffixed, i32_ty()), i32_ty());
    let tree = cast(inner, StaticTy::Int(IntTy::I64));
    let out = RemoveRedundantCasts.transform(&tree);
    let expected = neg(
        lit(5, LitIntType::Signed(IntTy::I64), StaticTy::Int(IntTy::I64)),
        StaticTy::Int(IntTy::I64),
    );
    assert_eq!(out, expected);
}

#[test]
fn opaque_literal_is_left_alone() {
    let tree = cast(
        Expr { ty: StaticTy::Float(FloatTy::F64), kind: ExprKind::Lit(LitKind::Other(7)) },
        i32_ty(),
    );
    let out = RemoveRedundantCasts.transform(&tree);
    assert_eq!(out, tree);
}

#[test]
fn nested_rules_cascade_to_a_fixed_point() {
    // ((200 as u16) as u32): the inner literal rewrite gives 200u16, then
    // the outer cast re-suffixes again to 200u32
    let tree = cast(
        cast(lit(200, LitIntType::Unsuffixed, i32_ty()), StaticTy::Uint(UintTy::U16)),
        StaticTy::Uint(UintTy::U32),
    );
    let out = RemoveRedundantCasts.transform(&tree);
    assert_eq!(
        out,
        lit(200, LitIntType::Unsigned(UintTy::U32), StaticTy::Uint(UintTy::U32))
    );
}

#[test]
fn transform_is_idempotent_on_scenarios() {
    let trees = vec![
        cast(cast(opaque(1, i32_ty()), StaticTy::Int(IntTy::I64)), i32_ty()),
        cast(
            cast(opaque(2, StaticTy::Uint(UintTy::U8)), StaticTy::Uint(UintTy::U16)),
            StaticTy::Uint(UintTy::U32),
        ),
        cast(lit(200, LitIntType::Unsuffixed, i32_ty()), StaticTy::Int(IntTy::I8)),
        cast(
            cast(lit(200, LitIntType::Unsuffixed, i32_ty()), StaticTy::Uint(UintTy::U16)),
            StaticTy::Uint(UintTy::U32),
        ),
        cast(cast(opaque(4, StaticTy::Int(IntTy::I64)), StaticTy::Float(FloatTy::F32)), i32_ty()),
    ];
    for tree in trees {
        let once = RemoveRedundantCasts.transform(&tree);
        let twice = RemoveRedundantCasts.transform(&once);
        assert_eq!(twice, once);
    }
}

#[test]
fn slice_ref_cast_to_const_pointer_becomes_as_ptr() {
    let elem = StaticTy::Uint(UintTy::U8);
    let slice_ref = StaticTy::Ref(Box::new(StaticTy::Slice(Box::new(elem.clone()))));
    let ptr = StaticTy::RawPtr(false, Box::new(elem));
    let x = opaque(10, slice_ref);
    let tree = cast(x.clone(), ptr.clone());
    let out = ConvertCastAsPtr.transform(&tree);
    assert_eq!(out, Expr { ty: ptr, kind: ExprKind::AsPtr(Box::new(x)) });
}

#[test]
fn slice_ref_cast_to_mut_pointer_becomes_as_mut_ptr() {
    let elem = StaticTy::Int(IntTy::I16);
    let slice_ref = StaticTy::Ref(Box::new(StaticTy::Slice(Box::new(elem.clone()))));
    let ptr = StaticTy::RawPtr(true, Box::new(elem));
    let x = opaque(11, slice_ref);
    let tree = cast(x.clone(), ptr.clone());
    let out = ConvertCastAsPtr.transform(&tree);
    assert_eq!(out, Expr { ty: ptr, kind: ExprKind::AsMutPtr(Box::new(x)) });
}

#[test]
fn array_ref_cast_to_pointer_becomes_as_ptr() {
    let elem = StaticTy::Uint(UintTy::U32);
    let arr_ref = StaticTy::Ref(Box::new(StaticTy::Array(Box::new(elem.clone()), 16)));
    let ptr = StaticTy::RawPtr(false, Box::new(elem));
    let x = opaque(12, arr_ref);
    let tree = cast(x.clone(), ptr.clone());
    let out = ConvertCastAsPtr.transform(&tree);
    assert_eq!(out, Expr { ty: ptr, kind: ExprKind::AsPtr(Box::new(x)) });
}

#[test]
fn pointer_cast_with_mismatched_element_is_kept() {
    let slice_ref = StaticTy::Ref(Box::new(StaticTy::Slice(Box::new(StaticTy::Uint(UintTy::U8)))));
    let ptr = StaticTy::RawPtr(false, Box::new(StaticTy::Uint(UintTy::U16)));
    let tree = cast(opaque(13, slice_ref), ptr);
    let out = ConvertCastAsPtr.transform(&tree);
    assert_eq!(out, tree);
}

#[test]
fn pointer_cast_of_non_slice_operand_is_kept() {
    let ptr = StaticTy::RawPtr(false, Box::new(StaticTy::Uint(UintTy::U8)));
    let tree = cast(opaque(14, StaticTy::Uint(UintTy::U8)), ptr);
    let out = ConvertCastAsPtr.transform(&tree);
    assert_eq!(out, tree);
}

#[test]
fn pointer_round_trip_through_usize_removes_both() {
    // p as usize as *const u8, with p: *const u8
    let ptr = StaticTy::RawPtr(false, Box::new(StaticTy::Uint(UintTy::U8)));
    let p = opaque(15, ptr.clone());
    let tree = cast(cast(p.clone(), StaticTy::Uint(UintTy::Usize)), ptr);
    let out = RemoveRedundantCasts.transform(&tree);
    assert_eq!(out, p);
}

#[test]
fn sign_flip_into_size_type_keeps_both() {
    // x as i32 as usize, with x: u32: the intermediate flips the sign, and
    // on a platform with pointers wider than 32 bits the fused direct cast
    // would disagree, so the expression stays as it is
    let x = opaque(17, StaticTy::Uint(UintTy::U32));
    let tree = cast(cast(x, StaticTy::Int(IntTy::I32)), StaticTy::Uint(UintTy::Usize));
    let out = RemoveRedundantCasts.transform(&tree);
    assert_eq!(out, tree);
}

#[test]
fn mismatched_sign_extension_keeps_both() {
    // x as u32 as u64, with x: i32: zero-extending the intermediate differs
    // from sign-extending the source
    let x = opaque(16, i32_ty());
    let tree = cast(cast(x, StaticTy::Uint(UintTy::U32)), StaticTy::Uint(UintTy::U64));
    let out = RemoveRedundantCasts.transform(&tree);
    assert_eq!(out, tree);
}
