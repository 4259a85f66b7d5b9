//! The cast-kind analyzer: what a single cast step between two classified
//! types does to the bits of a value.

use vstd::prelude::*;
use crate::simple::SimpleTy;

verus! {

/// The effect of one cast step.  `Extend`, `FromPointer` and `ToPointer`
/// record the signedness of the step's source type.  `Unknown` is the
/// conservative answer for every pairing not explicitly enumerated.
#[derive(Copy, Clone, Debug, PartialEq, Eq, Structural)]
pub enum CastKind {
    Extend(bool),
    Truncate,
    SameWidth,
    FromPointer(bool),
    ToPointer(bool),
    Unknown,
}

/// The kind of the cast from `from_ty` to `to_ty`.  A pure, total map: every
/// ordered pair has exactly one kind.
///
/// A platform-width integer or pointer is assumed at least 32 bits wide, so a
/// fixed-width integer of at most 16 bits always extends into it and one of
/// at least 64 bits always truncates; the ambiguous widths in between are
/// tracked as `ToPointer` / `FromPointer`.
pub open spec fn cast_kind_s(from_ty: SimpleTy, to_ty: SimpleTy) -> CastKind {
    match (from_ty, to_ty) {
        (SimpleTy::Int(fw, fs), SimpleTy::Int(tw, _)) => if fw < tw {
            CastKind::Extend(fs)
        } else if fw > tw {
            CastKind::Truncate
        } else {
            CastKind::SameWidth
        },
        (SimpleTy::Int(fw, fs), SimpleTy::Size(_)) => if fw <= 16 {
            CastKind::Extend(fs)
        } else if fw >= 64 {
            CastKind::Truncate
        } else {
            CastKind::ToPointer(fs)
        },
        (SimpleTy::Int(fw, fs), SimpleTy::Pointer) => if fw <= 16 {
            CastKind::Extend(fs)
        } else if fw >= 64 {
            CastKind::Truncate
        } else {
            CastKind::ToPointer(fs)
        },
        (SimpleTy::Size(fs), SimpleTy::Int(tw, _)) => if tw >= 64 {
            CastKind::Extend(fs)
        } else if tw <= 16 {
            CastKind::Truncate
        } else {
            CastKind::FromPointer(fs)
        },
        (SimpleTy::Pointer, SimpleTy::Int(tw, _)) => if tw >= 64 {
            CastKind::Extend(false)
        } else if tw <= 16 {
            CastKind::Truncate
        } else {
            CastKind::FromPointer(false)
        },
        (SimpleTy::Pointer, SimpleTy::Pointer) => CastKind::SameWidth,
        (SimpleTy::Pointer, SimpleTy::Size(_)) => CastKind::SameWidth,
        (SimpleTy::Size(_), SimpleTy::Pointer) => CastKind::SameWidth,
        (SimpleTy::Size(_), SimpleTy::Size(_)) => CastKind::SameWidth,
        (SimpleTy::Float32, SimpleTy::Float32) => CastKind::SameWidth,
        (SimpleTy::Float32, SimpleTy::Float64) => CastKind::Extend(true),
        (SimpleTy::Float64, SimpleTy::Float32) => CastKind::Truncate,
        (SimpleTy::Float64, SimpleTy::Float64) => CastKind::SameWidth,
        _ => CastKind::Unknown,
    }
}

/// Executable form of `cast_kind_s`.
pub fn cast_kind(from_ty: SimpleTy, to_ty: SimpleTy) -> (r: CastKind)
    ensures
        r == cast_kind_s(from_ty, to_ty),
{
    match (from_ty, to_ty) {
        (SimpleTy::Int(fw, fs), SimpleTy::Int(tw, _)) => if fw < tw {
            CastKind::Extend(fs)
        } else if fw > tw {
            CastKind::Truncate
        } else {
            CastKind::SameWidth
        },
        (SimpleTy::Int(fw, fs), SimpleTy::Size(_)) => if fw <= 16 {
            CastKind::Extend(fs)
        } else if fw >= 64 {
            CastKind::Truncate
        } else {
            CastKind::ToPointer(fs)
        },
        (SimpleTy::Int(fw, fs), SimpleTy::Pointer) => if fw <= 16 {
            CastKind::Extend(fs)
        } else if fw >= 64 {
            CastKind::Truncate
        } else {
            CastKind::ToPointer(fs)
        },
        (SimpleTy::Size(fs), SimpleTy::Int(tw, _)) => if tw >= 64 {
            CastKind::Extend(fs)
        } else if tw <= 16 {
            CastKind::Truncate
        } else {
            CastKind::FromPointer(fs)
        },
        (SimpleTy::Pointer, SimpleTy::Int(tw, _)) => if tw >= 64 {
            CastKind::Extend(false)
        } else if tw <= 16 {
            CastKind::Truncate
        } else {
            CastKind::FromPointer(false)
        },
        (SimpleTy::Pointer, SimpleTy::Pointer) => CastKind::SameWidth,
        (SimpleTy::Pointer, SimpleTy::Size(_)) => CastKind::SameWidth,
        (SimpleTy::Size(_), SimpleTy::Pointer) => CastKind::SameWidth,
        (SimpleTy::Size(_), SimpleTy::Size(_)) => CastKind::SameWidth,
        (SimpleTy::Float32, SimpleTy::Float32) => CastKind::SameWidth,
        (SimpleTy::Float32, SimpleTy::Float64) => CastKind::Extend(true),
        (SimpleTy::Float64, SimpleTy::Float32) => CastKind::Truncate,
        (SimpleTy::Float64, SimpleTy::Float64) => CastKind::SameWidth,
        _ => CastKind::Unknown,
    }
}

} // verus!
