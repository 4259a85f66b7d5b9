//! A cast-normalization engine.
//!
//! Given an expression tree annotated with resolved static types, the engine
//! decides which explicit type casts are redundant or can be fused, and
//! rewrites the tree to remove them without changing the runtime value of the
//! expression.  Every rewrite rule is conservative: where no proof of safety
//! is available, the cast is kept.
//!
//! - [`ast`] holds the expression trees and resolved types the engine reads;
//! - [`simple`] reduces a resolved type to the small tag set the rules need;
//! - [`kind`] classifies a single cast step between two such tags;
//! - [`resolve`] decides what to do with a nested double cast;
//! - [`numeric`] is the machine-integer value model behind every rule;
//! - [`value`] evaluates literal, negation and cast expressions exactly;
//! - [`suffix`] re-declares integer literals inside a safety envelope;
//! - [`rewrite`] walks the tree and applies the rules to a normal form;
//! - [`soundness`] states and proves the engine's safety laws.

pub mod ast;
pub mod simple;
pub mod kind;
pub mod resolve;
pub mod numeric;
pub mod value;
pub mod suffix;
pub mod rewrite;
pub mod soundness;
