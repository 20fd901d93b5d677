//! Fuzzy equality for truth values.
//!
//! A `bool` wrapped through the `ish` marker (`true - ish`, or `true.ish()`)
//! becomes a [`BoolIsh`], which compares equal to a whole vocabulary of
//! "morally equivalent" values: recognised words in either case and with
//! surrounding whitespace, the integer `1` (true) or any other integer
//! (false), present or absent optional values, and successful or failed
//! results.  Comparison works in both operand orders and never fails: an
//! unrecognised word is equal to neither the true-ish nor the false-ish
//! wrapper.

use vstd::prelude::*;

pub mod boolish;
pub mod vocab;

pub use boolish::i64_fuzzy_eq;
pub use boolish::string_fuzzy_eq;
pub use boolish::BoolIsh;

verus! {

/// A type whose values can be made fuzzy: `x.ish()` returns the fuzzy
/// wrapper for `x`.  The library provides the implementation on `bool`.
pub trait Ishable {
    type Output;

    fn ish(&self) -> Self::Output;
}

/// The marker token that makes a value fuzzy when subtracted from it:
/// `true - ish` and `false - ish` build the corresponding [`BoolIsh`].
#[derive(Debug)]
pub struct Ish;

/// The marker value itself; `true - ish` is the intended way to use it.
#[allow(non_upper_case_globals)]
pub const ish: Ish = Ish;

} // verus!
