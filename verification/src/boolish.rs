//! The fuzzy boolean wrapper and its comparison rules.

use crate::vocab::false_vocab;
use crate::vocab::lemma_vocabularies_disjoint;
use crate::vocab::normalize;
use crate::vocab::true_vocab;
use crate::vocab::trimmed_window;
use crate::vocab::window_in_false_vocab;
use crate::vocab::window_in_true_vocab;
use crate::Ish;
use crate::Ishable;
use vstd::prelude::*;

verus! {

/// A fuzzy version of a boolean value, obtained from `true - ish`,
/// `false - ish`, or the `ish()` method on `bool`.
///
/// The wrapper holds one immutable intent and compares equal to every
/// value that is "morally" the same truth value: recognised words in any
/// letter case and with surrounding whitespace, the integer `1` for the
/// true intent and every other integer for the false intent, present
/// optional values and successful results for the true intent, absent
/// optional values and failed results for the false intent.
#[derive(Debug, Clone)]
pub struct BoolIsh {
    /// The wrapped intent: `true` for `true - ish`, `false` for `false - ish`.
    pub value: bool,
}

/// What fuzzy equality of an intent against an integer means: the true
/// intent matches exactly the integer one; the false intent matches every
/// other integer.
pub open spec fn int_fuzzy_matches(intent: bool, n: int) -> bool {
    if intent {
        n == 1
    } else {
        n != 1
    }
}

/// What fuzzy equality of an intent against a string means: the string,
/// normalized, is a word of the vocabulary that belongs to the intent.
/// A string in neither vocabulary matches neither intent.
pub open spec fn str_fuzzy_matches(intent: bool, s: Seq<char>) -> bool {
    if intent {
        true_vocab().contains(normalize(s))
    } else {
        false_vocab().contains(normalize(s))
    }
}

/// Decides whether `other` is fuzzily equal to an intent, per the string
/// rule: surrounding whitespace and letter case are ignored, and the
/// result is membership in the intent's vocabulary.
pub fn string_fuzzy_eq(value: bool, other: &str) -> (r: bool)
    ensures
        r == str_fuzzy_matches(value, other@),
{
    let window = trimmed_window(other);
    if value {
        window_in_true_vocab(other, window.0, window.1)
    } else {
        window_in_false_vocab(other, window.0, window.1)
    }
}

/// Decides whether `other` is fuzzily equal to an intent, per the integer
/// rule: `1` is true-ish, and every other value is false-ish.
pub fn i64_fuzzy_eq(value: bool, other: i64) -> (r: bool)
    ensures
        r == int_fuzzy_matches(value, other as int),
{
    if value {
        other == 1
    } else {
        other != 1
    }
}

impl Ishable for bool {
    type Output = BoolIsh;

    fn ish(&self) -> (r: BoolIsh)
        ensures
            r.value == *self,
    {
        BoolIsh { value: *self }
    }
}

impl core::ops::Sub<Ish> for bool {
    type Output = BoolIsh;

    fn sub(self, _rhs: Ish) -> (r: BoolIsh)
        ensures
            r.value == self,
    {
        BoolIsh { value: self }
    }
}

impl vstd::std_specs::ops::SubSpecImpl<Ish> for bool {
    open spec fn obeys_sub_spec() -> bool {
        true
    }

    open spec fn sub_req(self, rhs: Ish) -> bool {
        true
    }

    open spec fn sub_spec(self, rhs: Ish) -> BoolIsh {
        BoolIsh { value: self }
    }
}

impl<T, E> core::cmp::PartialEq<BoolIsh> for Result<T, E> {
    fn eq(&self, other: &BoolIsh) -> (r: bool) {
        if other.value {
            self.is_ok()
        } else {
            self.is_err()
        }
    }
}

impl<T, E> vstd::std_specs::cmp::PartialEqSpecImpl<BoolIsh> for Result<T, E> {
    open spec fn obeys_eq_spec() -> bool {
        true
    }

    open spec fn eq_spec(&self, other: &BoolIsh) -> bool {
        other.value == (*self is Ok)
    }
}

impl<T> core::cmp::PartialEq<BoolIsh> for Option<T> {
    fn eq(&self, other: &BoolIsh) -> (r: bool) {
        if other.value {
            self.is_some()
        } else {
            self.is_none()
        }
    }
}

impl<T> vstd::std_specs::cmp::PartialEqSpecImpl<BoolIsh> for Option<T> {
    open spec fn obeys_eq_spec() -> bool {
        true
    }

    open spec fn eq_spec(&self, other: &BoolIsh) -> bool {
        other.value == (*self is Some)
    }
}

impl core::cmp::PartialEq<BoolIsh> for String {
    fn eq(&self, other: &BoolIsh) -> (r: bool) {
        string_fuzzy_eq(other.value, self.as_str())
    }
}

impl vstd::std_specs::cmp::PartialEqSpecImpl<BoolIsh> for String {
    open spec fn obeys_eq_spec() -> bool {
        true
    }

    open spec fn eq_spec(&self, other: &BoolIsh) -> bool {
        str_fuzzy_matches(other.value, self@)
    }
}

impl<'a> core::cmp::PartialEq<BoolIsh> for &'a str {
    fn eq(&self, other: &BoolIsh) -> (r: bool) {
        string_fuzzy_eq(other.value, self)
    }
}

impl<'a> vstd::std_specs::cmp::PartialEqSpecImpl<BoolIsh> for &'a str {
    open spec fn obeys_eq_spec() -> bool {
        true
    }

    open spec fn eq_spec(&self, other: &BoolIsh) -> bool {
        str_fuzzy_matches(other.value, self@)
    }
}

impl core::cmp::PartialEq<BoolIsh> for i8 {
    fn eq(&self, other: &BoolIsh) -> (r: bool) {
        i64_fuzzy_eq(other.value, *self as i64)
    }
}

impl vstd::std_specs::cmp::PartialEqSpecImpl<BoolIsh> for i8 {
    open spec fn obeys_eq_spec() -> bool {
        true
    }

    open spec fn eq_spec(&self, other: &BoolIsh) -> bool {
        int_fuzzy_matches(other.value, *self as int)
    }
}

impl core::cmp::PartialEq<BoolIsh> for i16 {
    fn eq(&self, other: &BoolIsh) -> (r: bool) {
        i64_fuzzy_eq(other.value, *self as i64)
    }
}

impl vstd::std_specs::cmp::PartialEqSpecImpl<BoolIsh> for i16 {
    open spec fn obeys_eq_spec() -> bool {
        true
    }

    open spec fn eq_spec(&self, other: &BoolIsh) -> bool {
        int_fuzzy_matches(other.value, *self as int)
    }
}

impl core::cmp::PartialEq<BoolIsh> for i32 {
    fn eq(&self, other: &BoolIsh) -> (r: bool) {
        i64_fuzzy_eq(other.value, *self as i64)
    }
}

impl vstd::std_specs::cmp::PartialEqSpecImpl<BoolIsh> for i32 {
    open spec fn obeys_eq_spec() -> bool {
        true
    }

    open spec fn eq_spec(&self, other: &BoolIsh) -> bool {
        int_fuzzy_matches(other.value, *self as int)
    }
}

impl core::cmp::PartialEq<BoolIsh> for i64 {
    fn eq(&self, other: &BoolIsh) -> (r: bool) {
        i64_fuzzy_eq(other.value, *self)
    }
}

impl vstd::std_specs::cmp::PartialEqSpecImpl<BoolIsh> for i64 {
    open spec fn obeys_eq_spec() -> bool {
        true
    }

    open spec fn eq_spec(&self, other: &BoolIsh) -> bool {
        int_fuzzy_matches(other.value, *self as int)
    }
}

impl core::cmp::PartialEq<BoolIsh> for isize {
    fn eq(&self, other: &BoolIsh) -> (r: bool) {
        i64_fuzzy_eq(other.value, *self as i64)
    }
}

impl vstd::std_specs::cmp::PartialEqSpecImpl<BoolIsh> for isize {
    open spec fn obeys_eq_spec() -> bool {
        true
    }

    open spec fn eq_spec(&self, other: &BoolIsh) -> bool {
        int_fuzzy_matches(other.value, *self as int)
    }
}

impl core::cmp::PartialEq<BoolIsh> for u8 {
    fn eq(&self, other: &BoolIsh) -> (r: bool) {
        i64_fuzzy_eq(other.value, *self as i64)
    }
}

impl vstd::std_specs::cmp::PartialEqSpecImpl<BoolIsh> for u8 {
    open spec fn obeys_eq_spec() -> bool {
        true
    }

    open spec fn eq_spec(&self, other: &BoolIsh) -> bool {
        int_fuzzy_matches(other.value, *self as int)
    }
}

impl core::cmp::PartialEq<BoolIsh> for u16 {
    fn eq(&self, other: &BoolIsh) -> (r: bool) {
        i64_fuzzy_eq(other.value, *self as i64)
    }
}

impl vstd::std_specs::cmp::PartialEqSpecImpl<BoolIsh> for u16 {
    open spec fn obeys_eq_spec() -> bool {
        true
    }

    open spec fn eq_spec(&self, other: &BoolIsh) -> bool {
        int_fuzzy_matches(other.value, *self as int)
    }
}

impl core::cmp::PartialEq<BoolIsh> for u32 {
    fn eq(&self, other: &BoolIsh) -> (r: bool) {
        i64_fuzzy_eq(other.value, *self as i64)
    }
}

impl vstd::std_specs::cmp::PartialEqSpecImpl<BoolIsh> for u32 {
    open spec fn obeys_eq_spec() -> bool {
        true
    }

    open spec fn eq_spec(&self, other: &BoolIsh) -> bool {
        int_fuzzy_matches(other.value, *self as int)
    }
}

impl core::cmp::PartialEq<BoolIsh> for u64 {
    fn eq(&self, other: &BoolIsh) -> (r: bool) {
        if other.value {
            *self == 1
        } else {
            *self != 1
        }
    }
}

impl vstd::std_specs::cmp::PartialEqSpecImpl<BoolIsh> for u64 {
    open spec fn obeys_eq_spec() -> bool {
        true
    }

    open spec fn eq_spec(&self, other: &BoolIsh) -> bool {
        int_fuzzy_matches(other.value, *self as int)
    }
}

impl core::cmp::PartialEq<BoolIsh> for usize {
    fn eq(&self, other: &BoolIsh) -> (r: bool) {
        if other.value {
            *self == 1
        } else {
            *self != 1
        }
    }
}

impl vstd::std_specs::cmp::PartialEqSpecImpl<BoolIsh> for usize {
    open spec fn obeys_eq_spec() -> bool {
        true
    }

    open spec fn eq_spec(&self, other: &BoolIsh) -> bool {
        int_fuzzy_matches(other.value, *self as int)
    }
}

impl<T: core::cmp::PartialEq<BoolIsh>> core::cmp::PartialEq<T> for BoolIsh {
    fn eq(&self, other: &T) -> (r: bool) {
        other.eq(self)
    }
}

impl<T: core::cmp::PartialEq<BoolIsh>> vstd::std_specs::cmp::PartialEqSpecImpl<T> for BoolIsh {
    open spec fn obeys_eq_spec() -> bool {
        <T as vstd::std_specs::cmp::PartialEqSpec<BoolIsh>>::obeys_eq_spec()
    }

    open spec fn eq_spec(&self, other: &T) -> bool {
        <T as vstd::std_specs::cmp::PartialEqSpec<BoolIsh>>::eq_spec(other, self)
    }
}

/// A string that normalizes into the true-ish vocabulary — a recognised
/// word in any letter case and with any surrounding whitespace — is equal
/// to the true-ish wrapper and unequal to the false-ish one.
pub proof fn lemma_true_vocabulary_matches(s: Seq<char>)
    requires
        true_vocab().contains(normalize(s)),
    ensures
        str_fuzzy_matches(true, s),
        !str_fuzzy_matches(false, s),
{
    lemma_vocabularies_disjoint(normalize(s));
}

/// A string that normalizes into the false-ish vocabulary is equal to the
/// false-ish wrapper and unequal to the true-ish one.
pub proof fn lemma_false_vocabulary_matches(s: Seq<char>)
    requires
        false_vocab().contains(normalize(s)),
    ensures
        str_fuzzy_matches(false, s),
        !str_fuzzy_matches(true, s),
{
    lemma_vocabularies_disjoint(normalize(s));
}

/// Matching is conservative: a string that normalizes into neither
/// vocabulary is equal to neither wrapper.
pub proof fn lemma_unrecognized_matches_neither(s: Seq<char>)
    requires
        !true_vocab().contains(normalize(s)),
        !false_vocab().contains(normalize(s)),
    ensures
        !str_fuzzy_matches(true, s),
        !str_fuzzy_matches(false, s),
{
}

/// The integer rule: one is the only true-ish integer, and every integer
/// but one is false-ish.
pub proof fn lemma_integer_rule(n: int)
    ensures
        int_fuzzy_matches(true, n) == (n == 1),
        int_fuzzy_matches(false, n) == (n != 1),
{
}

/// Comparison is symmetric: for every supported candidate type, the
/// wrapper on the left means exactly what the wrapper on the right means.
pub proof fn lemma_symmetry<T: core::cmp::PartialEq<BoolIsh>>(a: &BoolIsh, b: &T)
    ensures
        <BoolIsh as vstd::std_specs::cmp::PartialEqSpec<T>>::eq_spec(a, b)
            == <T as vstd::std_specs::cmp::PartialEqSpec<BoolIsh>>::eq_spec(b, a),
{
}

/// The optional rule: a present value, whatever it holds, is equal to the
/// true-ish wrapper, and an absent one to the false-ish wrapper.
pub proof fn lemma_optional_rule<T>(o: &Option<T>, b: &BoolIsh)
    ensures
        <Option<T> as vstd::std_specs::cmp::PartialEqSpec<BoolIsh>>::eq_spec(o, b) == (b.value == (
        *o is Some)),
{
}

/// The result rule: a success, whatever it holds, is equal to the true-ish
/// wrapper, and a failure to the false-ish wrapper.
pub proof fn lemma_result_rule<T, E>(x: &Result<T, E>, b: &BoolIsh)
    ensures
        <Result<T, E> as vstd::std_specs::cmp::PartialEqSpec<BoolIsh>>::eq_spec(x, b) == (b.value
            == (*x is Ok)),
{
}

} // verus!
