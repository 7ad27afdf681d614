//! The data model of a guarded newtype: inner-type families, sanitizer and
//! validator rules, runtime error variants, default values, and the guard
//! (the ordered sanitize-then-validate pipeline).

use vstd::prelude::*;

verus! {

/// The twelve numeric kinds a wrapper can be backed by.
#[derive(Clone, Copy, PartialEq, Eq, Structural, Debug)]
pub enum NumKind {
    U8,
    U16,
    U32,
    U64,
    U128,
    Usize,
    I8,
    I16,
    I32,
    I64,
    I128,
    Isize,
}

/// The family of the inner value: one string kind, or a numeric kind.
#[derive(Clone, Copy, PartialEq, Eq, Structural, Debug)]
pub enum Family {
    Text,
    Numeric(NumKind),
}

/// A user-supplied transformation or predicate: an opaque name that the
/// emission layer (or a runtime interpreter) resolves, together with the
/// inner-type family its argument was declared with, if any was declared.
#[derive(Clone, Debug)]
pub struct CustomRule {
    pub name: String,
    pub declared: Option<Family>,
}

/// One ordered sanitization step.  A sanitizer transforms the inner value
/// into a value of the same family and never fails.
#[derive(Clone, Debug)]
pub enum Sanitizer {
    /// Remove the white-space prefix and suffix (string family).
    Trim,
    /// Lower-case the value (string family).
    Lowercase,
    /// Upper-case the value (string family).
    Uppercase,
    /// A user-supplied transformation of the inner value.
    Transform(CustomRule),
}

/// One ordered validation step.  A validator either accepts the sanitized
/// value or reports exactly one failure reason.
#[derive(Clone, Debug)]
pub enum Validator {
    /// The value must have at least this many characters (string family).
    MinLen(usize),
    /// The value must have at most this many characters (string family).
    MaxLen(usize),
    /// The value must not be empty (string family).
    Present,
    /// The value must be at least this large (numeric family).
    RangeMin(i128),
    /// The value must be at most this large (numeric family).
    RangeMax(i128),
    /// A user-supplied predicate on the inner value.
    Predicate(CustomRule),
}

/// The failure reason a validator reports; one error-enumeration variant
/// per validator kind.
#[derive(Clone, Copy, PartialEq, Eq, Structural, Debug)]
pub enum ErrorVariant {
    TooShort,
    TooLong,
    Missing,
    TooSmall,
    TooBig,
    PredicateViolated,
}

/// A concrete inner value, used for declared defaults.
#[derive(Clone, Debug)]
pub enum Value {
    Text(String),
    Numeric(i128),
}

/// The ordered sanitize-then-validate pipeline attached to a spec.
/// Sanitizers always run before validators; both orders are significant.
#[derive(Clone, Debug)]
pub struct Guard {
    pub sanitizers: Vec<Sanitizer>,
    pub validators: Vec<Validator>,
}

/// The error variant that a validator reports when it rejects a value.
pub open spec fn variant_of(v: Validator) -> ErrorVariant {
    match v {
        Validator::MinLen(_) => ErrorVariant::TooShort,
        Validator::MaxLen(_) => ErrorVariant::TooLong,
        Validator::Present => ErrorVariant::Missing,
        Validator::RangeMin(_) => ErrorVariant::TooSmall,
        Validator::RangeMax(_) => ErrorVariant::TooBig,
        Validator::Predicate(_) => ErrorVariant::PredicateViolated,
    }
}

pub fn variant_of_validator(v: &Validator) -> (r: ErrorVariant)
    ensures
        r == variant_of(*v),
{
    match v {
        Validator::MinLen(_) => ErrorVariant::TooShort,
        Validator::MaxLen(_) => ErrorVariant::TooLong,
        Validator::Present => ErrorVariant::Missing,
        Validator::RangeMin(_) => ErrorVariant::TooSmall,
        Validator::RangeMax(_) => ErrorVariant::TooBig,
        Validator::Predicate(_) => ErrorVariant::PredicateViolated,
    }
}

/// A custom rule fits a family when it declares no argument kind, or
/// declares exactly that family.
pub open spec fn custom_fits(c: CustomRule, f: Family) -> bool {
    match c.declared {
        Option::None => true,
        Option::Some(d) => d == f,
    }
}

/// Whether a sanitizer applies to values of the given family.
pub open spec fn sanitizer_fits(s: Sanitizer, f: Family) -> bool {
    match s {
        Sanitizer::Trim => f == Family::Text,
        Sanitizer::Lowercase => f == Family::Text,
        Sanitizer::Uppercase => f == Family::Text,
        Sanitizer::Transform(c) => custom_fits(c, f),
    }
}

/// Whether a validator applies to values of the given family.
pub open spec fn validator_fits(v: Validator, f: Family) -> bool {
    match v {
        Validator::MinLen(_) => f == Family::Text,
        Validator::MaxLen(_) => f == Family::Text,
        Validator::Present => f == Family::Text,
        Validator::RangeMin(_) => f matches Family::Numeric(_),
        Validator::RangeMax(_) => f matches Family::Numeric(_),
        Validator::Predicate(c) => custom_fits(c, f),
    }
}

/// Whether a concrete value belongs to the given family.
pub open spec fn value_fits(v: Value, f: Family) -> bool {
    match v {
        Value::Text(_) => f == Family::Text,
        Value::Numeric(_) => f matches Family::Numeric(_),
    }
}

pub fn sanitizer_fits_family(s: &Sanitizer, f: Family) -> (r: bool)
    ensures
        r == sanitizer_fits(*s, f),
{
    match s {
        Sanitizer::Trim => f == Family::Text,
        Sanitizer::Lowercase => f == Family::Text,
        Sanitizer::Uppercase => f == Family::Text,
        Sanitizer::Transform(c) => match &c.declared {
            Option::None => true,
            Option::Some(d) => *d == f,
        },
    }
}

pub fn validator_fits_family(v: &Validator, f: Family) -> (r: bool)
    ensures
        r == validator_fits(*v, f),
{
    match v {
        Validator::MinLen(_) => f == Family::Text,
        Validator::MaxLen(_) => f == Family::Text,
        Validator::Present => f == Family::Text,
        Validator::RangeMin(_) => matches!(f, Family::Numeric(_)),
        Validator::RangeMax(_) => matches!(f, Family::Numeric(_)),
        Validator::Predicate(c) => match &c.declared {
            Option::None => true,
            Option::Some(d) => *d == f,
        },
    }
}

pub fn value_fits_family(v: &Value, f: Family) -> (r: bool)
    ensures
        r == value_fits(*v, f),
{
    match v {
        Value::Text(_) => f == Family::Text,
        Value::Numeric(_) => matches!(f, Family::Numeric(_)),
    }
}

/// A sanitizer list with no user-supplied step: every step is a built-in
/// whose meaning the library itself gives.
pub open spec fn sanitizers_builtin(s: Seq<Sanitizer>) -> bool {
    forall|i: int| 0 <= i < s.len() ==> !(#[trigger] s[i] matches Sanitizer::Transform(_))
}

/// A validator list with no user-supplied predicate.
pub open spec fn validators_builtin(v: Seq<Validator>) -> bool {
    forall|i: int| 0 <= i < v.len() ==> !(#[trigger] v[i] matches Validator::Predicate(_))
}

/// Every sanitizer of the list fits the family.
pub open spec fn sanitizers_fit(s: Seq<Sanitizer>, f: Family) -> bool {
    forall|i: int| 0 <= i < s.len() ==> sanitizer_fits(#[trigger] s[i], f)
}

/// Every validator of the list fits the family.
pub open spec fn validators_fit(v: Seq<Validator>, f: Family) -> bool {
    forall|i: int| 0 <= i < v.len() ==> validator_fits(#[trigger] v[i], f)
}

impl Guard {
    /// The guard can fail exactly when a validator is present; an empty
    /// validator list means the guarded constructor is infallible.
    pub open spec fn spec_has_validation(self) -> bool {
        self.validators@.len() > 0
    }

    pub fn has_validation(&self) -> (r: bool)
        ensures
            r == self.spec_has_validation(),
    {
        self.validators.len() > 0
    }
}

} // verus!
