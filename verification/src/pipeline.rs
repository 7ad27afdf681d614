//! The guard composer's semantics: the meaning of an ordered sanitizer
//! list as one deterministic transformation, the meaning of an ordered
//! validator list as a first-failure check, executable evaluators for both
//! families, and the pipeline laws (idempotence of the built-in sanitizers,
//! first-failure-wins ordering).

use vstd::prelude::*;
use vstd::string::StrSliceExecFns;

use crate::rules::{
    ErrorVariant, Family, Guard, Sanitizer, Validator, sanitizer_fits, sanitizers_builtin,
    sanitizers_fit, validator_fits, validators_builtin, validators_fit, variant_of,
};
use crate::text::{
    lemma_case_text_absorb, lemma_lower_text_idem, lemma_trim_lower_commute, lemma_trim_text_idem,
    lemma_trim_upper_commute, lemma_upper_text_idem, lower_string, lower_text, trim_string,
    trim_text, upper_string, upper_text,
};

verus! {

/// An interpreter for the user-supplied rules of a guard.  The engine keeps
/// custom transformations and predicates opaque (it only generates code for
/// them); running a pipeline therefore takes an interpreter that resolves a
/// custom rule's name.  Nothing is known about these methods: the exact
/// contracts of the evaluators below hold for pipelines of built-in rules.
pub trait CustomOps {
    /// Applies the named user transformation to a string value.
    fn transform_text(&self, name: &String, v: String) -> String;

    /// Applies the named user predicate to a string value.
    fn check_text(&self, name: &String, v: &String) -> bool;

    /// Applies the named user transformation to a numeric value.
    fn transform_num(&self, name: &String, v: i128) -> i128;

    /// Applies the named user predicate to a numeric value.
    fn check_num(&self, name: &String, v: i128) -> bool;
}

/// The interpreter for guards without user-supplied rules: it leaves every
/// value unchanged and accepts it.  Pipelines of built-in rules never call
/// into it.
pub struct NoCustomOps;

impl CustomOps for NoCustomOps {
    fn transform_text(&self, _name: &String, v: String) -> String {
        v
    }

    fn check_text(&self, _name: &String, _v: &String) -> bool {
        true
    }

    fn transform_num(&self, _name: &String, v: i128) -> i128 {
        v
    }

    fn check_num(&self, _name: &String, _v: i128) -> bool {
        true
    }
}

// ----- the meaning of sanitization -----

/// What one sanitizer does to a text value.  A user-supplied transformation
/// is opaque to the library: this function treats it as the identity, and
/// every contract stated through it is conditioned on the list being
/// built-in only.
pub open spec fn sanitize_step(s: Sanitizer, v: Seq<char>) -> Seq<char> {
    match s {
        Sanitizer::Trim => trim_text(v),
        Sanitizer::Lowercase => lower_text(v),
        Sanitizer::Uppercase => upper_text(v),
        Sanitizer::Transform(_) => v,
    }
}

/// The composed sanitize function: the value folded through every step in
/// declared order, each step's output feeding the next step's input.  An
/// empty list is the identity.
pub open spec fn sanitize_text(rules: Seq<Sanitizer>, v: Seq<char>) -> Seq<char>
    decreases rules.len(),
{
    if rules.len() == 0 {
        v
    } else {
        sanitize_text(rules.drop_first(), sanitize_step(rules[0], v))
    }
}

// ----- the meaning of validation -----

/// The verdict of one validator on a text value: `None` accepts, `Some`
/// names the failure.  A user-supplied predicate is opaque and treated as
/// accepting; contracts through this function are conditioned on the list
/// being built-in only.  Numeric validators do not apply to text.
pub open spec fn text_verdict(v: Validator, s: Seq<char>) -> Option<ErrorVariant> {
    match v {
        Validator::MinLen(n) => if s.len() < n {
            Option::Some(ErrorVariant::TooShort)
        } else {
            Option::None
        },
        Validator::MaxLen(n) => if s.len() > n {
            Option::Some(ErrorVariant::TooLong)
        } else {
            Option::None
        },
        Validator::Present => if s.len() == 0 {
            Option::Some(ErrorVariant::Missing)
        } else {
            Option::None
        },
        Validator::RangeMin(_) => Option::None,
        Validator::RangeMax(_) => Option::None,
        Validator::Predicate(_) => Option::None,
    }
}

/// The composed validate function on text: the first failure in declared
/// order, or acceptance if every validator passes.  An empty list always
/// accepts.
pub open spec fn validate_text(rules: Seq<Validator>, s: Seq<char>) -> Option<ErrorVariant>
    decreases rules.len(),
{
    if rules.len() == 0 {
        Option::None
    } else {
        match text_verdict(rules[0], s) {
            Option::Some(e) => Option::Some(e),
            Option::None => validate_text(rules.drop_first(), s),
        }
    }
}

/// The verdict of one validator on a numeric value.
pub open spec fn num_verdict(v: Validator, x: i128) -> Option<ErrorVariant> {
    match v {
        Validator::RangeMin(m) => if x < m {
            Option::Some(ErrorVariant::TooSmall)
        } else {
            Option::None
        },
        Validator::RangeMax(m) => if x > m {
            Option::Some(ErrorVariant::TooBig)
        } else {
            Option::None
        },
        Validator::MinLen(_) => Option::None,
        Validator::MaxLen(_) => Option::None,
        Validator::Present => Option::None,
        Validator::Predicate(_) => Option::None,
    }
}

/// The composed validate function on a numeric value: first failure in
/// declared order.
pub open spec fn validate_num(rules: Seq<Validator>, x: i128) -> Option<ErrorVariant>
    decreases rules.len(),
{
    if rules.len() == 0 {
        Option::None
    } else {
        match num_verdict(rules[0], x) {
            Option::Some(e) => Option::Some(e),
            Option::None => validate_num(rules.drop_first(), x),
        }
    }
}

// ----- folding lemmas -----

/// Appending a step to a pipeline applies it last.
pub proof fn lemma_sanitize_text_snoc(rules: Seq<Sanitizer>, r: Sanitizer, v: Seq<char>)
    ensures
        sanitize_text(rules.push(r), v) == sanitize_step(r, sanitize_text(rules, v)),
    decreases rules.len(),
{
    if rules.len() == 0 {
        assert(rules.push(r)[0] == r);
        assert(rules.push(r).drop_first() =~= Seq::<Sanitizer>::empty());
        assert(sanitize_text(rules.push(r), v) == sanitize_text(
            Seq::<Sanitizer>::empty(),
            sanitize_step(r, v),
        ));
    } else {
        assert(rules.push(r)[0] == rules[0]);
        assert(rules.push(r).drop_first() =~= rules.drop_first().push(r));
        lemma_sanitize_text_snoc(rules.drop_first(), r, sanitize_step(rules[0], v));
        assert(sanitize_text(rules.push(r), v) == sanitize_text(
            rules.drop_first().push(r),
            sanitize_step(rules[0], v),
        ));
    }
}

// ----- the pipeline laws -----

/// Each built-in sanitizer is idempotent.
pub proof fn lemma_builtin_step_idem(s: Sanitizer, v: Seq<char>)
    requires
        !(s matches Sanitizer::Transform(_)),
    ensures
        sanitize_step(s, sanitize_step(s, v)) == sanitize_step(s, v),
{
    match s {
        Sanitizer::Trim => lemma_trim_text_idem(v),
        Sanitizer::Lowercase => lemma_lower_text_idem(v),
        Sanitizer::Uppercase => lemma_upper_text_idem(v),
        Sanitizer::Transform(_) => {},
    }
}

/// A built-in pipeline commutes with trimming.
proof fn lemma_pipeline_trim_commute(rules: Seq<Sanitizer>, v: Seq<char>)
    requires
        sanitizers_builtin(rules),
    ensures
        sanitize_text(rules, trim_text(v)) == trim_text(sanitize_text(rules, v)),
    decreases rules.len(),
{
    if rules.len() > 0 {
        let r = rules[0];
        match r {
            Sanitizer::Trim => {
                lemma_trim_text_idem(v);
            },
            Sanitizer::Lowercase => {
                lemma_trim_lower_commute(v);
            },
            Sanitizer::Uppercase => {
                lemma_trim_upper_commute(v);
            },
            Sanitizer::Transform(_) => {},
        }
        assert(sanitize_step(r, trim_text(v)) == trim_text(sanitize_step(r, v)));
        lemma_pipeline_trim_commute(rules.drop_first(), sanitize_step(r, v));
    }
}

/// Re-applying a case map after a built-in pipeline that already started
/// from a value in that case gives the same result: the last case map wins
/// through the whole pipeline.
proof fn lemma_pipeline_case_absorb(rules: Seq<Sanitizer>, c: Sanitizer, v: Seq<char>)
    requires
        sanitizers_builtin(rules),
        c == Sanitizer::Lowercase || c == Sanitizer::Uppercase,
    ensures
        sanitize_step(c, sanitize_text(rules, sanitize_step(c, v))) == sanitize_step(
            c,
            sanitize_text(rules, v),
        ),
    decreases rules.len(),
{
    if rules.len() == 0 {
        lemma_builtin_step_idem(c, v);
    } else {
        let r = rules[0];
        match r {
            Sanitizer::Trim => {
                // trimming the re-cased value is the re-cased trimmed value
                match c {
                    Sanitizer::Lowercase => lemma_trim_lower_commute(v),
                    Sanitizer::Uppercase => lemma_trim_upper_commute(v),
                    _ => {},
                }
                assert(sanitize_step(r, sanitize_step(c, v)) == sanitize_step(
                    c,
                    sanitize_step(r, v),
                ));
                lemma_pipeline_case_absorb(rules.drop_first(), c, sanitize_step(r, v));
            },
            Sanitizer::Lowercase => {
                lemma_case_text_absorb(v);
                assert(sanitize_step(r, sanitize_step(c, v)) == sanitize_step(r, v));
            },
            Sanitizer::Uppercase => {
                lemma_case_text_absorb(v);
                assert(sanitize_step(r, sanitize_step(c, v)) == sanitize_step(r, v));
            },
            Sanitizer::Transform(_) => {},
        }
    }
}

/// Sanitizing an already-sanitized value with the same pipeline of
/// built-in sanitizers yields the same value.
pub proof fn lemma_sanitize_pipeline_idem(rules: Seq<Sanitizer>, v: Seq<char>)
    requires
        sanitizers_builtin(rules),
    ensures
        sanitize_text(rules, sanitize_text(rules, v)) == sanitize_text(rules, v),
    decreases rules.len(),
{
    if rules.len() > 0 {
        let init = rules.drop_last();
        let r = rules.last();
        assert(rules =~= init.push(r));
        assert(sanitizers_builtin(init)) by {
            assert(forall|i: int|
                0 <= i < init.len() ==> init[i] == #[trigger] rules[i]);
        }
        lemma_sanitize_pipeline_idem(init, v);
        lemma_sanitize_text_snoc(init, r, v);
        let g = sanitize_text(init, v);
        // the whole pipeline's result is step(r, g)
        lemma_sanitize_text_snoc(init, r, sanitize_step(r, g));
        // so re-sanitizing computes step(r, init(step(r, g)))
        match r {
            Sanitizer::Trim => {
                lemma_pipeline_trim_commute(init, g);
                // init(trim(g)) == trim(init(g)) == trim(g) by idempotence of init
                assert(sanitize_text(init, sanitize_text(init, v)) == sanitize_text(init, v));
                lemma_trim_text_idem(g);
            },
            Sanitizer::Lowercase => {
                lemma_pipeline_case_absorb(init, r, g);
            },
            Sanitizer::Uppercase => {
                lemma_pipeline_case_absorb(init, r, g);
            },
            Sanitizer::Transform(_) => {},
        }
    }
}

// ----- executable evaluators -----

/// Runs the composed sanitize function on a text value.  For a pipeline of
/// built-in sanitizers the result is exactly `sanitize_text`; user-supplied
/// steps are resolved by the interpreter.
pub fn sanitize_text_value<O: CustomOps>(rules: &Vec<Sanitizer>, ops: &O, input: String) -> (r:
    String)
    ensures
        sanitizers_builtin(rules@) ==> r@ == sanitize_text(rules@, input@),
{
    let ghost orig = input@;
    let mut acc = input;
    let mut i: usize = 0;
    proof {
        assert(rules@.take(0) =~= Seq::<Sanitizer>::empty());
    }
    while i < rules.len()
        invariant
            i <= rules@.len(),
            sanitizers_builtin(rules@.take(i as int)) ==> acc@ == sanitize_text(
                rules@.take(i as int),
                orig,
            ),
        decreases rules@.len() - i,
    {
        let ghost prev = acc@;
        let step = &rules[i];
        acc = match step {
            Sanitizer::Trim => trim_string(&acc),
            Sanitizer::Lowercase => lower_string(&acc),
            Sanitizer::Uppercase => upper_string(&acc),
            Sanitizer::Transform(c) => ops.transform_text(&c.name, acc),
        };
        i += 1;
        proof {
            if sanitizers_builtin(rules@.take(i as int)) {
                assert(forall|j: int|
                    0 <= j < i - 1 ==> rules@.take(i - 1)[j] == #[trigger] rules@.take(
                        i as int,
                    )[j]);
                assert(sanitizers_builtin(rules@.take(i - 1)));
                assert(rules@.take(i as int)[i - 1] == rules@[i - 1]);
                assert(acc@ == sanitize_step(rules@[i - 1], prev));
                assert(rules@.take(i as int) =~= rules@.take(i - 1).push(rules@[i - 1]));
                lemma_sanitize_text_snoc(rules@.take(i - 1), rules@[i - 1], orig);
            }
        }
    }
    proof {
        assert(rules@.take(rules@.len() as int) =~= rules@);
    }
    acc
}

/// Runs the composed validate function on a text value: the first failure
/// in declared order, or acceptance.  For a list of built-in validators the
/// result is exactly `validate_text`; an empty list always accepts, and any
/// reported failure is the variant of one of the list's validators.
pub fn validate_text_value<O: CustomOps>(rules: &Vec<Validator>, ops: &O, v: &String) -> (r: Option<
    ErrorVariant,
>)
    requires
        validators_fit(rules@, Family::Text),
    ensures
        validators_builtin(rules@) ==> r == validate_text(rules@, v@),
        rules@.len() == 0 ==> r is None,
        r matches Some(e) ==> exists|k: int|
            0 <= k < rules@.len() && variant_of(#[trigger] rules@[k]) == e,
{
    let len = v.as_str().unicode_len();
    let mut i: usize = 0;
    proof {
        assert(rules@.skip(0) =~= rules@);
    }
    while i < rules.len()
        invariant
            i <= rules@.len(),
            len as nat == v@.len(),
            validators_fit(rules@, Family::Text),
            validators_builtin(rules@.take(i as int)) ==> validate_text(rules@, v@)
                == validate_text(rules@.skip(i as int), v@),
        decreases rules@.len() - i,
    {
        let rule = &rules[i];
        let verdict: Option<ErrorVariant> = match rule {
            Validator::MinLen(m) => if len < *m {
                Option::Some(ErrorVariant::TooShort)
            } else {
                Option::None
            },
            Validator::MaxLen(m) => if len > *m {
                Option::Some(ErrorVariant::TooLong)
            } else {
                Option::None
            },
            Validator::Present => if len == 0 {
                Option::Some(ErrorVariant::Missing)
            } else {
                Option::None
            },
            Validator::RangeMin(_) => {
                proof {
                    assert(validator_fits(rules@[i as int], Family::Text));
                    assert(false);
                }
                Option::None
            },
            Validator::RangeMax(_) => {
                proof {
                    assert(validator_fits(rules@[i as int], Family::Text));
                    assert(false);
                }
                Option::None
            },
            Validator::Predicate(c) => if !ops.check_text(&c.name, v) {
                Option::Some(ErrorVariant::PredicateViolated)
            } else {
                Option::None
            },
        };
        match verdict {
            Option::Some(e) => {
                proof {
                    assert(variant_of(rules@[i as int]) == e);
                    if validators_builtin(rules@) {
                        assert(validators_builtin(rules@.take(i as int)));
                        assert(text_verdict(rules@.skip(i as int)[0], v@) == Option::Some(e));
                    }
                }
                return Option::Some(e);
            },
            Option::None => {},
        }
        i += 1;
        proof {
            if validators_builtin(rules@.take(i as int)) {
                assert(forall|j: int|
                    0 <= j < i - 1 ==> rules@.take(i - 1)[j] == #[trigger] rules@.take(
                        i as int,
                    )[j]);
                assert(validators_builtin(rules@.take(i - 1)));
                assert(text_verdict(rules@.skip(i - 1)[0], v@) is None);
                assert(rules@.skip(i - 1).drop_first() =~= rules@.skip(i as int));
            }
        }
    }
    proof {
        if validators_builtin(rules@) {
            assert(validators_builtin(rules@.take(rules@.len() as int)));
            assert(rules@.skip(rules@.len() as int).len() == 0);
        }
    }
    Option::None
}

/// The generated constructor for the string family: sanitize in declared
/// order, then return the first validation failure or the sanitized value.
/// With an empty validator list the constructor is infallible.
pub fn construct_text<O: CustomOps>(guard: &Guard, ops: &O, input: String) -> (r: Result<
    String,
    ErrorVariant,
>)
    requires
        validators_fit(guard.validators@, Family::Text),
    ensures
        guard.validators@.len() == 0 ==> r is Ok,
        sanitizers_builtin(guard.sanitizers@) && validators_builtin(guard.validators@)
            ==> match validate_text(
            guard.validators@,
            sanitize_text(guard.sanitizers@, input@),
        ) {
            Option::None => r matches Ok(out) && out@ == sanitize_text(
                guard.sanitizers@,
                input@,
            ),
            Option::Some(e) => r == Result::<String, ErrorVariant>::Err(e),
        },
        r matches Err(e) ==> exists|k: int|
            0 <= k < guard.validators@.len() && variant_of(#[trigger] guard.validators@[k]) == e,
{
    let s = sanitize_text_value(&guard.sanitizers, ops, input);
    match validate_text_value(&guard.validators, ops, &s) {
        Option::None => Result::Ok(s),
        Option::Some(e) => Result::Err(e),
    }
}

/// Runs the composed validate function on a numeric value.
pub fn validate_num_value<O: CustomOps>(rules: &Vec<Validator>, ops: &O, family: Family, x: i128) -> (r:
    Option<ErrorVariant>)
    requires
        family matches Family::Numeric(_),
        validators_fit(rules@, family),
    ensures
        validators_builtin(rules@) ==> r == validate_num(rules@, x),
        rules@.len() == 0 ==> r is None,
        r matches Some(e) ==> exists|k: int|
            0 <= k < rules@.len() && variant_of(#[trigger] rules@[k]) == e,
{
    let mut i: usize = 0;
    proof {
        assert(rules@.skip(0) =~= rules@);
    }
    while i < rules.len()
        invariant
            i <= rules@.len(),
            family matches Family::Numeric(_),
            validators_fit(rules@, family),
            validators_builtin(rules@.take(i as int)) ==> validate_num(rules@, x) == validate_num(
                rules@.skip(i as int),
                x,
            ),
        decreases rules@.len() - i,
    {
        let rule = &rules[i];
        let verdict: Option<ErrorVariant> = match rule {
            Validator::RangeMin(m) => if x < *m {
                Option::Some(ErrorVariant::TooSmall)
            } else {
                Option::None
            },
            Validator::RangeMax(m) => if x > *m {
                Option::Some(ErrorVariant::TooBig)
            } else {
                Option::None
            },
            Validator::MinLen(_) => {
                proof {
                    assert(validator_fits(rules@[i as int], family));
                    assert(false);
                }
                Option::None
            },
            Validator::MaxLen(_) => {
                proof {
                    assert(validator_fits(rules@[i as int], family));
                    assert(false);
                }
                Option::None
            },
            Validator::Present => {
                proof {
                    assert(validator_fits(rules@[i as int], family));
                    assert(false);
                }
                Option::None
            },
            Validator::Predicate(c) => if !ops.check_num(&c.name, x) {
                Option::Some(ErrorVariant::PredicateViolated)
            } else {
                Option::None
            },
        };
        match verdict {
            Option::Some(e) => {
                proof {
                    assert(variant_of(rules@[i as int]) == e);
                    if validators_builtin(rules@) {
                        assert(validators_builtin(rules@.take(i as int)));
                        assert(num_verdict(rules@.skip(i as int)[0], x) == Option::Some(e));
                    }
                }
                return Option::Some(e);
            },
            Option::None => {},
        }
        i += 1;
        proof {
            if validators_builtin(rules@.take(i as int)) {
                assert(forall|j: int|
                    0 <= j < i - 1 ==> rules@.take(i - 1)[j] == #[trigger] rules@.take(
                        i as int,
                    )[j]);
                assert(validators_builtin(rules@.take(i - 1)));
                assert(num_verdict(rules@.skip(i - 1)[0], x) is None);
                assert(rules@.skip(i - 1).drop_first() =~= rules@.skip(i as int));
            }
        }
    }
    proof {
        if validators_builtin(rules@) {
            assert(validators_builtin(rules@.take(rules@.len() as int)));
            assert(rules@.skip(rules@.len() as int).len() == 0);
        }
    }
    Option::None
}

/// The generated constructor for a numeric family: apply the user-supplied
/// sanitizers (no built-in sanitizer exists for numbers), then return the
/// first validation failure or the sanitized value.
pub fn construct_num<O: CustomOps>(guard: &Guard, ops: &O, family: Family, input: i128) -> (r:
    Result<i128, ErrorVariant>)
    requires
        family matches Family::Numeric(_),
        sanitizers_fit(guard.sanitizers@, family),
        validators_fit(guard.validators@, family),
    ensures
        guard.validators@.len() == 0 ==> r is Ok,
        sanitizers_builtin(guard.sanitizers@) && validators_builtin(guard.validators@)
            ==> match validate_num(guard.validators@, input) {
            Option::None => r == Result::<i128, ErrorVariant>::Ok(input),
            Option::Some(e) => r == Result::<i128, ErrorVariant>::Err(e),
        },
        r matches Err(e) ==> exists|k: int|
            0 <= k < guard.validators@.len() && variant_of(#[trigger] guard.validators@[k]) == e,
{
    let mut acc = input;
    let mut i: usize = 0;
    while i < guard.sanitizers.len()
        invariant
            i <= guard.sanitizers@.len(),
            family matches Family::Numeric(_),
            sanitizers_fit(guard.sanitizers@, family),
            sanitizers_builtin(guard.sanitizers@.take(i as int)) ==> acc == input,
        decreases guard.sanitizers@.len() - i,
    {
        let step = &guard.sanitizers[i];
        acc = match step {
            Sanitizer::Transform(c) => ops.transform_num(&c.name, acc),
            Sanitizer::Trim => {
                proof {
                    assert(sanitizer_fits(guard.sanitizers@[i as int], family));
                    assert(false);
                }
                acc
            },
            Sanitizer::Lowercase => {
                proof {
                    assert(sanitizer_fits(guard.sanitizers@[i as int], family));
                    assert(false);
                }
                acc
            },
            Sanitizer::Uppercase => {
                proof {
                    assert(sanitizer_fits(guard.sanitizers@[i as int], family));
                    assert(false);
                }
                acc
            },
        };
        i += 1;
        proof {
            if sanitizers_builtin(guard.sanitizers@.take(i as int)) {
                assert(!(guard.sanitizers@.take(i as int)[i - 1] matches Sanitizer::Transform(_)));
                assert(false);
            }
        }
    }
    proof {
        if sanitizers_builtin(guard.sanitizers@) {
            assert(guard.sanitizers@.take(guard.sanitizers@.len() as int) =~= guard.sanitizers@);
        }
    }
    match validate_num_value(&guard.validators, ops, family, acc) {
        Option::None => Result::Ok(acc),
        Option::Some(e) => Result::Err(e),
    }
}

/// The reported failure is the verdict of the first failing validator in
/// declared order: validators before it accept, so its failure is the one
/// surfaced, whatever later validators would say.
pub proof fn lemma_first_failure_wins(rules: Seq<Validator>, s: Seq<char>, i: int)
    requires
        0 <= i < rules.len(),
        text_verdict(rules[i], s) is Some,
        forall|j: int| 0 <= j < i ==> text_verdict(#[trigger] rules[j], s) is None,
    ensures
        validate_text(rules, s) == text_verdict(rules[i], s),
    decreases i,
{
    if i > 0 {
        lemma_first_failure_wins(rules.drop_first(), s, i - 1);
    }
}

/// With the intentionally conflicting validators `[min_len 6, max_len 3]`,
/// a too-short input is reported as too short — the first declared
/// violation — never as too long.
pub proof fn lemma_min_len_reported_first(s: Seq<char>)
    requires
        s.len() < 6,
    ensures
        validate_text(seq![Validator::MinLen(6), Validator::MaxLen(3)], s) == Option::Some(
            ErrorVariant::TooShort,
        ),
{
}

} // verus!
