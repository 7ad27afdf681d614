//! The generation engine: turns a `NewtypeSpec` into the full set of
//! generated artifacts, or into the ordered list of every generation-time
//! diagnostic found in one run.  Errors are collected, never short-circuited,
//! and a spec with any invalid element is rejected as a whole.

use vstd::prelude::*;
use vstd::string::StringExecFns;

use crate::capability::{CapRejection, CapShape, Capability, cap_decision, decide_capability};
use crate::pipeline::{
    NoCustomOps, sanitize_text, sanitize_text_value, validate_num, validate_num_value,
    validate_text, validate_text_value,
};
use crate::rules::{
    ErrorVariant, Family, Guard, Sanitizer, Validator, Value, sanitizer_fits,
    sanitizer_fits_family, sanitizers_builtin, sanitizers_fit, validator_fits,
    validator_fits_family, validators_builtin, validators_fit, value_fits, value_fits_family,
    variant_of, variant_of_validator,
};

verus! {

/// A declarative description of one guarded newtype: its name, inner-type
/// family, guard, requested capabilities (duplicates collapse), optional
/// default value, and an optional override for the error type's name.
pub struct NewtypeSpec {
    pub wrapper_name: String,
    pub family: Family,
    pub guard: Guard,
    pub capabilities: Vec<Capability>,
    pub default_value: Option<Value>,
    pub error_type_name: Option<String>,
}

/// One generation-time diagnostic, naming the offending spec element.
#[derive(Clone, Copy, PartialEq, Eq, Structural, Debug)]
pub enum GenError {
    /// The sanitizer at this index declares an argument kind that does not
    /// match the spec's inner-type family.
    SanitizerKindMismatch(usize),
    /// The validator at this index declares an argument kind that does not
    /// match the spec's inner-type family.
    ValidatorKindMismatch(usize),
    /// The validator at this index reports the same error variant as an
    /// earlier validator, which would make the variant naming ambiguous.
    DuplicateValidator(usize),
    /// The named capability was rejected for the named reason.
    Capability(Capability, CapRejection),
    /// The declared default value does not belong to the inner-type family.
    DefaultKindMismatch,
    /// The declared default value fails its own validation.
    DefaultValueRejected(ErrorVariant),
}

/// Whether the generated constructor can fail.
#[derive(Clone, Copy, PartialEq, Eq, Structural, Debug)]
pub enum ConstructorKind {
    Infallible,
    Fallible,
}

/// The synthesized error enumeration: one variant per validator, in
/// declaration order.
pub struct ErrorTaxonomy {
    pub name: String,
    pub variants: Vec<ErrorVariant>,
}

/// One granted capability together with the implementation shape decided
/// for it.
#[derive(Clone, Copy, PartialEq, Eq, Structural, Debug)]
pub struct CapabilityImpl {
    pub capability: Capability,
    pub shape: CapShape,
}

/// The artifact set produced for one spec: pure data describing what to
/// emit, not executable state.
pub struct Artifacts {
    pub wrapper_name: String,
    pub family: Family,
    /// The composed sanitize function: these steps in declared order.
    pub sanitizers: Vec<Sanitizer>,
    /// The composed validate function: these checks in declared order,
    /// first failure reported.
    pub validators: Vec<Validator>,
    pub constructor: ConstructorKind,
    /// Present exactly when the validator list is not empty.
    pub error_type: Option<ErrorTaxonomy>,
    pub capability_impls: Vec<CapabilityImpl>,
    /// A self-check that the declared default passes the guard; present
    /// exactly when a default is declared and the guard can fail.
    pub self_check: Option<Value>,
}

// ----- the meaning of generation -----

/// The guard can fail exactly when a validator is present.
pub open spec fn spec_fallible(s: NewtypeSpec) -> bool {
    s.guard.validators@.len() > 0
}

pub open spec fn spec_has_default(s: NewtypeSpec) -> bool {
    s.default_value is Some
}

/// The error type's name: the declared override, or the wrapper's name
/// with `Error` appended.
pub open spec fn expected_error_name(s: NewtypeSpec) -> Seq<char> {
    match s.error_type_name {
        Option::Some(n) => n@,
        Option::None => s.wrapper_name@ + "Error"@,
    }
}

/// The kind-mismatch diagnostics for a sanitizer list, in index order.
pub open spec fn sanitizer_errors(rules: Seq<Sanitizer>, f: Family) -> Seq<GenError>
    decreases rules.len(),
{
    if rules.len() == 0 {
        Seq::<GenError>::empty()
    } else {
        sanitizer_errors(rules.drop_last(), f) + if sanitizer_fits(rules.last(), f) {
            Seq::<GenError>::empty()
        } else {
            seq![GenError::SanitizerKindMismatch((rules.len() - 1) as usize)]
        }
    }
}

/// The validator at index `i` reports the same error variant as an earlier
/// validator.
pub open spec fn dup_validator(rules: Seq<Validator>, i: int) -> bool {
    exists|j: int| 0 <= j < i && variant_of(#[trigger] rules[j]) == variant_of(rules[i])
}

/// The kind-mismatch and duplicate diagnostics for a validator list, in
/// index order; at one index the kind mismatch is reported first.
pub open spec fn validator_errors(rules: Seq<Validator>, f: Family) -> Seq<GenError>
    decreases rules.len(),
{
    if rules.len() == 0 {
        Seq::<GenError>::empty()
    } else {
        let i = rules.len() - 1;
        validator_errors(rules.drop_last(), f) + (if validator_fits(rules[i], f) {
            Seq::<GenError>::empty()
        } else {
            seq![GenError::ValidatorKindMismatch(i as usize)]
        }) + (if dup_validator(rules, i) {
            seq![GenError::DuplicateValidator(i as usize)]
        } else {
            Seq::<GenError>::empty()
        })
    }
}

/// The requested capabilities with duplicates collapsed, keeping the first
/// occurrence's position.
pub open spec fn dedup_caps(caps: Seq<Capability>) -> Seq<Capability>
    decreases caps.len(),
{
    if caps.len() == 0 {
        Seq::<Capability>::empty()
    } else {
        let init = dedup_caps(caps.drop_last());
        if caps.drop_last().contains(caps.last()) {
            init
        } else {
            init.push(caps.last())
        }
    }
}

/// The capability diagnostics for a (deduplicated) capability list.
pub open spec fn cap_errors_of(
    list: Seq<Capability>,
    fallible: bool,
    has_default: bool,
    f: Family,
) -> Seq<GenError>
    decreases list.len(),
{
    if list.len() == 0 {
        Seq::<GenError>::empty()
    } else {
        cap_errors_of(list.drop_last(), fallible, has_default, f) + match cap_decision(
            list.last(),
            fallible,
            has_default,
            f,
        ) {
            Result::Ok(_) => Seq::<GenError>::empty(),
            Result::Err(rej) => seq![GenError::Capability(list.last(), rej)],
        }
    }
}

/// The granted capability implementations for a (deduplicated) capability
/// list, in request order.
pub open spec fn cap_impls_of(
    list: Seq<Capability>,
    fallible: bool,
    has_default: bool,
    f: Family,
) -> Seq<CapabilityImpl>
    decreases list.len(),
{
    if list.len() == 0 {
        Seq::<CapabilityImpl>::empty()
    } else {
        cap_impls_of(list.drop_last(), fallible, has_default, f) + match cap_decision(
            list.last(),
            fallible,
            has_default,
            f,
        ) {
            Result::Ok(sh) => seq![CapabilityImpl { capability: list.last(), shape: sh }],
            Result::Err(_) => Seq::<CapabilityImpl>::empty(),
        }
    }
}

/// A guard whose every rule is built-in and fits the family: the engine can
/// run it itself at generation time.
pub open spec fn guard_evaluable(g: Guard, f: Family) -> bool {
    &&& sanitizers_builtin(g.sanitizers@)
    &&& validators_builtin(g.validators@)
    &&& sanitizers_fit(g.sanitizers@, f)
    &&& validators_fit(g.validators@, f)
}

/// The guard's verdict on a concrete value: sanitize, then the first
/// validation failure.  (No built-in sanitizer applies to a number.)
pub open spec fn default_verdict(g: Guard, v: Value) -> Option<ErrorVariant> {
    match v {
        Value::Text(s) => validate_text(g.validators@, sanitize_text(g.sanitizers@, s@)),
        Value::Numeric(x) => validate_num(g.validators@, x),
    }
}

/// The default-value diagnostics: a kind mismatch, or — when the guard can
/// fail and the engine can run it — the rejection of a default that fails
/// its own validation.
pub open spec fn default_errors(s: NewtypeSpec) -> Seq<GenError> {
    match s.default_value {
        Option::None => Seq::<GenError>::empty(),
        Option::Some(v) => if !value_fits(v, s.family) {
            seq![GenError::DefaultKindMismatch]
        } else if spec_fallible(s) && guard_evaluable(s.guard, s.family) {
            match default_verdict(s.guard, v) {
                Option::Some(e) => seq![GenError::DefaultValueRejected(e)],
                Option::None => Seq::<GenError>::empty(),
            }
        } else {
            Seq::<GenError>::empty()
        },
    }
}

/// Every diagnostic of one generation run, in order: sanitizer kinds,
/// validator kinds and duplicates, capabilities, the default value.
pub open spec fn gen_errors(s: NewtypeSpec) -> Seq<GenError> {
    sanitizer_errors(s.guard.sanitizers@, s.family) + validator_errors(
        s.guard.validators@,
        s.family,
    ) + cap_errors_of(
        dedup_caps(s.capabilities@),
        spec_fallible(s),
        spec_has_default(s),
        s.family,
    ) + default_errors(s)
}

// ----- executable checks -----

fn caps_contain(v: &Vec<Capability>, c: Capability) -> (r: bool)
    ensures
        r == v@.contains(c),
{
    let mut j: usize = 0;
    while j < v.len()
        invariant
            j <= v@.len(),
            forall|k: int| 0 <= k < j ==> v@[k] != c,
        decreases v@.len() - j,
    {
        if v[j] == c {
            return true;
        }
        j += 1;
    }
    false
}

fn variant_appears_before(rules: &Vec<Validator>, i: usize) -> (r: bool)
    requires
        i < rules@.len(),
    ensures
        r == dup_validator(rules@, i as int),
{
    let target = variant_of_validator(&rules[i]);
    let mut j: usize = 0;
    while j < i
        invariant
            j <= i < rules@.len(),
            target == variant_of(rules@[i as int]),
            forall|k: int|
                0 <= k < j ==> variant_of(#[trigger] rules@[k]) != variant_of(rules@[i as int]),
        decreases i - j,
    {
        if variant_of_validator(&rules[j]) == target {
            return true;
        }
        j += 1;
    }
    false
}

fn all_sanitizers_builtin(rules: &Vec<Sanitizer>) -> (r: bool)
    ensures
        r == sanitizers_builtin(rules@),
{
    let mut j: usize = 0;
    while j < rules.len()
        invariant
            j <= rules@.len(),
            forall|k: int| 0 <= k < j ==> !(#[trigger] rules@[k] matches Sanitizer::Transform(_)),
        decreases rules@.len() - j,
    {
        if let Sanitizer::Transform(_) = &rules[j] {
            return false;
        }
        j += 1;
    }
    true
}

fn all_validators_builtin(rules: &Vec<Validator>) -> (r: bool)
    ensures
        r == validators_builtin(rules@),
{
    let mut j: usize = 0;
    while j < rules.len()
        invariant
            j <= rules@.len(),
            forall|k: int| 0 <= k < j ==> !(#[trigger] rules@[k] matches Validator::Predicate(_)),
        decreases rules@.len() - j,
    {
        if let Validator::Predicate(_) = &rules[j] {
            return false;
        }
        j += 1;
    }
    true
}

fn all_sanitizers_fit(rules: &Vec<Sanitizer>, f: Family) -> (r: bool)
    ensures
        r == sanitizers_fit(rules@, f),
{
    let mut j: usize = 0;
    while j < rules.len()
        invariant
            j <= rules@.len(),
            forall|k: int| 0 <= k < j ==> sanitizer_fits(#[trigger] rules@[k], f),
        decreases rules@.len() - j,
    {
        if !sanitizer_fits_family(&rules[j], f) {
            return false;
        }
        j += 1;
    }
    true
}

fn all_validators_fit(rules: &Vec<Validator>, f: Family) -> (r: bool)
    ensures
        r == validators_fit(rules@, f),
{
    let mut j: usize = 0;
    while j < rules.len()
        invariant
            j <= rules@.len(),
            forall|k: int| 0 <= k < j ==> validator_fits(#[trigger] rules@[k], f),
        decreases rules@.len() - j,
    {
        if !validator_fits_family(&rules[j], f) {
            return false;
        }
        j += 1;
    }
    true
}

/// Whether the engine can run the guard itself at generation time.
pub fn guard_evaluable_check(g: &Guard, f: Family) -> (r: bool)
    ensures
        r == guard_evaluable(*g, f),
{
    all_sanitizers_builtin(&g.sanitizers) && all_validators_builtin(&g.validators)
        && all_sanitizers_fit(&g.sanitizers, f) && all_validators_fit(&g.validators, f)
}

// ----- the engine facade -----

/// Runs one generation: collects every diagnostic, and returns the full
/// artifact set only when none was found.  The error type exists if and
/// only if the validator list is not empty; its variants are exactly the
/// validators' failure reasons, in declaration order.
pub fn generate(ns: NewtypeSpec) -> (r: Result<Artifacts, Vec<GenError>>)
    ensures
        r is Ok <==> gen_errors(ns).len() == 0,
        r matches Err(es) ==> es@ == gen_errors(ns) && es@.len() > 0,
        r matches Ok(a) ==> {
            &&& a.wrapper_name@ == ns.wrapper_name@
            &&& a.family == ns.family
            &&& a.sanitizers@ == ns.guard.sanitizers@
            &&& a.validators@ == ns.guard.validators@
            &&& (a.constructor == ConstructorKind::Fallible <==> spec_fallible(ns))
            &&& (a.error_type is Some <==> spec_fallible(ns))
            &&& (a.error_type matches Some(t) ==> t.name@ == expected_error_name(ns)
                && t.variants@ == ns.guard.validators@.map_values(|v: Validator| variant_of(v)))
            &&& a.capability_impls@ == cap_impls_of(
                dedup_caps(ns.capabilities@),
                spec_fallible(ns),
                spec_has_default(ns),
                ns.family,
            )
            &&& (a.self_check is Some <==> (spec_has_default(ns) && spec_fallible(ns)))
            &&& (a.self_check is Some ==> a.self_check == ns.default_value)
            &&& sanitizers_fit(ns.guard.sanitizers@, ns.family)
            &&& validators_fit(ns.guard.validators@, ns.family)
        },
{
    let fallible = ns.guard.has_validation();
    let has_default = ns.default_value.is_some();
    let family = ns.family;
    let ghost sans = ns.guard.sanitizers@;
    let ghost vals = ns.guard.validators@;

    let mut errs: Vec<GenError> = Vec::new();

    // sanitizer kind mismatches
    let mut i: usize = 0;
    proof {
        assert(sans.take(0) =~= Seq::<Sanitizer>::empty());
    }
    while i < ns.guard.sanitizers.len()
        invariant
            i <= sans.len(),
            sans == ns.guard.sanitizers@,
            family == ns.family,
            errs@ == sanitizer_errors(sans.take(i as int), family),
        decreases sans.len() - i,
    {
        let ghost prev = errs@;
        let fits = sanitizer_fits_family(&ns.guard.sanitizers[i], family);
        if !fits {
            errs.push(GenError::SanitizerKindMismatch(i));
        }
        i += 1;
        proof {
            let pre = sans.take(i as int);
            assert(pre.drop_last() =~= sans.take(i - 1));
            assert(pre.last() == sans[i - 1]);
            if fits {
                assert(errs@ =~= prev + Seq::<GenError>::empty());
            } else {
                assert(errs@ =~= prev + seq![GenError::SanitizerKindMismatch((i - 1) as usize)]);
            }
        }
    }
    proof {
        assert(sans.take(sans.len() as int) =~= sans);
    }
    let ghost san_errs = errs@;

    // validator kind mismatches and duplicates
    let mut i2: usize = 0;
    proof {
        assert(vals.take(0) =~= Seq::<Validator>::empty());
    }
    while i2 < ns.guard.validators.len()
        invariant
            i2 <= vals.len(),
            vals == ns.guard.validators@,
            family == ns.family,
            san_errs == sanitizer_errors(sans, family),
            errs@ == san_errs + validator_errors(vals.take(i2 as int), family),
        decreases vals.len() - i2,
    {
        let ghost prev = errs@;
        let fits = validator_fits_family(&ns.guard.validators[i2], family);
        if !fits {
            errs.push(GenError::ValidatorKindMismatch(i2));
        }
        let dup = variant_appears_before(&ns.guard.validators, i2);
        if dup {
            errs.push(GenError::DuplicateValidator(i2));
        }
        i2 += 1;
        proof {
            let pre = vals.take(i2 as int);
            assert(pre.drop_last() =~= vals.take(i2 - 1));
            assert(pre.last() == vals[i2 - 1]);
            assert(forall|j: int| 0 <= j < i2 ==> pre[j] == #[trigger] vals[j]);
            assert(dup_validator(pre, i2 - 1) == dup_validator(vals, i2 - 1)) by {
                if dup_validator(vals, i2 - 1) {
                    let j = choose|j: int|
                        0 <= j < i2 - 1 && variant_of(#[trigger] vals[j]) == variant_of(
                            vals[i2 - 1],
                        );
                    assert(variant_of(pre[j]) == variant_of(pre[i2 - 1]));
                }
                if dup_validator(pre, i2 - 1) {
                    let j = choose|j: int|
                        0 <= j < i2 - 1 && variant_of(#[trigger] pre[j]) == variant_of(
                            pre[i2 - 1],
                        );
                    assert(variant_of(vals[j]) == variant_of(vals[i2 - 1]));
                }
            }
            let mis: Seq<GenError> = if validator_fits(vals[i2 - 1], family) {
                Seq::<GenError>::empty()
            } else {
                seq![GenError::ValidatorKindMismatch((i2 - 1) as usize)]
            };
            let dups: Seq<GenError> = if dup_validator(pre, i2 - 1) {
                seq![GenError::DuplicateValidator((i2 - 1) as usize)]
            } else {
                Seq::<GenError>::empty()
            };
            assert(validator_errors(pre, family) == validator_errors(vals.take(i2 - 1), family)
                + mis + dups);
            assert(errs@ =~= prev + mis + dups);
            assert(errs@ =~= san_errs + validator_errors(pre, family));
        }
    }
    proof {
        assert(vals.take(vals.len() as int) =~= vals);
    }
    let ghost val_errs = validator_errors(vals, family);

    // capabilities, duplicates collapsed, each decided by the table
    let mut seen: Vec<Capability> = Vec::new();
    let mut impls: Vec<CapabilityImpl> = Vec::new();
    let ghost caps = ns.capabilities@;
    let mut k: usize = 0;
    proof {
        assert(caps.take(0) =~= Seq::<Capability>::empty());
    }
    while k < ns.capabilities.len()
        invariant
            k <= caps.len(),
            caps == ns.capabilities@,
            family == ns.family,
            fallible == spec_fallible(ns),
            has_default == spec_has_default(ns),
            san_errs == sanitizer_errors(sans, family),
            val_errs == validator_errors(vals, family),
            seen@ == dedup_caps(caps.take(k as int)),
            impls@ == cap_impls_of(dedup_caps(caps.take(k as int)), fallible, has_default, family),
            errs@ == san_errs + val_errs + cap_errors_of(
                dedup_caps(caps.take(k as int)),
                fallible,
                has_default,
                family,
            ),
        decreases caps.len() - k,
    {
        let ghost prev_errs = errs@;
        let ghost prev_impls = impls@;
        let ghost prev_dedup = dedup_caps(caps.take(k as int));
        let c = ns.capabilities[k];
        let fresh = !caps_contain(&seen, c);
        if fresh {
            seen.push(c);
            match decide_capability(c, fallible, has_default, family) {
                Result::Ok(sh) => impls.push(CapabilityImpl { capability: c, shape: sh }),
                Result::Err(rej) => errs.push(GenError::Capability(c, rej)),
            }
        }
        k += 1;
        proof {
            let pre = caps.take(k as int);
            assert(pre.drop_last() =~= caps.take(k - 1));
            assert(pre.last() == caps[k - 1]);
            lemma_dedup_contains(caps.take(k - 1), c);
            if !fresh {
                assert(dedup_caps(pre) == prev_dedup);
            } else {
                assert(dedup_caps(pre) == prev_dedup.push(c));
                assert(prev_dedup.push(c).drop_last() =~= prev_dedup);
                assert(prev_dedup.push(c).last() == c);
                match cap_decision(c, fallible, has_default, family) {
                    Result::Ok(sh) => {
                        assert(impls@ =~= prev_impls + seq![
                            CapabilityImpl { capability: c, shape: sh },
                        ]);
                        assert(errs@ =~= prev_errs + Seq::<GenError>::empty());
                    },
                    Result::Err(rej) => {
                        assert(impls@ =~= prev_impls + Seq::<CapabilityImpl>::empty());
                        assert(errs@ =~= prev_errs + seq![GenError::Capability(c, rej)]);
                    },
                }
            }
            assert(errs@ =~= san_errs + val_errs + cap_errors_of(
                dedup_caps(pre),
                fallible,
                has_default,
                family,
            ));
        }
    }
    proof {
        assert(caps.take(caps.len() as int) =~= caps);
    }
    let ghost cap_errs = cap_errors_of(dedup_caps(caps), fallible, has_default, family);

    // the declared default value
    let ghost prev_errs = errs@;
    match &ns.default_value {
        Option::None => {},
        Option::Some(v) => {
            if !value_fits_family(v, family) {
                errs.push(GenError::DefaultKindMismatch);
            } else if fallible && guard_evaluable_check(&ns.guard, family) {
                let verdict: Option<ErrorVariant> = match v {
                    Value::Text(s) => {
                        let sanitized = sanitize_text_value(
                            &ns.guard.sanitizers,
                            &NoCustomOps,
                            s.clone(),
                        );
                        validate_text_value(&ns.guard.validators, &NoCustomOps, &sanitized)
                    },
                    Value::Numeric(x) => validate_num_value(
                        &ns.guard.validators,
                        &NoCustomOps,
                        family,
                        *x,
                    ),
                };
                match verdict {
                    Option::Some(e) => {
                        errs.push(GenError::DefaultValueRejected(e));
                    },
                    Option::None => {},
                }
            }
        },
    }
    proof {
        assert(errs@ =~= prev_errs + default_errors(ns));
        assert(errs@ =~= gen_errors(ns));
    }

    if errs.len() > 0 {
        return Result::Err(errs);
    }
    proof {
        assert(sanitizer_errors(sans, family).len() == 0);
        assert(validator_errors(vals, family).len() == 0);
        lemma_no_sanitizer_errors_means_fit(sans, family);
        lemma_no_validator_errors_means_fit(vals, family);
    }

    // assemble the artifact set
    let error_type: Option<ErrorTaxonomy> = if fallible {
        let name = match ns.error_type_name {
            Option::Some(n) => n,
            Option::None => ns.wrapper_name.clone().concat("Error"),
        };
        let mut variants: Vec<ErrorVariant> = Vec::new();
        let mut t: usize = 0;
        proof {
            assert(vals.take(0).map_values(|v: Validator| variant_of(v)) =~= Seq::<
                ErrorVariant,
            >::empty());
        }
        while t < ns.guard.validators.len()
            invariant
                t <= vals.len(),
                vals == ns.guard.validators@,
                variants@ == vals.take(t as int).map_values(|v: Validator| variant_of(v)),
            decreases vals.len() - t,
        {
            variants.push(variant_of_validator(&ns.guard.validators[t]));
            t += 1;
            proof {
                assert(variants@ =~= vals.take(t as int).map_values(|v: Validator| variant_of(v)));
            }
        }
        proof {
            assert(vals.take(vals.len() as int) =~= vals);
        }
        Option::Some(ErrorTaxonomy { name, variants })
    } else {
        Option::None
    };
    let constructor = if fallible {
        ConstructorKind::Fallible
    } else {
        ConstructorKind::Infallible
    };
    let self_check: Option<Value> = if fallible {
        ns.default_value
    } else {
        Option::None
    };
    Result::Ok(
        Artifacts {
            wrapper_name: ns.wrapper_name,
            family,
            sanitizers: ns.guard.sanitizers,
            validators: ns.guard.validators,
            constructor,
            error_type,
            capability_impls: impls,
            self_check,
        },
    )
}

// ----- laws of generation -----

/// A sanitizer list without kind-mismatch diagnostics fits the family.
pub proof fn lemma_no_sanitizer_errors_means_fit(rules: Seq<Sanitizer>, f: Family)
    requires
        sanitizer_errors(rules, f).len() == 0,
    ensures
        sanitizers_fit(rules, f),
    decreases rules.len(),
{
    if rules.len() > 0 {
        lemma_no_sanitizer_errors_means_fit(rules.drop_last(), f);
        assert forall|i: int| 0 <= i < rules.len() implies sanitizer_fits(
            #[trigger] rules[i],
            f,
        ) by {
            if i < rules.len() - 1 {
                assert(rules.drop_last()[i] == rules[i]);
            }
        }
    }
}

/// A validator list without kind-mismatch diagnostics fits the family.
pub proof fn lemma_no_validator_errors_means_fit(rules: Seq<Validator>, f: Family)
    requires
        validator_errors(rules, f).len() == 0,
    ensures
        validators_fit(rules, f),
    decreases rules.len(),
{
    if rules.len() > 0 {
        lemma_no_validator_errors_means_fit(rules.drop_last(), f);
        assert forall|i: int| 0 <= i < rules.len() implies validator_fits(
            #[trigger] rules[i],
            f,
        ) by {
            if i < rules.len() - 1 {
                assert(rules.drop_last()[i] == rules[i]);
            }
        }
    }
}

/// Collapsing duplicates keeps exactly the requested capabilities.
pub proof fn lemma_dedup_contains(caps: Seq<Capability>, c: Capability)
    ensures
        dedup_caps(caps).contains(c) == caps.contains(c),
    decreases caps.len(),
{
    if caps.len() > 0 {
        let init = caps.drop_last();
        lemma_dedup_contains(init, c);
        assert(caps.contains(c) == (init.contains(c) || caps.last() == c)) by {
            if caps.contains(c) {
                let j = choose|j: int| 0 <= j < caps.len() && caps[j] == c;
                if j < caps.len() - 1 {
                    assert(init[j] == c);
                }
            }
            if init.contains(c) {
                let j = choose|j: int| 0 <= j < init.len() && init[j] == c;
                assert(caps[j] == c);
            }
        }
        if !init.contains(caps.last()) {
            let d = dedup_caps(init);
            assert(d.push(caps.last()).contains(c) == (d.contains(c) || caps.last() == c)) by {
                if d.push(caps.last()).contains(c) {
                    let j = choose|j: int|
                        0 <= j < d.push(caps.last()).len() && d.push(caps.last())[j] == c;
                    if j < d.len() {
                        assert(d[j] == c);
                    }
                }
                if d.contains(c) {
                    let j = choose|j: int| 0 <= j < d.len() && d[j] == c;
                    assert(d.push(caps.last())[j] == c);
                }
                assert(d.push(caps.last())[d.len() as int] == caps.last());
            }
        }
    }
}

/// A capability that the table rejects leaves its diagnostic in the
/// collected list.
proof fn lemma_cap_error_member(
    list: Seq<Capability>,
    fallible: bool,
    has_default: bool,
    f: Family,
    c: Capability,
    rej: CapRejection,
)
    requires
        list.contains(c),
        cap_decision(c, fallible, has_default, f) == Result::<CapShape, CapRejection>::Err(rej),
    ensures
        cap_errors_of(list, fallible, has_default, f).contains(GenError::Capability(c, rej)),
    decreases list.len(),
{
    let all = cap_errors_of(list, fallible, has_default, f);
    let init = cap_errors_of(list.drop_last(), fallible, has_default, f);
    if list.last() == c {
        assert(all[init.len() as int] == GenError::Capability(c, rej));
    } else {
        let j = choose|j: int| 0 <= j < list.len() && list[j] == c;
        assert(list.drop_last()[j] == c);
        lemma_cap_error_member(list.drop_last(), fallible, has_default, f, c, rej);
        let idx = choose|idx: int|
            0 <= idx < init.len() && init[idx] == GenError::Capability(c, rej);
        assert(all[idx] == GenError::Capability(c, rej));
    }
}

/// Requesting construction-without-validation on a spec whose validator
/// list is not empty is a generation-time error, never silently ignored.
pub proof fn lemma_unvalidated_construction_rejected(s: NewtypeSpec)
    requires
        s.capabilities@.contains(Capability::FromInner),
        spec_fallible(s),
    ensures
        gen_errors(s).len() > 0,
        gen_errors(s).contains(
            GenError::Capability(Capability::FromInner, CapRejection::NeedsInfallible),
        ),
{
    lemma_dedup_contains(s.capabilities@, Capability::FromInner);
    lemma_cap_error_member(
        dedup_caps(s.capabilities@),
        spec_fallible(s),
        spec_has_default(s),
        s.family,
        Capability::FromInner,
        CapRejection::NeedsInfallible,
    );
    let a = sanitizer_errors(s.guard.sanitizers@, s.family);
    let b = validator_errors(s.guard.validators@, s.family);
    let ce = cap_errors_of(dedup_caps(s.capabilities@), spec_fallible(s), spec_has_default(s), s.family);
    let e = GenError::Capability(Capability::FromInner, CapRejection::NeedsInfallible);
    let idx = choose|idx: int| 0 <= idx < ce.len() && ce[idx] == e;
    assert(gen_errors(s)[a.len() + b.len() + idx] == e);
}

/// A declared default that fails its own validation is rejected at
/// generation time whenever the engine can run the guard itself.
pub proof fn lemma_invalid_default_rejected(s: NewtypeSpec, v: Value, e: ErrorVariant)
    requires
        s.default_value == Option::Some(v),
        value_fits(v, s.family),
        spec_fallible(s),
        guard_evaluable(s.guard, s.family),
        default_verdict(s.guard, v) == Option::Some(e),
    ensures
        gen_errors(s).len() > 0,
        gen_errors(s).contains(GenError::DefaultValueRejected(e)),
{
    let a = sanitizer_errors(s.guard.sanitizers@, s.family);
    let b = validator_errors(s.guard.validators@, s.family);
    let ce = cap_errors_of(dedup_caps(s.capabilities@), spec_fallible(s), spec_has_default(s), s.family);
    assert(default_errors(s) == seq![GenError::DefaultValueRejected(e)]);
    assert(gen_errors(s)[(a.len() + b.len() + ce.len()) as int] == GenError::DefaultValueRejected(
        e,
    ));
}

} // verus!
