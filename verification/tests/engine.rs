use nutype_core::capability::{CapRejection, CapShape, Capability};
use nutype_core::engine::{
    generate, Artifacts, ConstructorKind, GenError, NewtypeSpec,
};
use nutype_core::pipeline::{construct_num, construct_text, sanitize_text_value, NoCustomOps};
use nutype_core::rules::{
    CustomRule, ErrorVariant, Family, Guard, NumKind, Sanitizer, Validator, Value,
};
use nutype_core::text::{chars_to_string, lower_string, trim_string, upper_string};

fn spec_of(
    family: Family,
    sanitizers: Vec<Sanitizer>,
    validators: Vec<Validator>,
    capabilities: Vec<Capability>,
    default_value: Option<Value>,
) -> NewtypeSpec {
    NewtypeSpec {
        wrapper_name: "Name".to_string(),
        family,
        guard: Guard { sanitizers, validators },
        capabilities,
        default_value,
        error_type_name: None,
    }
}

fn ok_artifacts(ns: NewtypeSpec) -> Artifacts {
    match generate(ns) {
        Ok(a) => a,
        Err(es) => panic!("generation failed: {:?}", es),
    }
}

#[test]
fn empty_validators_give_infallible_constructor_and_no_error_type() {
    let a = ok_artifacts(spec_of(
        Family::Text,
        vec![Sanitizer::Trim],
        vec![],
        vec![Capability::Equality, Capability::Debugging],
        None,
    ));
    assert_eq!(a.constructor, ConstructorKind::Infallible);
    assert!(a.error_type.is_none());
    assert!(a.self_check.is_none());
}

#[test]
fn error_type_has_one_variant_per_validator_in_order() {
    let a = ok_artifacts(spec_of(
        Family::Text,
        vec![],
        vec![Validator::MinLen(1), Validator::MaxLen(5), Validator::Present],
        vec![],
        None,
    ));
    assert_eq!(a.constructor, ConstructorKind::Fallible);
    let taxonomy = a.error_type.expect("an error type is owed");
    assert_eq!(taxonomy.name, "NameError");
    assert_eq!(
        taxonomy.variants,
        vec![ErrorVariant::TooShort, ErrorVariant::TooLong, ErrorVariant::Missing]
    );
}

#[test]
fn error_type_name_override_is_kept() {
    let ns = NewtypeSpec {
        wrapper_name: "Age".to_string(),
        family: Family::Numeric(NumKind::U8),
        guard: Guard { sanitizers: vec![], validators: vec![Validator::RangeMin(18)] },
        capabilities: vec![],
        default_value: None,
        error_type_name: Some("AgeProblem".to_string()),
    };
    let a = ok_artifacts(ns);
    assert_eq!(a.error_type.expect("an error type is owed").name, "AgeProblem");
}

#[test]
fn sanitizing_twice_equals_sanitizing_once() {
    let steps = vec![Sanitizer::Trim, Sanitizer::Uppercase];
    let once = sanitize_text_value(&steps, &NoCustomOps, "  hello World ".to_string());
    let twice = sanitize_text_value(&steps, &NoCustomOps, once.clone());
    assert_eq!(once, "HELLO WORLD");
    assert_eq!(twice, once);
}

#[test]
fn conflicting_validators_report_the_first_declared() {
    let g = Guard {
        sanitizers: vec![],
        validators: vec![Validator::MinLen(6), Validator::MaxLen(3)],
    };
    assert_eq!(
        construct_text(&g, &NoCustomOps, "ab".to_string()),
        Err(ErrorVariant::TooShort)
    );
}

#[test]
fn invalid_default_is_rejected_at_generation_time() {
    let r = generate(spec_of(
        Family::Text,
        vec![],
        vec![Validator::Present],
        vec![],
        Some(Value::Text("".to_string())),
    ));
    assert_eq!(
        r.err().expect("generation must fail"),
        vec![GenError::DefaultValueRejected(ErrorVariant::Missing)]
    );
}

#[test]
fn valid_default_passes_and_emits_a_self_check() {
    let a = ok_artifacts(spec_of(
        Family::Text,
        vec![],
        vec![Validator::Present],
        vec![],
        Some(Value::Text("Julia".to_string())),
    ));
    match a.self_check {
        Some(Value::Text(s)) => assert_eq!(s, "Julia"),
        other => panic!("expected a text self-check, got {:?}", other),
    }
}

#[test]
fn construction_without_validation_is_rejected_when_validators_exist() {
    let r = generate(spec_of(
        Family::Text,
        vec![],
        vec![Validator::MaxLen(5)],
        vec![Capability::FromInner],
        None,
    ));
    assert_eq!(
        r.err().expect("generation must fail"),
        vec![GenError::Capability(Capability::FromInner, CapRejection::NeedsInfallible)]
    );
}

#[test]
fn construction_without_validation_is_granted_without_validators() {
    let a = ok_artifacts(spec_of(
        Family::Text,
        vec![Sanitizer::Trim],
        vec![],
        vec![Capability::FromInner],
        None,
    ));
    assert_eq!(a.capability_impls.len(), 1);
    assert_eq!(a.capability_impls[0].capability, Capability::FromInner);
    assert_eq!(a.capability_impls[0].shape, CapShape::ViaConstructor);
}

#[test]
fn end_to_end_trim_then_max_len() {
    let ns = spec_of(
        Family::Text,
        vec![Sanitizer::Trim],
        vec![Validator::MaxLen(5)],
        vec![Capability::Equality],
        None,
    );
    let a = ok_artifacts(ns);
    let g = Guard { sanitizers: a.sanitizers, validators: a.validators };
    assert_eq!(
        construct_text(&g, &NoCustomOps, "Anton".to_string()),
        Ok("Anton".to_string())
    );
    assert_eq!(
        construct_text(&g, &NoCustomOps, "Serhii".to_string()),
        Err(ErrorVariant::TooLong)
    );
}

#[test]
fn numeric_range_guard() {
    let g = Guard {
        sanitizers: vec![],
        validators: vec![Validator::RangeMin(18), Validator::RangeMax(99)],
    };
    let f = Family::Numeric(NumKind::U8);
    assert_eq!(construct_num(&g, &NoCustomOps, f, 17), Err(ErrorVariant::TooSmall));
    assert_eq!(construct_num(&g, &NoCustomOps, f, 150), Err(ErrorVariant::TooBig));
    assert_eq!(construct_num(&g, &NoCustomOps, f, 42), Ok(42));
}

#[test]
fn mismatched_rule_kinds_are_all_collected() {
    let r = generate(spec_of(
        Family::Numeric(NumKind::I32),
        vec![Sanitizer::Trim],
        vec![Validator::MaxLen(5)],
        vec![],
        None,
    ));
    assert_eq!(
        r.err().expect("generation must fail"),
        vec![
            GenError::SanitizerKindMismatch(0),
            GenError::ValidatorKindMismatch(0),
        ]
    );
}

#[test]
fn custom_rule_with_mismatched_declared_kind_is_an_error() {
    let r = generate(spec_of(
        Family::Text,
        vec![Sanitizer::Transform(CustomRule {
            name: "halve".to_string(),
            declared: Some(Family::Numeric(NumKind::U64)),
        })],
        vec![],
        vec![],
        None,
    ));
    assert_eq!(
        r.err().expect("generation must fail"),
        vec![GenError::SanitizerKindMismatch(0)]
    );
}

#[test]
fn duplicate_validators_are_an_error() {
    let r = generate(spec_of(
        Family::Text,
        vec![],
        vec![Validator::MinLen(1), Validator::MinLen(2)],
        vec![],
        None,
    ));
    assert_eq!(
        r.err().expect("generation must fail"),
        vec![GenError::DuplicateValidator(1)]
    );
}

#[test]
fn default_of_the_wrong_kind_is_an_error() {
    let r = generate(spec_of(
        Family::Text,
        vec![],
        vec![],
        vec![],
        Some(Value::Numeric(5)),
    ));
    assert_eq!(r.err().expect("generation must fail"), vec![GenError::DefaultKindMismatch]);
}

#[test]
fn copying_is_rejected_for_the_string_family() {
    let r = generate(spec_of(Family::Text, vec![], vec![], vec![Capability::Copying], None));
    assert_eq!(
        r.err().expect("generation must fail"),
        vec![GenError::Capability(Capability::Copying, CapRejection::NotForFamily)]
    );
}

#[test]
fn default_capability_needs_a_declared_default() {
    let r = generate(spec_of(
        Family::Text,
        vec![],
        vec![],
        vec![Capability::DefaultValue],
        None,
    ));
    assert_eq!(
        r.err().expect("generation must fail"),
        vec![GenError::Capability(Capability::DefaultValue, CapRejection::NeedsDefault)]
    );
}

#[test]
fn default_capability_fails_fast_under_validation() {
    let a = ok_artifacts(spec_of(
        Family::Text,
        vec![],
        vec![Validator::Present],
        vec![Capability::DefaultValue],
        Some(Value::Text("Julia".to_string())),
    ));
    assert_eq!(a.capability_impls.len(), 1);
    assert_eq!(a.capability_impls[0].shape, CapShape::ViaConstructorFailFast);
    match a.self_check {
        Some(Value::Text(s)) => assert_eq!(s, "Julia"),
        other => panic!("expected a text self-check, got {:?}", other),
    }
}

#[test]
fn duplicate_capability_requests_collapse() {
    let a = ok_artifacts(spec_of(
        Family::Text,
        vec![],
        vec![],
        vec![Capability::Equality, Capability::Equality, Capability::Ordering],
        None,
    ));
    assert_eq!(a.capability_impls.len(), 2);
    assert_eq!(a.capability_impls[0].capability, Capability::Equality);
    assert_eq!(a.capability_impls[1].capability, Capability::Ordering);
}

/// Resolves the user-supplied rules of the tests below: a predicate that
/// never accepts, and a numeric transformation that halves its argument.
struct PredicateOps;

impl nutype_core::pipeline::CustomOps for PredicateOps {
    fn transform_text(&self, _name: &String, v: String) -> String {
        v
    }

    fn check_text(&self, name: &String, _v: &String) -> bool {
        name.as_str() != "reject_everything"
    }

    fn transform_num(&self, name: &String, v: i128) -> i128 {
        if name.as_str() == "halve" {
            v / 2
        } else {
            v
        }
    }

    fn check_num(&self, _name: &String, _v: i128) -> bool {
        true
    }
}

#[test]
fn failing_predicate_reports_its_own_variant() {
    let g = Guard {
        sanitizers: vec![],
        validators: vec![Validator::Predicate(CustomRule {
            name: "reject_everything".to_string(),
            declared: None,
        })],
    };
    assert_eq!(
        construct_text(&g, &PredicateOps, "anything".to_string()),
        Err(ErrorVariant::PredicateViolated)
    );
}

#[test]
fn numeric_custom_transform_runs_before_validation() {
    let g = Guard {
        sanitizers: vec![Sanitizer::Transform(CustomRule {
            name: "halve".to_string(),
            declared: Some(Family::Numeric(NumKind::I64)),
        })],
        validators: vec![Validator::RangeMax(50)],
    };
    let f = Family::Numeric(NumKind::I64);
    assert_eq!(construct_num(&g, &PredicateOps, f, 80), Ok(40));
    assert_eq!(construct_num(&g, &PredicateOps, f, 200), Err(ErrorVariant::TooBig));
}

#[test]
fn text_primitives_match_their_contracts() {
    assert_eq!(trim_string(&" \u{2009}a b\u{00A0}".to_string()), "a b");
    assert_eq!(lower_string(&"Grüße 123 ABC".to_string()), "grüße 123 abc");
    assert_eq!(upper_string(&"Grüße 123 abc".to_string()), "GRüßE 123 ABC");
    assert_eq!(chars_to_string(&vec!['a', 'b', 'c']), "abc");
}
