use nutype_core::pipeline::{construct_text, CustomOps, NoCustomOps};
use nutype_core::rules::{CustomRule, ErrorVariant, Family, Guard, Sanitizer, Validator};

/// Resolves the user-supplied rules these tests declare: a few named
/// transformations of string values.
struct TestOps;

impl CustomOps for TestOps {
    fn transform_text(&self, name: &String, v: String) -> String {
        match name.as_str() {
            "trim_and_uppercase" => v.trim().to_uppercase(),
            "sanitize_name" => v.trim().to_uppercase(),
            "take_second_and_third" => v[1..=2].to_string(),
            _ => v,
        }
    }

    fn check_text(&self, _name: &String, _v: &String) -> bool {
        true
    }

    fn transform_num(&self, _name: &String, v: i128) -> i128 {
        v
    }

    fn check_num(&self, _name: &String, _v: i128) -> bool {
        true
    }
}

fn guard(sanitizers: Vec<Sanitizer>, validators: Vec<Validator>) -> Guard {
    Guard { sanitizers, validators }
}

fn custom(name: &str, declared: Option<Family>) -> Sanitizer {
    Sanitizer::Transform(CustomRule { name: name.to_string(), declared })
}

#[test]
fn test_trim() {
    let g = guard(vec![Sanitizer::Trim], vec![]);
    assert_eq!(construct_text(&g, &NoCustomOps, "".to_string()), Ok("".to_string()));
    assert_eq!(construct_text(&g, &NoCustomOps, "\n\t ".to_string()), Ok("".to_string()));
    assert_eq!(construct_text(&g, &NoCustomOps, " ! ".to_string()), Ok("!".to_string()));
    assert_eq!(
        construct_text(&g, &NoCustomOps, " foo \n bar ".to_string()),
        Ok("foo \n bar".to_string())
    );
}

#[test]
fn test_lowercase() {
    let g = guard(vec![Sanitizer::Lowercase], vec![]);
    assert_eq!(construct_text(&g, &NoCustomOps, "".to_string()), Ok("".to_string()));
    assert_eq!(
        construct_text(&g, &NoCustomOps, "Hello THERE".to_string()),
        Ok("hello there".to_string())
    );
}

#[test]
fn test_uppercase() {
    let g = guard(vec![Sanitizer::Uppercase], vec![]);
    assert_eq!(construct_text(&g, &NoCustomOps, "".to_string()), Ok("".to_string()));
    assert_eq!(
        construct_text(&g, &NoCustomOps, "Hello THERE".to_string()),
        Ok("HELLO THERE".to_string())
    );
}

#[test]
fn test_with_closure_with_explicit_type() {
    let g = guard(vec![custom("trim_and_uppercase", Some(Family::Text))], vec![]);
    assert_eq!(
        construct_text(&g, &TestOps, " Anton\n\n".to_string()),
        Ok("ANTON".to_string())
    );
}

#[test]
fn test_closure_with_no_type() {
    let g = guard(vec![custom("trim_and_uppercase", None)], vec![]);
    assert_eq!(
        construct_text(&g, &TestOps, " Anton\n\n".to_string()),
        Ok("ANTON".to_string())
    );
}

#[test]
fn test_with_function() {
    let g = guard(vec![custom("sanitize_name", None)], vec![]);
    assert_eq!(
        construct_text(&g, &TestOps, " Anton\n\n".to_string()),
        Ok("ANTON".to_string())
    );
}

#[test]
fn test_many_sanitizers() {
    let g = guard(
        vec![
            Sanitizer::Trim,
            Sanitizer::Uppercase,
            custom("take_second_and_third", None),
        ],
        vec![],
    );
    assert_eq!(
        construct_text(&g, &TestOps, " Deutschland ".to_string()),
        Ok("EU".to_string())
    );
}

#[test]
fn test_max_len() {
    let g = guard(vec![], vec![Validator::MaxLen(5)]);
    assert_eq!(
        construct_text(&g, &NoCustomOps, "Anton".to_string()),
        Ok("Anton".to_string())
    );
    assert_eq!(
        construct_text(&g, &NoCustomOps, "Serhii".to_string()),
        Err(ErrorVariant::TooLong)
    );
}

#[test]
fn test_min_len() {
    let g = guard(vec![], vec![Validator::MinLen(6)]);
    assert_eq!(
        construct_text(&g, &NoCustomOps, "Anton".to_string()),
        Err(ErrorVariant::TooShort)
    );
    assert_eq!(
        construct_text(&g, &NoCustomOps, "Serhii".to_string()),
        Ok("Serhii".to_string())
    );
}

#[test]
fn test_present() {
    let g = guard(vec![], vec![Validator::Present]);
    assert_eq!(
        construct_text(&g, &NoCustomOps, "".to_string()),
        Err(ErrorVariant::Missing)
    );
    assert_eq!(construct_text(&g, &NoCustomOps, " ".to_string()), Ok(" ".to_string()));
    assert_eq!(
        construct_text(&g, &NoCustomOps, "Julia".to_string()),
        Ok("Julia".to_string())
    );
}

#[test]
fn test_many_validators() {
    let g = guard(vec![], vec![Validator::MinLen(1), Validator::MaxLen(6)]);
    assert_eq!(
        construct_text(&g, &NoCustomOps, "Friedrich".to_string()),
        Err(ErrorVariant::TooLong)
    );
    assert_eq!(
        construct_text(&g, &NoCustomOps, "".to_string()),
        Err(ErrorVariant::TooShort)
    );
    assert_eq!(
        construct_text(&g, &NoCustomOps, "Julia".to_string()),
        Ok("Julia".to_string())
    );
}

#[test]
fn test_sanitizers_and_validators() {
    let g = guard(
        vec![Sanitizer::Trim, Sanitizer::Uppercase],
        vec![Validator::Present, Validator::MaxLen(6)],
    );
    assert_eq!(
        construct_text(&g, &NoCustomOps, "    ".to_string()),
        Err(ErrorVariant::Missing)
    );
    assert_eq!(
        construct_text(&g, &NoCustomOps, "Willy Brandt".to_string()),
        Err(ErrorVariant::TooLong)
    );
    assert_eq!(
        construct_text(&g, &NoCustomOps, "   Brandt  ".to_string()),
        Ok("BRANDT".to_string())
    );
}
