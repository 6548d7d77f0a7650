use user_crud::validation_chain::CountOutcome;
use user_crud::validation_chain::Rule;
use user_crud::validation_chain::RuleKind;
use user_crud::validation_chain::ValidateStep;
use user_crud::validation_chain::ValidationChain;

fn fields(pairs: &[(&str, &str)]) -> Vec<(String, String)> {
    pairs.iter().map(|(f, v)| (f.to_string(), v.to_string())).collect()
}

fn done_err(step: ValidateStep) -> String {
    match step {
        ValidateStep::Done(Err(m)) => m,
        ValidateStep::Done(Ok(())) => panic!("expected a validation error, got success"),
        ValidateStep::NeedCount { .. } => panic!("expected a verdict, got a count request"),
    }
}

fn done_ok(step: ValidateStep) {
    match step {
        ValidateStep::Done(Ok(())) => {}
        ValidateStep::Done(Err(m)) => panic!("expected success, got: {}", m),
        ValidateStep::NeedCount { .. } => panic!("expected a verdict, got a count request"),
    }
}

#[test]
fn required_failure_names_the_field() {
    let mut chain = ValidationChain::new();
    chain.add_rule("username", "required", None);
    let step = chain.validate(&fields(&[("username", "")]), "users", &vec![]);
    assert_eq!(done_err(step), "username is required");
}

#[test]
fn min_length_failure_cites_the_bound() {
    let mut chain = ValidationChain::new();
    chain.add_rule("username", "required", None);
    chain.add_rule("username", "min_length", Some("3"));
    let step = chain.validate(&fields(&[("username", "ab")]), "users", &vec![]);
    assert_eq!(done_err(step), "username must be at least 3 characters long");
}

#[test]
fn max_length_failure_cites_the_bound() {
    let mut chain = ValidationChain::new();
    chain.add_rule("username", "max_length", Some("5"));
    let step = chain.validate(&fields(&[("username", "abcdef")]), "users", &vec![]);
    assert_eq!(done_err(step), "username must be at most 5 characters long");
}

#[test]
fn malformed_min_length_parameter_is_a_configuration_error() {
    let mut chain = ValidationChain::new();
    chain.add_rule("username", "min_length", Some("three"));
    let step = chain.validate(&fields(&[("username", "abcdef")]), "users", &vec![]);
    assert_eq!(done_err(step), "Invalid min_length value for username");
}

#[test]
fn malformed_max_length_parameter_is_a_configuration_error() {
    let mut chain = ValidationChain::new();
    chain.add_rule("f", "max_length", Some("9999999999999999999999999"));
    let step = chain.validate(&fields(&[("f", "x")]), "users", &vec![]);
    assert_eq!(done_err(step), "Invalid max_length value for f");
}

#[test]
fn missing_length_parameter_is_skipped() {
    let mut chain = ValidationChain::new();
    chain.add_rule("f", "min_length", None);
    chain.add_rule("f", "max_length", None);
    done_ok(chain.validate(&fields(&[("f", "x")]), "users", &vec![]));
}

#[test]
fn email_format_failure() {
    let mut chain = ValidationChain::new();
    chain.add_rule("email", "email", None);
    let step = chain.validate(&fields(&[("email", "not-an-email")]), "users", &vec![]);
    assert_eq!(done_err(step), "email is not a valid email");
}

#[test]
fn password_missing_uppercase_is_reported_first() {
    let mut chain = ValidationChain::new();
    chain.add_rule("password", "contains", None);
    let step = chain.validate(&fields(&[("password", "alllowercase1")]), "users", &vec![]);
    assert_eq!(done_err(step), "password must contain an uppercase letter");
}

#[test]
fn password_categories_are_checked_in_order() {
    let mut chain = ValidationChain::new();
    chain.add_rule("password", "contains", None);
    let lower = chain.validate(&fields(&[("password", "ALLUPPER1!")]), "users", &vec![]);
    assert_eq!(done_err(lower), "password must contain a lowercase letter");
    let number = chain.validate(&fields(&[("password", "NoDigits!")]), "users", &vec![]);
    assert_eq!(done_err(number), "password must contain a number");
    let special = chain.validate(&fields(&[("password", "NoSymbol1")]), "users", &vec![]);
    assert_eq!(done_err(special), "password must contain a special character");
    done_ok(chain.validate(&fields(&[("password", "Str0ng!pw")]), "users", &vec![]));
}

#[test]
fn phone_failure_names_the_field() {
    let mut chain = ValidationChain::new();
    chain.add_rule("phone", "phone", None);
    let step = chain.validate(&fields(&[("phone", "0123456789")]), "users", &vec![]);
    assert_eq!(done_err(step), "phone is not a valid phone number");
}

#[test]
fn unknown_rule_names_pass() {
    let mut chain = ValidationChain::new();
    chain.add_rule("f", "sparkles", None);
    done_ok(chain.validate(&fields(&[("f", "")]), "users", &vec![]));
}

#[test]
fn field_without_rules_passes() {
    let chain = ValidationChain::new();
    done_ok(chain.validate(&fields(&[("anything", "")]), "users", &vec![]));
}

#[test]
fn unique_rule_requests_the_count_query() {
    let mut chain = ValidationChain::new();
    chain.add_rule("email", "unique", None);
    let step = chain.validate(&fields(&[("email", "a@b.com")]), "users", &vec![]);
    match step {
        ValidateStep::NeedCount { query, value } => {
            assert_eq!(query, "SELECT COUNT(*) FROM users WHERE email = ?");
            assert_eq!(value, "a@b.com");
        }
        _ => panic!("expected a count request"),
    }
}

#[test]
fn unique_rule_rejects_a_positive_count() {
    let mut chain = ValidationChain::new();
    chain.add_rule("email", "unique", None);
    let step = chain.validate(
        &fields(&[("email", "a@b.com")]),
        "users",
        &vec![CountOutcome::Count(1)],
    );
    assert_eq!(done_err(step), "email is already taken");
}

#[test]
fn unique_rule_accepts_a_zero_count() {
    let mut chain = ValidationChain::new();
    chain.add_rule("email", "unique", None);
    let step = chain.validate(
        &fields(&[("email", "a@b.com")]),
        "users",
        &vec![CountOutcome::Count(0)],
    );
    done_ok(step);
}

#[test]
fn unique_rule_reports_a_store_failure() {
    let mut chain = ValidationChain::new();
    chain.add_rule("email", "unique", None);
    let step = chain.validate(
        &fields(&[("email", "a@b.com")]),
        "users",
        &vec![CountOutcome::StoreError],
    );
    assert_eq!(done_err(step), "Failed to check uniqueness of email");
}

#[test]
fn validate_fails_fast_across_fields() {
    let mut chain = ValidationChain::new();
    chain.add_rule("a", "required", None);
    chain.add_rule("b", "required", None);
    let step = chain.validate(&fields(&[("a", ""), ("b", "")]), "users", &vec![]);
    assert_eq!(done_err(step), "a is required");
}

#[test]
fn validate_fields_recursive_collects_and_joins_errors() {
    let mut chain = ValidationChain::new();
    chain.add_rule("a", "required", None);
    chain.add_rule("b", "required", None);
    let step = chain.validate_fields_recursive(&fields(&[("a", ""), ("b", "")]), "users", &vec![]);
    assert_eq!(done_err(step), "a is required; b is required");
}

#[test]
fn within_a_field_only_the_first_failure_is_reported() {
    let mut chain = ValidationChain::new();
    chain.add_rule("a", "required", None);
    chain.add_rule("a", "min_length", Some("3"));
    let step = chain.validate_fields_recursive(&fields(&[("a", "")]), "users", &vec![]);
    assert_eq!(done_err(step), "a is required");
}

#[test]
fn duplicate_rules_are_kept_and_evaluated_redundantly() {
    let mut chain = ValidationChain::new();
    chain.add_rule("a", "min_length", Some("3"));
    chain.add_rule("a", "min_length", Some("5"));
    let rules: Vec<Rule> = chain.get_rules("a").expect("rules were registered");
    assert_eq!(rules.len(), 2);
    assert!(matches!(rules[0].kind, RuleKind::MinLength));
    assert_eq!(rules[0].param.as_deref(), Some("3"));
    assert_eq!(rules[1].param.as_deref(), Some("5"));
    // a four-character value passes the first bound and fails the second
    let step = chain.validate(&fields(&[("a", "abcd")]), "users", &vec![]);
    assert_eq!(done_err(step), "a must be at least 5 characters long");
}

#[test]
fn get_rules_is_empty_for_an_unknown_field() {
    let mut chain = ValidationChain::new();
    chain.add_rule("a", "required", None);
    assert!(chain.get_rules("b").is_none());
}
