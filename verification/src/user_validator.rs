//! The rule sets for the user record and the two validation entry points.
//! Creation checks email uniqueness against the store; update does not, so
//! updating needs no store lookup at all.

use vstd::prelude::*;
use vstd::string::StrSliceExecFns;
use vstd::string::StringExecFns;

use crate::schema::CreateUpdateUserSchema;
use crate::text::join_with;
use crate::validation_chain::chain_has_no_unique;
use crate::validation_chain::eval_fields;
use crate::validation_chain::fields_model;
use crate::validation_chain::kind_of_name;
use crate::validation_chain::lemma_eval_fields_no_unique;
use crate::validation_chain::validate_model;
use crate::validation_chain::CountOutcome;
use crate::validation_chain::rules_for;
use crate::validation_chain::RecordRun;
use crate::validation_chain::RuleKind;
use crate::validation_chain::RuleModel;
use crate::validation_chain::StepModel;
use crate::validation_chain::ValidateStep;
use crate::validation_chain::ValidationChain;

verus! {

/// The registry used when creating a user: the email must be unused.
pub open spec fn create_chain_model() -> Seq<(Seq<char>, RuleModel)> {
    seq![
        ("username"@, RuleModel { kind: RuleKind::Required, param: None }),
        ("username"@, RuleModel { kind: RuleKind::MinLength, param: Some("3"@) }),
        ("username"@, RuleModel { kind: RuleKind::MaxLength, param: Some("20"@) }),
        ("email"@, RuleModel { kind: RuleKind::Required, param: None }),
        ("email"@, RuleModel { kind: RuleKind::MinLength, param: Some("5"@) }),
        ("email"@, RuleModel { kind: RuleKind::MaxLength, param: Some("50"@) }),
        ("email"@, RuleModel { kind: RuleKind::Email, param: None }),
        ("email"@, RuleModel { kind: RuleKind::Unique, param: None }),
        ("password"@, RuleModel { kind: RuleKind::Required, param: None }),
        ("password"@, RuleModel { kind: RuleKind::MinLength, param: Some("8"@) }),
        ("password"@, RuleModel { kind: RuleKind::Contains, param: None }),
        ("phone"@, RuleModel { kind: RuleKind::Required, param: None }),
        ("phone"@, RuleModel { kind: RuleKind::MinLength, param: Some("10"@) }),
        ("phone"@, RuleModel { kind: RuleKind::MaxLength, param: Some("15"@) }),
        ("phone"@, RuleModel { kind: RuleKind::Phone, param: None }),
    ]
}

/// The registry used when updating a user: as for creation, but without the
/// email uniqueness rule.
pub open spec fn update_chain_model() -> Seq<(Seq<char>, RuleModel)> {
    seq![
        ("username"@, RuleModel { kind: RuleKind::Required, param: None }),
        ("username"@, RuleModel { kind: RuleKind::MinLength, param: Some("3"@) }),
        ("username"@, RuleModel { kind: RuleKind::MaxLength, param: Some("20"@) }),
        ("email"@, RuleModel { kind: RuleKind::Required, param: None }),
        ("email"@, RuleModel { kind: RuleKind::MinLength, param: Some("5"@) }),
        ("email"@, RuleModel { kind: RuleKind::MaxLength, param: Some("50"@) }),
        ("email"@, RuleModel { kind: RuleKind::Email, param: None }),
        ("password"@, RuleModel { kind: RuleKind::Required, param: None }),
        ("password"@, RuleModel { kind: RuleKind::MinLength, param: Some("8"@) }),
        ("password"@, RuleModel { kind: RuleKind::Contains, param: None }),
        ("phone"@, RuleModel { kind: RuleKind::Required, param: None }),
        ("phone"@, RuleModel { kind: RuleKind::MinLength, param: Some("10"@) }),
        ("phone"@, RuleModel { kind: RuleKind::MaxLength, param: Some("15"@) }),
        ("phone"@, RuleModel { kind: RuleKind::Phone, param: None }),
    ]
}

/// The submitted record in evaluation order: username, email, password,
/// phone.
pub open spec fn record_fields(
    username: Seq<char>,
    email: Seq<char>,
    password: Seq<char>,
    phone: Seq<char>,
) -> Seq<(Seq<char>, Seq<char>)> {
    seq![
        ("username"@, username),
        ("email"@, email),
        ("password"@, password),
        ("phone"@, phone),
    ]
}

proof fn lemma_rule_names_distinct()
    ensures
        kind_of_name("required"@) == RuleKind::Required,
        kind_of_name("min_length"@) == RuleKind::MinLength,
        kind_of_name("max_length"@) == RuleKind::MaxLength,
        kind_of_name("email"@) == RuleKind::Email,
        kind_of_name("contains"@) == RuleKind::Contains,
        kind_of_name("unique"@) == RuleKind::Unique,
        kind_of_name("phone"@) == RuleKind::Phone,
{
    reveal_strlit("required");
    reveal_strlit("min_length");
    reveal_strlit("max_length");
    reveal_strlit("email");
    reveal_strlit("contains");
    reveal_strlit("unique");
    reveal_strlit("phone");
    assert("required"@.len() == 8);
    assert("min_length"@.len() == 10);
    assert("max_length"@.len() == 10);
    assert("email"@.len() == 5);
    assert("contains"@.len() == 8);
    assert("unique"@.len() == 6);
    assert("phone"@.len() == 5);
    assert("min_length"@[0] == 'm' && "max_length"@[0] == 'm');
    assert("min_length"@[1] == 'i' && "max_length"@[1] == 'a');
    assert("contains"@[0] == 'c' && "required"@[0] == 'r');
    assert("phone"@[0] == 'p' && "email"@[0] == 'e');
}

/// Builds the creation registry.
pub fn create_rule_chain() -> (c: ValidationChain)
    ensures
        c@ == create_chain_model(),
{
    let mut c = ValidationChain::new();
    c.add_rule("username", "required", None);
    c.add_rule("username", "min_length", Some("3"));
    c.add_rule("username", "max_length", Some("20"));
    c.add_rule("email", "required", None);
    c.add_rule("email", "min_length", Some("5"));
    c.add_rule("email", "max_length", Some("50"));
    c.add_rule("email", "email", None);
    c.add_rule("email", "unique", None);
    c.add_rule("password", "required", None);
    c.add_rule("password", "min_length", Some("8"));
    c.add_rule("password", "contains", None);
    c.add_rule("phone", "required", None);
    c.add_rule("phone", "min_length", Some("10"));
    c.add_rule("phone", "max_length", Some("15"));
    c.add_rule("phone", "phone", None);
    proof {
        lemma_rule_names_distinct();
        assert(c@ =~= create_chain_model());
    }
    c
}

/// Builds the update registry.
pub fn update_rule_chain() -> (c: ValidationChain)
    ensures
        c@ == update_chain_model(),
{
    let mut c = ValidationChain::new();
    c.add_rule("username", "required", None);
    c.add_rule("username", "min_length", Some("3"));
    c.add_rule("username", "max_length", Some("20"));
    c.add_rule("email", "required", None);
    c.add_rule("email", "min_length", Some("5"));
    c.add_rule("email", "max_length", Some("50"));
    c.add_rule("email", "email", None);
    c.add_rule("password", "required", None);
    c.add_rule("password", "min_length", Some("8"));
    c.add_rule("password", "contains", None);
    c.add_rule("phone", "required", None);
    c.add_rule("phone", "min_length", Some("10"));
    c.add_rule("phone", "max_length", Some("15"));
    c.add_rule("phone", "phone", None);
    proof {
        lemma_rule_names_distinct();
        assert(c@ =~= update_chain_model());
    }
    c
}

fn record_fields_vec(body: &CreateUpdateUserSchema) -> (fv: Vec<(String, String)>)
    ensures
        fields_model(fv@) == record_fields(body.username@, body.email@, body.password@, body.phone@),
{
    let mut fv: Vec<(String, String)> = Vec::new();
    fv.push(("username".to_owned(), body.username.clone()));
    fv.push(("email".to_owned(), body.email.clone()));
    fv.push(("password".to_owned(), body.password.clone()));
    fv.push(("phone".to_owned(), body.phone.clone()));
    proof {
        assert(fields_model(fv@) =~= record_fields(
            body.username@,
            body.email@,
            body.password@,
            body.phone@,
        ));
    }
    fv
}

/// Validates a record for creation against the supplied count outcomes:
/// either the count query to run next, or the verdict.
pub fn create_validation(body: &CreateUpdateUserSchema, counts: &Vec<CountOutcome>) -> (r:
    ValidateStep)
    ensures
        r@ == validate_model(
            create_chain_model(),
            record_fields(body.username@, body.email@, body.password@, body.phone@),
            "users"@,
            counts@,
            false,
        ),
{
    let chain = create_rule_chain();
    let fields_values = record_fields_vec(body);
    chain.validate_fields_recursive(&fields_values, "users", counts)
}

/// The verdict updating a record gets: every field's first failure collected
/// and joined with "; ". No store outcome is involved: the update registry
/// has no uniqueness rule.
pub open spec fn update_validation_verdict(
    username: Seq<char>,
    email: Seq<char>,
    password: Seq<char>,
    phone: Seq<char>,
) -> Result<(), Seq<char>> {
    match eval_fields(
        update_chain_model(),
        record_fields(username, email, password, phone),
        Seq::<CountOutcome>::empty(),
        false,
    ) {
        RecordRun::Fin { errors, .. } => if errors.len() == 0 {
            Ok(())
        } else {
            Err(join_with(errors, "; "@))
        },
        RecordRun::Need { .. } => Ok(()),
    }
}

/// No rule of the update registry is the uniqueness rule.
pub proof fn lemma_update_chain_no_unique()
    ensures
        chain_has_no_unique(update_chain_model()),
{
}

/// Law: updating never consults the store — against the update registry a
/// validation run completes for any supplied outcomes, with a verdict that
/// does not depend on them.
pub proof fn lemma_update_validation_ignores_store(
    username: Seq<char>,
    email: Seq<char>,
    password: Seq<char>,
    phone: Seq<char>,
    counts: Seq<CountOutcome>,
)
    ensures
        eval_fields(
            update_chain_model(),
            record_fields(username, email, password, phone),
            counts,
            false,
        ) is Fin,
        eval_fields(
            update_chain_model(),
            record_fields(username, email, password, phone),
            counts,
            false,
        ) == eval_fields(
            update_chain_model(),
            record_fields(username, email, password, phone),
            Seq::<CountOutcome>::empty(),
            false,
        ),
{
    lemma_update_chain_no_unique();
    lemma_eval_fields_no_unique(
        update_chain_model(),
        record_fields(username, email, password, phone),
        counts,
        false,
    );
}

/// Validates a record for update. The update registry never needs the store,
/// so the verdict is returned directly.
pub fn update_validation(body: &CreateUpdateUserSchema) -> (r: Result<(), String>)
    ensures
        (match r {
            Ok(_) => update_validation_verdict(
                body.username@,
                body.email@,
                body.password@,
                body.phone@,
            ) is Ok,
            Err(m) => update_validation_verdict(
                body.username@,
                body.email@,
                body.password@,
                body.phone@,
            ) == Err::<(), Seq<char>>(m@),
        }),
{
    let chain = update_rule_chain();
    let fields_values = record_fields_vec(body);
    let counts: Vec<CountOutcome> = Vec::new();
    proof {
        assert(counts@ =~= Seq::<CountOutcome>::empty());
        lemma_update_validation_ignores_store(
            body.username@,
            body.email@,
            body.password@,
            body.phone@,
            counts@,
        );
    }
    let step = chain.validate_fields_recursive(&fields_values, "users", &counts);
    match step {
        ValidateStep::Done(res) => res,
        ValidateStep::NeedCount { .. } => {
            proof {
                assert(false);
            }
            Ok(())
        },
    }
}

} // verus!

// ---------------------------------------------------------------------------
// Laws of the user rule sets.
// ---------------------------------------------------------------------------

verus! {

proof fn lemma_field_names_distinct()
    ensures
        "username"@ != "email"@,
        "username"@ != "password"@,
        "username"@ != "phone"@,
        "email"@ != "password"@,
        "email"@ != "phone"@,
        "password"@ != "phone"@,
{
    reveal_strlit("username");
    reveal_strlit("email");
    reveal_strlit("password");
    reveal_strlit("phone");
    assert("username"@.len() == 8);
    assert("email"@.len() == 5);
    assert("password"@.len() == 8);
    assert("phone"@.len() == 5);
    assert("username"@[0] == 'u' && "password"@[0] == 'p');
    assert("email"@[0] == 'e' && "phone"@[0] == 'p');
}

proof fn lemma_create_rules()
    ensures
        rules_for(create_chain_model(), "username"@) =~= seq![
            (RuleModel { kind: RuleKind::Required, param: None }),
            (RuleModel { kind: RuleKind::MinLength, param: Some("3"@) }),
            (RuleModel { kind: RuleKind::MaxLength, param: Some("20"@) }),
        ],
        rules_for(create_chain_model(), "email"@) =~= seq![
            (RuleModel { kind: RuleKind::Required, param: None }),
            (RuleModel { kind: RuleKind::MinLength, param: Some("5"@) }),
            (RuleModel { kind: RuleKind::MaxLength, param: Some("50"@) }),
            (RuleModel { kind: RuleKind::Email, param: None }),
            (RuleModel { kind: RuleKind::Unique, param: None }),
        ],
        rules_for(create_chain_model(), "password"@) =~= seq![
            (RuleModel { kind: RuleKind::Required, param: None }),
            (RuleModel { kind: RuleKind::MinLength, param: Some("8"@) }),
            (RuleModel { kind: RuleKind::Contains, param: None }),
        ],
        rules_for(create_chain_model(), "phone"@) =~= seq![
            (RuleModel { kind: RuleKind::Required, param: None }),
            (RuleModel { kind: RuleKind::MinLength, param: Some("10"@) }),
            (RuleModel { kind: RuleKind::MaxLength, param: Some("15"@) }),
            (RuleModel { kind: RuleKind::Phone, param: None }),
        ],
{
    lemma_field_names_distinct();
    reveal_with_fuel(rules_for, 17);
}

proof fn lemma_parse_constants()
    ensures
        crate::text::parse_usize_spec("3"@) == Some(3usize),
        crate::text::parse_usize_spec("20"@) == Some(20usize),
        crate::text::parse_usize_spec("5"@) == Some(5usize),
        crate::text::parse_usize_spec("50"@) == Some(50usize),
        crate::text::parse_usize_spec("8"@) == Some(8usize),
        crate::text::parse_usize_spec("10"@) == Some(10usize),
        crate::text::parse_usize_spec("15"@) == Some(15usize),
{
    reveal_strlit("3");
    reveal_strlit("20");
    reveal_strlit("5");
    reveal_strlit("50");
    reveal_strlit("8");
    reveal_strlit("10");
    reveal_strlit("15");
    reveal_with_fuel(crate::text::digits_val, 4);
    assert(crate::text::digits_val("3"@) == 3) by {
        assert("3"@.drop_last() =~= Seq::<char>::empty());
    }
    assert(crate::text::digits_val("20"@) == 20) by {
        assert("20"@.drop_last() =~= seq!['2']);
        assert(seq!['2'].drop_last() =~= Seq::<char>::empty());
    }
    assert(crate::text::digits_val("5"@) == 5) by {
        assert("5"@.drop_last() =~= Seq::<char>::empty());
    }
    assert(crate::text::digits_val("50"@) == 50) by {
        assert("50"@.drop_last() =~= seq!['5']);
        assert(seq!['5'].drop_last() =~= Seq::<char>::empty());
    }
    assert(crate::text::digits_val("8"@) == 8) by {
        assert("8"@.drop_last() =~= Seq::<char>::empty());
    }
    assert(crate::text::digits_val("10"@) == 10) by {
        assert("10"@.drop_last() =~= seq!['1']);
        assert(seq!['1'].drop_last() =~= Seq::<char>::empty());
    }
    assert(crate::text::digits_val("15"@) == 15) by {
        assert("15"@.drop_last() =~= seq!['1']);
        assert(seq!['1'].drop_last() =~= Seq::<char>::empty());
    }
}

proof fn lemma_eval_username_ok(u: Seq<char>, counts: Seq<CountOutcome>)
    requires
        3 <= u.len() <= 20,
    ensures
        crate::validation_chain::eval_rules(
            "username"@,
            u,
            rules_for(create_chain_model(), "username"@),
            counts,
        ) == (crate::validation_chain::FieldRun::Fin { verdict: None, used: 0nat }),
{
    lemma_create_rules();
    lemma_parse_constants();
    reveal_with_fuel(crate::validation_chain::eval_rules, 5);
}

proof fn lemma_eval_email_ok(e: Seq<char>, counts: Seq<CountOutcome>)
    requires
        5 <= e.len() <= 50,
        crate::patterns::is_email(e),
        counts.len() >= 1,
        counts[0] == CountOutcome::Count(0),
    ensures
        crate::validation_chain::eval_rules(
            "email"@,
            e,
            rules_for(create_chain_model(), "email"@),
            counts,
        ) == (crate::validation_chain::FieldRun::Fin { verdict: None, used: 1nat }),
{
    lemma_create_rules();
    lemma_parse_constants();
    reveal_with_fuel(crate::validation_chain::eval_rules, 7);
}

proof fn lemma_eval_password_ok(p: Seq<char>, counts: Seq<CountOutcome>)
    requires
        8 <= p.len(),
        crate::patterns::has_upper(p),
        crate::patterns::has_lower(p),
        crate::patterns::has_digit(p),
        crate::patterns::has_special(p),
    ensures
        crate::validation_chain::eval_rules(
            "password"@,
            p,
            rules_for(create_chain_model(), "password"@),
            counts,
        ) == (crate::validation_chain::FieldRun::Fin { verdict: None, used: 0nat }),
{
    lemma_create_rules();
    lemma_parse_constants();
    reveal_with_fuel(crate::validation_chain::eval_rules, 5);
}

proof fn lemma_eval_phone_ok(ph: Seq<char>, counts: Seq<CountOutcome>)
    requires
        10 <= ph.len() <= 15,
        crate::patterns::is_phone(ph),
    ensures
        crate::validation_chain::eval_rules(
            "phone"@,
            ph,
            rules_for(create_chain_model(), "phone"@),
            counts,
        ) == (crate::validation_chain::FieldRun::Fin { verdict: None, used: 0nat }),
{
    lemma_create_rules();
    lemma_parse_constants();
    reveal_with_fuel(crate::validation_chain::eval_rules, 6);
}

/// Law: a fully valid record is accepted when the store reports the email
/// unused. Valid means: username of 3 to 20 characters; email of the email
/// shape, at most 50 characters, with a zero count from the store; password
/// of at least 8 characters holding an uppercase letter, a lowercase letter,
/// a digit and a character outside ASCII letters and digits; phone of the
/// phone shape, 10 to 15 characters.
pub proof fn lemma_valid_record_accepted(
    username: Seq<char>,
    email: Seq<char>,
    password: Seq<char>,
    phone: Seq<char>,
    counts: Seq<CountOutcome>,
)
    requires
        3 <= username.len() <= 20,
        5 <= email.len() <= 50,
        crate::patterns::is_email(email),
        8 <= password.len(),
        crate::patterns::has_upper(password),
        crate::patterns::has_lower(password),
        crate::patterns::has_digit(password),
        crate::patterns::has_special(password),
        10 <= phone.len() <= 15,
        crate::patterns::is_phone(phone),
        counts.len() == 1,
        counts[0] == CountOutcome::Count(0),
    ensures
        eval_fields(create_chain_model(), record_fields(username, email, password, phone), counts, false)
            == (RecordRun::Fin { errors: Seq::<Seq<char>>::empty(), used: 1nat }),
        validate_model(
            create_chain_model(),
            record_fields(username, email, password, phone),
            "users"@,
            counts,
            false,
        ) == StepModel::Done(Ok(())),
{
    let fields = record_fields(username, email, password, phone);
    assert(counts.skip(0) =~= counts);
    assert(counts.skip(1) =~= Seq::<CountOutcome>::empty());
    assert(Seq::<CountOutcome>::empty().skip(0) =~= Seq::<CountOutcome>::empty());
    lemma_eval_username_ok(username, counts);
    lemma_eval_email_ok(email, counts);
    lemma_eval_password_ok(password, Seq::<CountOutcome>::empty());
    lemma_eval_phone_ok(phone, Seq::<CountOutcome>::empty());
    reveal_with_fuel(eval_fields, 6);
    assert(fields.drop_first() =~= record_fields(username, email, password, phone).skip(1));
    assert(eval_fields(create_chain_model(), fields, counts, false) == (RecordRun::Fin {
        errors: Seq::<Seq<char>>::empty(),
        used: 1nat,
    }));
}

} // verus!

verus! {

#[verifier::rlimit(60)]
proof fn lemma_update_rules()
    ensures
        rules_for(update_chain_model(), "username"@) =~= seq![
            (RuleModel { kind: RuleKind::Required, param: None }),
            (RuleModel { kind: RuleKind::MinLength, param: Some("3"@) }),
            (RuleModel { kind: RuleKind::MaxLength, param: Some("20"@) }),
        ],
        rules_for(update_chain_model(), "email"@) =~= seq![
            (RuleModel { kind: RuleKind::Required, param: None }),
            (RuleModel { kind: RuleKind::MinLength, param: Some("5"@) }),
            (RuleModel { kind: RuleKind::MaxLength, param: Some("50"@) }),
            (RuleModel { kind: RuleKind::Email, param: None }),
        ],
        rules_for(update_chain_model(), "password"@) =~= seq![
            (RuleModel { kind: RuleKind::Required, param: None }),
            (RuleModel { kind: RuleKind::MinLength, param: Some("8"@) }),
            (RuleModel { kind: RuleKind::Contains, param: None }),
        ],
        rules_for(update_chain_model(), "phone"@) =~= seq![
            (RuleModel { kind: RuleKind::Required, param: None }),
            (RuleModel { kind: RuleKind::MinLength, param: Some("10"@) }),
            (RuleModel { kind: RuleKind::MaxLength, param: Some("15"@) }),
            (RuleModel { kind: RuleKind::Phone, param: None }),
        ],
{
    lemma_field_names_distinct();
    reveal_with_fuel(rules_for, 16);
}

/// Law: a record that is valid apart from its email being already registered
/// — the store counts one or more rows for it — is rejected on creation with
/// exactly the "email is already taken" message, and is accepted on update,
/// where no uniqueness rule applies.
pub proof fn lemma_registered_email_rejected_only_on_create(
    username: Seq<char>,
    email: Seq<char>,
    password: Seq<char>,
    phone: Seq<char>,
    counts: Seq<CountOutcome>,
    c: u64,
)
    requires
        3 <= username.len() <= 20,
        5 <= email.len() <= 50,
        crate::patterns::is_email(email),
        8 <= password.len(),
        crate::patterns::has_upper(password),
        crate::patterns::has_lower(password),
        crate::patterns::has_digit(password),
        crate::patterns::has_special(password),
        10 <= phone.len() <= 15,
        crate::patterns::is_phone(phone),
        counts.len() == 1,
        counts[0] == CountOutcome::Count(c),
        c > 0,
    ensures
        validate_model(
            create_chain_model(),
            record_fields(username, email, password, phone),
            "users"@,
            counts,
            false,
        ) == StepModel::Done(Err::<(), Seq<char>>(crate::messages::msg_already_taken("email"@))),
        update_validation_verdict(username, email, password, phone) is Ok,
{
    let fields = record_fields(username, email, password, phone);
    let taken = crate::messages::msg_already_taken("email"@);
    assert(counts.skip(0) =~= counts);
    assert(counts.skip(1) =~= Seq::<CountOutcome>::empty());
    assert(Seq::<CountOutcome>::empty().skip(0) =~= Seq::<CountOutcome>::empty());
    lemma_create_rules();
    lemma_parse_constants();
    lemma_eval_username_ok(username, counts);
    lemma_eval_password_ok(password, Seq::<CountOutcome>::empty());
    lemma_eval_phone_ok(phone, Seq::<CountOutcome>::empty());
    assert(crate::validation_chain::eval_rules(
        "email"@,
        email,
        rules_for(create_chain_model(), "email"@),
        counts,
    ) == (crate::validation_chain::FieldRun::Fin { verdict: Some(taken), used: 1nat })) by {
        reveal_with_fuel(crate::validation_chain::eval_rules, 7);
    }
    reveal_with_fuel(eval_fields, 6);
    assert(eval_fields(create_chain_model(), fields, counts, false) == (RecordRun::Fin {
        errors: seq![taken] + Seq::<Seq<char>>::empty(),
        used: 1nat,
    }));
    assert(seq![taken] + Seq::<Seq<char>>::empty() =~= seq![taken]);
    assert(join_with(seq![taken], "; "@) == taken);

    // the update registry accepts the same record: same rules but no
    // uniqueness check
    lemma_update_rules();
    lemma_eval_username_ok(username, Seq::<CountOutcome>::empty());
    assert(crate::validation_chain::eval_rules(
        "username"@,
        username,
        rules_for(update_chain_model(), "username"@),
        Seq::<CountOutcome>::empty(),
    ) == (crate::validation_chain::FieldRun::Fin { verdict: None, used: 0nat }));
    assert(crate::validation_chain::eval_rules(
        "email"@,
        email,
        rules_for(update_chain_model(), "email"@),
        Seq::<CountOutcome>::empty(),
    ) == (crate::validation_chain::FieldRun::Fin { verdict: None, used: 0nat })) by {
        reveal_with_fuel(crate::validation_chain::eval_rules, 6);
    }
    assert(crate::validation_chain::eval_rules(
        "password"@,
        password,
        rules_for(update_chain_model(), "password"@),
        Seq::<CountOutcome>::empty(),
    ) == (crate::validation_chain::FieldRun::Fin { verdict: None, used: 0nat }));
    assert(crate::validation_chain::eval_rules(
        "phone"@,
        phone,
        rules_for(update_chain_model(), "phone"@),
        Seq::<CountOutcome>::empty(),
    ) == (crate::validation_chain::FieldRun::Fin { verdict: None, used: 0nat }));
    assert(eval_fields(
        update_chain_model(),
        fields,
        Seq::<CountOutcome>::empty(),
        false,
    ) == (RecordRun::Fin { errors: Seq::<Seq<char>>::empty(), used: 0nat }));
}

/// Law: a record whose submitted value for one of the four fields is empty is
/// never accepted on creation; whenever validation completes, the collected
/// errors name that field as required.
pub proof fn lemma_missing_required_field_on_create(
    username: Seq<char>,
    email: Seq<char>,
    password: Seq<char>,
    phone: Seq<char>,
    counts: Seq<CountOutcome>,
    k: int,
)
    requires
        0 <= k < 4,
        record_fields(username, email, password, phone)[k].1.len() == 0,
        eval_fields(
            create_chain_model(),
            record_fields(username, email, password, phone),
            counts,
            false,
        ) is Fin,
    ensures
        (match eval_fields(
            create_chain_model(),
            record_fields(username, email, password, phone),
            counts,
            false,
        ) {
            RecordRun::Fin { errors, .. } => errors.contains(
                crate::messages::msg_required(
                    record_fields(username, email, password, phone)[k].0,
                ),
            ),
            RecordRun::Need { .. } => true,
        }),
{
    let fields = record_fields(username, email, password, phone);
    lemma_create_rules();
    if k == 0 {
        assert(fields[k].0 == "username"@);
    } else if k == 1 {
        assert(fields[k].0 == "email"@);
    } else if k == 2 {
        assert(fields[k].0 == "password"@);
    } else {
        assert(fields[k].0 == "phone"@);
    }
    crate::validation_chain::lemma_required_field_reported(
        create_chain_model(),
        fields,
        counts,
        k,
    );
}

} // verus!
