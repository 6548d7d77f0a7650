//! The table-driven field validation engine. A `ValidationChain` keeps an
//! ordered list of named rules per field; evaluating a record walks the
//! submitted fields in order and, per field, the field's rules in
//! registration order, stopping at that field's first failure.
//!
//! The one rule needing the store — `unique` — is handled without doing I/O
//! here: evaluation consumes a caller-supplied list of count-query outcomes,
//! and when it reaches a `unique` rule with no outcome left it stops and hands
//! the caller the exact count query to run. The caller appends the outcome and
//! evaluates again, so the verdict is a pure function of the chain, the record
//! and the outcomes.

use vstd::prelude::*;
use vstd::string::StrSliceExecFns;
use vstd::string::StringExecFns;

use crate::messages::count_query;
use crate::messages::count_query_stmt;
use crate::messages::length_msg;
use crate::messages::msg_already_taken;
use crate::messages::msg_invalid_max_length;
use crate::messages::msg_invalid_min_length;
use crate::messages::msg_max_length;
use crate::messages::msg_min_length;
use crate::messages::msg_needs_lower;
use crate::messages::msg_needs_number;
use crate::messages::msg_needs_special;
use crate::messages::msg_needs_upper;
use crate::messages::msg_not_email;
use crate::messages::msg_not_phone;
use crate::messages::msg_required;
use crate::messages::msg_unique_check_failed;
use crate::messages::prefix_msg;
use crate::messages::suffix_msg;
use crate::patterns::has_digit;
use crate::patterns::has_lower;
use crate::patterns::has_special;
use crate::patterns::has_upper;
use crate::patterns::is_email;
use crate::patterns::is_phone;
use crate::patterns::is_valid_email;
use crate::patterns::is_valid_phone;
use crate::patterns::password_categories;
use crate::text::join_strings;
use crate::text::join_with;
use crate::text::parse_usize;
use crate::text::parse_usize_spec;
use crate::text::str_eq;

verus! {

/// The rule vocabulary. A name outside the vocabulary becomes `Other`, which
/// always passes.
#[derive(Clone, Copy, PartialEq, Eq, Structural, Debug)]
pub enum RuleKind {
    Required,
    MinLength,
    MaxLength,
    Email,
    Contains,
    Unique,
    Phone,
    Other,
}

/// One registered rule: its kind and its optional parameter.
#[derive(Debug)]
pub struct Rule {
    pub kind: RuleKind,
    pub param: Option<String>,
}

/// The mathematical content of a `Rule`.
#[verifier::ext_equal]
pub struct RuleModel {
    pub kind: RuleKind,
    pub param: Option<Seq<char>>,
}

impl View for Rule {
    type V = RuleModel;

    open spec fn view(&self) -> RuleModel {
        RuleModel {
            kind: self.kind,
            param: match self.param {
                Some(p) => Some(p@),
                None => None,
            },
        }
    }
}

impl Clone for Rule {
    fn clone(&self) -> (r: Self)
        ensures
            r@ == self@,
    {
        Rule {
            kind: self.kind,
            param: match &self.param {
                Some(p) => Some(p.clone()),
                None => None,
            },
        }
    }
}

/// The rule kind a rule name denotes.
pub open spec fn kind_of_name(name: Seq<char>) -> RuleKind {
    if name == "required"@ {
        RuleKind::Required
    } else if name == "min_length"@ {
        RuleKind::MinLength
    } else if name == "max_length"@ {
        RuleKind::MaxLength
    } else if name == "email"@ {
        RuleKind::Email
    } else if name == "contains"@ {
        RuleKind::Contains
    } else if name == "unique"@ {
        RuleKind::Unique
    } else if name == "phone"@ {
        RuleKind::Phone
    } else {
        RuleKind::Other
    }
}

fn parse_kind(name: &str) -> (k: RuleKind)
    ensures
        k == kind_of_name(name@),
{
    if str_eq(name, "required") {
        RuleKind::Required
    } else if str_eq(name, "min_length") {
        RuleKind::MinLength
    } else if str_eq(name, "max_length") {
        RuleKind::MaxLength
    } else if str_eq(name, "email") {
        RuleKind::Email
    } else if str_eq(name, "contains") {
        RuleKind::Contains
    } else if str_eq(name, "unique") {
        RuleKind::Unique
    } else if str_eq(name, "phone") {
        RuleKind::Phone
    } else {
        RuleKind::Other
    }
}

/// The view of an optional parameter string.
pub open spec fn opt_str_view(o: Option<&str>) -> Option<Seq<char>> {
    match o {
        Some(v) => Some(v@),
        None => None,
    }
}

/// The registry of rules: field names paired with rules, in registration
/// order. One field's rules are the entries bearing its name, in order.
pub struct ValidationChain {
    rules: Vec<(String, Rule)>,
}

impl View for ValidationChain {
    type V = Seq<(Seq<char>, RuleModel)>;

    closed spec fn view(&self) -> Seq<(Seq<char>, RuleModel)> {
        self.rules@.map_values(|p: (String, Rule)| (p.0@, p.1@))
    }
}

/// The rules registered for one field, in registration order.
pub open spec fn rules_for(chain: Seq<(Seq<char>, RuleModel)>, field: Seq<char>) -> Seq<RuleModel>
    decreases chain.len(),
{
    if chain.len() == 0 {
        Seq::empty()
    } else {
        let rest = rules_for(chain.drop_first(), field);
        if chain[0].0 == field {
            seq![chain[0].1] + rest
        } else {
            rest
        }
    }
}

/// The models of a sequence of rules.
pub open spec fn rule_models(rs: Seq<Rule>) -> Seq<RuleModel> {
    rs.map_values(|r: Rule| r@)
}

/// What one count query against the store yielded: a row count, or a store
/// failure.
#[derive(Clone, Copy, PartialEq, Eq, Structural, Debug)]
pub enum CountOutcome {
    Count(u64),
    StoreError,
}

/// What checking one store-free rule yields: `None` when the value passes,
/// the error message otherwise.
pub open spec fn check_rule(field: Seq<char>, value: Seq<char>, r: RuleModel) -> Option<Seq<char>> {
    match r.kind {
        RuleKind::Required => if value.len() == 0 {
            Some(msg_required(field))
        } else {
            None
        },
        RuleKind::MinLength => match r.param {
            Some(p) => match parse_usize_spec(p) {
                Some(n) => if value.len() < n {
                    Some(msg_min_length(field, n as nat))
                } else {
                    None
                },
                None => Some(msg_invalid_min_length(field)),
            },
            None => None,
        },
        RuleKind::MaxLength => match r.param {
            Some(p) => match parse_usize_spec(p) {
                Some(n) => if value.len() > n {
                    Some(msg_max_length(field, n as nat))
                } else {
                    None
                },
                None => Some(msg_invalid_max_length(field)),
            },
            None => None,
        },
        RuleKind::Email => if !is_email(value) {
            Some(msg_not_email(field))
        } else {
            None
        },
        RuleKind::Contains => if !has_upper(value) {
            Some(msg_needs_upper(field))
        } else if !has_lower(value) {
            Some(msg_needs_lower(field))
        } else if !has_digit(value) {
            Some(msg_needs_number(field))
        } else if !has_special(value) {
            Some(msg_needs_special(field))
        } else {
            None
        },
        RuleKind::Phone => if !is_phone(value) {
            Some(msg_not_phone(field))
        } else {
            None
        },
        RuleKind::Unique => None,
        RuleKind::Other => None,
    }
}

fn check_plain_rule(field: &str, value: &str, rule: &Rule) -> (r: Option<String>)
    ensures
        r.deep_view() == check_rule(field@, value@, rule@),
{
    match rule.kind {
        RuleKind::Required => {
            if value.unicode_len() == 0 {
                Some(suffix_msg(field, " is required"))
            } else {
                None
            }
        },
        RuleKind::MinLength => {
            match &rule.param {
                Some(p) => {
                    match parse_usize(p.as_str()) {
                        Some(n) => {
                            if value.unicode_len() < n {
                                Some(length_msg(field, " must be at least ", n, " characters long"))
                            } else {
                                None
                            }
                        },
                        None => Some(prefix_msg("Invalid min_length value for ", field)),
                    }
                },
                None => None,
            }
        },
        RuleKind::MaxLength => {
            match &rule.param {
                Some(p) => {
                    match parse_usize(p.as_str()) {
                        Some(n) => {
                            if value.unicode_len() > n {
                                Some(length_msg(field, " must be at most ", n, " characters long"))
                            } else {
                                None
                            }
                        },
                        None => Some(prefix_msg("Invalid max_length value for ", field)),
                    }
                },
                None => None,
            }
        },
        RuleKind::Email => {
            if !is_valid_email(value) {
                Some(suffix_msg(field, " is not a valid email"))
            } else {
                None
            }
        },
        RuleKind::Contains => {
            let cats = password_categories(value);
            if !cats.0 {
                Some(suffix_msg(field, " must contain an uppercase letter"))
            } else if !cats.1 {
                Some(suffix_msg(field, " must contain a lowercase letter"))
            } else if !cats.2 {
                Some(suffix_msg(field, " must contain a number"))
            } else if !cats.3 {
                Some(suffix_msg(field, " must contain a special character"))
            } else {
                None
            }
        },
        RuleKind::Phone => {
            if !is_valid_phone(value) {
                Some(suffix_msg(field, " is not a valid phone number"))
            } else {
                None
            }
        },
        RuleKind::Unique => None,
        RuleKind::Other => None,
    }
}

/// How far evaluating one field's rules got: finished with a verdict after
/// consuming `used` count outcomes, or stopped needing one more outcome.
pub enum FieldRun {
    Need,
    Fin { verdict: Option<Seq<char>>, used: nat },
}

/// Evaluates one field's rules in order against the available count
/// outcomes, stopping at the field's first failure.
pub open spec fn eval_rules(
    field: Seq<char>,
    value: Seq<char>,
    rules: Seq<RuleModel>,
    counts: Seq<CountOutcome>,
) -> FieldRun
    decreases rules.len(),
{
    if rules.len() == 0 {
        FieldRun::Fin { verdict: None, used: 0 }
    } else if rules[0].kind == RuleKind::Unique {
        if counts.len() == 0 {
            FieldRun::Need
        } else {
            match counts[0] {
                CountOutcome::StoreError => FieldRun::Fin {
                    verdict: Some(msg_unique_check_failed(field)),
                    used: 1,
                },
                CountOutcome::Count(c) => if c > 0 {
                    FieldRun::Fin { verdict: Some(msg_already_taken(field)), used: 1 }
                } else {
                    match eval_rules(field, value, rules.drop_first(), counts.drop_first()) {
                        FieldRun::Need => FieldRun::Need,
                        FieldRun::Fin { verdict, used } => FieldRun::Fin {
                            verdict,
                            used: used + 1,
                        },
                    }
                },
            }
        }
    } else {
        match check_rule(field, value, rules[0]) {
            Some(m) => FieldRun::Fin { verdict: Some(m), used: 0 },
            None => eval_rules(field, value, rules.drop_first(), counts),
        }
    }
}

enum FieldStep {
    Need,
    Fin(Option<String>, usize),
}

impl View for FieldStep {
    type V = FieldRun;

    closed spec fn view(&self) -> FieldRun {
        match self {
            FieldStep::Need => FieldRun::Need,
            FieldStep::Fin(v, u) => FieldRun::Fin { verdict: v.deep_view(), used: *u as nat },
        }
    }
}

fn eval_rules_from(
    field: &str,
    value: &str,
    rules: &Vec<Rule>,
    i: usize,
    counts: &Vec<CountOutcome>,
    ci: usize,
) -> (r: FieldStep)
    requires
        i <= rules.len(),
        ci <= counts.len(),
    ensures
        r@ == eval_rules(field@, value@, rule_models(rules@).skip(i as int), counts@.skip(ci as int)),
        (match r {
            FieldStep::Fin(_, u) => ci + u <= counts.len(),
            FieldStep::Need => true,
        }),
    decreases rules.len() - i,
{
    let ghost rtail = rule_models(rules@).skip(i as int);
    let ghost ctail = counts@.skip(ci as int);
    if i == rules.len() {
        proof {
            assert(rtail =~= Seq::<RuleModel>::empty());
        }
        FieldStep::Fin(None, 0)
    } else {
        let rule = &rules[i];
        proof {
            assert(rtail[0] == rules@[i as int]@);
            assert(rtail.drop_first() =~= rule_models(rules@).skip(i as int + 1));
            assert(ctail.len() == counts.len() - ci);
        }
        match rule.kind {
            RuleKind::Unique => {
                if ci == counts.len() {
                    proof {
                        assert(ctail.len() == 0);
                    }
                    FieldStep::Need
                } else {
                    proof {
                        assert(ctail[0] == counts@[ci as int]);
                        assert(ctail.drop_first() =~= counts@.skip(ci as int + 1));
                    }
                    match counts[ci] {
                        CountOutcome::StoreError => FieldStep::Fin(
                            Some(prefix_msg("Failed to check uniqueness of ", field)),
                            1,
                        ),
                        CountOutcome::Count(c) => {
                            if c > 0 {
                                FieldStep::Fin(Some(suffix_msg(field, " is already taken")), 1)
                            } else {
                                match eval_rules_from(field, value, rules, i + 1, counts, ci + 1) {
                                    FieldStep::Need => FieldStep::Need,
                                    FieldStep::Fin(v, u) => FieldStep::Fin(v, u + 1),
                                }
                            }
                        },
                    }
                }
            },
            _ => {
                match check_plain_rule(field, value, rule) {
                    Some(m) => FieldStep::Fin(Some(m), 0),
                    None => eval_rules_from(field, value, rules, i + 1, counts, ci),
                }
            },
        }
    }
}

/// How far evaluating a record got: finished with the collected per-field
/// errors after consuming `used` count outcomes, or stopped needing the count
/// of rows whose `column` equals `value`.
pub enum RecordRun {
    Need { column: Seq<char>, value: Seq<char> },
    Fin { errors: Seq<Seq<char>>, used: nat },
}

/// The models of submitted field/value pairs.
pub open spec fn fields_model(fs: Seq<(String, String)>) -> Seq<(Seq<char>, Seq<char>)> {
    fs.map_values(|p: (String, String)| (p.0@, p.1@))
}

/// Evaluates the submitted fields in order. With `fail_fast` the run stops at
/// the first failing field, reporting only its error; otherwise every field's
/// first failure is collected.
pub open spec fn eval_fields(
    chain: Seq<(Seq<char>, RuleModel)>,
    fields: Seq<(Seq<char>, Seq<char>)>,
    counts: Seq<CountOutcome>,
    fail_fast: bool,
) -> RecordRun
    decreases fields.len(),
{
    if fields.len() == 0 {
        RecordRun::Fin { errors: Seq::empty(), used: 0 }
    } else {
        match eval_rules(fields[0].0, fields[0].1, rules_for(chain, fields[0].0), counts) {
            FieldRun::Need => RecordRun::Need { column: fields[0].0, value: fields[0].1 },
            FieldRun::Fin { verdict: Some(m), used } => {
                if fail_fast {
                    RecordRun::Fin { errors: seq![m], used }
                } else {
                    match eval_fields(chain, fields.drop_first(), counts.skip(used as int), fail_fast) {
                        RecordRun::Need { column, value } => RecordRun::Need { column, value },
                        RecordRun::Fin { errors, used: u2 } => RecordRun::Fin {
                            errors: seq![m] + errors,
                            used: used + u2,
                        },
                    }
                }
            },
            FieldRun::Fin { verdict: None, used } => {
                match eval_fields(chain, fields.drop_first(), counts.skip(used as int), fail_fast) {
                    RecordRun::Need { column, value } => RecordRun::Need { column, value },
                    RecordRun::Fin { errors, used: u2 } => RecordRun::Fin {
                        errors,
                        used: used + u2,
                    },
                }
            },
        }
    }
}

enum RecordStep {
    Need(String, String),
    Fin(Vec<String>, usize),
}

impl View for RecordStep {
    type V = RecordRun;

    closed spec fn view(&self) -> RecordRun {
        match self {
            RecordStep::Need(c, v) => RecordRun::Need { column: c@, value: v@ },
            RecordStep::Fin(es, u) => RecordRun::Fin { errors: es.deep_view(), used: *u as nat },
        }
    }
}

impl ValidationChain {
    /// A registry with no rules.
    pub fn new() -> (c: Self)
        ensures
            c@ == Seq::<(Seq<char>, RuleModel)>::empty(),
    {
        let c = ValidationChain { rules: Vec::new() };
        proof {
            assert(c@ =~= Seq::<(Seq<char>, RuleModel)>::empty());
        }
        c
    }

    /// Appends one rule for a field; the rule name is interpreted by
    /// `kind_of_name` and the optional parameter kept verbatim.
    pub fn add_rule(&mut self, field: &str, rule: &str, value: Option<&str>)
        ensures
            final(self)@ == old(self)@.push(
                (
                    field@,
                    RuleModel { kind: kind_of_name(rule@), param: opt_str_view(value) },
                ),
            ),
    {
        let kind = parse_kind(rule);
        let param: Option<String> = match value {
            Some(v) => Some(v.to_owned()),
            None => None,
        };
        self.rules.push((field.to_owned(), Rule { kind, param }));
        proof {
            assert(self@ =~= old(self)@.push(
                (field@, RuleModel { kind: kind_of_name(rule@), param: opt_str_view(value) }),
            ));
        }
    }

    /// The rules registered for a field, in registration order, or nothing
    /// when the field has none.
    pub fn get_rules(&self, field: &str) -> (r: Option<Vec<Rule>>)
        ensures
            (match r {
                Some(v) => rules_for(self@, field@).len() > 0 && rule_models(v@) == rules_for(
                    self@,
                    field@,
                ),
                None => rules_for(self@, field@).len() == 0,
            }),
    {
        let v = collect_rules_from(&self.rules, 0, field);
        proof {
            assert(self@.skip(0) =~= self@);
        }
        if v.len() == 0 {
            None
        } else {
            Some(v)
        }
    }
}

fn collect_rules_from(v: &Vec<(String, Rule)>, i: usize, field: &str) -> (r: Vec<Rule>)
    requires
        i <= v.len(),
    ensures
        rule_models(r@) == rules_for(
            v@.map_values(|p: (String, Rule)| (p.0@, p.1@)).skip(i as int),
            field@,
        ),
    decreases v.len() - i,
{
    let ghost chain = v@.map_values(|p: (String, Rule)| (p.0@, p.1@));
    if i == v.len() {
        let r = Vec::new();
        proof {
            assert(chain.skip(i as int) =~= Seq::<(Seq<char>, RuleModel)>::empty());
            assert(rule_models(r@) =~= rules_for(chain.skip(i as int), field@));
        }
        r
    } else {
        let mut rest = collect_rules_from(v, i + 1, field);
        proof {
            assert(chain.skip(i as int)[0] == (v@[i as int].0@, v@[i as int].1@));
            assert(chain.skip(i as int).drop_first() =~= chain.skip(i as int + 1));
        }
        if str_eq(v[i].0.as_str(), field) {
            let head = v[i].1.clone();
            rest.insert(0, head);
            proof {
                assert(rule_models(rest@) =~= seq![v@[i as int].1@] + rules_for(
                    chain.skip(i as int + 1),
                    field@,
                ));
            }
            rest
        } else {
            rest
        }
    }
}

fn eval_fields_from(
    chain: &ValidationChain,
    fields: &Vec<(String, String)>,
    fi: usize,
    counts: &Vec<CountOutcome>,
    ci: usize,
    fail_fast: bool,
) -> (r: RecordStep)
    requires
        fi <= fields.len(),
        ci <= counts.len(),
    ensures
        r@ == eval_fields(
            chain@,
            fields_model(fields@).skip(fi as int),
            counts@.skip(ci as int),
            fail_fast,
        ),
        (match r {
            RecordStep::Fin(_, u) => ci + u <= counts.len(),
            RecordStep::Need(_, _) => true,
        }),
    decreases fields.len() - fi,
{
    let ghost ftail = fields_model(fields@).skip(fi as int);
    let ghost ctail = counts@.skip(ci as int);
    if fi == fields.len() {
        let es: Vec<String> = Vec::new();
        proof {
            assert(ftail =~= Seq::<(Seq<char>, Seq<char>)>::empty());
            assert(es.deep_view() =~= Seq::<Seq<char>>::empty());
        }
        RecordStep::Fin(es, 0)
    } else {
        let field: &String = &fields[fi].0;
        let value: &String = &fields[fi].1;
        proof {
            assert(ftail[0] == (fields@[fi as int].0@, fields@[fi as int].1@));
            assert(ftail.drop_first() =~= fields_model(fields@).skip(fi as int + 1));
        }
        let frules = collect_rules_from(&chain.rules, 0, field.as_str());
        proof {
            assert(chain@.skip(0) =~= chain@);
            assert(rule_models(frules@).skip(0) =~= rule_models(frules@));
        }
        let fstep = eval_rules_from(field.as_str(), value.as_str(), &frules, 0, counts, ci);
        match fstep {
            FieldStep::Need => RecordStep::Need(field.clone(), value.clone()),
            FieldStep::Fin(verdict, used) => {
                proof {
                    assert(ctail.skip(used as int) =~= counts@.skip(ci as int + used as int));
                }
                match verdict {
                    Some(m) => {
                        if fail_fast {
                            let ghost mv = m@;
                            let mut es: Vec<String> = Vec::new();
                            es.push(m);
                            proof {
                                assert(es.deep_view() =~= seq![mv]);
                            }
                            RecordStep::Fin(es, used)
                        } else {
                            let rest = eval_fields_from(
                                chain,
                                fields,
                                fi + 1,
                                counts,
                                ci + used,
                                fail_fast,
                            );
                            match rest {
                                RecordStep::Need(c, v) => RecordStep::Need(c, v),
                                RecordStep::Fin(mut errors, u2) => {
                                    let ghost mv = m@;
                                    let ghost pre = errors.deep_view();
                                    errors.insert(0, m);
                                    proof {
                                        assert(errors.deep_view() =~= seq![mv] + pre);
                                    }
                                    RecordStep::Fin(errors, used + u2)
                                },
                            }
                        }
                    },
                    None => {
                        let rest = eval_fields_from(
                            chain,
                            fields,
                            fi + 1,
                            counts,
                            ci + used,
                            fail_fast,
                        );
                        match rest {
                            RecordStep::Need(c, v) => RecordStep::Need(c, v),
                            RecordStep::Fin(errors, u2) => RecordStep::Fin(errors, used + u2),
                        }
                    },
                }
            },
        }
    }
}

/// One step of a validation run: either the count query to execute next —
/// with the value to bind to its placeholder — or the finished verdict.
pub enum ValidateStep {
    NeedCount { query: String, value: String },
    Done(Result<(), String>),
}

/// The mathematical content of a `ValidateStep`.
pub enum StepModel {
    Need { query: Seq<char>, value: Seq<char> },
    Done(Result<(), Seq<char>>),
}

impl View for ValidateStep {
    type V = StepModel;

    open spec fn view(&self) -> StepModel {
        match self {
            ValidateStep::NeedCount { query, value } => StepModel::Need {
                query: query@,
                value: value@,
            },
            ValidateStep::Done(res) => StepModel::Done(
                match res {
                    Ok(_) => Ok(()),
                    Err(m) => Err(m@),
                },
            ),
        }
    }
}

/// What a validation run yields for given outcomes: the next count query, or
/// the verdict — success when no field failed, otherwise the collected
/// errors joined with "; ".
pub open spec fn validate_model(
    chain: Seq<(Seq<char>, RuleModel)>,
    fields: Seq<(Seq<char>, Seq<char>)>,
    table: Seq<char>,
    counts: Seq<CountOutcome>,
    fail_fast: bool,
) -> StepModel {
    match eval_fields(chain, fields, counts, fail_fast) {
        RecordRun::Need { column, value } => StepModel::Need {
            query: count_query_stmt(table, column),
            value,
        },
        RecordRun::Fin { errors, .. } => StepModel::Done(
            if errors.len() == 0 {
                Ok(())
            } else {
                Err(join_with(errors, "; "@))
            },
        ),
    }
}

impl ValidationChain {
    fn run(
        &self,
        fields_values: &Vec<(String, String)>,
        table: &str,
        counts: &Vec<CountOutcome>,
        fail_fast: bool,
    ) -> (r: ValidateStep)
        ensures
            r@ == validate_model(self@, fields_model(fields_values@), table@, counts@, fail_fast),
    {
        proof {
            assert(fields_model(fields_values@).skip(0) =~= fields_model(fields_values@));
            assert(counts@.skip(0) =~= counts@);
        }
        match eval_fields_from(self, fields_values, 0, counts, 0, fail_fast) {
            RecordStep::Need(column, value) => {
                let query = count_query(table, column.as_str());
                ValidateStep::NeedCount { query, value }
            },
            RecordStep::Fin(errors, _) => {
                if errors.len() == 0 {
                    proof {
                        assert(errors.deep_view().len() == 0);
                    }
                    ValidateStep::Done(Ok(()))
                } else {
                    ValidateStep::Done(Err(join_strings(&errors, "; ")))
                }
            },
        }
    }

    /// Validates the record failing fast: the verdict carries the first
    /// failure encountered, in field order.
    pub fn validate(
        &self,
        fields_values: &Vec<(String, String)>,
        table: &str,
        counts: &Vec<CountOutcome>,
    ) -> (r: ValidateStep)
        ensures
            r@ == validate_model(self@, fields_model(fields_values@), table@, counts@, true),
    {
        self.run(fields_values, table, counts, true)
    }

    /// Validates the record field by field: every field's first failure is
    /// collected, and the verdict joins them with "; ".
    pub fn validate_fields_recursive(
        &self,
        fields_values: &Vec<(String, String)>,
        table: &str,
        counts: &Vec<CountOutcome>,
    ) -> (r: ValidateStep)
        ensures
            r@ == validate_model(self@, fields_model(fields_values@), table@, counts@, false),
    {
        self.run(fields_values, table, counts, false)
    }
}

} // verus!

// ---------------------------------------------------------------------------
// Laws of the engine.
// ---------------------------------------------------------------------------

verus! {

/// Law: a record whose submitted value for some field is empty, where that
/// field's first registered rule is `required`, never validates; whenever the
/// field-by-field run completes, the collected errors contain that field's
/// "is required" message.
pub proof fn lemma_required_field_reported(
    chain: Seq<(Seq<char>, RuleModel)>,
    fields: Seq<(Seq<char>, Seq<char>)>,
    counts: Seq<CountOutcome>,
    k: int,
)
    requires
        0 <= k < fields.len(),
        fields[k].1.len() == 0,
        rules_for(chain, fields[k].0).len() > 0,
        rules_for(chain, fields[k].0)[0].kind == RuleKind::Required,
        eval_fields(chain, fields, counts, false) is Fin,
    ensures
        (match eval_fields(chain, fields, counts, false) {
            RecordRun::Fin { errors, .. } => errors.contains(msg_required(fields[k].0)),
            RecordRun::Need { .. } => true,
        }),
    decreases fields.len(),
{
    let f = fields[0].0;
    let v = fields[0].1;
    let fr = eval_rules(f, v, rules_for(chain, f), counts);
    if k == 0 {
        assert(check_rule(f, v, rules_for(chain, f)[0]) == Some(msg_required(f)));
        assert(fr == FieldRun::Fin { verdict: Some(msg_required(f)), used: 0nat });
        match eval_fields(chain, fields.drop_first(), counts.skip(0), false) {
            RecordRun::Need { .. } => {
                assert(false);
            },
            RecordRun::Fin { errors, .. } => {
                let whole = seq![msg_required(f)] + errors;
                assert(whole[0] == msg_required(f));
                assert(whole.contains(msg_required(f)));
            },
        }
    } else {
        match fr {
            FieldRun::Need => {
                assert(false);
            },
            FieldRun::Fin { verdict, used } => {
                let rest = eval_fields(chain, fields.drop_first(), counts.skip(used as int), false);
                assert(fields.drop_first()[k - 1] == fields[k]);
                lemma_required_field_reported(
                    chain,
                    fields.drop_first(),
                    counts.skip(used as int),
                    k - 1,
                );
                match rest {
                    RecordRun::Need { .. } => {
                        assert(false);
                    },
                    RecordRun::Fin { errors, .. } => {
                        let m = msg_required(fields[k].0);
                        let i = choose|i: int| 0 <= i < errors.len() && errors[i] == m;
                        match verdict {
                            Some(e0) => {
                                let whole = seq![e0] + errors;
                                assert(whole[1 + i] == m);
                                assert(whole.contains(m));
                            },
                            None => {
                                assert(errors.contains(m));
                            },
                        }
                    },
                }
            },
        }
    }
}

/// Whether no rule of the registry is the `unique` rule.
pub open spec fn chain_has_no_unique(chain: Seq<(Seq<char>, RuleModel)>) -> bool {
    forall|i: int| 0 <= i < chain.len() ==> (#[trigger] chain[i]).1.kind != RuleKind::Unique
}

proof fn lemma_rules_for_no_unique(chain: Seq<(Seq<char>, RuleModel)>, field: Seq<char>)
    requires
        chain_has_no_unique(chain),
    ensures
        forall|j: int|
            0 <= j < rules_for(chain, field).len() ==> (#[trigger] rules_for(chain, field)[j]).kind
                != RuleKind::Unique,
    decreases chain.len(),
{
    if chain.len() > 0 {
        assert forall|i: int| 0 <= i < chain.drop_first().len() implies (#[trigger] chain.drop_first()[i]).1.kind
            != RuleKind::Unique by {
            assert(chain.drop_first()[i] == chain[i + 1]);
        }
        lemma_rules_for_no_unique(chain.drop_first(), field);
        let rest = rules_for(chain.drop_first(), field);
        if chain[0].0 == field {
            assert forall|j: int| 0 <= j < rules_for(chain, field).len() implies (
            #[trigger] rules_for(chain, field)[j]).kind != RuleKind::Unique by {
                if j == 0 {
                    assert(rules_for(chain, field)[0] == chain[0].1);
                } else {
                    assert(rules_for(chain, field)[j] == rest[j - 1]);
                }
            }
        }
    }
}

proof fn lemma_eval_rules_no_unique(
    field: Seq<char>,
    value: Seq<char>,
    rules: Seq<RuleModel>,
    counts: Seq<CountOutcome>,
)
    requires
        forall|j: int| 0 <= j < rules.len() ==> (#[trigger] rules[j]).kind != RuleKind::Unique,
    ensures
        eval_rules(field, value, rules, counts) == eval_rules(
            field,
            value,
            rules,
            Seq::<CountOutcome>::empty(),
        ),
        eval_rules(field, value, rules, counts) is Fin,
        (match eval_rules(field, value, rules, counts) {
            FieldRun::Fin { used, .. } => used == 0,
            FieldRun::Need => true,
        }),
    decreases rules.len(),
{
    if rules.len() > 0 {
        assert(rules[0].kind != RuleKind::Unique);
        assert forall|j: int| 0 <= j < rules.drop_first().len() implies (
        #[trigger] rules.drop_first()[j]).kind != RuleKind::Unique by {
            assert(rules.drop_first()[j] == rules[j + 1]);
        }
        lemma_eval_rules_no_unique(field, value, rules.drop_first(), counts);
    }
}

/// Law: against a registry without the `unique` rule — the update registry —
/// a validation run never asks for a store lookup and its verdict does not
/// depend on the supplied outcomes.
pub proof fn lemma_eval_fields_no_unique(
    chain: Seq<(Seq<char>, RuleModel)>,
    fields: Seq<(Seq<char>, Seq<char>)>,
    counts: Seq<CountOutcome>,
    fail_fast: bool,
)
    requires
        chain_has_no_unique(chain),
    ensures
        eval_fields(chain, fields, counts, fail_fast) is Fin,
        eval_fields(chain, fields, counts, fail_fast) == eval_fields(
            chain,
            fields,
            Seq::<CountOutcome>::empty(),
            fail_fast,
        ),
    decreases fields.len(),
{
    if fields.len() > 0 {
        let f = fields[0].0;
        let v = fields[0].1;
        lemma_rules_for_no_unique(chain, f);
        lemma_eval_rules_no_unique(f, v, rules_for(chain, f), counts);
        assert(counts.skip(0) =~= counts);
        assert(Seq::<CountOutcome>::empty().skip(0) =~= Seq::<CountOutcome>::empty());
        lemma_eval_fields_no_unique(chain, fields.drop_first(), counts, fail_fast);
    }
}

} // verus!
