//! The decision layer of the user service. Each function here computes
//! everything that does not touch the store: it validates, hashes the
//! password, and produces the exact SQL statement to execute, or the error to
//! return. The caller performs the store round-trips — executing a returned
//! statement, or answering a requested count query — and reports their
//! outcomes back as plain values.

use vstd::prelude::*;
use vstd::string::StrSliceExecFns;
use vstd::string::StringExecFns;

use crate::factory::delete_stmt;
use crate::factory::insert_stmt;
use crate::factory::new_mysql_query_builder;
use crate::factory::pairs_model;
use crate::factory::select_all_stmt;
use crate::factory::select_by_id_stmt;
use crate::factory::strs_model;
use crate::factory::update_stmt;
use crate::factory::QueryBuilder;
use crate::messages::msg_user_not_found;
use crate::messages::user_not_found_message;
use crate::schema::CreateUpdateUserSchema;
use crate::user_validator::create_chain_model;
use crate::user_validator::create_validation;
use crate::user_validator::record_fields;
use crate::user_validator::update_validation;
use crate::user_validator::update_validation_verdict;
use crate::validation_chain::validate_model;
use crate::validation_chain::CountOutcome;
use crate::validation_chain::StepModel;
use crate::validation_chain::ValidateStep;

verus! {

/// Relies on bcrypt::hash with cost 10: it salts from OS randomness, so
/// nothing relates the result to the password; on success the hash string is
/// exactly 60 characters of ASCII.
#[verifier::external_body]
fn hash_password(password: &str) -> (r: Option<String>)
    ensures
        (match r {
            Some(h) => h@.len() == 60,
            None => true,
        }),
{
    match bcrypt::hash(password, 10) {
        Ok(h) => Some(h),
        Err(_) => None,
    }
}

/// The id a query carries for a possibly negative path id: the two's
/// complement reading of the id widened to 64 bits.
pub open spec fn wrapped_id(id: i32) -> u64 {
    if id >= 0 {
        id as u64
    } else {
        (id + 0x1_0000_0000_0000_0000) as u64
    }
}

fn id_to_u64(id: i32) -> (r: u64)
    ensures
        r == wrapped_id(id),
{
    if id >= 0 {
        id as u64
    } else {
        let m: u64 = (-(id as i64)) as u64;
        u64::MAX - m + 1
    }
}

/// The statement fetching every user row.
pub fn get_all_user_service() -> (q: String)
    ensures
        q@ == select_all_stmt("users"@),
{
    let builder = new_mysql_query_builder();
    builder.select_all("users")
}

/// The statement fetching the user row with the given id. When the fetch
/// finds nothing, the caller reports `user_not_found_message(id)`.
pub fn get_user_by_id_service(id: i32) -> (q: String)
    ensures
        q@ == select_by_id_stmt("users"@, wrapped_id(id)),
{
    let builder = new_mysql_query_builder();
    builder.select_by_id("users", id_to_u64(id))
}

/// One step of creating a user: the count query to run next — with the value
/// to bind — or the outcome: the INSERT statement to execute, or the error.
pub enum CreateUserStep {
    NeedCount { query: String, value: String },
    Done(Result<String, String>),
}

/// Creates a user as far as the store outcomes at hand allow: validates the
/// record — asking for a count query where needed — then hashes the password
/// and builds the INSERT statement. The password stored is the bcrypt hash,
/// never the submitted text.
pub fn create_user_service(body: &CreateUpdateUserSchema, counts: &Vec<CountOutcome>) -> (r:
    CreateUserStep)
    ensures
        (match r {
            CreateUserStep::NeedCount { query, value } => validate_model(
                create_chain_model(),
                record_fields(body.username@, body.email@, body.password@, body.phone@),
                "users"@,
                counts@,
                false,
            ) == (StepModel::Need { query: query@, value: value@ }),
            CreateUserStep::Done(Err(m)) => validate_model(
                create_chain_model(),
                record_fields(body.username@, body.email@, body.password@, body.phone@),
                "users"@,
                counts@,
                false,
            ) == StepModel::Done(Err::<(), Seq<char>>(m@)) || (validate_model(
                create_chain_model(),
                record_fields(body.username@, body.email@, body.password@, body.phone@),
                "users"@,
                counts@,
                false,
            ) == StepModel::Done(Ok::<(), Seq<char>>(())) && m@ == "Failed to hash password"@),
            CreateUserStep::Done(Ok(stmt)) => validate_model(
                create_chain_model(),
                record_fields(body.username@, body.email@, body.password@, body.phone@),
                "users"@,
                counts@,
                false,
            ) == StepModel::Done(Ok::<(), Seq<char>>(())) && (exists|h: Seq<char>|
                h.len() == 60 && stmt@ == insert_stmt(
                    "users"@,
                    seq!["username"@, "email"@, "phone"@, "password"@],
                    seq![body.username@, body.email@, body.phone@, h],
                )),
        }),
{
    match create_validation(body, counts) {
        ValidateStep::NeedCount { query, value } => CreateUserStep::NeedCount { query, value },
        ValidateStep::Done(Err(e)) => CreateUserStep::Done(Err(e)),
        ValidateStep::Done(Ok(())) => {
            match hash_password(body.password.as_str()) {
                None => CreateUserStep::Done(Err("Failed to hash password".to_owned())),
                Some(hash) => {
                    let ghost hv = hash@;
                    let mut cols: Vec<&str> = Vec::new();
                    cols.push("username");
                    cols.push("email");
                    cols.push("phone");
                    cols.push("password");
                    let mut vals: Vec<&str> = Vec::new();
                    vals.push(body.username.as_str());
                    vals.push(body.email.as_str());
                    vals.push(body.phone.as_str());
                    vals.push(hash.as_str());
                    let builder = new_mysql_query_builder();
                    let stmt = builder.insert("users", cols.as_slice(), vals.as_slice());
                    proof {
                        assert(strs_model(cols@) =~= seq![
                            "username"@,
                            "email"@,
                            "phone"@,
                            "password"@,
                        ]);
                        assert(strs_model(vals@) =~= seq![
                            body.username@,
                            body.email@,
                            body.phone@,
                            hv,
                        ]);
                    }
                    CreateUserStep::Done(Ok(stmt))
                },
            }
        },
    }
}

/// Updates a user: rejects a missing id before anything else, then validates
/// — the update rules never consult the store — then hashes the password and
/// builds the UPDATE statement for the caller to execute.
pub fn update_user_service(id: i32, body: &CreateUpdateUserSchema, user_exists: bool) -> (r: Result<
    String,
    String,
>)
    ensures
        !user_exists ==> (match r {
            Err(m) => m@ == msg_user_not_found(id as int),
            Ok(_) => false,
        }),
        user_exists ==> (match r {
            Err(m) => update_validation_verdict(
                body.username@,
                body.email@,
                body.password@,
                body.phone@,
            ) == Err::<(), Seq<char>>(m@) || (update_validation_verdict(
                body.username@,
                body.email@,
                body.password@,
                body.phone@,
            ) is Ok && m@ == "Failed to hash password"@),
            Ok(stmt) => update_validation_verdict(
                body.username@,
                body.email@,
                body.password@,
                body.phone@,
            ) is Ok && (exists|h: Seq<char>|
                h.len() == 60 && stmt@ == update_stmt(
                    "users"@,
                    wrapped_id(id),
                    seq![
                        ("username"@, body.username@),
                        ("email"@, body.email@),
                        ("phone"@, body.phone@),
                        ("password"@, h),
                    ],
                )),
        }),
{
    if !user_exists {
        return Err(user_not_found_message(id));
    }
    match update_validation(body) {
        Err(e) => Err(e),
        Ok(()) => {
            match hash_password(body.password.as_str()) {
                None => Err("Failed to hash password".to_owned()),
                Some(hash) => {
                    let ghost hv = hash@;
                    let mut pairs: Vec<(&str, &str)> = Vec::new();
                    pairs.push(("username", body.username.as_str()));
                    pairs.push(("email", body.email.as_str()));
                    pairs.push(("phone", body.phone.as_str()));
                    pairs.push(("password", hash.as_str()));
                    let builder = new_mysql_query_builder();
                    let stmt = builder.update("users", id_to_u64(id), pairs.as_slice());
                    proof {
                        assert(pairs_model(pairs@) =~= seq![
                            ("username"@, body.username@),
                            ("email"@, body.email@),
                            ("phone"@, body.phone@),
                            ("password"@, hv),
                        ]);
                    }
                    Ok(stmt)
                },
            }
        },
    }
}

/// Deletes a user: rejects a missing id before building anything, else hands
/// back the DELETE statement for the caller to execute.
pub fn delete_user_by_id_service(id: i32, user_exists: bool) -> (r: Result<String, String>)
    ensures
        (match r {
            Err(m) => !user_exists && m@ == msg_user_not_found(id as int),
            Ok(q) => user_exists && q@ == delete_stmt("users"@, wrapped_id(id)),
        }),
{
    if !user_exists {
        return Err(user_not_found_message(id));
    }
    let builder = new_mysql_query_builder();
    Ok(builder.delete("users", id_to_u64(id)))
}

} // verus!
