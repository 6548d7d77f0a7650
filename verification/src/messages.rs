//! The error and query texts the library produces, each as a spec-level
//! sequence plus a verified builder.

use vstd::prelude::*;
use vstd::string::StrSliceExecFns;
use vstd::string::StringExecFns;

use crate::text::dec_str;
use crate::text::int_str;

verus! {

/// "{field} is required"
pub open spec fn msg_required(field: Seq<char>) -> Seq<char> {
    field + " is required"@
}

/// "{field} must be at least {n} characters long"
pub open spec fn msg_min_length(field: Seq<char>, n: nat) -> Seq<char> {
    field + " must be at least "@ + dec_str(n) + " characters long"@
}

/// "{field} must be at most {n} characters long"
pub open spec fn msg_max_length(field: Seq<char>, n: nat) -> Seq<char> {
    field + " must be at most "@ + dec_str(n) + " characters long"@
}

/// "Invalid min_length value for {field}"
pub open spec fn msg_invalid_min_length(field: Seq<char>) -> Seq<char> {
    "Invalid min_length value for "@ + field
}

/// "Invalid max_length value for {field}"
pub open spec fn msg_invalid_max_length(field: Seq<char>) -> Seq<char> {
    "Invalid max_length value for "@ + field
}

/// "{field} is not a valid email"
pub open spec fn msg_not_email(field: Seq<char>) -> Seq<char> {
    field + " is not a valid email"@
}

/// "{field} must contain an uppercase letter"
pub open spec fn msg_needs_upper(field: Seq<char>) -> Seq<char> {
    field + " must contain an uppercase letter"@
}

/// "{field} must contain a lowercase letter"
pub open spec fn msg_needs_lower(field: Seq<char>) -> Seq<char> {
    field + " must contain a lowercase letter"@
}

/// "{field} must contain a number"
pub open spec fn msg_needs_number(field: Seq<char>) -> Seq<char> {
    field + " must contain a number"@
}

/// "{field} must contain a special character"
pub open spec fn msg_needs_special(field: Seq<char>) -> Seq<char> {
    field + " must contain a special character"@
}

/// "{field} is not a valid phone number"
pub open spec fn msg_not_phone(field: Seq<char>) -> Seq<char> {
    field + " is not a valid phone number"@
}

/// "Failed to check uniqueness of {field}"
pub open spec fn msg_unique_check_failed(field: Seq<char>) -> Seq<char> {
    "Failed to check uniqueness of "@ + field
}

/// "{field} is already taken"
pub open spec fn msg_already_taken(field: Seq<char>) -> Seq<char> {
    field + " is already taken"@
}

/// "User with id {id} does not exist"
pub open spec fn msg_user_not_found(id: int) -> Seq<char> {
    "User with id "@ + int_str(id) + " does not exist"@
}

/// "SELECT COUNT(*) FROM {table} WHERE {column} = ?"
pub open spec fn count_query_stmt(table: Seq<char>, column: Seq<char>) -> Seq<char> {
    "SELECT COUNT(*) FROM "@ + table + " WHERE "@ + column + " = ?"@
}

/// Builds "{field}{suffix}".
pub fn suffix_msg(field: &str, suffix: &str) -> (m: String)
    ensures
        m@ == field@ + suffix@,
{
    let mut m: String = field.to_owned();
    m.append(suffix);
    m
}

/// Builds "{prefix}{field}".
pub fn prefix_msg(prefix: &str, field: &str) -> (m: String)
    ensures
        m@ == prefix@ + field@,
{
    let mut m: String = prefix.to_owned();
    m.append(field);
    m
}

/// Builds "{field}{mid}{n}{tail}".
pub fn length_msg(field: &str, mid: &str, n: usize, tail: &str) -> (m: String)
    ensures
        m@ == field@ + mid@ + dec_str(n as nat) + tail@,
{
    let mut m: String = field.to_owned();
    m.append(mid);
    let digits = crate::text::usize_to_string(n);
    m.append(digits.as_str());
    m.append(tail);
    proof {
        assert(m@ =~= field@ + mid@ + dec_str(n as nat) + tail@);
    }
    m
}

/// Builds the not-found message for a user id.
pub fn user_not_found_message(id: i32) -> (m: String)
    ensures
        m@ == msg_user_not_found(id as int),
{
    let mut m: String = "User with id ".to_owned();
    let digits = crate::text::i64_to_string(id as i64);
    m.append(digits.as_str());
    m.append(" does not exist");
    proof {
        assert(m@ =~= msg_user_not_found(id as int));
    }
    m
}

/// Builds the uniqueness count query for a table and column.
pub fn count_query(table: &str, column: &str) -> (q: String)
    ensures
        q@ == count_query_stmt(table@, column@),
{
    let mut q: String = "SELECT COUNT(*) FROM ".to_owned();
    q.append(table);
    q.append(" WHERE ");
    q.append(column);
    q.append(" = ?");
    proof {
        assert(q@ =~= count_query_stmt(table@, column@));
    }
    q
}

} // verus!
