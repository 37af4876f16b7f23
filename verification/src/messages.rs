//! The caller-facing error strings. Their literal shapes are part of the
//! engine's interface: existing callers match on them.

use vstd::prelude::*;
use crate::binder::BindError;

verus! {

/// The text reported when connecting to the backend fails.
pub open spec fn connect_error_text(m: Seq<char>) -> Seq<char> {
    "Failed to connect to database: "@ + m
}

/// The text reported when opening a transaction fails.
pub open spec fn begin_error_text(m: Seq<char>) -> Seq<char> {
    "Failed to begin transaction: "@ + m
}

/// The text reported when committing fails.
pub open spec fn commit_error_text(m: Seq<char>) -> Seq<char> {
    "Failed to commit transaction: "@ + m
}

/// The text reported when a statement fails, embedding both the driver's
/// message and the offending statement's text.
pub open spec fn sql_error_text(m: Seq<char>, sql: Seq<char>) -> Seq<char> {
    "SQL Error: "@ + m + " | Query: "@ + sql
}

/// The text reported when a parameter fails to bind.
pub open spec fn bind_error_text(e: BindError) -> Seq<char> {
    match e {
        BindError::InvalidNumber => "Invalid number type"@,
        BindError::UnsupportedType => "Unsupported parameter type"@,
    }
}

/// Build the connect-failure string.
pub fn connect_error_message(m: &str) -> (r: String)
    ensures
        r@ == connect_error_text(m@),
{
    String::from_str("Failed to connect to database: ").concat(m)
}

/// Build the begin-failure string.
pub fn begin_error_message(m: &str) -> (r: String)
    ensures
        r@ == begin_error_text(m@),
{
    String::from_str("Failed to begin transaction: ").concat(m)
}

/// Build the commit-failure string.
pub fn commit_error_message(m: &str) -> (r: String)
    ensures
        r@ == commit_error_text(m@),
{
    String::from_str("Failed to commit transaction: ").concat(m)
}

/// Build the statement-failure string.
pub fn sql_error_message(m: &str, sql: &str) -> (r: String)
    ensures
        r@ == sql_error_text(m@, sql@),
{
    let r = String::from_str("SQL Error: ").concat(m).concat(" | Query: ").concat(sql);
    proof {
        assert(r@ =~= sql_error_text(m@, sql@));
    }
    r
}

/// Build the binding-failure string.
pub fn bind_error_message(e: &BindError) -> (r: String)
    ensures
        r@ == bind_error_text(*e),
{
    match e {
        BindError::InvalidNumber => String::from_str("Invalid number type"),
        BindError::UnsupportedType => String::from_str("Unsupported parameter type"),
    }
}

} // verus!
