use vstd::prelude::*;

use crate::text::{is_prefix, join2, starts_with, trim_whitespace, trimmed};

verus! {

/// What `str::to_lowercase` makes of a string.
pub uninterp spec fn lowercased(s: Seq<char>) -> Seq<char>;

/// Relies on str::to_lowercase: the lowercase mapping of each character; the
/// result depends on the characters alone.
#[verifier::external_body]
fn to_lowercase(s: &str) -> (r: String)
    ensures
        r@ == lowercased(s@),
{
    s.to_lowercase()
}

/// A normalized query that starts like a statement that writes.
pub open spec fn write_keyword(q: Seq<char>) -> bool {
    ||| is_prefix("insert"@, q)
    ||| is_prefix("update"@, q)
    ||| is_prefix("delete"@, q)
    ||| is_prefix("drop"@, q)
    ||| is_prefix("create"@, q)
    ||| is_prefix("alter"@, q)
}

/// Whether an already trimmed, lowercased query starts with a writing keyword.
pub fn starts_with_write_keyword(normalized: &str) -> (r: bool)
    ensures
        r == write_keyword(normalized@),
{
    starts_with(normalized, "insert") || starts_with(normalized, "update") || starts_with(
        normalized,
        "delete",
    ) || starts_with(normalized, "drop") || starts_with(normalized, "create") || starts_with(
        normalized,
        "alter",
    )
}

/// Whether a query would write: trimmed and lowercased, it starts with a
/// writing keyword.
pub fn is_write_query(query: &str) -> (r: bool)
    ensures
        r == write_keyword(lowercased(trimmed(query@))),
{
    let normalized = to_lowercase(trim_whitespace(query));
    starts_with_write_keyword(normalized.as_str())
}

/// Failures of the binary query server.
#[derive(Debug, Clone)]
pub enum DbError {
    Io(String),
    Database(String),
    Serialization(String),
    Protocol(String),
    WriteAttempted,
    AuthFailed,
}

impl DbError {
    /// The text that reports the error.
    pub fn message(&self) -> (r: String)
        ensures
            self is WriteAttempted ==> r@ == "Write operation attempted"@,
            self is AuthFailed ==> r@ == "Authentication failed"@,
            self matches DbError::Io(m) ==> r@ == "IO error: "@ + m@,
            self matches DbError::Database(m) ==> r@ == "Database error: "@ + m@,
            self matches DbError::Serialization(m) ==> r@ == "Serialization error: "@ + m@,
            self matches DbError::Protocol(m) ==> r@ == "Protocol error: "@ + m@,
    {
        match self {
            DbError::Io(m) => join2("IO error: ", m.as_str()),
            DbError::Database(m) => join2("Database error: ", m.as_str()),
            DbError::Serialization(m) => join2("Serialization error: ", m.as_str()),
            DbError::Protocol(m) => join2("Protocol error: ", m.as_str()),
            DbError::WriteAttempted => "Write operation attempted".to_string(),
            DbError::AuthFailed => "Authentication failed".to_string(),
        }
    }
}

/// Refuse a query that would write, before it reaches the database.
pub fn guard_read_query(query: &str) -> (r: Result<(), DbError>)
    ensures
        r is Err <==> write_keyword(lowercased(trimmed(query@))),
        r is Err ==> r->Err_0 is WriteAttempted,
{
    if is_write_query(query) {
        Err(DbError::WriteAttempted)
    } else {
        Ok(())
    }
}

/// The code a failed query is reported with.
pub fn query_error_code(e: &DbError) -> (r: String)
    ensures
        e is WriteAttempted ==> r@ == "WRITE_ATTEMPT"@,
        e is Database ==> r@ == "DB_ERROR"@,
        !(e is WriteAttempted) && !(e is Database) ==> r@ == "QUERY_ERROR"@,
{
    match e {
        DbError::WriteAttempted => "WRITE_ATTEMPT".to_string(),
        DbError::Database(_) => "DB_ERROR".to_string(),
        _ => "QUERY_ERROR".to_string(),
    }
}

} // verus!
