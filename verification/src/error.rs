//! Errors of the database layer and of the HTTP routes.
use vstd::prelude::*;

verus! {

/// An error of the database layer.
pub enum DatabaseError {
    /// No live document has the id (the id's text is carried).
    NotFound(String),
    /// A statement or a mapping failed; the text describes it.
    Operation(String),
}

/// The text of a database error.
pub open spec fn database_error_text(e: DatabaseError) -> Seq<char> {
    match e {
        DatabaseError::NotFound(id) => not_found_prefix() + id@,
        DatabaseError::Operation(m) => m@,
    }
}

pub open spec fn not_found_prefix() -> Seq<char> {
    "record not found: "@
}

impl DatabaseError {
    /// The error's message: `record not found: {id}` for a missing record,
    /// the operation's own message otherwise.
    pub fn message(&self) -> (r: String)
        ensures
            r@ == database_error_text(*self),
    {
        match self {
            DatabaseError::NotFound(id) => {
                let mut r = String::new();
                r.append("record not found: ");
                r.append(id.as_str());
                r
            },
            DatabaseError::Operation(m) => m.clone(),
        }
    }
}

/// An error answered by a route.
pub enum RouteError {
    /// The request is malformed (HTTP 400); the text says what was wrong.
    BadRequest(String),
    /// The request could not be served (HTTP 500); the text says why.
    Internal(String),
}

impl RouteError {
    /// The HTTP status the error is answered with.
    pub fn status_code(&self) -> (r: u16)
        ensures
            r == (match *self {
                RouteError::BadRequest(_) => 400u16,
                RouteError::Internal(_) => 500u16,
            }),
    {
        match self {
            RouteError::BadRequest(_) => 400,
            RouteError::Internal(_) => 500,
        }
    }
}

/// A database error as answered by a route: every database error, a
/// missing document included, is a server error (HTTP 500).
pub fn e500(e: DatabaseError) -> (r: RouteError)
    ensures
        r matches RouteError::Internal(m) && m@ == database_error_text(e),
{
    RouteError::Internal(e.message())
}

} // verus!
