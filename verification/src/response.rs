//! The errors that a request can end in, and how a database error becomes
//! one of them.

use vstd::prelude::*;

verus! {

/// What kind of constraint a database error reports.
#[derive(Clone, Copy, Debug, PartialEq, Eq, Structural)]
pub enum DbErrorKind {
    UniqueViolation,
    ForeignKeyViolation,
    Other,
}

/// An error of the database layer, as far as a response depends on it.
#[derive(Debug)]
pub enum DbError {
    /// The database refused a statement.
    DatabaseError { kind: DbErrorKind, message: String },
    /// A query could not be built.
    QueryBuilderError { message: String },
    /// Anything else.
    Other { message: String },
}

/// An error that a request can end in.
#[derive(Debug)]
pub enum ResponseError {
    /// The request relies on a resource that does not exist.
    NotFound,
    /// The request uses an identifier that is already taken.
    AlreadyExists,
    /// An update names no field to change.
    NoUpdate,
    /// The caller is not logged in.
    Unauthenticated,
    /// The caller's credentials were not accepted.
    InvalidCredentials,
    /// The input broke a validation rule; the text names the fields.
    ValidationErrors(String),
    /// No database connection could be had; the text says why.
    R2d2Error(String),
    /// The database failed in a way the caller cannot mend.
    DieselError(DbError),
    /// The identity provider's client failed; the text says why.
    OpenIdClientError(String),
    /// The identity provider refused; the text says why.
    OpenIdError(String),
}

/// Whether `needle` occurs in `haystack`.
pub open spec fn contains_text(haystack: Seq<char>, needle: Seq<char>) -> bool {
    exists|i: int|
        0 <= i && i + needle.len() <= haystack.len() && #[trigger] haystack.subrange(
            i,
            i + needle.len(),
        ) == needle
}

/// Searches `haystack` for `needle` with `str::contains`, which is true
/// exactly if the pattern matches some part of the text.
#[verifier::external_body]
fn text_contains(haystack: &str, needle: &str) -> (r: bool)
    ensures
        r == contains_text(haystack@, needle@),
{
    haystack.contains(needle)
}

/// Which database errors are the caller's fault, and so become a
/// specific response in place of a server error.
#[derive(Clone, Copy, Debug)]
pub struct DbErrorConverter {
    /// A foreign key violation means that a resource was not found.
    pub fk_violation_to_not_found: bool,
    /// A unique violation means that a resource already exists.
    pub unique_violation_to_exists: bool,
    /// A query without changes means that an update named no field.
    pub query_builder_to_no_update: bool,
}

impl Default for DbErrorConverter {
    fn default() -> (r: Self)
        ensures
            !r.fk_violation_to_not_found,
            !r.unique_violation_to_exists,
            !r.query_builder_to_no_update,
    {
        DbErrorConverter {
            fk_violation_to_not_found: false,
            unique_violation_to_exists: false,
            query_builder_to_no_update: false,
        }
    }
}

impl DbErrorConverter {
    /// The response that `error` becomes.
    pub open spec fn converted(self, error: DbError) -> ResponseError {
        match error {
            DbError::DatabaseError { kind, message } => if kind == DbErrorKind::ForeignKeyViolation
                && self.fk_violation_to_not_found {
                ResponseError::NotFound
            } else if kind == DbErrorKind::UniqueViolation && self.unique_violation_to_exists {
                ResponseError::AlreadyExists
            } else {
                ResponseError::DieselError(error)
            },
            DbError::QueryBuilderError { message } => if self.query_builder_to_no_update
                && contains_text(message@, "no changes to save"@) {
                ResponseError::NoUpdate
            } else {
                ResponseError::DieselError(error)
            },
            DbError::Other { message } => ResponseError::DieselError(error),
        }
    }

    /// Passes a success on, and turns a database error into the response
    /// that the converter's switches ask for; with a switch off, or for
    /// any other error, that is a server error that holds the database
    /// error.
    pub fn convert<T>(self, result: Result<T, DbError>) -> (r: Result<T, ResponseError>)
        ensures
            match result {
                Ok(value) => r == Ok::<T, ResponseError>(value),
                Err(error) => r == Err::<T, ResponseError>(self.converted(error)),
            },
    {
        match result {
            Ok(value) => Ok(value),
            Err(error) => {
                let specific = match &error {
                    DbError::DatabaseError { kind, message } => match kind {
                        DbErrorKind::ForeignKeyViolation => if self.fk_violation_to_not_found {
                            Some(ResponseError::NotFound)
                        } else {
                            None
                        },
                        DbErrorKind::UniqueViolation => if self.unique_violation_to_exists {
                            Some(ResponseError::AlreadyExists)
                        } else {
                            None
                        },
                        DbErrorKind::Other => None,
                    },
                    DbError::QueryBuilderError { message } => if self.query_builder_to_no_update
                        && text_contains(message.as_str(), "no changes to save") {
                        Some(ResponseError::NoUpdate)
                    } else {
                        None
                    },
                    DbError::Other { message } => None,
                };
                match specific {
                    Some(response) => Err(response),
                    None => Err(ResponseError::DieselError(error)),
                }
            },
        }
    }
}

/// The text of a database error.
pub open spec fn db_error_text(error: DbError) -> Seq<char> {
    match error {
        DbError::DatabaseError { kind, message } => message@,
        DbError::QueryBuilderError { message } => message@,
        DbError::Other { message } => message@,
    }
}

/// What a response error says.
pub open spec fn response_text(error: ResponseError) -> Seq<char> {
    match error {
        ResponseError::NotFound => "Not found"@,
        ResponseError::AlreadyExists => "This resource already exists"@,
        ResponseError::NoUpdate => "No fields were given to update"@,
        ResponseError::Unauthenticated => "Not logged in"@,
        ResponseError::InvalidCredentials => "Invalid credentials"@,
        ResponseError::ValidationErrors(text) => "Validator error: "@ + text@,
        ResponseError::R2d2Error(text) => "Database error: "@ + text@,
        ResponseError::DieselError(inner) => "Database error: "@ + db_error_text(inner),
        ResponseError::OpenIdClientError(text) => text@,
        ResponseError::OpenIdError(text) => text@,
    }
}

impl ResponseError {
    /// What the error says.
    pub fn message(&self) -> (text: String)
        ensures
            text@ == response_text(*self),
    {
        match self {
            ResponseError::NotFound => "Not found".to_owned(),
            ResponseError::AlreadyExists => "This resource already exists".to_owned(),
            ResponseError::NoUpdate => "No fields were given to update".to_owned(),
            ResponseError::Unauthenticated => "Not logged in".to_owned(),
            ResponseError::InvalidCredentials => "Invalid credentials".to_owned(),
            ResponseError::ValidationErrors(text) => vstd::string::StringExecFns::concat(
                "Validator error: ".to_owned(),
                text.as_str(),
            ),
            ResponseError::R2d2Error(text) => vstd::string::StringExecFns::concat(
                "Database error: ".to_owned(),
                text.as_str(),
            ),
            ResponseError::OpenIdClientError(text) => text.as_str().to_owned(),
            ResponseError::OpenIdError(text) => text.as_str().to_owned(),
            ResponseError::DieselError(inner) => {
                let text = "Database error: ".to_owned();
                match inner {
                    DbError::DatabaseError { kind, message } => vstd::string::StringExecFns::concat(
                        text,
                        message.as_str(),
                    ),
                    DbError::QueryBuilderError { message } => vstd::string::StringExecFns::concat(
                        text,
                        message.as_str(),
                    ),
                    DbError::Other { message } => vstd::string::StringExecFns::concat(
                        text,
                        message.as_str(),
                    ),
                }
            },
        }
    }

    /// The HTTP status that answers a request that ended in this error:
    /// 401 for bad credentials, 409 for a resource that already exists,
    /// 500 for everything else.
    pub fn status_code(&self) -> (code: u16)
        ensures
            code == match *self {
                ResponseError::InvalidCredentials => 401u16,
                ResponseError::AlreadyExists => 409u16,
                _ => 500u16,
            },
    {
        match self {
            ResponseError::InvalidCredentials => 401,
            ResponseError::AlreadyExists => 409,
            _ => 500,
        }
    }
}

} // verus!
