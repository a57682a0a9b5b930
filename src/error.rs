use vstd::prelude::*;

verus! {

#[verifier::external_type_specification]
#[verifier::external_body]
pub struct ExSqlxError(sqlx::Error);

/// Failures of the HTTP endpoints around the engine.
#[derive(Debug)]
pub enum AppError {
    /// Missing, invalid or expired credentials.
    Auth(String),
    /// The account store failed.
    Database(sqlx::Error),
    /// Anything else that went wrong on the server.
    Internal(String),
    /// The request clashes with existing data.
    Conflict(String),
}

impl AppError {
    /// The HTTP status and the message shown to the client. Database and
    /// internal failures hide their details.
    pub open spec fn parts_spec(&self) -> (u16, Seq<char>) {
        match self {
            AppError::Auth(m) => (401u16, m@),
            AppError::Database(_) => (500u16, "Database error"@),
            AppError::Internal(_) => (500u16, "Internal error"@),
            AppError::Conflict(m) => (409u16, m@),
        }
    }

    /// The HTTP status and client message of this error.
    pub fn into_parts(self) -> (r: (u16, String))
        ensures
            r.0 == self.parts_spec().0,
            r.1@ == self.parts_spec().1,
    {
        match self {
            AppError::Auth(m) => (401, m),
            AppError::Database(_) => (500, "Database error".to_owned()),
            AppError::Internal(_) => (500, "Internal error".to_owned()),
            AppError::Conflict(m) => (409, m),
        }
    }
}

impl From<sqlx::Error> for AppError {
    fn from(err: sqlx::Error) -> (r: AppError)
        ensures
            r == AppError::Database(err),
    {
        AppError::Database(err)
    }
}

impl vstd::std_specs::convert::FromSpecImpl<sqlx::Error> for AppError {
    open spec fn obeys_from_spec() -> bool {
        true
    }

    open spec fn from_spec(err: sqlx::Error) -> AppError {
        AppError::Database(err)
    }
}

} // verus!
