//! The closed set of ways a request can fail, and how each is shown to the
//! client.

use crate::models::auth::{ErrorResponse, ErrorResponseView};
use crate::text::join;
use vstd::prelude::*;
use vstd::string::*;

verus! {

/// A classified failure with its message.
#[derive(Debug, PartialEq, Eq)]
pub enum ServiceError {
    Unauthorized(String),
    NotFound(String),
    InternalError(String),
    DatabaseError(String),
    ValidationError(String),
    AuthenticationError(String),
}

/// [`ServiceError`] as contracts see it: text as sequences of characters.
pub enum ServiceErrorView {
    Unauthorized(Seq<char>),
    NotFound(Seq<char>),
    InternalError(Seq<char>),
    DatabaseError(Seq<char>),
    ValidationError(Seq<char>),
    AuthenticationError(Seq<char>),
}

impl DeepView for ServiceError {
    type V = ServiceErrorView;

    open spec fn deep_view(&self) -> ServiceErrorView {
        match self {
            ServiceError::Unauthorized(m) => ServiceErrorView::Unauthorized(m@),
            ServiceError::NotFound(m) => ServiceErrorView::NotFound(m@),
            ServiceError::InternalError(m) => ServiceErrorView::InternalError(m@),
            ServiceError::DatabaseError(m) => ServiceErrorView::DatabaseError(m@),
            ServiceError::ValidationError(m) => ServiceErrorView::ValidationError(m@),
            ServiceError::AuthenticationError(m) => ServiceErrorView::AuthenticationError(m@),
        }
    }
}

impl ServiceErrorView {
    /// The message the failure was raised with.
    pub open spec fn message(self) -> Seq<char> {
        match self {
            ServiceErrorView::Unauthorized(m) => m,
            ServiceErrorView::NotFound(m) => m,
            ServiceErrorView::InternalError(m) => m,
            ServiceErrorView::DatabaseError(m) => m,
            ServiceErrorView::ValidationError(m) => m,
            ServiceErrorView::AuthenticationError(m) => m,
        }
    }

    /// The HTTP status of the failure.
    pub open spec fn status_code(self) -> u16 {
        match self {
            ServiceErrorView::Unauthorized(_) => 401,
            ServiceErrorView::NotFound(_) => 404,
            ServiceErrorView::InternalError(_) => 500,
            ServiceErrorView::DatabaseError(_) => 500,
            ServiceErrorView::ValidationError(_) => 400,
            ServiceErrorView::AuthenticationError(_) => 401,
        }
    }

    /// What the client is told: the message itself, except for storage and
    /// internal failures, whose details stay on the server.
    pub open spec fn client_message(self) -> Seq<char> {
        match self {
            ServiceErrorView::InternalError(_) => "Something went wrong"@,
            ServiceErrorView::DatabaseError(_) => "Database operation failed"@,
            _ => self.message(),
        }
    }

    /// The label each kind is logged under.
    pub open spec fn label(self) -> Seq<char> {
        match self {
            ServiceErrorView::Unauthorized(_) => "Unauthorized: "@,
            ServiceErrorView::NotFound(_) => "Not Found: "@,
            ServiceErrorView::InternalError(_) => "Internal Error: "@,
            ServiceErrorView::DatabaseError(_) => "Database Error: "@,
            ServiceErrorView::ValidationError(_) => "Validation Error: "@,
            ServiceErrorView::AuthenticationError(_) => "Authentication Error: "@,
        }
    }

    /// The failure as one line of text: its label, then its message.
    pub open spec fn display(self) -> Seq<char> {
        self.label() + self.message()
    }

    /// The error response: the status and the envelope that goes with it.
    pub open spec fn response(self) -> ErrorReplyView {
        ErrorReplyView {
            status: self.status_code(),
            body: ErrorResponseView { status: "error"@, message: self.client_message() },
        }
    }
}

/// An error answer: the HTTP status and the envelope that goes with it.
#[derive(Debug, PartialEq, Eq)]
pub struct ErrorReply {
    pub status: u16,
    pub body: ErrorResponse,
}

/// [`ErrorReply`] as contracts see it: text as sequences of characters.
pub struct ErrorReplyView {
    pub status: u16,
    pub body: ErrorResponseView,
}

impl DeepView for ErrorReply {
    type V = ErrorReplyView;

    open spec fn deep_view(&self) -> ErrorReplyView {
        ErrorReplyView { status: self.status, body: self.body.deep_view() }
    }
}

/// The view of a result whose error is a `ServiceError`.
pub open spec fn outcome_view<T: DeepView>(r: Result<T, ServiceError>) -> Result<
    T::V,
    ServiceErrorView,
> {
    match r {
        Ok(v) => Ok(v.deep_view()),
        Err(e) => Err(e.deep_view()),
    }
}

#[verifier::external_type_specification]
#[verifier::external_body]
pub struct ExSqlxError(sqlx::Error);

#[verifier::external_type_specification]
#[verifier::external_body]
pub struct ExBcryptError(bcrypt::BcryptError);

#[verifier::external_type_specification]
#[verifier::external_body]
pub struct ExTokenError(jsonwebtoken::errors::Error);

/// Whether a storage error is `sqlx::Error::RowNotFound`: a query that had
/// to return a row returned none.
pub uninterp spec fn row_missing(err: sqlx::Error) -> bool;

/// The `Display` text of a storage error.
pub uninterp spec fn storage_text(err: sqlx::Error) -> Seq<char>;

/// The `Display` text of a password-hashing error.
pub uninterp spec fn hashing_text(err: bcrypt::BcryptError) -> Seq<char>;

/// The `Display` text of a token-codec error.
pub uninterp spec fn token_text(err: jsonwebtoken::errors::Error) -> Seq<char>;

/// Whether `err` is the variant `sqlx::Error::RowNotFound`.
#[verifier::external_body]
fn is_row_not_found(err: &sqlx::Error) -> (missing: bool)
    ensures
        missing == row_missing(*err),
{
    match err {
        sqlx::Error::RowNotFound => true,
        _ => false,
    }
}

/// `to_string` on a `sqlx::Error`: its `Display` text.
#[verifier::external_body]
fn storage_error_text(err: &sqlx::Error) -> (text: String)
    ensures
        text@ == storage_text(*err),
{
    err.to_string()
}

/// `to_string` on a `bcrypt::BcryptError`: its `Display` text.
#[verifier::external_body]
fn hashing_error_text(err: &bcrypt::BcryptError) -> (text: String)
    ensures
        text@ == hashing_text(*err),
{
    err.to_string()
}

/// `to_string` on a `jsonwebtoken::errors::Error`: its `Display` text.
#[verifier::external_body]
fn token_error_text(err: &jsonwebtoken::errors::Error) -> (text: String)
    ensures
        text@ == token_text(*err),
{
    err.to_string()
}

impl ServiceError {
    /// The message the failure was raised with.
    pub fn message(&self) -> (m: &String)
        ensures
            m@ == self.deep_view().message(),
    {
        match self {
            ServiceError::Unauthorized(m) => m,
            ServiceError::NotFound(m) => m,
            ServiceError::InternalError(m) => m,
            ServiceError::DatabaseError(m) => m,
            ServiceError::ValidationError(m) => m,
            ServiceError::AuthenticationError(m) => m,
        }
    }

    /// The HTTP status of the failure.
    pub fn status_code(&self) -> (code: u16)
        ensures
            code == self.deep_view().status_code(),
    {
        match self {
            ServiceError::Unauthorized(_) => 401,
            ServiceError::NotFound(_) => 404,
            ServiceError::InternalError(_) => 500,
            ServiceError::DatabaseError(_) => 500,
            ServiceError::ValidationError(_) => 400,
            ServiceError::AuthenticationError(_) => 401,
        }
    }

    /// The failure as one line of text, as it is logged.
    pub fn to_string(&self) -> (line: String)
        ensures
            line@ == self.deep_view().display(),
    {
        match self {
            ServiceError::Unauthorized(m) => join("Unauthorized: ", m.as_str()),
            ServiceError::NotFound(m) => join("Not Found: ", m.as_str()),
            ServiceError::InternalError(m) => join("Internal Error: ", m.as_str()),
            ServiceError::DatabaseError(m) => join("Database Error: ", m.as_str()),
            ServiceError::ValidationError(m) => join("Validation Error: ", m.as_str()),
            ServiceError::AuthenticationError(m) => join("Authentication Error: ", m.as_str()),
        }
    }

    /// The error response: the status of the kind, and an envelope whose
    /// message is the failure's own, or a fixed text where the details must
    /// not leave the server.
    pub fn error_response(&self) -> (reply: ErrorReply)
        ensures
            reply.deep_view() == self.deep_view().response(),
    {
        let message = match self {
            ServiceError::InternalError(_) => String::from_str("Something went wrong"),
            ServiceError::DatabaseError(_) => String::from_str("Database operation failed"),
            _ => self.message().clone(),
        };
        ErrorReply {
            status: self.status_code(),
            body: ErrorResponse { status: String::from_str("error"), message },
        }
    }

    /// A storage failure as a service error: a missing row is `NotFound`,
    /// anything else a `DatabaseError` that carries `detail`.
    pub fn storage_failure(row_missing: bool, detail: String) -> (e: ServiceError)
        ensures
            e.deep_view() == if row_missing {
                ServiceErrorView::NotFound("Record not found"@)
            } else {
                ServiceErrorView::DatabaseError(detail@)
            },
    {
        if row_missing {
            ServiceError::NotFound(String::from_str("Record not found"))
        } else {
            ServiceError::DatabaseError(detail)
        }
    }

    /// A password-hashing failure as a service error.
    pub fn hashing_failure(detail: &str) -> (e: ServiceError)
        ensures
            e.deep_view() == ServiceErrorView::InternalError("Password hashing error: "@ + detail@),
    {
        ServiceError::InternalError(join("Password hashing error: ", detail))
    }

    /// A token-codec failure as a service error.
    pub fn token_failure(detail: &str) -> (e: ServiceError)
        ensures
            e.deep_view() == ServiceErrorView::AuthenticationError("JWT error: "@ + detail@),
    {
        ServiceError::AuthenticationError(join("JWT error: ", detail))
    }

    /// The service error that stands for a failure of the storage driver:
    /// `NotFound` for a row that was not there, and for anything else a
    /// `DatabaseError` with the driver's own words.
    pub fn from_sqlx(err: sqlx::Error) -> (e: ServiceError)
        ensures
            e.deep_view() == if row_missing(err) {
                ServiceErrorView::NotFound("Record not found"@)
            } else {
                ServiceErrorView::DatabaseError(storage_text(err))
            },
    {
        let missing = is_row_not_found(&err);
        ServiceError::storage_failure(missing, storage_error_text(&err))
    }

    /// The service error that stands for a failure of the password hasher:
    /// an `InternalError` with the hasher's own words.
    pub fn from_bcrypt(err: bcrypt::BcryptError) -> (e: ServiceError)
        ensures
            e.deep_view() == ServiceErrorView::InternalError(
                "Password hashing error: "@ + hashing_text(err),
            ),
    {
        let detail = hashing_error_text(&err);
        ServiceError::hashing_failure(detail.as_str())
    }

    /// The service error that stands for a failure of the token codec: an
    /// `AuthenticationError` with the codec's own words.
    pub fn from_jwt(err: jsonwebtoken::errors::Error) -> (e: ServiceError)
        ensures
            e.deep_view() == ServiceErrorView::AuthenticationError(
                "JWT error: "@ + token_text(err),
            ),
    {
        let detail = token_error_text(&err);
        ServiceError::token_failure(detail.as_str())
    }
}

} // verus!
