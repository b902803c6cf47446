//! The error taxonomy shared by every component.

use vstd::prelude::*;
use vstd::string::*;

verus! {

/// The error type of the storage engine, `sqlx::Error`. Nothing is known of
/// a value of it but the text that it displays.
#[verifier::external_type_specification]
#[verifier::external_body]
pub struct ExSqlxError(sqlx::Error);

/// The error type of the filesystem, `std::io::Error`. Nothing is known of a
/// value of it but the text that it displays.
#[verifier::external_type_specification]
#[verifier::external_body]
pub struct ExIoError(std::io::Error);

/// The error type of the transport, `reqwest::Error`. Nothing is known of a
/// value of it but the text that it displays.
#[verifier::external_type_specification]
#[verifier::external_body]
pub struct ExReqwestError(reqwest::Error);

/// A failure of one of the components, tagged with its kind and carrying the
/// text of its cause.
#[derive(Debug, Clone, PartialEq, Eq)]
pub enum AppError {
    /// Schema, storage I/O or constraint failure.
    DatabaseError(String),
    /// Directory or file creation failure.
    IoError(String),
    /// Unknown or unserviceable external resource.
    McpError(String),
    /// Transport failure towards an external resource.
    NetworkError(String),
    /// Reserved for credentialed resources.
    AuthError(String),
    /// Anything else.
    UnknownError(String),
}

pub type AppResult<T> = Result<T, AppError>;

/// An error as plain text: its kind, and the text of its cause.
pub ghost enum ErrorText {
    DatabaseError(Seq<char>),
    IoError(Seq<char>),
    McpError(Seq<char>),
    NetworkError(Seq<char>),
    AuthError(Seq<char>),
    UnknownError(Seq<char>),
}

impl View for AppError {
    type V = ErrorText;

    open spec fn view(&self) -> ErrorText {
        match *self {
            AppError::DatabaseError(s) => ErrorText::DatabaseError(s@),
            AppError::IoError(s) => ErrorText::IoError(s@),
            AppError::McpError(s) => ErrorText::McpError(s@),
            AppError::NetworkError(s) => ErrorText::NetworkError(s@),
            AppError::AuthError(s) => ErrorText::AuthError(s@),
            AppError::UnknownError(s) => ErrorText::UnknownError(s@),
        }
    }
}

impl AppError {
    /// The text of the cause that the error carries.
    pub open spec fn cause(self) -> Seq<char> {
        match self {
            AppError::DatabaseError(s) => s@,
            AppError::IoError(s) => s@,
            AppError::McpError(s) => s@,
            AppError::NetworkError(s) => s@,
            AppError::AuthError(s) => s@,
            AppError::UnknownError(s) => s@,
        }
    }

    /// The words that introduce the cause when the error is shown.
    pub open spec fn prefix(self) -> Seq<char> {
        match self {
            AppError::DatabaseError(_) => "Database error: "@,
            AppError::IoError(_) => "IO error: "@,
            AppError::McpError(_) => "MCP error: "@,
            AppError::NetworkError(_) => "Network error: "@,
            AppError::AuthError(_) => "Authentication error: "@,
            AppError::UnknownError(_) => "Unknown error: "@,
        }
    }

    /// The error as a user reads it: the prefix of its kind, then the cause.
    pub open spec fn rendered(self) -> Seq<char> {
        self.prefix() + self.cause()
    }

    /// Renders the error for display.
    pub fn message(&self) -> (text: String)
        ensures
            text@ == self.rendered(),
    {
        match self {
            AppError::DatabaseError(s) => String::from_str("Database error: ").concat(s.as_str()),
            AppError::IoError(s) => String::from_str("IO error: ").concat(s.as_str()),
            AppError::McpError(s) => String::from_str("MCP error: ").concat(s.as_str()),
            AppError::NetworkError(s) => String::from_str("Network error: ").concat(s.as_str()),
            AppError::AuthError(s) => String::from_str("Authentication error: ").concat(s.as_str()),
            AppError::UnknownError(s) => String::from_str("Unknown error: ").concat(s.as_str()),
        }
    }
}

/// A failure of the storage engine becomes a storage error whose cause is
/// the failure's own text.
impl From<sqlx::Error> for AppError {
    fn from(error: sqlx::Error) -> (e: AppError)
        ensures
            e matches AppError::DatabaseError(cause) && to_string_from_display_ensures::<sqlx::Error>(
                &error,
                cause,
            ),
    {
        AppError::DatabaseError(error.to_string())
    }
}

/// What an outside error displays is known as a relation between the error
/// and its text, so the conversion is stated on `from` itself and not here.
impl vstd::std_specs::convert::FromSpecImpl<sqlx::Error> for AppError {
    open spec fn obeys_from_spec() -> bool {
        false
    }

    open spec fn from_spec(error: sqlx::Error) -> AppError {
        AppError::DatabaseError(choose|cause: String| to_string_from_display_ensures::<sqlx::Error>(&error, cause))
    }
}

/// A failure of the filesystem becomes a filesystem error whose cause is the
/// failure's own text.
impl From<std::io::Error> for AppError {
    fn from(error: std::io::Error) -> (e: AppError)
        ensures
            e matches AppError::IoError(cause) && to_string_from_display_ensures::<std::io::Error>(
                &error,
                cause,
            ),
    {
        AppError::IoError(error.to_string())
    }
}

/// What an outside error displays is known as a relation between the error
/// and its text, so the conversion is stated on `from` itself and not here.
impl vstd::std_specs::convert::FromSpecImpl<std::io::Error> for AppError {
    open spec fn obeys_from_spec() -> bool {
        false
    }

    open spec fn from_spec(error: std::io::Error) -> AppError {
        AppError::IoError(choose|cause: String| to_string_from_display_ensures::<std::io::Error>(&error, cause))
    }
}

/// A failure of the transport becomes a network error whose cause is the
/// failure's own text.
impl From<reqwest::Error> for AppError {
    fn from(error: reqwest::Error) -> (e: AppError)
        ensures
            e matches AppError::NetworkError(cause) && to_string_from_display_ensures::<reqwest::Error>(
                &error,
                cause,
            ),
    {
        AppError::NetworkError(error.to_string())
    }
}

/// What an outside error displays is known as a relation between the error
/// and its text, so the conversion is stated on `from` itself and not here.
impl vstd::std_specs::convert::FromSpecImpl<reqwest::Error> for AppError {
    open spec fn obeys_from_spec() -> bool {
        false
    }

    open spec fn from_spec(error: reqwest::Error) -> AppError {
        AppError::NetworkError(choose|cause: String| to_string_from_display_ensures::<reqwest::Error>(&error, cause))
    }
}

} // verus!
