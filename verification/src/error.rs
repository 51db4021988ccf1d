//! The closed set of failures the service reports, and how each is shown to a
//! client.

use crate::text::contains;
use crate::text::mentions;
use vstd::prelude::*;
use vstd::string::StringExecFns;

verus! {

/// Status of a response to a request that the client must correct.
pub const BAD_REQUEST: u16 = 400;

/// Status of a response to a request that failed inside the service.
pub const INTERNAL_SERVER_ERROR: u16 = 500;

/// Name of the index that keeps email addresses unique among subscribers.
pub const EMAIL_INDEX: &'static str = "userEmailIndex";

/// Every failure the service can report.
#[derive(Debug, Clone, PartialEq, Eq)]
pub enum AppError {
    /// A failure of no other kind, with its description.
    Custom(String),
    /// The email address is already subscribed.
    EmailAlreadyExists,
    /// The store failed.
    DatabaseError,
    /// No subscriber has the email address asked for.
    UserNotFound,
    /// The environment names no known deployment.
    EnvError,
    /// The name breaks a rule for names.
    InvalidName,
    /// The email address is no email address.
    InvalidEmail,
}

/// What a client is sent when a request fails.
#[derive(Debug, Clone, PartialEq, Eq)]
pub struct ErrorResponse {
    /// The HTTP status.
    pub status: u16,
    /// The text of the body.
    pub body: String,
}

impl AppError {
    /// The HTTP status that reports this failure: 400 for what the client can
    /// correct, 500 for the rest.
    pub open spec fn status(self) -> u16 {
        match self {
            AppError::EmailAlreadyExists | AppError::UserNotFound | AppError::InvalidName
            | AppError::InvalidEmail => BAD_REQUEST,
            AppError::Custom(_) | AppError::DatabaseError | AppError::EnvError =>
            INTERNAL_SERVER_ERROR,
        }
    }

    /// The text that reports this failure.
    pub open spec fn body(self) -> Seq<char> {
        match self {
            AppError::Custom(description) => "Error: "@ + description@,
            AppError::EmailAlreadyExists => "Email already exists"@,
            AppError::DatabaseError => "Database error"@,
            AppError::UserNotFound => "User not found"@,
            AppError::EnvError => "Wrong environment variable APP_ENVIRONMENT"@,
            AppError::InvalidName => "Invalid name"@,
            AppError::InvalidEmail => "Invalid email"@,
        }
    }

    /// The response that reports this failure to a client.
    pub fn into_response(self) -> (response: ErrorResponse)
        ensures
            response.status == self.status(),
            response.body@ == self.body(),
    {
        match self {
            AppError::Custom(description) => {
                let mut body = String::from_str("Error: ");
                body.append(description.as_str());
                ErrorResponse { status: INTERNAL_SERVER_ERROR, body }
            },
            AppError::EmailAlreadyExists => ErrorResponse {
                status: BAD_REQUEST,
                body: String::from_str("Email already exists"),
            },
            AppError::DatabaseError => ErrorResponse {
                status: INTERNAL_SERVER_ERROR,
                body: String::from_str("Database error"),
            },
            AppError::UserNotFound => ErrorResponse {
                status: BAD_REQUEST,
                body: String::from_str("User not found"),
            },
            AppError::EnvError => ErrorResponse {
                status: INTERNAL_SERVER_ERROR,
                body: String::from_str("Wrong environment variable APP_ENVIRONMENT"),
            },
            AppError::InvalidName => ErrorResponse {
                status: BAD_REQUEST,
                body: String::from_str("Invalid name"),
            },
            AppError::InvalidEmail => ErrorResponse {
                status: BAD_REQUEST,
                body: String::from_str("Invalid email"),
            },
        }
    }
}

/// The kind of failure that a refused insert stands for, told from the
/// store's description of it: a description that mentions the email index
/// reports a second subscriber with one email address, any other a failure
/// of the store.
pub open spec fn insert_failure(description: Seq<char>) -> AppError {
    if mentions(description, EMAIL_INDEX@) {
        AppError::EmailAlreadyExists
    } else {
        AppError::DatabaseError
    }
}

/// Classifies a refused insert by the store's description of the failure.
pub fn classify_insert_failure(description: &str) -> (kind: AppError)
    ensures
        kind == insert_failure(description@),
{
    if contains(description, EMAIL_INDEX) {
        AppError::EmailAlreadyExists
    } else {
        AppError::DatabaseError
    }
}

} // verus!
