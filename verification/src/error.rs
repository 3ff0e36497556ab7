//! Application errors: four illustrative failure shapes, each with a
//! rendered human-readable message.

use vstd::prelude::*;
use vstd::string::StringExecFns;

verus! {

/// A tagged union of failure shapes.
#[derive(Debug)]
pub enum AppError {
    NotFound(String),
    Unauthorized,
    NetworkError(String),
    ParseError { field: String, message: String },
}

impl AppError {
    /// The text that `message` renders for this error.
    pub open spec fn message_view(&self) -> Seq<char> {
        match self {
            AppError::NotFound(msg) => "Not found: "@ + msg@,
            AppError::Unauthorized => "Unauthorized access"@,
            AppError::NetworkError(msg) => "Network error: "@ + msg@,
            AppError::ParseError { field, message } => "Parse error in "@ + field@ + ": "@
                + message@,
        }
    }

    /// Render the error as human-readable text.
    pub fn message(&self) -> (s: String)
        ensures
            s@ == self.message_view(),
    {
        match self {
            AppError::NotFound(msg) => {
                let mut s = "Not found: ".to_owned();
                s.append(msg.as_str());
                s
            },
            AppError::Unauthorized => "Unauthorized access".to_owned(),
            AppError::NetworkError(msg) => {
                let mut s = "Network error: ".to_owned();
                s.append(msg.as_str());
                s
            },
            AppError::ParseError { field, message } => {
                let mut s = "Parse error in ".to_owned();
                s.append(field.as_str());
                s.append(": ");
                s.append(message.as_str());
                s
            },
        }
    }
}

} // verus!
