use vstd::prelude::*;

use crate::text::owned;

verus! {

/// The errors of the library. Errors that come from storage, the file system or the
/// host runtime carry the text that the failing component reported.
#[derive(Debug, Clone, PartialEq, Eq)]
pub enum AppError {
    AiProvider(String),
    Conflict(String),
    Credential(String),
    Database(String),
    Io(String),
    Migration(String),
    NotFound(String),
    State(String),
    Tauri(String),
    Validation(String),
}

impl AppError {
    /// The text that describes the error to a user: a prefix naming its kind, then its message.
    pub open spec fn display(self) -> Seq<char> {
        match self {
            AppError::AiProvider(m) => "AI provider error: "@ + m@,
            AppError::Conflict(m) => "conflict: "@ + m@,
            AppError::Credential(m) => "credential store error: "@ + m@,
            AppError::Database(m) => "database error: "@ + m@,
            AppError::Io(m) => "I/O error: "@ + m@,
            AppError::Migration(m) => "migration error: "@ + m@,
            AppError::NotFound(m) => "not found: "@ + m@,
            AppError::State(m) => "application state error: "@ + m@,
            AppError::Tauri(m) => "Tauri error: "@ + m@,
            AppError::Validation(m) => "validation error: "@ + m@,
        }
    }

    /// The message that the error carries, without its prefix.
    pub open spec fn message(self) -> Seq<char> {
        match self {
            AppError::AiProvider(m) => m@,
            AppError::Conflict(m) => m@,
            AppError::Credential(m) => m@,
            AppError::Database(m) => m@,
            AppError::Io(m) => m@,
            AppError::Migration(m) => m@,
            AppError::NotFound(m) => m@,
            AppError::State(m) => m@,
            AppError::Tauri(m) => m@,
            AppError::Validation(m) => m@,
        }
    }

    /// A validation error with message `msg`.
    pub open spec fn is_validation(self, msg: Seq<char>) -> bool {
        self matches AppError::Validation(m) && m@ == msg
    }

    /// A not-found error with message `msg`.
    pub open spec fn is_not_found(self, msg: Seq<char>) -> bool {
        self matches AppError::NotFound(m) && m@ == msg
    }

    /// An application-state error with message `msg`.
    pub open spec fn is_state(self, msg: Seq<char>) -> bool {
        self matches AppError::State(m) && m@ == msg
    }

    /// A conflict error with message `msg`.
    pub open spec fn is_conflict(self, msg: Seq<char>) -> bool {
        self matches AppError::Conflict(m) && m@ == msg
    }

    /// The text that describes the error (its `Display`).
    pub fn to_display_string(&self) -> (s: String)
        ensures
            s@ == self.display(),
    {
        let (prefix, m) = match self {
            AppError::AiProvider(m) => ("AI provider error: ", m),
            AppError::Conflict(m) => ("conflict: ", m),
            AppError::Credential(m) => ("credential store error: ", m),
            AppError::Database(m) => ("database error: ", m),
            AppError::Io(m) => ("I/O error: ", m),
            AppError::Migration(m) => ("migration error: ", m),
            AppError::NotFound(m) => ("not found: ", m),
            AppError::State(m) => ("application state error: ", m),
            AppError::Tauri(m) => ("Tauri error: ", m),
            AppError::Validation(m) => ("validation error: ", m),
        };
        owned(prefix).concat(m.as_str())
    }
}

} // verus!
