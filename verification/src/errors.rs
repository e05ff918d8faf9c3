//! Errors of the session-transcript locator: the session file may be
//! missing, the home directory unknown, or a directory unreadable.

use vstd::prelude::*;

verus! {

/// Why a session transcript could not be located.
pub enum SpecError {
    /// The home directory could not be determined.
    HomeNotFound,
    /// No project directory holds `{session_id}.jsonl`.
    SessionNotFound { session_id: String, projects_dir: String },
    /// A directory could not be read; the detail text of the underlying
    /// failure.
    Io(String),
}

impl SpecError {
    /// The human-readable text of this error.
    pub open spec fn spec_message(&self) -> Seq<char> {
        match self {
            SpecError::HomeNotFound => "Home directory not found"@,
            SpecError::SessionNotFound { session_id, projects_dir } => "Session file "@
                + session_id@ + ".jsonl not found in any project directory under "@
                + projects_dir@,
            SpecError::Io(detail) => "Failed to read directory: "@ + detail@,
        }
    }

    /// Renders the error for display.
    pub fn message(&self) -> (r: String)
        ensures
            r@ == self.spec_message(),
    {
        match self {
            SpecError::HomeNotFound => "Home directory not found".to_owned(),
            SpecError::SessionNotFound { session_id, projects_dir } => {
                let mut s = "Session file ".to_owned();
                s.append(session_id.as_str());
                s.append(".jsonl not found in any project directory under ");
                s.append(projects_dir.as_str());
                s
            },
            SpecError::Io(detail) => {
                let mut s = "Failed to read directory: ".to_owned();
                s.append(detail.as_str());
                s
            },
        }
    }
}

} // verus!
