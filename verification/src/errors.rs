//! The handler's error taxonomy. Component-level kinds are preserved all the
//! way to the boundary; `message` erases a kind to the human-readable string
//! that the outermost caller reports.

use vstd::prelude::*;

verus! {

/// Everything that can go wrong while handling one request.
#[derive(Debug, Clone, PartialEq, Eq)]
pub enum HandlerError {
    /// The request path escapes the document root, either syntactically
    /// (a parent-directory segment) or after canonicalization.
    PathTraversal,
    /// The document root itself could not be accessed or canonicalized.
    DocrootUnavailable(String),
    /// The script file could not be found or read.
    ScriptReadFailed(String),
    /// The script raised an error or failed to parse.
    ScriptExecutionFailed(String),
    /// The captured output could not be read back, or the interpreter's
    /// standard-output binding could not be switched or restored.
    OutputCaptureFailed(String),
}

impl HandlerError {
    /// The human-readable message that `message` returns for this error.
    pub open spec fn spec_message(&self) -> Seq<char> {
        match self {
            HandlerError::PathTraversal => "path traversal attempt"@,
            HandlerError::DocrootUnavailable(detail) => "failed to access docroot: "@ + detail@,
            HandlerError::ScriptReadFailed(detail) => "failed to read script: "@ + detail@,
            HandlerError::ScriptExecutionFailed(detail) => detail@,
            HandlerError::OutputCaptureFailed(detail) => detail@,
        }
    }

    /// Erase this error to the string reported at the external boundary.
    pub fn message(&self) -> (m: String)
        ensures
            m@ == self.spec_message(),
    {
        match self {
            HandlerError::PathTraversal => String::from_str("path traversal attempt"),
            HandlerError::DocrootUnavailable(detail) => {
                let mut m = String::from_str("failed to access docroot: ");
                m.append(detail.as_str());
                m
            },
            HandlerError::ScriptReadFailed(detail) => {
                let mut m = String::from_str("failed to read script: ");
                m.append(detail.as_str());
                m
            },
            HandlerError::ScriptExecutionFailed(detail) => detail.clone(),
            HandlerError::OutputCaptureFailed(detail) => detail.clone(),
        }
    }
}

} // verus!
