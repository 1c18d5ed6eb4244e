//! The handler: a document root fixed at construction, and the composed
//! script-execution stage. Handling one request runs in stages; the
//! filesystem steps between them (canonicalizing the root and the joined
//! path, reading the script) happen in the surrounding process:
//!
//! 1. `resolve::check_request_path` on the request's URL path,
//! 2. the root and the joined path (`resolve::join_under_root`) are
//!    canonicalized outside, then `resolve::check_confinement` on the two
//!    canonical strings,
//! 3. the script's text, read outside, goes through `run_source` below.

use vstd::prelude::*;

use crate::errors::HandlerError;
use crate::response::success_response;
use crate::response::Response;
use crate::session::execute_source;
use crate::source::normalize_source;

verus! {

/// An embedded script environment serving one document root. The root is
/// fixed at construction; it bounds every script this handler will resolve.
pub struct Embed {
    docroot: String,
}

impl Embed {
    /// The document root this handler confines scripts to.
    pub closed spec fn spec_docroot(&self) -> Seq<char> {
        self.docroot@
    }

    /// Create a new embed with the given document root.
    pub fn new(docroot: String) -> (e: Embed)
        ensures
            e.spec_docroot() == docroot@,
    {
        Embed { docroot }
    }

    pub fn docroot(&self) -> (d: &String)
        ensures
            d@ == self.spec_docroot(),
    {
        &self.docroot
    }
}

/// The execution stage on a script's text: normalize it, run it under
/// output capture, and wrap what was captured into the success response —
/// status 200 and the captured text's bytes, nothing else. The script runs
/// exactly as written except that text lacking a trailing newline runs as
/// if one were appended. Errors out of this stage are execution or capture
/// failures alone; path and read errors belong to the earlier stages.
pub fn run_source(code: String) -> (r: Result<Response, HandlerError>)
    ensures
        r matches Ok(resp) ==> resp.spec_status() == 200,
        r matches Err(e) ==> (e matches HandlerError::ScriptExecutionFailed(_) || e matches
            HandlerError::OutputCaptureFailed(_)),
{
    let normalized_code = normalize_source(code);
    match execute_source(normalized_code.as_str()) {
        Ok(output) => Ok(success_response(output.as_str())),
        Err(e) => Err(e),
    }
}

} // verus!
