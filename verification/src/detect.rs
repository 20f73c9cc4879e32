//! Best-effort classification of a source file. Sniffing the content and
//! asking the system's type utility are done by the surrounding program;
//! the result is advisory only and is never read by the planning rules.

use vstd::prelude::*;

verus! {

/// What was learned about a source file: a content-sniffed MIME type, the
/// lowercased extension hint, and a MIME type reported by a system utility.
/// Every field degrades to `None` when detection fails.
#[derive(Debug, Clone)]
pub struct DetectedType {
    pub mime: Option<String>,
    pub ext_hint: Option<String>,
    pub file_mime: Option<String>,
}

impl DetectedType {
    /// A detection result with every field absent.
    pub fn unknown() -> (r: DetectedType)
        ensures
            r.mime is None,
            r.ext_hint is None,
            r.file_mime is None,
    {
        DetectedType { mime: None, ext_hint: None, file_mime: None }
    }
}

} // verus!
