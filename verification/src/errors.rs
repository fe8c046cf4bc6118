//! Error taxonomy of the synchronization core.
//!
//! Only the failures that the verified logic itself can produce are
//! represented; transport and setup failures live with the code that
//! performs that I/O.

use vstd::prelude::*;

verus! {

/// What can go wrong while turning an event batch into a request.
///
/// `FailedStripPrefix` reports a path that is not under the workspace root:
/// a programming-invariant violation, since the watcher is scoped to the
/// root. The two archive variants carry the underlying I/O error rendered
/// as text; a partial archive is never handed out.
#[derive(Debug)]
pub enum Errors {
    FailedStripPrefix,
    FailedAppendPath(String),
    FailedFinishTar(String),
    InvalidIgnoreRules(String),
}

impl Errors {
    /// A short human-readable description of the error.
    pub fn message(&self) -> (r: String)
        ensures
            r@ == self.message_spec(),
    {
        match self {
            Errors::FailedStripPrefix => String::from_str("Failed to strip prefix"),
            Errors::FailedAppendPath(e) => String::from_str("Failed to append path: ").concat(
                e.as_str(),
            ),
            Errors::FailedFinishTar(e) => String::from_str("Failed to finish tar: ").concat(
                e.as_str(),
            ),
            Errors::InvalidIgnoreRules(e) => String::from_str("Invalid ignore rules: ").concat(
                e.as_str(),
            ),
        }
    }

    /// The text that `message` returns.
    pub open spec fn message_spec(&self) -> Seq<char> {
        match self {
            Errors::FailedStripPrefix => "Failed to strip prefix"@,
            Errors::FailedAppendPath(e) => "Failed to append path: "@ + e@,
            Errors::FailedFinishTar(e) => "Failed to finish tar: "@ + e@,
            Errors::InvalidIgnoreRules(e) => "Invalid ignore rules: "@ + e@,
        }
    }
}

} // verus!
