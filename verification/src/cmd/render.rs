//! Perform all image builds, and output rendered Kubernetes manifests

use vstd::prelude::*;

use crate::errors::Errors;

verus! {

/// Perform all image builds, and output rendered Kubernetes manifests
pub struct Cli {
    /// If true, amp will skip yes/no confirmation from the user
    pub assume_yes: bool,
    /// Path or URL to the Amphitheatre config file
    pub filename: Option<String>,
    /// Show the build logs and output
    pub loud: bool,
    /// File to write the changed config (instead of standard output)
    pub output: Option<String>,
    /// Activate profiles by name (prefixed with `-` to disable a profile)
    pub profile: Option<Vec<String>>,
}

impl Cli {
    pub fn exec(&self) -> (r: Result<(), Errors>)
        ensures
            r is Ok,
    {
        Ok(())
    }
}

} // verus!
