//! Select one of your existing contexts or to create a new one

use vstd::prelude::*;

use crate::errors::Errors;

verus! {

/// Select one of your existing contexts or to create a new one
pub struct Cli {
    pub url: Option<String>,
}

impl Cli {
    pub fn exec(&self) -> (r: Result<(), Errors>)
        ensures
            r is Ok,
    {
        Ok(())
    }
}

} // verus!
