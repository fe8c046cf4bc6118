//! List all available contexts

use vstd::prelude::*;

verus! {

/// List all available contexts
///
/// Reading the stored contexts and rendering the table is I/O and stays
/// with the binary.
pub struct Cli {}

} // verus!
