//! Command surfaces whose decisions the library owns.
//!
//! Argument parsing and command routing stay with the binary; these types
//! carry the parsed values.

pub mod list;
pub mod render;
pub mod using;
