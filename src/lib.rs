//! Format metadata for the engine's glue parameters: a versioned registry of
//! the parameters and the C header text generated from it.

use vstd::prelude::*;

pub mod decimal;
pub mod gluepars;
pub mod header;

verus! {

/// A version number of the engine's format.
pub type FormatVersion = u32;

} // verus!
