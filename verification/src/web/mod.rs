//! What the playground shows the interpreter of the page it runs in.
//!
//! The objects themselves are made by the glue around the interpreter. This
//! module holds what they carry and how they fail.

use vstd::prelude::*;

pub mod location;
pub mod window;

verus! {

/// A failure that ends the program's run: the host object behind a value
/// could not be reached.
#[derive(Debug)]
pub struct Fatal {
    /// What went wrong, for display.
    pub message: String,
}

} // verus!
