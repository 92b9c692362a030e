//! Maintainers known to the LKM service.

use vstd::prelude::*;

verus! {

/// Known Maintainers
#[derive(Clone, Debug)]
pub struct Maintainers {
    pub alias: String,
    pub did: String,
}

/// Prints a structure to the terminal for the user.
pub trait Print {
    fn print(&self);
}

} // verus!
