//! The command that downloads from the stash.

use vstd::prelude::*;

verus! {

/// What the stash command is asked to do.
#[derive(Clone, Debug, PartialEq, Eq)]
pub struct Options {
    /// The URL of the stash page.
    pub url: String,
}

} // verus!
