//! The search command.

use vstd::prelude::*;

verus! {

/// What the search command is asked to do.
#[derive(Clone, Debug, PartialEq, Eq)]
pub struct Options {
    /// The query.
    pub query: String,
    /// The cursor of the page to begin with.
    pub cursor: Option<String>,
    /// Whether signing in is left out.
    pub no_login: bool,
}

} // verus!
