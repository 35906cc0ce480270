//! The answer of the endpoint that lists a folder by offset.

use vstd::prelude::*;
use crate::types::deviation::Deviation;
use crate::types::media::UnknownField;

verus! {

/// One page of a folder's contents.
#[derive(Clone, Debug, PartialEq, Eq)]
pub struct ListFolderContentsResponse {
    /// Whether more works follow.
    pub has_more: bool,
    /// The offset of the next page.
    pub next_offset: Option<u64>,
    /// The works of this page.
    pub results: Vec<Deviation>,
    /// Members of unknown purpose.
    pub unknown: Vec<UnknownField>,
}

} // verus!
