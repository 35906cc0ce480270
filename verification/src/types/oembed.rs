//! The answer of the site's oEmbed service.

use vstd::prelude::*;
use crate::types::media::UnknownField;

verus! {

/// An oEmbed answer.
#[derive(Clone, Debug, PartialEq, Eq)]
pub struct OEmbed {
    /// The URL of the asset.
    pub url: String,
    /// The URL of the thumbnail.
    pub thumbnail_url: Option<String>,
    /// The title.
    pub title: String,
    /// Members of unknown purpose.
    pub unknown: Vec<UnknownField>,
}

} // verus!
