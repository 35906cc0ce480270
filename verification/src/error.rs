//! The errors of the library.

use vstd::prelude::*;
use crate::types::scraped_webpage_info::FromHtmlStrError;

verus! {

/// The text of an error that some other component reported.
#[derive(Clone, Debug, PartialEq, Eq)]
pub struct WrapBoxError(pub String);

/// Library error.
#[derive(Clone, Debug, PartialEq, Eq)]
pub enum Error {
    /// A URL could not be built from its parts.
    InvalidUrl,
    /// The state of a page could not be had.
    InvalidScrapedWebPage(FromHtmlStrError),
    /// The data of a stash page could not be had.
    InvalidScrapedStashInfo(crate::types::scraped_stash_info::FromHtmlStrError),
    /// Signing in failed; the site gives no reason.
    SignInFailed,
    /// A page lacks a field that is needed.
    MissingField {
        /// The name of the field.
        name: &'static str,
    },
    /// A page lacks its streams.
    MissingStreams,
    /// A page has streams, but none of search results.
    MissingBrowsePageStream,
    /// A page lists a work among its results and does not hold it.
    MissingDeviation(u64),
    /// The cookie store reported an error.
    CookieStore(WrapBoxError),
}

} // verus!
