//! Page-state extraction and media-URL resolution for a media-sharing site
//! that offers no public API.
//!
//! The library works on plain values only: it locates the state blob that a
//! page embeds, models the decoded state as a typed entity graph, answers the
//! lookups on it, and builds the URLs of the binary assets. Network traffic,
//! JSON decoding and files belong to the caller.

pub mod commands;
pub mod decimal;
pub mod error;
pub mod extension;
pub mod folder;
pub mod links;
pub mod literature;
pub mod pattern;
pub mod search;
pub mod session;
pub mod split;
pub mod stability;
pub mod summary;
pub mod template;
pub mod text;
pub mod types;
pub mod util;

pub use self::error::Error;
pub use self::error::WrapBoxError;
pub use self::types::Deviation;
pub use self::types::DeviationExtended;
pub use self::types::OEmbed;
pub use self::types::ScrapedStashInfo;
pub use self::types::ScrapedWebPageInfo;
