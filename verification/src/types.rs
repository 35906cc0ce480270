//! The typed entity graph that a page's state decodes to.

pub mod deviation;
pub mod entries;
pub mod list_folder_contents_response;
pub mod media;
pub mod oembed;
pub mod scraped_stash_info;
pub mod scraped_webpage_info;

pub use self::deviation::Deviation;
pub use self::media::Media;
pub use self::oembed::OEmbed;
pub use self::scraped_stash_info::ScrapedStashInfo;
pub use self::scraped_webpage_info::DeviationExtended;
pub use self::scraped_webpage_info::ScrapedWebPageInfo;
