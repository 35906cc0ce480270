//! The data that a stash page embeds.

use vstd::prelude::*;
use crate::extension::{extension_of, path_extension};
use crate::links::{path_of, url_path};
use crate::pattern::{capture_first_group, first_group};
use crate::text::text_of;
use crate::types::entries::Entry;
use crate::types::media::UnknownField;

verus! {

/// The pattern that finds the data in a stash page: the first group is the
/// JSON text, which is not escaped.
pub const PAGE_DATA_PATTERN: &'static str = r#"deviantART\.pageData=(.*);"#;

/// Why no data could be had from a stash page.
#[derive(Clone, Debug, PartialEq, Eq)]
pub enum FromHtmlStrError {
    /// The page holds no page data.
    MissingPageData,
    /// The page data is not the JSON of a stash page; the text says why.
    InvalidJson(String),
}

/// One size in which a film is offered.
#[derive(Clone, Debug, PartialEq, Eq)]
pub struct Size {
    /// The height in pixels.
    pub height: u32,
    /// The width in pixels.
    pub width: u32,
    /// The URL of the file.
    pub src: String,
    /// Members of unknown purpose.
    pub unknown: Vec<UnknownField>,
}

impl Size {
    /// The number of pixels of a frame.
    pub open spec fn area(&self) -> int {
        self.width * self.height
    }

    /// The extension of the file: that of the path of its URL.
    pub fn get_extension(&self) -> (extension: Option<String>)
        ensures
            text_of(extension) == match url_path(self.src@) {
                Some(path) => extension_of(path),
                None => None,
            },
    {
        match path_of(self.src.as_str()) {
            Some(path) => path_extension(path.as_str()),
            None => None,
        }
    }

    /// The number of pixels of a frame.
    pub fn pixels(&self) -> (pixels: u64)
        ensures
            pixels == self.area(),
    {
        let w: u64 = self.width as u64;
        let h: u64 = self.height as u64;
        assert(w * h <= 0xffff_ffff * 0xffff_ffff) by (nonlinear_arith)
            requires
                w <= 0xffff_ffff,
                h <= 0xffff_ffff,
        ;
        w * h
    }
}

/// The film of a stash page.
#[derive(Clone, Debug, PartialEq, Eq)]
pub struct Film {
    /// The sizes in which the film is offered, by name.
    pub sizes: Vec<Entry<Size>>,
    /// Members of unknown purpose.
    pub unknown: Vec<UnknownField>,
}

/// Whether `sizes[i]` is a size of the greatest area, and the first such
/// one.
pub open spec fn is_best_size(sizes: Seq<Entry<Size>>, i: int) -> bool {
    &&& 0 <= i < sizes.len()
    &&& forall|j: int|
        0 <= j < sizes.len() ==> (#[trigger] sizes[j]).value.area() <= sizes[i].value.area()
    &&& forall|j: int| 0 <= j < i ==> (#[trigger] sizes[j]).value.area() < sizes[i].value.area()
}

impl Film {
    /// The size of the greatest area, the first one among equals. There is
    /// one unless the film is offered in no size.
    pub fn get_best_size(&self) -> (best: Option<&Size>)
        ensures
            match best {
                Some(size) => exists|i: int|
                    is_best_size(self.sizes@, i) && *size == self.sizes@[i].value,
                None => self.sizes@.len() == 0,
            },
    {
        if self.sizes.len() == 0 {
            return None;
        }
        let mut best: usize = 0;
        let mut i: usize = 1;
        assert(is_best_size(self.sizes@.take(1), 0));
        while i < self.sizes.len()
            invariant
                1 <= i <= self.sizes.len(),
                best < i,
                is_best_size(self.sizes@.take(i as int), best as int),
            decreases self.sizes.len() - i,
        {
            let ghost before = self.sizes@.take(i as int);
            let ghost after = self.sizes@.take(i + 1);
            assert(forall|j: int| 0 <= j < i ==> before[j] == after[j]);
            let here: u64 = self.sizes[i].value.pixels();
            let top: u64 = self.sizes[best].value.pixels();
            if here > top {
                best = i;
            }
            assert(is_best_size(after, best as int));
            i += 1;
        }
        assert(self.sizes@.take(self.sizes.len() as int) == self.sizes@);
        Some(&self.sizes[best].value)
    }
}

/// The data of a stash page.
#[derive(Clone, Debug, PartialEq, Eq)]
pub struct ScrapedStashInfo {
    /// The CSRF token.
    pub csrf: String,
    /// The identity of the work.
    pub deviationid: u64,
    /// The film, if the work is one.
    pub film: Option<Film>,
    /// The width of the work.
    pub deviation_width: u64,
    /// The height of the work.
    pub deviation_height: u64,
    /// Members of unknown purpose.
    pub unknown: Vec<UnknownField>,
}

impl ScrapedStashInfo {
    /// Finds the page data that the stash page `input` embeds. The result is
    /// its JSON text.
    pub fn from_html_str(input: &str) -> (json: Result<String, FromHtmlStrError>)
        ensures
            match first_group(PAGE_DATA_PATTERN@, input@) {
                Some(text) => json is Ok && json.unwrap()@ == text,
                None => json == Err::<String, FromHtmlStrError>(FromHtmlStrError::MissingPageData),
            },
    {
        match capture_first_group(PAGE_DATA_PATTERN, input) {
            Some(capture) => Ok(capture),
            None => Err(FromHtmlStrError::MissingPageData),
        }
    }
}

} // verus!
