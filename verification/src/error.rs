//! The error kinds a crawl can surface. Every failure aborts the run and is
//! reported to the caller unmodified (fail-fast; no partial results).

use vstd::prelude::*;

verus! {

/// Which required primary-language entry a decoded document was missing.
#[derive(Clone, Copy, Debug, PartialEq, Eq, Structural)]
pub enum MissingField {
    /// A category node of kind `Category` had no primary-language title.
    CategoryTitle,
    /// An article had no primary-language owning-category title.
    ArticleCategoryTitle,
    /// An article had no primary-language title.
    ArticleTitle,
    /// An article had no primary-language subtitle.
    ArticleSubtitle,
    /// An article had no primary-language body text.
    ArticleContent,
}

/// A failure that aborts a crawl.
#[derive(Clone, Copy, Debug, PartialEq, Eq, Structural)]
pub enum CrawlError {
    /// The network was unreachable or the remote answered with a failure.
    Transport,
    /// A document was malformed: a required primary-language key was absent.
    Decode(MissingField),
    /// An expected cached document was absent or unreadable.
    CacheRead,
    /// A cached document could not be written.
    CacheWrite,
}

} // verus!
