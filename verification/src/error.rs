//! The library's error type. Collaborator failures (store, reverse-search
//! provider, illustration site, network) are carried as messages; the
//! pipeline's own failure modes have variants of their own.

use vstd::prelude::*;

verus! {

/// Everything that can go wrong in one pipeline item or in the run's setup.
#[derive(Clone, Debug, PartialEq, Eq)]
pub enum Error {
    /// No URL list and no input file were given.
    MissingInput,
    /// A listing entry of an unexpected kind stood where a post was
    /// expected: an unhandled upstream shape, fatal for the item.
    UnexpectedEntryKind,
    /// A listing response held no entry to select a post from.
    EmptyListing,
    /// More than one post entry stood where a single one was expected.
    AmbiguousListing,
    /// The illustration-site provider failed.
    Pixiv(String),
    /// The reverse-image-search provider failed.
    RustNao(String),
    /// The library store failed.
    Hydrus(String),
    /// A file could not be read or written.
    Io(String),
    /// An HTTP fetch failed or its body could not be parsed.
    Reqwest(String),
    /// The configuration could not be read.
    Config(String),
    /// The social-media provider failed.
    Twitter(String),
    /// Any other failure, described in prose.
    Message(String),
}

impl Error {
    /// A short description of the error, for log lines.
    pub fn describe(&self) -> (r: String)
        ensures
            match self {
                Error::Pixiv(m) => r@ == m@,
                Error::RustNao(m) => r@ == m@,
                Error::Hydrus(m) => r@ == m@,
                Error::Io(m) => r@ == m@,
                Error::Reqwest(m) => r@ == m@,
                Error::Config(m) => r@ == m@,
                Error::Twitter(m) => r@ == m@,
                Error::Message(m) => r@ == m@,
                Error::MissingInput => r@ == "no urls provided"@,
                Error::UnexpectedEntryKind => r@ == "unexpected entry kind"@,
                Error::EmptyListing => r@ == "empty listing"@,
                Error::AmbiguousListing => r@ == "more than one post entry"@,
            },
    {
        match self {
            Error::Pixiv(m) => m.clone(),
            Error::RustNao(m) => m.clone(),
            Error::Hydrus(m) => m.clone(),
            Error::Io(m) => m.clone(),
            Error::Reqwest(m) => m.clone(),
            Error::Config(m) => m.clone(),
            Error::Twitter(m) => m.clone(),
            Error::Message(m) => m.clone(),
            Error::MissingInput => String::from_str("no urls provided"),
            Error::UnexpectedEntryKind => String::from_str("unexpected entry kind"),
            Error::EmptyListing => String::from_str("empty listing"),
            Error::AmbiguousListing => String::from_str("more than one post entry"),
        }
    }
}

} // verus!
