//! The command-line surface's data: which subcommand runs, with which
//! options, and how the input URL list is put together from a line-based
//! input file or an inline argument list.
//!
//! Argument parsing itself and the reading of the input file happen
//! outside the library; the choice between the two sources, and the
//! filtering of empty lines, are decided here.

use vstd::prelude::*;

use crate::error::Error;

verus! {

/// The whole command line: one subcommand with its options.
#[derive(Clone, Debug, PartialEq, Eq)]
pub struct Args {
    pub subcommand: Command,
}

/// The tool's subcommands.
#[derive(Clone, Debug, PartialEq, Eq)]
pub enum Command {
    /// Look files up on the reverse-search provider and import the found
    /// origin URLs into the store.
    FindAndSendUrl(LookupOptions),
    /// Look files up on the reverse-search provider and write the tags
    /// found on the illustration site to the files.
    FindAndSendTags(LookupOptions),
    /// Resolve and import Reddit posts.
    ImportRedditPosts(ImportUrlsOptions),
    /// Resolve and import Fedi posts.
    ImportFediPosts(ImportUrlsOptions),
    /// Classify a list of URLs and import the media found for them.
    ImportUrls(ImportUrlsOptions),
    /// Tag the given files directly.
    Tag(TagOptions),
}

/// Options of the tag-target (reverse-search driven) flows.
#[derive(Clone, Debug, PartialEq, Eq)]
pub struct LookupOptions {
    /// The tag service the tags will be assigned to.
    pub tag_service: String,
    /// Tag assigned to files that have been processed.
    pub finish_tag: Option<String>,
    /// Tags used to search for files.
    pub tags: Vec<String>,
}

/// Options of the URL-list flows: a path to a file holding one URL per
/// line, or an inline URL list.
#[derive(Clone, Debug, PartialEq, Eq)]
pub struct ImportUrlsOptions {
    pub input: Option<String>,
    pub urls: Option<Vec<String>>,
}

/// Options of the direct tagging flow.
#[derive(Clone, Debug, PartialEq, Eq)]
pub struct TagOptions {
    /// The tag service the tags will be assigned to.
    pub tag_service: String,
    /// The hashes of the files to tag.
    pub files: Vec<String>,
    /// The tags to assign.
    pub tags: Vec<String>,
}

/// The non-empty lines, in order.
pub open spec fn spec_nonempty_lines(s: Seq<String>) -> Seq<String>
    decreases s.len(),
{
    if s.len() == 0 {
        Seq::empty()
    } else {
        let rest = spec_nonempty_lines(s.drop_last());
        if s.last()@.len() > 0 {
            rest.push(s.last())
        } else {
            rest
        }
    }
}

/// The batch's input URLs: the input file's non-empty lines where an
/// input file was given, else the inline URL list; a run with neither is
/// rejected before any work begins.
#[verifier::loop_isolation(false)]
pub fn gather_urls(file_lines: Option<Vec<String>>, arg_urls: Option<Vec<String>>) -> (r: Result<
    Vec<String>,
    Error,
>)
    ensures
        file_lines matches Some(lines) ==> r matches Ok(urls) && urls@ == spec_nonempty_lines(
            lines@,
        ),
        file_lines is None ==> (arg_urls matches Some(urls0) ==> r matches Ok(urls) && urls@
            == urls0@),
        file_lines is None && arg_urls is None ==> r == Err::<Vec<String>, Error>(
            Error::MissingInput,
        ),
{
    match file_lines {
        Some(lines) => {
            let n: usize = lines.len();
            let mut urls: Vec<String> = Vec::new();
            let mut i: usize = 0;
            while i < n
                invariant
                    i <= n,
                    urls@ =~= spec_nonempty_lines(lines@.take(i as int)),
                decreases n - i,
            {
                if !lines[i].as_str().is_empty() {
                    urls.push(lines[i].clone());
                }
                proof {
                    assert(lines@.take(i + 1).drop_last() =~= lines@.take(i as int));
                }
                i = i + 1;
            }
            proof {
                assert(lines@.take(n as int) =~= lines@);
            }
            Ok(urls)
        },
        None => match arg_urls {
            Some(urls) => Ok(urls),
            None => Err(Error::MissingInput),
        },
    }
}

} // verus!
