//! URL classification: which platform a post URL belongs to.
//!
//! A Reddit-like URL is recognised by a fixed set of host prefixes,
//! case-insensitively and for either scheme. The Fedi case cannot be told
//! from the URL's shape: it takes a live content-negotiated probe, which
//! the caller performs and whose outcome it passes in.

use vstd::prelude::*;

use crate::text::has_prefix_ci_at;
use crate::text::match_ci_at;

verus! {

/// The platform a post URL was classified as.
#[derive(Clone, Copy, Debug, PartialEq, Eq, Structural)]
pub enum UrlType {
    Reddit,
    Fedi,
    Other,
}

/// The URL starts, case-insensitively, with `http://` or `https://`, an
/// optional `www.`, and one of the Reddit platform's hosts: `reddit.com`,
/// `redd.it`, or `reddit.app.link`.
pub open spec fn spec_is_reddit_url(s: Seq<char>) -> bool {
    if match_ci_at(s, 0, "http"@) {
        let i: int = if match_ci_at(s, 4, "s"@) {
            5
        } else {
            4
        };
        if match_ci_at(s, i, "://"@) {
            let j: int = if match_ci_at(s, i + 3, "www."@) {
                i + 7
            } else {
                i + 3
            };
            ||| match_ci_at(s, j, "reddit.com"@)
            ||| match_ci_at(s, j, "redd.it"@)
            ||| match_ci_at(s, j, "reddit.app.link"@)
        } else {
            false
        }
    } else {
        false
    }
}

/// Whether the URL matches the Reddit platform's host prefixes.
pub fn is_reddit_url(url: &str) -> (r: bool)
    ensures
        r == spec_is_reddit_url(url@),
{
    if !has_prefix_ci_at(url, 0, "http") {
        return false;
    }
    let i: usize = if has_prefix_ci_at(url, 4, "s") {
        5
    } else {
        4
    };
    if !has_prefix_ci_at(url, i, "://") {
        return false;
    }
    let j: usize = if has_prefix_ci_at(url, i + 3, "www.") {
        i + 7
    } else {
        i + 3
    };
    has_prefix_ci_at(url, j, "reddit.com") || has_prefix_ci_at(url, j, "redd.it")
        || has_prefix_ci_at(url, j, "reddit.app.link")
}

/// Classification of one input URL. The host pattern decides the Reddit
/// case on its own; otherwise the caller's Fedi probe outcome decides
/// between Fedi and Other. A failed or timed-out probe counts as a failed
/// probe, never as an error.
pub fn find_url_type(url: &str, fedi_probe_succeeded: bool) -> (r: UrlType)
    ensures
        spec_is_reddit_url(url@) ==> r == UrlType::Reddit,
        !spec_is_reddit_url(url@) && fedi_probe_succeeded ==> r == UrlType::Fedi,
        !spec_is_reddit_url(url@) && !fedi_probe_succeeded ==> r == UrlType::Other,
{
    if is_reddit_url(url) {
        UrlType::Reddit
    } else if fedi_probe_succeeded {
        UrlType::Fedi
    } else {
        UrlType::Other
    }
}

} // verus!
