//! Reverse-image-search matches ("sauces") and the illustration site's
//! tags: selecting the canonical origin URL, flattening the external URLs
//! of all matches, deriving the illustration id from the canonical URL,
//! and flattening remote tag metadata to a preferred-language tag list.
//!
//! Querying the reverse-search provider and fetching the illustration's
//! metadata happen outside the library; what is decided about their
//! results is here.

use vstd::prelude::*;

use crate::text::last_index_of;
use crate::text::url_views;
use crate::text::lemma_last_index_of_found;
use crate::text::lemma_last_index_of_none;
use crate::text::rfind_char;

verus! {

/// One reverse-image-search match: its similarity score in percent, its
/// external URLs ordered best-confidence first, and the provider's index
/// identifier.
#[derive(Clone, Debug, PartialEq, Eq)]
pub struct Sauce {
    pub similarity: u32,
    pub ext_urls: Vec<String>,
    pub index: u32,
}

/// The external URLs of all matches, flattened in order.
pub open spec fn spec_all_ext_urls(ss: Seq<Sauce>) -> Seq<Seq<char>>
    decreases ss.len(),
{
    if ss.len() == 0 {
        Seq::empty()
    } else {
        spec_all_ext_urls(ss.drop_last()) + url_views(ss.last().ext_urls@)
    }
}

/// All external URLs of all matches, in order of the matches and, within
/// one match, in the match's own order.
#[verifier::loop_isolation(false)]
pub fn get_urls(sauce: &Vec<Sauce>) -> (r: Vec<String>)
    ensures
        url_views(r@) == spec_all_ext_urls(sauce@),
{
    let n: usize = sauce.len();
    let mut out: Vec<String> = Vec::new();
    let mut i: usize = 0;
    while i < n
        invariant
            i <= n,
            url_views(out@) =~= spec_all_ext_urls(sauce@.take(i as int)),
        decreases n - i,
    {
        let m: usize = sauce[i].ext_urls.len();
        let mut j: usize = 0;
        while j < m
            invariant
                i < n,
                j <= m,
                m == sauce@[i as int].ext_urls@.len(),
                url_views(out@) =~= spec_all_ext_urls(sauce@.take(i as int)) + url_views(
                    sauce@[i as int].ext_urls@.take(j as int),
                ),
            decreases m - j,
        {
            let ghost out0 = out@;
            let ghost urls_i = sauce@[i as int].ext_urls@;
            out.push(sauce[i].ext_urls[j].clone());
            proof {
                assert(url_views(out@) =~= url_views(out0).push(urls_i[j as int]@));
                assert(urls_i.take(j + 1) =~= urls_i.take(j as int).push(urls_i[j as int]));
                assert(url_views(urls_i.take(j + 1)) =~= url_views(urls_i.take(j as int)).push(
                    urls_i[j as int]@,
                ));
                assert(url_views(out@) =~= spec_all_ext_urls(sauce@.take(i as int)) + url_views(
                    urls_i.take(j + 1),
                ));
            }
            j = j + 1;
        }
        proof {
            assert(sauce@.take(i + 1).drop_last() =~= sauce@.take(i as int));
            assert(sauce@[i as int].ext_urls@.take(m as int) =~= sauce@[i as int].ext_urls@);
        }
        i = i + 1;
    }
    proof {
        assert(sauce@.take(n as int) =~= sauce@);
    }
    out
}

/// The canonical "found origin" of a reverse search: the first external
/// URL of the first match. A match list with no entries, or a first match
/// with no external URLs, yields no canonical origin — which is "no
/// match", not an error.
pub fn get_pixiv_url(sauce: &Vec<Sauce>) -> (r: Option<&String>)
    ensures
        match r {
            Some(u) => sauce@.len() > 0 && sauce@[0].ext_urls@.len() > 0 && u@
                == sauce@[0].ext_urls@[0]@,
            None => sauce@.len() == 0 || sauce@[0].ext_urls@.len() == 0,
        },
{
    if sauce.len() > 0 {
        let first: &Sauce = &sauce[0];
        if first.ext_urls.len() > 0 {
            Some(&first.ext_urls[0])
        } else {
            None
        }
    } else {
        None
    }
}

/// The illustration id carried by a canonical origin URL: the substring
/// after the last `=`, or nothing where the URL has no `=` at all.
pub fn pixiv_id_from_url(url: &str) -> (r: Option<&str>)
    ensures
        match r {
            Some(id) => last_index_of(url@, '=') >= 0 && id@ == url@.skip(
                last_index_of(url@, '=') + 1,
            ),
            None => last_index_of(url@, '=') == -1,
        },
{
    match rfind_char(url, '=') {
        Some(i) => {
            proof {
                lemma_last_index_of_found(url@, '=', i as int);
            }
            let len: usize = url.unicode_len();
            Some(url.substring_char(i + 1, len))
        },
        None => {
            proof {
                lemma_last_index_of_none(url@, '=');
            }
            None
        },
    }
}

/// One tag of the illustration site's metadata: the raw tag label, and
/// the preferred-language translation where one exists.
#[derive(Clone, Debug, PartialEq, Eq)]
pub struct IllustTag {
    pub tag: String,
    pub translated: Option<String>,
}

/// The label one tag contributes: the preferred-language translation
/// where present, else the raw tag label.
pub open spec fn label_of(t: IllustTag) -> Seq<char> {
    match t.translated {
        Some(l) => l@,
        None => t.tag@,
    }
}

/// Flatten remote tag metadata to the tag list that is written to the
/// store: one label per source tag, order-preserving, duplicates kept.
#[verifier::loop_isolation(false)]
pub fn preferred_tag_labels(tags: &Vec<IllustTag>) -> (r: Vec<String>)
    ensures
        r@.len() == tags@.len(),
        forall|i: int| 0 <= i < r@.len() ==> (#[trigger] r@[i])@ == label_of(tags@[i]),
{
    let n: usize = tags.len();
    let mut out: Vec<String> = Vec::new();
    let mut i: usize = 0;
    while i < n
        invariant
            i <= n,
            out@.len() == i,
            forall|m: int| 0 <= m < i ==> (#[trigger] out@[m])@ == label_of(tags@[m]),
        decreases n - i,
    {
        match &tags[i].translated {
            Some(l) => out.push(l.clone()),
            None => out.push(tags[i].tag.clone()),
        }
        i = i + 1;
    }
    out
}

} // verus!
