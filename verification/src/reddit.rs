//! The Reddit resolver's logic: recognising an already-canonical post URL,
//! the redirect-chasing state machine, URL normalization, and the
//! selection of the post entry from a listing response together with the
//! extraction of its media URLs.
//!
//! The network fetches themselves, and the decoding of the listing
//! response's JSON into the types of this module, happen outside the
//! library; everything the resolver decides about what came back is here.

use vstd::prelude::*;

use crate::error::Error;
use crate::text::char_is_space;
use crate::text::has_prefix_at;
use crate::text::is_space;
use crate::text::last_index_of;
use crate::text::lemma_last_index_of_found;
use crate::text::lemma_last_index_of_none;
use crate::text::match_at;
use crate::text::rfind_char;

verus! {

/// How many redirect hops the resolver follows before it gives up and
/// keeps the last-known URL, unresolved.
pub const MAX_REDIRECT_HOPS: u8 = 10;

/// The URL already has the canonical post shape: `http://` or `https://`,
/// an optional `www.`, then `reddit.com/r/`, then a non-empty run of
/// non-whitespace characters, `/comments/`, and a non-empty non-whitespace
/// tail (whitespace meaning ASCII whitespace).
pub open spec fn spec_is_resolved(s: Seq<char>) -> bool {
    if match_at(s, 0, "http"@) {
        let i: int = if match_at(s, 4, "s"@) {
            5
        } else {
            4
        };
        if match_at(s, i, "://"@) {
            let j: int = if match_at(s, i + 3, "www."@) {
                i + 7
            } else {
                i + 3
            };
            if match_at(s, j, "reddit.com/r/"@) {
                let rest: int = j + 13;
                &&& (forall|k: int| rest <= k < s.len() ==> !is_space(s[k]))
                &&& (exists|p: int|
                    rest + 1 <= p && p + 10 < s.len() && match_at(s, p, "/comments/"@))
            } else {
                false
            }
        } else {
            false
        }
    } else {
        false
    }
}

/// Whether the URL is already in the canonical post shape, so that no
/// redirect hop is needed before fetching the post's listing.
#[verifier::loop_isolation(false)]
pub fn is_resolved(url: &str) -> (r: bool)
    ensures
        r == spec_is_resolved(url@),
{
    proof {
        reveal_strlit("reddit.com/r/");
        reveal_strlit("/comments/");
    }
    if !has_prefix_at(url, 0, "http") {
        return false;
    }
    let i: usize = if has_prefix_at(url, 4, "s") {
        5
    } else {
        4
    };
    if !has_prefix_at(url, i, "://") {
        return false;
    }
    let j: usize = if has_prefix_at(url, i + 3, "www.") {
        i + 7
    } else {
        i + 3
    };
    if !has_prefix_at(url, j, "reddit.com/r/") {
        return false;
    }
    let rest: usize = j + 13;
    let len: usize = url.unicode_len();
    let mut k: usize = rest;
    while k < len
        invariant
            rest <= k <= len,
            forall|m: int| rest <= m < k ==> !is_space(url@[m]),
        decreases len - k,
    {
        if char_is_space(url.get_char(k)) {
            return false;
        }
        k = k + 1;
    }
    let mut p: usize = rest + 1;
    while p < len && len - p > 10
        invariant
            rest + 1 <= p,
            forall|q: int| rest + 1 <= q < p ==> !match_at(url@, q, "/comments/"@),
        decreases len - p,
    {
        if has_prefix_at(url, p, "/comments/") {
            return true;
        }
        p = p + 1;
    }
    false
}

/// What one redirect-suppressed fetch of the current URL reported back:
/// either a `Location` header naming the next URL, or no redirect, with
/// the URL the response ended at.
#[derive(Clone, Debug)]
pub enum FetchOutcome {
    Redirect(String),
    NoRedirect(String),
}

/// The redirect-chasing loop's state: the last-known URL, how many hops
/// were taken, and whether a fetch already answered without a redirect.
/// The caller performs one fetch per `needs_fetch` and feeds the outcome
/// back through `apply`; when `needs_fetch` is false, `url` is the result.
#[derive(Clone, Debug)]
pub struct RedirectChase {
    pub url: String,
    pub hops: u8,
    pub done: bool,
}

impl RedirectChase {
    /// Another fetch is owed: the chase has not ended, the hop cap is not
    /// reached, and the URL is not already canonical.
    pub open spec fn spec_needs_fetch(self) -> bool {
        &&& !self.done
        &&& self.hops < MAX_REDIRECT_HOPS
        &&& !spec_is_resolved(self.url@)
    }

    /// Start a chase at the given URL.
    pub fn new(url: String) -> (r: Self)
        ensures
            r.url@ == url@,
            r.hops == 0,
            !r.done,
    {
        RedirectChase { url, hops: 0, done: false }
    }

    /// Whether the caller owes another redirect-suppressed fetch.
    pub fn needs_fetch(&self) -> (r: bool)
        ensures
            r == self.spec_needs_fetch(),
    {
        !self.done && self.hops < MAX_REDIRECT_HOPS && !is_resolved(self.url.as_str())
    }

    /// Record what the fetch reported: a redirect moves the chase to the
    /// new URL and costs one hop; anything else ends the chase at the URL
    /// the response reported.
    pub fn apply(&mut self, outcome: FetchOutcome)
        requires
            old(self).spec_needs_fetch(),
        ensures
            match outcome {
                FetchOutcome::Redirect(next) => final(self).url@ == next@ && final(self).hops
                    == old(self).hops + 1 && !final(self).done,
                FetchOutcome::NoRedirect(at) => final(self).url@ == at@ && final(self).done
                    && final(self).hops == old(self).hops,
            },
    {
        match outcome {
            FetchOutcome::Redirect(next) => {
                self.url = next;
                self.hops = self.hops + 1;
            },
            FetchOutcome::NoRedirect(at) => {
                self.url = at;
                self.done = true;
            },
        }
    }
}

/// Redirect resolution is idempotent: a chase that starts at a URL already
/// in the canonical post shape owes no fetch at all, so it performs zero
/// redirect hops.
pub proof fn lemma_resolved_url_needs_no_fetch(c: RedirectChase)
    requires
        spec_is_resolved(c.url@),
    ensures
        !c.spec_needs_fetch(),
{
}

/// The URL with everything from the last `?` on removed.
pub open spec fn spec_strip_query(s: Seq<char>) -> Seq<char> {
    let li = last_index_of(s, '?');
    if li >= 0 {
        s.take(li)
    } else {
        s
    }
}

/// The URL as it is fetched: query string stripped, trailing slash added
/// where one was missing.
pub open spec fn spec_normalized(s: Seq<char>) -> Seq<char> {
    let t = spec_strip_query(s);
    if t.len() > 0 && t[t.len() - 1] == '/' {
        t
    } else {
        t.push('/')
    }
}

/// Clean a resolved post URL up before the listing fetch: drop the query
/// string and make sure the URL ends in a slash.
pub fn normalize_post_url(url: &str) -> (r: String)
    ensures
        r@ == spec_normalized(url@),
{
    let stripped: &str = match rfind_char(url, '?') {
        Some(i) => {
            proof {
                lemma_last_index_of_found(url@, '?', i as int);
            }
            url.substring_char(0, i)
        },
        None => {
            proof {
                lemma_last_index_of_none(url@, '?');
            }
            url
        },
    };
    let len: usize = stripped.unicode_len();
    let mut out: String = stripped.to_owned();
    if len == 0 || stripped.get_char(len - 1) != '/' {
        proof {
            reveal_strlit("/");
            assert(spec_strip_query(url@).push('/') =~= spec_strip_query(url@) + "/"@);
        }
        out.append("/");
    }
    out
}

/// The URL of the listing document for a normalized post URL.
pub fn listing_request_url(url: &str) -> (r: String)
    ensures
        r@ == url@ + ".json"@,
{
    let mut out: String = url.to_owned();
    out.append(".json");
    out
}

/// One item of a post's gallery.
#[derive(Clone, Debug, PartialEq, Eq)]
pub struct GalleryItem {
    pub media_id: String,
}

/// A post's gallery: the ordered list of its media items.
#[derive(Clone, Debug, PartialEq, Eq)]
pub struct GalleryData {
    pub items: Vec<GalleryItem>,
}

/// The fields of a post (`t3`) entry that the resolver reads.
#[derive(Clone, Debug, PartialEq, Eq)]
pub struct T3Data {
    pub id: String,
    pub url: Option<String>,
    pub gallery_data: Option<GalleryData>,
}

/// One child of a listing, keyed by its `kind` discriminant: a post
/// (`t3`), a comment (`t1`), a pagination stub (`more`), or a kind this
/// library does not know.
#[derive(Clone, Debug, PartialEq, Eq)]
pub enum DataEntryChild {
    T3(T3Data),
    T1,
    More,
    Unrecognized,
}

/// The children of one `Listing` entry.
#[derive(Clone, Debug, PartialEq, Eq)]
pub struct ListingEntry {
    pub children: Vec<DataEntryChild>,
}

/// One top-level entry of the listing document, keyed by its `kind`
/// discriminant.
#[derive(Clone, Debug, PartialEq, Eq)]
pub enum DataEntry {
    Listing(ListingEntry),
    Unrecognized,
}

/// The child is a post (`t3`) entry.
pub open spec fn is_post_child(c: DataEntryChild) -> bool {
    c matches DataEntryChild::T3(_)
}

/// A second post entry stands among the children after the first.
pub open spec fn has_extra_post(cs: Seq<DataEntryChild>) -> bool {
    exists|k: int| 1 <= k < cs.len() && is_post_child(#[trigger] cs[k])
}

/// Select the post entry of a listing document: the sole post-kind child
/// of the first listing. An empty document or listing, a comment or
/// pagination stub where the post was expected, an unknown kind, or more
/// than one post entry are each a fatal parse mismatch for this item,
/// never a silently coerced value.
#[verifier::loop_isolation(false)]
pub fn select_post_entry(entries: Vec<DataEntry>) -> (r: Result<T3Data, Error>)
    ensures
        entries@.len() == 0 ==> r == Err::<T3Data, Error>(Error::EmptyListing),
        entries@.len() > 0 ==> match entries@[0] {
            DataEntry::Unrecognized => r == Err::<T3Data, Error>(Error::UnexpectedEntryKind),
            DataEntry::Listing(l) => if l.children@.len() == 0 {
                r == Err::<T3Data, Error>(Error::EmptyListing)
            } else {
                match l.children@[0] {
                    DataEntryChild::T3(t3) => if has_extra_post(l.children@) {
                        r == Err::<T3Data, Error>(Error::AmbiguousListing)
                    } else {
                        r == Ok::<T3Data, Error>(t3)
                    },
                    _ => r == Err::<T3Data, Error>(Error::UnexpectedEntryKind),
                }
            },
        },
{
    let mut rest = entries;
    if rest.len() == 0 {
        return Err(Error::EmptyListing);
    }
    let first: DataEntry = rest.remove(0);
    match first {
        DataEntry::Unrecognized => Err(Error::UnexpectedEntryKind),
        DataEntry::Listing(l) => {
            let ghost cs = l.children@;
            let mut children = l.children;
            if children.len() == 0 {
                return Err(Error::EmptyListing);
            }
            let c0: DataEntryChild = children.remove(0);
            proof {
                assert(children@ =~= cs.skip(1));
            }
            match c0 {
                DataEntryChild::T1 => Err(Error::UnexpectedEntryKind),
                DataEntryChild::More => Err(Error::UnexpectedEntryKind),
                DataEntryChild::Unrecognized => Err(Error::UnexpectedEntryKind),
                DataEntryChild::T3(t3) => {
                    let n: usize = children.len();
                    let mut k: usize = 0;
                    while k < n
                        invariant
                            k <= n,
                            forall|m: int| 0 <= m < k ==> !is_post_child(#[trigger] cs[m + 1]),
                        decreases n - k,
                    {
                        if matches!(&children[k], DataEntryChild::T3(_)) {
                            assert(is_post_child(cs[k + 1]));
                            return Err(Error::AmbiguousListing);
                        }
                        k = k + 1;
                    }
                    proof {
                        assert forall|q: int| 1 <= q < cs.len() implies !is_post_child(
                            #[trigger] cs[q],
                        ) by {
                            assert(!is_post_child(cs[(q - 1) + 1]));
                        }
                    }
                    Ok(t3)
                },
            }
        },
    }
}

/// The direct media URL a gallery item's media id maps to.
pub open spec fn media_url_of(id: Seq<char>) -> Seq<char> {
    "https://i.redd.it/"@ + id + ".jpg"@
}

/// All media URLs of a post, in order: every gallery item mapped to its
/// direct media URL; for a post without a gallery, its single direct URL;
/// for a text-only post, nothing at all — an empty list, not an error.
pub fn get_post_images(post: &T3Data) -> (r: Vec<String>)
    ensures
        post.gallery_data matches Some(g) ==> r@.len() == g.items@.len() && forall|i: int|
            0 <= i < r@.len() ==> r@[i]@ == media_url_of(g.items@[i].media_id@),
        post.gallery_data is None ==> (post.url matches Some(u) ==> r@.len() == 1 && r@[0]@ == u@),
        post.gallery_data is None && post.url is None ==> r@.len() == 0,
{
    match &post.gallery_data {
        Some(gallery) => {
            let n: usize = gallery.items.len();
            let mut urls: Vec<String> = Vec::new();
            let mut i: usize = 0;
            while i < n
                invariant
                    n == gallery.items@.len(),
                    i <= n,
                    urls@.len() == i,
                    forall|m: int|
                        0 <= m < i ==> urls@[m]@ == media_url_of(gallery.items@[m].media_id@),
                decreases n - i,
            {
                let mut url: String = String::from_str("https://i.redd.it/");
                url.append(gallery.items[i].media_id.as_str());
                url.append(".jpg");
                urls.push(url);
                i = i + 1;
            }
            urls
        },
        None => {
            match &post.url {
                Some(u) => {
                    let mut urls: Vec<String> = Vec::new();
                    urls.push(u.clone());
                    urls
                },
                None => Vec::new(),
            }
        },
    }
}

/// Every URL a gallery item yields has the canonical direct-media shape:
/// the fixed host prefix, the item's media id, and a `.jpg` suffix.
pub proof fn lemma_gallery_media_url_shape(id: Seq<char>)
    ensures
        media_url_of(id).len() == id.len() + 22,
        media_url_of(id).subrange(0, 18) == "https://i.redd.it/"@,
        media_url_of(id).subrange(18, 18 + id.len() as int) == id,
        media_url_of(id).subrange(18 + id.len() as int, 22 + id.len() as int) == ".jpg"@,
{
    reveal_strlit("https://i.redd.it/");
    reveal_strlit(".jpg");
    assert(media_url_of(id).subrange(0, 18) =~= "https://i.redd.it/"@);
    assert(media_url_of(id).subrange(18, 18 + id.len() as int) =~= id);
    assert(media_url_of(id).subrange(18 + id.len() as int, 22 + id.len() as int) =~= ".jpg"@);
}

} // verus!
