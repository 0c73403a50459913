//! The Fedi (ActivityPub) resolver's logic: reading the media attachments
//! out of a fetched post object.
//!
//! The content-negotiated fetch and the decoding of the ActivityPub JSON
//! into these types happen outside the library; only the `Page` object
//! type is supported, and any other shape is a parse failure for the
//! item, never a silently skipped value.

use vstd::prelude::*;

use crate::error::Error;

verus! {

/// One attachment of a post: a link to a media file, or an attachment
/// type this library does not know.
#[derive(Clone, Debug, PartialEq, Eq)]
pub enum Attachment {
    Link { href: String },
    Unrecognized,
}

/// The fields of an ActivityPub `Page` object that the resolver reads.
#[derive(Clone, Debug, PartialEq, Eq)]
pub struct PostData {
    pub id: String,
    pub name: String,
    pub attachment: Vec<Attachment>,
}

/// A fetched ActivityPub object, keyed by its `type` discriminant.
#[derive(Clone, Debug, PartialEq, Eq)]
pub enum EntryData {
    Page(PostData),
    Unrecognized,
}

/// The attachment is of link type.
pub open spec fn is_link(a: Attachment) -> bool {
    a matches Attachment::Link { .. }
}

/// Every attachment of the sequence is of link type.
pub open spec fn all_links(ats: Seq<Attachment>) -> bool {
    forall|i: int| 0 <= i < ats.len() ==> is_link(#[trigger] ats[i])
}

/// The link target of an attachment of link type.
pub open spec fn href_of(a: Attachment) -> Seq<char>
    recommends
        is_link(a),
{
    match a {
        Attachment::Link { href } => href@,
        Attachment::Unrecognized => Seq::empty(),
    }
}

/// All media URLs of a fetched post object, in document order: the `href`
/// of each link-type attachment of a `Page`. Any other object type, or an
/// attachment that is not a link, is a parse failure.
#[verifier::loop_isolation(false)]
pub fn get_post_images(entry: EntryData) -> (r: Result<Vec<String>, Error>)
    ensures
        entry matches EntryData::Unrecognized ==> r == Err::<Vec<String>, Error>(
            Error::UnexpectedEntryKind,
        ),
        entry matches EntryData::Page(post) ==> match r {
            Ok(urls) => all_links(post.attachment@) && urls@.len() == post.attachment@.len()
                && forall|i: int| 0 <= i < urls@.len() ==> (#[trigger] urls@[i])@ == href_of(
                post.attachment@[i],
            ),
            Err(e) => !all_links(post.attachment@) && e == Error::UnexpectedEntryKind,
        },
{
    match entry {
        EntryData::Unrecognized => Err(Error::UnexpectedEntryKind),
        EntryData::Page(post) => {
            let n: usize = post.attachment.len();
            let mut urls: Vec<String> = Vec::new();
            let mut i: usize = 0;
            while i < n
                invariant
                    i <= n,
                    urls@.len() == i,
                    forall|m: int| 0 <= m < i ==> is_link(#[trigger] post.attachment@[m]),
                    forall|m: int|
                        0 <= m < i ==> (#[trigger] urls@[m])@ == href_of(post.attachment@[m]),
                decreases n - i,
            {
                match &post.attachment[i] {
                    Attachment::Link { href } => {
                        urls.push(href.clone());
                    },
                    Attachment::Unrecognized => {
                        assert(!is_link(post.attachment@[i as int]));
                        return Err(Error::UnexpectedEntryKind);
                    },
                }
                i = i + 1;
            }
            Ok(urls)
        },
    }
}

} // verus!
