//! The social-media resolver's logic: deriving the numeric post id from a
//! post URL, and mapping a post's media entities to their direct URLs.
//!
//! Token acquisition and the post fetch happen outside the library.

use vstd::prelude::*;

use crate::error::Error;
use crate::text::first_index_of;
use crate::text::last_index_of;
use crate::text::lemma_first_index_of_found;
use crate::text::lemma_first_index_of_none;
use crate::text::lemma_last_index_of_found;
use crate::text::lemma_last_index_of_none;
use crate::text::find_char;
use crate::text::rfind_char;

verus! {

/// `c` is a decimal digit.
pub open spec fn is_digit(c: char) -> bool {
    48 <= c as int <= 57
}

/// Every character of `s` is a decimal digit.
pub open spec fn all_digits(s: Seq<char>) -> bool {
    forall|i: int| 0 <= i < s.len() ==> is_digit(#[trigger] s[i])
}

/// The value of a run of decimal digits.
pub open spec fn digits_val(s: Seq<char>) -> int
    decreases s.len(),
{
    if s.len() == 0 {
        0
    } else {
        digits_val(s.drop_last()) * 10 + (s.last() as int - 48)
    }
}

/// A run of digits has a non-negative value.
pub proof fn lemma_digits_val_nonneg(s: Seq<char>)
    requires
        all_digits(s),
    ensures
        digits_val(s) >= 0,
    decreases s.len(),
{
    if s.len() > 0 {
        assert(all_digits(s.drop_last()));
        lemma_digits_val_nonneg(s.drop_last());
    }
}

/// A prefix of a run of digits is worth no more than the whole run.
pub proof fn lemma_digits_val_prefix(s: Seq<char>, i: int)
    requires
        all_digits(s),
        0 <= i <= s.len(),
    ensures
        digits_val(s.take(i)) <= digits_val(s),
    decreases s.len(),
{
    if i < s.len() {
        assert(all_digits(s.drop_last()));
        assert(s.drop_last().take(i) =~= s.take(i));
        lemma_digits_val_prefix(s.drop_last(), i);
        lemma_digits_val_nonneg(s.drop_last());
        assert(digits_val(s.drop_last()) <= digits_val(s.drop_last()) * 10);
    } else {
        assert(s.take(i) =~= s);
    }
}

/// The digit run `str::parse::<u64>` accepts from `s`: the characters
/// after an optional leading `+`.
pub open spec fn spec_u64_body(s: Seq<char>) -> Seq<char> {
    if s.len() > 0 && s[0] == '+' {
        s.skip(1)
    } else {
        s
    }
}

/// `s` parses as a `u64`: a non-empty digit run, after an optional
/// leading `+`, whose value fits.
pub open spec fn spec_parses_u64(s: Seq<char>) -> bool {
    let body = spec_u64_body(s);
    body.len() > 0 && all_digits(body) && digits_val(body) <= u64::MAX
}

/// Parse a decimal `u64` the way `str::parse::<u64>` does: an optional
/// leading `+`, then at least one digit, and the value must fit.
#[verifier::loop_isolation(false)]
pub fn parse_u64(s: &str) -> (r: Option<u64>)
    ensures
        match r {
            Some(v) => spec_parses_u64(s@) && v == digits_val(spec_u64_body(s@)),
            None => !spec_parses_u64(s@),
        },
{
    let len: usize = s.unicode_len();
    let start: usize = if len > 0 && s.get_char(0) == '+' {
        1
    } else {
        0
    };
    let ghost body = spec_u64_body(s@);
    proof {
        assert(body =~= s@.skip(start as int));
    }
    if len == start {
        return None;
    }
    let mut acc: u64 = 0;
    let mut i: usize = start;
    while i < len
        invariant
            start <= i <= len,
            all_digits(s@.skip(start as int).take(i - start)),
            acc == digits_val(s@.skip(start as int).take(i - start)),
        decreases len - i,
    {
        let c: char = s.get_char(i);
        let cu: u32 = c as u32;
        if cu < 48 || cu > 57 {
            proof {
                assert(!is_digit(s@[i as int]));
                assert(body[i - start] == s@[i as int]);
            }
            return None;
        }
        let d: u64 = (cu - 48) as u64;
        let ghost taken = s@.skip(start as int).take(i - start);
        proof {
            assert(s@.skip(start as int).take(i + 1 - start) =~= taken.push(s@[i as int]));
            assert(s@.skip(start as int).take(i + 1 - start).drop_last() =~= taken);
        }
        if acc > (u64::MAX - d) / 10 {
            proof {
                assert(acc * 10 + d > u64::MAX) by (nonlinear_arith)
                    requires
                        acc > (u64::MAX - d) / 10,
                        d <= 9,
                ;
                if spec_parses_u64(s@) {
                    lemma_digits_val_prefix(body, i + 1 - start);
                }
            }
            return None;
        }
        proof {
            assert(acc * 10 + d <= u64::MAX) by (nonlinear_arith)
                requires
                    acc <= (u64::MAX - d) / 10,
                    d <= 9,
            ;
        }
        acc = acc * 10 + d;
        i = i + 1;
    }
    proof {
        assert(s@.skip(start as int).take(len - start) =~= body);
    }
    Some(acc)
}

/// `s` with every trailing `c` removed.
pub open spec fn trim_trailing(s: Seq<char>, c: char) -> Seq<char>
    decreases s.len(),
{
    if s.len() > 0 && s.last() == c {
        trim_trailing(s.drop_last(), c)
    } else {
        s
    }
}

/// Cutting at the start of the trailing run of `c` is exactly trimming.
pub proof fn lemma_trim_trailing_at(s: Seq<char>, c: char, j: int)
    requires
        0 <= j <= s.len(),
        forall|k: int| j <= k < s.len() ==> s[k] == c,
        j > 0 ==> s[j - 1] != c,
    ensures
        trim_trailing(s, c) == s.take(j),
    decreases s.len(),
{
    if s.len() > 0 && s.last() == c {
        lemma_trim_trailing_at(s.drop_last(), c, j);
        assert(s.drop_last().take(j) =~= s.take(j));
    } else {
        assert(s.take(j) =~= s);
    }
}

/// The URL's path segment that carries the post id: everything after the
/// last `/` once the query string and any trailing slashes are dropped.
pub open spec fn spec_tweet_id_segment(s: Seq<char>) -> Seq<char> {
    let fi = first_index_of(s, '?');
    let t = if fi >= 0 {
        s.take(fi)
    } else {
        s
    };
    let u = trim_trailing(t, '/');
    u.skip(last_index_of(u, '/') + 1)
}

/// Whether the URL has a non-empty path left once the query string and
/// trailing slashes are dropped.
pub open spec fn spec_has_tweet_segment(s: Seq<char>) -> bool {
    let fi = first_index_of(s, '?');
    let t = if fi >= 0 {
        s.take(fi)
    } else {
        s
    };
    trim_trailing(t, '/').len() > 0
}

/// The post id in a social-media post URL: the last non-empty path
/// segment, read as a decimal number. A URL without such a segment, or
/// one whose segment is not a number, is reported in prose, as the
/// resolver's caller logs it.
pub fn get_tweet_id(url: &str) -> (r: Result<u64, Error>)
    ensures
        match r {
            Ok(v) => spec_has_tweet_segment(url@) && spec_parses_u64(spec_tweet_id_segment(url@))
                && v == digits_val(spec_u64_body(spec_tweet_id_segment(url@))),
            Err(e) => if !spec_has_tweet_segment(url@) {
                e matches Error::Message(m) && m@ == "No Tweet ID in twitter url"@
            } else {
                !spec_parses_u64(spec_tweet_id_segment(url@)) && (e matches Error::Message(m) && m@
                    == "Tweet ID cannot be parsed as u64"@)
            },
        },
{
    let t: &str = match find_char(url, '?') {
        Some(i) => {
            proof {
                lemma_first_index_of_found(url@, '?', i as int);
            }
            url.substring_char(0, i)
        },
        None => {
            proof {
                lemma_first_index_of_none(url@, '?');
            }
            url
        },
    };
    let t_len: usize = t.unicode_len();
    let mut end: usize = t_len;
    while end > 0 && t.get_char(end - 1) == '/'
        invariant
            end <= t_len,
            t_len == t@.len(),
            forall|k: int| end <= k < t@.len() ==> t@[k] == '/',
        decreases end,
    {
        end = end - 1;
    }
    proof {
        lemma_trim_trailing_at(t@, '/', end as int);
    }
    if end == 0 {
        return Err(Error::Message(String::from_str("No Tweet ID in twitter url")));
    }
    let u: &str = t.substring_char(0, end);
    let seg: &str = match rfind_char(u, '/') {
        Some(i) => {
            proof {
                lemma_last_index_of_found(u@, '/', i as int);
            }
            u.substring_char(i + 1, end)
        },
        None => {
            proof {
                lemma_last_index_of_none(u@, '/');
                assert(u@.skip(0) =~= u@);
            }
            u
        },
    };
    match parse_u64(seg) {
        Some(v) => Ok(v),
        None => Err(Error::Message(String::from_str("Tweet ID cannot be parsed as u64"))),
    }
}

/// One media entity of a post: its direct media URL and, for a video,
/// the ordered variant URLs.
#[derive(Clone, Debug, PartialEq, Eq)]
pub struct MediaEntity {
    pub media_url_https: String,
    pub video_variants: Option<Vec<String>>,
}

/// The direct URL one media entity contributes: the first variant of a
/// video, else the media URL itself.
pub open spec fn media_entity_url(e: MediaEntity) -> Seq<char> {
    match e.video_variants {
        Some(v) => v[0]@,
        None => e.media_url_https@,
    }
}

/// The direct media URLs of a post, in order. A post whose extended
/// entities are absent has no media at all. Every video entity must
/// carry at least one variant.
#[verifier::loop_isolation(false)]
pub fn tweet_media_urls(entities: &Option<Vec<MediaEntity>>) -> (r: Vec<String>)
    requires
        entities matches Some(es) ==> forall|i: int|
            0 <= i < es@.len() ==> ((#[trigger] es@[i]).video_variants matches Some(v) ==> v@.len()
                > 0),
    ensures
        entities matches Some(es) ==> r@.len() == es@.len() && forall|i: int|
            0 <= i < r@.len() ==> (#[trigger] r@[i])@ == media_entity_url(es@[i]),
        entities is None ==> r@.len() == 0,
{
    match entities {
        None => Vec::new(),
        Some(es) => {
            let n: usize = es.len();
            let mut out: Vec<String> = Vec::new();
            let mut i: usize = 0;
            while i < n
                invariant
                    i <= n,
                    out@.len() == i,
                    forall|m: int| 0 <= m < i ==> (#[trigger] out@[m])@ == media_entity_url(es@[m]),
                decreases n - i,
            {
                match &es[i].video_variants {
                    Some(variants) => {
                        out.push(variants[0].clone());
                    },
                    None => {
                        out.push(es[i].media_url_https.clone());
                    },
                }
                i = i + 1;
            }
            out
        },
    }
}

} // verus!
