//! The batch pipeline: partitioning classified input URLs by platform,
//! re-ordering concurrently resolved items back to input order, planning
//! the sequential import and tag-write actions, and pacing them against a
//! rate-limited provider.
//!
//! Every side effect — the fetches, the store calls, the sleeps — happens
//! outside the library; what to do, on what, and in which order is
//! decided here.

use vstd::multiset::Multiset;
use vstd::prelude::*;

use crate::error::Error;
use crate::text::url_views;
use crate::urls::UrlType;

verus! {

/// Minimum spacing, in milliseconds, between successive side-effecting
/// actions against the rate-limited provider.
pub const RATE_WINDOW_MS: u64 = 6000;

/// Iterations that already took at least this long, in milliseconds, pace
/// themselves and get no extra sleep.
pub const RATE_CEILING_MS: u64 = 8000;

/// How long the action stage sleeps after an iteration that took
/// `elapsed` milliseconds, for a window of `window` milliseconds and a
/// ceiling of `ceiling` milliseconds.
pub open spec fn spec_rate_limit_sleep(elapsed: u64, window: u64, ceiling: u64) -> u64 {
    if elapsed < ceiling && elapsed < window {
        (window - elapsed) as u64
    } else {
        0
    }
}

/// Sleep needed after one iteration of the sequential action stage: the
/// remainder of the rate window, or nothing once the window (or the
/// ceiling) has already passed.
pub fn rate_limit_sleep(elapsed_ms: u64, window_ms: u64, ceiling_ms: u64) -> (r: u64)
    ensures
        r == spec_rate_limit_sleep(elapsed_ms, window_ms, ceiling_ms),
        r <= window_ms,
        elapsed_ms >= window_ms ==> r == 0,
{
    if elapsed_ms < ceiling_ms && elapsed_ms < window_ms {
        window_ms - elapsed_ms
    } else {
        0
    }
}

/// The rate limiter never sleeps more than the window, never sleeps a
/// negative duration, and sleeps nothing at all once the elapsed time has
/// reached the window.
pub proof fn lemma_rate_limit_sleep_bounds(elapsed: u64, window: u64, ceiling: u64)
    ensures
        spec_rate_limit_sleep(elapsed, window, ceiling) <= window,
        elapsed >= window ==> spec_rate_limit_sleep(elapsed, window, ceiling) == 0,
        elapsed < window && elapsed < ceiling ==> spec_rate_limit_sleep(elapsed, window, ceiling)
            == window - elapsed,
{
}

/// One input URL together with the platform it was classified as.
#[derive(Clone, Debug, PartialEq, Eq)]
pub struct ClassifiedUrl {
    pub url: String,
    pub kind: UrlType,
}

/// The input URLs split by platform, each bucket in input order.
#[derive(Clone, Debug, PartialEq, Eq)]
pub struct UrlPartition {
    pub reddit: Vec<String>,
    pub fedi: Vec<String>,
    pub unknown: Vec<String>,
}

/// The URLs of the items classified as `kind`, in input order.
pub open spec fn urls_of_kind(s: Seq<ClassifiedUrl>, kind: UrlType) -> Seq<Seq<char>>
    decreases s.len(),
{
    if s.len() == 0 {
        Seq::empty()
    } else {
        let rest = urls_of_kind(s.drop_last(), kind);
        if s.last().kind == kind {
            rest.push(s.last().url@)
        } else {
            rest
        }
    }
}

/// Split the classified input URLs into the per-platform lists the
/// resolution stage works on, each keeping input order. Unknown URLs get
/// no resolver at all: they are imported directly, with a warning logged
/// by the caller.
#[verifier::loop_isolation(false)]
pub fn partition_urls(items: &Vec<ClassifiedUrl>) -> (r: UrlPartition)
    ensures
        url_views(r.reddit@) == urls_of_kind(items@, UrlType::Reddit),
        url_views(r.fedi@) == urls_of_kind(items@, UrlType::Fedi),
        url_views(r.unknown@) == urls_of_kind(items@, UrlType::Other),
{
    let n: usize = items.len();
    let mut reddit: Vec<String> = Vec::new();
    let mut fedi: Vec<String> = Vec::new();
    let mut unknown: Vec<String> = Vec::new();
    let mut i: usize = 0;
    while i < n
        invariant
            i <= n,
            url_views(reddit@) =~= urls_of_kind(items@.take(i as int), UrlType::Reddit),
            url_views(fedi@) =~= urls_of_kind(items@.take(i as int), UrlType::Fedi),
            url_views(unknown@) =~= urls_of_kind(items@.take(i as int), UrlType::Other),
        decreases n - i,
    {
        match items[i].kind {
            UrlType::Reddit => reddit.push(items[i].url.clone()),
            UrlType::Fedi => fedi.push(items[i].url.clone()),
            UrlType::Other => unknown.push(items[i].url.clone()),
        }
        proof {
            assert(items@.take(i + 1).drop_last() =~= items@.take(i as int));
            assert(url_views(reddit@) =~= urls_of_kind(items@.take(i + 1), UrlType::Reddit));
            assert(url_views(fedi@) =~= urls_of_kind(items@.take(i + 1), UrlType::Fedi));
            assert(url_views(unknown@) =~= urls_of_kind(items@.take(i + 1), UrlType::Other));
        }
        i = i + 1;
    }
    proof {
        assert(items@.take(n as int) =~= items@);
    }
    UrlPartition { reddit, fedi, unknown }
}

/// What one concurrently launched resolution came back with: the item's
/// original input position, its post URL, and its resolver's result.
/// Failures are captured per item, never failing the whole join.
#[derive(Debug, PartialEq, Eq)]
pub struct ResolutionOutcome {
    pub index: usize,
    pub post_url: String,
    pub outcome: Result<Vec<String>, Error>,
}

/// One successfully resolved item, ready for the sequential import stage.
#[derive(Clone, Debug, PartialEq, Eq)]
pub struct ResolvedPost {
    pub index: usize,
    pub post_url: String,
    pub images: Vec<String>,
}

/// The successfully resolved items of a batch, in the batch's order;
/// failed items are left out.
pub open spec fn successes(s: Seq<ResolutionOutcome>) -> Seq<ResolvedPost>
    decreases s.len(),
{
    if s.len() == 0 {
        Seq::empty()
    } else {
        let rest = successes(s.skip(1));
        match s[0].outcome {
            Ok(images) => seq![
                ResolvedPost { index: s[0].index, post_url: s[0].post_url, images },
            ] + rest,
            Err(_) => rest,
        }
    }
}

/// The items stand in input order: positions earlier in the list carry
/// input indices no larger than later ones.
pub open spec fn sorted_by_index(s: Seq<ResolvedPost>) -> bool {
    forall|p: int, q: int|
        0 <= p < q < s.len() ==> (#[trigger] s[p]).index <= (#[trigger] s[q]).index
}

/// Bring the outcomes of the concurrent resolution stage into the order
/// the action stage needs: exactly the successful items, sorted back to
/// their original input positions, whatever order the resolutions
/// completed in. A failed item is logged by the caller and appears
/// nowhere in the result; the batch goes on.
#[verifier::loop_isolation(false)]
pub fn order_resolved(results: Vec<ResolutionOutcome>) -> (r: Vec<ResolvedPost>)
    ensures
        sorted_by_index(r@),
        r@.to_multiset() == successes(results@).to_multiset(),
{
    broadcast use vstd::seq_lib::group_to_multiset_ensures;

    let ghost results0 = results@;
    let mut rest = results;
    let mut pending: Vec<ResolvedPost> = Vec::new();
    while rest.len() > 0
        invariant
            pending@ + successes(rest@) =~= successes(results0),
        decreases rest@.len(),
    {
        let ghost rest_before = rest@;
        let ghost pending_before = pending@;
        let x: ResolutionOutcome = rest.remove(0);
        proof {
            assert(rest@ =~= rest_before.skip(1));
        }
        match x.outcome {
            Ok(images) => {
                pending.push(ResolvedPost { index: x.index, post_url: x.post_url, images });
                proof {
                    assert(pending@ + successes(rest@) =~= pending_before + (seq![
                        ResolvedPost { index: x.index, post_url: x.post_url, images },
                    ] + successes(rest_before.skip(1))));
                }
            },
            Err(_) => {},
        }
    }
    proof {
        assert(pending@ =~= successes(results0));
    }
    let mut src = pending;
    let mut out: Vec<ResolvedPost> = Vec::new();
    while src.len() > 0
        invariant
            out@.to_multiset().add(src@.to_multiset()) == successes(results0).to_multiset(),
            sorted_by_index(out@),
            forall|p: int, q: int|
                0 <= p < out@.len() && 0 <= q < src@.len() ==> (#[trigger] out@[p]).index
                    <= (#[trigger] src@[q]).index,
        decreases src@.len(),
    {
        let n: usize = src.len();
        let mut best: usize = 0;
        let mut k: usize = 1;
        while k < n
            invariant
                best < k <= n,
                n == src@.len(),
                forall|m: int| 0 <= m < k ==> src@[best as int].index <= (#[trigger] src@[m]).index,
            decreases n - k,
        {
            if src[k].index < src[best].index {
                best = k;
            }
            k = k + 1;
        }
        let ghost src_before = src@;
        let ghost out_before = out@;
        let x: ResolvedPost = src.remove(best);
        out.push(x);
        proof {
            assert(x == src_before[best as int]);
            assert(src_before.contains(src_before[best as int]));
            assert(src@.to_multiset() == src_before.to_multiset().remove(x));
            assert(out@.to_multiset() == out_before.to_multiset().insert(x));
            assert(out@.to_multiset().add(src@.to_multiset()) =~= out_before.to_multiset().add(
                src_before.to_multiset(),
            ));
            assert forall|p: int| 0 <= p < out_before.len() implies (#[trigger]
            out_before[p]).index <= x.index by {
                assert(out_before[p].index <= src_before[best as int].index);
            }
            assert(sorted_by_index(out@));
            assert forall|q: int| 0 <= q < src@.len() implies x.index <= (#[trigger] src@[q]).index
            by {
                if q < best {
                    assert(src@[q] == src_before[q]);
                } else {
                    assert(src@[q] == src_before[q + 1]);
                }
            }
            assert forall|p: int, q: int|
                0 <= p < out@.len() && 0 <= q < src@.len() implies (#[trigger] out@[p]).index
                <= (#[trigger] src@[q]).index by {
                if p < out_before.len() {
                    assert(out@[p] == out_before[p]);
                }
            }
        }
    }
    proof {
        assert(src@.to_multiset() =~= Multiset::empty());
        assert(out@.to_multiset() =~= successes(results0).to_multiset());
    }
    out
}

/// Items that stand earlier in the ordered action stage carry input
/// positions no larger than later ones: imports run in input order,
/// whatever order the resolutions completed in.
pub proof fn lemma_action_stage_in_input_order(ordered: Seq<ResolvedPost>, p: int, q: int)
    requires
        sorted_by_index(ordered),
        0 <= p < q < ordered.len(),
    ensures
        ordered[p].index <= ordered[q].index,
{
}

/// The ordered action stage holds exactly the successfully resolved
/// items: one item's failure removes that item alone, and every other
/// success still goes through.
pub proof fn lemma_ordered_holds_exactly_successes(
    results: Seq<ResolutionOutcome>,
    ordered: Seq<ResolvedPost>,
)
    requires
        ordered.to_multiset() == successes(results).to_multiset(),
    ensures
        forall|x: ResolvedPost| ordered.contains(x) <==> successes(results).contains(x),
{
    broadcast use vstd::seq_lib::group_to_multiset_ensures;

    assert forall|x: ResolvedPost| ordered.contains(x) <==> successes(results).contains(x) by {
        assert(ordered.contains(x) <==> ordered.to_multiset().count(x) > 0);
        assert(successes(results).contains(x) <==> successes(results).to_multiset().count(x) > 0);
    }
}

/// One action of the sequential import stage: import the media URL into
/// the store, then associate the originating post URL back onto every
/// file entry the import yielded.
#[derive(Clone, Debug, PartialEq, Eq)]
pub struct ImportStep {
    pub media_url: String,
    pub source_url: String,
}

/// The import steps one resolved post contributes: one per media URL, in
/// the post's order, each carrying the post URL to associate.
pub open spec fn steps_of_post(p: ResolvedPost) -> Seq<ImportStep> {
    Seq::new(
        p.images@.len(),
        |i: int| ImportStep { media_url: p.images@[i], source_url: p.post_url },
    )
}

/// The import steps of a whole ordered batch, post by post.
pub open spec fn spec_import_steps(posts: Seq<ResolvedPost>) -> Seq<ImportStep>
    decreases posts.len(),
{
    if posts.len() == 0 {
        Seq::empty()
    } else {
        spec_import_steps(posts.drop_last()) + steps_of_post(posts.last())
    }
}

/// Lay the sequential import stage out: for every resolved post in
/// order, one step per media URL, each naming the post URL that is
/// associated with all files the import produces.
#[verifier::loop_isolation(false)]
pub fn import_plan(posts: &Vec<ResolvedPost>) -> (r: Vec<ImportStep>)
    ensures
        r@ == spec_import_steps(posts@),
{
    let n: usize = posts.len();
    let mut out: Vec<ImportStep> = Vec::new();
    let mut i: usize = 0;
    while i < n
        invariant
            i <= n,
            out@ =~= spec_import_steps(posts@.take(i as int)),
        decreases n - i,
    {
        let m: usize = posts[i].images.len();
        let mut j: usize = 0;
        while j < m
            invariant
                i < n,
                j <= m,
                m == posts@[i as int].images@.len(),
                out@ =~= spec_import_steps(posts@.take(i as int)) + steps_of_post(
                    posts@[i as int],
                ).take(j as int),
            decreases m - j,
        {
            out.push(
                ImportStep {
                    media_url: posts[i].images[j].clone(),
                    source_url: posts[i].post_url.clone(),
                },
            );
            proof {
                assert(steps_of_post(posts@[i as int]).take(j + 1) =~= steps_of_post(
                    posts@[i as int],
                ).take(j as int).push(steps_of_post(posts@[i as int])[j as int]));
            }
            j = j + 1;
        }
        proof {
            assert(posts@.take(i + 1).drop_last() =~= posts@.take(i as int));
            assert(steps_of_post(posts@[i as int]).take(m as int) =~= steps_of_post(
                posts@[i as int],
            ));
        }
        i = i + 1;
    }
    proof {
        assert(posts@.take(n as int) =~= posts@);
    }
    out
}

/// One side-effecting call of the tag-target flow against the store.
#[derive(Clone, Debug, PartialEq, Eq)]
pub enum StoreAction {
    AddTags(Vec<String>),
    AssociateUrl(String),
}

/// The store calls owed for a file whose reverse search found a
/// canonical origin: the discovered tags where any were found, and the
/// origin URL associated in every case — also when no tags came back,
/// which is logged, not an error.
pub fn tag_write_plan(canonical_url: &String, tags: Vec<String>) -> (r: Vec<StoreAction>)
    ensures
        tags@.len() > 0 ==> r@.len() == 2 && r@[0] == StoreAction::AddTags(tags) && r@[1]
            == StoreAction::AssociateUrl(*canonical_url),
        tags@.len() == 0 ==> r@.len() == 1 && r@[0] == StoreAction::AssociateUrl(*canonical_url),
{
    let mut out: Vec<StoreAction> = Vec::new();
    if tags.len() > 0 {
        out.push(StoreAction::AddTags(tags));
    }
    out.push(StoreAction::AssociateUrl(canonical_url.clone()));
    out
}

/// What the tag-target flow does after one file's lookup: log the
/// failure (and move on — the batch continues), write the configured
/// finish tag after a success, or nothing further.
#[derive(Clone, Debug, PartialEq, Eq)]
pub enum FinishStep {
    LogFailure,
    WriteFinishTag(String),
    Nothing,
}

/// Close one file's tag-target iteration: a failed lookup is logged with
/// the file's hash and never aborts the batch; a successful one writes
/// the finish tag, where one is configured.
pub fn finish_step(succeeded: bool, finish_tag: &Option<String>) -> (r: FinishStep)
    ensures
        !succeeded ==> r == FinishStep::LogFailure,
        succeeded ==> match finish_tag {
            Some(t) => r matches FinishStep::WriteFinishTag(u) && u@ == t@,
            None => r == FinishStep::Nothing,
        },
{
    if !succeeded {
        FinishStep::LogFailure
    } else {
        match finish_tag {
            Some(t) => FinishStep::WriteFinishTag(t.clone()),
            None => FinishStep::Nothing,
        }
    }
}

/// The sequential, rate-paced driver of the tag-target flow: one file
/// per iteration, in order, with the configured spacing between
/// iterations. The caller performs the iteration's work, reports how
/// long it took, and sleeps as long as `record` says before the next
/// iteration starts.
#[derive(Clone, Debug, PartialEq, Eq)]
pub struct LookupBatch {
    pub total: usize,
    pub next: usize,
    pub window_ms: u64,
    pub ceiling_ms: u64,
}

impl LookupBatch {
    /// A batch over `total` files, paced by the configured rate window.
    pub fn new(total: usize) -> (r: Self)
        ensures
            r.total == total,
            r.next == 0,
            r.window_ms == RATE_WINDOW_MS,
            r.ceiling_ms == RATE_CEILING_MS,
    {
        LookupBatch { total, next: 0, window_ms: RATE_WINDOW_MS, ceiling_ms: RATE_CEILING_MS }
    }

    /// The position of the file to process next, until the batch is done.
    pub fn next_index(&self) -> (r: Option<usize>)
        ensures
            match r {
                Some(i) => i == self.next && i < self.total,
                None => self.next >= self.total,
            },
    {
        if self.next < self.total {
            Some(self.next)
        } else {
            None
        }
    }

    /// Close one iteration that took `elapsed_ms`: the batch moves to the
    /// next file, and the caller sleeps the returned number of
    /// milliseconds — the rest of the rate window, never more than the
    /// window, and nothing once the window or the ceiling has passed.
    pub fn record(&mut self, elapsed_ms: u64) -> (sleep_ms: u64)
        requires
            old(self).next < old(self).total,
        ensures
            final(self).next == old(self).next + 1,
            final(self).total == old(self).total,
            final(self).window_ms == old(self).window_ms,
            final(self).ceiling_ms == old(self).ceiling_ms,
            sleep_ms == spec_rate_limit_sleep(
                elapsed_ms,
                old(self).window_ms,
                old(self).ceiling_ms,
            ),
            sleep_ms <= old(self).window_ms,
            elapsed_ms >= old(self).window_ms ==> sleep_ms == 0,
    {
        self.next = self.next + 1;
        rate_limit_sleep(elapsed_ms, self.window_ms, self.ceiling_ms)
    }
}

} // verus!
