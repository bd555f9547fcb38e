//! Bucket statistics: counting every object of a bucket and adding up the
//! sizes, page by page, as the administrative client lists them.

use vstd::prelude::*;
use vstd::string::*;
use crate::error::{AppError, AppErrorView, AppResult};
use crate::models::BucketStats;
use crate::models::object::{byte_count, size_of_count};
use crate::services::s3_service::S3Service;

verus! {

/// One page of the administrative client's listing of a bucket.
#[derive(Debug, PartialEq, Eq)]
pub struct ObjectPage {
    /// The reported size of each object of the page, in the page's order.
    pub sizes: Vec<Option<i64>>,
    pub is_truncated: Option<bool>,
    pub next_continuation_token: Option<String>,
}

/// The mathematical value of an [`ObjectPage`].
pub struct ObjectPageView {
    pub sizes: Seq<Option<i64>>,
    pub is_truncated: Option<bool>,
    pub next_continuation_token: Option<Seq<char>>,
}

impl View for ObjectPage {
    type V = ObjectPageView;

    open spec fn view(&self) -> ObjectPageView {
        ObjectPageView {
            sizes: self.sizes@,
            is_truncated: self.is_truncated,
            next_continuation_token: self.next_continuation_token.deep_view(),
        }
    }
}

impl DeepView for ObjectPage {
    type V = ObjectPageView;

    open spec fn deep_view(&self) -> ObjectPageView {
        self@
    }
}

impl ObjectPageView {
    /// Whether the backend says that more pages follow this one.
    pub open spec fn goes_on(self) -> bool {
        self.is_truncated == Some(true)
    }
}

/// The bytes that objects of the reported sizes add up to.
pub open spec fn total_bytes(sizes: Seq<Option<i64>>) -> nat
    decreases sizes.len(),
{
    if sizes.len() == 0 {
        0
    } else {
        total_bytes(sizes.drop_last()) + byte_count(sizes.last()) as nat
    }
}

/// The sizes of all objects of `pages`, page after page.
pub open spec fn all_sizes(pages: Seq<ObjectPageView>) -> Seq<Option<i64>>
    decreases pages.len(),
{
    if pages.len() == 0 {
        Seq::empty()
    } else {
        pages.first().sizes + all_sizes(pages.drop_first())
    }
}

/// The sum over two runs of objects is the sum of their sums.
pub proof fn lemma_total_bytes_concat(a: Seq<Option<i64>>, b: Seq<Option<i64>>)
    ensures
        total_bytes(a + b) == total_bytes(a) + total_bytes(b),
    decreases b.len(),
{
    if b.len() == 0 {
        assert(a + b =~= a);
    } else {
        assert((a + b).drop_last() =~= a + b.drop_last());
        assert((a + b).last() == b.last());
        lemma_total_bytes_concat(a, b.drop_last());
    }
}

/// A bucket's count and sum so far.
pub struct StatsProgress {
    bucket_name: String,
    object_count: u64,
    total_size: u64,
}

/// The mathematical value of a [`StatsProgress`].
pub struct StatsProgressView {
    pub bucket_name: Seq<char>,
    pub object_count: nat,
    pub total_size: nat,
}

impl StatsProgressView {
    /// The progress after the objects of `sizes` are counted in.
    pub open spec fn plus(self, sizes: Seq<Option<i64>>) -> StatsProgressView {
        StatsProgressView {
            bucket_name: self.bucket_name,
            object_count: self.object_count + sizes.len(),
            total_size: self.total_size + total_bytes(sizes),
        }
    }

    /// Whether count and sum still fit the 64 bits they are kept in.
    pub open spec fn fits(self) -> bool {
        self.object_count <= u64::MAX && self.total_size <= u64::MAX
    }
}

/// What follows one answer of the backend.
pub enum StatsStep {
    /// More pages follow: ask for the next one with this continuation token.
    Fetch { progress: StatsProgress, continuation_token: Option<String> },
    /// The aggregation is over: that was the last page and the statistics
    /// are complete, or the backend failed.
    Done(AppResult<BucketStats>),
}

/// The mathematical value of a [`StatsStep`].
pub enum StatsStepView {
    Fetch { progress: StatsProgressView, continuation_token: Option<Seq<char>> },
    Done { bucket_name: Seq<char>, object_count: nat, total_size: nat },
    Failed(AppErrorView),
}

impl View for StatsStep {
    type V = StatsStepView;

    open spec fn view(&self) -> StatsStepView {
        match *self {
            StatsStep::Fetch { progress, continuation_token } => StatsStepView::Fetch {
                progress: progress@,
                continuation_token: continuation_token.deep_view(),
            },
            StatsStep::Done(Ok(stats)) => StatsStepView::Done {
                bucket_name: stats.name@,
                object_count: stats.object_count as nat,
                total_size: stats.total_size as nat,
            },
            StatsStep::Done(Err(error)) => StatsStepView::Failed(error@),
        }
    }
}

/// What is made of a failure of the backend: it ends the aggregation, and
/// what was counted so far is dropped.
pub open spec fn stats_failure(description: Seq<char>) -> StatsStepView {
    StatsStepView::Failed(AppErrorView::BackendError(description))
}

/// The rule of the aggregation: every object of the page is counted and its
/// size added. A page that the backend marks as truncated is followed by a
/// request with the token it names; any other page is the last.
pub open spec fn stats_step(progress: StatsProgressView, page: ObjectPageView) -> StatsStepView {
    let counted = progress.plus(page.sizes);
    if page.goes_on() {
        StatsStepView::Fetch {
            progress: counted,
            continuation_token: page.next_continuation_token,
        }
    } else {
        StatsStepView::Done {
            bucket_name: counted.bucket_name,
            object_count: counted.object_count,
            total_size: counted.total_size,
        }
    }
}

/// Where the aggregation stands after the backend has answered with
/// `pages`, in order. Pages behind a last page are never asked for.
pub open spec fn stats_run(step: StatsStepView, pages: Seq<ObjectPageView>) -> StatsStepView
    decreases pages.len(),
{
    match step {
        StatsStepView::Done { .. } => step,
        StatsStepView::Failed(_) => step,
        StatsStepView::Fetch { progress, .. } => if pages.len() == 0 {
            step
        } else {
            stats_run(stats_step(progress, pages.first()), pages.drop_first())
        },
    }
}

/// The step that the aggregation begins with: nothing counted, the first
/// page asked for without a token.
pub open spec fn stats_start(bucket_name: Seq<char>) -> StatsStepView {
    StatsStepView::Fetch {
        progress: StatsProgressView { bucket_name, object_count: 0, total_size: 0 },
        continuation_token: None,
    }
}

/// Whether `pages` is one complete listing: every page but the last is
/// marked as truncated, and the last is not.
pub open spec fn complete_listing(pages: Seq<ObjectPageView>) -> bool {
    &&& pages.len() > 0
    &&& forall|i: int| 0 <= i < pages.len() - 1 ==> (#[trigger] pages[i]).goes_on()
    &&& !pages.last().goes_on()
}

proof fn lemma_stats_run(progress: StatsProgressView, token: Option<Seq<char>>, pages: Seq<
    ObjectPageView,
>)
    requires
        complete_listing(pages),
    ensures
        stats_run(StatsStepView::Fetch { progress, continuation_token: token }, pages)
            == (StatsStepView::Done {
            bucket_name: progress.bucket_name,
            object_count: progress.object_count + all_sizes(pages).len(),
            total_size: progress.total_size + total_bytes(all_sizes(pages)),
        }),
    decreases pages.len(),
{
    let first = pages.first();
    let rest = pages.drop_first();
    lemma_total_bytes_concat(first.sizes, all_sizes(rest));
    reveal_with_fuel(stats_run, 2);
    if pages.len() == 1 {
        assert(all_sizes(rest) =~= Seq::empty());
        assert(all_sizes(pages) =~= first.sizes);
        assert(first == pages.last());
    } else {
        assert(first == pages[0]);
        assert(first.goes_on());
        assert(complete_listing(rest)) by {
            assert forall|i: int| 0 <= i < rest.len() - 1 implies (#[trigger] rest[i]).goes_on() by {
                assert(rest[i] == pages[i + 1]);
            }
            assert(rest.last() == pages.last());
        }
        lemma_stats_run(progress.plus(first.sizes), first.next_continuation_token, rest);
    }
}

/// The statistics of a complete listing are the number of its objects and
/// the sum of their sizes, all pages taken together. A bucket without
/// objects gives zero and zero.
pub proof fn stats_count_every_object(bucket_name: Seq<char>, pages: Seq<ObjectPageView>)
    requires
        complete_listing(pages),
    ensures
        stats_run(stats_start(bucket_name), pages) == (StatsStepView::Done {
            bucket_name,
            object_count: all_sizes(pages).len(),
            total_size: total_bytes(all_sizes(pages)),
        }),
        all_sizes(pages).len() == 0 ==> stats_run(stats_start(bucket_name), pages)
            == (StatsStepView::Done { bucket_name, object_count: 0, total_size: 0 }),
{
    lemma_stats_run(
        StatsProgressView { bucket_name, object_count: 0, total_size: 0 },
        None,
        pages,
    );
}

/// Where the page boundaries fall makes no difference: two complete
/// listings that hold the same objects in the same order give the same
/// statistics.
pub proof fn stats_ignore_page_boundaries(
    bucket_name: Seq<char>,
    pages: Seq<ObjectPageView>,
    other_pages: Seq<ObjectPageView>,
)
    requires
        complete_listing(pages),
        complete_listing(other_pages),
        all_sizes(pages) == all_sizes(other_pages),
    ensures
        stats_run(stats_start(bucket_name), pages) == stats_run(
            stats_start(bucket_name),
            other_pages,
        ),
{
    stats_count_every_object(bucket_name, pages);
    stats_count_every_object(bucket_name, other_pages);
}

impl View for StatsProgress {
    type V = StatsProgressView;

    closed spec fn view(&self) -> StatsProgressView {
        StatsProgressView {
            bucket_name: self.bucket_name@,
            object_count: self.object_count as nat,
            total_size: self.total_size as nat,
        }
    }
}

impl StatsProgress {
    /// The objects counted so far.
    pub fn object_count(&self) -> (count: u64)
        ensures
            count == self@.object_count,
    {
        self.object_count
    }

    /// The bytes added up so far.
    pub fn total_size(&self) -> (total: u64)
        ensures
            total == self@.total_size,
    {
        self.total_size
    }

    /// Takes the backend's answer to a request in: a page is counted, a
    /// failure ends the aggregation. Gives `None` where the count or the sum
    /// would no longer fit its 64 bits.
    pub fn absorb(self, reply: Result<ObjectPage, String>) -> (step: Option<StatsStep>)
        ensures
            match reply {
                Err(description) => step matches Some(next) && next@ == stats_failure(
                    description@,
                ),
                Ok(page) => match step {
                    Some(next) => self@.plus(page@.sizes).fits() && next@ == stats_step(
                        self@,
                        page@,
                    ),
                    None => !self@.plus(page@.sizes).fits(),
                },
            },
    {
        match reply {
            Err(description) => Some(StatsStep::Done(Err(AppError::BackendError(description)))),
            Ok(page) => self.count(page),
        }
    }

    fn count(self, page: ObjectPage) -> (step: Option<StatsStep>)
        ensures
            match step {
                Some(next) => self@.plus(page@.sizes).fits() && next@ == stats_step(self@, page@),
                None => !self@.plus(page@.sizes).fits(),
            },
    {
        let StatsProgress { bucket_name, object_count, total_size } = self;
        let ObjectPage { sizes, is_truncated, next_continuation_token } = page;
        let n: usize = sizes.len();
        if n as u64 > u64::MAX - object_count {
            return None;
        }
        let mut total: u64 = total_size;
        let mut i: usize = 0;
        while i < n
            invariant
                n == sizes@.len(),
                i <= n,
                total == total_size + total_bytes(sizes@.take(i as int)),
                self@.total_size == total_size,
                self@.object_count == object_count,
                page@.sizes == sizes@,
            decreases n - i,
        {
            let size: u64 = size_of_count(sizes[i]);
            proof {
                assert(sizes@.take(i + 1).drop_last() =~= sizes@.take(i as int));
                assert(sizes@.take(i + 1).last() == sizes@[i as int]);
                assert(sizes@ =~= sizes@.take(i + 1) + sizes@.skip(i + 1));
                lemma_total_bytes_concat(sizes@.take(i + 1), sizes@.skip(i + 1));
            }
            if size > u64::MAX - total {
                return None;
            }
            total = total + size;
            i += 1;
        }
        assert(sizes@.take(n as int) =~= sizes@);
        let count: u64 = object_count + n as u64;
        if is_truncated == Some(true) {
            Some(
                StatsStep::Fetch {
                    progress: StatsProgress { bucket_name, object_count: count, total_size: total },
                    continuation_token: next_continuation_token,
                },
            )
        } else {
            Some(
                StatsStep::Done(
                    Ok(BucketStats { name: bucket_name, object_count: count, total_size: total }),
                ),
            )
        }
    }
}

impl S3Service {
    /// Begins the statistics of a bucket: nothing is counted yet, and the
    /// first page is to be asked for without a continuation token.
    pub fn get_bucket_stats(bucket_name: &str) -> (step: StatsStep)
        ensures
            step@ == stats_start(bucket_name@),
    {
        StatsStep::Fetch {
            progress: StatsProgress {
                bucket_name: bucket_name.to_owned(),
                object_count: 0,
                total_size: 0,
            },
            continuation_token: None,
        }
    }
}

} // verus!
