//! The listing engine: one pass over the entries that the storage operator
//! hands out under a prefix, sorted into objects and directory prefixes and
//! cut off at the page limit.

use vstd::prelude::*;
use vstd::string::*;
use crate::error::{AppError, AppErrorView, AppResult};
use crate::models::{
    ListObjectsResult, ListObjectsResultView, ListedEntry, ListedEntryView, S3Object,
    S3ObjectView,
};
use crate::models::object::object_of;
use crate::services::s3_service::S3Service;
use crate::text::{
    join_text, decimal, decimal_text, ends_with_slash, has_trailing_slash, slash_terminated,
    with_trailing_slash,
};

verus! {

/// The page limit where the caller names none.
pub const DEFAULT_PAGE_LIMIT: u32 = 500;

/// The largest page limit that is honoured.
pub const MAX_PAGE_LIMIT: u32 = 1000;

/// The prefix that is handed to the storage operator: empty stays empty,
/// anything else ends in `/`.
pub open spec fn listing_prefix(prefix: Seq<char>) -> Seq<char> {
    if prefix.len() == 0 {
        prefix
    } else {
        slash_terminated(prefix)
    }
}

/// The page limit in force: 500 where none is asked for, else what is asked
/// for, brought into the range from 1 to 1000.
pub open spec fn effective_limit(max_keys: Option<u32>) -> nat {
    match max_keys {
        None => 500,
        Some(n) => if n < 1 {
            1
        } else if n > 1000 {
            1000
        } else {
            n as nat
        },
    }
}

/// Whether an entry is a directory prefix: the backend marks it as a
/// directory, or its path ends in `/`.
pub open spec fn is_prefix_entry(entry: ListedEntryView) -> bool {
    entry.metadata.is_dir || ends_with_slash(entry.path)
}

/// The objects among `entries`, in their order.
pub open spec fn listed_objects(entries: Seq<ListedEntryView>) -> Seq<S3ObjectView>
    decreases entries.len(),
{
    if entries.len() == 0 {
        Seq::empty()
    } else {
        let before = listed_objects(entries.drop_last());
        let entry = entries.last();
        if is_prefix_entry(entry) {
            before
        } else {
            before.push(object_of(entry.path, entry.metadata, false))
        }
    }
}

/// The paths of the directory prefixes among `entries`, in their order.
pub open spec fn listed_prefixes(entries: Seq<ListedEntryView>) -> Seq<Seq<char>>
    decreases entries.len(),
{
    if entries.len() == 0 {
        Seq::empty()
    } else {
        let before = listed_prefixes(entries.drop_last());
        let entry = entries.last();
        if is_prefix_entry(entry) {
            before.push(entry.path)
        } else {
            before
        }
    }
}

/// The marker that a page carries when it stopped after `count` entries. It
/// records the count and nothing else: the pass over the backend's entries
/// cannot be taken up again at that place, so a later listing starts from
/// the beginning whatever marker it is given.
pub open spec fn continuation_marker(count: nat) -> Seq<char> {
    "offset:"@ + decimal(count)
}

/// The page that a listing yields when the backend holds `entries` under the
/// prefix. Under a limit the page holds the first `limit` entries and is
/// truncated exactly when the backend holds more; without one it holds all.
pub open spec fn page_of(entries: Seq<ListedEntryView>, limit: Option<nat>) -> ListObjectsResultView {
    match limit {
        Some(l) if entries.len() > l => ListObjectsResultView {
            objects: listed_objects(entries.take(l as int)),
            prefixes: listed_prefixes(entries.take(l as int)),
            continuation_token: Some(continuation_marker(l)),
            is_truncated: true,
        },
        _ => ListObjectsResultView {
            objects: listed_objects(entries),
            prefixes: listed_prefixes(entries),
            continuation_token: None,
            is_truncated: false,
        },
    }
}

/// Every entry is either an object or a prefix, never both.
pub proof fn lemma_entries_partition(entries: Seq<ListedEntryView>)
    ensures
        listed_objects(entries).len() + listed_prefixes(entries).len() == entries.len(),
    decreases entries.len(),
{
    if entries.len() > 0 {
        lemma_entries_partition(entries.drop_last());
    }
}

/// A page never holds more entries than its limit, objects and prefixes
/// counted together, and it is truncated exactly when it carries a
/// continuation marker. This holds whatever the backend lists.
pub proof fn page_within_limit(entries: Seq<ListedEntryView>, limit: nat)
    ensures
        page_of(entries, Some(limit)).entry_count() <= limit,
        page_of(entries, Some(limit)).well_formed(),
        page_of(entries, None).well_formed(),
{
    if entries.len() > limit {
        lemma_entries_partition(entries.take(limit as int));
    } else {
        lemma_entries_partition(entries);
    }
}

/// What the storage operator's entry stream gives next.
#[derive(Debug, PartialEq, Eq)]
pub enum ListingEvent {
    /// One more entry.
    Entry(ListedEntry),
    /// The stream is exhausted.
    End,
    /// The backend failed; the text is its description.
    Failed(String),
}

/// The mathematical value of a [`ListingEvent`].
pub enum ListingEventView {
    Entry(ListedEntryView),
    End,
    Failed(Seq<char>),
}

impl View for ListingEvent {
    type V = ListingEventView;

    open spec fn view(&self) -> ListingEventView {
        match *self {
            ListingEvent::Entry(entry) => ListingEventView::Entry(entry@),
            ListingEvent::End => ListingEventView::End,
            ListingEvent::Failed(description) => ListingEventView::Failed(description@),
        }
    }
}

/// A listing under way: what has been sorted so far, and the limit.
pub struct ListingProgress {
    objects: Vec<S3Object>,
    prefixes: Vec<String>,
    limit: Option<usize>,
}

/// The mathematical value of a [`ListingProgress`].
pub struct ListingProgressView {
    pub objects: Seq<S3ObjectView>,
    pub prefixes: Seq<Seq<char>>,
    pub limit: Option<nat>,
}

impl ListingProgressView {
    /// How many entries have been taken in.
    pub open spec fn count(self) -> nat {
        self.objects.len() + self.prefixes.len()
    }

    /// The progress after exactly `seen` has been taken in.
    pub open spec fn after(seen: Seq<ListedEntryView>, limit: Option<nat>) -> ListingProgressView {
        ListingProgressView {
            objects: listed_objects(seen),
            prefixes: listed_prefixes(seen),
            limit,
        }
    }

    /// The page that holds what has been taken in, truncated or not.
    pub open spec fn page(self, truncated: bool) -> ListObjectsResultView {
        ListObjectsResultView {
            objects: self.objects,
            prefixes: self.prefixes,
            continuation_token: if truncated {
                Some(continuation_marker(self.count()))
            } else {
                None
            },
            is_truncated: truncated,
        }
    }
}

/// What follows one event of the stream.
pub enum ListingStep {
    /// The listing goes on: ask the stream for its next event.
    More(ListingProgress),
    /// The listing is over.
    Done(AppResult<ListObjectsResult>),
}

/// The mathematical value of a [`ListingStep`].
pub enum ListingStepView {
    More(ListingProgressView),
    Done(Result<ListObjectsResultView, AppErrorView>),
}

impl View for ListingStep {
    type V = ListingStepView;

    open spec fn view(&self) -> ListingStepView {
        match *self {
            ListingStep::More(progress) => ListingStepView::More(progress@),
            ListingStep::Done(Ok(page)) => ListingStepView::Done(Ok(page@)),
            ListingStep::Done(Err(error)) => ListingStepView::Done(Err(error@)),
        }
    }
}

/// The rule of the listing: a failure ends it with the backend's error and
/// nothing of what was gathered; the end of the stream ends it with an
/// untruncated page; an entry that arrives when the limit is reached ends it
/// with a truncated page that does not hold that entry; any other entry is
/// sorted in, as a prefix or as an object.
pub open spec fn listing_step(progress: ListingProgressView, event: ListingEventView) -> ListingStepView {
    match event {
        ListingEventView::Failed(description) => ListingStepView::Done(
            Err(AppErrorView::BackendError(description)),
        ),
        ListingEventView::End => ListingStepView::Done(Ok(progress.page(false))),
        ListingEventView::Entry(entry) => {
            if progress.limit matches Some(l) && progress.count() >= l {
                ListingStepView::Done(Ok(progress.page(true)))
            } else if is_prefix_entry(entry) {
                ListingStepView::More(
                    ListingProgressView { prefixes: progress.prefixes.push(entry.path), ..progress },
                )
            } else {
                ListingStepView::More(
                    ListingProgressView {
                        objects: progress.objects.push(object_of(entry.path, entry.metadata, false)),
                        ..progress
                    },
                )
            }
        },
    }
}

/// What a listing ends with when the stream gives `entries` and then ends.
pub open spec fn listing_run(progress: ListingProgressView, entries: Seq<ListedEntryView>) -> Result<
    ListObjectsResultView,
    AppErrorView,
>
    decreases entries.len(),
{
    if entries.len() == 0 {
        Ok(progress.page(false))
    } else {
        match listing_step(progress, ListingEventView::Entry(entries.first())) {
            ListingStepView::Done(result) => result,
            ListingStepView::More(next) => listing_run(next, entries.drop_first()),
        }
    }
}

proof fn lemma_run_from(seen: Seq<ListedEntryView>, rest: Seq<ListedEntryView>, limit: Option<nat>)
    requires
        limit matches Some(l) ==> seen.len() <= l,
    ensures
        listing_run(ListingProgressView::after(seen, limit), rest) == Ok::<
            ListObjectsResultView,
            AppErrorView,
        >(page_of(seen + rest, limit)),
    decreases rest.len(),
{
    let progress = ListingProgressView::after(seen, limit);
    lemma_entries_partition(seen);
    if rest.len() == 0 {
        assert(seen + rest =~= seen);
    } else {
        let entry = rest.first();
        if limit is Some && progress.count() >= limit->0 {
            assert((seen + rest).take(limit->0 as int) =~= seen);
        } else {
            let grown = seen.push(entry);
            assert(grown.drop_last() =~= seen);
            assert(grown.last() == entry);
            assert(grown + rest.drop_first() =~= seen + rest);
            lemma_run_from(grown, rest.drop_first(), limit);
        }
    }
}

/// Taking the entries in one by one ends with the page that is described
/// for the whole stream.
pub proof fn run_yields_page(entries: Seq<ListedEntryView>, limit: Option<nat>)
    ensures
        listing_run(ListingProgressView::after(Seq::empty(), limit), entries) == Ok::<
            ListObjectsResultView,
            AppErrorView,
        >(page_of(entries, limit)),
{
    lemma_run_from(Seq::empty(), entries, limit);
    assert(Seq::<ListedEntryView>::empty() + entries =~= entries);
}

impl ListingProgress {
    #[verifier::type_invariant]
    spec fn bounded(self) -> bool {
        self.limit matches Some(l) ==> self.objects.len() + self.prefixes.len() <= l
    }

    /// A listing that has taken nothing in yet, under `limit` if there is one.
    pub fn start(limit: Option<usize>) -> (progress: Self)
        ensures
            progress@ == ListingProgressView::after(
                Seq::empty(),
                match limit {
                    Some(l) => Some(l as nat),
                    None => None,
                },
            ),
    {
        let progress = ListingProgress { objects: Vec::new(), prefixes: Vec::new(), limit };
        assert(progress.objects.deep_view() =~= Seq::empty());
        assert(progress.prefixes.deep_view() =~= Seq::empty());
        progress
    }

    /// Takes in one more entry: the listing goes on, or the entry is left out
    /// and the truncated page comes back.
    fn take_in(self, entry: ListedEntry) -> (taken: Result<ListingProgress, ListObjectsResult>)
        ensures
            match listing_step(self@, ListingEventView::Entry(entry@)) {
                ListingStepView::More(next) => taken matches Ok(progress) && progress@ == next,
                ListingStepView::Done(Ok(page)) => taken matches Err(full) && full@ == page,
                ListingStepView::Done(Err(_)) => false,
            },
    {
        proof {
            use_type_invariant(&self);
        }
        let ListingProgress { mut objects, mut prefixes, limit } = self;
        let full: bool = match limit {
            Some(l) => objects.len() + prefixes.len() >= l,
            None => false,
        };
        if full {
            let count: usize = objects.len() + prefixes.len();
            let marker = join_text("offset:", decimal_text(count as u64).as_str());
            Err(
                ListObjectsResult {
                    objects,
                    prefixes,
                    continuation_token: Some(marker),
                    is_truncated: true,
                },
            )
        } else if entry.metadata.is_dir || has_trailing_slash(entry.path.as_str()) {
            let ghost before = prefixes.deep_view();
            prefixes.push(entry.path);
            assert(prefixes.deep_view() =~= before.push(entry.path@));
            Ok(ListingProgress { objects, prefixes, limit })
        } else {
            let ghost before = objects.deep_view();
            let object = S3Object::describe(entry.path, entry.metadata, false);
            objects.push(object);
            assert(objects.deep_view() =~= before.push(object@));
            Ok(ListingProgress { objects, prefixes, limit })
        }
    }

    /// Ends the listing at the end of the stream.
    fn finish(self) -> (page: ListObjectsResult)
        ensures
            page@ == self@.page(false),
    {
        ListObjectsResult {
            objects: self.objects,
            prefixes: self.prefixes,
            continuation_token: None,
            is_truncated: false,
        }
    }

    /// Takes in the next event of the stream.
    pub fn accept(self, event: ListingEvent) -> (step: ListingStep)
        ensures
            step@ == listing_step(self@, event@),
    {
        match event {
            ListingEvent::Failed(description) => ListingStep::Done(
                Err(AppError::BackendError(description)),
            ),
            ListingEvent::End => ListingStep::Done(Ok(self.finish())),
            ListingEvent::Entry(entry) => match self.take_in(entry) {
                Ok(progress) => ListingStep::More(progress),
                Err(page) => ListingStep::Done(Ok(page)),
            },
        }
    }
}

impl S3Service {
    /// The prefix to ask the storage operator for when the caller asks for
    /// `prefix`.
    pub fn list_prefix(prefix: &str) -> (normalized: String)
        ensures
            normalized@ == listing_prefix(prefix@),
    {
        if prefix.is_empty() {
            prefix.to_owned()
        } else {
            with_trailing_slash(prefix)
        }
    }

    /// The page limit in force when the caller asks for `max_keys`.
    pub fn page_limit(max_keys: Option<u32>) -> (limit: usize)
        ensures
            limit == effective_limit(max_keys),
            1 <= limit <= 1000,
    {
        match max_keys {
            None => 500,
            Some(n) => if n < 1 {
                1
            } else if n > MAX_PAGE_LIMIT {
                1000
            } else {
                n as usize
            },
        }
    }

    /// Lists one page: `entries` is what the storage operator hands out under
    /// the prefix, in its order. Entries behind the one that follows the
    /// limit are never looked at. The page holds no more entries than the
    /// limit in force, which is the caller's own limit or less whenever the
    /// caller asks for at least one entry.
    pub fn list_objects(entries: Vec<ListedEntry>, max_keys: Option<u32>) -> (page: ListObjectsResult)
        ensures
            page@ == page_of(entries.deep_view(), Some(effective_limit(max_keys))),
            page@.entry_count() <= effective_limit(max_keys),
            max_keys matches Some(asked) ==> (asked >= 1 ==> page@.entry_count() <= asked),
            page@.well_formed(),
    {
        let limit: usize = Self::page_limit(max_keys);
        proof {
            page_within_limit(entries.deep_view(), limit as nat);
        }
        Self::run_listing(entries, Some(limit))
    }

    /// Lists everything: `entries` is what the storage operator hands out
    /// under the prefix, in its order.
    pub fn list_all_objects(entries: Vec<ListedEntry>) -> (page: ListObjectsResult)
        ensures
            page@ == page_of(entries.deep_view(), None),
            page@.objects == listed_objects(entries.deep_view()),
            page@.prefixes == listed_prefixes(entries.deep_view()),
            !page@.is_truncated,
            page@.continuation_token is None,
    {
        Self::run_listing(entries, None)
    }

    fn run_listing(entries: Vec<ListedEntry>, limit: Option<usize>) -> (page: ListObjectsResult)
        ensures
            page@ == page_of(
                entries.deep_view(),
                match limit {
                    Some(l) => Some(l as nat),
                    None => None,
                },
            ),
    {
        let ghost all = entries.deep_view();
        let ghost bound: Option<nat> = match limit {
            Some(l) => Some(l as nat),
            None => None,
        };
        let mut progress = ListingProgress::start(limit);
        for entry in it: entries
            invariant
                all == entries.deep_view(),
                bound == match limit {
                    Some(l) => Some(l as nat),
                    None => None::<nat>,
                },
                it.seq().len() == all.len(),
                forall|j: int| 0 <= j < all.len() ==> (#[trigger] it.seq()[j])@ == all[j],
                progress@ == ListingProgressView::after(all.take(it.index()), bound),
                bound matches Some(l) ==> it.index() <= l,
        {
            let ghost seen = all.take(it.index());
            proof {
                lemma_entries_partition(seen);
                assert(all.take(it.index() + 1) =~= seen.push(entry@));
                assert(seen.push(entry@).drop_last() =~= seen);
            }
            match progress.take_in(entry) {
                Ok(next) => {
                    progress = next;
                },
                Err(page) => {
                    proof {
                        assert(all.take(bound->0 as int) =~= seen);
                    }
                    return page;
                },
            }
        }
        proof {
            assert(all.take(all.len() as int) =~= all);
            lemma_entries_partition(all);
        }
        progress.finish()
    }
}

impl View for ListingProgress {
    type V = ListingProgressView;

    closed spec fn view(&self) -> ListingProgressView {
        ListingProgressView {
            objects: self.objects.deep_view(),
            prefixes: self.prefixes.deep_view(),
            limit: match self.limit {
                Some(l) => Some(l as nat),
                None => None,
            },
        }
    }
}

} // verus!
