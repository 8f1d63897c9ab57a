use vstd::prelude::*;
use vstd::string::StringExecFns;

use crate::ports::short_url_repository::{RecordView, ShortUrlRecord};

verus! {

/// Where a stats query stands: the outside call it waits for, or its outcome (`Err(())` for a
/// failed call).
pub enum StatsActionView {
    /// Waiting for the repository's record for `code`.
    RepoFind { code: Seq<char> },
    /// Waiting for the cache to hand over the accesses counted for `code` since the last flush.
    TakeDelta { code: Seq<char>, record: RecordView },
    /// Waiting for the repository to add `delta` accesses to `code`.
    RepoIncrement { code: Seq<char>, record: RecordView, delta: nat },
    /// Done: the record with its up-to-date count, `None` for an unknown code, or a failure.
    Finish(Result<Option<RecordView>, ()>),
}

/// What an outside call answered (`Err(())` for a failed call).
pub enum StatsEventView {
    RepoFound(Result<Option<RecordView>, ()>),
    DeltaTaken(Result<nat, ()>),
    Incremented(bool),
}

/// The first step of a stats query.
pub open spec fn stats_begin(code: Seq<char>) -> StatsActionView {
    StatsActionView::RepoFind { code }
}

/// `record` with `delta` more accesses (the delta converted to `i64` as `as` does).
pub open spec fn with_added_accesses(record: RecordView, delta: nat) -> RecordView {
    RecordView { access_count: record.access_count + (delta as i64) as int, ..record }
}

/// The step of a stats query on an answer; an answer to another call leaves it where it
/// stands. A failure to take the cached accesses is ignored.
pub open spec fn stats_next(a: StatsActionView, e: StatsEventView) -> StatsActionView {
    match a {
        StatsActionView::RepoFind { code } => match e {
            StatsEventView::RepoFound(Ok(Some(record))) => StatsActionView::TakeDelta { code, record },
            StatsEventView::RepoFound(Ok(None)) => StatsActionView::Finish(Ok(None)),
            StatsEventView::RepoFound(Err(())) => StatsActionView::Finish(Err(())),
            _ => a,
        },
        StatsActionView::TakeDelta { code, record } => match e {
            StatsEventView::DeltaTaken(Ok(delta)) => if delta > 0 {
                StatsActionView::RepoIncrement { code, record, delta }
            } else {
                StatsActionView::Finish(Ok(Some(record)))
            },
            StatsEventView::DeltaTaken(Err(())) => StatsActionView::Finish(Ok(Some(record))),
            _ => a,
        },
        StatsActionView::RepoIncrement { code, record, delta } => match e {
            StatsEventView::Incremented(ok) => if ok {
                StatsActionView::Finish(Ok(Some(with_added_accesses(record, delta))))
            } else {
                StatsActionView::Finish(Err(()))
            },
            _ => a,
        },
        StatsActionView::Finish(_) => a,
    }
}

/// The view of a stats query's outcome.
pub open spec fn stats_outcome_view(r: Result<Option<ShortUrlRecord>, anyhow::Error>) -> Result<Option<RecordView>, ()> {
    match r {
        Ok(Some(rec)) => Ok(Some(rec@)),
        Ok(None) => Ok(None),
        Err(_) => Err(()),
    }
}

/// The view of the cache's answer.
pub open spec fn delta_view(r: Result<u64, anyhow::Error>) -> Result<nat, ()> {
    match r {
        Ok(d) => Ok(d as nat),
        Err(_) => Err(()),
    }
}

/// A stats query waiting for the repository's record.
pub struct StatsFindRequest {
    code: String,
}

/// A stats query waiting for the cache's access delta.
pub struct DeltaRequest {
    code: String,
    record: ShortUrlRecord,
}

/// A stats query waiting for the repository to add the delta.
pub struct IncrementRequest {
    code: String,
    record: ShortUrlRecord,
    delta: u64,
}

impl IncrementRequest {
    #[verifier::type_invariant]
    spec fn inv(self) -> bool {
        self.delta > 0
    }
}

impl View for StatsFindRequest {
    type V = StatsActionView;

    closed spec fn view(&self) -> StatsActionView {
        StatsActionView::RepoFind { code: self.code@ }
    }
}

impl View for DeltaRequest {
    type V = StatsActionView;

    closed spec fn view(&self) -> StatsActionView {
        StatsActionView::TakeDelta { code: self.code@, record: self.record@ }
    }
}

impl View for IncrementRequest {
    type V = StatsActionView;

    closed spec fn view(&self) -> StatsActionView {
        StatsActionView::RepoIncrement { code: self.code@, record: self.record@, delta: self.delta as nat }
    }
}

/// What a stats query asks for next: an outside call, whose answer goes to the request's
/// `on_..` method, or its outcome.
pub enum StatsAction {
    RepoFind(StatsFindRequest),
    TakeDelta(DeltaRequest),
    RepoIncrement(IncrementRequest),
    Finish(Result<Option<ShortUrlRecord>, anyhow::Error>),
}

impl View for StatsAction {
    type V = StatsActionView;

    open spec fn view(&self) -> StatsActionView {
        match self {
            StatsAction::RepoFind(r) => r@,
            StatsAction::TakeDelta(r) => r@,
            StatsAction::RepoIncrement(r) => r@,
            StatsAction::Finish(res) => StatsActionView::Finish(stats_outcome_view(*res)),
        }
    }
}

impl StatsFindRequest {
    /// The code to look up in the repository.
    pub fn code(&self) -> (c: &str)
        ensures
            self@ == (StatsActionView::RepoFind { code: c@ }),
    {
        self.code.as_str()
    }

    /// Goes on with the repository's answer, whose failure the caller has turned into an
    /// `anyhow::Error`.
    pub fn on_repo_found(self, result: Result<Option<ShortUrlRecord>, anyhow::Error>) -> (next: StatsAction)
        ensures
            next@ == stats_next(self@, StatsEventView::RepoFound(stats_outcome_view(result))),
            result matches Err(e) ==> next == StatsAction::Finish(Err(e)),
    {
        match result {
            Ok(Some(record)) => StatsAction::TakeDelta(DeltaRequest { code: self.code, record }),
            Ok(None) => StatsAction::Finish(Ok(None)),
            Err(e) => StatsAction::Finish(Err(e)),
        }
    }
}

impl DeltaRequest {
    /// The code whose cached accesses are taken.
    pub fn code(&self) -> (c: &str)
        ensures
            self@ matches StatsActionView::TakeDelta { code, .. } && c@ == code,
    {
        self.code.as_str()
    }

    /// Goes on with the cache's answer.
    pub fn on_delta_taken(self, result: Result<u64, anyhow::Error>) -> (next: StatsAction)
        ensures
            next@ == stats_next(self@, StatsEventView::DeltaTaken(delta_view(result))),
    {
        match result {
            Ok(delta) => {
                if delta > 0 {
                    StatsAction::RepoIncrement(IncrementRequest { code: self.code, record: self.record, delta })
                } else {
                    StatsAction::Finish(Ok(Some(self.record)))
                }
            },
            Err(_) => StatsAction::Finish(Ok(Some(self.record))),
        }
    }
}

impl IncrementRequest {
    /// The code whose stored count grows.
    pub fn code(&self) -> (c: &str)
        ensures
            self@ matches StatsActionView::RepoIncrement { code, .. } && c@ == code,
    {
        self.code.as_str()
    }

    /// How many accesses are added.
    pub fn delta(&self) -> (d: u64)
        ensures
            self@ matches StatsActionView::RepoIncrement { delta, .. } && d == delta,
            d > 0,
    {
        proof {
            use_type_invariant(self);
        }
        self.delta
    }

    /// The stored count that the delta is added to.
    pub fn access_count(&self) -> (n: i64)
        ensures
            self@ matches StatsActionView::RepoIncrement { record, .. } && n == record.access_count,
    {
        self.record.access_count
    }

    /// Goes on with the repository's answer, whose failure the caller has turned into an
    /// `anyhow::Error`. After a successful write the new count must fit in an `i64`.
    pub fn on_incremented(self, result: Result<(), anyhow::Error>) -> (next: StatsAction)
        requires
            result is Ok ==> (self@ matches StatsActionView::RepoIncrement { record, delta, .. } && i64::MIN
                <= record.access_count + (delta as i64) <= i64::MAX),
        ensures
            next@ == stats_next(self@, StatsEventView::Incremented(result is Ok)),
            result is Ok ==> (self@ matches StatsActionView::RepoIncrement { record, delta, .. }
                && next matches StatsAction::Finish(Ok(Some(reported))) && reported.code@ == record.code
                && reported.long_url@ == record.long_url && reported.access_count == record.access_count
                + (delta as i64)),
            result matches Err(e) ==> next == StatsAction::Finish(Err(e)),
    {
        match result {
            Ok(()) => {
                let mut record = self.record;
                record.access_count = record.access_count + (self.delta as i64);
                StatsAction::Finish(Ok(Some(record)))
            },
            Err(e) => StatsAction::Finish(Err(e)),
        }
    }
}

/// Reports a short URL's record with its access count brought up to date: the accesses
/// counted in the cache since the last flush are first moved into the repository.
pub struct GetShortUrlStatsService<R, C> {
    repository: R,
    cache: C,
}

impl<R: Clone, C: Clone> Clone for GetShortUrlStatsService<R, C> {
    fn clone(&self) -> (s: Self)
        ensures
            cloned(self.spec_repository(), s.spec_repository()),
            cloned(self.spec_cache(), s.spec_cache()),
    {
        GetShortUrlStatsService { repository: self.repository.clone(), cache: self.cache.clone() }
    }
}

impl<R, C> GetShortUrlStatsService<R, C> {
    /// The repository.
    pub closed spec fn spec_repository(&self) -> R {
        self.repository
    }

    /// The cache.
    pub closed spec fn spec_cache(&self) -> C {
        self.cache
    }

    pub fn new(repository: R, cache: C) -> (s: Self)
        ensures
            s.spec_repository() == repository,
            s.spec_cache() == cache,
    {
        GetShortUrlStatsService { repository, cache }
    }

    pub fn repository(&self) -> (r: &R)
        ensures
            *r == self.spec_repository(),
    {
        &self.repository
    }

    pub fn cache(&self) -> (c: &C)
        ensures
            *c == self.spec_cache(),
    {
        &self.cache
    }

    /// Starts a stats query for `code`: the first call asks the repository.
    pub fn begin(&self, code: &str) -> (next: StatsAction)
        ensures
            next@ == stats_begin(code@),
    {
        StatsAction::RepoFind(StatsFindRequest { code: String::from_str(code) })
    }
}

} // verus!

verus! {

/// An upper bound on the outside calls that a stats query still makes.
pub open spec fn stats_measure(a: StatsActionView) -> nat {
    match a {
        StatsActionView::RepoFind { .. } => 3,
        StatsActionView::TakeDelta { .. } => 2,
        StatsActionView::RepoIncrement { .. } => 1,
        StatsActionView::Finish(_) => 0,
    }
}

/// Whether an answer is the answer to the call that the query waits for.
pub open spec fn stats_answers(a: StatsActionView, e: StatsEventView) -> bool {
    match a {
        StatsActionView::RepoFind { .. } => e is RepoFound,
        StatsActionView::TakeDelta { .. } => e is DeltaTaken,
        StatsActionView::RepoIncrement { .. } => e is Incremented,
        StatsActionView::Finish(_) => false,
    }
}

/// A stats query makes at most three outside calls, and every answered call brings it closer
/// to its end.
pub proof fn lemma_stats_terminates(a: StatsActionView, e: StatsEventView)
    requires
        stats_answers(a, e),
    ensures
        stats_measure(stats_next(a, e)) < stats_measure(a),
{
}

/// The count reported for a known code is the stored count plus the accesses that the cache
/// held, and those are written to the repository before the report; with none held, the
/// stored record is reported as it is.
pub proof fn lemma_stats_reports_moved_accesses(code: Seq<char>, record: RecordView, delta: nat)
    ensures
        ({
            let taken = stats_next(
                stats_next(stats_begin(code), StatsEventView::RepoFound(Ok(Some(record)))),
                StatsEventView::DeltaTaken(Ok(delta)),
            );
            if delta > 0 {
                &&& taken == (StatsActionView::RepoIncrement { code, record, delta })
                &&& stats_next(taken, StatsEventView::Incremented(true)) == StatsActionView::Finish(
                    Ok(Some(with_added_accesses(record, delta))),
                )
            } else {
                taken == StatsActionView::Finish(Ok(Some(record)))
            }
        }),
{
}

/// A `StatsFindRequest` waits for the call that its view names: its view is `StatsActionView::RepoFind`.
pub broadcast proof fn lemma_stats_find_request_view(request: StatsFindRequest)
    ensures
        (#[trigger] request@) is RepoFind,
{
}

/// A `DeltaRequest` waits for the call that its view names: its view is `StatsActionView::TakeDelta`.
pub broadcast proof fn lemma_delta_request_view(request: DeltaRequest)
    ensures
        (#[trigger] request@) is TakeDelta,
{
}

/// A `IncrementRequest` waits for the call that its view names: its view is `StatsActionView::RepoIncrement`.
pub broadcast proof fn lemma_increment_request_view(request: IncrementRequest)
    ensures
        (#[trigger] request@) is RepoIncrement,
{
}

/// The variants of the views of a stats query's waiting requests, for callers outside this module.
pub broadcast group group_stats_request_views {
    lemma_stats_find_request_view,
    lemma_delta_request_view,
    lemma_increment_request_view,

}

/// Adding accesses changes only the count: the code and long URL stay those of the stored
/// record, and the count grows by exactly the delta (for any delta that fits in an `i64`).
pub proof fn lemma_added_accesses_keep_record(record: RecordView, delta: nat)
    ensures
        with_added_accesses(record, delta).code == record.code,
        with_added_accesses(record, delta).long_url == record.long_url,
        delta <= i64::MAX ==> with_added_accesses(record, delta).access_count == record.access_count + delta,
{
}

/// Whatever a stats query reports for a known code is the stored record with the same code and
/// long URL, and a count no smaller than the stored one (the stored count plus the accesses
/// moved from the cache).
pub proof fn lemma_stats_report_is_stored_record(a: StatsActionView, e: StatsEventView, reported: RecordView)
    requires
        stats_next(a, e) == StatsActionView::Finish(Ok(Some(reported))),
        a matches StatsActionView::RepoIncrement { delta, .. } ==> 0 < delta <= i64::MAX,
    ensures
        a matches StatsActionView::TakeDelta { record, .. } ==> reported == record,
        a matches StatsActionView::RepoIncrement { record, delta, .. } ==> reported.code == record.code
            && reported.long_url == record.long_url && reported.access_count == record.access_count + delta
            && reported.access_count > record.access_count,
{
}

} // verus!
