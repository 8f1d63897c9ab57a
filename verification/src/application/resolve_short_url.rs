use vstd::prelude::*;
use vstd::string::StringExecFns;

use crate::application::create_short_url::{create_next, CreateActionView, CreateEventView};
use crate::ports::short_url_repository::{RecordView, ShortUrlRecord};

verus! {

/// Where a resolution stands: the outside call it waits for, or its outcome (`Err(())` for a
/// failed call).
pub enum ResolveActionView {
    /// Waiting for the cache's URL for `code`.
    CacheGet { code: Seq<char> },
    /// Waiting for the repository's record for `code`.
    RepoFind { code: Seq<char> },
    /// Waiting for the cache to store `long_url` under `code`.
    CacheFill { code: Seq<char>, long_url: Seq<char> },
    /// Waiting for the cache to count one access to `code`.
    CountAccess { code: Seq<char>, long_url: Seq<char> },
    /// Done: the URL, `None` for an unknown code, or a failure.
    Finish(Result<Option<Seq<char>>, ()>),
}

/// What an outside call answered (`Err(())` for a failed call).
pub enum ResolveEventView {
    CacheGot(Result<Option<Seq<char>>, ()>),
    RepoFound(Result<Option<RecordView>, ()>),
    CacheFilled(bool),
    Counted(bool),
}

/// The first step of a resolution.
pub open spec fn resolve_begin(code: Seq<char>) -> ResolveActionView {
    ResolveActionView::CacheGet { code }
}

/// The step of a resolution on an answer; an answer to another call leaves it where it stands.
pub open spec fn resolve_next(a: ResolveActionView, e: ResolveEventView) -> ResolveActionView {
    match a {
        ResolveActionView::CacheGet { code } => match e {
            ResolveEventView::CacheGot(Ok(Some(long_url))) => ResolveActionView::CountAccess { code, long_url },
            ResolveEventView::CacheGot(Ok(None)) => ResolveActionView::RepoFind { code },
            ResolveEventView::CacheGot(Err(())) => ResolveActionView::Finish(Err(())),
            _ => a,
        },
        ResolveActionView::RepoFind { code } => match e {
            ResolveEventView::RepoFound(Ok(Some(record))) => ResolveActionView::CacheFill {
                code,
                long_url: record.long_url,
            },
            ResolveEventView::RepoFound(Ok(None)) => ResolveActionView::Finish(Ok(None)),
            ResolveEventView::RepoFound(Err(())) => ResolveActionView::Finish(Err(())),
            _ => a,
        },
        ResolveActionView::CacheFill { code, long_url } => match e {
            ResolveEventView::CacheFilled(ok) => if ok {
                ResolveActionView::CountAccess { code, long_url }
            } else {
                ResolveActionView::Finish(Err(()))
            },
            _ => a,
        },
        ResolveActionView::CountAccess { code, long_url } => match e {
            ResolveEventView::Counted(ok) => if ok {
                ResolveActionView::Finish(Ok(Some(long_url)))
            } else {
                ResolveActionView::Finish(Err(()))
            },
            _ => a,
        },
        ResolveActionView::Finish(_) => a,
    }
}

/// The view of a resolution's outcome.
pub open spec fn resolve_outcome_view(r: Result<Option<String>, anyhow::Error>) -> Result<Option<Seq<char>>, ()> {
    match r {
        Ok(Some(u)) => Ok(Some(u@)),
        Ok(None) => Ok(None),
        Err(_) => Err(()),
    }
}

/// The view of the cache's answer.
pub open spec fn cached_url_view(r: Result<Option<String>, anyhow::Error>) -> Result<Option<Seq<char>>, ()> {
    resolve_outcome_view(r)
}

/// The view of the repository's answer.
pub open spec fn found_record_view(r: Result<Option<ShortUrlRecord>, anyhow::Error>) -> Result<Option<RecordView>, ()> {
    match r {
        Ok(Some(rec)) => Ok(Some(rec@)),
        Ok(None) => Ok(None),
        Err(_) => Err(()),
    }
}

/// A resolution waiting for the cache's URL.
pub struct LookupRequest {
    code: String,
}

/// A resolution waiting for the repository's record.
pub struct FindRequest {
    code: String,
}

/// A resolution waiting for the cache to store the URL found in the repository.
pub struct FillRequest {
    code: String,
    long_url: String,
}

/// A resolution waiting for the cache to count the access.
pub struct CountRequest {
    code: String,
    long_url: String,
}

impl View for LookupRequest {
    type V = ResolveActionView;

    closed spec fn view(&self) -> ResolveActionView {
        ResolveActionView::CacheGet { code: self.code@ }
    }
}

impl View for FindRequest {
    type V = ResolveActionView;

    closed spec fn view(&self) -> ResolveActionView {
        ResolveActionView::RepoFind { code: self.code@ }
    }
}

impl View for FillRequest {
    type V = ResolveActionView;

    closed spec fn view(&self) -> ResolveActionView {
        ResolveActionView::CacheFill { code: self.code@, long_url: self.long_url@ }
    }
}

impl View for CountRequest {
    type V = ResolveActionView;

    closed spec fn view(&self) -> ResolveActionView {
        ResolveActionView::CountAccess { code: self.code@, long_url: self.long_url@ }
    }
}

/// What a resolution asks for next: an outside call, whose answer goes to the request's
/// `on_..` method, or its outcome.
pub enum ResolveAction {
    CacheGet(LookupRequest),
    RepoFind(FindRequest),
    CacheFill(FillRequest),
    CountAccess(CountRequest),
    Finish(Result<Option<String>, anyhow::Error>),
}

impl View for ResolveAction {
    type V = ResolveActionView;

    open spec fn view(&self) -> ResolveActionView {
        match self {
            ResolveAction::CacheGet(r) => r@,
            ResolveAction::RepoFind(r) => r@,
            ResolveAction::CacheFill(r) => r@,
            ResolveAction::CountAccess(r) => r@,
            ResolveAction::Finish(res) => ResolveActionView::Finish(resolve_outcome_view(*res)),
        }
    }
}

impl LookupRequest {
    /// The code to look up in the cache.
    pub fn code(&self) -> (c: &str)
        ensures
            self@ == (ResolveActionView::CacheGet { code: c@ }),
    {
        self.code.as_str()
    }

    /// Goes on with the cache's answer.
    pub fn on_cache_got(self, result: Result<Option<String>, anyhow::Error>) -> (next: ResolveAction)
        ensures
            next@ == resolve_next(self@, ResolveEventView::CacheGot(cached_url_view(result))),
            result matches Err(e) ==> next == ResolveAction::Finish(Err(e)),
    {
        match result {
            Ok(Some(long_url)) => ResolveAction::CountAccess(CountRequest { code: self.code, long_url }),
            Ok(None) => ResolveAction::RepoFind(FindRequest { code: self.code }),
            Err(e) => ResolveAction::Finish(Err(e)),
        }
    }
}

impl FindRequest {
    /// The code to look up in the repository.
    pub fn code(&self) -> (c: &str)
        ensures
            self@ == (ResolveActionView::RepoFind { code: c@ }),
    {
        self.code.as_str()
    }

    /// Goes on with the repository's answer, whose failure the caller has turned into an
    /// `anyhow::Error`.
    pub fn on_repo_found(self, result: Result<Option<ShortUrlRecord>, anyhow::Error>) -> (next: ResolveAction)
        ensures
            next@ == resolve_next(self@, ResolveEventView::RepoFound(found_record_view(result))),
            result matches Err(e) ==> next == ResolveAction::Finish(Err(e)),
    {
        match result {
            Ok(Some(record)) => ResolveAction::CacheFill(FillRequest { code: self.code, long_url: record.long_url }),
            Ok(None) => ResolveAction::Finish(Ok(None)),
            Err(e) => ResolveAction::Finish(Err(e)),
        }
    }
}

impl FillRequest {
    /// The code under which the URL is cached.
    pub fn code(&self) -> (c: &str)
        ensures
            self@ matches ResolveActionView::CacheFill { code, .. } && c@ == code,
    {
        self.code.as_str()
    }

    /// The URL to cache.
    pub fn long_url(&self) -> (u: &str)
        ensures
            self@ matches ResolveActionView::CacheFill { long_url, .. } && u@ == long_url,
    {
        self.long_url.as_str()
    }

    /// Goes on with the cache's answer.
    pub fn on_cache_filled(self, result: Result<(), anyhow::Error>) -> (next: ResolveAction)
        ensures
            next@ == resolve_next(self@, ResolveEventView::CacheFilled(result is Ok)),
            result matches Err(e) ==> next == ResolveAction::Finish(Err(e)),
    {
        match result {
            Ok(()) => ResolveAction::CountAccess(CountRequest { code: self.code, long_url: self.long_url }),
            Err(e) => ResolveAction::Finish(Err(e)),
        }
    }
}

impl CountRequest {
    /// The code whose access is counted.
    pub fn code(&self) -> (c: &str)
        ensures
            self@ matches ResolveActionView::CountAccess { code, .. } && c@ == code,
    {
        self.code.as_str()
    }

    /// How many accesses are counted: one.
    pub fn amount(&self) -> (n: u64)
        ensures
            n == 1,
    {
        1
    }

    /// Goes on with the cache's answer.
    pub fn on_counted(self, result: Result<(), anyhow::Error>) -> (next: ResolveAction)
        ensures
            next@ == resolve_next(self@, ResolveEventView::Counted(result is Ok)),
            result matches Err(e) ==> next == ResolveAction::Finish(Err(e)),
    {
        match result {
            Ok(()) => ResolveAction::Finish(Ok(Some(self.long_url))),
            Err(e) => ResolveAction::Finish(Err(e)),
        }
    }
}

/// Resolves a short code to its URL: from the cache, or else from the repository (filling the
/// cache), counting the access in the cache.
pub struct ResolveShortUrlService<R, C> {
    repository: R,
    cache: C,
}

impl<R: Clone, C: Clone> Clone for ResolveShortUrlService<R, C> {
    fn clone(&self) -> (s: Self)
        ensures
            cloned(self.spec_repository(), s.spec_repository()),
            cloned(self.spec_cache(), s.spec_cache()),
    {
        ResolveShortUrlService { repository: self.repository.clone(), cache: self.cache.clone() }
    }
}

impl<R, C> ResolveShortUrlService<R, C> {
    /// The repository.
    pub closed spec fn spec_repository(&self) -> R {
        self.repository
    }

    /// The cache.
    pub closed spec fn spec_cache(&self) -> C {
        self.cache
    }

    pub fn new(repository: R, cache: C) -> (s: Self)
        ensures
            s.spec_repository() == repository,
            s.spec_cache() == cache,
    {
        ResolveShortUrlService { repository, cache }
    }

    pub fn repository(&self) -> (r: &R)
        ensures
            *r == self.spec_repository(),
    {
        &self.repository
    }

    pub fn cache(&self) -> (c: &C)
        ensures
            *c == self.spec_cache(),
    {
        &self.cache
    }

    /// Starts resolving `code`: the first call asks the cache.
    pub fn begin(&self, code: &str) -> (next: ResolveAction)
        ensures
            next@ == resolve_begin(code@),
    {
        ResolveAction::CacheGet(LookupRequest { code: String::from_str(code) })
    }
}

} // verus!

verus! {

/// An upper bound on the outside calls that a resolution still makes.
pub open spec fn resolve_measure(a: ResolveActionView) -> nat {
    match a {
        ResolveActionView::CacheGet { .. } => 4,
        ResolveActionView::RepoFind { .. } => 3,
        ResolveActionView::CacheFill { .. } => 2,
        ResolveActionView::CountAccess { .. } => 1,
        ResolveActionView::Finish(_) => 0,
    }
}

/// Whether an answer is the answer to the call that the resolution waits for.
pub open spec fn resolve_answers(a: ResolveActionView, e: ResolveEventView) -> bool {
    match a {
        ResolveActionView::CacheGet { .. } => e is CacheGot,
        ResolveActionView::RepoFind { .. } => e is RepoFound,
        ResolveActionView::CacheFill { .. } => e is CacheFilled,
        ResolveActionView::CountAccess { .. } => e is Counted,
        ResolveActionView::Finish(_) => false,
    }
}

/// The code that an unfinished resolution works on.
pub open spec fn resolve_code(a: ResolveActionView) -> Seq<char> {
    match a {
        ResolveActionView::CacheGet { code } => code,
        ResolveActionView::RepoFind { code } => code,
        ResolveActionView::CacheFill { code, .. } => code,
        ResolveActionView::CountAccess { code, .. } => code,
        ResolveActionView::Finish(_) => Seq::empty(),
    }
}

/// A resolution makes at most four outside calls, and every answered call brings it closer
/// to its end; all its calls are about the code it was asked for.
pub proof fn lemma_resolve_terminates(a: ResolveActionView, e: ResolveEventView)
    requires
        resolve_answers(a, e),
    ensures
        resolve_measure(resolve_next(a, e)) < resolve_measure(a),
        !(resolve_next(a, e) is Finish) ==> resolve_code(resolve_next(a, e)) == resolve_code(a),
{
}

/// A resolution answers with a URL only after the cache counted one access to the requested
/// code for it; after a cache miss, the URL comes from the repository and is cached first.
pub proof fn lemma_resolve_counts_each_success(a: ResolveActionView, e: ResolveEventView, long_url: Seq<char>)
    requires
        !(a is Finish),
        resolve_next(a, e) == ResolveActionView::Finish(Ok(Some(long_url))),
    ensures
        a == (ResolveActionView::CountAccess { code: resolve_code(a), long_url }),
        e == ResolveEventView::Counted(true),
{
}

/// A created short URL resolves to its long URL. A creation reports a record only right
/// after writing the record's URL to the cache under its code; a resolution of that code which
/// the cache answers with what was written returns that URL, and so does one which finds the
/// cache empty and the record in the repository. Either way one access is counted first.
pub proof fn lemma_created_url_resolves(a: CreateActionView, e: CreateEventView, record: RecordView)
    requires
        !(a is Finish),
        create_next(a, e) == CreateActionView::Finish(Ok(record)),
    ensures
        a == (CreateActionView::CachePut { record }),
        resolve_next(resolve_begin(record.code), ResolveEventView::CacheGot(Ok(Some(record.long_url))))
            == (ResolveActionView::CountAccess { code: record.code, long_url: record.long_url }),
        resolve_next(
            ResolveActionView::CountAccess { code: record.code, long_url: record.long_url },
            ResolveEventView::Counted(true),
        ) == ResolveActionView::Finish(Ok(Some(record.long_url))),
        resolve_next(
            resolve_next(resolve_begin(record.code), ResolveEventView::CacheGot(Ok(None))),
            ResolveEventView::RepoFound(Ok(Some(record))),
        ) == (ResolveActionView::CacheFill { code: record.code, long_url: record.long_url }),
        resolve_next(
            ResolveActionView::CacheFill { code: record.code, long_url: record.long_url },
            ResolveEventView::CacheFilled(true),
        ) == (ResolveActionView::CountAccess { code: record.code, long_url: record.long_url }),
{
}

/// A `LookupRequest` waits for the call that its view names: its view is `ResolveActionView::CacheGet`.
pub broadcast proof fn lemma_lookup_request_view(request: LookupRequest)
    ensures
        (#[trigger] request@) is CacheGet,
{
}

/// A `FindRequest` waits for the call that its view names: its view is `ResolveActionView::RepoFind`.
pub broadcast proof fn lemma_find_request_view(request: FindRequest)
    ensures
        (#[trigger] request@) is RepoFind,
{
}

/// A `FillRequest` waits for the call that its view names: its view is `ResolveActionView::CacheFill`.
pub broadcast proof fn lemma_fill_request_view(request: FillRequest)
    ensures
        (#[trigger] request@) is CacheFill,
{
}

/// A `CountRequest` waits for the call that its view names: its view is `ResolveActionView::CountAccess`.
pub broadcast proof fn lemma_count_request_view(request: CountRequest)
    ensures
        (#[trigger] request@) is CountAccess,
{
}

/// The variants of the views of a resolution's waiting requests, for callers outside this module.
pub broadcast group group_resolve_request_views {
    lemma_lookup_request_view,
    lemma_find_request_view,
    lemma_fill_request_view,
    lemma_count_request_view,

}

} // verus!
