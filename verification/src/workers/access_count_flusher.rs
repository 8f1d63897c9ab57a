use vstd::prelude::*;

verus! {

/// Where a flush stands: the outside call it waits for, or its outcome (`Err(())` for a
/// failed call). `codes` are the codes with pending accesses, `index` the one being flushed.
pub enum FlushActionView {
    /// Waiting for the cache's list of codes with pending accesses.
    ListPending,
    /// Waiting for the cache to hand over the accesses counted for `codes[index]`.
    TakeDelta { codes: Seq<Seq<char>>, index: nat },
    /// Waiting for the repository to add `delta` accesses to `codes[index]`.
    RepoIncrement { codes: Seq<Seq<char>>, index: nat, delta: nat },
    /// Done.
    Finish(Result<(), ()>),
}

/// What an outside call answered (`Err(())` for a failed call).
pub enum FlushEventView {
    Listed(Result<Seq<Seq<char>>, ()>),
    DeltaTaken(Result<nat, ()>),
    Incremented(bool),
}

/// The first step of a flush.
pub open spec fn flush_begin() -> FlushActionView {
    FlushActionView::ListPending
}

/// Goes to the code at `index`, or finishes when all codes are done.
pub open spec fn flush_advance(codes: Seq<Seq<char>>, index: nat) -> FlushActionView {
    if index < codes.len() {
        FlushActionView::TakeDelta { codes, index }
    } else {
        FlushActionView::Finish(Ok(()))
    }
}

/// The step of a flush on an answer; an answer to another call leaves it where it stands.
pub open spec fn flush_next(a: FlushActionView, e: FlushEventView) -> FlushActionView {
    match a {
        FlushActionView::ListPending => match e {
            FlushEventView::Listed(Ok(codes)) => flush_advance(codes, 0),
            FlushEventView::Listed(Err(())) => FlushActionView::Finish(Err(())),
            _ => a,
        },
        FlushActionView::TakeDelta { codes, index } => match e {
            FlushEventView::DeltaTaken(Ok(delta)) => if delta > 0 {
                FlushActionView::RepoIncrement { codes, index, delta }
            } else {
                flush_advance(codes, index + 1)
            },
            FlushEventView::DeltaTaken(Err(())) => FlushActionView::Finish(Err(())),
            _ => a,
        },
        FlushActionView::RepoIncrement { codes, index, .. } => match e {
            FlushEventView::Incremented(ok) => if ok {
                flush_advance(codes, index + 1)
            } else {
                FlushActionView::Finish(Err(()))
            },
            _ => a,
        },
        FlushActionView::Finish(_) => a,
    }
}

/// The views of a list of codes.
pub open spec fn codes_view(codes: Vec<String>) -> Seq<Seq<char>> {
    codes@.map_values(|c: String| c@)
}

/// The view of the cache's list of codes.
pub open spec fn listed_view(r: Result<Vec<String>, anyhow::Error>) -> Result<Seq<Seq<char>>, ()> {
    match r {
        Ok(codes) => Ok(codes_view(codes)),
        Err(_) => Err(()),
    }
}

/// The view of the cache's access delta.
pub open spec fn flush_delta_view(r: Result<u64, anyhow::Error>) -> Result<nat, ()> {
    match r {
        Ok(d) => Ok(d as nat),
        Err(_) => Err(()),
    }
}

/// The view of a flush's outcome.
pub open spec fn flush_outcome_view(r: Result<(), anyhow::Error>) -> Result<(), ()> {
    match r {
        Ok(()) => Ok(()),
        Err(_) => Err(()),
    }
}

/// A flush waiting for the list of codes with pending accesses.
pub struct ListRequest {}

/// A flush waiting for the cache's access delta of one code.
pub struct FlushDeltaRequest {
    codes: Vec<String>,
    index: usize,
}

/// A flush waiting for the repository to add one code's delta.
pub struct FlushIncrementRequest {
    codes: Vec<String>,
    index: usize,
    delta: u64,
}

impl FlushDeltaRequest {
    #[verifier::type_invariant]
    spec fn inv(self) -> bool {
        self.index < self.codes@.len()
    }
}

impl FlushIncrementRequest {
    #[verifier::type_invariant]
    spec fn inv(self) -> bool {
        self.index < self.codes@.len() && self.delta > 0
    }
}

impl View for ListRequest {
    type V = FlushActionView;

    closed spec fn view(&self) -> FlushActionView {
        FlushActionView::ListPending
    }
}

impl View for FlushDeltaRequest {
    type V = FlushActionView;

    closed spec fn view(&self) -> FlushActionView {
        FlushActionView::TakeDelta { codes: codes_view(self.codes), index: self.index as nat }
    }
}

impl View for FlushIncrementRequest {
    type V = FlushActionView;

    closed spec fn view(&self) -> FlushActionView {
        FlushActionView::RepoIncrement {
            codes: codes_view(self.codes),
            index: self.index as nat,
            delta: self.delta as nat,
        }
    }
}

/// What a flush asks for next: an outside call, whose answer goes to the request's `on_..`
/// method, or its outcome.
pub enum FlushAction {
    ListPending(ListRequest),
    TakeDelta(FlushDeltaRequest),
    RepoIncrement(FlushIncrementRequest),
    Finish(Result<(), anyhow::Error>),
}

impl View for FlushAction {
    type V = FlushActionView;

    open spec fn view(&self) -> FlushActionView {
        match self {
            FlushAction::ListPending(r) => r@,
            FlushAction::TakeDelta(r) => r@,
            FlushAction::RepoIncrement(r) => r@,
            FlushAction::Finish(res) => FlushActionView::Finish(flush_outcome_view(*res)),
        }
    }
}

fn advance(codes: Vec<String>, index: usize) -> (next: FlushAction)
    requires
        index <= codes@.len(),
    ensures
        next@ == flush_advance(codes_view(codes), index as nat),
{
    if index < codes.len() {
        FlushAction::TakeDelta(FlushDeltaRequest { codes, index })
    } else {
        FlushAction::Finish(Ok(()))
    }
}

/// Goes to the code after the one at `index`, or finishes after the last one.
fn advance_past(codes: Vec<String>, index: usize) -> (next: FlushAction)
    requires
        index < codes@.len(),
    ensures
        next@ == flush_advance(codes_view(codes), index as nat + 1),
{
    let n = codes.len();
    if index < n - 1 {
        FlushAction::TakeDelta(FlushDeltaRequest { codes, index: index + 1 })
    } else {
        FlushAction::Finish(Ok(()))
    }
}

impl ListRequest {
    /// Goes on with the cache's list of codes.
    pub fn on_listed(self, result: Result<Vec<String>, anyhow::Error>) -> (next: FlushAction)
        ensures
            next@ == flush_next(self@, FlushEventView::Listed(listed_view(result))),
            result matches Err(e) ==> next == FlushAction::Finish(Err(e)),
    {
        match result {
            Ok(codes) => advance(codes, 0),
            Err(e) => FlushAction::Finish(Err(e)),
        }
    }
}

impl FlushDeltaRequest {
    /// The code whose cached accesses are taken.
    pub fn code(&self) -> (c: &str)
        ensures
            self@ matches FlushActionView::TakeDelta { codes, index } && index < codes.len() && c@
                == codes[index as int],
    {
        proof {
            use_type_invariant(self);
        }
        self.codes[self.index].as_str()
    }

    /// Goes on with the cache's answer.
    pub fn on_delta_taken(self, result: Result<u64, anyhow::Error>) -> (next: FlushAction)
        ensures
            next@ == flush_next(self@, FlushEventView::DeltaTaken(flush_delta_view(result))),
            result matches Err(e) ==> next == FlushAction::Finish(Err(e)),
    {
        proof {
            use_type_invariant(&self);
        }
        match result {
            Ok(delta) => {
                if delta > 0 {
                    FlushAction::RepoIncrement(FlushIncrementRequest { codes: self.codes, index: self.index, delta })
                } else {
                    advance_past(self.codes, self.index)
                }
            },
            Err(e) => FlushAction::Finish(Err(e)),
        }
    }
}

impl FlushIncrementRequest {
    /// The code whose stored count grows.
    pub fn code(&self) -> (c: &str)
        ensures
            self@ matches FlushActionView::RepoIncrement { codes, index, .. } && index < codes.len() && c@
                == codes[index as int],
    {
        proof {
            use_type_invariant(self);
        }
        self.codes[self.index].as_str()
    }

    /// How many accesses are added.
    pub fn delta(&self) -> (d: u64)
        ensures
            self@ matches FlushActionView::RepoIncrement { delta, .. } && d == delta,
            d > 0,
    {
        proof {
            use_type_invariant(self);
        }
        self.delta
    }

    /// Goes on with the repository's answer, whose failure the caller has turned into an
    /// `anyhow::Error`.
    pub fn on_incremented(self, result: Result<(), anyhow::Error>) -> (next: FlushAction)
        ensures
            next@ == flush_next(self@, FlushEventView::Incremented(result is Ok)),
            result matches Err(e) ==> next == FlushAction::Finish(Err(e)),
    {
        proof {
            use_type_invariant(&self);
        }
        match result {
            Ok(()) => {
                advance_past(self.codes, self.index)
            },
            Err(e) => FlushAction::Finish(Err(e)),
        }
    }
}

/// Moves the access counts gathered in the cache into the repository, every `interval`.
pub struct AccessCountFlusher<R, C> {
    repository: R,
    cache: C,
    interval: std::time::Duration,
}

impl<R: Clone, C: Clone> Clone for AccessCountFlusher<R, C> {
    fn clone(&self) -> (f: Self)
        ensures
            cloned(self.spec_repository(), f.spec_repository()),
            cloned(self.spec_cache(), f.spec_cache()),
            f.spec_interval() == self.spec_interval(),
    {
        AccessCountFlusher {
            repository: self.repository.clone(),
            cache: self.cache.clone(),
            interval: self.interval,
        }
    }
}

impl<R, C> AccessCountFlusher<R, C> {
    /// The repository.
    pub closed spec fn spec_repository(&self) -> R {
        self.repository
    }

    /// The cache.
    pub closed spec fn spec_cache(&self) -> C {
        self.cache
    }

    /// The time between two flushes.
    pub closed spec fn spec_interval(&self) -> std::time::Duration {
        self.interval
    }

    pub fn new(repository: R, cache: C, interval: std::time::Duration) -> (f: Self)
        ensures
            f.spec_repository() == repository,
            f.spec_cache() == cache,
            f.spec_interval() == interval,
    {
        AccessCountFlusher { repository, cache, interval }
    }

    pub fn repository(&self) -> (r: &R)
        ensures
            *r == self.spec_repository(),
    {
        &self.repository
    }

    pub fn cache(&self) -> (c: &C)
        ensures
            *c == self.spec_cache(),
    {
        &self.cache
    }

    pub fn interval(&self) -> (d: std::time::Duration)
        ensures
            d == self.spec_interval(),
    {
        self.interval
    }

    /// Starts one flush: the first call asks the cache which codes have pending accesses.
    pub fn begin_flush(&self) -> (next: FlushAction)
        ensures
            next@ == flush_begin(),
    {
        FlushAction::ListPending(ListRequest {})
    }
}

} // verus!

verus! {

/// An upper bound on the outside calls that a flush still makes once the codes are listed.
pub open spec fn flush_measure(a: FlushActionView) -> nat {
    match a {
        FlushActionView::ListPending => 0,
        FlushActionView::TakeDelta { codes, index } => (2 * (codes.len() - index)) as nat,
        FlushActionView::RepoIncrement { codes, index, .. } => (2 * (codes.len() - index) - 1) as nat,
        FlushActionView::Finish(_) => 0,
    }
}

/// The states that a flush can be in: the index points into the codes, and only a positive
/// delta is written.
pub open spec fn flush_valid(a: FlushActionView) -> bool {
    match a {
        FlushActionView::TakeDelta { codes, index } => index < codes.len(),
        FlushActionView::RepoIncrement { codes, index, delta } => index < codes.len() && delta > 0,
        _ => true,
    }
}

/// Whether an answer is the answer to the call that the flush waits for.
pub open spec fn flush_answers(a: FlushActionView, e: FlushEventView) -> bool {
    match a {
        FlushActionView::ListPending => e is Listed,
        FlushActionView::TakeDelta { .. } => e is DeltaTaken,
        FlushActionView::RepoIncrement { .. } => e is Incremented,
        FlushActionView::Finish(_) => false,
    }
}

/// A flush lists the codes once and then makes at most two calls per listed code: every
/// answered call after the listing lowers the bound, and the listing is never asked again.
pub proof fn lemma_flush_terminates(a: FlushActionView, e: FlushEventView)
    requires
        flush_valid(a),
        flush_answers(a, e),
    ensures
        flush_valid(flush_next(a, e)),
        !(flush_next(a, e) is ListPending),
        !(a is ListPending) ==> flush_measure(flush_next(a, e)) < flush_measure(a),
{
}

/// A flush goes through the listed codes in order, one at a time, writing only positive
/// deltas, and succeeds only after the last code: no listed code is skipped.
pub proof fn lemma_flush_visits_every_code(a: FlushActionView, e: FlushEventView, codes: Seq<Seq<char>>)
    requires
        flush_valid(a),
        flush_answers(a, e),
    ensures
        flush_next(FlushActionView::ListPending, FlushEventView::Listed(Ok(codes))) == if codes.len() == 0 {
            FlushActionView::Finish(Ok(()))
        } else {
            FlushActionView::TakeDelta { codes, index: 0 }
        },
        a matches FlushActionView::TakeDelta { codes: cs, index: i } ==> match flush_next(a, e) {
            FlushActionView::TakeDelta { codes: cs2, index: j } => cs2 == cs && j == i + 1,
            FlushActionView::RepoIncrement { codes: cs2, index: j, delta } => cs2 == cs && j == i && delta > 0,
            FlushActionView::Finish(Ok(())) => i + 1 == cs.len(),
            _ => flush_next(a, e) == FlushActionView::Finish(Err(())),
        },
        a matches FlushActionView::RepoIncrement { codes: cs, index: i, .. } ==> match flush_next(a, e) {
            FlushActionView::TakeDelta { codes: cs2, index: j } => cs2 == cs && j == i + 1,
            FlushActionView::Finish(Ok(())) => i + 1 == cs.len(),
            _ => flush_next(a, e) == FlushActionView::Finish(Err(())),
        },
{
}

/// A `ListRequest` waits for the call that its view names: its view is `FlushActionView::ListPending`.
pub broadcast proof fn lemma_list_request_view(request: ListRequest)
    ensures
        (#[trigger] request@) is ListPending,
{
}

/// A `FlushDeltaRequest` waits for the call that its view names: its view is `FlushActionView::TakeDelta`.
pub broadcast proof fn lemma_flush_delta_request_view(request: FlushDeltaRequest)
    ensures
        (#[trigger] request@) is TakeDelta,
{
}

/// A `FlushIncrementRequest` waits for the call that its view names: its view is `FlushActionView::RepoIncrement`.
pub broadcast proof fn lemma_flush_increment_request_view(request: FlushIncrementRequest)
    ensures
        (#[trigger] request@) is RepoIncrement,
{
}

/// The state of a flush after a sequence of answers.
pub open spec fn flush_run(a: FlushActionView, events: Seq<FlushEventView>) -> FlushActionView
    decreases events.len(),
{
    if events.len() == 0 {
        a
    } else {
        flush_run(flush_next(a, events[0]), events.drop_first())
    }
}

/// The writes that the repository confirmed along a sequence of answers: the code and delta of
/// each `RepoIncrement` answered with success.
pub open spec fn flush_writes(a: FlushActionView, events: Seq<FlushEventView>) -> Seq<(Seq<char>, nat)>
    decreases events.len(),
{
    if events.len() == 0 {
        Seq::empty()
    } else {
        let here = match a {
            FlushActionView::RepoIncrement { codes, index, delta } => match events[0] {
                FlushEventView::Incremented(true) => seq![(codes[index as int], delta)],
                _ => Seq::empty(),
            },
            _ => Seq::empty(),
        };
        here + flush_writes(flush_next(a, events[0]), events.drop_first())
    }
}

/// The answers of a cache and a repository that succeed at every call, the cache holding
/// `deltas[j]` accesses for the `j`-th listed code, from the `i`-th code on.
pub open spec fn successful_answers_from(deltas: Seq<nat>, i: nat) -> Seq<FlushEventView>
    decreases deltas.len() - i,
{
    if i >= deltas.len() {
        Seq::empty()
    } else {
        let taken = FlushEventView::DeltaTaken(Ok(deltas[i as int]));
        (if deltas[i as int] > 0 {
            seq![taken, FlushEventView::Incremented(true)]
        } else {
            seq![taken]
        }) + successful_answers_from(deltas, i + 1)
    }
}

/// The codes with a positive delta, each with its delta, in list order, from the `i`-th on.
pub open spec fn positive_deltas_from(codes: Seq<Seq<char>>, deltas: Seq<nat>, i: nat) -> Seq<(Seq<char>, nat)>
    decreases deltas.len() - i,
{
    if i >= deltas.len() {
        Seq::empty()
    } else {
        (if deltas[i as int] > 0 {
            seq![(codes[i as int], deltas[i as int])]
        } else {
            Seq::empty()
        }) + positive_deltas_from(codes, deltas, i + 1)
    }
}

proof fn lemma_flush_run_from(codes: Seq<Seq<char>>, deltas: Seq<nat>, i: nat)
    requires
        codes.len() == deltas.len(),
        i <= codes.len(),
    ensures
        flush_run(flush_advance(codes, i), successful_answers_from(deltas, i)) == FlushActionView::Finish(Ok(())),
        flush_writes(flush_advance(codes, i), successful_answers_from(deltas, i)) == positive_deltas_from(
            codes,
            deltas,
            i,
        ),
    decreases codes.len() - i,
{
    let a = flush_advance(codes, i);
    let events = successful_answers_from(deltas, i);
    if i < codes.len() {
        let d = deltas[i as int];
        let rest = successful_answers_from(deltas, i + 1);
        let taken = FlushEventView::DeltaTaken(Ok(d));
        lemma_flush_run_from(codes, deltas, i + 1);
        let after = flush_advance(codes, i + 1);
        if d > 0 {
            let written = FlushEventView::Incremented(true);
            assert(events =~= seq![taken, written] + rest);
            assert(events[0] == taken);
            assert(events.drop_first() =~= seq![written] + rest);
            assert((seq![written] + rest)[0] == written);
            assert((seq![written] + rest).drop_first() =~= rest);
            let b = FlushActionView::RepoIncrement { codes, index: i, delta: d };
            assert(flush_next(a, taken) == b);
            assert(flush_next(b, written) == after);
            assert(flush_run(a, events) == flush_run(b, seq![written] + rest));
            assert(flush_run(b, seq![written] + rest) == flush_run(after, rest));
            assert(flush_writes(a, events) =~= Seq::<(Seq<char>, nat)>::empty() + flush_writes(
                b,
                seq![written] + rest,
            ));
            assert(flush_writes(b, seq![written] + rest) =~= seq![(codes[i as int], d)] + flush_writes(after, rest));
            assert(positive_deltas_from(codes, deltas, i) =~= seq![(codes[i as int], d)] + positive_deltas_from(
                codes,
                deltas,
                i + 1,
            ));
        } else {
            assert(events =~= seq![taken] + rest);
            assert(events[0] == taken);
            assert(events.drop_first() =~= rest);
            assert(flush_next(a, taken) == after);
            assert(flush_writes(a, events) =~= Seq::<(Seq<char>, nat)>::empty() + flush_writes(after, rest));
            assert(positive_deltas_from(codes, deltas, i) =~= Seq::<(Seq<char>, nat)>::empty()
                + positive_deltas_from(codes, deltas, i + 1));
        }
    } else {
        assert(events =~= Seq::<FlushEventView>::empty());
        assert(positive_deltas_from(codes, deltas, i) =~= Seq::<(Seq<char>, nat)>::empty());
    }
}

/// A whole flush in which every call succeeds: it lists the codes, takes each code's delta in
/// list order, writes exactly the positive deltas to the repository, each under its code and in
/// list order, and ends successfully.
pub proof fn lemma_flush_moves_every_delta(codes: Seq<Seq<char>>, deltas: Seq<nat>)
    requires
        codes.len() == deltas.len(),
    ensures
        ({
            let events = seq![FlushEventView::Listed(Ok(codes))] + successful_answers_from(deltas, 0);
            &&& flush_run(flush_begin(), events) == FlushActionView::Finish(Ok(()))
            &&& flush_writes(flush_begin(), events) == positive_deltas_from(codes, deltas, 0)
        }),
{
    let listed = FlushEventView::Listed(Ok(codes));
    let rest = successful_answers_from(deltas, 0);
    let events = seq![listed] + rest;
    lemma_flush_run_from(codes, deltas, 0);
    assert(events[0] == listed);
    assert(events.drop_first() =~= rest);
    assert(flush_next(flush_begin(), listed) == flush_advance(codes, 0));
    assert(flush_writes(flush_begin(), events) =~= Seq::<(Seq<char>, nat)>::empty() + flush_writes(
        flush_advance(codes, 0),
        rest,
    ));
}

/// The variants of the views of a flush's waiting requests, for callers outside this module.
pub broadcast group group_flush_request_views {
    lemma_list_request_view,
    lemma_flush_delta_request_view,
    lemma_flush_increment_request_view,

}

} // verus!
