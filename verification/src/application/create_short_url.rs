use vstd::prelude::*;
use vstd::string::{to_string_from_display_ensures, StringExecFns};
use vstd::utf8::encode_utf8;

use crate::domain::short_code::{custom_code_verdict, short_code_error_message, validate_custom_code};
use crate::domain::url::{long_url_verdict, parsed_url_parts, validate_long_url};
use crate::ports::short_url_repository::{
    CreateShortUrlRecord, RecordView, RepositoryError, RepositoryErrorView, ShortUrlRecord,
};

verus! {

/// How many generated codes are tried before giving up on finding a free one.
pub const MAX_GENERATION_ATTEMPTS: usize = 8;

/// A request to create a short URL, with a code of the caller's choice or a generated one.
#[derive(Debug)]
pub struct CreateShortUrlInput {
    pub long_url: String,
    pub custom_code: Option<String>,
}

impl Clone for CreateShortUrlInput {
    fn clone(&self) -> (r: Self)
        ensures
            r == *self,
    {
        let custom_code = match &self.custom_code {
            Some(c) => Some(c.clone()),
            None => None,
        };
        CreateShortUrlInput { long_url: self.long_url.clone(), custom_code }
    }
}

/// The view of a `CreateShortUrlInput`.
pub struct CreateInputView {
    pub long_url: Seq<char>,
    pub custom_code: Option<Seq<char>>,
}

impl View for CreateShortUrlInput {
    type V = CreateInputView;

    open spec fn view(&self) -> CreateInputView {
        CreateInputView {
            long_url: self.long_url@,
            custom_code: match self.custom_code {
                Some(c) => Some(c@),
                None => None,
            },
        }
    }
}

/// Why a short URL was not created.
#[derive(Debug)]
pub enum CreateShortUrlError {
    InvalidLongUrl,
    InvalidCustomCode(String),
    DuplicateCode,
    CodeGenerationExhausted,
    Internal(anyhow::Error),
}

/// The view of a `CreateShortUrlError`, which does not look into an internal failure.
pub enum CreateErrorView {
    InvalidLongUrl,
    InvalidCustomCode(Seq<char>),
    DuplicateCode,
    CodeGenerationExhausted,
    Internal,
}

impl View for CreateShortUrlError {
    type V = CreateErrorView;

    open spec fn view(&self) -> CreateErrorView {
        match self {
            CreateShortUrlError::InvalidLongUrl => CreateErrorView::InvalidLongUrl,
            CreateShortUrlError::InvalidCustomCode(m) => CreateErrorView::InvalidCustomCode(m@),
            CreateShortUrlError::DuplicateCode => CreateErrorView::DuplicateCode,
            CreateShortUrlError::CodeGenerationExhausted => CreateErrorView::CodeGenerationExhausted,
            CreateShortUrlError::Internal(_) => CreateErrorView::Internal,
        }
    }
}

/// The message of a `CreateShortUrlError` that is not internal, as its `Display` writes it.
pub open spec fn create_error_message(e: CreateErrorView) -> Seq<char> {
    match e {
        CreateErrorView::InvalidLongUrl => "invalid long url"@,
        CreateErrorView::InvalidCustomCode(m) => "invalid custom code: "@ + m,
        CreateErrorView::DuplicateCode => "short code already exists"@,
        CreateErrorView::CodeGenerationExhausted => "could not generate a unique short code"@,
        CreateErrorView::Internal => Seq::empty(),
    }
}

impl CreateShortUrlError {
    /// The human-readable message of this error; an internal failure shows the message of the
    /// failure itself.
    pub fn message(&self) -> (m: String)
        ensures
            match self {
                CreateShortUrlError::Internal(e) => to_string_from_display_ensures::<anyhow::Error>(e, m),
                _ => m@ == create_error_message(self@),
            },
    {
        match self {
            CreateShortUrlError::InvalidLongUrl => String::from_str("invalid long url"),
            CreateShortUrlError::InvalidCustomCode(m) => {
                let mut s = String::from_str("invalid custom code: ");
                s.append(m.as_str());
                s
            },
            CreateShortUrlError::DuplicateCode => String::from_str("short code already exists"),
            CreateShortUrlError::CodeGenerationExhausted => String::from_str(
                "could not generate a unique short code",
            ),
            CreateShortUrlError::Internal(e) => e.to_string(),
        }
    }
}

/// Where a creation stands: the outside call it waits for, or its outcome.
pub enum CreateActionView {
    /// Waiting for a generated code; `attempt` counts the codes tried before.
    GenerateCode { long_url: Seq<char>, attempt: nat },
    /// Waiting for the repository to store `code` for `long_url`.
    Insert { code: Seq<char>, long_url: Seq<char>, custom: bool, attempt: nat },
    /// Waiting for the cache to store the created record's URL under its code.
    CachePut { record: RecordView },
    /// Done.
    Finish(Result<RecordView, CreateErrorView>),
}

/// What an outside call answered.
pub enum CreateEventView {
    Generated(Seq<char>),
    Inserted(Result<RecordView, RepositoryErrorView>),
    Cached(bool),
}

/// The view of a creation's outcome.
pub open spec fn create_outcome_view(r: Result<ShortUrlRecord, CreateShortUrlError>) -> Result<RecordView, CreateErrorView> {
    match r {
        Ok(rec) => Ok(rec@),
        Err(e) => Err(e@),
    }
}

/// The view of a repository answer.
pub open spec fn insert_result_view(r: Result<ShortUrlRecord, RepositoryError>) -> Result<RecordView, RepositoryErrorView> {
    match r {
        Ok(rec) => Ok(rec@),
        Err(e) => Err(e@),
    }
}

/// The first step of a creation, before any outside call.
pub open spec fn create_begin(input: CreateInputView) -> CreateActionView {
    if long_url_verdict(parsed_url_parts(input.long_url)) is Err {
        CreateActionView::Finish(Err(CreateErrorView::InvalidLongUrl))
    } else {
        match input.custom_code {
            Some(code) => match custom_code_verdict(encode_utf8(code)) {
                Err(e) => CreateActionView::Finish(
                    Err(CreateErrorView::InvalidCustomCode(short_code_error_message(e))),
                ),
                Ok(_) => CreateActionView::Insert { code, long_url: input.long_url, custom: true, attempt: 0 },
            },
            None => CreateActionView::GenerateCode { long_url: input.long_url, attempt: 0 },
        }
    }
}

/// The step of a creation on an answer; an answer to another call leaves it where it stands.
pub open spec fn create_next(a: CreateActionView, e: CreateEventView) -> CreateActionView {
    match a {
        CreateActionView::GenerateCode { long_url, attempt } => match e {
            CreateEventView::Generated(code) => CreateActionView::Insert { code, long_url, custom: false, attempt },
            _ => a,
        },
        CreateActionView::Insert { code, long_url, custom, attempt } => match e {
            CreateEventView::Inserted(Ok(record)) => CreateActionView::CachePut { record },
            CreateEventView::Inserted(Err(RepositoryErrorView::DuplicateCode)) => if custom {
                CreateActionView::Finish(Err(CreateErrorView::DuplicateCode))
            } else if attempt + 1 < MAX_GENERATION_ATTEMPTS {
                CreateActionView::GenerateCode { long_url, attempt: attempt + 1 }
            } else {
                CreateActionView::Finish(Err(CreateErrorView::CodeGenerationExhausted))
            },
            CreateEventView::Inserted(Err(RepositoryErrorView::Other)) => CreateActionView::Finish(
                Err(CreateErrorView::Internal),
            ),
            _ => a,
        },
        CreateActionView::CachePut { record } => match e {
            CreateEventView::Cached(ok) => if ok {
                CreateActionView::Finish(Ok(record))
            } else {
                CreateActionView::Finish(Err(CreateErrorView::Internal))
            },
            _ => a,
        },
        CreateActionView::Finish(_) => a,
    }
}

/// A creation waiting for a generated code.
pub struct CodeRequest {
    long_url: String,
    attempt: usize,
}

/// A creation waiting for the repository to store a record.
pub struct InsertRequest {
    record: CreateShortUrlRecord,
    custom: bool,
    attempt: usize,
}

/// A creation waiting for the cache to store the created record's URL.
pub struct CacheRequest {
    record: ShortUrlRecord,
}

impl CodeRequest {
    #[verifier::type_invariant]
    spec fn inv(self) -> bool {
        self.attempt < MAX_GENERATION_ATTEMPTS
    }
}

impl InsertRequest {
    #[verifier::type_invariant]
    spec fn inv(self) -> bool {
        self.attempt < MAX_GENERATION_ATTEMPTS && (self.custom ==> self.attempt == 0)
    }
}

impl View for CodeRequest {
    type V = CreateActionView;

    closed spec fn view(&self) -> CreateActionView {
        CreateActionView::GenerateCode { long_url: self.long_url@, attempt: self.attempt as nat }
    }
}

impl View for InsertRequest {
    type V = CreateActionView;

    closed spec fn view(&self) -> CreateActionView {
        CreateActionView::Insert {
            code: self.record.code@,
            long_url: self.record.long_url@,
            custom: self.custom,
            attempt: self.attempt as nat,
        }
    }
}

impl View for CacheRequest {
    type V = CreateActionView;

    closed spec fn view(&self) -> CreateActionView {
        CreateActionView::CachePut { record: self.record@ }
    }
}

/// What a creation asks for next: an outside call, whose answer goes to the request's
/// `on_..` method, or its outcome.
pub enum CreateAction {
    GenerateCode(CodeRequest),
    Insert(InsertRequest),
    CachePut(CacheRequest),
    Finish(Result<ShortUrlRecord, CreateShortUrlError>),
}

impl View for CreateAction {
    type V = CreateActionView;

    open spec fn view(&self) -> CreateActionView {
        match self {
            CreateAction::GenerateCode(r) => r@,
            CreateAction::Insert(r) => r@,
            CreateAction::CachePut(r) => r@,
            CreateAction::Finish(res) => CreateActionView::Finish(create_outcome_view(*res)),
        }
    }
}

impl CodeRequest {
    /// Goes on with the code that the generator produced.
    pub fn on_generated(self, code: String) -> (next: CreateAction)
        ensures
            next@ == create_next(self@, CreateEventView::Generated(code@)),
    {
        proof {
            use_type_invariant(&self);
        }
        CreateAction::Insert(
            InsertRequest {
                record: CreateShortUrlRecord { code, long_url: self.long_url },
                custom: false,
                attempt: self.attempt,
            },
        )
    }
}

impl InsertRequest {
    /// The record to store.
    pub fn record(&self) -> (r: CreateShortUrlRecord)
        ensures
            self@ matches CreateActionView::Insert { code, long_url, .. } && r.code@ == code
                && r.long_url@ == long_url,
    {
        self.record.clone()
    }

    /// Goes on with the repository's answer.
    pub fn on_inserted(self, result: Result<ShortUrlRecord, RepositoryError>) -> (next: CreateAction)
        ensures
            next@ == create_next(self@, CreateEventView::Inserted(insert_result_view(result))),
            result matches Ok(stored) ==> next@ == (CreateActionView::CachePut { record: stored@ }),
            result matches Err(RepositoryError::Other(e)) ==> next == CreateAction::Finish(
                Err(CreateShortUrlError::Internal(e)),
            ),
    {
        proof {
            use_type_invariant(&self);
        }
        match result {
            Ok(record) => CreateAction::CachePut(CacheRequest { record }),
            Err(RepositoryError::DuplicateCode) => {
                if self.custom {
                    CreateAction::Finish(Err(CreateShortUrlError::DuplicateCode))
                } else if self.attempt + 1 < MAX_GENERATION_ATTEMPTS {
                    CreateAction::GenerateCode(
                        CodeRequest { long_url: self.record.long_url, attempt: self.attempt + 1 },
                    )
                } else {
                    CreateAction::Finish(Err(CreateShortUrlError::CodeGenerationExhausted))
                }
            },
            Err(RepositoryError::Other(e)) => CreateAction::Finish(Err(CreateShortUrlError::Internal(e))),
        }
    }
}

impl CacheRequest {
    /// The created record, whose URL is to be cached under its code.
    pub fn record(&self) -> (r: &ShortUrlRecord)
        ensures
            self@ == (CreateActionView::CachePut { record: r@ }),
    {
        &self.record
    }

    /// Goes on with the cache's answer.
    pub fn on_cached(self, result: Result<(), anyhow::Error>) -> (next: CreateAction)
        ensures
            next@ == create_next(self@, CreateEventView::Cached(result is Ok)),
            result is Ok ==> (next matches CreateAction::Finish(Ok(created)) && self@ == (CreateActionView::CachePut {
                record: created@,
            })),
            result matches Err(e) ==> next == CreateAction::Finish(Err(CreateShortUrlError::Internal(e))),
    {
        match result {
            Ok(()) => CreateAction::Finish(Ok(self.record)),
            Err(e) => CreateAction::Finish(Err(CreateShortUrlError::Internal(e))),
        }
    }
}

/// Creates short URLs: checks the request, stores the record under a free code (the custom
/// one, or a generated one, retried on collision), and caches the URL.
pub struct CreateShortUrlService<R, C, G> {
    repository: R,
    cache: C,
    code_generator: G,
}

impl<R: Clone, C: Clone, G: Clone> Clone for CreateShortUrlService<R, C, G> {
    fn clone(&self) -> (s: Self)
        ensures
            cloned(self.spec_repository(), s.spec_repository()),
            cloned(self.spec_cache(), s.spec_cache()),
            cloned(self.spec_code_generator(), s.spec_code_generator()),
    {
        CreateShortUrlService { repository: self.repository.clone(), cache: self.cache.clone(), code_generator: self.code_generator.clone() }
    }
}

impl<R, C, G> CreateShortUrlService<R, C, G> {
    /// The repository.
    pub closed spec fn spec_repository(&self) -> R {
        self.repository
    }

    /// The cache.
    pub closed spec fn spec_cache(&self) -> C {
        self.cache
    }

    /// The code generator.
    pub closed spec fn spec_code_generator(&self) -> G {
        self.code_generator
    }

    pub fn new(repository: R, cache: C, code_generator: G) -> (s: Self)
        ensures
            s.spec_repository() == repository,
            s.spec_cache() == cache,
            s.spec_code_generator() == code_generator,
    {
        CreateShortUrlService { repository, cache, code_generator }
    }

    pub fn repository(&self) -> (r: &R)
        ensures
            *r == self.spec_repository(),
    {
        &self.repository
    }

    pub fn cache(&self) -> (c: &C)
        ensures
            *c == self.spec_cache(),
    {
        &self.cache
    }

    pub fn code_generator(&self) -> (g: &G)
        ensures
            *g == self.spec_code_generator(),
    {
        &self.code_generator
    }

    /// Starts a creation: refuses an invalid URL or custom code, or asks for the first
    /// outside call.
    pub fn begin(&self, input: CreateShortUrlInput) -> (next: CreateAction)
        ensures
            next@ == create_begin(input@),
    {
        if validate_long_url(input.long_url.as_str()).is_err() {
            return CreateAction::Finish(Err(CreateShortUrlError::InvalidLongUrl));
        }
        match input.custom_code {
            Some(code) => {
                match validate_custom_code(code.as_str()) {
                    Err(e) => CreateAction::Finish(Err(CreateShortUrlError::InvalidCustomCode(e.message()))),
                    Ok(()) => CreateAction::Insert(
                        InsertRequest {
                            record: CreateShortUrlRecord { code, long_url: input.long_url },
                            custom: true,
                            attempt: 0,
                        },
                    ),
                }
            },
            None => CreateAction::GenerateCode(CodeRequest { long_url: input.long_url, attempt: 0 }),
        }
    }
}

} // verus!

verus! {

/// The states that a creation can be in: attempts stay below the limit, and a custom code
/// is tried once.
pub open spec fn create_valid(a: CreateActionView) -> bool {
    match a {
        CreateActionView::GenerateCode { attempt, .. } => attempt < MAX_GENERATION_ATTEMPTS,
        CreateActionView::Insert { custom, attempt, .. } => attempt < MAX_GENERATION_ATTEMPTS && (custom
            ==> attempt == 0),
        _ => true,
    }
}

/// Whether an answer is the answer to the call that the creation waits for.
pub open spec fn create_answers(a: CreateActionView, e: CreateEventView) -> bool {
    match a {
        CreateActionView::GenerateCode { .. } => e is Generated,
        CreateActionView::Insert { .. } => e is Inserted,
        CreateActionView::CachePut { .. } => e is Cached,
        CreateActionView::Finish(_) => false,
    }
}

/// An upper bound on the outside calls that a creation still makes.
pub open spec fn create_measure(a: CreateActionView) -> nat {
    match a {
        CreateActionView::GenerateCode { attempt, .. } => (3 * (MAX_GENERATION_ATTEMPTS - attempt)) as nat,
        CreateActionView::Insert { custom, attempt, .. } => if custom {
            2
        } else {
            (3 * (MAX_GENERATION_ATTEMPTS - attempt) - 1) as nat
        },
        CreateActionView::CachePut { .. } => 1,
        CreateActionView::Finish(_) => 0,
    }
}

/// The state of a creation after a sequence of answers.
pub open spec fn create_run(a: CreateActionView, events: Seq<CreateEventView>) -> CreateActionView
    decreases events.len(),
{
    if events.len() == 0 {
        a
    } else {
        create_run(create_next(a, events[0]), events.drop_first())
    }
}

/// The answers of a generator and a repository for which every generated code is taken.
pub open spec fn all_codes_taken(codes: Seq<Seq<char>>) -> Seq<CreateEventView>
    decreases codes.len(),
{
    if codes.len() == 0 {
        Seq::empty()
    } else {
        seq![
            CreateEventView::Generated(codes[0]),
            CreateEventView::Inserted(Err(RepositoryErrorView::DuplicateCode)),
        ] + all_codes_taken(codes.drop_first())
    }
}

/// A creation starts in a valid state, and each step keeps it valid.
pub proof fn lemma_create_stays_valid(input: CreateInputView, a: CreateActionView, e: CreateEventView)
    requires
        create_valid(a),
    ensures
        create_valid(create_begin(input)),
        create_valid(create_next(a, e)),
{
}

/// A creation makes at most `3 * MAX_GENERATION_ATTEMPTS` outside calls: it starts within
/// that bound, and every answered call lowers the bound.
pub proof fn lemma_create_terminates(input: CreateInputView, a: CreateActionView, e: CreateEventView)
    requires
        create_valid(a),
        create_answers(a, e),
    ensures
        create_measure(create_begin(input)) <= 3 * MAX_GENERATION_ATTEMPTS,
        create_measure(create_next(a, e)) < create_measure(a),
{
}

/// Refusals come first: an invalid URL or custom code ends the creation before any outside call.
pub proof fn lemma_create_refuses_invalid_input(input: CreateInputView)
    requires
        long_url_verdict(parsed_url_parts(input.long_url)) is Err || (input.custom_code matches Some(
            code,
        ) && custom_code_verdict(encode_utf8(code)) is Err),
    ensures
        create_begin(input) is Finish,
        create_begin(input) matches CreateActionView::Finish(r) && r is Err,
{
}

/// A creation succeeds only right after the cache stored the created record's URL under its
/// code, and it returns that very record.
pub proof fn lemma_create_success_is_cached(a: CreateActionView, e: CreateEventView, record: RecordView)
    requires
        !(a is Finish),
        create_next(a, e) == CreateActionView::Finish(Ok(record)),
    ensures
        a == (CreateActionView::CachePut { record }),
        e == CreateEventView::Cached(true),
{
}

/// A custom code that is taken is refused as a duplicate, and no other code is tried.
pub proof fn lemma_create_taken_custom_code(input: CreateInputView)
    requires
        long_url_verdict(parsed_url_parts(input.long_url)) is Ok,
        input.custom_code matches Some(code) && custom_code_verdict(encode_utf8(code)) is Ok,
    ensures
        create_begin(input) == (CreateActionView::Insert {
            code: input.custom_code->0,
            long_url: input.long_url,
            custom: true,
            attempt: 0,
        }),
        create_next(create_begin(input), CreateEventView::Inserted(Err(RepositoryErrorView::DuplicateCode)))
            == CreateActionView::Finish(Err(CreateErrorView::DuplicateCode)),
{
}

proof fn lemma_taken_from(long_url: Seq<char>, attempt: nat, codes: Seq<Seq<char>>)
    requires
        attempt + codes.len() <= MAX_GENERATION_ATTEMPTS,
        attempt < MAX_GENERATION_ATTEMPTS,
    ensures
        create_run(CreateActionView::GenerateCode { long_url, attempt }, all_codes_taken(codes)) == if attempt
            + codes.len() < MAX_GENERATION_ATTEMPTS {
            CreateActionView::GenerateCode { long_url, attempt: attempt + codes.len() }
        } else {
            CreateActionView::Finish(Err(CreateErrorView::CodeGenerationExhausted))
        },
    decreases codes.len(),
{
    let a = CreateActionView::GenerateCode { long_url, attempt };
    let evs = all_codes_taken(codes);
    if codes.len() > 0 {
        let rest = all_codes_taken(codes.drop_first());
        let dup = CreateEventView::Inserted(Err(RepositoryErrorView::DuplicateCode));
        assert(evs.drop_first() =~= seq![dup] + rest);
        assert((seq![dup] + rest).drop_first() =~= rest);
        let b = create_next(a, evs[0]);
        assert(b == CreateActionView::Insert { code: codes[0], long_url, custom: false, attempt });
        assert(create_run(a, evs) == create_run(b, seq![dup] + rest));
        let c = create_next(b, dup);
        assert(create_run(b, seq![dup] + rest) == create_run(c, rest));
        if attempt + 1 < MAX_GENERATION_ATTEMPTS {
            lemma_taken_from(long_url, attempt + 1, codes.drop_first());
        } else {
            assert(codes.drop_first().len() == 0);
            assert(rest =~= Seq::<CreateEventView>::empty());
        }
    } else {
        assert(evs =~= Seq::<CreateEventView>::empty());
    }
}

/// When every generated code is taken, a creation without a custom code asks for exactly
/// `MAX_GENERATION_ATTEMPTS` codes and then gives up with `CodeGenerationExhausted`.
pub proof fn lemma_create_exhausts_generation(input: CreateInputView, codes: Seq<Seq<char>>)
    requires
        long_url_verdict(parsed_url_parts(input.long_url)) is Ok,
        input.custom_code is None,
        codes.len() <= MAX_GENERATION_ATTEMPTS,
    ensures
        create_run(create_begin(input), all_codes_taken(codes)) == if codes.len() < MAX_GENERATION_ATTEMPTS {
            CreateActionView::GenerateCode { long_url: input.long_url, attempt: codes.len() }
        } else {
            CreateActionView::Finish(Err(CreateErrorView::CodeGenerationExhausted))
        },
{
    lemma_taken_from(input.long_url, 0, codes);
}

/// A `CodeRequest` waits for the call that its view names: its view is `CreateActionView::GenerateCode`.
pub broadcast proof fn lemma_code_request_view(request: CodeRequest)
    ensures
        (#[trigger] request@) is GenerateCode,
{
}

/// A `InsertRequest` waits for the call that its view names: its view is `CreateActionView::Insert`.
pub broadcast proof fn lemma_insert_request_view(request: InsertRequest)
    ensures
        (#[trigger] request@) is Insert,
{
}

/// A `CacheRequest` waits for the call that its view names: its view is `CreateActionView::CachePut`.
pub broadcast proof fn lemma_cache_request_view(request: CacheRequest)
    ensures
        (#[trigger] request@) is CachePut,
{
}

/// The variants of the views of a creation's waiting requests, for callers outside this module.
pub broadcast group group_create_request_views {
    lemma_code_request_view,
    lemma_insert_request_view,
    lemma_cache_request_view,

}

/// A creation stores in the cache exactly the record that the repository stored (same code,
/// same long URL, same count), and returns that very record once the cache confirms: nothing
/// about the record is changed on its way from the repository to the cache and to the caller.
pub proof fn lemma_create_caches_stored_record(a: CreateActionView, stored: RecordView)
    requires
        a is Insert,
    ensures
        create_next(a, CreateEventView::Inserted(Ok(stored))) matches CreateActionView::CachePut { record }
            && record.code == stored.code && record.long_url == stored.long_url && record.access_count
            == stored.access_count,
        create_next(create_next(a, CreateEventView::Inserted(Ok(stored))), CreateEventView::Cached(true))
            matches CreateActionView::Finish(Ok(created)) && created.code == stored.code && created.long_url
            == stored.long_url && created.access_count == stored.access_count,
{
}

} // verus!
