use std::collections::{BTreeSet, HashMap};
use std::time::Duration;

use shorty::app::state::AppState;
use shorty::application::create_short_url::{
    CreateAction, CreateShortUrlError, CreateShortUrlInput, CreateShortUrlService,
    MAX_GENERATION_ATTEMPTS,
};
use shorty::application::get_short_url_stats::{GetShortUrlStatsService, StatsAction};
use shorty::application::resolve_short_url::{ResolveAction, ResolveShortUrlService};
use shorty::config::Config;
use shorty::domain::url::LongUrlError;
use shorty::interfaces::http::dto::CreateUrlRequest;
use shorty::interfaces::http::error::ApiError;
use shorty::interfaces::http::handlers::{
    create_url_outcome, redirect_outcome, short_url_for, url_stats_outcome,
};
use shorty::ports::short_url_repository::{
    CreateShortUrlRecord, RepositoryError, ShortUrlRecord,
};
use shorty::workers::access_count_flusher::{AccessCountFlusher, FlushAction};

/// An in-memory repository, cache and code generator.
#[derive(Default)]
struct World {
    records: HashMap<String, ShortUrlRecord>,
    urls: HashMap<String, String>,
    deltas: HashMap<String, u64>,
    pending: BTreeSet<String>,
    codes: Vec<String>,
    generated: usize,
    fail_cache_put: bool,
    fail_cache_get: bool,
    fail_take_delta: bool,
    repo_increments: Vec<(String, u64)>,
}

impl World {
    fn next_code(&mut self) -> String {
        let code = self.codes.get(self.generated).cloned().unwrap_or_else(|| "abc1234".to_string());
        self.generated += 1;
        code
    }

    fn insert(&mut self, record: CreateShortUrlRecord) -> Result<ShortUrlRecord, RepositoryError> {
        if self.records.contains_key(&record.code) {
            return Err(RepositoryError::DuplicateCode);
        }
        let record = ShortUrlRecord { code: record.code, long_url: record.long_url, access_count: 0 };
        self.records.insert(record.code.clone(), record.clone());
        Ok(record)
    }

    fn find(&self, code: &str) -> Result<Option<ShortUrlRecord>, anyhow::Error> {
        Ok(self.records.get(code).cloned())
    }

    fn increment(&mut self, code: &str, amount: u64) -> Result<(), anyhow::Error> {
        self.repo_increments.push((code.to_string(), amount));
        if let Some(record) = self.records.get_mut(code) {
            record.access_count += amount as i64;
        }
        Ok(())
    }

    fn put_url(&mut self, code: &str, long_url: &str) -> Result<(), anyhow::Error> {
        if self.fail_cache_put {
            return Err(anyhow::Error::msg("cache down"));
        }
        self.urls.insert(code.to_string(), long_url.to_string());
        Ok(())
    }

    fn get_url(&self, code: &str) -> Result<Option<String>, anyhow::Error> {
        if self.fail_cache_get {
            return Err(anyhow::Error::msg("cache down"));
        }
        Ok(self.urls.get(code).cloned())
    }

    fn count(&mut self, code: &str, amount: u64) -> Result<(), anyhow::Error> {
        *self.deltas.entry(code.to_string()).or_default() += amount;
        self.pending.insert(code.to_string());
        Ok(())
    }

    fn take_delta(&mut self, code: &str) -> Result<u64, anyhow::Error> {
        if self.fail_take_delta {
            return Err(anyhow::Error::msg("cache down"));
        }
        Ok(self.deltas.remove(code).unwrap_or_default())
    }
}

fn create(world: &mut World, input: CreateShortUrlInput) -> Result<ShortUrlRecord, CreateShortUrlError> {
    let service = CreateShortUrlService::new((), (), ());
    let mut action = service.begin(input);
    loop {
        action = match action {
            CreateAction::GenerateCode(request) => {
                let code = world.next_code();
                request.on_generated(code)
            }
            CreateAction::Insert(request) => {
                let result = world.insert(request.record());
                request.on_inserted(result)
            }
            CreateAction::CachePut(request) => {
                let record = request.record().clone();
                let result = world.put_url(&record.code, &record.long_url);
                request.on_cached(result)
            }
            CreateAction::Finish(result) => return result,
        };
    }
}

fn resolve(world: &mut World, code: &str) -> Result<Option<String>, anyhow::Error> {
    let service = ResolveShortUrlService::new((), ());
    let mut action = service.begin(code);
    loop {
        action = match action {
            ResolveAction::CacheGet(request) => {
                let result = world.get_url(request.code());
                request.on_cache_got(result)
            }
            ResolveAction::RepoFind(request) => {
                let result = world.find(request.code());
                request.on_repo_found(result)
            }
            ResolveAction::CacheFill(request) => {
                let result = world.put_url(request.code(), request.long_url());
                request.on_cache_filled(result)
            }
            ResolveAction::CountAccess(request) => {
                let result = world.count(request.code(), request.amount());
                request.on_counted(result)
            }
            ResolveAction::Finish(result) => return result,
        };
    }
}

fn stats(world: &mut World, code: &str) -> Result<Option<ShortUrlRecord>, anyhow::Error> {
    let service = GetShortUrlStatsService::new((), ());
    let mut action = service.begin(code);
    loop {
        action = match action {
            StatsAction::RepoFind(request) => {
                let result = world.find(request.code());
                request.on_repo_found(result)
            }
            StatsAction::TakeDelta(request) => {
                let result = world.take_delta(request.code());
                request.on_delta_taken(result)
            }
            StatsAction::RepoIncrement(request) => {
                let code = request.code().to_string();
                let result = world.increment(&code, request.delta());
                request.on_incremented(result)
            }
            StatsAction::Finish(result) => return result,
        };
    }
}

fn flush(world: &mut World) -> Result<(), anyhow::Error> {
    let flusher = AccessCountFlusher::new((), (), Duration::from_secs(2));
    let mut action = flusher.begin_flush();
    loop {
        action = match action {
            FlushAction::ListPending(request) => {
                let codes: Vec<String> = world.pending.iter().cloned().collect();
                request.on_listed(Ok(codes))
            }
            FlushAction::TakeDelta(request) => {
                let code = request.code().to_string();
                let result = world.take_delta(&code);
                request.on_delta_taken(result)
            }
            FlushAction::RepoIncrement(request) => {
                let code = request.code().to_string();
                let result = world.increment(&code, request.delta());
                request.on_incremented(result)
            }
            FlushAction::Finish(result) => return result,
        };
    }
}

fn input(url: &str, custom: Option<&str>) -> CreateShortUrlInput {
    CreateShortUrlInput { long_url: url.to_string(), custom_code: custom.map(|c| c.to_string()) }
}

fn create_status(world: &mut World, url: &str, custom: Option<&str>) -> u16 {
    let request = CreateUrlRequest { url: url.to_string(), custom_code: custom.map(|c| c.to_string()) };
    match create_url_outcome("http://localhost:8080", create(world, request.into_input())) {
        Ok((status, _)) => status,
        Err(e) => e.status(),
    }
}

#[test]
fn creates_custom_url_and_redirects() {
    let mut world = World::default();

    assert_eq!(create_status(&mut world, "https://example.com/hello", Some("hello")), 201);

    let (redirect_status, location) = redirect_outcome(resolve(&mut world, "hello")).ok().unwrap();
    assert_eq!(redirect_status, 307);
    assert_eq!(location, "https://example.com/hello");

    let (stats_status, body) = url_stats_outcome(stats(&mut world, "hello")).ok().unwrap();
    assert_eq!(stats_status, 200);
    assert_eq!(body.access_count, 1);
    assert_eq!(body.code, "hello");
    assert_eq!(body.long_url, "https://example.com/hello");
}

#[test]
fn rejects_duplicate_custom_url() {
    let mut world = World::default();
    for expected_status in [201, 409] {
        assert_eq!(create_status(&mut world, "https://example.com/hello", Some("hello")), expected_status);
    }
}

#[test]
fn created_short_url_response() {
    let mut world = World::default();
    let record = create(&mut world, input("https://example.com/x", Some("xyz"))).ok().unwrap();
    let (status, body) = create_url_outcome("http://short.example//", Ok(record)).ok().unwrap();
    assert_eq!(status, 201);
    assert_eq!(body.code, "xyz");
    assert_eq!(body.short_url, "http://short.example/xyz");
    assert_eq!(body.long_url, "https://example.com/x");
    assert_eq!(world.urls.get("xyz").unwrap(), "https://example.com/x");
}

#[test]
fn generated_code_is_used_and_cached() {
    let mut world = World::default();
    world.codes = vec!["k9".to_string()];
    let record = create(&mut world, input("http://example.com", None)).ok().unwrap();
    assert_eq!(record.code, "k9");
    assert_eq!(world.generated, 1);
    assert_eq!(world.urls.get("k9").unwrap(), "http://example.com");
}

#[test]
fn generation_retries_on_collision() {
    let mut world = World::default();
    world.records.insert(
        "taken".to_string(),
        ShortUrlRecord { code: "taken".to_string(), long_url: "http://a.example".to_string(), access_count: 0 },
    );
    world.codes = vec!["taken".to_string(), "taken".to_string(), "free".to_string()];
    let record = create(&mut world, input("http://example.com", None)).ok().unwrap();
    assert_eq!(record.code, "free");
    assert_eq!(world.generated, 3);
}

#[test]
fn generation_gives_up_after_eight_collisions() {
    let mut world = World::default();
    world.records.insert(
        "abc1234".to_string(),
        ShortUrlRecord { code: "abc1234".to_string(), long_url: "http://a.example".to_string(), access_count: 0 },
    );
    let result = create(&mut world, input("http://example.com", None));
    assert!(matches!(result, Err(CreateShortUrlError::CodeGenerationExhausted)));
    assert_eq!(world.generated, MAX_GENERATION_ATTEMPTS);
    assert_eq!(world.generated, 8);
    assert_eq!(create_status(&mut world, "http://example.com", None), 503);
}

#[test]
fn invalid_inputs_are_refused_before_any_call() {
    let mut world = World::default();
    assert!(matches!(
        create(&mut world, input("ftp://example.com", Some("fine"))),
        Err(CreateShortUrlError::InvalidLongUrl)
    ));
    match create(&mut world, input("https://example.com", Some("bad/code"))) {
        Err(CreateShortUrlError::InvalidCustomCode(message)) => assert_eq!(
            message,
            "short code can only contain letters, numbers, hyphen, and underscore"
        ),
        _ => panic!("expected an invalid custom code"),
    }
    match create(&mut world, input("https://example.com", Some("ab"))) {
        Err(CreateShortUrlError::InvalidCustomCode(message)) => {
            assert_eq!(message, "short code must be between 3 and 64 characters")
        }
        _ => panic!("expected an invalid custom code"),
    }
    assert_eq!(world.generated, 0);
    assert!(world.records.is_empty());
    assert_eq!(create_status(&mut world, "nope", None), 400);
}

#[test]
fn cache_failure_after_insert_is_internal() {
    let mut world = World::default();
    world.fail_cache_put = true;
    let result = create(&mut world, input("https://example.com", Some("good")));
    assert!(matches!(result, Err(CreateShortUrlError::Internal(_))));
    let api = ApiError::from_create_error(create(&mut world, input("https://example.com", Some("good2"))).err().unwrap());
    assert_eq!(api.status(), 500);
    assert_eq!(api.into_body().error, "internal server error");
}

#[test]
fn resolve_prefers_cache_and_counts_once() {
    let mut world = World::default();
    world.urls.insert("c1".to_string(), "https://cached.example".to_string());
    assert_eq!(resolve(&mut world, "c1").unwrap(), Some("https://cached.example".to_string()));
    assert_eq!(world.deltas.get("c1"), Some(&1));
    assert!(world.pending.contains("c1"));
}

#[test]
fn resolve_miss_fills_cache_from_repository() {
    let mut world = World::default();
    world.records.insert(
        "r1".to_string(),
        ShortUrlRecord { code: "r1".to_string(), long_url: "https://repo.example".to_string(), access_count: 5 },
    );
    assert_eq!(resolve(&mut world, "r1").unwrap(), Some("https://repo.example".to_string()));
    assert_eq!(world.urls.get("r1").unwrap(), "https://repo.example");
    assert_eq!(world.deltas.get("r1"), Some(&1));
}

#[test]
fn resolve_unknown_code_is_not_found() {
    let mut world = World::default();
    assert_eq!(resolve(&mut world, "nothing").unwrap(), None);
    assert!(world.deltas.is_empty());
    let api = redirect_outcome(Ok(None)).err().unwrap();
    assert_eq!(api.status(), 404);
    assert_eq!(api.into_body().error, "short url not found");
}

#[test]
fn resolve_cache_failure_is_reported() {
    let mut world = World::default();
    world.fail_cache_get = true;
    assert!(resolve(&mut world, "x").is_err());
    let api = redirect_outcome(Err(anyhow::Error::msg("boom"))).err().unwrap();
    assert_eq!(api.status(), 500);
}

#[test]
fn stats_move_cached_accesses_into_repository() {
    let mut world = World::default();
    world.records.insert(
        "s1".to_string(),
        ShortUrlRecord { code: "s1".to_string(), long_url: "https://s.example".to_string(), access_count: 10 },
    );
    world.deltas.insert("s1".to_string(), 3);
    let record = stats(&mut world, "s1").unwrap().unwrap();
    assert_eq!(record.access_count, 13);
    assert_eq!(world.records.get("s1").unwrap().access_count, 13);
    assert_eq!(world.repo_increments, vec![("s1".to_string(), 3)]);
    // nothing left to move
    let record = stats(&mut world, "s1").unwrap().unwrap();
    assert_eq!(record.access_count, 13);
    assert_eq!(world.repo_increments.len(), 1);
}

#[test]
fn stats_ignore_a_failing_cache() {
    let mut world = World::default();
    world.records.insert(
        "s2".to_string(),
        ShortUrlRecord { code: "s2".to_string(), long_url: "https://s.example".to_string(), access_count: 4 },
    );
    world.fail_take_delta = true;
    let record = stats(&mut world, "s2").unwrap().unwrap();
    assert_eq!(record.access_count, 4);
    assert_eq!(stats(&mut world, "none").unwrap().map(|r| r.code), None);
    let api = url_stats_outcome(Ok(None)).err().unwrap();
    assert_eq!(api.status(), 404);
}

#[test]
fn flush_moves_every_pending_delta() {
    let mut world = World::default();
    for code in ["a1", "b2", "c3"] {
        world.records.insert(
            code.to_string(),
            ShortUrlRecord { code: code.to_string(), long_url: "https://f.example".to_string(), access_count: 0 },
        );
    }
    world.count("a1", 2).unwrap();
    world.count("c3", 5).unwrap();
    world.pending.insert("b2".to_string());
    flush(&mut world).unwrap();
    assert_eq!(world.repo_increments, vec![("a1".to_string(), 2), ("c3".to_string(), 5)]);
    assert_eq!(world.records.get("a1").unwrap().access_count, 2);
    assert_eq!(world.records.get("b2").unwrap().access_count, 0);
    assert_eq!(world.records.get("c3").unwrap().access_count, 5);
    assert!(world.deltas.is_empty());
}

#[test]
fn flush_of_nothing_succeeds() {
    let mut world = World::default();
    assert!(flush(&mut world).is_ok());
    assert!(world.repo_increments.is_empty());
}

#[test]
fn short_links_trim_trailing_slashes() {
    assert_eq!(short_url_for("http://localhost:8080", "abc"), "http://localhost:8080/abc");
    assert_eq!(short_url_for("http://localhost:8080/", "abc"), "http://localhost:8080/abc");
    assert_eq!(short_url_for("http://x///", "abc"), "http://x/abc");
    assert_eq!(short_url_for("", "abc"), "/abc");
    let state = AppState {
        public_base_url: "https://sho.rt/".to_string(),
        create_short_url: CreateShortUrlService::new((), (), ()),
        resolve_short_url: ResolveShortUrlService::new((), ()),
        get_short_url_stats: GetShortUrlStatsService::new((), ()),
    };
    assert_eq!(state.short_url("q"), "https://sho.rt/q");
}

#[test]
fn error_answers() {
    let cases = [
        (CreateShortUrlError::InvalidLongUrl, 400, "invalid long url"),
        (CreateShortUrlError::InvalidCustomCode("custom".to_string()), 400, "custom"),
        (CreateShortUrlError::DuplicateCode, 409, "short code already exists"),
        (CreateShortUrlError::CodeGenerationExhausted, 503, "could not generate a unique short code"),
        (CreateShortUrlError::Internal(anyhow::Error::msg("x")), 500, "internal server error"),
    ];
    for (error, status, message) in cases {
        let api = ApiError::from_create_error(error);
        assert_eq!(api.status(), status);
        assert_eq!(api.into_body().error, message);
    }
    let api = ApiError::not_found("gone".to_string());
    assert_eq!(api.status(), 404);
    assert_eq!(api.into_body().error, "gone");
}

#[test]
fn config_defaults_and_parsing() {
    let config = Config::from_settings(
        None,
        None,
        "postgres://db".to_string(),
        "redis://cache".to_string(),
        None,
        None,
        None,
    );
    assert_eq!(config.bind_address, "0.0.0.0:8080");
    assert_eq!(config.public_base_url, "http://localhost:8080");
    assert_eq!(config.database_url, "postgres://db");
    assert_eq!(config.redis_url, "redis://cache");
    assert_eq!(config.code_length, 7);
    assert_eq!(config.cache_ttl_seconds, 86_400);
    assert_eq!(config.access_flush_interval_seconds, 2);

    let config = Config::from_settings(
        Some("127.0.0.1:9000".to_string()),
        Some("https://sho.rt".to_string()),
        "d".to_string(),
        "r".to_string(),
        Some("+12".to_string()),
        Some("18446744073709551615".to_string()),
        Some("30".to_string()),
    );
    assert_eq!(config.bind_address, "127.0.0.1:9000");
    assert_eq!(config.public_base_url, "https://sho.rt");
    assert_eq!(config.code_length, 12);
    assert_eq!(config.cache_ttl_seconds, u64::MAX);
    assert_eq!(config.access_flush_interval_seconds, 30);

    let config = Config::from_settings(
        None,
        None,
        "d".to_string(),
        "r".to_string(),
        Some("-3".to_string()),
        Some("18446744073709551616".to_string()),
        Some(" 5".to_string()),
    );
    assert_eq!(config.code_length, 7);
    assert_eq!(config.cache_ttl_seconds, 86_400);
    assert_eq!(config.access_flush_interval_seconds, 2);

    let config = Config::from_settings(None, None, "d".to_string(), "r".to_string(), Some("+".to_string()), Some("".to_string()), Some("0".to_string()));
    assert_eq!(config.code_length, 7);
    assert_eq!(config.cache_ttl_seconds, 86_400);
    assert_eq!(config.access_flush_interval_seconds, 0);
}

#[test]
fn config_from_environment_values() {
    let config = Config::from_settings(
        None,
        None,
        "postgres://db".to_string(),
        "redis://cache".to_string(),
        Some("seven".to_string()),
        Some("-5".to_string()),
        None,
    );
    assert_eq!(config.bind_address, "0.0.0.0:8080");
    assert_eq!(config.public_base_url, "http://localhost:8080");
    assert_eq!(config.code_length, 7);
    assert_eq!(config.cache_ttl_seconds, 86_400);
    assert_eq!(config.access_flush_interval_seconds, 2);

    let config = Config::from_settings(
        Some("127.0.0.1:3000".to_string()),
        Some("https://sho.rt".to_string()),
        "postgres://db".to_string(),
        "redis://cache".to_string(),
        Some("12".to_string()),
        Some("60".to_string()),
        Some("10".to_string()),
    );
    assert_eq!(config.bind_address, "127.0.0.1:3000");
    assert_eq!(config.public_base_url, "https://sho.rt");
    assert_eq!(config.database_url, "postgres://db");
    assert_eq!(config.redis_url, "redis://cache");
    assert_eq!(config.code_length, 12);
    assert_eq!(config.cache_ttl_seconds, 60);
    assert_eq!(config.access_flush_interval_seconds, 10);
}

#[test]
fn error_messages() {
    assert_eq!(LongUrlError::Invalid.message(), "url must be absolute http or https");
    assert_eq!(CreateShortUrlError::InvalidLongUrl.message(), "invalid long url");
    assert_eq!(
        CreateShortUrlError::InvalidCustomCode("short code is reserved".to_string()).message(),
        "invalid custom code: short code is reserved"
    );
    assert_eq!(CreateShortUrlError::DuplicateCode.message(), "short code already exists");
    assert_eq!(
        CreateShortUrlError::CodeGenerationExhausted.message(),
        "could not generate a unique short code"
    );
    assert_eq!(CreateShortUrlError::Internal(anyhow::Error::msg("db down")).message(), "db down");
    assert_eq!(RepositoryError::DuplicateCode.message(), "short code already exists");
    assert_eq!(RepositoryError::Other(anyhow::Error::msg("timeout")).message(), "timeout");
}
