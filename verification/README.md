# shorty

A URL shortener: users create short links (with a code of their choice or a generated
one) and are redirected from a short link to its long URL; access counts are gathered in a
cache and moved into the database in the background.

## Layout

- `src/` is the verified library.
  - `domain/` checks long URLs (`validate_long_url`) and custom codes
    (`validate_custom_code`), and encodes numbers and random codes in base 62, with the
    laws of the encoding (decoding inverts it; it is one-to-one and canonical).
  - `application/` and `workers/` hold the decisions of each request as step functions:
    a request starts with `begin`, asks for one outside call at a time (code generator,
    repository, cache), and goes on with each answer through the request's `on_..` method,
    until it finishes. The laws of these steps (termination, the retry limit of code
    generation, that a created short URL resolves to its URL, that each resolution counts
    one access, that a flush visits every pending code) are proof functions beside them.
  - `interfaces/http/` maps outcomes to HTTP answers; `config.rs` reads the settings.
- `app/` is the service itself: the async ports, PostgreSQL and Redis adapters, the axum
  routes, the loop that drives each request's steps, and `main`.
- `tests/` exercises the library, with in-memory stores standing in for the database and
  the cache.
