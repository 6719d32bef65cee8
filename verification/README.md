# ledgerkit

A Verus-verified core for payment infrastructure.

- `src/` is the verified library: money and currency types with their text
  forms, the payment state machine, canonical events, case-insensitive
  webhook headers, HMAC-SHA256 signature verification, timestamp tolerance
  checks, the in-memory idempotency store used for replay protection, the
  webhook pipeline (its decision steps, and the whole pipeline over the
  in-memory store), a mock payment connector, and simulation fixtures.
  Calls into `hmac`/`sha2`, `hex`, `serde_json`, `chrono` and `uuid` sit
  behind small trusted wrappers whose contracts state what those crates
  do.
- `tests/` exercises the library on concrete values.
- `app/` is the command-line program and the asynchronous glue around the
  library: async connector/store/secret traits, the async webhook pipeline
  driver, fixture JSON files, tracing setup, and the floating-point retry
  backoff and major-unit conversions.
