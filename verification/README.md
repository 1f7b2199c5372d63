# vault_compass

Verified core of a portfolio bookkeeping backend, written in Verus.

- `src/` — the library. Every function is proved against its contract,
  except the two trusted items it rests on (the `String::push`
  specification and the wrapper that clears the in-flight flag); the
  in-flight guard's flag value is not modelled, so `FetchGuard::new` states
  nothing and `try_acquire` only which guard a lease belongs to:
  - `context::asset` — Stooq symbol derivation, the exchange catalogue and
    its Stooq suffix table, the Stooq quote address, the extraction of the close field from a Stooq
    quote CSV, and the classification of failed asset-price calls into the
    command boundary errors.
  - `context::account` — holdings and the account-side error leaves.
  - `use_cases::asset_price_fetch` — the in-flight guard and the fetch runs
    as state machines: each step says what to read next, or hands out the
    scope to dispatch with the guard's lease, or the failure.
  - `use_cases::holding_transaction` — command parameters and the
    classification of a failed open-holding call.
  - `shared` — character helpers, the system cash asset ids, the
    infrastructure error leaf.
- `app/` — ordinary Rust around it: serde/specta/thiserror copies of the
  library types, the `anyhow` bridges, the Stooq HTTP client and the async
  loops that drive the fetch runs.
- `tests/` — tests of the library through its public API.
