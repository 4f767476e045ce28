# knowledgebase_repository

The decision logic of the SDKWork Knowledgebase SQL repositories, written in
Verus: every rule that decides what a store writes is an executable function
with a `requires` / `ensures` contract, and the invariants that span several
operations are stated and proved as public proof functions.

## Layout

- `src/` — the verified library.
  - `text.rs`, `ids.rs`, `codes.rs`, `sorting.rs`, `error.rs`: text rules
    (trimming, byte limits, safe paths and Drive ids, LIKE escaping), id
    range checks, database codes of the enumerations, code-point sorting.
  - `hashing.rs`, `json.rs`, `clock.rs`: the calls into `sha2`, `serde_json`,
    `time` and `uuid`, each behind a small trusted wrapper.
  - `outbox.rs`: the transactional outbox (append, claim, publish, fail,
    requeue, stale-claim release).
  - `catalog.rs`: ingestion jobs, document identity and versions, counters,
    Drive bindings, `create_or_get` resolution, source identity.
  - `wiki/`: Wiki publications and pages — the Drive event stream and its
    checkpoint, source projections, renditions, event application, page and
    publication lifecycles, public listings.
  - `group/`: group knowledge spaces — reservation and provisioning, member
    snapshots and their fingerprints, membership projections, the archive
    saga.
- `tests/` — tests on concrete values, run against the compiled library.
- `app/` — SQL stores (`sqlx`, async) for group knowledge spaces, the Wiki
  Drive inbox, source projections, renditions and page lifecycle, and the
  outbox: they load rows, hand them to the library's decisions and write back
  what those decide. The catalog stores (sources, documents and versions,
  ingestion jobs, Markdown index and OKF revision metadata, spaces, bundle
  files, Wiki pages) are not included; their decisions stand in
  `src/catalog.rs` and `src/codes.rs`.
- `src/store_step.rs` — `StoreStep`: a decision either hands back a row and
  writes nothing (`Reply`) or describes the writes to make (`Write`).

## Outside crates

- `sha2` computes the lowercase hex SHA-256 digests of payloads and member
  snapshots. The workspace helper `sdkwork_utils_rust::sha256_hash`, which
  the SDKWork services use for the same digest, is not a published crate,
  so the library calls `sha2` directly.
- `sqlx` (with its `runtime-tokio` feature, which brings in the async
  runtime), `serde_json`, `time` and `uuid` are used as the stores and the
  wrappers in `src/` need them.
