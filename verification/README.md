# taikoscope

Monitoring for the Taiko rollup: it follows L1 and L2 blocks, records
batches, proofs and verifications, computes fees and posting costs, detects
reorgs and gaps, and keeps a status page's incidents in step with what it
sees.

The crate is written in Verus. The functions in `src/` are proved against
their contracts; the few calls into std and chrono go through small trusted
wrappers whose contracts say what those calls return. The properties the
service relies on across calls are stated and proved as `law_*` proof
functions beside the code they speak of.

## Layout

- `src/` — the verified library.
  - `l1_data_cost`, `blob_fee`, `block_stats`: fee and cost arithmetic over
    transaction receipts (saturating where the chain values may overflow).
  - `reorg_detection`, `extractor`, `gap_detection`, `processor`: reorg depth
    and orphaned blocks, raw log decoding, gap scanning and backfill choices,
    deduplication of processed headers, message retry and routing decisions.
  - `messages`, `bytes`, `inserter`: the events exchanged between ingestor and
    processor, their deduplication ids, and the rows written to storage.
  - `incident`, `active_incidents`, `monitors`: status-page payloads, the map
    of open incidents, and the decisions of each monitor.
  - `rate_limiter`, `server`, `retries`, `nats`, `config_check`: request rate
    limiting, CORS origins, retry policies, publishing retries and option checks.
  - `text`: decimal and hexadecimal rendering and substring search.
- `tests/` — tests of the library on concrete values.
- `app/` — the runtime around the library: HTTP clients for the status page
  and the public RPC endpoint, serde forms of the payloads, conversions from
  chain types, the loops of the L2 head, batch submission, proof timeout,
  verification timeout and public RPC monitors, publishing and processing
  with retries, gap scan planning and request admission. The loops read
  their data through closures: the database and message-bus clients are not
  part of this crate.
