# madcap_fast

A fast, self-hosted viewer for public madcap.cc event pages (live bike-race
tracking). The server caches the five upstream calls of an event as one JSON
body, precompressed with brotli and gzip and tagged with an ETag, refreshes it
every 30 seconds, and serves it, CSV exports, Prometheus metrics (race gauges
leave out DNF, DNS, SCRATCH and DSQ riders and include the cactus pacer) and
each event's overtakes (`/api/event/{slug}/overtakes`: rank improvements seen
across refreshes, newest first, at most 500, kept under the cache directory).

Layout:

- `src/` — the verified library (Verus): track-page merging (`tracks`),
  timestamp parsing (`isotime`, `clock`), slugs and cache paths (`slug`,
  `paths`), cached bodies and ETags (`snapshot`), request answering (`serve`),
  upstream URLs and the tracks cursor walk (`upstream`), escaping and CSV
  (`escape`, `csv`), the metrics page (`prometheus`, `metric_headers`),
  overtake tracking (`overtakes`), text helpers (`text`).
- `app/` — the axum server: HTTP, upstream requests, background refreshers,
  disk persistence, and the JSON conversions into the library's types.
- `tests/` — tests of the library.

The server reads its single-page frontend from the file named by
`MADCAP_INDEX_HTML` (default `index.html`).
