# norot

A verified core for NoRot, a proxy that filters low-value social media pages.

- `src/` is the library, verified with Verus:
  - `text`: character search, trimming and decimal formatting on `Seq<char>`.
  - `config`: the configuration and its default.
  - `classifier`: keyword classification of pages and extraction of a page's
    title and description from its HTML.
  - `filter`: rule-based filter decisions and the records kept of them.
  - `pages`: the blocked page and the warning banner.
  - `proxy`: routing of requests, the headers and bodies forwarded, and the
    answer for each decision.
  - `db`: record and counter types, and how a decision updates the counters.
  - `laws`: properties that span these functions.
- `app/` is the server around it: configuration file, SQLite storage, the
  axum proxy and the dashboard.
- `tests/` exercises the library on concrete pages and configurations.

Scores, thresholds and confidences are whole hundredths in the library
(`70` is `0.70`); the configuration file keeps them as decimals.
