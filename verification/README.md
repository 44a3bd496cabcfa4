# cold_chain

A cold-chain temperature monitoring service: devices post temperature (and
optionally humidity) readings over HTTP; every reading is stored, and the
readings of each device are summarised per UTC hour (minimum, maximum, mean,
sample count, mean humidity).

- `src/` is the verified library (Verus):
  - `time` — UTC instants, truncation to the hour, hour arithmetic, alert
    durations and RFC 3339 parsing, done by `chrono` behind specified calls;
  - `ids` — random UUIDs for new rows;
  - `models` — the stored and exchanged values;
  - `ingest` — the record stored for a report, the device-hours a set of
    reports touches (each once, in order), and the hourly summary;
  - `queries` — SQL and bound values of the read queries;
  - `alerts` — rows for temperature bands and alerts;
  - `http` — status codes, response envelopes, reading the query string.
- `app/` is the server around it: axum routes and handlers, the sqlx/SQLite
  store, JSON forms of the values, and the floating-point statistics.
- `tests/` exercises the library.

Floating-point readings are carried through the library by their bit
patterns; all arithmetic on them happens in `app/`.
