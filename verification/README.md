# crustacean_states

A NationStates API wrapper: it builds request URLs from typed shards, shapes API responses
into typed nations and regions, and decides when a client may send its next request under the
API's rate limits.

## Layout

- `src/` is the library, written in Verus and verified.
  - `shards/`: the shards of nation, region, world and World Assembly requests, the query
    parameters they add (`Params`) and the request URLs they make (`NSRequest::as_url`).
  - `parsers/`: the plain records of responses (`raw_nation`, `raw_region`) and the checked,
    typed values built from them (`Nation`, `StandardNation`, `Region`, census data,
    happenings).
  - `models/`: dispatch categories.
  - `client.rs`: reading the rate-limit headers and the client's decisions about waiting.
  - `text.rs`: the string helpers the rest rests on (decimal numbers, splitting, trimming).
- `app/` sends the requests (`reqwest`, `tokio`), keeps the client state behind locks, and
  reads response XML into the library's records (`quick-xml`, `serde`).
- `tests/` runs the library on concrete values.
