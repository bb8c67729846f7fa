# oxide_auth

The authorization code grant of an OAuth 2.0 server, verified with Verus.

- `src/query.rs`: decoded query parameters (`QueryMap`); a later value of a
  name replaces an earlier one.
- `src/web_url.rs`: absolute URLs held as their serialization; parsing,
  decoding and extending the query go through the `url` crate.
- `src/time.rs`: instants and their order; the clock is read through `chrono`.
- `src/code_grant/`: the parameters and primitive traits of the grant
  (`mod.rs`) and the flows that decode requests, negotiate them, issue codes
  and redeem codes for tokens (`backend.rs`).
- `src/frontends/simple/endpoint.rs`: a generic endpoint over optional
  primitives.
- `tests/`: tests on concrete values.
- `app/`: conversions from and to the `url` and `chrono` types.

Not included: the constructors of prepared authorization, access token and
resource flows, the `Endpoint` trait with its error type, and `Vacant` as a
consent solicitor or scope provider. They are built on flow, solicitor and
scope types that this crate does not have.
