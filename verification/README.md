# labelzoom

A client library for the LabelZoom conversion API, written in Verus.

- `src/` is the verified library: the format tables, option validation,
  percent-encoding, header lookup, charset selection, API error
  classification and message extraction, and the retry policy that decides,
  after each attempt, whether a conversion succeeds, fails, or is tried again.
  Each public function carries a contract, and the properties that span
  functions (name round trips, what the retry policy can and cannot do, the
  shape of every outgoing request) are stated and proved as proof functions.
- `app/` is the thin layer around it: the HTTP transport, sleeping between
  attempts (backoff and `Retry-After` are floating-point seconds), the serde
  form of the conversion options, `Display` and `std::error::Error` for the
  error types, and writing results to disk.
- `tests/` exercises the library on concrete values.

Calls into `encoding_rs` and `serde_json` that the logic needs stand in `src/`
behind small trusted wrappers whose contracts say what the crates document.
