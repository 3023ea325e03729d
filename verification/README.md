# modkit_core

The decision logic of a modular service kit, written in Verus and proved
against its contracts:

- `filter`, `ast`, `odata_lexer`, `odata_words`, `odata_filters`: `OData`
  filter text is lexed and parsed into an expression, which is checked against
  a field catalogue and turned into a typed filter tree.
  `odata_print` and `odata_text` prove that the canonical tokens and text of
  every well-formed expression parse back to it.
- `trace_id`: W3C `traceparent` parsing, header values as text, and the
  choice of a request's trace ID from its span and headers.
- `handler_span`: the route and name a REST handler's span records.
- `migration_runner`: history-table names, the statements over that table,
  and the plan of a migration run (duplicates, order, applied and skipped).
- `migration_run`: the run itself as a state machine; a driver performs each
  action (create, read, begin, up, record, commit, rollback) and hands back
  what came of it; `PendingCheck` does the same for the check of which
  migrations are pending.
- `bin_codec`: the versioned envelope of a serialized security context.
- `problem`, `mini_chat_error`, `user_settings_error`: RFC 9457 problem
  responses built from domain errors.
- `*_domain`, `*_resolver`, `credstore`, `types_registry`, `claims_error`,
  `tx_error`, `node_info`, `http_error` (HTTP client and TLS configuration errors): error types, their messages and the
  mappings between domain and public errors.
- `text`, `seq_facts`: string helpers and sequence lemmas shared by the rest.

`tests/` exercises the library on concrete values. `app/` holds what Verus
does not see: header reading with `http`, `postcard` serialization, UUID
conversions, copies of error types that implement `std::error::Error`, and
the loop that drives a migration run through a database driver trait.
