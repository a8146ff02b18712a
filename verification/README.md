# pulsar_core

The decision logic of the Pulsar assistant's round pipeline and neuron graph, written in
Verus and proved against its contracts.

- `src/` — the verified library: hook cycle gates and judgement hooks, model-call input
  surgery, role resolution, round coordination per session, tool authorisation, the
  provider registry and its configuration rules, the OpenAI-compatible wire (event-stream
  decoding and aggregation), candidate pools and neighbourhood pools, the network walk,
  the store's schema and its upgrade, the statements it builds (partial updates, logical
  deletes, listing pages) and the checks made before a write, the reading of model replies
  into drafts, and the judgement ledger's schema, records and queries.
- `tests/` — scenario tests run against the compiled library.
- `app/` — the I/O around it: SQLite stores (with their fixed queries, such as the
  low-value and capacity queries of recycling), the loops that run the library's step
  machines against the store, the configuration file, HTTP clients, serde forms of the
  library's types, and async round glue.
