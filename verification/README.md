# hyperindex

A verified library for indexing and querying TypeScript/JavaScript repositories, written
in Verus.

- `src/protocol`: the request, response, configuration and error types shared by the
  daemon and its clients, with the constructors and defaults that carry rules.
- `src/parser`: line indexing, dialect detection, the snapshot file catalog, the parse
  cache, the tree-sitter parse core (syntax diagnostics, incremental reparse) and the
  parse manager's digests and decisions.
- `src/planner`: query classification, route policy and registry, score fusion, result
  grouping, trust payloads, and the planner engine and its text renderings.
- `src/scheduler`: the job queue and its status.
- `src/semantic`: semantic store layout, schema checks, embedding cache keys and vector
  index checks.
- `src/repo_store.rs`: repository ids, display names and recovery decisions.
- `app/`: the floating-point vector index, the search for a free quarantine path on disk,
  and the SQLite column reads that feed the library's schema check.
