# aegis_api

The Aegis service: premium licence keys with hardware locking, per-user
configuration sync, cape lookup, and the administrator's key management.

- `src/` is the library, verified with Verus: the records (`models`), the
  store and every decision on it (`store`, `routes`), key generation (`ids`),
  instants (`time`), first-match search and counting over sequences
  (`lookup`), and the properties that span operations (`laws`).
- `app/` is the HTTP service around it: axum routes, JSON bodies, the
  `aegis-data.json` file, logging.
- `tests/` runs the library on concrete values.
