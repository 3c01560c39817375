# ngx

Verified helpers for nginx modules, checked with Verus.

- `src/http/cache.rs`: `CacheStatus`, the typed `$upstream_cache_status`, with
  `from_raw`/`to_raw` proved to be inverse and to accept exactly nginx's
  documented statuses; each variant casts to nginx's number, with a leading
  `Unset` placeholder for nginx's `0` that `from_raw` never returns.
- `src/event.rs`: `ConnectionStats`, one snapshot of nginx's connection counters.
- `src/shm.rs`: the decisions around shared memory zones: declaration results,
  whether a zone is mapped, and the step that initialization takes: keep the
  value a previous configuration left (with the answer of the user's `reuse`),
  or store the value the user's `new_in` created, or fail with `NGX_ERROR`.
  The memory itself is read and written in `app/`.
- `src/status.rs`, `src/ffi.rs`: nginx status codes and constants.

`app/` holds the nginx side: the calls into nginx and the reads and writes of
the memory it owns, which hand plain values to the library.
