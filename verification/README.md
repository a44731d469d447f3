# win_log

A Windows log collector, written in Verus.

`src/` is the verified library:

- `dns` — the DNS server's `LogLevel` flags (decoding and encoding, proved
  inverse of each other) and the logging configuration built from the registry.
- `common` — listener configurations, error types, and the decisions of a
  registry read (which call comes next, which error ends it).
- `text` — UTF-16 encoding of wide strings and the decoding of the buffers that
  the Windows APIs fill in.
- `winevt` — the event-log listeners: which configurations are started, the
  decisions of a listener's task, and the record number of a rendered event.
- `listeners` — the saved listeners, or the default ones.
- `watcher` — where the DNS log watcher reads and when it rotates the file.
- `shared_map`, `counter` — the data set of the shared-map benchmarks and the
  state of the counter demo.

`app/` is the program around it: the registry and event-log calls, files,
channels, threads and tasks, JSON, the benchmarks and the window.
