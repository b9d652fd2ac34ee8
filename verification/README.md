# api_gemini

The decision logic of a client for the Gemini generative language API,
written in Verus with its contracts proved.

- `src/` — the verified library: request validation, configuration
  builders and dynamic configuration (deltas, history, sources, hot-reload
  debouncing, the synchronisation cache, the configuration manager with
  its versioned history and rollbacks), stream control, failover,
  batch bookkeeping, retry classification, media processing and caching,
  deployment metrics, WebSocket sessions and connection pooling, model
  tuning jobs and chat request building. Durations and times are integers (nanoseconds or
  microseconds); floating-point settings are kept as their IEEE bit
  patterns and compared exactly.
- `tests/` — tests of the library on concrete values.
- `app/` — the runtime around it: HTTP calls, file watching, timers and
  async tasks, serde representations, and reports that print
  floating-point figures.
