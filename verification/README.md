# nats_jetstream_pull_consumer

A pull consumer for NATS JetStream with interceptors, error strategies and
batch or stream processing.

- `src/` is the verified library (Verus): configuration, error strategies,
  the tagged-payload decoder (raw or LZ4), the interceptor chain and the
  decisions that batch and stream workers make about every outcome.
- `app/` holds what talks to NATS: the async handler and interceptor traits
  that users implement, serde-readable configuration, and the worker loops
  that fetch, await and acknowledge as the library directs.
- `tests/` exercises the library on concrete values.
