# ALICE Cloud Gateway

Cloud gateway for the ALICE edge-to-cloud SDF streaming pipeline: it receives
encrypted ASP packets from edge devices, opens them with per-device keys and
routes them to storage, cache, multi-device sync and processing queues.

## Layout

- `src/` — the library, verified with Verus:
  - `queue_bridge` — message wire format (with its round-trip proof) and queue routing;
  - `container_bridge` — container deployment, scaling and id allocation;
  - `backpressure` — watermark flow control with hysteresis;
  - `circuit_breaker` — circuit breaker state machine;
  - `device_keys` — per-device key derivation (BLAKE3 via `alice-crypto`) and key cache;
  - `decimal` — decimal rendering of integers;
  - `ingest` — packet header, payload decryption, frame cache (`alice-cache`),
    queue routing and routing statistics;
  - `telemetry` — exact packet counters;
  - `metrics_export` — Prometheus text layout.
- `app/` — the gateway program: UDP listener, SDF storage (`alice-db`),
  multi-device sync (`alice-sync`), latency sketches (`alice-analytics`),
  and the parts that compute with floating-point numbers (rate limiting,
  health classification, metric values, clock readings).
- `tests/` — tests of the library.
