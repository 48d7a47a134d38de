//! Verified core of the ALICE cloud gateway: message framing and queue
//! routing, container bookkeeping, flow control, circuit breaking, device
//! key management and the decisions of the packet ingest pipeline.
pub mod queue_bridge;
pub mod container_bridge;
pub mod backpressure;
pub mod circuit_breaker;
pub mod decimal;
pub mod device_keys;
pub mod ingest;
pub mod telemetry;
pub mod metrics_export;
