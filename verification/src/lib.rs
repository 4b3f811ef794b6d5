//! Verified core of a storage-throughput benchmark harness.
//!
//! The harness measures sustained sequential read and write throughput of a
//! block-addressable storage medium behind a FAT-style filesystem. The
//! filesystem driver, the bus, the scheduler and the diagnostic sink are
//! external collaborators; this crate holds the logic that is worth proving:
//!
//! - [`throughput`]: normalization of a raw bytes-per-second sample into a
//!   human-scaled magnitude and unit tag;
//! - [`config`]: the benchmark's configuration surface and its validity;
//! - [`mount`]: the device-acquisition retry protocol and its liveness;
//! - [`fs`]: an in-memory directory model and the chunked write/read passes,
//!   with their round-trip and idempotence laws;
//! - [`driver`]: the orchestration and pass state machines that an embedded
//!   driver loop steps through, one I/O outcome at a time.

pub mod config;
pub mod driver;
pub mod fs;
pub mod mount;
pub mod throughput;
