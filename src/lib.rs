//! A small host-metrics agent: CPU and memory snapshots and a liveness record.
//!
//! CPU utilisation is carried as an integer number of hundredths of a percent,
//! so a fully busy core reads `10000`.
pub mod health;
pub mod snapshot;
pub mod usage;
