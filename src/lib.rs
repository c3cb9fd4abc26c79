//! A network probe agent: command reconciliation, probe scheduling, ICMP
//! request/reply matching and batched, retried result delivery.

pub mod clock;
pub mod icmp;
pub mod structures;
pub mod engine;
pub mod retry;
pub mod reporter;
pub mod conf;
pub mod commander;
pub mod detectors;
