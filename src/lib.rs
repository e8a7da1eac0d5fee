//! Bookkeeping and decisions for evicting the local copies of cloud-backed
//! files in a directory tree: byte formatting, run counters, the per-file
//! state machine and the choice of worker-pool size.

pub mod format;
pub mod stats;
pub mod worker;
pub mod pipeline;
