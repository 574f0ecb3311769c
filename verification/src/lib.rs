//! Coordination core for network reconnaissance scans.
//!
//! The crate holds the decisions of a scan coordinator: admission under a
//! concurrency bound, cancellation, the per-mode pipelines, the decoding of
//! tool output and the bookkeeping of results. Every function carries a
//! contract that Verus proves; calls into other crates stand behind small
//! trusted wrappers, each documented where it is declared.

pub mod commands;
pub mod coordinator;
pub mod error;
pub mod fresh;
pub mod gate;
pub mod masscan;
pub mod model;
pub mod network;
pub mod nmap;
pub mod parsing;
pub mod process;
pub mod rate_limiter;
pub mod text;
pub mod validation;
