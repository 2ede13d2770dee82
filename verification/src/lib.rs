//! Core decision logic for a multi-project kernel build, release and
//! notification pipeline: variant resolution, archive and tag naming,
//! build configuration and environment derivation, upstream-change
//! watching, and notification fan-out rules.

pub mod config;
pub mod errors;
pub mod meta;
pub mod notify;
pub mod package;
pub mod output;
pub mod paths;
pub mod pipeline;
pub mod setup;
pub mod strings;
pub mod toolchain;
pub mod variant;
pub mod watch;
