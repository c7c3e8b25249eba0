//! Control logic for running the box proxy: the lifecycle of the core and its routing
//! rules, the network monitor's worker, and the text of log lines.
pub mod config;
pub mod control;
pub mod logger;
pub mod monitor;
pub mod text;
