//! Library behind the `orbit` command-line client for the Nova serverless
//! platform. The verified core is the function pull-and-test harness: runtime
//! classification, source-file layout, toolchain location, driver-command
//! generation, and the pull flow's decisions. Process spawning, file system
//! access and HTTP are left to the surrounding binary, which feeds their
//! results back into the verified decision functions.

pub mod client;
pub mod commands;
pub mod config;
pub mod driver;
pub mod errors;
pub mod layout;
pub mod output;
pub mod pull;
pub mod runtime;
pub mod text;
pub mod toolchain;
