//! Worker plugins: processes that the host starts and talks to over RPC.
//!
//! The host starts the process, moves the messages and keeps the clock; here stands what
//! is checked, what follows each answer and what the host keeps for its workers.

pub mod host;
pub mod invocation;
pub mod load;
pub mod messages;
pub mod process;
pub mod service;
pub mod startup;
pub mod teardown;
