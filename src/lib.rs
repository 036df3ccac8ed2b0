//! A pool of virtual device instances: port allocation, the instance lifecycle,
//! and application control through the device bridge. Each external command is
//! described here as a command line, run by the caller, and its outcome handed
//! back for interpretation.

pub mod allocation_laws;
pub mod app_manager;
pub mod emulator;
pub mod ports;
pub mod process;
pub mod responses;
pub mod text;
