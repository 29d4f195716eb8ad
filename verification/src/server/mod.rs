//! The settings of the trace search server: the broker topics it reads and what it selects.
pub mod cli_structs;
pub mod structs;
