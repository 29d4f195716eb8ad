//! Benchmarking a time-series store: the parameter space of a run, the records it keeps, and the
//! series and tables made from them.
pub mod analyser;
pub mod args;
pub mod benchmark;
pub mod bounds;
pub mod engine_analyser;
pub mod results;
pub mod stepped;
