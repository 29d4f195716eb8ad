//! Archiving digitiser traces into HDF5 files: the frame metadata index, the placement of each
//! message's traces in the detector data table, and the run-control decisions.
pub mod base;
pub mod trace;
pub mod control;
pub mod frame_file;
