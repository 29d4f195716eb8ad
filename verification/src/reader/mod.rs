//! Reading recorded traces back: legacy binary trace files and HDF5 trace archives.
pub mod bytes;
pub mod loader;
pub mod hdf5trace;
pub mod replay;
pub mod processing;
