use vstd::prelude::*;

pub mod benchmarker;
pub mod common;
pub mod db;
pub mod hdf5;
pub mod message;
pub mod payload;
pub mod reader;
pub mod server;
pub mod simulator;
pub mod tdengine;
pub mod text;

verus! {
} // verus!
