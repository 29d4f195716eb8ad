//! Archiving digitiser traces into a time-series database, fed from a Redpanda broker.
pub mod error;
pub mod tdengine_login;
pub mod framedata;
pub mod tdengine;
pub mod envfile;
pub mod redpanda_engine;
