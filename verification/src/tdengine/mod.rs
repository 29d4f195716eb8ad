//! Recording digitiser traces into a TDengine time-series database.
pub mod error;
pub mod error_reporter;
pub mod framedata;
pub mod views;
pub mod wrapper;
pub mod tdengine_login;
pub mod envfile;
