//! What stands between the commands and the files they read.

pub mod config;
pub mod csv;
