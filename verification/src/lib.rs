//! Decision core of a bulk-administration client for a source-control hosting API.
//!
//! The library plans requests, interprets what came back and decides what to do
//! next. It performs no input or output itself: a driver sends each request
//! and hands the reply back.

pub mod commands;
pub mod encoding;
pub mod gitlab;
pub mod models;
pub mod number;
pub mod text;
pub mod utils;
