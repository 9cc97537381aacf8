//! The commands: choosing the targets, and applying one operation to each.

pub mod content;
pub mod driver;
pub mod error;
pub mod file;
pub mod projects;
pub mod report;
pub mod tags;
pub mod targets;
pub mod topics;
pub mod user;
