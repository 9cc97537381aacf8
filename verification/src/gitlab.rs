//! The remote API: which requests the client makes and how it reads replies.

pub mod client;
pub mod exchange;
pub mod files;
pub mod projects;
pub mod users;
