//! The entities the client works on.

pub mod identity;
pub mod project;
pub mod user;
