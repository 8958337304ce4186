//! Routes of the federation surface.

pub mod communities;
pub mod follows;
pub mod users;
