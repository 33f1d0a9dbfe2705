//! A date-addressed journal: page addressing, template macro expansion and
//! the pull / edit / commit / push session around one edit.

pub mod args;
pub mod config;
pub mod date;
pub mod page;
pub mod preprocessor;
pub mod registry;
pub mod repo;
pub mod session;
pub mod text;
