//! Configuration, list layout and diagnostic session logic of a source formatter.
pub mod config;
pub mod lists;
pub mod session;
