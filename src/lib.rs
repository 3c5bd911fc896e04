//! Resolves repository coordinates into the URL of a tarball on one of the
//! supported hosting providers, and turns the outcome of downloading it into
//! either the archive's bytes or an error carrying a message.
pub mod decimal;
pub mod error;
pub mod fetch;
pub mod host;
pub mod repository;

