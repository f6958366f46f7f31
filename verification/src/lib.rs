//! A URI-protocol-handler dispatcher library.
//!
//! Given a custom-scheme URI such as `myproto://action?key=val`, this crate
//! extracts the scheme token, resolves a configured shell and script pair for
//! that scheme, and builds the command line that a caller can hand to the
//! operating system, with the URI forwarded as the final argument.

pub mod command;
pub mod config;
pub mod error;
