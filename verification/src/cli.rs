//! The command line.
pub mod commands;
pub mod help;
pub mod laws;
pub mod paint;
pub mod status;
