//! The OCI runtime configuration of a container.
pub mod config;
pub mod devices;
pub mod laws;
pub mod mounts;
pub mod process;
pub mod seccomp;
