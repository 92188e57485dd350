//! Resource control and metrics of virtual machines through cgroup v2.
//!
//! Nothing here touches the file system. A method that has to read a file
//! answers [`util::Reading::Need`] with the file's path when it is called
//! without an outcome, and [`util::Reading::Done`] when it is given the outcome
//! of that read. A method that writes returns the [`util::FileWrite`] to
//! perform.

pub mod cpu;
pub mod cpuset;
pub mod error;
pub mod freezer;
pub mod io;
pub mod laws;
pub mod manager;
pub mod memory;
pub mod pids;
pub mod pressure;
pub mod util;
