//! The limit on processes.

use vstd::prelude::*;

use crate::cgroup::util;
use crate::cgroup::util::{join, limit, read_u64, read_u64_or_max, FileWrite, Reading};

verus! {

/// The pids controller of one cgroup.
pub struct PidsController {
    pub path: String,
}

impl PidsController {
    pub fn new(path: String) -> (r: Self)
        ensures
            r.path@ == path@,
    {
        PidsController { path }
    }

    /// Reads `pids.max`, in which `max` stands for the largest number.
    pub fn get_max(&self, outcome: Option<Result<String, String>>) -> (r: Reading<u64>)
        ensures
            util::reads_limit(r, self.path@, "pids.max"@, outcome),
    {
        read_u64_or_max(join(self.path.as_str(), "pids.max").as_str(), outcome)
    }

    /// Sets `pids.max`; the largest number is written as `max`.
    pub fn set_max(&self, max: u64) -> (r: FileWrite)
        ensures
            r.is(self.path@, "pids.max"@, util::limit_text(max as nat)),
    {
        FileWrite::of(self.path.as_str(), "pids.max", limit(max))
    }

    /// Reads `pids.current`.
    pub fn get_current(&self, outcome: Option<Result<String, String>>) -> (r: Reading<u64>)
        ensures
            util::reads_number(r, self.path@, "pids.current"@, outcome),
    {
        read_u64(join(self.path.as_str(), "pids.current").as_str(), outcome)
    }
}

} // verus!
