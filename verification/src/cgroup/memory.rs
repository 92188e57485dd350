//! Limits on memory, and what is used.

use vstd::prelude::*;

use crate::cgroup::error::CgroupError;
use crate::cgroup::pressure;
use crate::cgroup::pressure::{read_pressure, PressureStats};
use crate::cgroup::util;
use crate::cgroup::util::{
    join, limit, lookup_key, read_cgroup_file, read_flat_keyed, read_u64, read_u64_or_max,
    FileWrite, Reading,
};
use crate::text;
use crate::text::{same, trim, u64_text};

verus! {

/// Memory usage from `memory.stat`.
#[derive(Debug, Clone)]
pub struct MemoryStats {
    pub anon: u64,
    pub file: u64,
    pub kernel: u64,
    pub kernel_stack: u64,
    pub pagetables: u64,
    pub sec_pagetables: u64,
    pub shmem: u64,
    pub sock: u64,
    pub slab: u64,
    pub slab_reclaimable: u64,
    pub slab_unreclaimable: u64,
    pub pgfault: u64,
    pub pgmajfault: u64,
    pub file_mapped: u64,
    pub file_dirty: u64,
    pub file_writeback: u64,
    pub anon_thp: u64,
    pub inactive_anon: u64,
    pub active_anon: u64,
    pub inactive_file: u64,
    pub active_file: u64,
    pub unevictable: u64,
    pub workingset_refault_anon: u64,
    pub workingset_refault_file: u64,
    pub workingset_activate_anon: u64,
    pub workingset_activate_file: u64,
    pub workingset_nodereclaim: u64,
    pub pgrefill: u64,
    pub pgscan: u64,
    pub pgsteal: u64,
    pub pgactivate: u64,
    pub pgdeactivate: u64,
    pub pglazyfree: u64,
    pub pglazyfreed: u64,
    pub thp_fault_alloc: u64,
    pub thp_collapse_alloc: u64,
}

impl MemoryStats {
    /// Every field is the value of the entry of its name.
    pub open spec fn is_from(self, entries: Seq<(Seq<char>, nat)>) -> bool {
        &&& self.anon == util::lookup(entries, "anon"@)
        &&& self.file == util::lookup(entries, "file"@)
        &&& self.kernel == util::lookup(entries, "kernel"@)
        &&& self.kernel_stack == util::lookup(entries, "kernel_stack"@)
        &&& self.pagetables == util::lookup(entries, "pagetables"@)
        &&& self.sec_pagetables == util::lookup(entries, "sec_pagetables"@)
        &&& self.shmem == util::lookup(entries, "shmem"@)
        &&& self.sock == util::lookup(entries, "sock"@)
        &&& self.slab == util::lookup(entries, "slab"@)
        &&& self.slab_reclaimable == util::lookup(entries, "slab_reclaimable"@)
        &&& self.slab_unreclaimable == util::lookup(entries, "slab_unreclaimable"@)
        &&& self.pgfault == util::lookup(entries, "pgfault"@)
        &&& self.pgmajfault == util::lookup(entries, "pgmajfault"@)
        &&& self.file_mapped == util::lookup(entries, "file_mapped"@)
        &&& self.file_dirty == util::lookup(entries, "file_dirty"@)
        &&& self.file_writeback == util::lookup(entries, "file_writeback"@)
        &&& self.anon_thp == util::lookup(entries, "anon_thp"@)
        &&& self.inactive_anon == util::lookup(entries, "inactive_anon"@)
        &&& self.active_anon == util::lookup(entries, "active_anon"@)
        &&& self.inactive_file == util::lookup(entries, "inactive_file"@)
        &&& self.active_file == util::lookup(entries, "active_file"@)
        &&& self.unevictable == util::lookup(entries, "unevictable"@)
        &&& self.workingset_refault_anon == util::lookup(entries, "workingset_refault_anon"@)
        &&& self.workingset_refault_file == util::lookup(entries, "workingset_refault_file"@)
        &&& self.workingset_activate_anon == util::lookup(entries, "workingset_activate_anon"@)
        &&& self.workingset_activate_file == util::lookup(entries, "workingset_activate_file"@)
        &&& self.workingset_nodereclaim == util::lookup(entries, "workingset_nodereclaim"@)
        &&& self.pgrefill == util::lookup(entries, "pgrefill"@)
        &&& self.pgscan == util::lookup(entries, "pgscan"@)
        &&& self.pgsteal == util::lookup(entries, "pgsteal"@)
        &&& self.pgactivate == util::lookup(entries, "pgactivate"@)
        &&& self.pgdeactivate == util::lookup(entries, "pgdeactivate"@)
        &&& self.pglazyfree == util::lookup(entries, "pglazyfree"@)
        &&& self.pglazyfreed == util::lookup(entries, "pglazyfreed"@)
        &&& self.thp_fault_alloc == util::lookup(entries, "thp_fault_alloc"@)
        &&& self.thp_collapse_alloc == util::lookup(entries, "thp_collapse_alloc"@)
    }
}

/// Memory events from `memory.events`.
#[derive(Debug, Clone)]
pub struct MemoryEvents {
    pub low: u64,
    pub high: u64,
    pub max: u64,
    pub oom: u64,
    pub oom_kill: u64,
    pub oom_group_kill: u64,
}

impl MemoryEvents {
    /// Every field is the value of the entry of its name.
    pub open spec fn is_from(self, entries: Seq<(Seq<char>, nat)>) -> bool {
        &&& self.low == util::lookup(entries, "low"@)
        &&& self.high == util::lookup(entries, "high"@)
        &&& self.max == util::lookup(entries, "max"@)
        &&& self.oom == util::lookup(entries, "oom"@)
        &&& self.oom_kill == util::lookup(entries, "oom_kill"@)
        &&& self.oom_group_kill == util::lookup(entries, "oom_group_kill"@)
    }
}

/// The memory controller of one cgroup.
pub struct MemoryController {
    pub path: String,
}

impl MemoryController {
    pub fn new(path: String) -> (r: Self)
        ensures
            r.path@ == path@,
    {
        MemoryController { path }
    }

    /// Reads `memory.current`.
    pub fn get_current(&self, outcome: Option<Result<String, String>>) -> (r: Reading<u64>)
        ensures
            util::reads_number(r, self.path@, "memory.current"@, outcome),
    {
        read_u64(join(self.path.as_str(), "memory.current").as_str(), outcome)
    }

    /// Reads `memory.max`, in which `max` stands for the largest number.
    pub fn get_max(&self, outcome: Option<Result<String, String>>) -> (r: Reading<u64>)
        ensures
            util::reads_limit(r, self.path@, "memory.max"@, outcome),
    {
        read_u64_or_max(join(self.path.as_str(), "memory.max").as_str(), outcome)
    }

    /// Sets `memory.max`; the largest number is written as `max`.
    pub fn set_max(&self, bytes: u64) -> (r: FileWrite)
        ensures
            r.is(self.path@, "memory.max"@, util::limit_text(bytes as nat)),
    {
        FileWrite::of(self.path.as_str(), "memory.max", limit(bytes))
    }

    /// Reads `memory.min`.
    pub fn get_min(&self, outcome: Option<Result<String, String>>) -> (r: Reading<u64>)
        ensures
            util::reads_number(r, self.path@, "memory.min"@, outcome),
    {
        read_u64(join(self.path.as_str(), "memory.min").as_str(), outcome)
    }

    /// Sets `memory.min`.
    pub fn set_min(&self, bytes: u64) -> (r: FileWrite)
        ensures
            r.is(self.path@, "memory.min"@, text::decimal_text(bytes as nat)),
    {
        FileWrite::of(self.path.as_str(), "memory.min", u64_text(bytes))
    }

    /// Reads `memory.low`.
    pub fn get_low(&self, outcome: Option<Result<String, String>>) -> (r: Reading<u64>)
        ensures
            util::reads_number(r, self.path@, "memory.low"@, outcome),
    {
        read_u64(join(self.path.as_str(), "memory.low").as_str(), outcome)
    }

    /// Sets `memory.low`.
    pub fn set_low(&self, bytes: u64) -> (r: FileWrite)
        ensures
            r.is(self.path@, "memory.low"@, text::decimal_text(bytes as nat)),
    {
        FileWrite::of(self.path.as_str(), "memory.low", u64_text(bytes))
    }

    /// Reads `memory.high`, in which `max` stands for the largest number.
    pub fn get_high(&self, outcome: Option<Result<String, String>>) -> (r: Reading<u64>)
        ensures
            util::reads_limit(r, self.path@, "memory.high"@, outcome),
    {
        read_u64_or_max(join(self.path.as_str(), "memory.high").as_str(), outcome)
    }

    /// Sets `memory.high`; the largest number is written as `max`.
    pub fn set_high(&self, bytes: u64) -> (r: FileWrite)
        ensures
            r.is(self.path@, "memory.high"@, util::limit_text(bytes as nat)),
    {
        FileWrite::of(self.path.as_str(), "memory.high", limit(bytes))
    }

    /// Reads `memory.swap.max`, in which `max` stands for the largest number.
    pub fn get_swap_max(&self, outcome: Option<Result<String, String>>) -> (r: Reading<u64>)
        ensures
            util::reads_limit(r, self.path@, "memory.swap.max"@, outcome),
    {
        read_u64_or_max(join(self.path.as_str(), "memory.swap.max").as_str(), outcome)
    }

    /// Sets `memory.swap.max`; the largest number is written as `max`.
    pub fn set_swap_max(&self, bytes: u64) -> (r: FileWrite)
        ensures
            r.is(self.path@, "memory.swap.max"@, util::limit_text(bytes as nat)),
    {
        FileWrite::of(self.path.as_str(), "memory.swap.max", limit(bytes))
    }

    /// Reads `memory.swap.current`.
    pub fn get_swap_current(&self, outcome: Option<Result<String, String>>) -> (r: Reading<u64>)
        ensures
            util::reads_number(r, self.path@, "memory.swap.current"@, outcome),
    {
        read_u64(join(self.path.as_str(), "memory.swap.current").as_str(), outcome)
    }

    /// Reads `memory.stat`.
    pub fn get_stat(&self, outcome: Option<Result<String, String>>) -> (r: Reading<MemoryStats>)
        ensures
            util::reads(
                r,
                util::path_join(self.path@, "memory.stat"@),
                outcome,
                |t: Seq<char>, d: Result<MemoryStats, CgroupError>|
                    match (d, util::flat_keyed(t)) {
                        (Ok(s), Ok(entries)) => s.is_from(entries),
                        (Err(e), Err(f)) => e.is_fault(
                            util::path_join(self.path@, "memory.stat"@),
                            f,
                        ),
                        _ => false,
                    },
            ),
    {
        let file = join(self.path.as_str(), "memory.stat");
        match read_flat_keyed(file.as_str(), outcome) {
            Reading::Need(p) => Reading::Need(p),
            Reading::Done(Err(e)) => Reading::Done(Err(e)),
            Reading::Done(Ok(v)) => {
                let entries = v.as_slice();
                Reading::Done(
                    Ok(
                        MemoryStats {
                            anon: lookup_key(entries, "anon"),
                            file: lookup_key(entries, "file"),
                            kernel: lookup_key(entries, "kernel"),
                            kernel_stack: lookup_key(entries, "kernel_stack"),
                            pagetables: lookup_key(entries, "pagetables"),
                            sec_pagetables: lookup_key(entries, "sec_pagetables"),
                            shmem: lookup_key(entries, "shmem"),
                            sock: lookup_key(entries, "sock"),
                            slab: lookup_key(entries, "slab"),
                            slab_reclaimable: lookup_key(entries, "slab_reclaimable"),
                            slab_unreclaimable: lookup_key(entries, "slab_unreclaimable"),
                            pgfault: lookup_key(entries, "pgfault"),
                            pgmajfault: lookup_key(entries, "pgmajfault"),
                            file_mapped: lookup_key(entries, "file_mapped"),
                            file_dirty: lookup_key(entries, "file_dirty"),
                            file_writeback: lookup_key(entries, "file_writeback"),
                            anon_thp: lookup_key(entries, "anon_thp"),
                            inactive_anon: lookup_key(entries, "inactive_anon"),
                            active_anon: lookup_key(entries, "active_anon"),
                            inactive_file: lookup_key(entries, "inactive_file"),
                            active_file: lookup_key(entries, "active_file"),
                            unevictable: lookup_key(entries, "unevictable"),
                            workingset_refault_anon: lookup_key(entries, "workingset_refault_anon"),
                            workingset_refault_file: lookup_key(entries, "workingset_refault_file"),
                            workingset_activate_anon: lookup_key(
                                entries,
                                "workingset_activate_anon",
                            ),
                            workingset_activate_file: lookup_key(
                                entries,
                                "workingset_activate_file",
                            ),
                            workingset_nodereclaim: lookup_key(entries, "workingset_nodereclaim"),
                            pgrefill: lookup_key(entries, "pgrefill"),
                            pgscan: lookup_key(entries, "pgscan"),
                            pgsteal: lookup_key(entries, "pgsteal"),
                            pgactivate: lookup_key(entries, "pgactivate"),
                            pgdeactivate: lookup_key(entries, "pgdeactivate"),
                            pglazyfree: lookup_key(entries, "pglazyfree"),
                            pglazyfreed: lookup_key(entries, "pglazyfreed"),
                            thp_fault_alloc: lookup_key(entries, "thp_fault_alloc"),
                            thp_collapse_alloc: lookup_key(entries, "thp_collapse_alloc"),
                        },
                    ),
                )
            },
        }
    }

    /// Reads `memory.events`.
    pub fn get_events(&self, outcome: Option<Result<String, String>>) -> (r: Reading<MemoryEvents>)
        ensures
            util::reads(
                r,
                util::path_join(self.path@, "memory.events"@),
                outcome,
                |t: Seq<char>, d: Result<MemoryEvents, CgroupError>|
                    match (d, util::flat_keyed(t)) {
                        (Ok(s), Ok(entries)) => s.is_from(entries),
                        (Err(e), Err(f)) => e.is_fault(
                            util::path_join(self.path@, "memory.events"@),
                            f,
                        ),
                        _ => false,
                    },
            ),
    {
        let file = join(self.path.as_str(), "memory.events");
        match read_flat_keyed(file.as_str(), outcome) {
            Reading::Need(p) => Reading::Need(p),
            Reading::Done(Err(e)) => Reading::Done(Err(e)),
            Reading::Done(Ok(v)) => {
                let entries = v.as_slice();
                Reading::Done(
                    Ok(
                        MemoryEvents {
                            low: lookup_key(entries, "low"),
                            high: lookup_key(entries, "high"),
                            max: lookup_key(entries, "max"),
                            oom: lookup_key(entries, "oom"),
                            oom_kill: lookup_key(entries, "oom_kill"),
                            oom_group_kill: lookup_key(entries, "oom_group_kill"),
                        },
                    ),
                )
            },
        }
    }

    /// Reads `memory.pressure`.
    pub fn get_pressure(&self, outcome: Option<Result<String, String>>) -> (r: Reading<
        PressureStats,
    >)
        ensures
            pressure::reads_pressure(r, self.path@, "memory.pressure"@, outcome),
    {
        read_pressure(join(self.path.as_str(), "memory.pressure").as_str(), outcome)
    }

    /// Reads `memory.oom.group`: whether the cgroup is killed as a whole.
    pub fn get_oom_group(&self, outcome: Option<Result<String, String>>) -> (r: Reading<bool>)
        ensures
            util::reads(
                r,
                util::path_join(self.path@, "memory.oom.group"@),
                outcome,
                |t: Seq<char>, d: Result<bool, CgroupError>|
                    d matches Ok(b) && b == (text::trim_of(t) == "1"@),
            ),
    {
        let file = join(self.path.as_str(), "memory.oom.group");
        match outcome {
            None => Reading::Need(file),
            Some(o) => match read_cgroup_file(file.as_str(), o) {
                Ok(content) => Reading::Done(Ok(same(trim(content.as_str()).as_str(), "1"))),
                Err(e) => Reading::Done(Err(e)),
            },
        }
    }

    /// Sets `memory.oom.group`.
    pub fn set_oom_group(&self, enable: bool) -> (r: FileWrite)
        ensures
            r.is(
                self.path@,
                "memory.oom.group"@,
                if enable {
                    "1"@
                } else {
                    "0"@
                },
            ),
    {
        let value = if enable {
            "1".to_owned()
        } else {
            "0".to_owned()
        };
        FileWrite::of(self.path.as_str(), "memory.oom.group", value)
    }
}

} // verus!
