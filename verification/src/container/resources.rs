//! The control groups of containers: limits, members and counters.

use vstd::prelude::*;

use crate::cgroup::util;
use crate::cgroup::util::join;
use crate::container::protocol::{CgroupEvents, ContainerStats, ResourceLimits};
use crate::container::schedule::Schedule;
use crate::labels;
use crate::labels::{get_label, label_keys};
use crate::text;
use crate::text::{
    cat, chars_of, debug_quoted, has_char, i64_text, join_with, lines, parse_i64, parse_u32,
    parse_u64, place, same, split_once, trim, u64_text, words,
};

verus! {

// ---------------------------------------------------------------------------
// Where the groups are
// ---------------------------------------------------------------------------

/// The control group above all containers.
pub fn cgroup_root() -> (r: String)
    ensures
        r@ == "/sys/fs/cgroup/fluxvm-containers"@,
{
    "/sys/fs/cgroup/fluxvm-containers".to_owned()
}

/// A character that stays in the name of a control group.
pub open spec fn stays(c: char) -> bool {
    'a' <= c <= 'z' || 'A' <= c <= 'Z' || '0' <= c <= '9' || c == '-' || c == '_' || c == '.'
}

/// The name with every other character replaced.
pub open spec fn tamed(s: Seq<char>) -> Seq<char> {
    s.map_values(
        |c: char|
            if stays(c) {
                c
            } else {
                '-'
            },
    )
}

/// The name of a container's control group: at most 96 plain characters.
pub open spec fn component_of(id: Seq<char>) -> Seq<char> {
    if id.len() == 0 {
        "container"@
    } else if id.len() > 96 {
        tamed(id).take(96)
    } else {
        tamed(id)
    }
}

/// The name of a container's control group.
pub fn cgroup_component(id: &str) -> (r: String)
    ensures
        r@ == component_of(id@),
{
    let v = chars_of(id);
    if v.len() == 0 {
        return "container".to_owned();
    }
    let n: usize = if v.len() > 96 {
        96
    } else {
        v.len()
    };
    let mut out = String::new();
    let mut i: usize = 0;
    while i < n
        invariant
            i <= n <= v.len(),
            v@ == id@,
            out@ == tamed(v@).take(i as int),
        decreases n - i,
    {
        let c = v[i];
        let keep = ('a' <= c && c <= 'z') || ('A' <= c && c <= 'Z') || ('0' <= c && c <= '9') || c
            == '-' || c == '_' || c == '.';
        let d: char = if keep {
            c
        } else {
            '-'
        };
        out.push(d);
        assert(tamed(v@).take(i + 1) =~= tamed(v@).take(i as int).push(d));
        i += 1;
    }
    assert(out@ =~= component_of(id@));
    out
}

/// The name of a control group is a single name of at most 96 characters: it is not empty
/// and has no slash.
pub proof fn law_component_is_one_name(id: Seq<char>)
    ensures
        component_of(id).len() > 0,
        component_of(id).len() <= 96,
        !component_of(id).contains('/'),
{
    reveal_strlit("container");
    assert forall|i: int| 0 <= i < component_of(id).len() implies component_of(id)[i] != '/' by {
        if id.len() > 0 {
            assert(component_of(id)[i] == tamed(id)[i]);
        }
    }
}

/// The control group of a container.
pub open spec fn container_path(id: Seq<char>) -> Seq<char> {
    util::path_join("/sys/fs/cgroup/fluxvm-containers"@, component_of(id))
}

/// The control group of a container.
pub fn container_cgroup_path(id: &str) -> (r: String)
    ensures
        r@ == container_path(id@),
{
    join(cgroup_root().as_str(), cgroup_component(id).as_str())
}

/// The controllers that containers use.
pub open spec fn wanted() -> Seq<Seq<char>> {
    seq!["cpu"@, "memory"@, "pids"@, "cpuset"@]
}

/// The first `n` wanted controllers that are available, each with a plus sign.
pub open spec fn enabled(available: Seq<Seq<char>>, n: nat) -> Seq<Seq<char>>
    decreases n,
{
    if n == 0 {
        Seq::empty()
    } else {
        let before = enabled(available, (n - 1) as nat);
        let name = wanted()[n - 1];
        if available.contains(name) {
            before.push("+"@ + name)
        } else {
            before
        }
    }
}

/// What to write to hand controllers down: nothing where none is available.
pub open spec fn enabling(controllers: Seq<char>) -> Option<Seq<char>> {
    let list = enabled(text::words_of(controllers), 4);
    if list.len() == 0 {
        None
    } else {
        Some(text::joined(list, " "@))
    }
}

/// Tells whether `name` is among `list`.
fn among(list: &Vec<String>, name: &str) -> (r: bool)
    ensures
        r == text::views(list@).contains(name@),
{
    let mut i: usize = 0;
    while i < list.len()
        invariant
            i <= list.len(),
            forall|k: int| 0 <= k < i ==> (#[trigger] list@[k])@ != name@,
        decreases list.len() - i,
    {
        if same(list[i].as_str(), name) {
            assert(text::views(list@)[i as int] == name@);
            return true;
        }
        i += 1;
    }
    false
}

/// What to write to hand controllers down. `controllers` holds those that are
/// available; without that file there are no groups of the second version.
pub fn enable_controllers(parent: &str, controllers: Option<&str>) -> (r: Result<
    Option<String>,
    String,
>)
    ensures
        match controllers {
            None => r matches Err(m) && m@ == "cgroup v2 is required ("@ + util::path_join(
                parent@,
                "cgroup.controllers"@,
            ) + " is missing)"@,
            Some(t) => r matches Ok(w) && text::optional_string(w) == enabling(t@),
        },
{
    let t = match controllers {
        None => {
            let head = cat(
                "cgroup v2 is required (",
                join(parent, "cgroup.controllers").as_str(),
            );
            return Err(cat(head.as_str(), " is missing)"));
        },
        Some(t) => t,
    };
    let available = words(t);
    let ghost have = text::words_of(t@);
    let names: [&'static str; 4] = ["cpu", "memory", "pids", "cpuset"];
    let mut list: Vec<String> = Vec::new();
    let mut i: usize = 0;
    assert(text::views(list@) =~= Seq::<Seq<char>>::empty());
    while i < 4
        invariant
            i <= 4,
            text::views(available@) == have,
            text::names_of(names@) == wanted(),
            names@.len() == 4,
            text::views(list@) == enabled(have, i as nat),
        decreases 4 - i,
    {
        assert(text::names_of(names@)[i as int] == names@[i as int]@);
        if among(&available, names[i]) {
            let ghost before = list@;
            let item = cat("+", names[i]);
            list.push(item);
            assert(text::views(list@) =~= text::views(before).push(item@));
        }
        i += 1;
    }
    assert(text::views(list@).len() == list.len());
    if list.len() == 0 {
        Ok(None)
    } else {
        Ok(Some(join_with(&list, " ")))
    }
}

// ---------------------------------------------------------------------------
// Limits
// ---------------------------------------------------------------------------

/// What is known of a control group before its limits are set.
#[derive(Debug)]
pub struct CgroupFiles {
    /// The content of `cpu.max`.
    pub cpu_max: Option<String>,
    /// The content of `memory.max`.
    pub memory_max: Option<String>,
    /// The content of `cpuset.mems`.
    pub own_mems: Option<String>,
    /// The content of `cpuset.mems.effective` of the group above.
    pub parent_mems: Option<String>,
    /// The names of the files that the group has.
    pub present: Vec<String>,
}

impl CgroupFiles {
    /// The group has the file.
    pub open spec fn has(self, name: Seq<char>) -> bool {
        text::views(self.present@).contains(name)
    }
}

/// How a write that fails counts.
#[derive(Debug, Clone, Copy, PartialEq, Eq, Structural)]
pub enum WriteKind {
    /// The failure is the error.
    Needed,
    /// The failure does not count.
    Tried,
    /// The failure is the error, with the control and its value before it.
    Unified,
}

/// A limit to write.
#[derive(Debug)]
pub struct LimitWrite {
    pub path: String,
    pub value: String,
    pub kind: WriteKind,
}

/// The reading of a limit to write.
pub ghost struct Limit {
    pub path: Seq<char>,
    pub value: Seq<char>,
    pub kind: WriteKind,
}

impl LimitWrite {
    pub open spec fn view(self) -> Limit {
        Limit { path: self.path@, value: self.value@, kind: self.kind }
    }

    /// Judges how the write went.
    pub fn judge(&self, outcome: Result<(), String>) -> (r: Result<(), String>)
        ensures
            match outcome {
                Ok(_) => r is Ok,
                Err(e) => match self.kind {
                    WriteKind::Tried => r is Ok,
                    WriteKind::Needed => r == Err::<(), String>(e),
                    WriteKind::Unified => r matches Err(m) && m@
                        == "writing OCI unified control "@ + self.path@ + "="@ + self.value@ + ": "@
                        + e@,
                },
            },
    {
        match outcome {
            Ok(u) => Ok(u),
            Err(e) => match self.kind {
                WriteKind::Tried => Ok(()),
                WriteKind::Needed => Err(e),
                WriteKind::Unified => {
                    let head = cat("writing OCI unified control ", self.path.as_str());
                    let pair = cat(cat(head.as_str(), "=").as_str(), self.value.as_str());
                    Err(cat(cat(pair.as_str(), ": ").as_str(), e.as_str()))
                },
            },
        }
    }
}

/// The readings of limits to write.
pub open spec fn limits_view(v: Seq<LimitWrite>) -> Seq<Limit> {
    v.map_values(|w: LimitWrite| w.view())
}

/// Writes up to the first error, and that error.
pub ghost struct Plan {
    pub writes: Seq<Limit>,
    pub fault: Option<Seq<char>>,
}

impl Plan {
    /// This plan, and the next one unless this one ends in an error.
    pub open spec fn then_do(self, next: Plan) -> Plan {
        match self.fault {
            Some(_) => self,
            None => Plan { writes: self.writes + next.writes, fault: next.fault },
        }
    }
}

/// Nothing to do.
pub open spec fn no_plan() -> Plan {
    Plan { writes: Seq::empty(), fault: None }
}

/// An error.
pub open spec fn fault_plan(e: Seq<char>) -> Plan {
    Plan { writes: Seq::empty(), fault: Some(e) }
}

/// One write to the file `name`.
pub open spec fn write_plan(
    path: Seq<char>,
    name: Seq<char>,
    value: Seq<char>,
    kind: WriteKind,
) -> Plan {
    Plan {
        writes: seq![Limit { path: util::path_join(path, name), value, kind }],
        fault: None,
    }
}

/// The quota and the period that are in force.
pub open spec fn current_cpu(cpu_max: Option<Seq<char>>) -> (Seq<char>, nat) {
    let parts = text::words_of(
        match cpu_max {
            Some(t) => t,
            None => "max 100000"@,
        },
    );
    (
        if parts.len() > 0 {
            parts[0]
        } else {
            "max"@
        },
        if parts.len() > 1 {
            match text::unsigned_value(parts[1], u64::MAX as nat) {
                Some(n) => n,
                None => 100_000,
            }
        } else {
            100_000
        },
    )
}

/// The limit on processor time. What is not given stays as it is.
pub open spec fn cpu_plan(path: Seq<char>, l: ResourceLimits, files: CgroupFiles) -> Plan {
    if l.cpu_quota is None && l.cpu_period is None {
        no_plan()
    } else {
        let (quota_now, period_now) = current_cpu(text::optional_string(files.cpu_max));
        let quota = match l.cpu_quota {
            Some(v) => if v > 0 {
                text::signed_text(v as int)
            } else {
                "max"@
            },
            None => quota_now,
        };
        let period = match l.cpu_period {
            Some(v) => if v > 0 {
                v as nat
            } else {
                period_now
            },
            None => period_now,
        };
        write_plan(
            path,
            "cpu.max"@,
            quota + " "@ + text::decimal_text(period),
            WriteKind::Needed,
        )
    }
}

/// The weight for a number of shares: shares from 2 to 262144 become 1 to 10000.
pub open spec fn weight_of(shares: nat) -> nat {
    let clamped: int = if shares < 2 {
        2
    } else if shares > 262_144 {
        262_144
    } else {
        shares as int
    };
    (1 + (clamped - 2) * 9_999 / 262_142) as nat
}

/// The share of processor time.
pub open spec fn weight_plan(path: Seq<char>, l: ResourceLimits) -> Plan {
    match l.cpu_shares {
        Some(shares) => if shares > 0 {
            write_plan(
                path,
                "cpu.weight"@,
                text::decimal_text(weight_of(shares as nat)),
                WriteKind::Needed,
            )
        } else {
            no_plan()
        },
        None => no_plan(),
    }
}

/// An amount of memory as it is written; -1 stands for no limit, and 0 for no change.
pub open spec fn amount(n: i64, name: Seq<char>) -> Result<Option<Seq<char>>, Seq<char>> {
    if n == 0 {
        Ok(None)
    } else if n == -1 {
        Ok(Some("max"@))
    } else if n > 0 {
        Ok(Some(text::signed_text(n as int)))
    } else {
        Err("invalid OCI "@ + name + " value "@ + text::signed_text(n as int))
    }
}

/// The write of an amount of memory.
pub open spec fn amount_plan(path: Seq<char>, file: Seq<char>, n: i64, name: Seq<char>) -> Plan {
    match amount(n, name) {
        Err(e) => fault_plan(e),
        Ok(None) => no_plan(),
        Ok(Some(v)) => write_plan(path, file, v, WriteKind::Needed),
    }
}

/// The limit on memory.
pub open spec fn memory_plan(path: Seq<char>, l: ResourceLimits) -> Plan {
    match l.memory_limit_bytes {
        Some(n) => amount_plan(path, "memory.max"@, n, "memory.limit"@),
        None => no_plan(),
    }
}

/// The memory that is protected.
pub open spec fn reservation_plan(path: Seq<char>, l: ResourceLimits, files: CgroupFiles) -> Plan {
    match l.memory_reservation_bytes {
        Some(n) => if !files.has("memory.low"@) {
            fault_plan("OCI memory.reservation requested but memory.low is unavailable"@)
        } else {
            amount_plan(path, "memory.low"@, n, "memory.reservation"@)
        },
        None => no_plan(),
    }
}

/// The limit on memory that is in force: -1 for none, and 0 where it is not known.
pub open spec fn current_memory(content: Option<Seq<char>>) -> int {
    match content {
        None => 0,
        Some(t) => if text::trim_of(t) == "max"@ {
            -1
        } else {
            match text::signed_value(text::trim_of(t)) {
                Some(i) => i,
                None => 0,
            }
        },
    }
}

/// The limit on swap space alone, from the limit on memory and swap space together.
pub open spec fn swap_of(memory_swap: int, memory: int) -> Result<Option<Seq<char>>, Seq<char>> {
    if memory_swap == -1 || (memory == -1 && memory_swap == 0) {
        Ok(Some("max"@))
    } else if memory_swap == 0 {
        Ok(None)
    } else if memory == -1 && memory_swap > 0 {
        Ok(Some(text::signed_text(memory_swap)))
    } else if memory == 0 {
        Err("unable to set OCI memory.swap without a memory limit"@)
    } else if memory < -1 {
        Err("invalid OCI memory.limit value "@ + text::signed_text(memory))
    } else if memory_swap < -1 {
        Err("invalid OCI memory.swap value "@ + text::signed_text(memory_swap))
    } else if memory_swap < memory {
        Err(
            "OCI memory+swap limit ("@ + text::signed_text(memory_swap)
                + ") must be >= memory limit ("@ + text::signed_text(memory) + ")"@,
        )
    } else {
        Ok(Some(text::signed_text(memory_swap - memory)))
    }
}

/// The limit on swap space. Without such a control, only a finite limit is an error.
pub open spec fn swap_plan(path: Seq<char>, l: ResourceLimits, files: CgroupFiles) -> Plan {
    match l.memory_swap_bytes {
        None => no_plan(),
        Some(swap) => {
            let memory = match l.memory_limit_bytes {
                Some(n) => n as int,
                None => current_memory(text::optional_string(files.memory_max)),
            };
            match swap_of(swap as int, memory) {
                Err(e) => fault_plan(e),
                Ok(None) => no_plan(),
                Ok(Some(v)) => if files.has("memory.swap.max"@) {
                    write_plan(path, "memory.swap.max"@, v, WriteKind::Needed)
                } else if v == "max"@ || v == "0"@ {
                    no_plan()
                } else {
                    fault_plan("OCI memory.swap requested but memory.swap.max is unavailable"@)
                },
            }
        },
    }
}

/// The limit on processes.
pub open spec fn pids_plan(path: Seq<char>, l: ResourceLimits) -> Plan {
    match l.pids_limit {
        None => no_plan(),
        Some(n) => write_plan(
            path,
            "pids.max"@,
            if n > 0 {
                text::signed_text(n as int)
            } else {
                "max"@
            },
            WriteKind::Needed,
        ),
    }
}

/// A text that is there and not empty.
pub open spec fn real_text(s: Option<String>) -> Option<Seq<char>> {
    match s {
        Some(t) => if t@.len() > 0 {
            Some(t@)
        } else {
            None
        },
        None => None,
    }
}

/// The group has no memory nodes of its own yet: the file is there and empty.
pub open spec fn without_mems(files: CgroupFiles) -> bool {
    files.own_mems matches Some(t) && text::trim_of(t@).len() == 0
}

/// The memory nodes. Where none are given, a group without any gets those of the group
/// above, if possible, and a group that has some keeps them.
pub open spec fn mems_plan(path: Seq<char>, l: ResourceLimits, files: CgroupFiles) -> Plan {
    match real_text(l.cpuset_mems) {
        Some(t) => write_plan(path, "cpuset.mems"@, t, WriteKind::Needed),
        None => {
            let effective = match files.parent_mems {
                Some(t) => text::trim_of(t@),
                None => ""@,
            };
            if files.has("cpuset.mems"@) && without_mems(files) && effective.len() > 0 {
                write_plan(path, "cpuset.mems"@, effective, WriteKind::Tried)
            } else {
                no_plan()
            }
        },
    }
}

/// The processors.
pub open spec fn cpus_plan(path: Seq<char>, l: ResourceLimits) -> Plan {
    match real_text(l.cpuset_cpus) {
        Some(t) => write_plan(path, "cpuset.cpus"@, t, WriteKind::Needed),
        None => no_plan(),
    }
}

/// The further controls that may be set.
pub open spec fn allowed() -> Seq<Seq<char>> {
    seq![
        "cpu.max.burst"@,
        "cpu.uclamp.min"@,
        "cpu.uclamp.max"@,
        "memory.min"@,
        "memory.low"@,
        "memory.high"@,
        "memory.max"@,
        "memory.swap.max"@,
        "memory.oom.group"@,
        "pids.max"@,
    ]
}

/// One further control.
pub open spec fn control_plan(
    path: Seq<char>,
    key: Seq<char>,
    value: Seq<char>,
    files: CgroupFiles,
) -> Plan {
    let v = text::trim_of(value);
    if text::place_of(allowed(), key) is None {
        fault_plan("unsupported OCI LinuxResources.unified key "@ + text::debug_text(key))
    } else if v.len() == 0 || v.contains('\n') || v.contains('\r') {
        fault_plan("invalid value for OCI unified key "@ + text::debug_text(key))
    } else if !files.has(key) {
        fault_plan(
            "OCI unified key "@ + text::debug_text(key) + " is unavailable in guest cgroup v2"@,
        )
    } else {
        write_plan(path, key, v, WriteKind::Unified)
    }
}

/// The further controls with these keys.
pub open spec fn controls_plan(
    path: Seq<char>,
    keys: Seq<Seq<char>>,
    m: Map<Seq<char>, Seq<char>>,
    files: CgroupFiles,
) -> Plan
    decreases keys.len(),
{
    if keys.len() == 0 {
        no_plan()
    } else {
        controls_plan(path, keys.drop_last(), m, files).then_do(
            control_plan(path, keys.last(), m[keys.last()], files),
        )
    }
}

/// The further controls, in the order of their keys.
pub open spec fn unified_plan(path: Seq<char>, l: ResourceLimits, files: CgroupFiles) -> Plan {
    let m = labels::labels_view(l.unified@);
    controls_plan(path, text::ordered(m.dom()), m, files)
}

/// All limits.
pub open spec fn limits_plan(path: Seq<char>, l: ResourceLimits, files: CgroupFiles) -> Plan {
    cpu_plan(path, l, files).then_do(weight_plan(path, l)).then_do(memory_plan(path, l)).then_do(
        reservation_plan(path, l, files),
    ).then_do(swap_plan(path, l, files)).then_do(pids_plan(path, l)).then_do(
        mems_plan(path, l, files),
    ).then_do(cpus_plan(path, l)).then_do(unified_plan(path, l, files))
}

impl Schedule<LimitWrite> {
    /// The writes and the error are those of the plan.
    pub open spec fn follows(self, p: Plan) -> bool {
        limits_view(self.steps@) == p.writes && text::optional_string(self.fault) == p.fault
    }

    /// Nothing to do.
    fn nothing() -> (r: Schedule<LimitWrite>)
        ensures
            r.follows(no_plan()),
    {
        let r = Schedule { steps: Vec::new(), fault: None };
        assert(limits_view(r.steps@) =~= Seq::<Limit>::empty());
        r
    }

    /// An error.
    fn failing(e: String) -> (r: Schedule<LimitWrite>)
        ensures
            r.follows(fault_plan(e@)),
    {
        let r = Schedule { steps: Vec::new(), fault: Some(e) };
        assert(limits_view(r.steps@) =~= Seq::<Limit>::empty());
        r
    }

    /// One write.
    fn writing(path: &str, name: &str, value: String, kind: WriteKind) -> (r: Schedule<LimitWrite>)
        ensures
            r.follows(write_plan(path@, name@, value@, kind)),
    {
        let mut steps: Vec<LimitWrite> = Vec::new();
        let w = LimitWrite { path: join(path, name), value, kind };
        steps.push(w);
        assert(limits_view(steps@) =~= seq![w.view()]);
        Schedule { steps, fault: None }
    }

    /// This schedule, and the next one unless this one ends in an error.
    fn and_do(self, next: Schedule<LimitWrite>) -> (r: Schedule<LimitWrite>)
        ensures
            forall|p: Plan, q: Plan|
                self.follows(p) && next.follows(q) ==> r.follows(#[trigger] p.then_do(q)),
    {
        let ghost first = self;
        if self.fault.is_some() {
            return self;
        }
        let mut steps = self.steps;
        let mut more = next.steps;
        let ghost a = steps@;
        let ghost b = more@;
        steps.append(&mut more);
        assert(limits_view(steps@) =~= limits_view(a) + limits_view(b));
        Schedule { steps, fault: next.fault }
    }
}

/// The quota and the period that are in force.
fn read_cpu(cpu_max: &Option<String>) -> (r: (String, u64))
    ensures
        (r.0@, r.1 as nat) == current_cpu(text::optional_string(*cpu_max)),
{
    let parts = match cpu_max {
        Some(t) => words(t.as_str()),
        None => words("max 100000"),
    };
    let ghost all = text::views(parts@);
    assert(all.len() == parts.len());
    let quota = if parts.len() > 0 {
        parts[0].clone()
    } else {
        "max".to_owned()
    };
    let period: u64 = if parts.len() > 1 {
        match parse_u64(parts[1].as_str()) {
            Some(n) => n,
            None => 100_000,
        }
    } else {
        100_000
    };
    (quota, period)
}

/// Plans the limit on processor time.
fn plan_cpu(path: &str, l: &ResourceLimits, files: &CgroupFiles) -> (r: Schedule<LimitWrite>)
    ensures
        r.follows(cpu_plan(path@, *l, *files)),
{
    if l.cpu_quota.is_none() && l.cpu_period.is_none() {
        return Schedule::nothing();
    }
    let (quota_now, period_now) = read_cpu(&files.cpu_max);
    let quota = match l.cpu_quota {
        Some(v) => if v > 0 {
            i64_text(v)
        } else {
            "max".to_owned()
        },
        None => quota_now,
    };
    let period: u64 = match l.cpu_period {
        Some(v) => if v > 0 {
            v
        } else {
            period_now
        },
        None => period_now,
    };
    let value = cat(cat(quota.as_str(), " ").as_str(), u64_text(period).as_str());
    Schedule::writing(path, "cpu.max", value, WriteKind::Needed)
}

/// The weight for a number of shares.
pub fn cpu_weight(shares: u64) -> (r: u64)
    ensures
        r == weight_of(shares as nat),
{
    let clamped: u64 = if shares < 2 {
        2
    } else if shares > 262_144 {
        262_144
    } else {
        shares
    };
    1 + (clamped - 2) * 9_999 / 262_142
}

/// More shares never weigh less, and every weight is one that the system takes.
pub proof fn law_weight_follows_shares(a: nat, b: nat)
    requires
        a <= b,
    ensures
        1 <= weight_of(a) <= weight_of(b) <= 10_000,
{
}

/// Plans the share of processor time.
fn plan_weight(path: &str, l: &ResourceLimits) -> (r: Schedule<LimitWrite>)
    ensures
        r.follows(weight_plan(path@, *l)),
{
    match l.cpu_shares {
        Some(shares) => if shares > 0 {
            Schedule::writing(
                path,
                "cpu.weight",
                u64_text(cpu_weight(shares)),
                WriteKind::Needed,
            )
        } else {
            Schedule::nothing()
        },
        None => Schedule::nothing(),
    }
}

/// Plans the write of an amount of memory.
fn plan_amount(path: &str, file: &str, n: i64, name: &str) -> (r: Schedule<LimitWrite>)
    ensures
        r.follows(amount_plan(path@, file@, n, name@)),
{
    if n == 0 {
        Schedule::nothing()
    } else if n == -1 {
        Schedule::writing(path, file, "max".to_owned(), WriteKind::Needed)
    } else if n > 0 {
        Schedule::writing(path, file, i64_text(n), WriteKind::Needed)
    } else {
        let head = cat(cat("invalid OCI ", name).as_str(), " value ");
        Schedule::failing(cat(head.as_str(), i64_text(n).as_str()))
    }
}

/// Plans the limit on memory.
fn plan_memory(path: &str, l: &ResourceLimits) -> (r: Schedule<LimitWrite>)
    ensures
        r.follows(memory_plan(path@, *l)),
{
    match l.memory_limit_bytes {
        Some(n) => plan_amount(path, "memory.max", n, "memory.limit"),
        None => Schedule::nothing(),
    }
}

/// Plans the memory that is protected.
fn plan_reservation(path: &str, l: &ResourceLimits, files: &CgroupFiles) -> (r: Schedule<
    LimitWrite,
>)
    ensures
        r.follows(reservation_plan(path@, *l, *files)),
{
    match l.memory_reservation_bytes {
        Some(n) => if !among(&files.present, "memory.low") {
            Schedule::failing(
                "OCI memory.reservation requested but memory.low is unavailable".to_owned(),
            )
        } else {
            plan_amount(path, "memory.low", n, "memory.reservation")
        },
        None => Schedule::nothing(),
    }
}

/// The limit on memory that is in force.
pub fn current_memory_limit_for_swap(content: &Option<String>) -> (r: i64)
    ensures
        r == current_memory(text::optional_string(*content)),
{
    match content {
        None => 0,
        Some(t) => {
            let v = trim(t.as_str());
            if same(v.as_str(), "max") {
                -1
            } else {
                match parse_i64(v.as_str()) {
                    Some(i) => i,
                    None => 0,
                }
            }
        },
    }
}

/// The limit on swap space alone. A configuration limits memory and swap space
/// together, the control group limits swap space.
pub fn oci_swap_to_cgroup2(memory_swap: i64, memory: i64) -> (r: Result<Option<String>, String>)
    ensures
        match (r, swap_of(memory_swap as int, memory as int)) {
            (Ok(v), Ok(s)) => text::optional_string(v) == s,
            (Err(m), Err(e)) => m@ == e,
            _ => false,
        },
{
    if memory_swap == -1 || (memory == -1 && memory_swap == 0) {
        Ok(Some("max".to_owned()))
    } else if memory_swap == 0 {
        Ok(None)
    } else if memory == -1 && memory_swap > 0 {
        Ok(Some(i64_text(memory_swap)))
    } else if memory == 0 {
        Err("unable to set OCI memory.swap without a memory limit".to_owned())
    } else if memory < -1 {
        Err(cat("invalid OCI memory.limit value ", i64_text(memory).as_str()))
    } else if memory_swap < -1 {
        Err(cat("invalid OCI memory.swap value ", i64_text(memory_swap).as_str()))
    } else if memory_swap < memory {
        let head = cat("OCI memory+swap limit (", i64_text(memory_swap).as_str());
        let middle = cat(head.as_str(), ") must be >= memory limit (");
        Err(cat(cat(middle.as_str(), i64_text(memory).as_str()).as_str(), ")"))
    } else {
        Ok(Some(i64_text(memory_swap - memory)))
    }
}

/// Memory and swap space add up to what the configuration allows.
pub proof fn law_swap_adds_up(memory_swap: i64, memory: i64)
    requires
        0 < memory <= memory_swap,
    ensures
        exists|swap: int|
            memory + swap == memory_swap && swap_of(memory_swap as int, memory as int) == Ok::<
                Option<Seq<char>>,
                Seq<char>,
            >(Some(#[trigger] text::signed_text(swap))),
{
    let swap = memory_swap - memory;
    assert(swap_of(memory_swap as int, memory as int) == Ok::<Option<Seq<char>>, Seq<char>>(
        Some(text::signed_text(swap)),
    ));
}

/// Plans the limit on swap space.
fn plan_swap(path: &str, l: &ResourceLimits, files: &CgroupFiles) -> (r: Schedule<LimitWrite>)
    ensures
        r.follows(swap_plan(path@, *l, *files)),
{
    let swap: i64 = match l.memory_swap_bytes {
        None => {
            return Schedule::nothing();
        },
        Some(n) => n,
    };
    let memory: i64 = match l.memory_limit_bytes {
        Some(n) => n,
        None => current_memory_limit_for_swap(&files.memory_max),
    };
    match oci_swap_to_cgroup2(swap, memory) {
        Err(e) => Schedule::failing(e),
        Ok(None) => Schedule::nothing(),
        Ok(Some(v)) => if among(&files.present, "memory.swap.max") {
            Schedule::writing(path, "memory.swap.max", v, WriteKind::Needed)
        } else if same(v.as_str(), "max") || same(v.as_str(), "0") {
            Schedule::nothing()
        } else {
            Schedule::failing(
                "OCI memory.swap requested but memory.swap.max is unavailable".to_owned(),
            )
        },
    }
}

/// Plans the limit on processes.
fn plan_pids(path: &str, l: &ResourceLimits) -> (r: Schedule<LimitWrite>)
    ensures
        r.follows(pids_plan(path@, *l)),
{
    match l.pids_limit {
        None => Schedule::nothing(),
        Some(n) => {
            let value = if n > 0 {
                i64_text(n)
            } else {
                "max".to_owned()
            };
            Schedule::writing(path, "pids.max", value, WriteKind::Needed)
        },
    }
}

/// Tells whether a text is empty.
fn empty(s: &str) -> (r: bool)
    ensures
        r == (s@.len() == 0),
{
    chars_of(s).len() == 0
}

/// Plans the memory nodes.
fn plan_mems(path: &str, l: &ResourceLimits, files: &CgroupFiles) -> (r: Schedule<LimitWrite>)
    ensures
        r.follows(mems_plan(path@, *l, *files)),
{
    proof {
        reveal_strlit("");
    }
    if let Some(t) = &l.cpuset_mems {
        if !empty(t.as_str()) {
            return Schedule::writing(path, "cpuset.mems", t.clone(), WriteKind::Needed);
        }
    }
    let effective = match &files.parent_mems {
        Some(t) => trim(t.as_str()),
        None => "".to_owned(),
    };
    let unset = match &files.own_mems {
        Some(t) => empty(trim(t.as_str()).as_str()),
        None => false,
    };
    if among(&files.present, "cpuset.mems") && unset && !empty(effective.as_str()) {
        Schedule::writing(path, "cpuset.mems", effective, WriteKind::Tried)
    } else {
        Schedule::nothing()
    }
}

/// Plans the processors.
fn plan_cpus(path: &str, l: &ResourceLimits) -> (r: Schedule<LimitWrite>)
    ensures
        r.follows(cpus_plan(path@, *l)),
{
    if let Some(t) = &l.cpuset_cpus {
        if !empty(t.as_str()) {
            return Schedule::writing(path, "cpuset.cpus", t.clone(), WriteKind::Needed);
        }
    }
    Schedule::nothing()
}

/// Plans one further control.
fn plan_control(path: &str, key: &str, value: &str, files: &CgroupFiles) -> (r: Schedule<
    LimitWrite,
>)
    ensures
        r.follows(control_plan(path@, key@, value@, *files)),
{
    let table: [&'static str; 10] = [
        "cpu.max.burst",
        "cpu.uclamp.min",
        "cpu.uclamp.max",
        "memory.min",
        "memory.low",
        "memory.high",
        "memory.max",
        "memory.swap.max",
        "memory.oom.group",
        "pids.max",
    ];
    assert(text::names_of(table@) =~= allowed());
    if place(&table, key).is_none() {
        return Schedule::failing(
            cat("unsupported OCI LinuxResources.unified key ", debug_quoted(key).as_str()),
        );
    }
    let v = trim(value);
    if empty(v.as_str()) || has_char(v.as_str(), '\n') || has_char(v.as_str(), '\r') {
        return Schedule::failing(
            cat("invalid value for OCI unified key ", debug_quoted(key).as_str()),
        );
    }
    if !among(&files.present, key) {
        let head = cat("OCI unified key ", debug_quoted(key).as_str());
        return Schedule::failing(cat(head.as_str(), " is unavailable in guest cgroup v2"));
    }
    Schedule::writing(path, key, v, WriteKind::Unified)
}

/// Plans the further controls.
pub fn apply_unified_limits(
    path: &str,
    unified: &Vec<(String, String)>,
    files: &CgroupFiles,
) -> (r: Schedule<LimitWrite>)
    ensures
        r.follows(
            controls_plan(
                path@,
                text::ordered(labels::labels_view(unified@).dom()),
                labels::labels_view(unified@),
                *files,
            ),
        ),
{
    let keys = label_keys(unified);
    let ghost all = text::views(keys@);
    let ghost m = labels::labels_view(unified@);
    let mut out: Schedule<LimitWrite> = Schedule::nothing();
    let mut i: usize = 0;
    assert(text::views(keys@.take(0)) =~= Seq::<Seq<char>>::empty());
    while i < keys.len()
        invariant
            i <= keys.len(),
            all == text::views(keys@),
            m == labels::labels_view(unified@),
            all.to_set() == m.dom(),
            out.follows(controls_plan(path@, text::views(keys@.take(i as int)), m, *files)),
        decreases keys.len() - i,
    {
        let key = keys[i].as_str();
        proof {
            let next = text::views(keys@.take(i + 1));
            assert(next.drop_last() =~= text::views(keys@.take(i as int)));
            assert(next.last() == key@);
            assert(all[i as int] == key@);
            assert(all.to_set().contains(key@));
        }
        if let Some(value) = get_label(unified, key) {
            out = out.and_do(plan_control(path, key, value, files));
        }
        i += 1;
    }
    assert(keys@.take(keys.len() as int) =~= keys@);
    out
}

/// Plans all limits of a control group.
pub fn apply_resource_limits(path: &str, resources: &ResourceLimits, files: &CgroupFiles) -> (r:
    Schedule<LimitWrite>)
    ensures
        r.follows(limits_plan(path@, *resources, *files)),
{
    plan_cpu(path, resources, files).and_do(plan_weight(path, resources)).and_do(
        plan_memory(path, resources),
    ).and_do(plan_reservation(path, resources, files)).and_do(
        plan_swap(path, resources, files),
    ).and_do(plan_pids(path, resources)).and_do(plan_mems(path, resources, files)).and_do(
        plan_cpus(path, resources),
    ).and_do(apply_unified_limits(path, &resources.unified, files))
}

/// Nothing is given.
pub open spec fn nothing_given(l: ResourceLimits) -> bool {
    &&& l.cpu_quota is None
    &&& l.cpu_period is None
    &&& l.cpu_shares is None
    &&& real_text(l.cpuset_cpus) is None
    &&& real_text(l.cpuset_mems) is None
    &&& l.memory_limit_bytes is None
    &&& l.memory_reservation_bytes is None
    &&& l.memory_swap_bytes is None
    &&& l.pids_limit is None
    &&& l.unified@.len() == 0
}

/// What is not given stays as it is: where nothing is, nothing is written to a group that
/// has its memory nodes, and there is no error.
pub proof fn law_absent_limits_stay(path: Seq<char>, l: ResourceLimits, files: CgroupFiles)
    requires
        nothing_given(l),
        !without_mems(files),
    ensures
        limits_plan(path, l, files) == no_plan(),
{
    let none = Seq::<Seq<char>>::empty();
    assert(none.to_set() =~= labels::labels_view(l.unified@).dom());
    text::lemma_ordered(none);
    assert(unified_plan(path, l, files) == no_plan());
    assert(limits_plan(path, l, files).writes =~= no_plan().writes);
}

/// The files that limits are written to.
pub open spec fn limit_files() -> Seq<Seq<char>> {
    seq![
        "cpu.max"@,
        "cpu.weight"@,
        "memory.max"@,
        "memory.low"@,
        "memory.swap.max"@,
        "pids.max"@,
        "cpuset.mems"@,
        "cpuset.cpus"@,
    ] + allowed()
}

/// The write is to one of the known files of the group.
pub open spec fn known(path: Seq<char>, w: Limit) -> bool {
    exists|k: int|
        0 <= k < limit_files().len() && w.path == util::path_join(
            path,
            #[trigger] limit_files()[k],
        )
}

/// Every write of a plan is to one of the known files of the group.
pub open spec fn confined(path: Seq<char>, p: Plan) -> bool {
    forall|i: int| 0 <= i < p.writes.len() ==> known(path, #[trigger] p.writes[i])
}

/// Plans that follow each other stay confined.
proof fn lemma_confined_then(path: Seq<char>, p: Plan, q: Plan)
    requires
        confined(path, p),
        confined(path, q),
    ensures
        confined(path, p.then_do(q)),
{
    let r = p.then_do(q);
    assert forall|i: int| 0 <= i < r.writes.len() implies known(path, #[trigger] r.writes[i]) by {
        if p.fault is None && i >= p.writes.len() {
            assert(r.writes[i] == q.writes[i - p.writes.len()]);
        } else {
            assert(r.writes[i] == p.writes[i]);
        }
    }
}

/// A write to a known file is confined.
proof fn lemma_confined_write(path: Seq<char>, k: int, value: Seq<char>, kind: WriteKind)
    requires
        0 <= k < limit_files().len(),
    ensures
        confined(path, write_plan(path, limit_files()[k], value, kind)),
{
}

/// Further controls are confined.
proof fn lemma_controls_confined(
    path: Seq<char>,
    keys: Seq<Seq<char>>,
    m: Map<Seq<char>, Seq<char>>,
    files: CgroupFiles,
)
    ensures
        confined(path, controls_plan(path, keys, m, files)),
    decreases keys.len(),
{
    if keys.len() > 0 {
        lemma_controls_confined(path, keys.drop_last(), m, files);
        let key = keys.last();
        let p = control_plan(path, key, m[key], files);
        if p.writes.len() > 0 {
            text::lemma_place(allowed(), key);
            let k = text::place_of(allowed(), key)->Some_0;
            assert(limit_files()[8 + k] == key);
            lemma_confined_write(path, 8 + k, text::trim_of(m[key]), WriteKind::Unified);
        }
        lemma_confined_then(path, controls_plan(path, keys.drop_last(), m, files), p);
    }
}

/// Setting limits writes to known files of the control group only, whatever keys the
/// configuration holds.
pub proof fn law_limits_are_confined(path: Seq<char>, l: ResourceLimits, files: CgroupFiles)
    ensures
        confined(path, limits_plan(path, l, files)),
{
    assert forall|k: int, value: Seq<char>, kind: WriteKind|
        0 <= k < limit_files().len() implies confined(
        path,
        #[trigger] write_plan(path, limit_files()[k], value, kind),
    ) by {
        lemma_confined_write(path, k, value, kind);
    }
    assert(limit_files()[0] == "cpu.max"@);
    assert(limit_files()[1] == "cpu.weight"@);
    assert(limit_files()[2] == "memory.max"@);
    assert(limit_files()[3] == "memory.low"@);
    assert(limit_files()[4] == "memory.swap.max"@);
    assert(limit_files()[5] == "pids.max"@);
    assert(limit_files()[6] == "cpuset.mems"@);
    assert(limit_files()[7] == "cpuset.cpus"@);
    let a = cpu_plan(path, l, files);
    let b = a.then_do(weight_plan(path, l));
    let c = b.then_do(memory_plan(path, l));
    let d = c.then_do(reservation_plan(path, l, files));
    let e = d.then_do(swap_plan(path, l, files));
    let f = e.then_do(pids_plan(path, l));
    let g = f.then_do(mems_plan(path, l, files));
    let h = g.then_do(cpus_plan(path, l));
    lemma_confined_then(path, a, weight_plan(path, l));
    lemma_confined_then(path, b, memory_plan(path, l));
    lemma_confined_then(path, c, reservation_plan(path, l, files));
    lemma_confined_then(path, d, swap_plan(path, l, files));
    lemma_confined_then(path, e, pids_plan(path, l));
    lemma_confined_then(path, f, mems_plan(path, l, files));
    lemma_confined_then(path, g, cpus_plan(path, l));
    let m = labels::labels_view(l.unified@);
    lemma_controls_confined(path, text::ordered(m.dom()), m, files);
    lemma_confined_then(path, h, unified_plan(path, l, files));
}

// ---------------------------------------------------------------------------
// Members
// ---------------------------------------------------------------------------

/// The process numbers in lines of text; other lines do not count.
pub open spec fn pids_in(lines: Seq<Seq<char>>) -> Seq<u32>
    decreases lines.len(),
{
    if lines.len() == 0 {
        Seq::empty()
    } else {
        match text::unsigned_value(text::trim_of(lines.last()), u32::MAX as nat) {
            Some(n) => pids_in(lines.drop_last()).push(n as u32),
            None => pids_in(lines.drop_last()),
        }
    }
}

/// The processes of a control group, from the content of `cgroup.procs`.
pub fn pids_from_cgroup(content: &str) -> (r: Vec<u32>)
    ensures
        r@ == pids_in(text::lines_of(content@)),
{
    let all = lines(content);
    let mut out: Vec<u32> = Vec::new();
    let mut i: usize = 0;
    while i < all.len()
        invariant
            i <= all.len(),
            out@ == pids_in(text::views(all@.take(i as int))),
        decreases all.len() - i,
    {
        proof {
            let next = text::views(all@.take(i + 1));
            assert(next.drop_last() =~= text::views(all@.take(i as int)));
            assert(next.last() == all@[i as int]@);
        }
        if let Some(n) = parse_u32(trim(all[i].as_str()).as_str()) {
            out.push(n);
        }
        i += 1;
    }
    assert(all@.take(all.len() as int) =~= all@);
    out
}

/// How a container is frozen or thawed.
#[derive(Debug)]
pub enum FreezeStep {
    /// Write the value to the file.
    Write { path: String, value: &'static str },
    /// Send the signal to every process of the group.
    Signal(i32),
}

pub const SIGKILL: i32 = 9;

pub const SIGCONT: i32 = 18;

pub const SIGSTOP: i32 = 19;

/// How a container is frozen or thawed: by a file of its control group, or, where there
/// is none, by signals.
pub fn freeze_step(path: &str, freeze: bool, has_file: bool) -> (r: FreezeStep)
    ensures
        if has_file {
            r matches FreezeStep::Write { path: p, value } && p@ == util::path_join(
                path@,
                "cgroup.freeze"@,
            ) && value@ == if freeze {
                "1"@
            } else {
                "0"@
            }
        } else {
            r == FreezeStep::Signal(
                if freeze {
                    SIGSTOP
                } else {
                    SIGCONT
                },
            )
        },
{
    if has_file {
        FreezeStep::Write {
            path: join(path, "cgroup.freeze"),
            value: if freeze {
                "1"
            } else {
                "0"
            },
        }
    } else {
        FreezeStep::Signal(
            if freeze {
                SIGSTOP
            } else {
                SIGCONT
            },
        )
    }
}

/// How often the removal of a control group is tried.
pub const REMOVAL_ATTEMPTS: u32 = 20;

/// The pause between two attempts, in milliseconds.
pub const REMOVAL_PAUSE_MILLIS: u64 = 25;

pub const EBUSY: i32 = 16;

pub const ENOTEMPTY: i32 = 39;

/// Tells whether to try the removal of a control group again: the group is still in use,
/// and there are attempts left. `tried` counts the attempts so far.
pub fn try_removal_again(tried: u32, errno: i32) -> (r: bool)
    ensures
        r == (tried < REMOVAL_ATTEMPTS && (errno == EBUSY || errno == ENOTEMPTY)),
{
    tried < REMOVAL_ATTEMPTS && (errno == EBUSY || errno == ENOTEMPTY)
}

// ---------------------------------------------------------------------------
// Counters
// ---------------------------------------------------------------------------

/// The number that a line gives to a counter.
pub open spec fn line_counter(line: Seq<char>, key: Seq<char>) -> Option<nat> {
    match text::split_once_on(line, ' ') {
        Some((name, value)) => if name == key {
            text::unsigned_value(text::trim_of(value), u64::MAX as nat)
        } else {
            None
        },
        None => None,
    }
}

/// The number that the first line with a number gives to a counter.
pub open spec fn counter_in(lines: Seq<Seq<char>>, key: Seq<char>) -> Option<nat>
    decreases lines.len(),
{
    if lines.len() == 0 {
        None
    } else {
        match counter_in(lines.drop_last(), key) {
            Some(n) => Some(n),
            None => line_counter(lines.last(), key),
        }
    }
}

/// A counter of a file; 0 where it is not there.
pub open spec fn counter(content: Option<String>, key: Seq<char>) -> nat {
    match content {
        None => 0,
        Some(t) => match counter_in(text::lines_of(t@), key) {
            Some(n) => n,
            None => 0,
        },
    }
}

/// A counter of a file.
pub fn parse_u64_field(content: &Option<String>, key: &str) -> (r: u64)
    ensures
        r == counter(*content, key@),
{
    let all = match content {
        None => {
            return 0;
        },
        Some(t) => lines(t.as_str()),
    };
    let mut found: Option<u64> = None;
    let mut i: usize = 0;
    while i < all.len()
        invariant
            i <= all.len(),
            match found {
                Some(n) => counter_in(text::views(all@.take(i as int)), key@) == Some(n as nat),
                None => counter_in(text::views(all@.take(i as int)), key@) is None,
            },
        decreases all.len() - i,
    {
        proof {
            let next = text::views(all@.take(i + 1));
            assert(next.drop_last() =~= text::views(all@.take(i as int)));
            assert(next.last() == all@[i as int]@);
        }
        if found.is_none() {
            if let Some((name, value)) = split_once(all[i].as_str(), ' ') {
                if same(name.as_str(), key) {
                    found = parse_u64(trim(value.as_str()).as_str());
                }
            }
        }
        i += 1;
    }
    assert(all@.take(all.len() as int) =~= all@);
    match found {
        Some(n) => n,
        None => 0,
    }
}

/// The number in a file; 0 where there is none.
pub open spec fn number_in(content: Option<String>) -> nat {
    match content {
        None => 0,
        Some(t) => match text::unsigned_value(text::trim_of(t@), u64::MAX as nat) {
            Some(n) => n,
            None => 0,
        },
    }
}

/// The number in a file.
pub fn read_u64_file(content: &Option<String>) -> (r: u64)
    ensures
        r == number_in(*content),
{
    match content {
        None => 0,
        Some(t) => match parse_u64(trim(t.as_str()).as_str()) {
            Some(n) => n,
            None => 0,
        },
    }
}

/// The limit in a file; `max` counts as 0.
pub open spec fn limit_in(content: Option<String>) -> Option<nat> {
    match content {
        None => None,
        Some(t) => if text::trim_of(t@) == "max"@ {
            Some(0)
        } else {
            text::unsigned_value(text::trim_of(t@), u64::MAX as nat)
        },
    }
}

/// The limit in a file.
pub fn read_cgroup_limit(content: &Option<String>) -> (r: Option<u64>)
    ensures
        match r {
            Some(n) => limit_in(*content) == Some(n as nat),
            None => limit_in(*content) is None,
        },
{
    match content {
        None => None,
        Some(t) => {
            let v = trim(t.as_str());
            if same(v.as_str(), "max") {
                Some(0)
            } else {
                parse_u64(v.as_str())
            }
        },
    }
}

/// A limit, or 0.
pub open spec fn limit_or_zero(content: Option<String>) -> nat {
    match limit_in(content) {
        Some(n) => n,
        None => 0,
    }
}

fn read_limit_or_zero(content: &Option<String>) -> (r: u64)
    ensures
        r == limit_or_zero(*content),
{
    match read_cgroup_limit(content) {
        Some(n) => n,
        None => 0,
    }
}

/// The counters of memory events are those of the file.
pub open spec fn events_of(e: CgroupEvents, content: Option<String>) -> bool {
    &&& e.low == counter(content, "low"@)
    &&& e.high == counter(content, "high"@)
    &&& e.max == counter(content, "max"@)
    &&& e.oom == counter(content, "oom"@)
    &&& e.oom_kill == counter(content, "oom_kill"@)
    &&& e.oom_group_kill == counter(content, "oom_group_kill"@)
}

/// The counters of memory events, from the content of `memory.events`.
pub fn container_cgroup_events(content: &Option<String>) -> (r: CgroupEvents)
    ensures
        events_of(r, *content),
{
    CgroupEvents {
        low: parse_u64_field(content, "low"),
        high: parse_u64_field(content, "high"),
        max: parse_u64_field(content, "max"),
        oom: parse_u64_field(content, "oom"),
        oom_kill: parse_u64_field(content, "oom_kill"),
        oom_group_kill: parse_u64_field(content, "oom_group_kill"),
    }
}

/// The files of a control group that counters are read from.
#[derive(Debug)]
pub struct StatFiles {
    pub cpu_stat: Option<String>,
    pub memory_stat: Option<String>,
    pub memory_events: Option<String>,
    pub memory_current: Option<String>,
    pub memory_max: Option<String>,
    pub memory_peak: Option<String>,
    pub memory_swap_current: Option<String>,
    pub memory_swap_max: Option<String>,
    pub pids_current: Option<String>,
    pub pids_max: Option<String>,
}

/// The counters are those of the files.
pub open spec fn stats_of(s: ContainerStats, f: StatFiles) -> bool {
    &&& s.cpu_usage_usec == counter(f.cpu_stat, "usage_usec"@)
    &&& s.cpu_user_usec == counter(f.cpu_stat, "user_usec"@)
    &&& s.cpu_system_usec == counter(f.cpu_stat, "system_usec"@)
    &&& s.cpu_nr_periods == counter(f.cpu_stat, "nr_periods"@)
    &&& s.cpu_nr_throttled == counter(f.cpu_stat, "nr_throttled"@)
    &&& s.cpu_throttled_usec == counter(f.cpu_stat, "throttled_usec"@)
    &&& s.memory_usage_bytes == number_in(f.memory_current)
    &&& s.memory_limit_bytes == limit_or_zero(f.memory_max)
    &&& s.memory_peak_bytes == number_in(f.memory_peak)
    &&& s.memory_swap_usage_bytes == number_in(f.memory_swap_current)
    &&& s.memory_swap_limit_bytes == limit_or_zero(f.memory_swap_max)
    &&& s.memory_anon_bytes == counter(f.memory_stat, "anon"@)
    &&& s.memory_file_bytes == counter(f.memory_stat, "file"@)
    &&& s.memory_anon_thp_bytes == counter(f.memory_stat, "anon_thp"@)
    &&& s.memory_file_mapped_bytes == counter(f.memory_stat, "file_mapped"@)
    &&& s.memory_dirty_bytes == counter(f.memory_stat, "file_dirty"@)
    &&& s.memory_writeback_bytes == counter(f.memory_stat, "file_writeback"@)
    &&& s.memory_pgfault == counter(f.memory_stat, "pgfault"@)
    &&& s.memory_pgmajfault == counter(f.memory_stat, "pgmajfault"@)
    &&& s.memory_inactive_anon_bytes == counter(f.memory_stat, "inactive_anon"@)
    &&& s.memory_active_anon_bytes == counter(f.memory_stat, "active_anon"@)
    &&& s.memory_total_inactive_file_bytes == counter(f.memory_stat, "inactive_file"@)
    &&& s.memory_active_file_bytes == counter(f.memory_stat, "active_file"@)
    &&& s.memory_unevictable_bytes == counter(f.memory_stat, "unevictable"@)
    &&& s.memory_events_max == counter(f.memory_events, "max"@)
    &&& s.memory_events_oom == counter(f.memory_events, "oom"@)
    &&& s.memory_events_oom_kill == counter(f.memory_events, "oom_kill"@)
    &&& s.pids_current == number_in(f.pids_current)
    &&& s.pids_limit == limit_or_zero(f.pids_max)
}

/// The counters of a container.
pub fn container_stats(f: &StatFiles) -> (r: ContainerStats)
    ensures
        stats_of(r, *f),
{
    let events = container_cgroup_events(&f.memory_events);
    ContainerStats {
        cpu_usage_usec: parse_u64_field(&f.cpu_stat, "usage_usec"),
        cpu_user_usec: parse_u64_field(&f.cpu_stat, "user_usec"),
        cpu_system_usec: parse_u64_field(&f.cpu_stat, "system_usec"),
        cpu_nr_periods: parse_u64_field(&f.cpu_stat, "nr_periods"),
        cpu_nr_throttled: parse_u64_field(&f.cpu_stat, "nr_throttled"),
        cpu_throttled_usec: parse_u64_field(&f.cpu_stat, "throttled_usec"),
        memory_usage_bytes: read_u64_file(&f.memory_current),
        memory_limit_bytes: read_limit_or_zero(&f.memory_max),
        memory_peak_bytes: read_u64_file(&f.memory_peak),
        memory_swap_usage_bytes: read_u64_file(&f.memory_swap_current),
        memory_swap_limit_bytes: read_limit_or_zero(&f.memory_swap_max),
        memory_anon_bytes: parse_u64_field(&f.memory_stat, "anon"),
        memory_file_bytes: parse_u64_field(&f.memory_stat, "file"),
        memory_anon_thp_bytes: parse_u64_field(&f.memory_stat, "anon_thp"),
        memory_file_mapped_bytes: parse_u64_field(&f.memory_stat, "file_mapped"),
        memory_dirty_bytes: parse_u64_field(&f.memory_stat, "file_dirty"),
        memory_writeback_bytes: parse_u64_field(&f.memory_stat, "file_writeback"),
        memory_pgfault: parse_u64_field(&f.memory_stat, "pgfault"),
        memory_pgmajfault: parse_u64_field(&f.memory_stat, "pgmajfault"),
        memory_inactive_anon_bytes: parse_u64_field(&f.memory_stat, "inactive_anon"),
        memory_active_anon_bytes: parse_u64_field(&f.memory_stat, "active_anon"),
        memory_total_inactive_file_bytes: parse_u64_field(&f.memory_stat, "inactive_file"),
        memory_active_file_bytes: parse_u64_field(&f.memory_stat, "active_file"),
        memory_unevictable_bytes: parse_u64_field(&f.memory_stat, "unevictable"),
        memory_events_max: events.max,
        memory_events_oom: events.oom,
        memory_events_oom_kill: events.oom_kill,
        pids_current: read_u64_file(&f.pids_current),
        pids_limit: read_limit_or_zero(&f.pids_max),
    }
}

} // verus!
