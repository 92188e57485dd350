//! The process that a configuration asks for.

use vstd::prelude::*;

use crate::container::oci::seccomp::{Profile, SeccompProfile};
use crate::json;
use crate::json::{Js, Json};
use crate::text;
use crate::text::{cat, debug_quoted, place, split_once, strip_prefix, to_upper};

verus! {

/// A limit on a resource of the process.
#[derive(Debug, Clone, Copy, PartialEq, Eq, Structural)]
pub struct ProcessRlimit {
    /// The number that the system gives the resource.
    pub resource: u32,
    pub soft: u64,
    pub hard: u64,
}

/// The capabilities of the process, one bit for each.
#[derive(Debug, Clone, Copy, PartialEq, Eq, Structural)]
pub struct CapabilitySets {
    pub bounding: u64,
    pub effective: u64,
    pub inheritable: u64,
    pub permitted: u64,
    pub ambient: u64,
}

/// The process to run.
#[derive(Debug)]
pub struct ProcessSpec {
    pub rootfs: String,
    pub args: Vec<String>,
    pub env: Vec<(String, String)>,
    pub cwd: String,
    pub uid: u32,
    pub gid: u32,
    pub additional_gids: Vec<u32>,
    pub no_new_privileges: bool,
    pub umask: Option<u32>,
    pub rlimits: Vec<ProcessRlimit>,
    pub capabilities: Option<CapabilitySets>,
    pub seccomp: Option<SeccompProfile>,
}

/// The reading of a process to run.
pub ghost struct Process {
    pub rootfs: Seq<char>,
    pub args: Seq<Seq<char>>,
    pub env: Seq<(Seq<char>, Seq<char>)>,
    pub cwd: Seq<char>,
    pub uid: u32,
    pub gid: u32,
    pub additional_gids: Seq<u32>,
    pub no_new_privileges: bool,
    pub umask: Option<u32>,
    pub rlimits: Seq<ProcessRlimit>,
    pub capabilities: Option<CapabilitySets>,
    pub seccomp: Option<Profile>,
}

/// The reading of name and value pairs.
pub open spec fn pairs_view(v: Seq<(String, String)>) -> Seq<(Seq<char>, Seq<char>)> {
    v.map_values(|p: (String, String)| (p.0@, p.1@))
}

/// The reading of an optional profile.
pub open spec fn profile_view(p: Option<SeccompProfile>) -> Option<Profile> {
    match p {
        Some(x) => Some(x.view()),
        None => None,
    }
}

impl ProcessSpec {
    pub open spec fn view(self) -> Process {
        Process {
            rootfs: self.rootfs@,
            args: text::views(self.args@),
            env: pairs_view(self.env@),
            cwd: self.cwd@,
            uid: self.uid,
            gid: self.gid,
            additional_gids: self.additional_gids@,
            no_new_privileges: self.no_new_privileges,
            umask: self.umask,
            rlimits: self.rlimits@,
            capabilities: self.capabilities,
            seccomp: profile_view(self.seccomp),
        }
    }
}

// ---------------------------------------------------------------------------
// Arguments and environment
// ---------------------------------------------------------------------------

/// The arguments of the process.
pub open spec fn args_of(process: Js) -> Result<Seq<Seq<char>>, Seq<char>> {
    match process.array_at("args"@) {
        None => Err("OCI process.args is required"@),
        Some(items) => match json::texts_of(items) {
            None => Err("process arg must be a string"@),
            Some(args) => if args.len() == 0 {
                Err("OCI process.args must not be empty"@)
            } else {
                Ok(args)
            },
        },
    }
}

/// A variable of the environment: what stands before and after the first `=`.
pub open spec fn variable(entry: Seq<char>) -> (Seq<char>, Seq<char>) {
    match text::split_once_on(entry, '=') {
        Some(p) => p,
        None => (entry, ""@),
    }
}

/// The environment: the strings of a list, each one a variable.
pub open spec fn env_of(process: Js) -> Seq<(Seq<char>, Seq<char>)> {
    match process.array_at("env"@) {
        None => Seq::empty(),
        Some(items) => json::strings_in(items).map_values(|e: Seq<char>| variable(e)),
    }
}

/// Reads the arguments.
fn read_args(process: &Json) -> (r: Result<Vec<String>, String>)
    ensures
        match (r, args_of(process.view())) {
            (Ok(v), Ok(a)) => text::views(v@) == a,
            (Err(m), Err(e)) => m@ == e,
            _ => false,
        },
{
    let items = match process.array_at("args") {
        None => {
            return Err("OCI process.args is required".to_owned());
        },
        Some(items) => items,
    };
    match json::texts(items) {
        None => Err("process arg must be a string".to_owned()),
        Some(args) => {
            assert(text::views(args@).len() == args.len());
            if args.len() == 0 {
                Err("OCI process.args must not be empty".to_owned())
            } else {
                Ok(args)
            }
        },
    }
}

/// Reads the environment.
fn read_env(process: &Json) -> (r: Vec<(String, String)>)
    ensures
        pairs_view(r@) == env_of(process.view()),
{
    let mut out: Vec<(String, String)> = Vec::new();
    match process.array_at("env") {
        None => {
            assert(pairs_view(out@) =~= Seq::<(Seq<char>, Seq<char>)>::empty());
            out
        },
        Some(items) => {
            let entries = json::strings(items);
            let ghost all = text::views(entries@);
            let mut i: usize = 0;
            while i < entries.len()
                invariant
                    i <= entries.len(),
                    all == text::views(entries@),
                    out.len() == i,
                    forall|k: int|
                        0 <= k < i ==> (#[trigger] out@[k].0@, out@[k].1@) == variable(all[k]),
                decreases entries.len() - i,
            {
                match split_once(entries[i].as_str(), '=') {
                    Some((k, v)) => {
                        out.push((k, v));
                    },
                    None => {
                        out.push((entries[i].clone(), "".to_owned()));
                    },
                }
                i += 1;
            }
            assert(pairs_view(out@) =~= all.map_values(|e: Seq<char>| variable(e)));
            out
        },
    }
}

// ---------------------------------------------------------------------------
// Resource limits of the process
// ---------------------------------------------------------------------------

/// The resources in the order of their numbers.
pub open spec fn rlimit_names() -> Seq<Seq<char>> {
    seq![
        "RLIMIT_CPU"@,
        "RLIMIT_FSIZE"@,
        "RLIMIT_DATA"@,
        "RLIMIT_STACK"@,
        "RLIMIT_CORE"@,
        "RLIMIT_RSS"@,
        "RLIMIT_NPROC"@,
        "RLIMIT_NOFILE"@,
        "RLIMIT_MEMLOCK"@,
        "RLIMIT_AS"@,
        "RLIMIT_LOCKS"@,
        "RLIMIT_SIGPENDING"@,
        "RLIMIT_MSGQUEUE"@,
        "RLIMIT_NICE"@,
        "RLIMIT_RTPRIO"@,
        "RLIMIT_RTTIME"@,
    ]
}

/// The number that the system gives a resource.
pub fn rlimit_resource(kind: &str) -> (r: Option<u32>)
    ensures
        match r {
            Some(n) => text::place_of(rlimit_names(), kind@) == Some(n as int),
            None => text::place_of(rlimit_names(), kind@) is None,
        },
{
    let table: [&'static str; 16] = [
        "RLIMIT_CPU",
        "RLIMIT_FSIZE",
        "RLIMIT_DATA",
        "RLIMIT_STACK",
        "RLIMIT_CORE",
        "RLIMIT_RSS",
        "RLIMIT_NPROC",
        "RLIMIT_NOFILE",
        "RLIMIT_MEMLOCK",
        "RLIMIT_AS",
        "RLIMIT_LOCKS",
        "RLIMIT_SIGPENDING",
        "RLIMIT_MSGQUEUE",
        "RLIMIT_NICE",
        "RLIMIT_RTPRIO",
        "RLIMIT_RTTIME",
    ];
    assert(text::names_of(table@) =~= rlimit_names());
    match place(&table, kind) {
        Some(i) => Some(i as u32),
        None => None,
    }
}

/// One limit.
pub open spec fn rlimit_of(item: Js) -> Result<ProcessRlimit, Seq<char>> {
    match item.str_at("type"@) {
        None => Err("OCI rlimit.type is required"@),
        Some(kind) => match text::place_of(rlimit_names(), kind) {
            None => Err("unsupported OCI rlimit type "@ + text::debug_text(kind)),
            Some(resource) => match item.u64_at("soft"@) {
                None => Err("OCI rlimit.soft is required"@),
                Some(soft) => match item.u64_at("hard"@) {
                    None => Err("OCI rlimit.hard is required"@),
                    Some(hard) => if soft > hard {
                        Err("OCI rlimit "@ + kind + " has soft > hard"@)
                    } else {
                        Ok(ProcessRlimit { resource: resource as u32, soft, hard })
                    },
                },
            },
        },
    }
}

/// All limits, or the first error.
pub open spec fn rlimits_in(items: Seq<Js>) -> Result<Seq<ProcessRlimit>, Seq<char>>
    decreases items.len(),
{
    if items.len() == 0 {
        Ok(Seq::empty())
    } else {
        match rlimits_in(items.drop_last()) {
            Err(e) => Err(e),
            Ok(v) => match rlimit_of(items.last()) {
                Err(e) => Err(e),
                Ok(l) => Ok(v.push(l)),
            },
        }
    }
}

/// The limits of the process.
pub open spec fn rlimits_of(process: Js) -> Result<Seq<ProcessRlimit>, Seq<char>> {
    match process.array_at("rlimits"@) {
        None => Ok(Seq::empty()),
        Some(items) => rlimits_in(items),
    }
}

/// Reads one limit.
fn read_rlimit(item: &Json) -> (r: Result<ProcessRlimit, String>)
    ensures
        match (r, rlimit_of(item.view())) {
            (Ok(l), Ok(s)) => l == s,
            (Err(m), Err(e)) => m@ == e,
            _ => false,
        },
{
    let kind = match item.str_at("type") {
        None => {
            return Err("OCI rlimit.type is required".to_owned());
        },
        Some(kind) => kind,
    };
    let resource: u32 = match rlimit_resource(kind) {
        None => {
            return Err(cat("unsupported OCI rlimit type ", debug_quoted(kind).as_str()));
        },
        Some(n) => n,
    };
    let soft: u64 = match item.u64_at("soft") {
        None => {
            return Err("OCI rlimit.soft is required".to_owned());
        },
        Some(n) => n,
    };
    let hard: u64 = match item.u64_at("hard") {
        None => {
            return Err("OCI rlimit.hard is required".to_owned());
        },
        Some(n) => n,
    };
    if soft > hard {
        return Err(cat(cat("OCI rlimit ", kind).as_str(), " has soft > hard"));
    }
    Ok(ProcessRlimit { resource, soft, hard })
}

/// An error stays the first error of a longer list.
proof fn lemma_rlimit_fault(items: Seq<Js>, k: int)
    requires
        0 <= k <= items.len(),
        rlimits_in(items.take(k)) is Err,
    ensures
        rlimits_in(items) == rlimits_in(items.take(k)),
    decreases items.len(),
{
    if k < items.len() {
        assert(items.drop_last().take(k) =~= items.take(k));
        lemma_rlimit_fault(items.drop_last(), k);
    } else {
        assert(items.take(k) =~= items);
    }
}

/// Reads the limits of the process.
pub fn parse_process_rlimits(process: &Json) -> (r: Result<Vec<ProcessRlimit>, String>)
    ensures
        match (r, rlimits_of(process.view())) {
            (Ok(v), Ok(s)) => v@ == s,
            (Err(m), Err(e)) => m@ == e,
            _ => false,
        },
{
    let mut out: Vec<ProcessRlimit> = Vec::new();
    let items = match process.array_at("rlimits") {
        None => {
            return Ok(out);
        },
        Some(items) => items,
    };
    let ghost all = json::items_view(items@);
    let mut i: usize = 0;
    assert(items@.take(0) =~= Seq::<Json>::empty());
    while i < items.len()
        invariant
            i <= items.len(),
            all == json::items_view(items@),
            rlimits_of(process.view()) == rlimits_in(all),
            rlimits_in(json::items_view(items@.take(i as int))) == Ok::<
                Seq<ProcessRlimit>,
                Seq<char>,
            >(out@),
        decreases items.len() - i,
    {
        proof {
            json::lemma_items_step(items@, i as int);
        }
        match read_rlimit(&items[i]) {
            Ok(l) => {
                out.push(l);
            },
            Err(m) => {
                proof {
                    json::lemma_items_take(items@, i + 1);
                    lemma_rlimit_fault(all, i + 1);
                }
                return Err(m);
            },
        }
        i += 1;
    }
    assert(items@.take(items.len() as int) =~= items@);
    Ok(out)
}

// ---------------------------------------------------------------------------
// Capabilities
// ---------------------------------------------------------------------------

/// The capabilities in the order of their numbers.
pub open spec fn capability_names() -> Seq<Seq<char>> {
    seq![
        "CHOWN"@,
        "DAC_OVERRIDE"@,
        "DAC_READ_SEARCH"@,
        "FOWNER"@,
        "FSETID"@,
        "KILL"@,
        "SETGID"@,
        "SETUID"@,
        "SETPCAP"@,
        "LINUX_IMMUTABLE"@,
        "NET_BIND_SERVICE"@,
        "NET_BROADCAST"@,
        "NET_ADMIN"@,
        "NET_RAW"@,
        "IPC_LOCK"@,
        "IPC_OWNER"@,
        "SYS_MODULE"@,
        "SYS_RAWIO"@,
        "SYS_CHROOT"@,
        "SYS_PTRACE"@,
        "SYS_PACCT"@,
        "SYS_ADMIN"@,
        "SYS_BOOT"@,
        "SYS_NICE"@,
        "SYS_RESOURCE"@,
        "SYS_TIME"@,
        "SYS_TTY_CONFIG"@,
        "MKNOD"@,
        "LEASE"@,
        "AUDIT_WRITE"@,
        "AUDIT_CONTROL"@,
        "SETFCAP"@,
        "MAC_OVERRIDE"@,
        "MAC_ADMIN"@,
        "SYSLOG"@,
        "WAKE_ALARM"@,
        "BLOCK_SUSPEND"@,
        "AUDIT_READ"@,
        "PERFMON"@,
        "BPF"@,
        "CHECKPOINT_RESTORE"@,
    ]
}

/// The number of a capability; case and the prefix `CAP_` do not matter.
pub open spec fn capability_of(name: Seq<char>) -> Option<int> {
    let upper = text::upper(name);
    text::place_of(
        capability_names(),
        match text::after_prefix(upper, "CAP_"@) {
            Some(s) => s,
            None => upper,
        },
    )
}

/// The number of a capability.
pub fn capability_number(name: &str) -> (r: Option<u32>)
    ensures
        match r {
            Some(n) => capability_of(name@) == Some(n as int) && n <= 40,
            None => capability_of(name@) is None,
        },
{
    let table: [&'static str; 41] = [
        "CHOWN",
        "DAC_OVERRIDE",
        "DAC_READ_SEARCH",
        "FOWNER",
        "FSETID",
        "KILL",
        "SETGID",
        "SETUID",
        "SETPCAP",
        "LINUX_IMMUTABLE",
        "NET_BIND_SERVICE",
        "NET_BROADCAST",
        "NET_ADMIN",
        "NET_RAW",
        "IPC_LOCK",
        "IPC_OWNER",
        "SYS_MODULE",
        "SYS_RAWIO",
        "SYS_CHROOT",
        "SYS_PTRACE",
        "SYS_PACCT",
        "SYS_ADMIN",
        "SYS_BOOT",
        "SYS_NICE",
        "SYS_RESOURCE",
        "SYS_TIME",
        "SYS_TTY_CONFIG",
        "MKNOD",
        "LEASE",
        "AUDIT_WRITE",
        "AUDIT_CONTROL",
        "SETFCAP",
        "MAC_OVERRIDE",
        "MAC_ADMIN",
        "SYSLOG",
        "WAKE_ALARM",
        "BLOCK_SUSPEND",
        "AUDIT_READ",
        "PERFMON",
        "BPF",
        "CHECKPOINT_RESTORE",
    ];
    assert(text::names_of(table@) =~= capability_names());
    let upper = to_upper(name);
    let bare = match strip_prefix(upper.as_str(), "CAP_") {
        Some(s) => s,
        None => upper,
    };
    match place(&table, bare.as_str()) {
        Some(i) => Some(i as u32),
        None => None,
    }
}

/// A set of capabilities as a mask, or the first error.
pub open spec fn mask_in(items: Seq<Js>) -> Result<u64, Seq<char>>
    decreases items.len(),
{
    if items.len() == 0 {
        Ok(0)
    } else {
        match mask_in(items.drop_last()) {
            Err(e) => Err(e),
            Ok(mask) => match items.last().as_str() {
                None => Err("OCI capability must be a string"@),
                Some(name) => match capability_of(name) {
                    None => Err("unsupported Linux capability "@ + text::debug_text(name)),
                    Some(bit) => Ok(mask | (1u64 << (bit as u64))),
                },
            },
        }
    }
}

/// The set of capabilities called `name`.
pub open spec fn mask_of(caps: Js, name: Seq<char>) -> Result<u64, Seq<char>> {
    match caps.array_at(name) {
        None => Ok(0),
        Some(items) => mask_in(items),
    }
}

/// An error stays the first error of a longer list.
proof fn lemma_mask_fault(items: Seq<Js>, k: int)
    requires
        0 <= k <= items.len(),
        mask_in(items.take(k)) is Err,
    ensures
        mask_in(items) == mask_in(items.take(k)),
    decreases items.len(),
{
    if k < items.len() {
        assert(items.drop_last().take(k) =~= items.take(k));
        lemma_mask_fault(items.drop_last(), k);
    } else {
        assert(items.take(k) =~= items);
    }
}

/// Reads the set of capabilities called `name`.
fn read_mask(caps: &Json, name: &str) -> (r: Result<u64, String>)
    ensures
        match (r, mask_of(caps.view(), name@)) {
            (Ok(n), Ok(s)) => n == s,
            (Err(m), Err(e)) => m@ == e,
            _ => false,
        },
{
    let items = match caps.array_at(name) {
        None => {
            return Ok(0);
        },
        Some(items) => items,
    };
    let ghost all = json::items_view(items@);
    let mut mask: u64 = 0;
    let mut i: usize = 0;
    assert(items@.take(0) =~= Seq::<Json>::empty());
    while i < items.len()
        invariant
            i <= items.len(),
            all == json::items_view(items@),
            mask_of(caps.view(), name@) == mask_in(all),
            mask_in(json::items_view(items@.take(i as int))) == Ok::<u64, Seq<char>>(mask),
        decreases items.len() - i,
    {
        proof {
            json::lemma_items_step(items@, i as int);
            json::lemma_items_take(items@, i + 1);
        }
        match items[i].as_str() {
            None => {
                proof {
                    lemma_mask_fault(all, i + 1);
                }
                return Err("OCI capability must be a string".to_owned());
            },
            Some(s) => match capability_number(s) {
                None => {
                    proof {
                        lemma_mask_fault(all, i + 1);
                    }
                    return Err(
                        cat("unsupported Linux capability ", debug_quoted(s).as_str()),
                    );
                },
                Some(bit) => {
                    mask = mask | (1u64 << (bit as u64));
                },
            },
        }
        i += 1;
    }
    assert(items@.take(items.len() as int) =~= items@);
    Ok(mask)
}

/// Every capability of `a` is one of `b`.
pub open spec fn within(a: u64, b: u64) -> bool {
    a & !b == 0
}

/// The first error among five sets, or the sets.
pub open spec fn five_masks(
    bounding: Result<u64, Seq<char>>,
    effective: Result<u64, Seq<char>>,
    inheritable: Result<u64, Seq<char>>,
    permitted: Result<u64, Seq<char>>,
    ambient: Result<u64, Seq<char>>,
) -> Result<CapabilitySets, Seq<char>> {
    match bounding {
        Err(e) => Err(e),
        Ok(bounding) => match effective {
            Err(e) => Err(e),
            Ok(effective) => match inheritable {
                Err(e) => Err(e),
                Ok(inheritable) => match permitted {
                    Err(e) => Err(e),
                    Ok(permitted) => match ambient {
                        Err(e) => Err(e),
                        Ok(ambient) => Ok(
                            CapabilitySets {
                                bounding,
                                effective,
                                inheritable,
                                permitted,
                                ambient,
                            },
                        ),
                    },
                },
            },
        },
    }
}

/// The capabilities of the process. What is effective is permitted, what is ambient
/// is permitted and inheritable, and what is permitted is bounding.
pub open spec fn capabilities_of(process: Js) -> Result<Option<CapabilitySets>, Seq<char>> {
    match process.get("capabilities"@) {
        None => Ok(None),
        Some(caps) => match five_masks(
            mask_of(caps, "bounding"@),
            mask_of(caps, "effective"@),
            mask_of(caps, "inheritable"@),
            mask_of(caps, "permitted"@),
            mask_of(caps, "ambient"@),
        ) {
            Err(e) => Err(e),
            Ok(sets) => if !within(sets.effective, sets.permitted) {
                Err("OCI effective capabilities must be a subset of permitted"@)
            } else if !within(sets.ambient, sets.permitted) || !within(
                sets.ambient,
                sets.inheritable,
            ) {
                Err("OCI ambient capabilities must be present in permitted and inheritable"@)
            } else if !within(sets.permitted, sets.bounding) {
                Err("OCI permitted capabilities must be a subset of bounding"@)
            } else {
                Ok(Some(sets))
            },
        },
    }
}

/// Reads the capabilities of the process.
pub fn parse_capability_sets(process: &Json) -> (r: Result<Option<CapabilitySets>, String>)
    ensures
        match (r, capabilities_of(process.view())) {
            (Ok(c), Ok(s)) => c == s,
            (Err(m), Err(e)) => m@ == e,
            _ => false,
        },
{
    let caps = match process.get("capabilities") {
        None => {
            return Ok(None);
        },
        Some(caps) => caps,
    };
    let bounding: u64 = match read_mask(caps, "bounding") {
        Ok(m) => m,
        Err(e) => {
            return Err(e);
        },
    };
    let effective: u64 = match read_mask(caps, "effective") {
        Ok(m) => m,
        Err(e) => {
            return Err(e);
        },
    };
    let inheritable: u64 = match read_mask(caps, "inheritable") {
        Ok(m) => m,
        Err(e) => {
            return Err(e);
        },
    };
    let permitted: u64 = match read_mask(caps, "permitted") {
        Ok(m) => m,
        Err(e) => {
            return Err(e);
        },
    };
    let ambient: u64 = match read_mask(caps, "ambient") {
        Ok(m) => m,
        Err(e) => {
            return Err(e);
        },
    };
    if effective & !permitted != 0 {
        return Err("OCI effective capabilities must be a subset of permitted".to_owned());
    }
    if ambient & !permitted != 0 || ambient & !inheritable != 0 {
        return Err(
            "OCI ambient capabilities must be present in permitted and inheritable".to_owned(),
        );
    }
    if permitted & !bounding != 0 {
        return Err("OCI permitted capabilities must be a subset of bounding".to_owned());
    }
    Ok(Some(CapabilitySets { bounding, effective, inheritable, permitted, ambient }))
}

/// The capabilities that are accepted are bounded: nothing is effective or ambient that
/// is not in the bounding set.
pub proof fn law_capabilities_are_bounded(process: Js)
    requires
        capabilities_of(process) matches Ok(Some(_)),
    ensures
        capabilities_of(process) matches Ok(Some(sets)) ==> within(sets.effective, sets.bounding)
            && within(sets.ambient, sets.bounding) && within(sets.permitted, sets.bounding),
{
    if let Ok(Some(sets)) = capabilities_of(process) {
        let (b, e, p, a) = (sets.bounding, sets.effective, sets.permitted, sets.ambient);
        assert(e & !b == 0) by (bit_vector)
            requires
                e & !p == 0,
                p & !b == 0,
        ;
        assert(a & !b == 0) by (bit_vector)
            requires
                a & !p == 0,
                p & !b == 0,
        ;
    }
}

// ---------------------------------------------------------------------------
// The process
// ---------------------------------------------------------------------------

/// An unsigned integer below the member `user`.
pub open spec fn user_number(process: Js, key: Seq<char>) -> Option<u64> {
    match process.get2("user"@, key) {
        Some(v) => v.as_u64(),
        None => None,
    }
}

/// The lower 32 bits of a number, or 0.
pub open spec fn low_bits(n: Option<u64>) -> u32 {
    match n {
        Some(v) => v as u32,
        None => 0,
    }
}

/// The additional groups of the user.
pub open spec fn groups_of(process: Js) -> Seq<u32> {
    match process.get2("user"@, "additionalGids"@) {
        Some(v) => match v.as_array() {
            Some(items) => json::numbers_in(items).map_values(|n: u64| n as u32),
            None => Seq::empty(),
        },
        None => Seq::empty(),
    }
}

/// The process that a JSON value describes, or the first error.
pub open spec fn process_of(process: Js, rootfs: Seq<char>) -> Result<Process, Seq<char>> {
    match args_of(process) {
        Err(e) => Err(e),
        Ok(args) => match rlimits_of(process) {
            Err(e) => Err(e),
            Ok(rlimits) => match capabilities_of(process) {
                Err(e) => Err(e),
                Ok(capabilities) => Ok(
                    Process {
                        rootfs,
                        args,
                        env: env_of(process),
                        cwd: match process.str_at("cwd"@) {
                            Some(s) => s,
                            None => "/"@,
                        },
                        uid: low_bits(user_number(process, "uid"@)),
                        gid: low_bits(user_number(process, "gid"@)),
                        additional_gids: groups_of(process),
                        no_new_privileges: process.bool_at("noNewPrivileges"@) == Some(true),
                        umask: match user_number(process, "umask"@) {
                            Some(v) => Some(v as u32),
                            None => None,
                        },
                        rlimits,
                        capabilities,
                        seccomp: None,
                    },
                ),
            },
        },
    }
}

/// Reads an unsigned integer below the member `user`.
fn read_user_number(process: &Json, key: &str) -> (r: Option<u64>)
    ensures
        r == user_number(process.view(), key@),
{
    match process.get2("user", key) {
        Some(v) => v.as_u64(),
        None => None,
    }
}

/// Reads the lower 32 bits of an unsigned integer below the member `user`.
fn read_user_id(process: &Json, key: &str) -> (r: u32)
    ensures
        r == low_bits(user_number(process.view(), key@)),
{
    match read_user_number(process, key) {
        Some(v) => v as u32,
        None => 0,
    }
}

/// Reads the additional groups of the user.
fn read_groups(process: &Json) -> (r: Vec<u32>)
    ensures
        r@ == groups_of(process.view()),
{
    let mut out: Vec<u32> = Vec::new();
    let items = match process.get2("user", "additionalGids") {
        Some(v) => match v.as_array() {
            Some(items) => items,
            None => {
                return out;
            },
        },
        None => {
            return out;
        },
    };
    let all = json::numbers(items);
    let mut i: usize = 0;
    while i < all.len()
        invariant
            i <= all.len(),
            out.len() == i,
            forall|k: int| 0 <= k < i ==> out@[k] == #[trigger] all@[k] as u32,
        decreases all.len() - i,
    {
        out.push(all[i] as u32);
        i += 1;
    }
    assert(out@ =~= all@.map_values(|n: u64| n as u32));
    out
}

/// Reads the process that a JSON value describes.
pub fn parse_process_value(process: &Json, rootfs: String) -> (r: Result<ProcessSpec, String>)
    ensures
        match (r, process_of(process.view(), rootfs@)) {
            (Ok(p), Ok(s)) => p.view() == s,
            (Err(m), Err(e)) => m@ == e,
            _ => false,
        },
{
    let args = match read_args(process) {
        Ok(args) => args,
        Err(e) => {
            return Err(e);
        },
    };
    let env = read_env(process);
    let cwd = match process.str_at("cwd") {
        Some(s) => s.to_owned(),
        None => "/".to_owned(),
    };
    let uid: u32 = read_user_id(process, "uid");
    let gid: u32 = read_user_id(process, "gid");
    let additional_gids = read_groups(process);
    let no_new_privileges = match process.bool_at("noNewPrivileges") {
        Some(b) => b,
        None => false,
    };
    let umask = match read_user_number(process, "umask") {
        Some(v) => Some(v as u32),
        None => None,
    };
    let rlimits = match parse_process_rlimits(process) {
        Ok(v) => v,
        Err(e) => {
            return Err(e);
        },
    };
    let capabilities = match parse_capability_sets(process) {
        Ok(c) => c,
        Err(e) => {
            return Err(e);
        },
    };
    Ok(
        ProcessSpec {
            rootfs,
            args,
            env,
            cwd,
            uid,
            gid,
            additional_gids,
            no_new_privileges,
            umask,
            rlimits,
            capabilities,
            seccomp: None,
        },
    )
}

/// The process that a JSON text describes.
pub open spec fn process_in(document: Seq<char>, rootfs: Seq<char>) -> Result<
    Process,
    Seq<char>,
> {
    match json::json_read(document) {
        Err(e) => Err("parsing OCI Process: "@ + e),
        Ok(j) => process_of(j, rootfs),
    }
}

/// Reads the process that a JSON text describes.
pub fn parse_oci_process(document: &str, rootfs: String) -> (r: Result<ProcessSpec, String>)
    ensures
        match (r, process_in(document@, rootfs@)) {
            (Ok(p), Ok(s)) => p.view() == s,
            (Err(m), Err(e)) => m@ == e,
            _ => false,
        },
{
    match Json::parse(document) {
        Err(e) => Err(cat("parsing OCI Process: ", e.as_str())),
        Ok(j) => parse_process_value(&j, rootfs),
    }
}

/// A process that is accepted has a program to run.
pub proof fn law_process_has_a_program(process: Js, rootfs: Seq<char>)
    requires
        process_of(process, rootfs) is Ok,
    ensures
        process_of(process, rootfs)->Ok_0.args.len() > 0,
{
}

/// The arguments of a process that is accepted are the strings of its list, all of them and
/// in their order.
pub proof fn law_arguments_are_all_kept(process: Js, rootfs: Seq<char>)
    requires
        process_of(process, rootfs) is Ok,
    ensures
        process.get("args"@) matches Some(Js::Arr(items)) && items.len() == process_of(
            process,
            rootfs,
        )->Ok_0.args.len() && forall|i: int|
            0 <= i < items.len() ==> #[trigger] items[i] == Js::Str(
                process_of(process, rootfs)->Ok_0.args[i],
            ),
{
    json::law_texts_are_all_items(process.array_at("args"@)->0);
}

/// A process with a list of strings for its arguments that is not empty, and without limits
/// and capabilities that could be wrong, is accepted.
pub proof fn law_plain_processes_are_accepted(process: Js, rootfs: Seq<char>, items: Seq<Js>)
    requires
        process.get("args"@) == Some(Js::Arr(items)),
        items.len() > 0,
        forall|i: int| 0 <= i < items.len() ==> (#[trigger] items[i]) is Str,
        process.get("rlimits"@) is None,
        process.get("capabilities"@) is None,
    ensures
        process_of(process, rootfs) is Ok,
        process_of(process, rootfs)->Ok_0.rlimits.len() == 0,
        process_of(process, rootfs)->Ok_0.capabilities is None,
{
    json::law_texts_are_all_items(items);
}

/// The environment of a process that is accepted has one variable for each of the strings
/// in its list, in their order: its name and its value are what stands before and after the
/// first equals sign.
pub proof fn law_environment_is_all_kept(process: Js, rootfs: Seq<char>, items: Seq<Js>)
    requires
        process_of(process, rootfs) is Ok,
        process.get("env"@) == Some(Js::Arr(items)),
        forall|i: int| 0 <= i < items.len() ==> (#[trigger] items[i]) is Str,
    ensures
        ({
            let env = process_of(process, rootfs)->Ok_0.env;
            &&& env.len() == items.len()
            &&& forall|i: int|
                0 <= i < items.len() ==> text::lacks((#[trigger] env[i]).0, '=') && (items[i]
                    == Js::Str(env[i].0.push('=') + env[i].1) || (items[i] == Js::Str(env[i].0)
                    && env[i].1.len() == 0))
        }),
{
    json::law_strings_are_kept(items);
    reveal_strlit("");
    let env = process_of(process, rootfs)->Ok_0.env;
    assert forall|i: int| 0 <= i < items.len() implies text::lacks((#[trigger] env[i]).0, '=') && (
    items[i] == Js::Str(env[i].0.push('=') + env[i].1) || (items[i] == Js::Str(env[i].0)
        && env[i].1.len() == 0)) by {
        assert(items[i] == Js::Str(json::strings_in(items)[i]));
        text::law_cut_at_the_first(json::strings_in(items)[i], '=');
    }
}

/// The process runs where and as whom the description says; without a word on it, in the
/// root directory and as the first user, and may gain privileges.
pub proof fn law_process_runs_as_described(process: Js, rootfs: Seq<char>)
    requires
        process_of(process, rootfs) is Ok,
    ensures
        ({
            let p = process_of(process, rootfs)->Ok_0;
            &&& p.rootfs == rootfs
            &&& process.get("cwd"@) matches Some(Js::Str(d)) ==> p.cwd == d
            &&& process.get("cwd"@) is None ==> p.cwd == "/"@
            &&& process.get2("user"@, "uid"@) matches Some(Js::Int(n)) ==> (0 <= n <= u32::MAX
                ==> p.uid == n)
            &&& process.get2("user"@, "gid"@) matches Some(Js::Int(n)) ==> (0 <= n <= u32::MAX
                ==> p.gid == n)
            &&& process.get2("user"@, "umask"@) matches Some(Js::Int(n)) ==> (0 <= n <= u32::MAX
                ==> (p.umask matches Some(m) && m == n))
            &&& process.get2("user"@, "uid"@) is None ==> p.uid == 0
            &&& process.get2("user"@, "gid"@) is None ==> p.gid == 0
            &&& process.get2("user"@, "umask"@) is None ==> p.umask is None
            &&& p.no_new_privileges <==> process.get("noNewPrivileges"@) == Some(Js::Bool(true))
            &&& process.get("env"@) is None ==> p.env.len() == 0
            &&& process.get2("user"@, "additionalGids"@) is None ==> p.additional_gids.len() == 0
        }),
{
}

/// The process is in all of the further groups that the description lists.
pub proof fn law_groups_are_all_kept(process: Js, rootfs: Seq<char>, items: Seq<Js>)
    requires
        process_of(process, rootfs) is Ok,
        process.get2("user"@, "additionalGids"@) == Some(Js::Arr(items)),
        forall|i: int|
            0 <= i < items.len() ==> (#[trigger] items[i] matches Js::Int(n) && 0 <= n <= u32::MAX),
    ensures
        ({
            let groups = process_of(process, rootfs)->Ok_0.additional_gids;
            &&& groups.len() == items.len()
            &&& forall|i: int| 0 <= i < items.len() ==> #[trigger] items[i] == Js::Int(groups[i] as int)
        }),
{
    json::law_numbers_are_kept(items);
    let groups = process_of(process, rootfs)->Ok_0.additional_gids;
    assert forall|i: int| 0 <= i < items.len() implies #[trigger] items[i] == Js::Int(
        groups[i] as int,
    ) by {
        assert(items[i] == Js::Int(json::numbers_in(items)[i] as int));
    }
}

/// The limits in a list are read one by one.
proof fn lemma_rlimits(items: Seq<Js>)
    requires
        rlimits_in(items) is Ok,
    ensures
        rlimits_in(items)->Ok_0.len() == items.len(),
        forall|i: int|
            0 <= i < items.len() ==> rlimit_of(#[trigger] items[i]) == Ok::<
                ProcessRlimit,
                Seq<char>,
            >(rlimits_in(items)->Ok_0[i]),
    decreases items.len(),
{
    if items.len() > 0 {
        let before = items.drop_last();
        lemma_rlimits(before);
        assert forall|i: int| 0 <= i < items.len() implies rlimit_of(#[trigger] items[i]) == Ok::<
            ProcessRlimit,
            Seq<char>,
        >(rlimits_in(items)->Ok_0[i]) by {
            if i < before.len() {
                assert(before[i] == items[i]);
            }
        }
    }
}

/// Each limit in the description is set, in the order of the list: on the resource that it
/// names and to the bounds that it gives, of which the soft one is not above the hard one.
pub proof fn law_rlimits_are_all_kept(process: Js, rootfs: Seq<char>, items: Seq<Js>)
    requires
        process_of(process, rootfs) is Ok,
        process.get("rlimits"@) == Some(Js::Arr(items)),
    ensures
        ({
            let limits = process_of(process, rootfs)->Ok_0.rlimits;
            &&& limits.len() == items.len()
            &&& forall|i: int|
                0 <= i < items.len() ==> {
                    &&& (#[trigger] items[i]).get("soft"@) == Some(Js::Int(limits[i].soft as int))
                    &&& items[i].get("hard"@) == Some(Js::Int(limits[i].hard as int))
                    &&& limits[i].soft <= limits[i].hard
                    &&& limits[i].resource < 16
                    &&& items[i].get("type"@) == Some(
                        Js::Str(rlimit_names()[limits[i].resource as int]),
                    )
                }
        }),
{
    lemma_rlimits(items);
    let limits = process_of(process, rootfs)->Ok_0.rlimits;
    assert forall|i: int| 0 <= i < items.len() implies {
        &&& (#[trigger] items[i]).get("soft"@) == Some(Js::Int(limits[i].soft as int))
        &&& items[i].get("hard"@) == Some(Js::Int(limits[i].hard as int))
        &&& limits[i].soft <= limits[i].hard
        &&& limits[i].resource < 16
        &&& items[i].get("type"@) == Some(Js::Str(rlimit_names()[limits[i].resource as int]))
    } by {
        assert(rlimit_of(items[i]) == Ok::<ProcessRlimit, Seq<char>>(limits[i]));
        text::lemma_place(rlimit_names(), items[i].str_at("type"@)->0);
    }
}

/// The resources have the numbers that the system gives them.
pub proof fn law_resource_numbers()
    ensures
        rlimit_names().len() == 16,
        rlimit_names()[0] == "RLIMIT_CPU"@,
        rlimit_names()[1] == "RLIMIT_FSIZE"@,
        rlimit_names()[2] == "RLIMIT_DATA"@,
        rlimit_names()[3] == "RLIMIT_STACK"@,
        rlimit_names()[4] == "RLIMIT_CORE"@,
        rlimit_names()[5] == "RLIMIT_RSS"@,
        rlimit_names()[6] == "RLIMIT_NPROC"@,
        rlimit_names()[7] == "RLIMIT_NOFILE"@,
        rlimit_names()[8] == "RLIMIT_MEMLOCK"@,
        rlimit_names()[9] == "RLIMIT_AS"@,
        rlimit_names()[10] == "RLIMIT_LOCKS"@,
        rlimit_names()[11] == "RLIMIT_SIGPENDING"@,
        rlimit_names()[12] == "RLIMIT_MSGQUEUE"@,
        rlimit_names()[13] == "RLIMIT_NICE"@,
        rlimit_names()[14] == "RLIMIT_RTPRIO"@,
        rlimit_names()[15] == "RLIMIT_RTTIME"@,
{
}

/// The capabilities have the numbers that the system gives them.
pub proof fn law_capability_numbers()
    ensures
        capability_names().len() == 41,
        capability_names()[0] == "CHOWN"@,
        capability_names()[1] == "DAC_OVERRIDE"@,
        capability_names()[2] == "DAC_READ_SEARCH"@,
        capability_names()[3] == "FOWNER"@,
        capability_names()[4] == "FSETID"@,
        capability_names()[5] == "KILL"@,
        capability_names()[6] == "SETGID"@,
        capability_names()[7] == "SETUID"@,
        capability_names()[8] == "SETPCAP"@,
        capability_names()[9] == "LINUX_IMMUTABLE"@,
        capability_names()[10] == "NET_BIND_SERVICE"@,
        capability_names()[11] == "NET_BROADCAST"@,
        capability_names()[12] == "NET_ADMIN"@,
        capability_names()[13] == "NET_RAW"@,
        capability_names()[14] == "IPC_LOCK"@,
        capability_names()[15] == "IPC_OWNER"@,
        capability_names()[16] == "SYS_MODULE"@,
        capability_names()[17] == "SYS_RAWIO"@,
        capability_names()[18] == "SYS_CHROOT"@,
        capability_names()[19] == "SYS_PTRACE"@,
        capability_names()[20] == "SYS_PACCT"@,
        capability_names()[21] == "SYS_ADMIN"@,
        capability_names()[22] == "SYS_BOOT"@,
        capability_names()[23] == "SYS_NICE"@,
        capability_names()[24] == "SYS_RESOURCE"@,
        capability_names()[25] == "SYS_TIME"@,
        capability_names()[26] == "SYS_TTY_CONFIG"@,
        capability_names()[27] == "MKNOD"@,
        capability_names()[28] == "LEASE"@,
        capability_names()[29] == "AUDIT_WRITE"@,
        capability_names()[30] == "AUDIT_CONTROL"@,
        capability_names()[31] == "SETFCAP"@,
        capability_names()[32] == "MAC_OVERRIDE"@,
        capability_names()[33] == "MAC_ADMIN"@,
        capability_names()[34] == "SYSLOG"@,
        capability_names()[35] == "WAKE_ALARM"@,
        capability_names()[36] == "BLOCK_SUSPEND"@,
        capability_names()[37] == "AUDIT_READ"@,
        capability_names()[38] == "PERFMON"@,
        capability_names()[39] == "BPF"@,
        capability_names()[40] == "CHECKPOINT_RESTORE"@,
{
}

/// The name of a capability counts in any case, with or without its prefix.
pub proof fn law_capability_names_are_loose(name: Seq<char>)
    requires
        text::upper(name) == name,
        !text::has_prefix(name, "CAP_"@),
    ensures
        capability_of("CAP_"@ + name) == capability_of(name),
        capability_of(text::lower(name)) == capability_of(text::upper(text::lower(name))),
        capability_of(name) matches Some(n) ==> 0 <= n < 41 && capability_names()[n] == name,
{
    reveal_strlit("CAP_");
    let long = "CAP_"@ + name;
    assert(text::upper(long) =~= long) by {
        assert forall|i: int| 0 <= i < long.len() implies text::upper_char(long[i]) == long[i] by {
            if i >= 4 {
                assert(text::upper(name)[i - 4] == name[i - 4]);
            }
        }
    }
    assert(long.take(4) =~= "CAP_"@);
    assert(long.skip(4) =~= name);
    text::lemma_place(capability_names(), name);
    let low = text::lower(name);
    assert(text::upper(text::upper(low)) =~= text::upper(low));
}

/// The mask of a list holds the capabilities that the list names, and no others.
proof fn lemma_mask(items: Seq<Js>, bit: u64)
    requires
        mask_in(items) is Ok,
        bit < 64,
    ensures
        (mask_in(items)->Ok_0 >> bit) & 1 == 1 <==> exists|i: int|
            0 <= i < items.len() && (#[trigger] items[i] matches Js::Str(name) && capability_of(name)
                == Some(bit as int)),
    decreases items.len(),
{
    if items.len() == 0 {
        assert((0u64 >> bit) & 1 == 0) by (bit_vector);
    } else {
        let before = items.drop_last();
        lemma_mask(before, bit);
        let mask = mask_in(before)->Ok_0;
        let name = items.last().as_str()->0;
        text::lemma_place(
            capability_names(),
            match text::after_prefix(text::upper(name), "CAP_"@) {
                Some(s) => s,
                None => text::upper(name),
            },
        );
        let b = capability_of(name)->0 as u64;
        assert(b < 64);
        assert(((mask | (1u64 << b)) >> bit) & 1 == 1 <==> ((mask >> bit) & 1 == 1 || bit == b))
            by (bit_vector)
            requires
                b < 64,
                bit < 64,
        ;
        assert(forall|i: int| 0 <= i < before.len() ==> before[i] == items[i]);
        if (mask >> bit) & 1 == 1 {
            let i = choose|i: int|
                0 <= i < before.len() && (#[trigger] before[i] matches Js::Str(n)
                    && capability_of(n) == Some(bit as int));
            assert(items[i] == before[i]);
        }
        if bit == b {
            assert(items[items.len() - 1] == Js::Str(name));
        }
        if exists|i: int|
            0 <= i < items.len() && (#[trigger] items[i] matches Js::Str(n) && capability_of(n)
                == Some(bit as int)) {
            let i = choose|i: int|
                0 <= i < items.len() && (#[trigger] items[i] matches Js::Str(n) && capability_of(n)
                    == Some(bit as int));
            if i < before.len() {
                assert(before[i] == items[i]);
            }
        }
    }
}

/// The capability is among those that a description lists under a name.
pub open spec fn lists(process: Js, set: Seq<char>, bit: u64) -> bool {
    process.get2("capabilities"@, set) matches Some(Js::Arr(items)) && exists|i: int|
        0 <= i < items.len() && (#[trigger] items[i] matches Js::Str(name) && capability_of(name)
            == Some(bit as int))
}

/// The process has in each of its five sets the capabilities that the description lists for
/// that set, and no others.
pub proof fn law_capability_sets_are_those_listed(process: Js, bit: u64)
    requires
        capabilities_of(process) matches Ok(Some(_)),
        bit < 64,
    ensures
        ({
            let sets = capabilities_of(process)->Ok_0->Some_0;
            &&& (sets.bounding >> bit) & 1 == 1 <==> lists(process, "bounding"@, bit)
            &&& (sets.effective >> bit) & 1 == 1 <==> lists(process, "effective"@, bit)
            &&& (sets.inheritable >> bit) & 1 == 1 <==> lists(process, "inheritable"@, bit)
            &&& (sets.permitted >> bit) & 1 == 1 <==> lists(process, "permitted"@, bit)
            &&& (sets.ambient >> bit) & 1 == 1 <==> lists(process, "ambient"@, bit)
        }),
{
    let caps = process.get("capabilities"@)->0;
    assert((0u64 >> bit) & 1 == 0) by (bit_vector);
    lemma_mask_of(caps, "bounding"@, bit);
    lemma_mask_of(caps, "effective"@, bit);
    lemma_mask_of(caps, "inheritable"@, bit);
    lemma_mask_of(caps, "permitted"@, bit);
    lemma_mask_of(caps, "ambient"@, bit);
}

/// The mask under a name holds what is listed under the name.
proof fn lemma_mask_of(caps: Js, set: Seq<char>, bit: u64)
    requires
        mask_of(caps, set) is Ok,
        bit < 64,
    ensures
        (mask_of(caps, set)->Ok_0 >> bit) & 1 == 1 <==> (caps.get(set) matches Some(Js::Arr(items))
            && exists|i: int|
            0 <= i < items.len() && (#[trigger] items[i] matches Js::Str(name) && capability_of(name)
                == Some(bit as int))),
{
    assert((0u64 >> bit) & 1 == 0) by (bit_vector);
    if let Some(items) = caps.array_at(set) {
        lemma_mask(items, bit);
    }
}

/// The capabilities in a description that break no rule are accepted, and without a word on
/// them the process keeps its own.
pub proof fn law_capabilities_that_fit_are_accepted(process: Js)
    ensures
        process.get("capabilities"@) is None ==> capabilities_of(process) == Ok::<
            Option<CapabilitySets>,
            Seq<char>,
        >(None),
        process.get("capabilities"@) matches Some(caps) ==> (mask_of(
            caps,
            "bounding"@,
        ) matches Ok(bounding) && mask_of(caps, "effective"@) matches Ok(effective) && mask_of(
            caps,
            "inheritable"@,
        ) matches Ok(inheritable) && mask_of(caps, "permitted"@) matches Ok(permitted) && mask_of(
            caps,
            "ambient"@,
        ) matches Ok(ambient) && effective & !permitted == 0 && ambient & !permitted == 0 && ambient
            & !inheritable == 0 && permitted & !bounding == 0 <==> capabilities_of(process) is Ok),
{
}

} // verus!
