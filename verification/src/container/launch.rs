//! What has to be settled before a process of a container is run.

use vstd::prelude::*;

use crate::cgroup::util;
use crate::cgroup::util::join;
use crate::container::oci::process;
use crate::container::oci::process::{CapabilitySets, Process, ProcessSpec};
use crate::container::protocol::ContainerIo;
use crate::text;
use crate::text::{
    cat, debug_quoted, has_char, parse_u32, same, split, trim, trim_end_char, trim_start_char,
};

verus! {

// ---------------------------------------------------------------------------
// The program
// ---------------------------------------------------------------------------

/// Where programs are looked for when the environment does not say.
pub open spec fn default_path() -> Seq<char> {
    "/usr/local/sbin:/usr/local/bin:/usr/sbin:/usr/bin:/sbin:/bin"@
}

/// The first value of a variable.
pub open spec fn variable(env: Seq<(Seq<char>, Seq<char>)>, name: Seq<char>) -> Option<Seq<char>>
    decreases env.len(),
{
    if env.len() == 0 {
        None
    } else {
        match variable(env.drop_last(), name) {
            Some(v) => Some(v),
            None => if env.last().0 == name {
                Some(env.last().1)
            } else {
                None
            },
        }
    }
}

/// Where programs are looked for.
pub open spec fn search_path(p: Process) -> Seq<char> {
    match variable(p.env, "PATH"@) {
        Some(v) => v,
        None => default_path(),
    }
}

/// The program `name` in the directory `dir`; without a directory, at the root.
pub open spec fn program_in(dir: Seq<char>, name: Seq<char>) -> Seq<char> {
    if dir.len() == 0 {
        "/"@ + name
    } else {
        text::trim_end_char_of(dir, '/') + "/"@ + name
    }
}

/// The file that stands for a path of the container.
pub open spec fn host_path(rootfs: Seq<char>, guest: Seq<char>) -> Seq<char> {
    util::path_join(rootfs, text::trim_start_char_of(guest, '/'))
}

/// The paths under which the program may be found. A program that is given by a path
/// is not looked for.
pub open spec fn candidates(p: Process) -> Seq<Seq<char>> {
    if p.args[0].contains('/') {
        Seq::empty()
    } else {
        text::split_on(search_path(p), ':').map_values(|dir: Seq<char>| program_in(dir, p.args[0]))
    }
}

/// The first place that holds.
pub open spec fn first_true(v: Seq<bool>) -> Option<int>
    decreases v.len(),
{
    if v.len() == 0 {
        None
    } else {
        match first_true(v.drop_last()) {
            Some(i) => Some(i),
            None => if v.last() {
                Some(v.len() - 1)
            } else {
                None
            },
        }
    }
}

/// Looks for the value of a variable.
fn find_variable<'a>(env: &'a Vec<(String, String)>, name: &str) -> (r: Option<&'a str>)
    ensures
        match r {
            Some(v) => variable(process::pairs_view(env@), name@) == Some(v@),
            None => variable(process::pairs_view(env@), name@) is None,
        },
{
    let mut found: Option<&str> = None;
    let mut i: usize = 0;
    while i < env.len()
        invariant
            i <= env.len(),
            match found {
                Some(v) => variable(process::pairs_view(env@.take(i as int)), name@) == Some(v@),
                None => variable(process::pairs_view(env@.take(i as int)), name@) is None,
            },
        decreases env.len() - i,
    {
        proof {
            let next = process::pairs_view(env@.take(i + 1));
            assert(next.drop_last() =~= process::pairs_view(env@.take(i as int)));
        }
        if found.is_none() && same(env[i].0.as_str(), name) {
            found = Some(env[i].1.as_str());
        }
        i += 1;
    }
    assert(env@.take(env.len() as int) =~= env@);
    found
}

/// The places where the program may be found: the path in the container and the file
/// that stands for it.
pub fn executable_candidates(spec: &ProcessSpec) -> (r: Vec<(String, String)>)
    requires
        spec.args.len() > 0,
    ensures
        r.len() == candidates(spec.view()).len(),
        forall|i: int|
            0 <= i < r.len() ==> (#[trigger] r@[i]).0@ == candidates(spec.view())[i] && r@[i].1@
                == host_path(spec.rootfs@, candidates(spec.view())[i]),
{
    let mut out: Vec<(String, String)> = Vec::new();
    let name = spec.args[0].as_str();
    let ghost p = spec.view();
    assert(p.args[0] == name@);
    if has_char(name, '/') {
        return out;
    }
    let path = match find_variable(&spec.env, "PATH") {
        Some(v) => v,
        None => "/usr/local/sbin:/usr/local/bin:/usr/sbin:/usr/bin:/sbin:/bin",
    };
    let dirs = split(path, ':');
    let ghost all = text::views(dirs@);
    let mut i: usize = 0;
    while i < dirs.len()
        invariant
            i <= dirs.len(),
            all == text::views(dirs@),
            all == text::split_on(search_path(p), ':'),
            p == spec.view(),
            p.args[0] == name@,
            !name@.contains('/'),
            out.len() == i,
            forall|k: int|
                0 <= k < i ==> (#[trigger] out@[k]).0@ == program_in(all[k], name@)
                    && out@[k].1@ == host_path(spec.rootfs@, program_in(all[k], name@)),
        decreases dirs.len() - i,
    {
        let dir = dirs[i].as_str();
        let empty = same(dir, "");
        proof {
            reveal_strlit("");
            assert(empty == (dir@.len() == 0)) by {
                if dir@.len() == 0 {
                    assert(dir@ =~= ""@);
                }
            }
        }
        let guest = if empty {
            cat("/", name)
        } else {
            cat(cat(trim_end_char(dir, '/').as_str(), "/").as_str(), name)
        };
        let host = join(spec.rootfs.as_str(), trim_start_char(guest.as_str(), '/').as_str());
        out.push((guest, host));
        i += 1;
    }
    out
}

/// The program to run.
pub open spec fn program_of(p: Process, present: Seq<bool>) -> Result<Seq<char>, Seq<char>> {
    if p.args[0].contains('/') {
        Ok(p.args[0])
    } else {
        match first_true(present) {
            Some(i) => Ok(candidates(p)[i]),
            None => Err(
                "executable "@ + text::debug_text(p.args[0]) + " was not found in OCI PATH"@,
            ),
        }
    }
}

/// Finds the program to run. `present` says for each candidate whether it is a file.
pub fn resolve_executable(spec: &ProcessSpec, present: &Vec<bool>) -> (r: Result<String, String>)
    requires
        spec.args.len() > 0,
        present.len() == candidates(spec.view()).len(),
    ensures
        match (r, program_of(spec.view(), present@)) {
            (Ok(s), Ok(t)) => s@ == t,
            (Err(m), Err(e)) => m@ == e,
            _ => false,
        },
{
    let name = spec.args[0].as_str();
    assert(spec.view().args[0] == name@);
    if has_char(name, '/') {
        return Ok(name.to_owned());
    }
    let all = executable_candidates(spec);
    let mut found: Option<usize> = None;
    let mut i: usize = 0;
    while i < present.len()
        invariant
            i <= present.len(),
            match found {
                Some(k) => k < i && first_true(present@.take(i as int)) == Some(k as int),
                None => first_true(present@.take(i as int)) is None,
            },
        decreases present.len() - i,
    {
        assert(present@.take(i + 1).drop_last() =~= present@.take(i as int));
        if found.is_none() && present[i] {
            found = Some(i);
        }
        i += 1;
    }
    assert(present@.take(present.len() as int) =~= present@);
    match found {
        Some(k) => Ok(all[k].0.clone()),
        None => {
            let head = cat("executable ", debug_quoted(name).as_str());
            Err(cat(head.as_str(), " was not found in OCI PATH"))
        },
    }
}

// ---------------------------------------------------------------------------
// Namespaces
// ---------------------------------------------------------------------------

pub const CLONE_NEWNS: i32 = 0x0002_0000;

pub const CLONE_NEWUTS: i32 = 0x0400_0000;

pub const CLONE_NEWIPC: i32 = 0x0800_0000;

pub const CLONE_NEWUSER: i32 = 0x1000_0000;

pub const CLONE_NEWPID: i32 = 0x2000_0000;

/// The namespaces of a container, as descriptors; a negative one stands for none.
#[derive(Debug, Clone, Copy, PartialEq, Eq, Structural)]
pub struct ContainerNamespaces {
    pub mnt: i32,
    pub pid: i32,
    pub ipc: i32,
    pub uts: i32,
    pub user: i32,
}

impl ContainerNamespaces {
    /// There is no namespace.
    pub open spec fn is_none(self) -> bool {
        self.mnt == -1 && self.pid == -1 && self.ipc == -1 && self.uts == -1 && self.user == -1
    }
}

impl Default for ContainerNamespaces {
    fn default() -> (r: Self)
        ensures
            r.is_none(),
    {
        ContainerNamespaces { mnt: -1, pid: -1, ipc: -1, uts: -1, user: -1 }
    }
}

/// The names under which the system shows the namespaces of a process: those of its files,
/// of the processes that it starts, of its shared memory, of its host name and, where it is
/// wanted, of its users.
pub open spec fn namespace_names(with_user: bool) -> Seq<Seq<char>> {
    let all = seq!["mnt"@, "pid_for_children"@, "ipc"@, "uts"@];
    if with_user {
        all.push("user"@)
    } else {
        all
    }
}

/// Gives the names under which the system shows the namespaces of a process.
pub fn namespace_files(with_user: bool) -> (r: Vec<&'static str>)
    ensures
        text::names_of(r@) == namespace_names(with_user),
{
    let mut r: Vec<&'static str> = vec!["mnt", "pid_for_children", "ipc", "uts"];
    if with_user {
        r.push("user");
    }
    assert(text::names_of(r@) =~= namespace_names(with_user));
    r
}

/// The descriptor at a place, or none.
pub open spec fn descriptor_at(fds: Seq<i32>, i: int) -> i32 {
    if i < fds.len() {
        fds[i]
    } else {
        -1i32
    }
}

fn at_or_none(fds: &Vec<i32>, i: usize) -> (r: i32)
    ensures
        r == descriptor_at(fds@, i as int),
{
    if i < fds.len() {
        fds[i]
    } else {
        -1
    }
}

impl ContainerNamespaces {
    /// The namespaces whose descriptors are given in the order of their names.
    pub fn from_descriptors(fds: &Vec<i32>) -> (r: ContainerNamespaces)
        ensures
            r == (ContainerNamespaces {
                mnt: descriptor_at(fds@, 0),
                pid: descriptor_at(fds@, 1),
                ipc: descriptor_at(fds@, 2),
                uts: descriptor_at(fds@, 3),
                user: descriptor_at(fds@, 4),
            }),
    {
        ContainerNamespaces {
            mnt: at_or_none(fds, 0),
            pid: at_or_none(fds, 1),
            ipc: at_or_none(fds, 2),
            uts: at_or_none(fds, 3),
            user: at_or_none(fds, 4),
        }
    }
}

/// The descriptors that are there, in the order in which they are closed.
pub open spec fn held(n: ContainerNamespaces) -> Seq<i32> {
    seq![n.mnt, n.pid, n.ipc, n.uts, n.user].filter(|fd: i32| fd >= 0)
}

impl ContainerNamespaces {
    /// Gives up the namespaces; the caller closes the descriptors that are returned.
    pub fn close(&mut self) -> (r: Vec<i32>)
        ensures
            r@ == held(*old(self)),
            final(self).is_none(),
    {
        let mut out: Vec<i32> = Vec::new();
        let all: [i32; 5] = [self.mnt, self.pid, self.ipc, self.uts, self.user];
        let ghost keep = |fd: i32| fd >= 0;
        let mut i: usize = 0;
        reveal(Seq::filter);
        while i < 5
            invariant
                i <= 5,
                all@.len() == 5,
                keep == |fd: i32| fd >= 0,
                out@ == all@.take(i as int).filter(keep),
            decreases 5 - i,
        {
            proof {
                reveal(Seq::filter);
                assert(all@.take(i + 1).drop_last() =~= all@.take(i as int));
            }
            if all[i] >= 0 {
                out.push(all[i]);
            }
            i += 1;
        }
        assert(all@.take(5) =~= seq![self.mnt, self.pid, self.ipc, self.uts, self.user]);
        *self = ContainerNamespaces::default();
        out
    }
}

/// For what namespaces are settled.
#[derive(Debug, Clone, Copy, PartialEq, Eq, Structural)]
pub enum NsRequest {
    /// A new container.
    Create { is_sandbox: bool, share_process_namespace: bool },
    /// A further process of a container, in the container's own namespaces.
    Exec { target: ContainerNamespaces },
}

/// The namespaces to create, as flags, and those to join, as descriptor and flag.
#[derive(Debug)]
pub struct NamespacePlan {
    pub create_flags: i32,
    pub joins: Vec<(i32, i32)>,
}

/// The container takes part in the process namespace of the sandbox.
pub open spec fn shares_processes(
    share_process_namespace: bool,
    sandbox: ContainerNamespaces,
) -> bool {
    share_process_namespace && sandbox.pid >= 0
}

/// The namespaces to create. Every container gets a mount namespace of its own. The
/// others come from the sandbox where there is one.
pub open spec fn create_flags(
    request: NsRequest,
    sandbox: Option<ContainerNamespaces>,
    userns: bool,
) -> i32 {
    match request {
        NsRequest::Exec { .. } => 0,
        NsRequest::Create { is_sandbox, share_process_namespace } => {
            let base = if is_sandbox {
                CLONE_NEWNS | CLONE_NEWPID | CLONE_NEWIPC | CLONE_NEWUTS
            } else {
                match sandbox {
                    None => CLONE_NEWNS | CLONE_NEWPID | CLONE_NEWIPC | CLONE_NEWUTS,
                    Some(sb) => if shares_processes(share_process_namespace, sb) {
                        CLONE_NEWNS
                    } else {
                        CLONE_NEWNS | CLONE_NEWPID
                    },
                }
            };
            if userns {
                base | CLONE_NEWUSER
            } else {
                base
            }
        },
    }
}

/// The namespaces to join.
pub open spec fn joins(request: NsRequest, sandbox: Option<ContainerNamespaces>) -> Seq<
    (i32, i32),
> {
    match request {
        NsRequest::Exec { target } => seq![
            (target.user, CLONE_NEWUSER),
            (target.mnt, CLONE_NEWNS),
            (target.ipc, CLONE_NEWIPC),
            (target.uts, CLONE_NEWUTS),
            (target.pid, CLONE_NEWPID),
        ].filter(|p: (i32, i32)| p.0 >= 0),
        NsRequest::Create { is_sandbox, share_process_namespace } => match sandbox {
            Some(sb) => if is_sandbox {
                Seq::empty()
            } else if shares_processes(share_process_namespace, sb) {
                seq![(sb.ipc, CLONE_NEWIPC), (sb.uts, CLONE_NEWUTS), (sb.pid, CLONE_NEWPID)]
            } else {
                seq![(sb.ipc, CLONE_NEWIPC), (sb.uts, CLONE_NEWUTS)]
            },
            None => Seq::empty(),
        },
    }
}

impl NamespacePlan {
    /// Settles the namespaces of a process.
    pub fn settle(
        request: NsRequest,
        sandbox: Option<ContainerNamespaces>,
        userns: bool,
    ) -> (r: NamespacePlan)
        ensures
            r.create_flags == create_flags(request, sandbox, userns),
            r.joins@ == joins(request, sandbox),
    {
        let mut list: Vec<(i32, i32)> = Vec::new();
        match request {
            NsRequest::Exec { target } => {
                let all: [(i32, i32); 5] = [
                    (target.user, CLONE_NEWUSER),
                    (target.mnt, CLONE_NEWNS),
                    (target.ipc, CLONE_NEWIPC),
                    (target.uts, CLONE_NEWUTS),
                    (target.pid, CLONE_NEWPID),
                ];
                let ghost keep = |p: (i32, i32)| p.0 >= 0;
                let mut i: usize = 0;
                reveal(Seq::filter);
                while i < 5
                    invariant
                        i <= 5,
                        all@.len() == 5,
                        keep == |p: (i32, i32)| p.0 >= 0,
                        list@ == all@.take(i as int).filter(keep),
                    decreases 5 - i,
                {
                    proof {
                        reveal(Seq::filter);
                        assert(all@.take(i + 1).drop_last() =~= all@.take(i as int));
                    }
                    if all[i].0 >= 0 {
                        list.push(all[i]);
                    }
                    i += 1;
                }
                proof {
                    assert(all@.take(5) =~= seq![
                        (target.user, CLONE_NEWUSER),
                        (target.mnt, CLONE_NEWNS),
                        (target.ipc, CLONE_NEWIPC),
                        (target.uts, CLONE_NEWUTS),
                        (target.pid, CLONE_NEWPID),
                    ]);
                }
                NamespacePlan { create_flags: 0, joins: list }
            },
            NsRequest::Create { is_sandbox, share_process_namespace } => {
                let whole: i32 = CLONE_NEWNS | CLONE_NEWPID | CLONE_NEWIPC | CLONE_NEWUTS;
                let base: i32 = if is_sandbox {
                    whole
                } else {
                    match sandbox {
                        None => whole,
                        Some(sb) => {
                            list.push((sb.ipc, CLONE_NEWIPC));
                            list.push((sb.uts, CLONE_NEWUTS));
                            if share_process_namespace && sb.pid >= 0 {
                                list.push((sb.pid, CLONE_NEWPID));
                                CLONE_NEWNS
                            } else {
                                CLONE_NEWNS | CLONE_NEWPID
                            }
                        },
                    }
                };
                assert(list@ =~= joins(request, sandbox));
                let flags: i32 = if userns {
                    base | CLONE_NEWUSER
                } else {
                    base
                };
                NamespacePlan { create_flags: flags, joins: list }
            },
        }
    }

    /// The process gets a new namespace of this kind.
    pub open spec fn makes(self, kind: i32) -> bool {
        self.create_flags & kind != 0
    }

    /// The process joins a namespace of this kind.
    pub open spec fn enters(self, kind: i32) -> bool {
        exists|i: int| 0 <= i < self.joins@.len() && (#[trigger] self.joins@[i]).1 == kind
    }

    /// Tells whether the process gets a new mount namespace.
    pub fn creates_mount_ns(&self) -> (r: bool)
        ensures
            r == self.makes(CLONE_NEWNS),
    {
        self.create_flags & CLONE_NEWNS != 0
    }

    /// Tells whether the process gets a new user namespace.
    pub fn wants_user_ns(&self) -> (r: bool)
        ensures
            r == self.makes(CLONE_NEWUSER),
    {
        self.create_flags & CLONE_NEWUSER != 0
    }

    /// Tells whether the process joins a mount namespace.
    pub fn joined_mount_ns(&self) -> (r: bool)
        ensures
            r == self.enters(CLONE_NEWNS),
    {
        let mut i: usize = 0;
        while i < self.joins.len()
            invariant
                i <= self.joins.len(),
                forall|k: int| 0 <= k < i ==> (#[trigger] self.joins@[k]).1 != CLONE_NEWNS,
            decreases self.joins.len() - i,
        {
            if self.joins[i].1 == CLONE_NEWNS {
                return true;
            }
            i += 1;
        }
        false
    }
}

/// Each kind of namespace of a new container is settled once: the container either
/// gets a new one or joins one. Its mount namespace is always new.
pub proof fn law_namespaces_are_settled_once(
    plan: NamespacePlan,
    is_sandbox: bool,
    share_process_namespace: bool,
    sandbox: Option<ContainerNamespaces>,
    userns: bool,
)
    requires
        plan.create_flags == create_flags(
            NsRequest::Create { is_sandbox, share_process_namespace },
            sandbox,
            userns,
        ),
        plan.joins@ == joins(NsRequest::Create { is_sandbox, share_process_namespace }, sandbox),
    ensures
        plan.makes(CLONE_NEWNS) && !plan.enters(CLONE_NEWNS),
        plan.makes(CLONE_NEWIPC) != plan.enters(CLONE_NEWIPC),
        plan.makes(CLONE_NEWUTS) != plan.enters(CLONE_NEWUTS),
        plan.makes(CLONE_NEWPID) != plan.enters(CLONE_NEWPID),
        plan.makes(CLONE_NEWUSER) == userns,
{
    lemma_flags();
    let request = NsRequest::Create { is_sandbox, share_process_namespace };
    let list = joins(request, sandbox);
    if list.len() > 0 {
        assert(plan.joins@[0].1 == CLONE_NEWIPC);
        assert(plan.joins@[1].1 == CLONE_NEWUTS);
        if list.len() == 3 {
            assert(plan.joins@[2].1 == CLONE_NEWPID);
        }
    }
}

/// The flags are apart.
proof fn lemma_flags()
    ensures
        ({
            &&& (CLONE_NEWNS | CLONE_NEWPID | CLONE_NEWIPC | CLONE_NEWUTS) & CLONE_NEWNS != 0
            &&& (CLONE_NEWNS | CLONE_NEWPID | CLONE_NEWIPC | CLONE_NEWUTS) & CLONE_NEWPID != 0
            &&& (CLONE_NEWNS | CLONE_NEWPID | CLONE_NEWIPC | CLONE_NEWUTS) & CLONE_NEWIPC != 0
            &&& (CLONE_NEWNS | CLONE_NEWPID | CLONE_NEWIPC | CLONE_NEWUTS) & CLONE_NEWUTS != 0
            &&& (CLONE_NEWNS | CLONE_NEWPID | CLONE_NEWIPC | CLONE_NEWUTS) & CLONE_NEWUSER == 0
            &&& (
                CLONE_NEWNS | CLONE_NEWPID | CLONE_NEWIPC | CLONE_NEWUTS | CLONE_NEWUSER
            ) & CLONE_NEWNS != 0
            &&& (
                CLONE_NEWNS | CLONE_NEWPID | CLONE_NEWIPC | CLONE_NEWUTS | CLONE_NEWUSER
            ) & CLONE_NEWPID != 0
            &&& (
                CLONE_NEWNS | CLONE_NEWPID | CLONE_NEWIPC | CLONE_NEWUTS | CLONE_NEWUSER
            ) & CLONE_NEWIPC != 0
            &&& (
                CLONE_NEWNS | CLONE_NEWPID | CLONE_NEWIPC | CLONE_NEWUTS | CLONE_NEWUSER
            ) & CLONE_NEWUTS != 0
            &&& (
                CLONE_NEWNS | CLONE_NEWPID | CLONE_NEWIPC | CLONE_NEWUTS | CLONE_NEWUSER
            ) & CLONE_NEWUSER != 0
            &&& (CLONE_NEWNS) & CLONE_NEWNS != 0
            &&& (CLONE_NEWNS) & CLONE_NEWPID == 0
            &&& (CLONE_NEWNS) & CLONE_NEWIPC == 0
            &&& (CLONE_NEWNS) & CLONE_NEWUTS == 0
            &&& (CLONE_NEWNS) & CLONE_NEWUSER == 0
            &&& (CLONE_NEWNS | CLONE_NEWUSER) & CLONE_NEWNS != 0
            &&& (CLONE_NEWNS | CLONE_NEWUSER) & CLONE_NEWPID == 0
            &&& (CLONE_NEWNS | CLONE_NEWUSER) & CLONE_NEWIPC == 0
            &&& (CLONE_NEWNS | CLONE_NEWUSER) & CLONE_NEWUTS == 0
            &&& (CLONE_NEWNS | CLONE_NEWUSER) & CLONE_NEWUSER != 0
            &&& (CLONE_NEWNS | CLONE_NEWPID) & CLONE_NEWNS != 0
            &&& (CLONE_NEWNS | CLONE_NEWPID) & CLONE_NEWPID != 0
            &&& (CLONE_NEWNS | CLONE_NEWPID) & CLONE_NEWIPC == 0
            &&& (CLONE_NEWNS | CLONE_NEWPID) & CLONE_NEWUTS == 0
            &&& (CLONE_NEWNS | CLONE_NEWPID) & CLONE_NEWUSER == 0
            &&& (CLONE_NEWNS | CLONE_NEWPID | CLONE_NEWUSER) & CLONE_NEWNS != 0
            &&& (CLONE_NEWNS | CLONE_NEWPID | CLONE_NEWUSER) & CLONE_NEWPID != 0
            &&& (CLONE_NEWNS | CLONE_NEWPID | CLONE_NEWUSER) & CLONE_NEWIPC == 0
            &&& (CLONE_NEWNS | CLONE_NEWPID | CLONE_NEWUSER) & CLONE_NEWUTS == 0
            &&& (CLONE_NEWNS | CLONE_NEWPID | CLONE_NEWUSER) & CLONE_NEWUSER != 0
        }),
{
    assert({
        &&& (
            0x0002_0000i32 | 0x2000_0000i32 | 0x0800_0000i32 | 0x0400_0000i32
        ) & 0x0002_0000i32 != 0
        &&& (
            0x0002_0000i32 | 0x2000_0000i32 | 0x0800_0000i32 | 0x0400_0000i32
        ) & 0x2000_0000i32 != 0
        &&& (
            0x0002_0000i32 | 0x2000_0000i32 | 0x0800_0000i32 | 0x0400_0000i32
        ) & 0x0800_0000i32 != 0
        &&& (
            0x0002_0000i32 | 0x2000_0000i32 | 0x0800_0000i32 | 0x0400_0000i32
        ) & 0x0400_0000i32 != 0
        &&& (
            0x0002_0000i32 | 0x2000_0000i32 | 0x0800_0000i32 | 0x0400_0000i32
        ) & 0x1000_0000i32 == 0
        &&& (
            0x0002_0000i32 | 0x2000_0000i32 | 0x0800_0000i32 | 0x0400_0000i32 | 0x1000_0000i32
        ) & 0x0002_0000i32 != 0
        &&& (
            0x0002_0000i32 | 0x2000_0000i32 | 0x0800_0000i32 | 0x0400_0000i32 | 0x1000_0000i32
        ) & 0x2000_0000i32 != 0
        &&& (
            0x0002_0000i32 | 0x2000_0000i32 | 0x0800_0000i32 | 0x0400_0000i32 | 0x1000_0000i32
        ) & 0x0800_0000i32 != 0
        &&& (
            0x0002_0000i32 | 0x2000_0000i32 | 0x0800_0000i32 | 0x0400_0000i32 | 0x1000_0000i32
        ) & 0x0400_0000i32 != 0
        &&& (
            0x0002_0000i32 | 0x2000_0000i32 | 0x0800_0000i32 | 0x0400_0000i32 | 0x1000_0000i32
        ) & 0x1000_0000i32 != 0
        &&& (0x0002_0000i32) & 0x0002_0000i32 != 0
        &&& (0x0002_0000i32) & 0x2000_0000i32 == 0
        &&& (0x0002_0000i32) & 0x0800_0000i32 == 0
        &&& (0x0002_0000i32) & 0x0400_0000i32 == 0
        &&& (0x0002_0000i32) & 0x1000_0000i32 == 0
        &&& (0x0002_0000i32 | 0x1000_0000i32) & 0x0002_0000i32 != 0
        &&& (0x0002_0000i32 | 0x1000_0000i32) & 0x2000_0000i32 == 0
        &&& (0x0002_0000i32 | 0x1000_0000i32) & 0x0800_0000i32 == 0
        &&& (0x0002_0000i32 | 0x1000_0000i32) & 0x0400_0000i32 == 0
        &&& (0x0002_0000i32 | 0x1000_0000i32) & 0x1000_0000i32 != 0
        &&& (0x0002_0000i32 | 0x2000_0000i32) & 0x0002_0000i32 != 0
        &&& (0x0002_0000i32 | 0x2000_0000i32) & 0x2000_0000i32 != 0
        &&& (0x0002_0000i32 | 0x2000_0000i32) & 0x0800_0000i32 == 0
        &&& (0x0002_0000i32 | 0x2000_0000i32) & 0x0400_0000i32 == 0
        &&& (0x0002_0000i32 | 0x2000_0000i32) & 0x1000_0000i32 == 0
        &&& (0x0002_0000i32 | 0x2000_0000i32 | 0x1000_0000i32) & 0x0002_0000i32 != 0
        &&& (0x0002_0000i32 | 0x2000_0000i32 | 0x1000_0000i32) & 0x2000_0000i32 != 0
        &&& (0x0002_0000i32 | 0x2000_0000i32 | 0x1000_0000i32) & 0x0800_0000i32 == 0
        &&& (0x0002_0000i32 | 0x2000_0000i32 | 0x1000_0000i32) & 0x0400_0000i32 == 0
        &&& (0x0002_0000i32 | 0x2000_0000i32 | 0x1000_0000i32) & 0x1000_0000i32 != 0
    }) by (bit_vector);
}

// ---------------------------------------------------------------------------
// Standard streams
// ---------------------------------------------------------------------------

/// How the standard streams of a process are set up.
#[derive(Debug)]
pub enum StdioPlan {
    /// One terminal.
    Terminal,
    /// A pipe for each stream that is asked for.
    Pipes { stdin: bool, stdout: bool, stderr: bool },
    /// Files.
    Files { stdin: Option<String>, stdout: Option<String>, stderr: Option<String> },
}

/// A path that is not empty.
pub open spec fn real_path(p: Option<String>) -> Option<Seq<char>> {
    match p {
        Some(s) => if s@.len() > 0 {
            Some(s@)
        } else {
            None
        },
        None => None,
    }
}

/// The optional text `a` is `b`.
pub open spec fn is_text(a: Option<String>, b: Option<Seq<char>>) -> bool {
    match (a, b) {
        (Some(s), Some(t)) => s@ == t,
        (None, None) => true,
        _ => false,
    }
}

/// Keeps a path that is not empty.
fn keep_path(p: &Option<String>) -> (r: Option<String>)
    ensures
        is_text(r, real_path(*p)),
{
    match p {
        Some(s) => {
            proof {
                reveal_strlit("");
                if s@.len() == 0 {
                    assert(s@ =~= ""@);
                }
            }
            if same(s.as_str(), "") {
                None
            } else {
                Some(s.clone())
            }
        },
        None => None,
    }
}

/// The system's number for a file that is not there.
pub const ENOENT: i32 = 2;

/// The system's number for an operation that it does not know.
pub const EINVAL: i32 = 22;

/// What becomes the standard input of a process after an attempt to open its file.
#[derive(Debug, Clone, Copy, PartialEq, Eq, Structural)]
pub enum InputStep {
    /// The file.
    File,
    /// An empty one, since there is no such file.
    Empty,
    /// None: the process cannot start.
    Fail,
}

/// Settles the standard input of a process after an attempt to open its file, which gives
/// an error number where it fails.
pub fn input_step(error: Option<i32>) -> (r: InputStep)
    ensures
        r == match error {
            None => InputStep::File,
            Some(e) => if e == ENOENT {
                InputStep::Empty
            } else {
                InputStep::Fail
            },
        },
{
    match error {
        None => InputStep::File,
        Some(e) => if e == ENOENT {
            InputStep::Empty
        } else {
            InputStep::Fail
        },
    }
}

/// Tells whether the capabilities that outlive a new program are cleared, after an attempt
/// that gives an error number where it fails. A system that does not know such capabilities
/// has none to clear, which will do where none are wanted.
pub fn ambient_cleared(error: Option<i32>, ambient: u64) -> (r: bool)
    ensures
        r == match error {
            None => true,
            Some(e) => e == EINVAL && ambient == 0,
        },
{
    match error {
        None => true,
        Some(e) => e == EINVAL && ambient == 0,
    }
}

impl StdioPlan {
    /// Settles the standard streams of a process.
    pub fn settle(io: &ContainerIo) -> (r: StdioPlan)
        ensures
            if io.streaming && io.terminal {
                r is Terminal
            } else if io.streaming {
                r == (StdioPlan::Pipes {
                    stdin: io.stdin is Some,
                    stdout: io.stdout is Some,
                    stderr: io.stderr is Some,
                })
            } else {
                r matches StdioPlan::Files { stdin, stdout, stderr } && is_text(
                    stdin,
                    real_path(io.stdin),
                ) && is_text(stdout, real_path(io.stdout)) && is_text(stderr, real_path(io.stderr))
            },
    {
        if io.streaming && io.terminal {
            StdioPlan::Terminal
        } else if io.streaming {
            StdioPlan::Pipes {
                stdin: io.stdin.is_some(),
                stdout: io.stdout.is_some(),
                stderr: io.stderr.is_some(),
            }
        } else {
            StdioPlan::Files {
                stdin: keep_path(&io.stdin),
                stdout: keep_path(&io.stdout),
                stderr: keep_path(&io.stderr),
            }
        }
    }
}

// ---------------------------------------------------------------------------
// Capabilities
// ---------------------------------------------------------------------------

/// The set holds a capability.
pub open spec fn holds(mask: u64, cap: u64) -> bool {
    mask & (1u64 << cap) != 0
}

/// The capabilities below `n` that a set holds, or lacks.
pub open spec fn listed(mask: u64, n: nat, held: bool) -> Seq<u32>
    decreases n,
{
    if n == 0 {
        Seq::empty()
    } else {
        let before = listed(mask, (n - 1) as nat, held);
        if holds(mask, (n - 1) as u64) == held {
            before.push((n - 1) as u32)
        } else {
            before
        }
    }
}

/// Lists the capabilities below `n` that a set holds, or lacks.
fn list_caps(mask: u64, n: u32, held: bool) -> (r: Vec<u32>)
    requires
        n <= 64,
    ensures
        r@ == listed(mask, n as nat, held),
{
    let mut out: Vec<u32> = Vec::new();
    let mut cap: u32 = 0;
    while cap < n
        invariant
            cap <= n <= 64,
            out@ == listed(mask, cap as nat, held),
        decreases n - cap,
    {
        if (mask & (1u64 << (cap as u64)) != 0) == held {
            out.push(cap);
        }
        cap += 1;
    }
    out
}

/// The number of the last capability that the system knows: 40 where it does not say.
pub open spec fn last_cap(text: Option<Seq<char>>) -> nat {
    let n = match text {
        Some(t) => match text::unsigned_value(text::trim_of(t), u32::MAX as nat) {
            Some(n) => n,
            None => 40,
        },
        None => 40,
    };
    if n < 63 {
        n
    } else {
        63
    }
}

impl CapabilitySets {
    /// The capabilities to drop from the bounding set. `last` is what the system says
    /// the number of its last capability is.
    pub fn dropped(&self, last: Option<&str>) -> (r: Vec<u32>)
        ensures
            r@ == listed(
                self.bounding,
                last_cap(text::optional(last)) + 1,
                false,
            ),
    {
        let n: u32 = match last {
            Some(t) => match parse_u32(trim(t).as_str()) {
                Some(n) => n,
                None => 40,
            },
            None => 40,
        };
        let top: u32 = if n < 63 {
            n
        } else {
            63
        };
        list_caps(self.bounding, top + 1, false)
    }

    /// The ambient capabilities.
    pub fn raised(&self) -> (r: Vec<u32>)
        ensures
            r@ == listed(self.ambient, 64, true),
    {
        list_caps(self.ambient, 64, true)
    }

    /// Tells whether capabilities have to outlive the change to the user `uid`.
    pub fn kept_for(&self, uid: u32) -> (r: bool)
        ensures
            r == (uid != 0 && (self.permitted != 0 || self.effective != 0 || self.ambient != 0)),
    {
        uid != 0 && (self.permitted != 0 || self.effective != 0 || self.ambient != 0)
    }
}

/// The two words in which the system takes a set.
pub fn cap_words(mask: u64) -> (r: (u32, u32))
    ensures
        r.0 as int + r.1 as int * 0x1_0000_0000 == mask,
{
    assert((mask as u32) as int + ((mask >> 32) as u32) as int * 0x1_0000_0000 == mask)
        by (bit_vector);
    (mask as u32, (mask >> 32) as u32)
}

/// A capability is dropped if and only if it is not in the bounding set.
pub proof fn law_only_bounding_stays(mask: u64, n: nat, cap: u32)
    requires
        n <= 64,
    ensures
        listed(mask, n, false).contains(cap) == (cap < n && !holds(mask, cap as u64)),
    decreases n,
{
    if n > 0 {
        let before = listed(mask, (n - 1) as nat, false);
        law_only_bounding_stays(mask, (n - 1) as nat, cap);
        let all = listed(mask, n, false);
        if !holds(mask, (n - 1) as u64) {
            assert(all == before.push((n - 1) as u32));
            assert(all.last() == n - 1);
            if before.contains(cap) {
                let i = choose|i: int| 0 <= i < before.len() && before[i] == cap;
                assert(all[i] == cap);
            }
            if all.contains(cap) && cap != n - 1 {
                let i = choose|i: int| 0 <= i < all.len() && all[i] == cap;
                assert(before[i] == cap);
            }
        }
    }
}

} // verus!
