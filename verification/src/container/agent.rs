//! The agent in the guest: which containers there are, and what a request does.

use vstd::prelude::*;

use crate::container::launch;
use crate::container::launch::ContainerNamespaces;
use crate::container::line;
use crate::container::line::{decode_attach, decode_envelope, ContainerEnvelope, DecodeError};
use crate::container::oci::process;
use crate::container::oci::process::{parse_oci_process, Process, ProcessSpec};
use crate::container::oci::seccomp::{Profile, SeccompProfile};
use crate::container::process as supervised;
use crate::container::process::{ProcHandle, ProcSnapshot, PtySize, StartPlan, StartStep, StdinStep};
use crate::container::protocol;
use crate::container::protocol::{
    ContainerIo, ContainerRequest, ContainerResponse, ContainerStatus, IoStreamAck, IoStreamAttach,
    ResourceLimits, SecurityStats, MAX_MESSAGE_BYTES,
};
use crate::json::Js;
use crate::keyed::Keyed;
use crate::text;
use crate::text::{byte_count, cat, chars_of, debug_quoted, trim};
use crate::token::constant_time_eq;

verus! {

/// A container.
#[derive(Debug)]
pub struct ContainerEntry {
    pub rootfs: String,
    pub mounts: Vec<String>,
    pub cgroup_path: String,
    pub seccomp: Option<SeccompProfile>,
    pub namespaces: ContainerNamespaces,
    pub is_sandbox: bool,
    pub init: ProcHandle,
    pub execs: Keyed<ProcHandle>,
}

/// The reading of a container.
pub ghost struct Entry {
    pub rootfs: Seq<char>,
    pub mounts: Seq<Seq<char>>,
    pub cgroup_path: Seq<char>,
    pub seccomp: Option<Profile>,
    pub namespaces: ContainerNamespaces,
    pub is_sandbox: bool,
    pub init: ProcHandle,
    pub execs: Map<Seq<char>, ProcHandle>,
}

impl ContainerEntry {
    pub open spec fn view(self) -> Entry {
        Entry {
            rootfs: self.rootfs@,
            mounts: text::views(self.mounts@),
            cgroup_path: self.cgroup_path@,
            seccomp: process::profile_view(self.seccomp),
            namespaces: self.namespaces,
            is_sandbox: self.is_sandbox,
            init: self.init,
            execs: self.execs.view(),
        }
    }

    /// The process numbers are ones that the system gives out.
    pub open spec fn wf(self) -> bool {
        &&& self.init.wf()
        &&& self.execs.wf()
        &&& forall|k: Seq<char>| #[trigger]
            self.execs.view().contains_key(k) ==> self.execs.view()[k].wf()
    }
}

/// How a process ended.
#[derive(Debug, Clone, Copy)]
pub struct Exit {
    pub code: Option<i32>,
    pub at_unix_nano: Option<i64>,
}

/// One who waits for the end of a process. Removing the process does not end the wait.
#[derive(Debug, Clone, Copy)]
pub struct Waiter {
    pub pid: u32,
    /// The end, once it is known.
    pub exit: Option<Exit>,
}

/// All containers of the guest, the namespaces of its sandbox, and who waits for a
/// process.
#[derive(Debug)]
pub struct Agent {
    pub containers: Keyed<ContainerEntry>,
    pub sandbox: Option<ContainerNamespaces>,
    pub waits: Vec<Option<Waiter>>,
}

/// Who waits, by their tickets.
pub open spec fn waiters(v: Seq<Option<Waiter>>) -> Map<int, Waiter> {
    Map::new(|i: int| 0 <= i < v.len() && v[i] is Some, |i: int| v[i]->0)
}

/// One who begins to wait for a process.
pub open spec fn waiter_for(s: ProcSnapshot) -> Waiter {
    Waiter {
        pid: s.pid,
        exit: if s.status is Stopped {
            Some(Exit { code: s.exit_code, at_unix_nano: s.exited_at_unix_nano })
        } else {
            None
        },
    }
}

/// All who wait for a process are told its end.
pub open spec fn told(m: Map<int, Waiter>, pid: u32, exit: Exit) -> Map<int, Waiter> {
    m.map_values(
        |w: Waiter|
            if w.pid == pid && w.exit is None {
                Waiter { pid, exit: Some(exit) }
            } else {
                w
            },
    )
}

/// Who waits after a request: one more after a request to wait for a process that is
/// there.
pub open spec fn waits_fit(
    m: Map<Seq<char>, Entry>,
    request: ContainerRequest,
    a: Action,
    before: Map<int, Waiter>,
    after: Map<int, Waiter>,
) -> bool {
    match request {
        ContainerRequest::Wait { id, exec_id } => match process_at(
            m,
            id@,
            text::optional_string(exec_id),
        ) {
            Ok(p) => a matches Action::Wait { ticket } && !before.contains_key(ticket as int)
                && after == before.insert(ticket as int, waiter_for(p.state)),
            Err(_) => after == before,
        },
        _ => after == before,
    }
}

/// The readings of containers.
pub open spec fn entries(m: Map<Seq<char>, ContainerEntry>) -> Map<Seq<char>, Entry> {
    m.map_values(|e: ContainerEntry| e.view())
}

/// The error for a container that is not there.
pub open spec fn no_container(id: Seq<char>) -> Seq<char> {
    "container "@ + text::debug_text(id) + " not found"@
}

/// The error for a process that is not there.
pub open spec fn no_exec(id: Seq<char>, exec_id: Seq<char>) -> Seq<char> {
    "exec "@ + text::debug_text(exec_id) + " not found in container "@ + text::debug_text(id)
}

/// A process: the first one of a container, or a further one.
pub open spec fn process_at(
    m: Map<Seq<char>, Entry>,
    id: Seq<char>,
    exec_id: Option<Seq<char>>,
) -> Result<ProcHandle, Seq<char>> {
    if !m.contains_key(id) {
        Err(no_container(id))
    } else {
        match exec_id {
            None => Ok(m[id].init),
            Some(e) => if m[id].execs.contains_key(e) {
                Ok(m[id].execs[e])
            } else {
                Err(no_exec(id, e))
            },
        }
    }
}

/// The containers with one process changed.
pub open spec fn with_process(
    m: Map<Seq<char>, Entry>,
    id: Seq<char>,
    exec_id: Option<Seq<char>>,
    p: ProcHandle,
) -> Map<Seq<char>, Entry> {
    m.insert(
        id,
        match exec_id {
            None => Entry { init: p, ..m[id] },
            Some(e) => Entry { execs: m[id].execs.insert(e, p), ..m[id] },
        },
    )
}

/// One who begins to wait for a process.
fn begin_waiter(p: &ProcHandle) -> (r: Waiter)
    ensures
        r == waiter_for(p.state),
{
    Waiter {
        pid: p.state.pid,
        exit: match p.wait() {
            Some(s) => Some(Exit { code: s.exit_code, at_unix_nano: s.exited_at_unix_nano }),
            None => None,
        },
    }
}

/// Puts the words for a container that is not there together.
fn missing_container(id: &str) -> (r: String)
    ensures
        r@ == no_container(id@),
{
    cat(cat("container ", debug_quoted(id).as_str()).as_str(), " not found")
}

/// Puts the words for a process that is not there together.
fn missing_exec(id: &str, exec_id: &str) -> (r: String)
    ensures
        r@ == no_exec(id@, exec_id@),
{
    let head = cat(
        cat("exec ", debug_quoted(exec_id).as_str()).as_str(),
        " not found in container ",
    );
    cat(head.as_str(), debug_quoted(id).as_str())
}

impl Agent {
    pub open spec fn view(self) -> Map<Seq<char>, Entry> {
        entries(self.containers.view())
    }

    /// The containers have distinct names, and their process numbers are ones that the
    /// system gives out.
    pub open spec fn wf(self) -> bool {
        &&& self.containers.wf()
        &&& forall|k: Seq<char>| #[trigger]
            self.containers.view().contains_key(k) ==> self.containers.view()[k].wf()
    }

    /// An agent without containers.
    pub fn new() -> (r: Agent)
        ensures
            r.wf(),
            r.view() == Map::<Seq<char>, Entry>::empty(),
            r.sandbox is None,
            waiters(r.waits@) == Map::<int, Waiter>::empty(),
    {
        let r = Agent { containers: Keyed::new(), sandbox: None, waits: Vec::new() };
        assert(waiters(r.waits@) =~= Map::<int, Waiter>::empty());
        assert(r.view() =~= Map::<Seq<char>, Entry>::empty());
        r
    }

    /// Finds a process.
    pub fn find_process(&self, id: &str, exec_id: &Option<String>) -> (r: Result<
        &ProcHandle,
        String,
    >)
        requires
            self.wf(),
        ensures
            match (r, process_at(self.view(), id@, text::optional_string(*exec_id))) {
                (Ok(p), Ok(s)) => *p == s && p.wf(),
                (Err(m), Err(e)) => m@ == e,
                _ => false,
            },
    {
        let entry = match self.containers.get(id) {
            None => {
                return Err(missing_container(id));
            },
            Some(entry) => entry,
        };
        match exec_id {
            None => Ok(&entry.init),
            Some(e) => match entry.execs.get(e.as_str()) {
                None => Err(missing_exec(id, e.as_str())),
                Some(p) => Ok(p),
            },
        }
    }

    /// Finds a process, to be changed in place.
    pub fn find_process_mut(&mut self, id: &str, exec_id: &Option<String>) -> (r: Result<
        &mut ProcHandle,
        String,
    >)
        requires
            old(self).wf(),
        ensures
            match (r, process_at(old(self).view(), id@, text::optional_string(*exec_id))) {
                (Ok(p), Ok(s)) => {
                    &&& *p == s
                    &&& p.wf()
                    &&& final(self).view() == with_process(
                        old(self).view(),
                        id@,
                        text::optional_string(*exec_id),
                        *final(p),
                    )
                    &&& final(self).sandbox == old(self).sandbox
                    &&& final(self).waits == old(self).waits
                    &&& final(p).wf() ==> final(self).wf()
                },
                (Err(m), Err(e)) => {
                    &&& m@ == e
                    &&& final(self).view() == old(self).view()
                    &&& final(self).sandbox == old(self).sandbox
                    &&& final(self).waits == old(self).waits
                    &&& final(self).wf()
                },
                _ => false,
            },
    {
        let ghost before = self.containers.view();
        match self.containers.get_mut(id) {
            None => Err(missing_container(id)),
            Some(entry) => {
                let ghost was = *entry;
                proof {
                    lemma_entries(before, id@, *final(entry));
                }
                match exec_id {
                    None => Ok(&mut entry.init),
                    Some(e) => match entry.execs.get_mut(e.as_str()) {
                        None => {
                            assert(entries(before).insert(id@, was.view()) =~= entries(before));
                            Err(missing_exec(id, e.as_str()))
                        },
                        Some(p) => Ok(p),
                    },
                }
            },
        }
    }
}

// ---------------------------------------------------------------------------
// Requests
// ---------------------------------------------------------------------------

/// What a request asks of the outside.
#[derive(Debug)]
pub enum Action {
    /// Nothing: the answer is known.
    Reply(ContainerResponse),
    /// Set the limits of the Pod.
    ConfigureSandbox { resources: ResourceLimits },
    /// Set a container up.
    Create {
        id: String,
        config_json: String,
        io: ContainerIo,
        is_sandbox: bool,
        share_process_namespace: bool,
    },
    /// Open a process's start gate.
    Release { id: String, exec_id: Option<String>, gate: i32 },
    /// Run a further process in a container.
    Exec {
        id: String,
        exec_id: String,
        spec: ProcessSpec,
        io: ContainerIo,
        target: ContainerNamespaces,
        cgroup_path: String,
    },
    /// Send a signal to every process of a control group.
    SignalGroup { cgroup_path: String, signal: i32 },
    /// Send a signal to a process, or to a process group.
    SignalProcess { target: i32, signal: i32 },
    /// Freeze or thaw a container.
    Freeze { id: String, cgroup_path: String, freeze: bool },
    /// Wait until a process has exited.
    Wait { ticket: usize },
    /// List the processes of a control group.
    ReadPids { cgroup_path: String },
    /// Read the counters of a control group.
    ReadStats { cgroup_path: String },
    /// Read the memory events of a control group.
    ReadEvents { cgroup_path: String },
    /// Set the limits of a control group.
    Update { cgroup_path: String, resources: ResourceLimits },
    /// Resize a terminal.
    Resize(PtySize),
    /// Close a standard input.
    CloseStdin(StdinStep),
    /// Remove a process, after it has been killed where that is needed.
    Delete { id: String, exec_id: Option<String>, kill: Option<KillStep> },
}

/// How a process is killed before it is removed: all of a control group first, where
/// there is one, and the process group.
#[derive(Debug)]
pub struct KillStep {
    pub cgroup_path: Option<String>,
    pub target: i32,
}

/// The answer is an error with this message.
pub open spec fn is_error(a: Action, message: Seq<char>) -> bool {
    a matches Action::Reply(ContainerResponse::Error { message: m }) && m@ == message
}

/// The reading of an optional name is kept.
pub open spec fn same_option(a: Option<String>, b: Option<String>) -> bool {
    text::optional_string(a) == text::optional_string(b)
}

/// The start of a process.
pub open spec fn start_fits(
    m: Map<Seq<char>, Entry>,
    id: String,
    exec_id: Option<String>,
    a: Action,
    after: Map<Seq<char>, Entry>,
) -> bool {
    let e = text::optional_string(exec_id);
    match process_at(m, id@, e) {
        Err(message) => is_error(a, message) && after == m,
        Ok(p) => match supervised::start_plan(p.state) {
            StartPlan::Exited => is_error(a, "process already exited"@) && after == m,
            StartPlan::GateMissing => is_error(a, "process start gate is missing"@) && after == m,
            StartPlan::Running(pid) => a == Action::Reply(ContainerResponse::Started { pid })
                && after == m,
            StartPlan::Release(fd) => {
                &&& a matches Action::Release { id: i, exec_id: x, gate } && i@ == id@
                    && same_option(x, exec_id) && gate == fd
                &&& after == with_process(
                    m,
                    id@,
                    e,
                    ProcHandle { state: ProcSnapshot { gate_fd: None, ..p.state }, io: p.io },
                )
            },
        },
    }
}

/// The description of a process.
pub open spec fn state_fits(
    m: Map<Seq<char>, Entry>,
    id: String,
    exec_id: Option<String>,
    a: Action,
) -> bool {
    match process_at(m, id@, text::optional_string(exec_id)) {
        Err(message) => is_error(a, message),
        Ok(p) => a matches Action::Reply(
            ContainerResponse::State {
                id: i,
                exec_id: x,
                status,
                pid,
                exit_code,
                exited_at_unix_nano,
            },
        ) && i@ == id@ && same_option(x, exec_id) && status == p.state.status && pid == p.state.pid
            && exit_code == p.state.exit_code && exited_at_unix_nano
            == p.state.exited_at_unix_nano,
    }
}

/// A further process in a container. It runs in the container's own file system and
/// namespaces, under the container's filter.
pub open spec fn exec_fits(
    m: Map<Seq<char>, Entry>,
    id: String,
    exec_id: String,
    process_json: Seq<char>,
    io: ContainerIo,
    a: Action,
) -> bool {
    if !m.contains_key(id@) {
        is_error(a, no_container(id@))
    } else if m[id@].execs.contains_key(exec_id@) {
        is_error(
            a,
            "exec "@ + text::debug_text(exec_id@) + " already exists in container "@
                + text::debug_text(id@),
        )
    } else {
        match process::process_in(process_json, m[id@].rootfs) {
            Err(message) => is_error(a, message),
            Ok(p) => a matches Action::Exec { id: i, exec_id: x, spec, io: o, target, cgroup_path }
                && i@ == id@ && x@ == exec_id@ && o == io && target == m[id@].namespaces
                && cgroup_path@ == m[id@].cgroup_path && spec.view() == (Process {
                seccomp: m[id@].seccomp,
                ..p
            }),
        }
    }
}

/// A signal. It goes to all processes of a container only where the container as a
/// whole is meant.
pub open spec fn kill_fits(
    m: Map<Seq<char>, Entry>,
    id: Seq<char>,
    exec_id: Option<String>,
    signal: i32,
    all: bool,
    a: Action,
) -> bool {
    if all && exec_id is None {
        if m.contains_key(id) {
            a matches Action::SignalGroup { cgroup_path, signal: s } && cgroup_path@
                == m[id].cgroup_path && s == signal
        } else {
            is_error(a, no_container(id))
        }
    } else {
        match process_at(m, id, text::optional_string(exec_id)) {
            Err(message) => is_error(a, message),
            Ok(p) => match supervised::signal_target(p.state, all) {
                None => a == Action::Reply(ContainerResponse::Killed),
                Some(t) => a matches Action::SignalProcess { target, signal: s } && target == t
                    && s == signal,
            },
        }
    }
}

/// The new size of a terminal.
pub open spec fn resize_fits(
    m: Map<Seq<char>, Entry>,
    id: Seq<char>,
    exec_id: Option<String>,
    width: u32,
    height: u32,
    a: Action,
) -> bool {
    match process_at(m, id, text::optional_string(exec_id)) {
        Err(message) => is_error(a, message),
        Ok(p) => if !supervised::valid_size(width, height) {
            is_error(a, supervised::size_text(width, height))
        } else {
            match p.io {
                supervised::ProcIo::Pty { master_fd, .. } => a == Action::Resize(
                    PtySize { fd: master_fd, rows: height as u16, columns: width as u16 },
                ),
                _ => is_error(a, "process is not a TTY"@),
            }
        },
    }
}

/// The end of a standard input.
pub open spec fn close_fits(
    m: Map<Seq<char>, Entry>,
    id: Seq<char>,
    exec_id: Option<String>,
    a: Action,
    after: Map<Seq<char>, Entry>,
) -> bool {
    let e = text::optional_string(exec_id);
    match process_at(m, id, e) {
        Err(message) => is_error(a, message) && after == m,
        Ok(p) => {
            &&& after == with_process(
                m,
                id,
                e,
                ProcHandle { state: p.state, io: supervised::without_stdin(p.io) },
            )
            &&& match supervised::stdin_step(p.io) {
                StdinStep::Nothing => a == Action::Reply(ContainerResponse::IoClosed),
                step => a == Action::CloseStdin(step),
            }
        },
    }
}

/// The removal of a process. One that still runs is removed only by force.
pub open spec fn delete_fits(
    m: Map<Seq<char>, Entry>,
    id: String,
    exec_id: Option<String>,
    force: bool,
    a: Action,
) -> bool {
    if !m.contains_key(id@) {
        is_error(a, no_container(id@))
    } else {
        match text::optional_string(exec_id) {
            Some(e) => if !m[id@].execs.contains_key(e) {
                is_error(a, "exec "@ + text::debug_text(e) + " not found"@)
            } else {
                let p = m[id@].execs[e];
                if !(p.state.status is Stopped) && !force {
                    is_error(a, "exec "@ + text::debug_text(e) + " is still running"@)
                } else {
                    a matches Action::Delete { id: i, exec_id: x, kill } && i@ == id@
                        && same_option(x, exec_id) && kill_step_is(kill, p, None)
                }
            },
            None => {
                let p = m[id@].init;
                if !(p.state.status is Stopped) && !force {
                    is_error(a, "container "@ + text::debug_text(id@) + " is still running"@)
                } else {
                    a matches Action::Delete { id: i, exec_id: x, kill } && i@ == id@
                        && same_option(x, exec_id) && kill_step_is(
                        kill,
                        p,
                        Some(m[id@].cgroup_path),
                    )
                }
            },
        }
    }
}

/// A process that has exited is not killed; another one is, with its group.
pub open spec fn kill_step_is(
    kill: Option<KillStep>,
    p: ProcHandle,
    cgroup_path: Option<Seq<char>>,
) -> bool {
    match supervised::signal_target(p.state, true) {
        None => kill is None,
        Some(t) => kill matches Some(k) && k.target == t && text::optional_string(k.cgroup_path)
            == cgroup_path,
    }
}

/// What a request asks of the outside, and how it changes the containers.
pub open spec fn fits(
    m: Map<Seq<char>, Entry>,
    request: ContainerRequest,
    a: Action,
    after: Map<Seq<char>, Entry>,
) -> bool {
    match request {
        ContainerRequest::Ping => a == Action::Reply(ContainerResponse::Pong) && after == m,
        ContainerRequest::ConfigureSandboxResources { resources } => a
            == (Action::ConfigureSandbox { resources }) && after == m,
        ContainerRequest::Create {
            id,
            config_json,
            io,
            is_sandbox,
            share_process_namespace,
            network_policy,
        } => a == (Action::Create { id, config_json, io, is_sandbox, share_process_namespace })
            && after == m,
        ContainerRequest::Start { id, exec_id } => start_fits(m, id, exec_id, a, after),
        ContainerRequest::State { id, exec_id } => state_fits(m, id, exec_id, a) && after == m,
        ContainerRequest::Exec { id, exec_id, process_json, io } => exec_fits(
            m,
            id,
            exec_id,
            process_json@,
            io,
            a,
        ) && after == m,
        ContainerRequest::Kill { id, exec_id, signal, all } => kill_fits(
            m,
            id@,
            exec_id,
            signal,
            all,
            a,
        ) && after == m,
        ContainerRequest::Pause { id } => {
            &&& if m.contains_key(id@) {
                a matches Action::Freeze { id: i, cgroup_path, freeze } && i@ == id@
                    && cgroup_path@ == m[id@].cgroup_path && freeze
            } else {
                is_error(a, no_container(id@))
            }
            &&& after == m
        },
        ContainerRequest::Resume { id } => {
            &&& if m.contains_key(id@) {
                a matches Action::Freeze { id: i, cgroup_path, freeze } && i@ == id@
                    && cgroup_path@ == m[id@].cgroup_path && !freeze
            } else {
                is_error(a, no_container(id@))
            }
            &&& after == m
        },
        ContainerRequest::Wait { id, exec_id } => {
            &&& match process_at(m, id@, text::optional_string(exec_id)) {
                Err(message) => is_error(a, message),
                Ok(_) => a is Wait,
            }
            &&& after == m
        },
        ContainerRequest::Pids { id } => {
            &&& if m.contains_key(id@) {
                a matches Action::ReadPids { cgroup_path } && cgroup_path@ == m[id@].cgroup_path
            } else {
                is_error(a, no_container(id@))
            }
            &&& after == m
        },
        ContainerRequest::Stats { id } => {
            &&& if m.contains_key(id@) {
                a matches Action::ReadStats { cgroup_path } && cgroup_path@ == m[id@].cgroup_path
            } else {
                is_error(a, no_container(id@))
            }
            &&& after == m
        },
        ContainerRequest::CgroupEvents { id } => {
            &&& if m.contains_key(id@) {
                a matches Action::ReadEvents { cgroup_path } && cgroup_path@ == m[id@].cgroup_path
            } else {
                is_error(a, no_container(id@))
            }
            &&& after == m
        },
        ContainerRequest::SecurityStats => {
            &&& a matches Action::Reply(ContainerResponse::SecurityStats { stats })
                && stats.seccomp_notify_received == 0 && stats.seccomp_notify_denied == 0
                && stats.seccomp_notify_continued == 0 && stats.seccomp_notify_errors == 0
                && stats.selinux_mounts_labeled == 0 && stats.lsm_apply_failures == 0
            &&& after == m
        },
        ContainerRequest::UpdateResources { id, resources } => {
            &&& if m.contains_key(id@) {
                a matches Action::Update { cgroup_path, resources: r } && cgroup_path@
                    == m[id@].cgroup_path && r == resources
            } else {
                is_error(a, no_container(id@))
            }
            &&& after == m
        },
        ContainerRequest::ResizePty { id, exec_id, width, height } => resize_fits(
            m,
            id@,
            exec_id,
            width,
            height,
            a,
        ) && after == m,
        ContainerRequest::CloseIo { id, exec_id } => close_fits(m, id@, exec_id, a, after),
        ContainerRequest::Delete { id, exec_id, force } => delete_fits(m, id, exec_id, force, a)
            && after == m,
    }
}

/// An error as an answer.
fn error(message: String) -> (r: Action)
    ensures
        is_error(r, message@),
{
    Action::Reply(ContainerResponse::Error { message })
}

/// Copies an optional name.
fn copy_option(s: &Option<String>) -> (r: Option<String>)
    ensures
        same_option(r, *s),
{
    match s {
        Some(t) => Some(t.clone()),
        None => None,
    }
}

impl Agent {
    /// The control group of a container.
    pub fn container_cgroup(&self, id: &str) -> (r: Result<String, String>)
        requires
            self.wf(),
        ensures
            match r {
                Ok(p) => self.view().contains_key(id@) && p@ == self.view()[id@].cgroup_path,
                Err(m) => !self.view().contains_key(id@) && m@ == no_container(id@),
            },
    {
        match self.containers.get(id) {
            None => Err(missing_container(id)),
            Some(entry) => Ok(entry.cgroup_path.clone()),
        }
    }

    /// Starts a process.
    fn start_process(&mut self, id: String, exec_id: Option<String>) -> (r: Action)
        requires
            old(self).wf(),
        ensures
            final(self).wf(),
            final(self).sandbox == old(self).sandbox,
            final(self).waits == old(self).waits,
            start_fits(old(self).view(), id, exec_id, r, final(self).view()),
    {
        let ghost before = self.view();
        match self.find_process_mut(id.as_str(), &exec_id) {
            Err(m) => error(m),
            Ok(p) => {
                let ghost was = *p;
                match p.start() {
                    StartStep::Done(Ok(pid)) => {
                        proof {
                            lemma_same_process(before, id@, text::optional_string(exec_id), was);
                        }
                        Action::Reply(ContainerResponse::Started { pid })
                    },
                    StartStep::Done(Err(m)) => {
                        proof {
                            lemma_same_process(before, id@, text::optional_string(exec_id), was);
                        }
                        error(m)
                    },
                    StartStep::Release(gate) => Action::Release { id, exec_id, gate },
                }
            },
        }
    }

    /// Describes a process.
    fn state_process(&self, id: String, exec_id: Option<String>) -> (r: Action)
        requires
            self.wf(),
        ensures
            state_fits(self.view(), id, exec_id, r),
    {
        match self.find_process(id.as_str(), &exec_id) {
            Err(m) => error(m),
            Ok(p) => {
                let state = p.snapshot();
                Action::Reply(
                    ContainerResponse::State {
                        id,
                        exec_id,
                        status: state.status,
                        pid: state.pid,
                        exit_code: state.exit_code,
                        exited_at_unix_nano: state.exited_at_unix_nano,
                    },
                )
            },
        }
    }

    /// Settles a further process of a container.
    fn create_exec(
        &self,
        id: String,
        exec_id: String,
        process_json: &str,
        io: ContainerIo,
    ) -> (r: Action)
        requires
            self.wf(),
        ensures
            exec_fits(self.view(), id, exec_id, process_json@, io, r),
    {
        let entry = match self.containers.get(id.as_str()) {
            None => {
                return error(missing_container(id.as_str()));
            },
            Some(entry) => entry,
        };
        if entry.execs.get(exec_id.as_str()).is_some() {
            let head = cat(
                cat("exec ", debug_quoted(exec_id.as_str()).as_str()).as_str(),
                " already exists in container ",
            );
            return error(cat(head.as_str(), debug_quoted(id.as_str()).as_str()));
        }
        match parse_oci_process(process_json, entry.rootfs.clone()) {
            Err(m) => error(m),
            Ok(mut spec) => {
                spec.seccomp = match &entry.seccomp {
                    Some(p) => Some(p.copy()),
                    None => None,
                };
                Action::Exec {
                    id,
                    exec_id,
                    spec,
                    io,
                    target: entry.namespaces,
                    cgroup_path: entry.cgroup_path.clone(),
                }
            },
        }
    }

    /// Settles where a signal goes.
    fn kill(&self, id: &str, exec_id: &Option<String>, signal: i32, all: bool) -> (r: Action)
        requires
            self.wf(),
        ensures
            kill_fits(self.view(), id@, *exec_id, signal, all, r),
    {
        if all && exec_id.is_none() {
            return match self.container_cgroup(id) {
                Ok(cgroup_path) => Action::SignalGroup { cgroup_path, signal },
                Err(m) => error(m),
            };
        }
        match self.find_process(id, exec_id) {
            Err(m) => error(m),
            Ok(p) => match p.signal(all) {
                None => Action::Reply(ContainerResponse::Killed),
                Some(target) => Action::SignalProcess { target, signal },
            },
        }
    }

    /// Closes a standard input.
    fn close_io(&mut self, id: &str, exec_id: &Option<String>) -> (r: Action)
        requires
            old(self).wf(),
        ensures
            final(self).wf(),
            final(self).sandbox == old(self).sandbox,
            final(self).waits == old(self).waits,
            close_fits(old(self).view(), id@, *exec_id, r, final(self).view()),
    {
        match self.find_process_mut(id, exec_id) {
            Err(m) => error(m),
            Ok(p) => match p.close_stdin() {
                StdinStep::Nothing => Action::Reply(ContainerResponse::IoClosed),
                step => Action::CloseStdin(step),
            },
        }
    }

    /// Settles how a process is removed.
    fn delete(&self, id: String, exec_id: Option<String>, force: bool) -> (r: Action)
        requires
            self.wf(),
        ensures
            delete_fits(self.view(), id, exec_id, force, r),
    {
        let entry = match self.containers.get(id.as_str()) {
            None => {
                return error(missing_container(id.as_str()));
            },
            Some(entry) => entry,
        };
        match &exec_id {
            Some(e) => {
                let quoted = debug_quoted(e.as_str());
                match entry.execs.get(e.as_str()) {
                    None => error(cat(cat("exec ", quoted.as_str()).as_str(), " not found")),
                    Some(p) => match p.signal(true) {
                        None => Action::Delete { id, exec_id: copy_option(&exec_id), kill: None },
                        Some(target) => if force {
                            Action::Delete {
                                id,
                                exec_id: copy_option(&exec_id),
                                kill: Some(KillStep { cgroup_path: None, target }),
                            }
                        } else {
                            error(cat(cat("exec ", quoted.as_str()).as_str(), " is still running"))
                        },
                    },
                }
            },
            None => match entry.init.signal(true) {
                None => Action::Delete { id, exec_id: None, kill: None },
                Some(target) => if force {
                    Action::Delete {
                        id,
                        exec_id: None,
                        kill: Some(
                            KillStep { cgroup_path: Some(entry.cgroup_path.clone()), target },
                        ),
                    }
                } else {
                    let quoted = debug_quoted(id.as_str());
                    error(cat(cat("container ", quoted.as_str()).as_str(), " is still running"))
                },
            },
        }
    }

    /// Takes one up who waits, under a ticket that nobody has.
    fn begin_wait(&mut self, waiter: Waiter) -> (r: usize)
        requires
            old(self).wf(),
        ensures
            final(self).wf(),
            final(self).view() == old(self).view(),
            final(self).sandbox == old(self).sandbox,
            !waiters(old(self).waits@).contains_key(r as int),
            waiters(final(self).waits@) == waiters(old(self).waits@).insert(r as int, waiter),
    {
        let ghost before = self.waits@;
        let mut i: usize = 0;
        while i < self.waits.len() && self.waits[i].is_some()
            invariant
                i <= self.waits.len(),
            decreases self.waits.len() - i,
        {
            i += 1;
        }
        if i < self.waits.len() {
            self.waits.set(i, Some(waiter));
        } else {
            self.waits.push(Some(waiter));
        }
        assert(waiters(self.waits@) =~= waiters(before).insert(i as int, waiter));
        i
    }

    /// Settles what a request asks of the outside.
    pub fn dispatch(&mut self, request: ContainerRequest) -> (r: Action)
        requires
            old(self).wf(),
        ensures
            final(self).wf(),
            final(self).sandbox == old(self).sandbox,
            fits(old(self).view(), request, r, final(self).view()),
            waits_fit(
                old(self).view(),
                request,
                r,
                waiters(old(self).waits@),
                waiters(final(self).waits@),
            ),
    {
        match request {
            ContainerRequest::Ping => Action::Reply(ContainerResponse::Pong),
            ContainerRequest::ConfigureSandboxResources { resources } => Action::ConfigureSandbox {
                resources,
            },
            ContainerRequest::Create {
                id,
                config_json,
                io,
                is_sandbox,
                share_process_namespace,
                network_policy: _,
            } => Action::Create { id, config_json, io, is_sandbox, share_process_namespace },
            ContainerRequest::Start { id, exec_id } => self.start_process(id, exec_id),
            ContainerRequest::State { id, exec_id } => self.state_process(id, exec_id),
            ContainerRequest::Exec { id, exec_id, process_json, io } => self.create_exec(
                id,
                exec_id,
                process_json.as_str(),
                io,
            ),
            ContainerRequest::Kill { id, exec_id, signal, all } => self.kill(
                id.as_str(),
                &exec_id,
                signal,
                all,
            ),
            ContainerRequest::Pause { id } => match self.container_cgroup(id.as_str()) {
                Ok(cgroup_path) => Action::Freeze { id, cgroup_path, freeze: true },
                Err(m) => error(m),
            },
            ContainerRequest::Resume { id } => match self.container_cgroup(id.as_str()) {
                Ok(cgroup_path) => Action::Freeze { id, cgroup_path, freeze: false },
                Err(m) => error(m),
            },
            ContainerRequest::Wait { id, exec_id } => match self.find_process(
                id.as_str(),
                &exec_id,
            ) {
                Ok(p) => {
                    let waiter = begin_waiter(p);
                    Action::Wait { ticket: self.begin_wait(waiter) }
                },
                Err(m) => error(m),
            },
            ContainerRequest::Pids { id } => match self.container_cgroup(id.as_str()) {
                Ok(cgroup_path) => Action::ReadPids { cgroup_path },
                Err(m) => error(m),
            },
            ContainerRequest::Stats { id } => match self.container_cgroup(id.as_str()) {
                Ok(cgroup_path) => Action::ReadStats { cgroup_path },
                Err(m) => error(m),
            },
            ContainerRequest::CgroupEvents { id } => match self.container_cgroup(id.as_str()) {
                Ok(cgroup_path) => Action::ReadEvents { cgroup_path },
                Err(m) => error(m),
            },
            ContainerRequest::SecurityStats => Action::Reply(
                ContainerResponse::SecurityStats { stats: SecurityStats::default() },
            ),
            ContainerRequest::UpdateResources { id, resources } => match self.container_cgroup(
                id.as_str(),
            ) {
                Ok(cgroup_path) => Action::Update { cgroup_path, resources },
                Err(m) => error(m),
            },
            ContainerRequest::ResizePty { id, exec_id, width, height } => match self.find_process(
                id.as_str(),
                &exec_id,
            ) {
                Ok(p) => match p.resize_pty(width, height) {
                    Ok(size) => Action::Resize(size),
                    Err(m) => error(m),
                },
                Err(m) => error(m),
            },
            ContainerRequest::CloseIo { id, exec_id } => self.close_io(id.as_str(), &exec_id),
            ContainerRequest::Delete { id, exec_id, force } => self.delete(id, exec_id, force),
        }
    }
}

// ---------------------------------------------------------------------------
// What follows an action
// ---------------------------------------------------------------------------

/// An answer that is an error with this message.
pub open spec fn refuses(r: ContainerResponse, message: Seq<char>) -> bool {
    r matches ContainerResponse::Error { message: m } && m@ == message
}

/// A time, or the present one.
pub open spec fn time_or(t: Option<i64>, now: i64) -> i64 {
    match t {
        Some(v) => v,
        None => now,
    }
}

/// An exit code, or another one.
pub open spec fn code_or(c: Option<i32>, other: i32) -> i32 {
    match c {
        Some(v) => v,
        None => other,
    }
}

/// What is left to do after a process was removed.
#[derive(Debug)]
pub struct Removal {
    pub response: ContainerResponse,
    /// The container that went with it.
    pub entry: Option<ContainerEntry>,
    /// The further process that was removed.
    pub process: Option<ProcHandle>,
}

/// The descriptors of processes, in their order.
pub open spec fn descriptors_of(execs: Seq<(String, ProcHandle)>) -> Seq<i32>
    decreases execs.len(),
{
    if execs.len() == 0 {
        seq![]
    } else {
        descriptors_of(execs.drop_last()) + supervised::descriptors(execs.last().1.io)
    }
}

impl ContainerEntry {
    /// Gives up the container; the caller closes the descriptors that are returned: those
    /// of its namespaces, then those of its processes.
    pub fn close(self) -> (r: Vec<i32>)
        ensures
            r@ == launch::held(self.namespaces) + supervised::descriptors(self.init.io)
                + descriptors_of(self.execs.items@),
    {
        let mut namespaces = self.namespaces;
        let mut out: Vec<i32> = namespaces.close();
        let mut more: Vec<i32> = self.init.io.descriptors();
        out.append(&mut more);
        let ghost start = out@;
        let mut i: usize = 0;
        while i < self.execs.items.len()
            invariant
                i <= self.execs.items@.len(),
                out@ == start + descriptors_of(self.execs.items@.take(i as int)),
            decreases self.execs.items.len() - i,
        {
            assert(self.execs.items@.take(i + 1).drop_last() =~= self.execs.items@.take(i as int));
            let mut more: Vec<i32> = self.execs.items[i].1.io.descriptors();
            out.append(&mut more);
            i += 1;
        }
        assert(self.execs.items@.take(i as int) =~= self.execs.items@);
        out
    }
}

/// The containers after a process was removed.
pub open spec fn without_process(
    m: Map<Seq<char>, Entry>,
    id: Seq<char>,
    exec_id: Option<Seq<char>>,
) -> Map<Seq<char>, Entry> {
    match exec_id {
        None => m.remove(id),
        Some(e) => m.insert(id, Entry { execs: m[id].execs.remove(e), ..m[id] }),
    }
}

/// Judges an action that has one answer.
pub fn finished(outcome: Result<(), String>, done: ContainerResponse) -> (r: ContainerResponse)
    ensures
        match outcome {
            Ok(_) => r == done,
            Err(e) => r == (ContainerResponse::Error { message: e }),
        },
{
    match outcome {
        Ok(_) => done,
        Err(message) => ContainerResponse::Error { message },
    }
}

impl Agent {
    /// Records how opening a process's start gate went.
    pub fn released(
        &mut self,
        id: &str,
        exec_id: &Option<String>,
        outcome: Result<(), String>,
    ) -> (r: ContainerResponse)
        requires
            old(self).wf(),
        ensures
            final(self).wf(),
            final(self).sandbox == old(self).sandbox,
            final(self).waits == old(self).waits,
            ({
                let e = text::optional_string(*exec_id);
                match process_at(old(self).view(), id@, e) {
                    Err(message) => refuses(r, message) && final(self).view() == old(self).view(),
                    Ok(p) => match outcome {
                        Ok(_) => r == (ContainerResponse::Started { pid: p.state.pid })
                            && final(self).view() == with_process(
                            old(self).view(),
                            id@,
                            e,
                            ProcHandle {
                                state: supervised::with_status(p.state, ContainerStatus::Running),
                                io: p.io,
                            },
                        ),
                        Err(x) => refuses(
                            r,
                            supervised::failure_text("releasing process start gate failed"@, x@),
                        ) && final(self).view() == old(self).view(),
                    },
                }
            }),
    {
        let ghost before = self.view();
        match self.find_process_mut(id, exec_id) {
            Err(message) => ContainerResponse::Error { message },
            Ok(p) => {
                let ghost was = *p;
                match p.released(outcome) {
                    Ok(pid) => ContainerResponse::Started { pid },
                    Err(message) => {
                        proof {
                            lemma_same_process(before, id@, text::optional_string(*exec_id), was);
                        }
                        ContainerResponse::Error { message }
                    },
                }
            },
        }
    }

    /// Records how freezing or thawing a container went.
    pub fn frozen(&mut self, id: &str, freeze: bool, outcome: Result<(), String>) -> (r:
        ContainerResponse)
        requires
            old(self).wf(),
        ensures
            final(self).wf(),
            final(self).sandbox == old(self).sandbox,
            final(self).waits == old(self).waits,
            match outcome {
                Err(e) => refuses(r, e@) && final(self).view() == old(self).view(),
                Ok(_) => match process_at(old(self).view(), id@, None) {
                    Err(message) => refuses(r, message) && final(self).view() == old(self).view(),
                    Ok(p) => {
                        &&& r == if freeze {
                            ContainerResponse::Paused
                        } else {
                            ContainerResponse::Resumed
                        }
                        &&& final(self).view() == with_process(
                            old(self).view(),
                            id@,
                            None,
                            ProcHandle {
                                state: supervised::with_status(
                                    p.state,
                                    if freeze {
                                        ContainerStatus::Paused
                                    } else {
                                        ContainerStatus::Running
                                    },
                                ),
                                io: p.io,
                            },
                        )
                    },
                },
            },
    {
        if let Err(message) = outcome {
            return ContainerResponse::Error { message };
        }
        match self.find_process_mut(id, &None) {
            Err(message) => ContainerResponse::Error { message },
            Ok(p) => if freeze {
                p.set_status(ContainerStatus::Paused);
                ContainerResponse::Paused
            } else {
                p.set_status(ContainerStatus::Running);
                ContainerResponse::Resumed
            },
        }
    }

    /// Records that a process has exited, and tells those who wait for it; the caller closes
    /// the descriptor that is returned. The process itself may have been removed before.
    pub fn exited(
        &mut self,
        id: &str,
        exec_id: &Option<String>,
        pid: u32,
        code: i32,
        now: i64,
    ) -> (r: Option<i32>)
        requires
            old(self).wf(),
        ensures
            final(self).wf(),
            final(self).sandbox == old(self).sandbox,
            waiters(final(self).waits@) == told(
                waiters(old(self).waits@),
                pid,
                Exit { code: Some(code), at_unix_nano: Some(now) },
            ),
            ({
                let e = text::optional_string(*exec_id);
                match process_at(old(self).view(), id@, e) {
                    Err(_) => r is None && final(self).view() == old(self).view(),
                    Ok(p) => if p.state.pid == pid {
                        r == p.state.gate_fd && final(self).view() == with_process(
                            old(self).view(),
                            id@,
                            e,
                            ProcHandle { state: supervised::exited(p.state, code, now), io: p.io },
                        )
                    } else {
                        r is None && final(self).view() == old(self).view()
                    },
                }
            }),
    {
        self.tell(pid, Exit { code: Some(code), at_unix_nano: Some(now) });
        let same = match self.find_process(id, exec_id) {
            Err(_) => false,
            Ok(p) => p.state.pid == pid,
        };
        if !same {
            return None;
        }
        match self.find_process_mut(id, exec_id) {
            Err(_) => None,
            Ok(p) => p.mark_exited(code, now),
        }
    }

    /// Tells all who wait for a process its end.
    fn tell(&mut self, pid: u32, exit: Exit)
        requires
            old(self).wf(),
        ensures
            final(self).wf(),
            final(self).view() == old(self).view(),
            final(self).sandbox == old(self).sandbox,
            waiters(final(self).waits@) == told(waiters(old(self).waits@), pid, exit),
    {
        let ghost before = self.waits@;
        let ghost after = told(waiters(before), pid, exit);
        let ghost containers = self.containers;
        let ghost sandbox = self.sandbox;
        let mut i: usize = 0;
        while i < self.waits.len()
            invariant
                i <= self.waits.len(),
                self.waits@.len() == before.len(),
                after == told(waiters(before), pid, exit),
                self.containers == containers,
                self.sandbox == sandbox,
                forall|k: int| i <= k < before.len() ==> #[trigger] self.waits@[k] == before[k],
                forall|k: int|
                    0 <= k < i ==> (#[trigger] self.waits@[k] is Some) == (before[k] is Some),
                forall|k: int|
                    0 <= k < i && before[k] is Some ==> (#[trigger] self.waits@[k])->0
                        == after[k],
            decreases self.waits.len() - i,
        {
            assert(self.waits@[i as int] == before[i as int]);
            if let Some(w) = self.waits[i] {
                assert(waiters(before).contains_key(i as int));
                if w.pid == pid && w.exit.is_none() {
                    self.waits.set(i, Some(Waiter { pid, exit: Some(exit) }));
                }
            }
            i += 1;
        }
        assert(waiters(self.waits@) =~= after);
    }

    /// The answer to a wait, once the process has exited; the ticket is then used up.
    pub fn waited(&mut self, ticket: usize, now: i64) -> (r: Option<ContainerResponse>)
        requires
            old(self).wf(),
        ensures
            final(self).wf(),
            final(self).view() == old(self).view(),
            final(self).sandbox == old(self).sandbox,
            ({
                let m = waiters(old(self).waits@);
                if m.contains_key(ticket as int) && m[ticket as int].exit is Some {
                    let exit = m[ticket as int].exit->0;
                    &&& r == Some(
                        ContainerResponse::Exited {
                            exit_code: code_or(exit.code, 255),
                            exited_at_unix_nano: time_or(exit.at_unix_nano, now),
                        },
                    )
                    &&& waiters(final(self).waits@) == m.remove(ticket as int)
                } else {
                    r is None && waiters(final(self).waits@) == m
                }
            }),
    {
        let ghost before = self.waits@;
        if ticket >= self.waits.len() {
            return None;
        }
        match self.waits[ticket] {
            Some(Waiter { pid: _, exit: Some(exit) }) => {
                self.waits.set(ticket, None);
                assert(waiters(self.waits@) =~= waiters(before).remove(ticket as int));
                Some(
                    ContainerResponse::Exited {
                        exit_code: match exit.code {
                            Some(c) => c,
                            None => 255,
                        },
                        exited_at_unix_nano: match exit.at_unix_nano {
                            Some(t) => t,
                            None => now,
                        },
                    },
                )
            },
            _ => None,
        }
    }

    /// Tells whether a container of this name can be set up.
    pub fn free_name(&self, id: &str) -> (r: Result<(), String>)
        requires
            self.wf(),
        ensures
            match r {
                Ok(_) => !self.view().contains_key(id@),
                Err(m) => self.view().contains_key(id@) && m@ == "container "@ + text::debug_text(
                    id@,
                ) + " already exists"@,
            },
    {
        match self.containers.get(id) {
            None => Ok(()),
            Some(_) => {
                let quoted = debug_quoted(id);
                Err(cat(cat("container ", quoted.as_str()).as_str(), " already exists"))
            },
        }
    }

    /// Records a container that was set up. A sandbox lends its namespaces to the
    /// containers that follow.
    pub fn add_container(&mut self, id: String, entry: ContainerEntry) -> (r: ContainerResponse)
        requires
            old(self).wf(),
            entry.wf(),
        ensures
            final(self).wf(),
            final(self).view() == old(self).view().insert(id@, entry.view()),
            final(self).sandbox == if entry.is_sandbox {
                Some(entry.namespaces)
            } else {
                old(self).sandbox
            },
            final(self).waits == old(self).waits,
            r == (ContainerResponse::Created {
                pid: entry.init.state.pid,
                container_identity: 0,
            }),
    {
        let pid: u32 = entry.init.state.pid;
        if entry.is_sandbox {
            self.sandbox = Some(entry.namespaces);
        }
        proof {
            lemma_entries(self.containers.view(), id@, entry);
        }
        self.containers.insert(id, entry);
        ContainerResponse::Created { pid, container_identity: 0 }
    }

    /// Records a further process of a container.
    pub fn add_exec(&mut self, id: &str, exec_id: String, handle: ProcHandle) -> (r:
        ContainerResponse)
        requires
            old(self).wf(),
            handle.wf(),
        ensures
            final(self).wf(),
            final(self).sandbox == old(self).sandbox,
            final(self).waits == old(self).waits,
            if old(self).view().contains_key(id@) {
                &&& r == (ContainerResponse::ExecStarted { pid: handle.state.pid })
                &&& final(self).view() == with_process(
                    old(self).view(),
                    id@,
                    Some(exec_id@),
                    handle,
                )
            } else {
                refuses(r, no_container(id@)) && final(self).view() == old(self).view()
            },
    {
        let ghost before = self.containers.view();
        let pid: u32 = handle.state.pid;
        match self.containers.get_mut(id) {
            None => ContainerResponse::Error { message: missing_container(id) },
            Some(entry) => {
                proof {
                    lemma_entries(before, id@, *final(entry));
                }
                entry.execs.insert(exec_id, handle);
                ContainerResponse::ExecStarted { pid }
            },
        }
    }

    /// Removes a process that has exited. With the first process of a container the
    /// container goes, and with a sandbox its namespaces. Those who wait go on waiting.
    pub fn delete_process(&mut self, id: &str, exec_id: &Option<String>, now: i64) -> (r: Option<
        Removal,
    >)
        requires
            old(self).wf(),
        ensures
            final(self).wf(),
            final(self).waits == old(self).waits,
            ({
                let e = text::optional_string(*exec_id);
                match process_at(old(self).view(), id@, e) {
                    Ok(p) => if p.state.status is Stopped {
                        &&& r matches Some(x) && x.response == (ContainerResponse::Deleted {
                            pid: p.state.pid,
                            exit_code: code_or(p.state.exit_code, 0),
                            exited_at_unix_nano: time_or(p.state.exited_at_unix_nano, now),
                        }) && match x.entry {
                            Some(c) => e is None && c.view() == old(self).view()[id@],
                            None => e is Some,
                        } && x.process == if e is Some {
                            Some(p)
                        } else {
                            None
                        }
                        &&& final(self).view() == without_process(old(self).view(), id@, e)
                        &&& final(self).sandbox == if e is None && old(self).view()[id@].is_sandbox {
                            None
                        } else {
                            old(self).sandbox
                        }
                    } else {
                        r is None && final(self).view() == old(self).view() && final(self).sandbox
                            == old(self).sandbox
                    },
                    Err(_) => r is None && final(self).view() == old(self).view() && final(self).sandbox == old(self).sandbox,
                }
            }),
    {
        let state = match self.find_process(id, exec_id) {
            Err(_) => {
                return None;
            },
            Ok(p) => match p.wait() {
                None => {
                    return None;
                },
                Some(state) => state,
            },
        };
        let response = ContainerResponse::Deleted {
            pid: state.pid,
            exit_code: match state.exit_code {
                Some(c) => c,
                None => 0,
            },
            exited_at_unix_nano: match state.exited_at_unix_nano {
                Some(t) => t,
                None => now,
            },
        };
        let ghost before = self.containers.view();
        match exec_id {
            Some(e) => {
                let mut removed: Option<ProcHandle> = None;
                if let Some(entry) = self.containers.get_mut(id) {
                    proof {
                        lemma_entries(before, id@, *final(entry));
                    }
                    removed = entry.execs.remove(e.as_str());
                }
                Some(Removal { response, entry: None, process: removed })
            },
            None => match self.containers.remove(id) {
                None => None,
                Some(entry) => {
                    if entry.is_sandbox {
                        self.sandbox = None;
                    }
                    assert(entries(before).remove(id@) =~= entries(before.remove(id@)));
                    Some(Removal { response, entry: Some(entry), process: None })
                },
            },
        }
    }
}

// ---------------------------------------------------------------------------
// Connections
// ---------------------------------------------------------------------------

/// The longest attach request, in bytes.
pub const MAX_ATTACH_BYTES: usize = 65_536;

/// The secret in a file, if there is one.
pub open spec fn secret_in(content: Option<Seq<char>>) -> Option<Seq<char>> {
    match content {
        Some(t) => if text::trim_of(t).len() > 0 {
            Some(text::trim_of(t))
        } else {
            None
        },
        None => None,
    }
}

/// Reads the secret out of a file.
pub fn token_in(content: Option<&str>) -> (r: Option<String>)
    ensures
        text::optional_string(r) == secret_in(text::optional(content)),
{
    match content {
        None => None,
        Some(t) => {
            let secret = trim(t);
            if chars_of(secret.as_str()).len() > 0 {
                Some(secret)
            } else {
                None
            }
        },
    }
}

/// A sender is trusted: there is no secret, or the sender knows it.
pub open spec fn trusted(expected: Option<Seq<char>>, given: Option<Seq<char>>) -> bool {
    expected is None || given == expected
}

/// Tells whether a sender is trusted.
fn knows(expected: &Option<String>, given: &Option<String>) -> (r: bool)
    ensures
        r == trusted(text::optional_string(*expected), text::optional_string(*given)),
{
    match expected {
        None => true,
        Some(e) => match given {
            None => false,
            Some(g) => constant_time_eq(e.as_str(), g.as_str()),
        },
    }
}

/// What a line on the connection for requests means.
#[derive(Debug)]
pub enum Incoming {
    /// There is no line.
    Closed,
    /// The request is refused.
    Reply(ContainerResponse),
    /// The request is carried out.
    Accepted(ContainerRequest),
    /// The line is no request.
    Unreadable(DecodeError),
}

/// What a line on the connection for requests means. A request that is too long or
/// comes without the secret is refused. `fault` is what the typed reader of messages has
/// against the line.
pub fn read_request(line: &str, expected: &Option<String>, fault: Option<String>) -> (r: Incoming)
    ensures
        if line@.len() == 0 {
            r is Closed
        } else if text::byte_len(line@) > MAX_MESSAGE_BYTES {
            r matches Incoming::Reply(x) && refuses(x, "request exceeds 16777216 bytes"@)
        } else if fault is Some {
            r matches Incoming::Unreadable(x) && line::is_refused(x, fault->0@)
        } else {
            match line::line_value(line@, |j: Js| line::canon_envelope(j)) {
                Err(e) => r matches Incoming::Unreadable(x) && line::agrees_error(x, e),
                Ok(j) => exists|x: ContainerEnvelope|
                    #![trigger x.json()]
                    x.json() == j && if trusted(
                        text::optional_string(*expected),
                        text::optional_string(x.token),
                    ) {
                        r == Incoming::Accepted(x.request)
                    } else {
                        r matches Incoming::Reply(y) && refuses(
                            y,
                            "unauthorized: missing or incorrect VM token"@,
                        )
                    },
            }
        },
{
    if chars_of(line).len() == 0 {
        return Incoming::Closed;
    }
    if byte_count(line) > MAX_MESSAGE_BYTES {
        return Incoming::Reply(
            ContainerResponse::Error { message: "request exceeds 16777216 bytes".to_owned() },
        );
    }
    if let Some(fault) = fault {
        return Incoming::Unreadable(DecodeError::Refused(fault));
    }
    match decode_envelope(line) {
        Err(e) => Incoming::Unreadable(e),
        Ok(x) => {
            assert(x.json() == x.json());
            if knows(expected, &x.token) {
                Incoming::Accepted(x.request)
            } else {
                Incoming::Reply(
                    ContainerResponse::Error {
                        message: "unauthorized: missing or incorrect VM token".to_owned(),
                    },
                )
            }
        },
    }
}

/// What a line on the connection for streams means.
#[derive(Debug)]
pub enum Attaching {
    /// There is no line.
    Closed,
    /// The request is refused.
    Refused(IoStreamAck),
    /// The descriptor to duplicate and what it is called.
    Open { attach: IoStreamAttach, fd: i32, label: &'static str },
    /// The line is no request.
    Unreadable(DecodeError),
}

/// An attach request is refused with this message.
pub open spec fn denies(a: IoStreamAck, message: Seq<char>) -> bool {
    !a.ok && text::optional_string(a.message) == Some(message)
}

/// A refusal.
fn refusal(message: String) -> (r: IoStreamAck)
    ensures
        denies(r, message@),
{
    IoStreamAck { ok: false, message: Some(message) }
}

/// What an attach request leads to.
pub open spec fn attach_fits(
    m: Map<Seq<char>, Entry>,
    expected: Option<Seq<char>>,
    x: IoStreamAttach,
    r: Attaching,
) -> bool {
    if !trusted(expected, text::optional_string(x.token)) {
        r matches Attaching::Refused(a) && denies(a, "unauthorized"@)
    } else {
        match process_at(m, x.id@, text::optional_string(x.exec_id)) {
            Err(message) => r matches Attaching::Refused(a) && denies(a, message),
            Ok(p) => match supervised::attachable(p.io, x.stream) {
                Err(message) => r matches Attaching::Refused(a) && denies(a, message),
                Ok((f, l)) => r matches Attaching::Open { attach, fd, label } && attach == x && fd
                    == f && label@ == l,
            },
        }
    }
}

impl Agent {
    /// What a line on the connection for streams means. `fault` is what the typed reader of
    /// messages has against the line.
    pub fn read_attach(
        &self,
        line: &str,
        expected: &Option<String>,
        fault: Option<String>,
    ) -> (r: Attaching)
        requires
            self.wf(),
        ensures
            if line@.len() == 0 {
                r is Closed
            } else if text::byte_len(line@) > MAX_ATTACH_BYTES {
                r matches Attaching::Refused(a) && denies(a, "attach request too large"@)
            } else if fault is Some {
                r matches Attaching::Unreadable(x) && line::is_refused(x, fault->0@)
            } else {
                match line::line_value(line@, |j: Js| protocol::canon_attach(j)) {
                    Err(e) => r matches Attaching::Unreadable(x) && line::agrees_error(x, e),
                    Ok(j) => exists|x: IoStreamAttach|
                        #![trigger x.json()]
                        x.json() == j && attach_fits(
                            self.view(),
                            text::optional_string(*expected),
                            x,
                            r,
                        ),
                }
            },
    {
        if chars_of(line).len() == 0 {
            return Attaching::Closed;
        }
        if byte_count(line) > MAX_ATTACH_BYTES {
            return Attaching::Refused(refusal("attach request too large".to_owned()));
        }
        if let Some(fault) = fault {
            return Attaching::Unreadable(DecodeError::Refused(fault));
        }
        match decode_attach(line) {
            Err(e) => Attaching::Unreadable(e),
            Ok(x) => {
                assert(x.json() == x.json());
                self.open_stream(x, expected)
            },
        }
    }

    /// Settles an attach request.
    fn open_stream(&self, x: IoStreamAttach, expected: &Option<String>) -> (r: Attaching)
        requires
            self.wf(),
        ensures
            attach_fits(self.view(), text::optional_string(*expected), x, r),
    {
        if !knows(expected, &x.token) {
            return Attaching::Refused(refusal("unauthorized".to_owned()));
        }
        match self.find_process(x.id.as_str(), &x.exec_id) {
            Err(message) => Attaching::Refused(refusal(message)),
            Ok(p) => match p.attach_stream(x.stream) {
                Err(message) => Attaching::Refused(refusal(message)),
                Ok((fd, label)) => Attaching::Open { attach: x, fd, label },
            },
        }
    }

    /// Records how duplicating the descriptor of a stream went.
    pub fn attached(&mut self, x: &IoStreamAttach, label: &str, outcome: Result<(), String>) -> (r:
        IoStreamAck)
        requires
            old(self).wf(),
        ensures
            final(self).wf(),
            final(self).sandbox == old(self).sandbox,
            final(self).waits == old(self).waits,
            ({
                let e = text::optional_string(x.exec_id);
                match process_at(old(self).view(), x.id@, e) {
                    Err(message) => denies(r, message) && final(self).view() == old(self).view(),
                    Ok(p) => match outcome {
                        Ok(_) => r.ok && r.message is None && final(self).view() == with_process(
                            old(self).view(),
                            x.id@,
                            e,
                            ProcHandle {
                                state: p.state,
                                io: supervised::marked(p.io, x.stream, true),
                            },
                        ),
                        Err(w) => denies(
                            r,
                            supervised::failure_text("dup("@ + label@ + ")"@, w@),
                        ) && final(self).view() == old(self).view(),
                    },
                }
            }),
    {
        let ghost before = self.view();
        match self.find_process_mut(x.id.as_str(), &x.exec_id) {
            Err(message) => refusal(message),
            Ok(p) => {
                let ghost was = *p;
                match p.attached(x.stream, label, outcome) {
                    Ok(_) => IoStreamAck { ok: true, message: None },
                    Err(message) => {
                        proof {
                            lemma_same_process(
                                before,
                                x.id@,
                                text::optional_string(x.exec_id),
                                was,
                            );
                        }
                        refusal(message)
                    },
                }
            },
        }
    }

    /// Records that the connection of a stream is gone.
    pub fn detached(&mut self, x: &IoStreamAttach)
        requires
            old(self).wf(),
        ensures
            final(self).wf(),
            final(self).sandbox == old(self).sandbox,
            final(self).waits == old(self).waits,
            ({
                let e = text::optional_string(x.exec_id);
                match process_at(old(self).view(), x.id@, e) {
                    Err(_) => final(self).view() == old(self).view(),
                    Ok(p) => final(self).view() == with_process(
                        old(self).view(),
                        x.id@,
                        e,
                        ProcHandle {
                            state: p.state,
                            io: supervised::marked(p.io, x.stream, false),
                        },
                    ),
                }
            }),
    {
        if let Ok(p) = self.find_process_mut(x.id.as_str(), &x.exec_id) {
            p.detach_stream(x.stream);
        }
    }
}

// ---------------------------------------------------------------------------
// Laws
// ---------------------------------------------------------------------------

/// The container that a request takes to be there.
pub open spec fn named(request: ContainerRequest) -> Option<Seq<char>> {
    match request {
        ContainerRequest::Ping => None,
        ContainerRequest::ConfigureSandboxResources { .. } => None,
        ContainerRequest::Create { .. } => None,
        ContainerRequest::SecurityStats => None,
        ContainerRequest::Start { id, .. } => Some(id@),
        ContainerRequest::State { id, .. } => Some(id@),
        ContainerRequest::Exec { id, .. } => Some(id@),
        ContainerRequest::Kill { id, .. } => Some(id@),
        ContainerRequest::Pause { id } => Some(id@),
        ContainerRequest::Resume { id } => Some(id@),
        ContainerRequest::Wait { id, .. } => Some(id@),
        ContainerRequest::Pids { id } => Some(id@),
        ContainerRequest::Stats { id } => Some(id@),
        ContainerRequest::CgroupEvents { id } => Some(id@),
        ContainerRequest::UpdateResources { id, .. } => Some(id@),
        ContainerRequest::ResizePty { id, .. } => Some(id@),
        ContainerRequest::CloseIo { id, .. } => Some(id@),
        ContainerRequest::Delete { id, .. } => Some(id@),
    }
}

/// A request concerns the container that it names: it leaves all others as they are, and
/// adds none.
pub proof fn law_requests_are_local(
    m: Map<Seq<char>, Entry>,
    request: ContainerRequest,
    a: Action,
    after: Map<Seq<char>, Entry>,
    other: Seq<char>,
)
    requires
        fits(m, request, a, after),
        named(request) != Some(other),
    ensures
        after.contains_key(other) == m.contains_key(other),
        m.contains_key(other) ==> after[other] == m[other],
{
}

/// A request that names a container that is not there is answered with an error and
/// changes nothing.
pub proof fn law_unknown_containers_are_refused(
    m: Map<Seq<char>, Entry>,
    request: ContainerRequest,
    a: Action,
    after: Map<Seq<char>, Entry>,
    id: Seq<char>,
)
    requires
        fits(m, request, a, after),
        named(request) == Some(id),
        !m.contains_key(id),
    ensures
        is_error(a, no_container(id)),
        after == m,
{
}

/// A process that still runs is not removed without force.
pub proof fn law_running_processes_stay(
    m: Map<Seq<char>, Entry>,
    id: String,
    exec_id: Option<String>,
    a: Action,
    after: Map<Seq<char>, Entry>,
)
    requires
        fits(m, ContainerRequest::Delete { id, exec_id, force: false }, a, after),
        process_at(
            m,
            id@,
            text::optional_string(exec_id),
        ) matches Ok(p) && !(p.state.status is Stopped),
    ensures
        a matches Action::Reply(ContainerResponse::Error { .. }),
{
}

/// One who waits for a process is told its end when it comes, and no other end that comes
/// later, of this process number or another.
pub proof fn law_waits_end_with_their_process(
    m: Map<int, Waiter>,
    ticket: int,
    exit: Exit,
    later: u32,
    other: Exit,
)
    requires
        m.contains_key(ticket),
        m[ticket].exit is None,
    ensures
        told(m, m[ticket].pid, exit)[ticket].exit == Some(exit),
        told(told(m, m[ticket].pid, exit), later, other)[ticket].exit == Some(exit),
        later != m[ticket].pid ==> told(m, later, other)[ticket] == m[ticket],
{
}

/// Without the secret no request is carried out.
pub proof fn law_secret_is_needed(expected: Seq<char>, given: Option<Seq<char>>)
    ensures
        trusted(Some(expected), given) == (given == Some(expected)),
        !trusted(Some(expected), None),
{
}

/// Putting a process back where it was changes nothing.
proof fn lemma_same_process(
    m: Map<Seq<char>, Entry>,
    id: Seq<char>,
    exec_id: Option<Seq<char>>,
    p: ProcHandle,
)
    requires
        process_at(m, id, exec_id) == Ok::<ProcHandle, Seq<char>>(p),
    ensures
        with_process(m, id, exec_id, p) == m,
{
    let n = with_process(m, id, exec_id, p);
    if let Some(e) = exec_id {
        assert(m[id].execs.insert(e, p) =~= m[id].execs);
    }
    assert(n =~= m);
}

/// Changing a container changes its reading.
proof fn lemma_entries(m: Map<Seq<char>, ContainerEntry>, id: Seq<char>, e: ContainerEntry)
    ensures
        entries(m.insert(id, e)) == entries(m).insert(id, e.view()),
{
    assert(entries(m.insert(id, e)) =~= entries(m).insert(id, e.view()));
}

} // verus!
