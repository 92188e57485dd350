//! What requests come to, for the processes and the containers that they name.

use vstd::prelude::*;

use crate::container::agent;
use crate::container::agent::{Action, Entry, Waiter};
use crate::container::child;
use crate::container::child::ChildStep;
use crate::container::launch;
use crate::container::launch::{
    ContainerNamespaces, NsRequest, CLONE_NEWIPC, CLONE_NEWNS, CLONE_NEWPID, CLONE_NEWUSER,
    CLONE_NEWUTS,
};
use crate::container::oci::process;
use crate::container::oci::process::Process;
use crate::container::process as supervised;
use crate::container::process::{ProcHandle, ProcIo, ProcSnapshot, PtySize, StdinStep};
use crate::container::protocol::{
    ContainerIo, ContainerRequest, ContainerResponse, ContainerStatus, IoStreamAttach, IoStreamKind,
    ResourceLimits,
};
use crate::text;

verus! {

// ---------------------------------------------------------------------------
// Requests
// ---------------------------------------------------------------------------

/// The process is the first one of the container, or the further one of that name.
pub open spec fn is_process(
    m: Map<Seq<char>, Entry>,
    id: String,
    exec_id: Option<String>,
    p: ProcHandle,
) -> bool {
    m.contains_key(id@) && match exec_id {
        None => m[id@].init == p,
        Some(e) => m[id@].execs.contains_key(e@) && m[id@].execs[e@] == p,
    }
}

/// The action is an answer that refuses.
pub open spec fn is_refusal(a: Action) -> bool {
    a matches Action::Reply(ContainerResponse::Error { .. })
}

/// A signal reaches the process that is named, unless it has exited; it reaches all
/// processes of the container where those are meant, and then its group's.
pub proof fn law_signals_reach_their_process(
    m: Map<Seq<char>, Entry>,
    id: String,
    exec_id: Option<String>,
    signal: i32,
    all: bool,
    a: Action,
    after: Map<Seq<char>, Entry>,
    p: ProcHandle,
)
    requires
        agent::fits(m, ContainerRequest::Kill { id, exec_id, signal, all }, a, after),
        is_process(m, id, exec_id, p),
    ensures
        after == m,
        all && exec_id is None ==> (a matches Action::SignalGroup { cgroup_path, signal: s }
            && cgroup_path@ == m[id@].cgroup_path && s == signal),
        !all && !(p.state.status is Stopped) ==> (a matches Action::SignalProcess {
            target,
            signal: s,
        } && target == p.state.pid && s == signal),
        all && exec_id is Some && !(p.state.status is Stopped) ==> (
        a matches Action::SignalProcess { target, signal: s } && target == -(p.state.pid as int) && s
            == signal),
        (!all || exec_id is Some) && p.state.status is Stopped ==> a == Action::Reply(
            ContainerResponse::Killed,
        ),
{
}

/// The state that is reported is that of the process that is named.
pub proof fn law_states_are_reported(
    m: Map<Seq<char>, Entry>,
    id: String,
    exec_id: Option<String>,
    a: Action,
    after: Map<Seq<char>, Entry>,
    p: ProcHandle,
)
    requires
        agent::fits(m, ContainerRequest::State { id, exec_id }, a, after),
        is_process(m, id, exec_id, p),
    ensures
        after == m,
        a matches Action::Reply(
            ContainerResponse::State {
                id: i,
                exec_id: x,
                status,
                pid,
                exit_code,
                exited_at_unix_nano,
            },
        ) && i@ == id@ && (x is Some <==> exec_id is Some) && (exec_id matches Some(e) ==> x->0@
            == e@) && status == p.state.status && pid == p.state.pid && exit_code
            == p.state.exit_code && exited_at_unix_nano == p.state.exited_at_unix_nano,
{
}

/// A process that was created is started through its own gate, once; one that runs is
/// started already; one that has exited is not started.
pub proof fn law_starts_go_through_the_gate(
    m: Map<Seq<char>, Entry>,
    id: String,
    exec_id: Option<String>,
    a: Action,
    after: Map<Seq<char>, Entry>,
    p: ProcHandle,
)
    requires
        agent::fits(m, ContainerRequest::Start { id, exec_id }, a, after),
        is_process(m, id, exec_id, p),
    ensures
        p.state.status is Created && p.state.gate_fd is Some ==> {
            &&& a matches Action::Release { id: i, exec_id: x, gate } && i@ == id@ && gate
                == p.state.gate_fd->0 && (x is Some <==> exec_id is Some) && (
            exec_id matches Some(e) ==> x->0@ == e@)
            &&& after.dom() =~= m.dom()
            &&& exec_id is None ==> after[id@].init.state == (ProcSnapshot {
                gate_fd: None,
                ..p.state
            }) && after[id@].init.io == p.io && after[id@].execs == m[id@].execs
            &&& exec_id matches Some(e) ==> after[id@].execs[e@].state == (ProcSnapshot {
                gate_fd: None,
                ..p.state
            }) && after[id@].init == m[id@].init
            &&& after[id@].cgroup_path == m[id@].cgroup_path && after[id@].rootfs == m[id@].rootfs
        },
        p.state.status is Running || p.state.status is Paused ==> a == Action::Reply(
            ContainerResponse::Started { pid: p.state.pid },
        ) && after == m,
        p.state.status is Stopped || (p.state.status is Created && p.state.gate_fd is None)
            ==> is_refusal(a) && after == m,
{
}

/// A further process runs in the files, the namespaces, the control group and under the
/// filter of its container, as it is described. Its name must be free.
pub proof fn law_further_processes_join_their_container(
    m: Map<Seq<char>, Entry>,
    id: String,
    exec_id: String,
    process_json: String,
    io: ContainerIo,
    a: Action,
    after: Map<Seq<char>, Entry>,
)
    requires
        agent::fits(m, ContainerRequest::Exec { id, exec_id, process_json, io }, a, after),
        m.contains_key(id@),
    ensures
        after == m,
        m[id@].execs.contains_key(exec_id@) ==> is_refusal(a),
        process::process_in(process_json@, m[id@].rootfs) is Err ==> is_refusal(a),
        !m[id@].execs.contains_key(exec_id@) && process::process_in(process_json@, m[id@].rootfs)
            is Ok ==> (a matches Action::Exec { id: i, exec_id: x, spec, io: o, target, cgroup_path }
            && i@ == id@ && x@ == exec_id@ && o == io && target == m[id@].namespaces && cgroup_path@
            == m[id@].cgroup_path && spec.view().seccomp == m[id@].seccomp && spec.view().args
            == process::process_in(process_json@, m[id@].rootfs)->Ok_0.args && spec.view().env
            == process::process_in(process_json@, m[id@].rootfs)->Ok_0.env && spec.view().cwd
            == process::process_in(process_json@, m[id@].rootfs)->Ok_0.cwd && spec.view().uid
            == process::process_in(process_json@, m[id@].rootfs)->Ok_0.uid && spec.view().gid
            == process::process_in(process_json@, m[id@].rootfs)->Ok_0.gid && spec.view().rootfs
            == process::process_in(process_json@, m[id@].rootfs)->Ok_0.rootfs),
{
}

/// The control group that the action works on.
pub open spec fn group_of(a: Action) -> Option<Seq<char>> {
    match a {
        Action::SignalGroup { cgroup_path, .. } => Some(cgroup_path@),
        Action::Freeze { cgroup_path, .. } => Some(cgroup_path@),
        Action::ReadPids { cgroup_path } => Some(cgroup_path@),
        Action::ReadStats { cgroup_path } => Some(cgroup_path@),
        Action::ReadEvents { cgroup_path } => Some(cgroup_path@),
        Action::Update { cgroup_path, .. } => Some(cgroup_path@),
        _ => None,
    }
}

/// What is asked of a container as a whole is done to its own control group: it is frozen by
/// a pause and thawed by a resume, its processes are listed, its counters and events are read,
/// and its limits are set to those that are given.
pub proof fn law_containers_are_handled_by_their_group(
    m: Map<Seq<char>, Entry>,
    id: String,
    resources: ResourceLimits,
    request: ContainerRequest,
    a: Action,
    after: Map<Seq<char>, Entry>,
)
    requires
        agent::fits(m, request, a, after),
        m.contains_key(id@),
        request == (ContainerRequest::Pause { id }) || request == (ContainerRequest::Resume { id })
            || request == (ContainerRequest::Pids { id }) || request == (ContainerRequest::Stats {
            id,
        }) || request == (ContainerRequest::CgroupEvents { id }) || request
            == (ContainerRequest::UpdateResources { id, resources }),
    ensures
        after == m,
        group_of(a) == Some(m[id@].cgroup_path),
        request is Pause ==> (a matches Action::Freeze { id: i, freeze, .. } && i@ == id@ && freeze),
        request is Resume ==> (a matches Action::Freeze { id: i, freeze, .. } && i@ == id@
            && !freeze),
        request is Pids ==> a is ReadPids,
        request is Stats ==> a is ReadStats,
        request is CgroupEvents ==> a is ReadEvents,
        request is UpdateResources ==> (a matches Action::Update { resources: r, .. } && r
            == resources),
{
}

/// What is asked of the guest as a whole is handed on as it is.
pub proof fn law_guest_requests_are_handed_on(
    m: Map<Seq<char>, Entry>,
    request: ContainerRequest,
    a: Action,
    after: Map<Seq<char>, Entry>,
)
    requires
        agent::fits(m, request, a, after),
    ensures
        request is Ping ==> a == Action::Reply(ContainerResponse::Pong) && after == m,
        request matches ContainerRequest::ConfigureSandboxResources { resources } ==> a
            == (Action::ConfigureSandbox { resources }) && after == m,
        request matches ContainerRequest::Create {
            id,
            config_json,
            io,
            is_sandbox,
            share_process_namespace,
            ..
        } ==> a == (Action::Create { id, config_json, io, is_sandbox, share_process_namespace })
            && after == m,
{
}

/// The terminal of the process that is named gets the size that is given: as many columns as
/// it is wide and as many rows as it is high. A size of nothing, and a process without a
/// terminal, are refused.
pub proof fn law_terminals_get_their_size(
    m: Map<Seq<char>, Entry>,
    id: String,
    exec_id: Option<String>,
    width: u32,
    height: u32,
    a: Action,
    after: Map<Seq<char>, Entry>,
    p: ProcHandle,
)
    requires
        agent::fits(m, ContainerRequest::ResizePty { id, exec_id, width, height }, a, after),
        is_process(m, id, exec_id, p),
    ensures
        after == m,
        width == 0 || height == 0 || width > 65535 || height > 65535 ==> is_refusal(a),
        !(p.io is Pty) ==> is_refusal(a),
        0 < width <= 65535 && 0 < height <= 65535 ==> (p.io matches ProcIo::Pty { master_fd, .. } ==> (
        a matches Action::Resize(PtySize { fd, rows, columns }) && fd == master_fd && rows == height
            && columns == width)),
{
}

/// Closing the input of a process closes its own pipe, which is then gone, or ends the input
/// of its terminal; its other streams stay.
pub proof fn law_inputs_are_closed(
    m: Map<Seq<char>, Entry>,
    id: String,
    exec_id: Option<String>,
    a: Action,
    after: Map<Seq<char>, Entry>,
    p: ProcHandle,
)
    requires
        agent::fits(m, ContainerRequest::CloseIo { id, exec_id }, a, after),
        is_process(m, id, exec_id, p),
    ensures
        p.io is Legacy ==> a == Action::Reply(ContainerResponse::IoClosed),
        p.io matches ProcIo::Pipes { stdin_write, .. } ==> (stdin_write is None ==> a
            == Action::Reply(ContainerResponse::IoClosed)) && (stdin_write matches Some(fd) ==> a
            == Action::CloseStdin(StdinStep::Close(fd))),
        p.io matches ProcIo::Pty { master_fd, .. } ==> a == Action::CloseStdin(
            StdinStep::WriteEof(master_fd),
        ),
        ({
            let io = match exec_id {
                None => after[id@].init.io,
                Some(e) => after[id@].execs[e@].io,
            };
            &&& p.io is Pipes ==> io is Pipes && io->stdin_write is None && io->stdout_read
                == p.io->stdout_read && io->stderr_read == p.io->stderr_read
            &&& !(p.io is Pipes) ==> io == p.io
        }),
{
}

/// A process that has exited is removed without more; one that has not is removed by force
/// only, and is killed with its group, and with its container's control group where it is the
/// container's first.
pub proof fn law_removals_kill_what_runs(
    m: Map<Seq<char>, Entry>,
    id: String,
    exec_id: Option<String>,
    force: bool,
    a: Action,
    after: Map<Seq<char>, Entry>,
    p: ProcHandle,
)
    requires
        agent::fits(m, ContainerRequest::Delete { id, exec_id, force }, a, after),
        is_process(m, id, exec_id, p),
    ensures
        after == m,
        p.state.status is Stopped ==> (a matches Action::Delete { id: i, exec_id: x, kill } && i@
            == id@ && (x is Some <==> exec_id is Some) && kill is None),
        !(p.state.status is Stopped) && !force ==> is_refusal(a),
        !(p.state.status is Stopped) && force ==> (a matches Action::Delete {
            id: i,
            exec_id: x,
            kill,
        } && i@ == id@ && (x is Some <==> exec_id is Some) && (exec_id matches Some(e) ==> x->0@
            == e@) && (kill matches Some(k) && k.target == -(p.state.pid as int) && (
        k.cgroup_path is Some <==> exec_id is None) && (exec_id is None ==> k.cgroup_path->0@
            == m[id@].cgroup_path))),
{
}

/// Without its container or its process a request is refused.
pub proof fn law_missing_processes_are_refused(
    m: Map<Seq<char>, Entry>,
    id: String,
    e: String,
    request: ContainerRequest,
    a: Action,
    after: Map<Seq<char>, Entry>,
    signal: i32,
    all: bool,
    force: bool,
    width: u32,
    height: u32,
)
    requires
        agent::fits(m, request, a, after),
        !m.contains_key(id@) || !m[id@].execs.contains_key(e@),
        request == (ContainerRequest::Start { id, exec_id: Some(e) }) || request
            == (ContainerRequest::State { id, exec_id: Some(e) }) || request
            == (ContainerRequest::Kill { id, exec_id: Some(e), signal, all }) || request
            == (ContainerRequest::Wait { id, exec_id: Some(e) }) || request
            == (ContainerRequest::ResizePty { id, exec_id: Some(e), width, height }) || request
            == (ContainerRequest::CloseIo { id, exec_id: Some(e) }) || request
            == (ContainerRequest::Delete { id, exec_id: Some(e), force }),
    ensures
        is_refusal(a),
        after == m,
{
}

/// One who begins to wait waits for the process that is named, under a ticket of their own;
/// where it has exited, the end is known at once.
pub proof fn law_waits_are_for_their_process(
    m: Map<Seq<char>, Entry>,
    id: String,
    exec_id: Option<String>,
    a: Action,
    before: Map<int, Waiter>,
    after: Map<int, Waiter>,
    p: ProcHandle,
)
    requires
        agent::waits_fit(m, ContainerRequest::Wait { id, exec_id }, a, before, after),
        is_process(m, id, exec_id, p),
    ensures
        a matches Action::Wait { ticket } && !before.contains_key(ticket as int)
            && after.contains_key(ticket as int) && after[ticket as int].pid == p.state.pid && (
        p.state.status is Stopped <==> after[ticket as int].exit is Some) && (
        after[ticket as int].exit matches Some(x) ==> x.code == p.state.exit_code && x.at_unix_nano
            == p.state.exited_at_unix_nano) && forall|t: int| #[trigger]
            before.contains_key(t) ==> after.contains_key(t) && after[t] == before[t],
{
}

/// An attach request gets the stream that it names of the process that it names, where the
/// sender knows the secret and nobody else has the stream.
pub proof fn law_streams_are_attached(
    m: Map<Seq<char>, Entry>,
    expected: Option<Seq<char>>,
    x: IoStreamAttach,
    r: agent::Attaching,
    p: ProcHandle,
)
    requires
        agent::attach_fits(m, expected, x, r),
        is_process(m, x.id, x.exec_id, p),
    ensures
        expected matches Some(secret) ==> (!(x.token matches Some(t) && t@ == secret)
            ==> r is Refused),
        p.io is Legacy ==> r is Refused,
        r matches agent::Attaching::Open { attach, fd, label } ==> attach == x && match p.io {
            ProcIo::Legacy => false,
            ProcIo::Pipes {
                stdin_write,
                stdin_attached,
                stdout_read,
                stdout_attached,
                stderr_read,
                stderr_attached,
            } => {
                &&& x.stream is Stdin ==> stdin_write == Some(fd) && !stdin_attached
                &&& x.stream is Stdout ==> stdout_read == Some(fd) && !stdout_attached
                &&& x.stream is Stderr ==> stderr_read == Some(fd) && !stderr_attached
            },
            ProcIo::Pty { master_fd, stdin_attached, stdout_attached } => {
                &&& fd == master_fd
                &&& x.stream is Stdin ==> !stdin_attached
                &&& x.stream is Stdout ==> !stdout_attached
                &&& !(x.stream is Stderr)
            },
        },
        expected is None && (p.io matches ProcIo::Pipes {
            stdin_write,
            stdin_attached,
            stdout_read,
            stdout_attached,
            stderr_read,
            stderr_attached,
        } && ((x.stream is Stdin && stdin_write is Some && !stdin_attached) || (x.stream is Stdout
            && stdout_read is Some && !stdout_attached) || (x.stream is Stderr && stderr_read
            is Some && !stderr_attached))) ==> r is Open,
{
}

/// The secret is what the file holds, without the white space around it; a file of white
/// space, or no file, is no secret.
pub proof fn law_secrets_are_trimmed(content: Seq<char>)
    ensures
        text::trim_of(content).len() == 0 ==> agent::secret_in(Some(content)) is None,
        text::trim_of(content).len() > 0 ==> agent::secret_in(Some(content)) == Some(
            text::trim_of(content),
        ),
        agent::secret_in(None) is None,
{
}

/// The exit code is that of the program; 128 and the number of the signal where one ended it;
/// 255 where it is not known.
pub proof fn law_exit_codes(code: i32, signal: i32, status: i32)
    requires
        0 <= code <= 255,
        0 < signal < 127,
    ensures
        supervised::exit_code_of(true, (code * 256) as i32) == code,
        supervised::exit_code_of(true, signal) == 128 + signal,
        supervised::exit_code_of(true, (128 + signal) as i32) == 128 + signal,
        supervised::exit_code_of(false, status) == 255,
{
    let a = (code * 256) as i32;
    let b = (128 + signal) as i32;
    assert(a & 0x7f == 0 && (a >> 8) & 0xff == code) by (bit_vector)
        requires
            0 <= code <= 255,
            a == code * 256,
    ;
    assert(signal & 0x7f == signal) by (bit_vector)
        requires
            0 < signal < 127,
    ;
    assert(b & 0x7f == signal) by (bit_vector)
        requires
            0 < signal < 127,
            b == 128 + signal,
    ;
}

/// All descriptors of a process are given up with it, and no others.
pub proof fn law_descriptors_are_all_given_up(io: ProcIo, fd: i32)
    ensures
        supervised::descriptors(io).contains(fd) <==> match io {
            ProcIo::Legacy => false,
            ProcIo::Pipes { stdin_write, stdout_read, stderr_read, .. } => stdin_write == Some(fd)
                || stdout_read == Some(fd) || stderr_read == Some(fd),
            ProcIo::Pty { master_fd, .. } => master_fd == fd && fd >= 0,
        },
{
    if let ProcIo::Pipes { stdin_write, stdout_read, stderr_read, .. } = io {
        let a = supervised::one(stdin_write);
        let b = supervised::one(stdout_read);
        let c = supervised::one(stderr_read);
        let all = a + b + c;
        if let Some(x) = stdin_write {
            assert(all[0] == x);
        }
        if let Some(x) = stdout_read {
            assert(all[a.len() as int] == x);
        }
        if let Some(x) = stderr_read {
            assert(all[(a.len() + b.len()) as int] == x);
        }
    } else if let ProcIo::Pty { master_fd, .. } = io {
        if master_fd >= 0 {
            assert(seq![master_fd][0] == master_fd);
        }
    }
}

// ---------------------------------------------------------------------------
// Programs
// ---------------------------------------------------------------------------

/// The first place that holds comes before all others that do.
proof fn lemma_first_true(v: Seq<bool>)
    ensures
        match launch::first_true(v) {
            Some(i) => 0 <= i < v.len() && v[i] && forall|j: int| 0 <= j < i ==> !#[trigger] v[j],
            None => forall|j: int| 0 <= j < v.len() ==> !#[trigger] v[j],
        },
    decreases v.len(),
{
    if v.len() > 0 {
        lemma_first_true(v.drop_last());
        assert(forall|j: int| 0 <= j < v.len() - 1 ==> v.drop_last()[j] == v[j]);
    }
}

/// A program that is given by a path is that file. Another one is the first file of its name
/// that is there, in the order of the search path; there is an error just where none is.
pub proof fn law_programs_are_found_in_order(p: Process, present: Seq<bool>)
    requires
        p.args.len() > 0,
        present.len() == launch::candidates(p).len(),
    ensures
        p.args[0].contains('/') ==> launch::program_of(p, present) == Ok::<Seq<char>, Seq<char>>(
            p.args[0],
        ),
        !p.args[0].contains('/') ==> match launch::program_of(p, present) {
            Ok(program) => exists|i: int|
                0 <= i < present.len() && #[trigger] present[i] && program == launch::candidates(
                    p,
                )[i] && forall|j: int| 0 <= j < i ==> !#[trigger] present[j],
            Err(_) => forall|j: int| 0 <= j < present.len() ==> !#[trigger] present[j],
        },
{
    lemma_first_true(present);
    if launch::first_true(present) is Some {
        assert(present[launch::first_true(present)->0]);
    }
}

/// The first value of a variable counts.
pub proof fn law_first_variable_counts(env: Seq<(Seq<char>, Seq<char>)>, i: int)
    requires
        0 <= i < env.len(),
        forall|j: int| 0 <= j < i ==> (#[trigger] env[j]).0 != env[i].0,
    ensures
        launch::variable(env, env[i].0) == Some(env[i].1),
    decreases env.len(),
{
    let before = env.drop_last();
    if i < before.len() {
        assert(before[i] == env[i]);
        assert forall|j: int| 0 <= j < i implies (#[trigger] before[j]).0 != before[i].0 by {
            assert(before[j] == env[j]);
        }
        law_first_variable_counts(before, i);
    } else {
        lemma_no_variable(before, env[i].0);
    }
}

/// A variable that is not there has no value.
proof fn lemma_no_variable(env: Seq<(Seq<char>, Seq<char>)>, name: Seq<char>)
    requires
        forall|j: int| 0 <= j < env.len() ==> (#[trigger] env[j]).0 != name,
    ensures
        launch::variable(env, name) is None,
    decreases env.len(),
{
    if env.len() > 0 {
        let before = env.drop_last();
        assert forall|j: int| 0 <= j < before.len() implies (#[trigger] before[j]).0 != name by {
            assert(before[j] == env[j]);
        }
        lemma_no_variable(before, name);
        assert(env[env.len() - 1].0 != name);
    }
}

/// A program is looked for in the directories of the search path, in their order: those that
/// the environment states, or the usual ones.
pub proof fn law_search_path_is_followed(
    p: Process,
    dirs: Seq<Seq<char>>,
    i: int,
)
    requires
        p.args.len() > 0,
        !p.args[0].contains('/'),
        dirs.len() > 0,
        0 <= i < p.env.len(),
        p.env[i] == ("PATH"@, text::joined(dirs, seq![':'])),
        forall|j: int| 0 <= j < i ==> (#[trigger] p.env[j]).0 != "PATH"@,
        forall|k: int|
            0 <= k < dirs.len() ==> text::lacks(#[trigger] dirs[k], ':') && dirs[k].len() > 0
                && dirs[k].last() != '/',
    ensures
        launch::candidates(p).len() == dirs.len(),
        forall|k: int|
            0 <= k < dirs.len() ==> #[trigger] launch::candidates(p)[k] == dirs[k] + "/"@ + p.args[0],
{
    law_first_variable_counts(p.env, i);
    text::lemma_split_joined(dirs, ':');
    assert forall|k: int| 0 <= k < dirs.len() implies #[trigger] launch::candidates(p)[k] == dirs[k]
        + "/"@ + p.args[0] by {
        assert(dirs[k].len() > 0);
    }
}

// ---------------------------------------------------------------------------
// Namespaces
// ---------------------------------------------------------------------------

/// A further process joins all namespaces of its container that there are, its users' first
/// and its processes' last, and makes none.
pub proof fn law_further_processes_join_all(
    target: ContainerNamespaces,
    sandbox: Option<ContainerNamespaces>,
    userns: bool,
)
    requires
        target.mnt >= 0,
        target.pid >= 0,
        target.ipc >= 0,
        target.uts >= 0,
    ensures
        launch::create_flags(NsRequest::Exec { target }, sandbox, userns) == 0,
        target.user < 0 ==> launch::joins(NsRequest::Exec { target }, sandbox) == seq![
            (target.mnt, CLONE_NEWNS),
            (target.ipc, CLONE_NEWIPC),
            (target.uts, CLONE_NEWUTS),
            (target.pid, CLONE_NEWPID),
        ],
        target.user >= 0 ==> launch::joins(NsRequest::Exec { target }, sandbox) == seq![
            (target.user, CLONE_NEWUSER),
            (target.mnt, CLONE_NEWNS),
            (target.ipc, CLONE_NEWIPC),
            (target.uts, CLONE_NEWUTS),
            (target.pid, CLONE_NEWPID),
        ],
{
    let f = |p: (i32, i32)| p.0 >= 0;
    let s0 = Seq::<(i32, i32)>::empty();
    let s1 = seq![(target.user, CLONE_NEWUSER)];
    let s2 = seq![(target.user, CLONE_NEWUSER), (target.mnt, CLONE_NEWNS)];
    let s3 = seq![
        (target.user, CLONE_NEWUSER),
        (target.mnt, CLONE_NEWNS),
        (target.ipc, CLONE_NEWIPC),
    ];
    let s4 = seq![
        (target.user, CLONE_NEWUSER),
        (target.mnt, CLONE_NEWNS),
        (target.ipc, CLONE_NEWIPC),
        (target.uts, CLONE_NEWUTS),
    ];
    let s5 = seq![
        (target.user, CLONE_NEWUSER),
        (target.mnt, CLONE_NEWNS),
        (target.ipc, CLONE_NEWIPC),
        (target.uts, CLONE_NEWUTS),
        (target.pid, CLONE_NEWPID),
    ];
    reveal(Seq::filter);
    assert(s1.drop_last() =~= s0);
    assert(s2.drop_last() =~= s1);
    assert(s3.drop_last() =~= s2);
    assert(s4.drop_last() =~= s3);
    assert(s5.drop_last() =~= s4);
    assert(s0.filter(f) =~= s0);
    assert(s1.filter(f) =~= if target.user >= 0 {
        s1
    } else {
        s0
    });
    let t2 = s2.filter(f);
    assert(t2 == s1.filter(f).push((target.mnt, CLONE_NEWNS)));
    let t3 = s3.filter(f);
    assert(t3 == t2.push((target.ipc, CLONE_NEWIPC)));
    let t4 = s4.filter(f);
    assert(t4 == t3.push((target.uts, CLONE_NEWUTS)));
    let t5 = s5.filter(f);
    assert(t5 == t4.push((target.pid, CLONE_NEWPID)));
}

/// A container that joins its sandbox joins the sandbox's own namespaces, each by its own
/// kind; the processes' only where they are shared.
pub proof fn law_containers_join_their_sandbox(
    share: bool,
    sb: ContainerNamespaces,
    fd: i32,
    kind: i32,
)
    ensures
        launch::joins(
            NsRequest::Create { is_sandbox: false, share_process_namespace: share },
            Some(sb),
        ).contains((fd, kind)) <==> (fd == sb.ipc && kind == CLONE_NEWIPC) || (fd == sb.uts && kind
            == CLONE_NEWUTS) || (share && sb.pid >= 0 && fd == sb.pid && kind == CLONE_NEWPID),
        launch::joins(
            NsRequest::Create { is_sandbox: true, share_process_namespace: share },
            Some(sb),
        ).len() == 0,
        launch::joins(
            NsRequest::Create { is_sandbox: false, share_process_namespace: share },
            None,
        ).len() == 0,
{
    let j = launch::joins(
        NsRequest::Create { is_sandbox: false, share_process_namespace: share },
        Some(sb),
    );
    assert(j[0] == (sb.ipc, CLONE_NEWIPC));
    assert(j[1] == (sb.uts, CLONE_NEWUTS));
    if share && sb.pid >= 0 {
        assert(j[2] == (sb.pid, CLONE_NEWPID));
    }
}

/// The last capability is what the system says; no set has more than 64.
pub proof fn law_last_capability(n: nat)
    requires
        n <= 63,
    ensures
        launch::last_cap(Some(text::decimal_text(n))) == n,
        launch::last_cap(Some(text::decimal_text(n).push('\n'))) == n,
        launch::last_cap(None) == 40,
{
    text::lemma_trimmed_number(n);
    text::law_decimal_round_trip(n);
}

/// The capabilities that are raised are those of the set, all of them.
pub proof fn law_all_capabilities_are_raised(mask: u64, n: nat, cap: u32)
    requires
        n <= 64,
    ensures
        launch::listed(mask, n, true).contains(cap) == (cap < n && launch::holds(mask, cap as u64)),
    decreases n,
{
    if n > 0 {
        law_all_capabilities_are_raised(mask, (n - 1) as nat, cap);
        let before = launch::listed(mask, (n - 1) as nat, true);
        let all = launch::listed(mask, n, true);
        let last = (n - 1) as u32;
        if launch::holds(mask, (n - 1) as u64) {
            assert(all[before.len() as int] == last);
            if before.contains(cap) {
                let i = choose|i: int| 0 <= i < before.len() && before[i] == cap;
                assert(all[i] == cap);
            }
            if all.contains(cap) && cap != last {
                let i = choose|i: int| 0 <= i < all.len() && all[i] == cap;
                assert(before[i] == cap);
            }
        }
    }
}

// ---------------------------------------------------------------------------
// The new process
// ---------------------------------------------------------------------------

/// A new process does all that it is described to do: it takes its mask and each of its
/// limits, goes to its directory, becomes its user and group, takes its capabilities, gives
/// up gaining privileges and is restricted where that is asked for, and runs its program.
pub proof fn law_new_processes_do_all(p: Process, pivots: bool, joined: bool, i: int)
    ensures
        ({
            let s = child::steps_of(p, pivots, joined);
            &&& s.last() == ChildStep::Execute
            &&& s.contains(ChildStep::EnterDirectory)
            &&& s.contains(ChildStep::Groups)
            &&& s.contains(ChildStep::User(p.uid))
            &&& s.contains(ChildStep::Group(p.gid))
            &&& p.umask matches Some(u) ==> s.contains(ChildStep::Umask(u))
            &&& 0 <= i < p.rlimits.len() ==> s.contains(ChildStep::Limit(p.rlimits[i]))
            &&& p.capabilities is Some ==> s.contains(ChildStep::DropBounding) && s.contains(
                ChildStep::TakeCapabilities,
            )
            &&& p.no_new_privileges || p.seccomp is Some ==> s.contains(ChildStep::NoNewPrivileges)
            &&& p.seccomp is Some ==> s.contains(ChildStep::Restrict)
            &&& pivots ==> s[0] == ChildStep::PivotRoot
            &&& !pivots && !joined ==> s[0] == ChildStep::ChangeRoot
            &&& !pivots && joined ==> s[0] == ChildStep::EnterDirectory
        }),
{
    let s = child::steps_of(p, pivots, joined);
    let root = child::root_steps(pivots, joined);
    let enter = seq![ChildStep::EnterDirectory];
    let limits = child::limit_steps(p);
    let user = child::user_steps(p);
    let confine = child::confinement_steps(p);
    assert(enter[0] == ChildStep::EnterDirectory);
    assert(s[root.len() as int] == ChildStep::EnterDirectory);
    let u: int = root.len() + 1int + limits.len();
    assert forall|k: int| 0 <= k < user.len() implies s[u + k] == #[trigger] user[k] by {}
    assert forall|k: int| 0 <= k < limits.len() implies s[root.len() + 1 + k] == #[trigger] limits[k] by {}
    assert forall|k: int| 0 <= k < confine.len() implies s[u + user.len() + k]
        == #[trigger] confine[k] by {}
    assert(user[0] == ChildStep::Groups);
    let dropped = child::step_if(p.capabilities is Some, ChildStep::DropBounding);
    let kept = child::step_if(child::keeps(p), ChildStep::KeepCapabilities);
    let at: int = 1int + dropped.len() + kept.len();
    assert(user[at] == ChildStep::Group(p.gid));
    assert(user[at + 1] == ChildStep::User(p.uid));
    if p.capabilities is Some {
        assert(user[1] == ChildStep::DropBounding);
        assert(user[at + 2] == ChildStep::TakeCapabilities);
    }
    let mask = child::step_if(p.umask is Some, ChildStep::Umask(p.umask->Some_0));
    if p.umask is Some {
        assert(limits[0] == ChildStep::Umask(p.umask->0));
    }
    if 0 <= i < p.rlimits.len() {
        assert(limits[mask.len() + i] == ChildStep::Limit(p.rlimits[i]));
    }
    if p.no_new_privileges || p.seccomp is Some {
        assert(confine[0] == ChildStep::NoNewPrivileges);
    }
    if p.seccomp is Some {
        assert(confine[confine.len() - 1] == ChildStep::Restrict);
    }
}

// ---------------------------------------------------------------------------
// Records
// ---------------------------------------------------------------------------

/// Those who wait are those who hold a ticket.
pub proof fn law_tickets_are_held(v: Seq<Option<Waiter>>, i: int)
    ensures
        agent::waiters(v).contains_key(i) <==> 0 <= i < v.len() && v[i] is Some,
        agent::waiters(v).contains_key(i) ==> v[i] == Some(agent::waiters(v)[i]),
{
}

/// All who wait for a process are told its end; nobody else is told anything.
pub proof fn law_ends_are_told(m: Map<int, Waiter>, pid: u32, exit: agent::Exit, t: int)
    ensures
        agent::told(m, pid, exit).contains_key(t) <==> m.contains_key(t),
        m.contains_key(t) && m[t].pid == pid && m[t].exit is None ==> agent::told(m, pid, exit)[t].exit
            == Some(exit),
        m.contains_key(t) ==> agent::told(m, pid, exit)[t].pid == m[t].pid,
        m.contains_key(t) && (m[t].pid != pid || m[t].exit is Some) ==> agent::told(m, pid, exit)[t]
            == m[t],
{
}

/// With its first process a container goes; a further process goes alone.
pub proof fn law_removals(
    m: Map<Seq<char>, Entry>,
    id: Seq<char>,
    e: Seq<char>,
    other: Seq<char>,
)
    requires
        m.contains_key(id),
    ensures
        !agent::without_process(m, id, None).contains_key(id),
        agent::without_process(m, id, Some(e)).contains_key(id),
        !agent::without_process(m, id, Some(e))[id].execs.contains_key(e),
        agent::without_process(m, id, Some(e))[id].init == m[id].init,
        agent::without_process(m, id, Some(e))[id].cgroup_path == m[id].cgroup_path,
        other != e ==> (agent::without_process(m, id, Some(e))[id].execs.contains_key(other)
            <==> m[id].execs.contains_key(other)),
        other != id ==> (agent::without_process(m, id, None).contains_key(other) <==> m.contains_key(
            other,
        )) && (m.contains_key(other) ==> agent::without_process(m, id, None)[other] == m[other]
            && agent::without_process(m, id, Some(e))[other] == m[other]),
{
}

/// A code or a time that is known is the one that is told.
pub proof fn law_known_ends_are_told(code: i32, other: i32, t: i64, now: i64)
    ensures
        agent::code_or(Some(code), other) == code,
        agent::code_or(None, other) == other,
        agent::time_or(Some(t), now) == t,
        agent::time_or(None, now) == now,
{
}

/// A process is changed in its own place, and nothing else is.
pub proof fn law_changes_stay_in_their_place(
    m: Map<Seq<char>, Entry>,
    id: Seq<char>,
    e: Seq<char>,
    p: ProcHandle,
    other: Seq<char>,
)
    requires
        m.contains_key(id),
    ensures
        agent::with_process(m, id, None, p)[id].init == p,
        agent::with_process(m, id, None, p)[id].execs == m[id].execs,
        agent::with_process(m, id, Some(e), p)[id].execs.contains_key(e),
        agent::with_process(m, id, Some(e), p)[id].execs[e] == p,
        agent::with_process(m, id, Some(e), p)[id].init == m[id].init,
        other != e && m[id].execs.contains_key(other) ==> agent::with_process(
            m,
            id,
            Some(e),
            p,
        )[id].execs[other] == m[id].execs[other],
        other != id && m.contains_key(other) ==> agent::with_process(m, id, Some(e), p)[other]
            == m[other] && agent::with_process(m, id, None, p)[other] == m[other],
{
}

/// The end of a process is recorded with its code and its time; its number stays.
pub proof fn law_ends_are_recorded(s: ProcSnapshot, code: i32, now: i64, status: ContainerStatus)
    ensures
        supervised::exited(s, code, now).status is Stopped,
        supervised::exited(s, code, now).exit_code == Some(code),
        supervised::exited(s, code, now).exited_at_unix_nano == Some(now),
        supervised::exited(s, code, now).pid == s.pid,
        supervised::exited(s, code, now).gate_fd is None,
        !(s.status is Stopped) ==> supervised::with_status(s, status).status == status
            && supervised::with_status(s, status).pid == s.pid && supervised::with_status(
            s,
            status,
        ).gate_fd == s.gate_fd,
{
}

/// Attaching marks the stream that is named.
pub proof fn law_marks_are_set(io: ProcIo, kind: IoStreamKind, on: bool)
    ensures
        supervised::marked(io, kind, on) matches ProcIo::Pipes {
            stdin_attached,
            stdout_attached,
            stderr_attached,
            ..
        } ==> (kind is Stdin ==> stdin_attached == on) && (kind is Stdout ==> stdout_attached == on)
            && (kind is Stderr ==> stderr_attached == on),
        io is Pipes <==> supervised::marked(io, kind, on) is Pipes,
        io matches ProcIo::Pipes { stdin_write, stdout_read, stderr_read, .. } ==> (
        supervised::marked(io, kind, on) matches ProcIo::Pipes {
            stdin_write: a,
            stdout_read: b,
            stderr_read: c,
            ..
        } && a == stdin_write && b == stdout_read && c == stderr_read),
        io matches ProcIo::Pty { master_fd, .. } ==> (supervised::marked(
            io,
            kind,
            on,
        ) matches ProcIo::Pty { master_fd: fd, stdin_attached, stdout_attached } && fd == master_fd
            && (kind is Stdin ==> stdin_attached == on) && (kind is Stdout ==> stdout_attached
            == on)),
{
}

/// The descriptors of namespaces that are held are those that there are.
pub proof fn law_held_namespaces(n: ContainerNamespaces, fd: i32)
    ensures
        launch::held(n).contains(fd) <==> fd >= 0 && (fd == n.mnt || fd == n.pid || fd == n.ipc || fd
            == n.uts || fd == n.user),
{
    broadcast use vstd::seq_lib::group_seq_properties;

    let f = |fd: i32| fd >= 0;
    let all = seq![n.mnt, n.pid, n.ipc, n.uts, n.user];
    if launch::held(n).contains(fd) {
        all.lemma_filter_contains_rev(f, fd);
    }
    assert(all[0] == n.mnt && all[1] == n.pid && all[2] == n.ipc && all[3] == n.uts && all[4]
        == n.user);
    if all.contains(fd) {
        let i = choose|i: int| 0 <= i < all.len() && all[i] == fd;
        assert(i == 0 || i == 1 || i == 2 || i == 3 || i == 4);
    }
    if fd == n.mnt || fd == n.pid || fd == n.ipc || fd == n.uts || fd == n.user {
        assert(all.contains(fd));
    }
}

/// A path of the container is that path below its root file system.
pub proof fn law_host_paths(rootfs: Seq<char>, guest: Seq<char>)
    requires
        rootfs.len() > 0,
        rootfs.last() != '/',
        guest.len() > 0,
        guest[0] != '/',
    ensures
        launch::host_path(rootfs, seq!['/'] + guest) == rootfs + seq!['/'] + guest,
        launch::host_path(rootfs, guest) == rootfs + seq!['/'] + guest,
{
    reveal_strlit("/");
    assert("/"@ =~= seq!['/']);
    assert((seq!['/'] + guest).skip(1) =~= guest);
    reveal_with_fuel(text::trim_start_char_of, 3);
    assert((seq!['/'] + guest)[0] == '/');
}

/// Descriptors are given in the order of their names.
pub proof fn law_descriptors_in_order(fds: Seq<i32>, i: int)
    ensures
        0 <= i < fds.len() ==> launch::descriptor_at(fds, i) == fds[i],
        i >= fds.len() ==> launch::descriptor_at(fds, i) == -1,
        launch::namespace_names(false) == seq!["mnt"@, "pid_for_children"@, "ipc"@, "uts"@],
        launch::namespace_names(true) == seq!["mnt"@, "pid_for_children"@, "ipc"@, "uts"@, "user"@],
{
    assert(launch::namespace_names(true) =~= seq![
        "mnt"@,
        "pid_for_children"@,
        "ipc"@,
        "uts"@,
        "user"@,
    ]);
}

/// All descriptors of all further processes are known, and no others.
pub proof fn law_all_descriptors_are_known(execs: Seq<(String, ProcHandle)>, fd: i32)
    ensures
        agent::descriptors_of(execs).contains(fd) <==> exists|i: int|
            0 <= i < execs.len() && #[trigger] supervised::descriptors(execs[i].1.io).contains(fd),
    decreases execs.len(),
{
    if execs.len() > 0 {
        let rest = execs.drop_last();
        let a = agent::descriptors_of(rest);
        let b = supervised::descriptors(execs.last().1.io);
        law_all_descriptors_are_known(rest, fd);
        if (a + b).contains(fd) {
            let k = choose|k: int| 0 <= k < (a + b).len() && (a + b)[k] == fd;
            if k < a.len() {
                assert(a[k] == fd);
                let i = choose|i: int|
                    0 <= i < rest.len() && #[trigger] supervised::descriptors(
                        rest[i].1.io,
                    ).contains(fd);
                assert(supervised::descriptors(execs[i].1.io).contains(fd));
            } else {
                assert(b[k - a.len()] == fd);
                assert(supervised::descriptors(execs[execs.len() - 1].1.io).contains(fd));
            }
        }
        if exists|i: int|
            0 <= i < execs.len() && #[trigger] supervised::descriptors(execs[i].1.io).contains(
                fd,
            ) {
            let i = choose|i: int|
                0 <= i < execs.len() && #[trigger] supervised::descriptors(execs[i].1.io).contains(
                    fd,
                );
            if i < rest.len() {
                assert(supervised::descriptors(rest[i].1.io).contains(fd));
                let k = choose|k: int| 0 <= k < a.len() && a[k] == fd;
                assert((a + b)[k] == fd);
            } else {
                let k = choose|k: int| 0 <= k < b.len() && b[k] == fd;
                assert((a + b)[a.len() + k] == fd);
            }
        }
    }
}

/// Without namespaces there is nothing to close.
pub proof fn law_no_namespaces_hold_nothing(n: ContainerNamespaces, fd: i32)
    requires
        n.is_none(),
    ensures
        !launch::held(n).contains(fd),
{
    law_held_namespaces(n, fd);
}

/// An empty path is no path; any other is itself.
pub proof fn law_empty_paths_are_none(p: String)
    ensures
        p@.len() == 0 ==> launch::real_path(Some(p)) is None,
        p@.len() > 0 ==> launch::real_path(Some(p)) == Some(p@),
        launch::real_path(None) is None,
{
}

} // verus!
