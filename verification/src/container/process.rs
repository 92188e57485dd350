//! A supervised process: its life from creation to exit, and its streams.

use vstd::prelude::*;

use crate::container::protocol::{ContainerStatus, IoStreamKind};
use crate::text;
use crate::text::{cat, u64_text};

verus! {

/// The agent's ends of a process's standard streams.
#[derive(Debug)]
pub enum ProcIo {
    /// Files on a shared file system.
    Legacy,
    /// One pipe for each stream that was asked for.
    Pipes {
        stdin_write: Option<i32>,
        stdin_attached: bool,
        stdout_read: Option<i32>,
        stdout_attached: bool,
        stderr_read: Option<i32>,
        stderr_attached: bool,
    },
    /// A terminal.
    Pty { master_fd: i32, stdin_attached: bool, stdout_attached: bool },
}

/// What is known of a process at one moment.
#[derive(Debug, Clone, Copy)]
pub struct ProcSnapshot {
    pub status: ContainerStatus,
    pub pid: u32,
    pub exit_code: Option<i32>,
    pub exited_at_unix_nano: Option<i64>,
    /// The pipe on which a process that was created waits for its start.
    pub gate_fd: Option<i32>,
}

/// A process that the agent supervises.
#[derive(Debug)]
pub struct ProcHandle {
    pub state: ProcSnapshot,
    pub io: ProcIo,
}

/// What to do to start a process.
#[derive(Debug)]
pub enum StartStep {
    /// Nothing: the answer is known.
    Done(Result<u32, String>),
    /// Write one byte to this descriptor and close it.
    Release(i32),
}

/// What to do to close a process's standard input.
#[derive(Debug, Clone, Copy, PartialEq, Eq, Structural)]
pub enum StdinStep {
    Nothing,
    /// Close this descriptor.
    Close(i32),
    /// Write the end-of-file character to this descriptor.
    WriteEof(i32),
}

/// A size to give to a terminal.
#[derive(Debug, Clone, Copy, PartialEq, Eq, Structural)]
pub struct PtySize {
    pub fd: i32,
    pub rows: u16,
    pub columns: u16,
}

/// The character that ends the input of a terminal.
pub const END_OF_FILE: u8 = 4;

pub const ESRCH: i32 = 3;

/// How the start of a process goes.
pub enum StartPlan {
    Exited,
    Running(u32),
    GateMissing,
    Release(i32),
}

/// How the start of a process in state `s` goes.
pub open spec fn start_plan(s: ProcSnapshot) -> StartPlan {
    if s.status is Stopped {
        StartPlan::Exited
    } else if s.status is Running || s.status is Paused {
        StartPlan::Running(s.pid)
    } else {
        match s.gate_fd {
            None => StartPlan::GateMissing,
            Some(fd) => StartPlan::Release(fd),
        }
    }
}

/// The state after `status` was reported; nothing follows the exit.
pub open spec fn with_status(s: ProcSnapshot, status: ContainerStatus) -> ProcSnapshot {
    if s.status is Stopped {
        s
    } else {
        ProcSnapshot { status, ..s }
    }
}

/// The state after the process exited.
pub open spec fn exited(s: ProcSnapshot, code: i32, now: i64) -> ProcSnapshot {
    ProcSnapshot {
        status: ContainerStatus::Stopped,
        pid: s.pid,
        exit_code: Some(code),
        exited_at_unix_nano: Some(now),
        gate_fd: None,
    }
}

/// To which process a signal goes: none after the exit, and a negative number
/// stands for a process group.
pub open spec fn signal_target(s: ProcSnapshot, process_group: bool) -> Option<int> {
    if s.status is Stopped {
        None
    } else if process_group {
        Some(-(s.pid as int))
    } else {
        Some(s.pid as int)
    }
}

/// A stream that can be attached: its descriptor, whether it is attached and what
/// it is called.
pub open spec fn endpoint(io: ProcIo, kind: IoStreamKind) -> Result<
    (i32, bool, Seq<char>),
    Seq<char>,
> {
    match io {
        ProcIo::Legacy => Err("process uses legacy virtiofs stdio, not VSOCK streaming"@),
        ProcIo::Pipes {
            stdin_write,
            stdin_attached,
            stdout_read,
            stdout_attached,
            stderr_read,
            stderr_attached,
        } => match kind {
            IoStreamKind::Stdin => match stdin_write {
                Some(fd) => Ok((fd, stdin_attached, "stdin pipe"@)),
                None => Err("stdin stream is absent"@),
            },
            IoStreamKind::Stdout => match stdout_read {
                Some(fd) => Ok((fd, stdout_attached, "stdout pipe"@)),
                None => Err("stdout stream is absent"@),
            },
            IoStreamKind::Stderr => match stderr_read {
                Some(fd) => Ok((fd, stderr_attached, "stderr pipe"@)),
                None => Err("stderr stream is absent"@),
            },
        },
        ProcIo::Pty { master_fd, stdin_attached, stdout_attached } => match kind {
            IoStreamKind::Stdin => Ok((master_fd, stdin_attached, "pty stdin"@)),
            IoStreamKind::Stdout => Ok((master_fd, stdout_attached, "pty stdout"@)),
            IoStreamKind::Stderr => Err("TTY processes have a single PTY output stream"@),
        },
    }
}

/// Which descriptor to duplicate to attach to a stream, and what it is called.
pub open spec fn attachable(io: ProcIo, kind: IoStreamKind) -> Result<
    (i32, Seq<char>),
    Seq<char>,
> {
    match endpoint(io, kind) {
        Err(m) => Err(m),
        Ok((fd, attached, label)) => if attached {
            Err(label + " is already attached"@)
        } else {
            Ok((fd, label))
        },
    }
}

/// The streams with one of them marked as attached or not.
pub open spec fn marked(io: ProcIo, kind: IoStreamKind, on: bool) -> ProcIo {
    match io {
        ProcIo::Legacy => io,
        ProcIo::Pipes {
            stdin_write,
            stdin_attached,
            stdout_read,
            stdout_attached,
            stderr_read,
            stderr_attached,
        } => ProcIo::Pipes {
            stdin_write,
            stdin_attached: if kind is Stdin {
                on
            } else {
                stdin_attached
            },
            stdout_read,
            stdout_attached: if kind is Stdout {
                on
            } else {
                stdout_attached
            },
            stderr_read,
            stderr_attached: if kind is Stderr {
                on
            } else {
                stderr_attached
            },
        },
        ProcIo::Pty { master_fd, stdin_attached, stdout_attached } => ProcIo::Pty {
            master_fd,
            stdin_attached: if kind is Stdin {
                on
            } else {
                stdin_attached
            },
            stdout_attached: if kind is Stdout {
                on
            } else {
                stdout_attached
            },
        },
    }
}

/// The streams after the standard input was closed.
pub open spec fn without_stdin(io: ProcIo) -> ProcIo {
    match io {
        ProcIo::Pipes {
            stdin_write,
            stdin_attached,
            stdout_read,
            stdout_attached,
            stderr_read,
            stderr_attached,
        } => ProcIo::Pipes {
            stdin_write: None,
            stdin_attached,
            stdout_read,
            stdout_attached,
            stderr_read,
            stderr_attached,
        },
        _ => io,
    }
}

/// How the standard input is closed.
pub open spec fn stdin_step(io: ProcIo) -> StdinStep {
    match io {
        ProcIo::Legacy => StdinStep::Nothing,
        ProcIo::Pipes { stdin_write: Some(fd), .. } => StdinStep::Close(fd),
        ProcIo::Pipes { stdin_write: None, .. } => StdinStep::Nothing,
        ProcIo::Pty { master_fd, .. } => StdinStep::WriteEof(master_fd),
    }
}

/// A terminal's size lies between 1 and 65535 both ways.
pub open spec fn valid_size(width: u32, height: u32) -> bool {
    0 < width <= 65535 && 0 < height <= 65535
}

/// The error for a terminal size.
pub open spec fn size_text(width: u32, height: u32) -> Seq<char> {
    "invalid PTY size "@ + text::decimal_text(width as nat) + "x"@ + text::decimal_text(
        height as nat,
    )
}

/// The error of an action, with the action before the system's words.
pub open spec fn failure_text(action: Seq<char>, error: Seq<char>) -> Seq<char> {
    action + ": "@ + error
}

/// Puts the action before the system's words.
pub fn failed(action: &str, outcome: Result<(), String>) -> (r: Result<(), String>)
    ensures
        match (outcome, r) {
            (Ok(_), Ok(_)) => true,
            (Err(e), Err(m)) => m@ == failure_text(action@, e@),
            _ => false,
        },
{
    match outcome {
        Ok(u) => Ok(u),
        Err(e) => Err(cat(cat(action, ": ").as_str(), e.as_str())),
    }
}

/// Judges how sending a signal went: a process that is gone already is no error.
pub fn signalled(outcome: Result<(), (i32, String)>) -> (r: Result<(), String>)
    ensures
        match outcome {
            Ok(_) => r is Ok,
            Err((errno, e)) => if errno == ESRCH {
                r is Ok
            } else {
                r matches Err(m) && m@ == failure_text("sending signal to container process"@, e@)
            },
        },
{
    match outcome {
        Ok(u) => Ok(u),
        Err((errno, e)) => if errno == ESRCH {
            Ok(())
        } else {
            failed("sending signal to container process", Err(e))
        },
    }
}

/// Judges how sending a signal to a member of a control group went: a process that is
/// gone already is no error.
pub fn signalled_member(outcome: Result<(), (i32, String)>) -> (r: Result<(), String>)
    ensures
        match outcome {
            Ok(_) => r is Ok,
            Err((errno, e)) => if errno == ESRCH {
                r is Ok
            } else {
                r == Err::<(), String>(e)
            },
        },
{
    match outcome {
        Ok(u) => Ok(u),
        Err((errno, e)) => if errno == ESRCH {
            Ok(())
        } else {
            Err(e)
        },
    }
}

/// The exit code that a parent reports for a wait status: the code itself, 128 and
/// the signal's number, or 255 where neither is known.
pub open spec fn exit_code_of(reaped: bool, status: i32) -> int {
    let low = status & 0x7f;
    if !reaped {
        255
    } else if low == 0 {
        ((status >> 8) & 0xff) as int
    } else if low != 0x7f {
        128 + low
    } else {
        255
    }
}

/// The exit code for a wait status.
pub fn exit_code(reaped: bool, status: i32) -> (r: i32)
    ensures
        r == exit_code_of(reaped, status),
{
    let low: i32 = status & 0x7f;
    assert(0 <= status & 0x7f <= 127) by (bit_vector);
    if !reaped {
        255
    } else if low == 0 {
        (status >> 8) & 0xff
    } else if low != 0x7f {
        128 + low
    } else {
        255
    }
}

impl ProcHandle {
    /// The process number is one that the system gives out.
    pub open spec fn wf(self) -> bool {
        0 < self.state.pid <= i32::MAX
    }

    /// A process that was created and waits on its start gate.
    pub fn new_created(pid: u32, gate_fd: i32, io: ProcIo) -> (r: ProcHandle)
        ensures
            r.io == io,
            r.state == (ProcSnapshot {
                status: ContainerStatus::Created,
                pid,
                exit_code: None,
                exited_at_unix_nano: None,
                gate_fd: Some(gate_fd),
            }),
    {
        ProcHandle {
            state: ProcSnapshot {
                status: ContainerStatus::Created,
                pid,
                exit_code: None,
                exited_at_unix_nano: None,
                gate_fd: Some(gate_fd),
            },
            io,
        }
    }

    /// What is known of the process now.
    pub fn snapshot(&self) -> (r: ProcSnapshot)
        ensures
            r == self.state,
    {
        self.state
    }

    /// Starts the process: takes its start gate, which the caller then opens.
    pub fn start(&mut self) -> (r: StartStep)
        ensures
            final(self).io == old(self).io,
            match start_plan(old(self).state) {
                StartPlan::Exited => {
                    &&& r matches StartStep::Done(Err(m)) && m@ == "process already exited"@
                    &&& *final(self) == *old(self)
                },
                StartPlan::Running(pid) => {
                    &&& r == StartStep::Done(Ok(pid))
                    &&& *final(self) == *old(self)
                },
                StartPlan::GateMissing => {
                    &&& r matches StartStep::Done(Err(m)) && m@ == "process start gate is missing"@
                    &&& *final(self) == *old(self)
                },
                StartPlan::Release(fd) => {
                    &&& r == StartStep::Release(fd)
                    &&& final(self).state == (ProcSnapshot { gate_fd: None, ..old(self).state })
                },
            },
    {
        match self.state.status {
            ContainerStatus::Stopped => StartStep::Done(Err("process already exited".to_owned())),
            ContainerStatus::Running | ContainerStatus::Paused => StartStep::Done(
                Ok(self.state.pid),
            ),
            _ => match self.state.gate_fd {
                None => StartStep::Done(Err("process start gate is missing".to_owned())),
                Some(fd) => {
                    self.state.gate_fd = None;
                    StartStep::Release(fd)
                },
            },
        }
    }

    /// Records how opening a start gate went.
    pub fn released(&mut self, outcome: Result<(), String>) -> (r: Result<u32, String>)
        ensures
            final(self).io == old(self).io,
            match outcome {
                Ok(_) => r == Ok::<u32, String>(old(self).state.pid) && final(self).state
                    == with_status(old(self).state, ContainerStatus::Running),
                Err(e) => r matches Err(m) && m@ == failure_text(
                    "releasing process start gate failed"@,
                    e@,
                ) && *final(self) == *old(self),
            },
    {
        match failed("releasing process start gate failed", outcome) {
            Err(m) => Err(m),
            Ok(_) => {
                self.set_status(ContainerStatus::Running);
                Ok(self.state.pid)
            },
        }
    }

    /// To which process, or process group, a signal goes.
    pub fn signal(&self, process_group: bool) -> (r: Option<i32>)
        requires
            self.wf(),
        ensures
            match r {
                Some(t) => signal_target(self.state, process_group) == Some(t as int),
                None => signal_target(self.state, process_group) is None,
            },
    {
        match self.state.status {
            ContainerStatus::Stopped => None,
            _ => {
                let pid: i32 = self.state.pid as i32;
                if process_group {
                    Some(-pid)
                } else {
                    Some(pid)
                }
            },
        }
    }

    /// Records a status, unless the process has exited.
    pub fn set_status(&mut self, status: ContainerStatus)
        ensures
            final(self).io == old(self).io,
            final(self).state == with_status(old(self).state, status),
    {
        match self.state.status {
            ContainerStatus::Stopped => {},
            _ => {
                self.state.status = status;
            },
        }
    }

    /// Records the exit; the caller closes the descriptor that is returned.
    pub fn mark_exited(&mut self, code: i32, now: i64) -> (r: Option<i32>)
        ensures
            final(self).io == old(self).io,
            final(self).state == exited(old(self).state, code, now),
            r == old(self).state.gate_fd,
    {
        let gate = self.state.gate_fd;
        self.state.gate_fd = None;
        self.state.status = ContainerStatus::Stopped;
        self.state.exit_code = Some(code);
        self.state.exited_at_unix_nano = Some(now);
        gate
    }

    /// Which descriptor to duplicate to attach to a stream, and what it is called.
    pub fn attach_stream(&self, kind: IoStreamKind) -> (r: Result<(i32, &'static str), String>)
        ensures
            match (r, attachable(self.io, kind)) {
                (Ok((fd, label)), Ok((f, l))) => fd == f && label@ == l,
                (Err(m), Err(e)) => m@ == e,
                _ => false,
            },
    {
        let (fd, attached, label) = match &self.io {
            ProcIo::Legacy => {
                return Err("process uses legacy virtiofs stdio, not VSOCK streaming".to_owned());
            },
            ProcIo::Pipes {
                stdin_write,
                stdin_attached,
                stdout_read,
                stdout_attached,
                stderr_read,
                stderr_attached,
            } => match kind {
                IoStreamKind::Stdin => match stdin_write {
                    Some(fd) => (*fd, *stdin_attached, "stdin pipe"),
                    None => {
                        return Err("stdin stream is absent".to_owned());
                    },
                },
                IoStreamKind::Stdout => match stdout_read {
                    Some(fd) => (*fd, *stdout_attached, "stdout pipe"),
                    None => {
                        return Err("stdout stream is absent".to_owned());
                    },
                },
                IoStreamKind::Stderr => match stderr_read {
                    Some(fd) => (*fd, *stderr_attached, "stderr pipe"),
                    None => {
                        return Err("stderr stream is absent".to_owned());
                    },
                },
            },
            ProcIo::Pty { master_fd, stdin_attached, stdout_attached } => match kind {
                IoStreamKind::Stdin => (*master_fd, *stdin_attached, "pty stdin"),
                IoStreamKind::Stdout => (*master_fd, *stdout_attached, "pty stdout"),
                IoStreamKind::Stderr => {
                    return Err("TTY processes have a single PTY output stream".to_owned());
                },
            },
        };
        if attached {
            Err(cat(label, " is already attached"))
        } else {
            Ok((fd, label))
        }
    }

    /// Records how duplicating the descriptor went. The stream counts as attached
    /// only where that succeeded.
    pub fn attached(&mut self, kind: IoStreamKind, label: &str, outcome: Result<(), String>) -> (r:
        Result<(), String>)
        ensures
            final(self).state == old(self).state,
            match outcome {
                Ok(_) => r is Ok && final(self).io == marked(old(self).io, kind, true),
                Err(e) => r matches Err(m) && m@ == failure_text(
                    "dup("@ + label@ + ")"@,
                    e@,
                ) && *final(self) == *old(self),
            },
    {
        let action = cat(cat("dup(", label).as_str(), ")");
        match failed(action.as_str(), outcome) {
            Err(m) => Err(m),
            Ok(u) => {
                self.mark(kind, true);
                Ok(u)
            },
        }
    }

    /// Marks a stream as attached or not.
    fn mark(&mut self, kind: IoStreamKind, on: bool)
        ensures
            final(self).state == old(self).state,
            final(self).io == marked(old(self).io, kind, on),
    {
        match &mut self.io {
            ProcIo::Legacy => {},
            ProcIo::Pipes { stdin_attached, stdout_attached, stderr_attached, .. } => match kind {
                IoStreamKind::Stdin => {
                    *stdin_attached = on;
                },
                IoStreamKind::Stdout => {
                    *stdout_attached = on;
                },
                IoStreamKind::Stderr => {
                    *stderr_attached = on;
                },
            },
            ProcIo::Pty { stdin_attached, stdout_attached, .. } => match kind {
                IoStreamKind::Stdin => {
                    *stdin_attached = on;
                },
                IoStreamKind::Stdout => {
                    *stdout_attached = on;
                },
                IoStreamKind::Stderr => {},
            },
        }
    }

    /// Records that a stream's connection is gone, so that it can be attached again.
    pub fn detach_stream(&mut self, kind: IoStreamKind)
        ensures
            final(self).state == old(self).state,
            final(self).io == marked(old(self).io, kind, false),
    {
        self.mark(kind, false);
    }

    /// Which terminal to resize, and to what.
    pub fn resize_pty(&self, width: u32, height: u32) -> (r: Result<PtySize, String>)
        ensures
            if !valid_size(width, height) {
                r matches Err(m) && m@ == size_text(width, height)
            } else {
                match self.io {
                    ProcIo::Pty { master_fd, .. } => r == Ok::<PtySize, String>(
                        PtySize { fd: master_fd, rows: height as u16, columns: width as u16 },
                    ),
                    _ => r matches Err(m) && m@ == "process is not a TTY"@,
                }
            },
    {
        if width == 0 || height == 0 || width > 65535 || height > 65535 {
            let head = cat("invalid PTY size ", u64_text(width as u64).as_str());
            return Err(cat(cat(head.as_str(), "x").as_str(), u64_text(height as u64).as_str()));
        }
        match &self.io {
            ProcIo::Pty { master_fd, .. } => Ok(
                PtySize { fd: *master_fd, rows: height as u16, columns: width as u16 },
            ),
            _ => Err("process is not a TTY".to_owned()),
        }
    }

    /// How to close the standard input; a pipe is given up at once.
    pub fn close_stdin(&mut self) -> (r: StdinStep)
        ensures
            final(self).state == old(self).state,
            final(self).io == without_stdin(old(self).io),
            r == stdin_step(old(self).io),
    {
        match &mut self.io {
            ProcIo::Legacy => StdinStep::Nothing,
            ProcIo::Pipes { stdin_write, .. } => {
                let taken: Option<i32> = *stdin_write;
                *stdin_write = None;
                match taken {
                    Some(fd) => StdinStep::Close(fd),
                    None => StdinStep::Nothing,
                }
            },
            ProcIo::Pty { master_fd, .. } => StdinStep::WriteEof(*master_fd),
        }
    }

    /// What is known of the process once it has exited.
    pub fn wait(&self) -> (r: Option<ProcSnapshot>)
        ensures
            r == if self.state.status is Stopped {
                Some(self.state)
            } else {
                None
            },
    {
        match self.state.status {
            ContainerStatus::Stopped => Some(self.state),
            _ => None,
        }
    }
}

/// A descriptor, where there is one.
pub open spec fn one(fd: Option<i32>) -> Seq<i32> {
    match fd {
        Some(fd) => seq![fd],
        None => seq![],
    }
}

/// The descriptors of the streams, in the order in which they are closed.
pub open spec fn descriptors(io: ProcIo) -> Seq<i32> {
    match io {
        ProcIo::Legacy => seq![],
        ProcIo::Pipes { stdin_write, stdout_read, stderr_read, .. } => one(stdin_write) + one(
            stdout_read,
        ) + one(stderr_read),
        ProcIo::Pty { master_fd, .. } => if master_fd >= 0 {
            seq![master_fd]
        } else {
            seq![]
        },
    }
}

impl ProcIo {
    /// What to close when the process is forgotten.
    pub fn descriptors(&self) -> (r: Vec<i32>)
        ensures
            r@ == descriptors(*self),
    {
        let mut out: Vec<i32> = Vec::new();
        match self {
            ProcIo::Legacy => {},
            ProcIo::Pipes { stdin_write, stdout_read, stderr_read, .. } => {
                if let Some(fd) = stdin_write {
                    out.push(*fd);
                }
                if let Some(fd) = stdout_read {
                    out.push(*fd);
                }
                if let Some(fd) = stderr_read {
                    out.push(*fd);
                }
            },
            ProcIo::Pty { master_fd, .. } => {
                if *master_fd >= 0 {
                    out.push(*master_fd);
                }
            },
        }
        assert(out@ =~= descriptors(*self));
        out
    }
}

/// Nothing follows the exit of a process: no status replaces it, it cannot be
/// started, no signal reaches it, and its exit code stays.
pub proof fn law_exit_is_final(s: ProcSnapshot, code: i32, now: i64, status: ContainerStatus)
    ensures
        with_status(exited(s, code, now), status) == exited(s, code, now),
        start_plan(exited(s, code, now)) == StartPlan::Exited,
        signal_target(exited(s, code, now), true) is None,
        signal_target(exited(s, code, now), false) is None,
        exited(s, code, now).exit_code == Some(code),
{
}

/// A process is released once: after a start that succeeded, another start answers
/// with the process number and touches no start gate.
pub proof fn law_start_releases_once(s: ProcSnapshot, fd: i32)
    requires
        start_plan(s) == StartPlan::Release(fd),
    ensures
        start_plan(
            (ProcSnapshot { status: ContainerStatus::Running, gate_fd: None, ..s }),
        ) == StartPlan::Running(s.pid),
        start_plan((ProcSnapshot { gate_fd: None, ..s })) == StartPlan::GateMissing,
{
}

/// A stream has one connection at a time: while it is attached it cannot be attached
/// again, and after it was detached it can, as before.
pub proof fn law_attach_is_exclusive(io: ProcIo, kind: IoStreamKind)
    requires
        attachable(io, kind) is Ok,
    ensures
        attachable(marked(io, kind, true), kind) is Err,
        marked(marked(io, kind, true), kind, false) == io,
        attachable(marked(marked(io, kind, true), kind, false), kind) == attachable(io, kind),
{
}

/// Attaching to one stream does not touch another.
pub proof fn law_streams_are_apart(io: ProcIo, kind: IoStreamKind, other: IoStreamKind, on: bool)
    requires
        kind != other,
    ensures
        attachable(marked(io, kind, on), other) == attachable(io, other),
{
}

} // verus!
