//! What a new process does before its program runs.

use vstd::prelude::*;

use crate::container::launch::{NamespacePlan, CLONE_NEWNS};
use crate::container::oci::process::{Process, ProcessRlimit, ProcessSpec};

verus! {

/// One thing that a new process does.
#[derive(Debug, Clone, Copy, PartialEq, Eq, Structural)]
pub enum ChildStep {
    /// Makes the container's files its root, in a mount namespace of its own.
    PivotRoot,
    /// Makes the container's files its root, in the mount namespace of the agent.
    ChangeRoot,
    /// Goes to its working directory.
    EnterDirectory,
    Umask(u32),
    Limit(ProcessRlimit),
    /// Takes its further groups.
    Groups,
    /// Gives up the capabilities outside the bounding set.
    DropBounding,
    /// Keeps its capabilities through the change of the user.
    KeepCapabilities,
    Group(u32),
    User(u32),
    /// Takes its capabilities.
    TakeCapabilities,
    /// Loses its capabilities at the next change of the user.
    ForgetCapabilities,
    /// Cannot gain privileges any more.
    NoNewPrivileges,
    /// Is restricted to the system calls of its profile.
    Restrict,
    /// Runs its program.
    Execute,
}

/// A step that is done only in some cases.
pub open spec fn step_if(condition: bool, step: ChildStep) -> Seq<ChildStep> {
    if condition {
        seq![step]
    } else {
        Seq::empty()
    }
}

/// How a process gets to its files. In a mount namespace that it has joined it is there
/// already.
pub open spec fn root_steps(pivots: bool, joined: bool) -> Seq<ChildStep> {
    if pivots {
        seq![ChildStep::PivotRoot]
    } else {
        step_if(!joined, ChildStep::ChangeRoot)
    }
}

/// How a process takes its mask and its limits.
pub open spec fn limit_steps(p: Process) -> Seq<ChildStep> {
    step_if(p.umask is Some, ChildStep::Umask(p.umask->Some_0)) + p.rlimits.map_values(
        |l: ProcessRlimit| ChildStep::Limit(l),
    )
}

/// Capabilities have to be kept through the change of the user.
pub open spec fn keeps(p: Process) -> bool {
    p.capabilities matches Some(c) && p.uid != 0 && (c.permitted != 0 || c.effective != 0
        || c.ambient != 0)
}

/// How a process becomes its user.
pub open spec fn user_steps(p: Process) -> Seq<ChildStep> {
    seq![ChildStep::Groups] + step_if(p.capabilities is Some, ChildStep::DropBounding) + step_if(
        keeps(p),
        ChildStep::KeepCapabilities,
    ) + seq![ChildStep::Group(p.gid), ChildStep::User(p.uid)] + step_if(
        p.capabilities is Some,
        ChildStep::TakeCapabilities,
    ) + step_if(p.capabilities is Some, ChildStep::ForgetCapabilities)
}

/// How a process is confined.
pub open spec fn confinement_steps(p: Process) -> Seq<ChildStep> {
    step_if(p.no_new_privileges, ChildStep::NoNewPrivileges) + step_if(
        p.seccomp is Some,
        ChildStep::NoNewPrivileges,
    ) + step_if(p.seccomp is Some, ChildStep::Restrict)
}

/// All that a process does before its program runs, and that.
pub open spec fn steps_of(p: Process, pivots: bool, joined: bool) -> Seq<ChildStep> {
    root_steps(pivots, joined) + seq![ChildStep::EnterDirectory] + limit_steps(p) + user_steps(p)
        + confinement_steps(p) + seq![ChildStep::Execute]
}

fn push_if(out: &mut Vec<ChildStep>, condition: bool, step: ChildStep)
    ensures
        final(out)@ == old(out)@ + step_if(condition, step),
{
    if condition {
        out.push(step);
    }
    assert(out@ =~= old(out)@ + step_if(condition, step));
}

fn push_limits(out: &mut Vec<ChildStep>, spec: &ProcessSpec)
    ensures
        final(out)@ == old(out)@ + limit_steps(spec.view()),
{
    let mask: u32 = match spec.umask {
        Some(m) => m,
        None => 0,
    };
    push_if(out, spec.umask.is_some(), ChildStep::Umask(mask));
    let ghost base = out@;
    let ghost all = spec.rlimits@.map_values(|l: ProcessRlimit| ChildStep::Limit(l));
    let mut i: usize = 0;
    assert(out@ =~= base + all.take(0));
    while i < spec.rlimits.len()
        invariant
            i <= spec.rlimits.len(),
            all == spec.rlimits@.map_values(|l: ProcessRlimit| ChildStep::Limit(l)),
            out@ == base + all.take(i as int),
        decreases spec.rlimits.len() - i,
    {
        out.push(ChildStep::Limit(spec.rlimits[i]));
        assert(out@ =~= base + all.take(i + 1));
        i += 1;
    }
    assert(all.take(i as int) =~= all);
    assert(out@ =~= old(out)@ + limit_steps(spec.view()));
}

fn push_user(out: &mut Vec<ChildStep>, spec: &ProcessSpec)
    ensures
        final(out)@ == old(out)@ + user_steps(spec.view()),
{
    let (has_caps, kept) = match &spec.capabilities {
        Some(c) => (true, c.kept_for(spec.uid)),
        None => (false, false),
    };
    out.push(ChildStep::Groups);
    push_if(out, has_caps, ChildStep::DropBounding);
    push_if(out, kept, ChildStep::KeepCapabilities);
    out.push(ChildStep::Group(spec.gid));
    out.push(ChildStep::User(spec.uid));
    push_if(out, has_caps, ChildStep::TakeCapabilities);
    push_if(out, has_caps, ChildStep::ForgetCapabilities);
    assert(out@ =~= old(out)@ + user_steps(spec.view()));
}

/// Settles all that a process does before its program runs.
pub fn child_steps(spec: &ProcessSpec, plan: &NamespacePlan) -> (r: Vec<ChildStep>)
    ensures
        r@ == steps_of(spec.view(), plan.makes(CLONE_NEWNS), plan.enters(CLONE_NEWNS)),
{
    let pivots = plan.creates_mount_ns();
    let joined = plan.joined_mount_ns();
    let mut out: Vec<ChildStep> = Vec::new();
    if pivots {
        out.push(ChildStep::PivotRoot);
    } else {
        push_if(&mut out, !joined, ChildStep::ChangeRoot);
    }
    assert(out@ =~= root_steps(pivots, joined));
    out.push(ChildStep::EnterDirectory);
    push_limits(&mut out, spec);
    push_user(&mut out, spec);
    push_if(&mut out, spec.no_new_privileges, ChildStep::NoNewPrivileges);
    push_if(&mut out, spec.seccomp.is_some(), ChildStep::NoNewPrivileges);
    push_if(&mut out, spec.seccomp.is_some(), ChildStep::Restrict);
    out.push(ChildStep::Execute);
    assert(out@ =~= steps_of(spec.view(), plan.makes(CLONE_NEWNS), plan.enters(CLONE_NEWNS)));
    out
}

/// Gives the exit code of a process for which a step failed; `None` where it goes on.
pub fn failure_code(step: ChildStep) -> (r: Option<i32>)
    ensures
        r == (match step {
            ChildStep::ForgetCapabilities => None,
            ChildStep::Execute => Some(127i32),
            _ => Some(126i32),
        }),
{
    match step {
        ChildStep::ForgetCapabilities => None,
        ChildStep::Execute => Some(127),
        _ => Some(126),
    }
}

/// How many steps come before the user of a process is changed.
pub open spec fn before_user(p: Process, pivots: bool, joined: bool) -> int {
    let dropped = step_if(p.capabilities is Some, ChildStep::DropBounding);
    let kept = step_if(keeps(p), ChildStep::KeepCapabilities);
    root_steps(pivots, joined).len() + limit_steps(p).len() + dropped.len() + kept.len() + 3int
}

/// A process gives up its privileges in order. Its groups are set, and the capabilities
/// outside the bounding set are gone, before its user changes; it is restricted to its
/// system calls after that; and its program runs last. Nothing follows a restriction but
/// the program.
pub proof fn law_privileges_go_in_order(p: Process, pivots: bool, joined: bool)
    ensures
        ({
            let s = steps_of(p, pivots, joined);
            let u = before_user(p, pivots, joined);
            &&& 0 < u < s.len() - 1
            &&& s[u] == ChildStep::User(p.uid)
            &&& s[u - 1] == ChildStep::Group(p.gid)
            &&& s.take(u).contains(ChildStep::Groups)
            &&& p.capabilities is Some ==> s.take(u).contains(ChildStep::DropBounding)
            &&& s.last() == ChildStep::Execute
            &&& p.seccomp is Some ==> s[s.len() - 2] == ChildStep::Restrict && s[s.len() - 3]
                == ChildStep::NoNewPrivileges && u < s.len() - 3
        }),
{
    let head = root_steps(pivots, joined) + seq![ChildStep::EnterDirectory] + limit_steps(p);
    let user = user_steps(p);
    let tail = confinement_steps(p) + seq![ChildStep::Execute];
    let s = steps_of(p, pivots, joined);
    let u = before_user(p, pivots, joined);
    let h = head.len() as int;
    let d = step_if(p.capabilities is Some, ChildStep::DropBounding);
    let k = step_if(keeps(p), ChildStep::KeepCapabilities);
    assert(s =~= head + user + tail);
    assert(u == h + 1 + d.len() + k.len() + 1);
    assert(user[0] == ChildStep::Groups);
    assert(s[h] == user[0]);
    assert(s.take(u)[h] == ChildStep::Groups);
    if p.capabilities is Some {
        assert(user[1] == ChildStep::DropBounding);
        assert(s[h + 1] == user[1]);
        assert(s.take(u)[h + 1] == ChildStep::DropBounding);
    }
    let g: int = d.len() + k.len() + 1int;
    assert(user[g] == ChildStep::Group(p.gid));
    assert(user[g + 1] == ChildStep::User(p.uid));
    assert(s[h + g] == user[g]);
    assert(s[h + g + 1] == user[g + 1]);
    let t = tail.len() as int;
    assert(s[s.len() - 1] == tail[t - 1]);
    if p.seccomp is Some {
        assert(s[s.len() - 2] == tail[t - 2]);
        assert(s[s.len() - 3] == tail[t - 3]);
    }
}

} // verus!
