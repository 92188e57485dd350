//! The counters of a node, as text.

use vstd::prelude::*;

use crate::api::records::VmRecord;
use crate::text;
use crate::text::push_decimal;
use crate::vm::{BackendKind, VmStatus};

verus! {

/// The counters that a node keeps.
#[derive(Debug, Clone, Copy)]
pub struct Counters {
    pub auth_deny_total: u64,
    pub egress_deny_total: u64,
    pub vm_create_total: u64,
    pub vm_create_duration_ms_total: u64,
    pub vm_start_total: u64,
    pub vm_start_duration_ms_total: u64,
}

/// How many virtual machines have the state.
pub open spec fn with_status(vms: Seq<VmRecord>, s: VmStatus) -> nat
    decreases vms.len(),
{
    if vms.len() == 0 {
        0
    } else {
        with_status(vms.drop_last(), s) + if vms.last().status == s {
            1nat
        } else {
            0nat
        }
    }
}

/// How many virtual machines are run by the program.
pub open spec fn with_backend(vms: Seq<VmRecord>, b: BackendKind) -> nat
    decreases vms.len(),
{
    if vms.len() == 0 {
        0
    } else {
        with_backend(vms.drop_last(), b) + if vms.last().backend == b {
            1nat
        } else {
            0nat
        }
    }
}

/// How many virtual machines have an agent.
pub open spec fn with_agent(vms: Seq<VmRecord>) -> nat
    decreases vms.len(),
{
    if vms.len() == 0 {
        0
    } else {
        with_agent(vms.drop_last()) + if vms.last().agent_enabled {
            1nat
        } else {
            0nat
        }
    }
}

/// Counts virtual machines by their state.
pub fn count_status(vms: &Vec<VmRecord>, s: VmStatus) -> (r: u64)
    ensures
        r == with_status(vms@, s),
{
    let mut n: u64 = 0;
    let mut i: usize = 0;
    assert(vms@.take(0) =~= Seq::<VmRecord>::empty());
    while i < vms.len()
        invariant
            i <= vms.len(),
            n <= i,
            n == with_status(vms@.take(i as int), s),
        decreases vms.len() - i,
    {
        assert(vms@.take(i + 1).drop_last() =~= vms@.take(i as int));
        if vms[i].status == s {
            n += 1;
        }
        i += 1;
    }
    assert(vms@.take(vms.len() as int) =~= vms@);
    n
}

/// Counts virtual machines by the program that runs them.
pub fn count_backend(vms: &Vec<VmRecord>, b: BackendKind) -> (r: u64)
    ensures
        r == with_backend(vms@, b),
{
    let mut n: u64 = 0;
    let mut i: usize = 0;
    assert(vms@.take(0) =~= Seq::<VmRecord>::empty());
    while i < vms.len()
        invariant
            i <= vms.len(),
            n <= i,
            n == with_backend(vms@.take(i as int), b),
        decreases vms.len() - i,
    {
        assert(vms@.take(i + 1).drop_last() =~= vms@.take(i as int));
        if vms[i].backend == b {
            n += 1;
        }
        i += 1;
    }
    assert(vms@.take(vms.len() as int) =~= vms@);
    n
}

/// Counts virtual machines with an agent.
fn count_agents(vms: &Vec<VmRecord>) -> (r: u64)
    ensures
        r == with_agent(vms@),
{
    let mut n: u64 = 0;
    let mut i: usize = 0;
    assert(vms@.take(0) =~= Seq::<VmRecord>::empty());
    while i < vms.len()
        invariant
            i <= vms.len(),
            n <= i,
            n == with_agent(vms@.take(i as int)),
        decreases vms.len() - i,
    {
        assert(vms@.take(i + 1).drop_last() =~= vms@.take(i as int));
        if vms[i].agent_enabled {
            n += 1;
        }
        i += 1;
    }
    assert(vms@.take(vms.len() as int) =~= vms@);
    n
}

/// The number of virtual machines with a state.
pub open spec fn status_line(vms: Seq<VmRecord>, s: VmStatus) -> Seq<char> {
    "fluxvm_vms_total{status=\""@ + s.text() + "\"} "@ + text::decimal_text(with_status(vms, s))
        + "\n"@
}

/// The number of virtual machines that a program runs.
pub open spec fn backend_line(vms: Seq<VmRecord>, b: BackendKind) -> Seq<char> {
    "fluxvm_vms_by_backend{backend=\""@ + b.text() + "\"} "@ + text::decimal_text(
        with_backend(vms, b),
    ) + "\n"@
}

/// A value with its name.
pub open spec fn value_line(name: Seq<char>, n: nat) -> Seq<char> {
    name + " "@ + text::decimal_text(n) + "\n"@
}

/// The virtual machines by their state.
pub open spec fn status_part(vms: Seq<VmRecord>) -> Seq<char> {
    "# HELP fluxvm_vms_total Number of VMs known to this fluxvm instance, by status.\n"@
        + "# TYPE fluxvm_vms_total gauge\n"@ + status_line(vms, VmStatus::Creating) + status_line(
        vms,
        VmStatus::Running,
    ) + status_line(vms, VmStatus::Paused) + status_line(vms, VmStatus::Stopped) + status_line(
        vms,
        VmStatus::Failed,
    )
}

/// The virtual machines by the program that runs them.
pub open spec fn backend_part(vms: Seq<VmRecord>) -> Seq<char> {
    "# HELP fluxvm_vms_by_backend Number of VMs known to this fluxvm instance, by backend.\n"@
        + "# TYPE fluxvm_vms_by_backend gauge\n"@ + backend_line(vms, BackendKind::Qemu)
        + backend_line(vms, BackendKind::CloudHypervisor) + backend_line(
        vms,
        BackendKind::Firecracker,
    ) + backend_line(vms, BackendKind::FluxVm)
}

/// The virtual machines with an agent.
pub open spec fn agent_part(vms: Seq<VmRecord>) -> Seq<char> {
    "# HELP fluxvm_vms_agent_enabled Number of VMs with the vsock guest agent enabled.\n"@
        + "# TYPE fluxvm_vms_agent_enabled gauge\n"@ + value_line(
        "fluxvm_vms_agent_enabled"@,
        with_agent(vms),
    )
}

/// The counters of the node.
pub open spec fn counter_part(c: Counters) -> Seq<char> {
    "# HELP fluxvm_auth_deny_total REST requests rejected for missing or invalid bearer token.\n"@
        + "# TYPE fluxvm_auth_deny_total counter\n"@ + value_line(
        "fluxvm_auth_deny_total"@,
        c.auth_deny_total as nat,
    )
        + "# HELP fluxvm_egress_deny_total Outbound HTTP(S) requests denied by the L7 egress proxy.\n"@
        + "# TYPE fluxvm_egress_deny_total counter\n"@ + value_line(
        "fluxvm_egress_deny_total"@,
        c.egress_deny_total as nat,
    ) + "# HELP fluxvm_vm_create_total VM create operations completed successfully.\n"@
        + "# TYPE fluxvm_vm_create_total counter\n"@ + value_line(
        "fluxvm_vm_create_total"@,
        c.vm_create_total as nat,
    )
        + "# HELP fluxvm_vm_create_duration_ms_total Cumulative wall time of successful VM creates in milliseconds.\n"@
        + "# TYPE fluxvm_vm_create_duration_ms_total counter\n"@ + value_line(
        "fluxvm_vm_create_duration_ms_total"@,
        c.vm_create_duration_ms_total as nat,
    ) + "# HELP fluxvm_vm_start_total VM start (relaunch) operations completed successfully.\n"@
        + "# TYPE fluxvm_vm_start_total counter\n"@ + value_line(
        "fluxvm_vm_start_total"@,
        c.vm_start_total as nat,
    )
        + "# HELP fluxvm_vm_start_duration_ms_total Cumulative wall time of successful VM starts in milliseconds.\n"@
        + "# TYPE fluxvm_vm_start_duration_ms_total counter\n"@ + value_line(
        "fluxvm_vm_start_duration_ms_total"@,
        c.vm_start_duration_ms_total as nat,
    )
}

/// All counters, as text.
pub open spec fn metrics_text(vms: Seq<VmRecord>, c: Counters) -> Seq<char> {
    status_part(vms) + backend_part(vms) + agent_part(vms) + counter_part(c)
}

fn write_status(out: &mut String, vms: &Vec<VmRecord>, s: VmStatus)
    ensures
        final(out)@ == old(out)@ + status_line(vms@, s),
{
    out.append("fluxvm_vms_total{status=\"");
    out.append(s.label());
    out.append("\"} ");
    push_decimal(out, count_status(vms, s));
    out.append("\n");
    assert(out@ =~= old(out)@ + status_line(vms@, s));
}

fn write_backend(out: &mut String, vms: &Vec<VmRecord>, b: BackendKind)
    ensures
        final(out)@ == old(out)@ + backend_line(vms@, b),
{
    out.append("fluxvm_vms_by_backend{backend=\"");
    out.append(b.label());
    out.append("\"} ");
    push_decimal(out, count_backend(vms, b));
    out.append("\n");
    assert(out@ =~= old(out)@ + backend_line(vms@, b));
}

fn write_value(out: &mut String, name: &str, n: u64)
    ensures
        final(out)@ == old(out)@ + value_line(name@, n as nat),
{
    out.append(name);
    out.append(" ");
    push_decimal(out, n);
    out.append("\n");
    assert(out@ =~= old(out)@ + value_line(name@, n as nat));
}

fn write_status_part(out: &mut String, vms: &Vec<VmRecord>)
    ensures
        final(out)@ == old(out)@ + status_part(vms@),
{
    out.append("# HELP fluxvm_vms_total Number of VMs known to this fluxvm instance, by status.\n");
    out.append("# TYPE fluxvm_vms_total gauge\n");
    write_status(out, vms, VmStatus::Creating);
    write_status(out, vms, VmStatus::Running);
    write_status(out, vms, VmStatus::Paused);
    write_status(out, vms, VmStatus::Stopped);
    write_status(out, vms, VmStatus::Failed);
    assert(out@ =~= old(out)@ + status_part(vms@));
}

fn write_backend_part(out: &mut String, vms: &Vec<VmRecord>)
    ensures
        final(out)@ == old(out)@ + backend_part(vms@),
{
    out.append(
        "# HELP fluxvm_vms_by_backend Number of VMs known to this fluxvm instance, by backend.\n",
    );
    out.append("# TYPE fluxvm_vms_by_backend gauge\n");
    write_backend(out, vms, BackendKind::Qemu);
    write_backend(out, vms, BackendKind::CloudHypervisor);
    write_backend(out, vms, BackendKind::Firecracker);
    write_backend(out, vms, BackendKind::FluxVm);
    assert(out@ =~= old(out)@ + backend_part(vms@));
}

fn write_agent_part(out: &mut String, vms: &Vec<VmRecord>)
    ensures
        final(out)@ == old(out)@ + agent_part(vms@),
{
    out.append(
        "# HELP fluxvm_vms_agent_enabled Number of VMs with the vsock guest agent enabled.\n",
    );
    out.append("# TYPE fluxvm_vms_agent_enabled gauge\n");
    write_value(out, "fluxvm_vms_agent_enabled", count_agents(vms));
    assert(out@ =~= old(out)@ + agent_part(vms@));
}

fn write_counter_part(out: &mut String, c: &Counters)
    ensures
        final(out)@ == old(out)@ + counter_part(*c),
{
    out.append(
        "# HELP fluxvm_auth_deny_total REST requests rejected for missing or invalid bearer token.\n",
    );
    out.append("# TYPE fluxvm_auth_deny_total counter\n");
    write_value(out, "fluxvm_auth_deny_total", c.auth_deny_total);
    out.append(
        "# HELP fluxvm_egress_deny_total Outbound HTTP(S) requests denied by the L7 egress proxy.\n",
    );
    out.append("# TYPE fluxvm_egress_deny_total counter\n");
    write_value(out, "fluxvm_egress_deny_total", c.egress_deny_total);
    out.append("# HELP fluxvm_vm_create_total VM create operations completed successfully.\n");
    out.append("# TYPE fluxvm_vm_create_total counter\n");
    write_value(out, "fluxvm_vm_create_total", c.vm_create_total);
    out.append(
        "# HELP fluxvm_vm_create_duration_ms_total Cumulative wall time of successful VM creates in milliseconds.\n",
    );
    out.append("# TYPE fluxvm_vm_create_duration_ms_total counter\n");
    write_value(out, "fluxvm_vm_create_duration_ms_total", c.vm_create_duration_ms_total);
    out.append(
        "# HELP fluxvm_vm_start_total VM start (relaunch) operations completed successfully.\n",
    );
    out.append("# TYPE fluxvm_vm_start_total counter\n");
    write_value(out, "fluxvm_vm_start_total", c.vm_start_total);
    out.append(
        "# HELP fluxvm_vm_start_duration_ms_total Cumulative wall time of successful VM starts in milliseconds.\n",
    );
    out.append("# TYPE fluxvm_vm_start_duration_ms_total counter\n");
    write_value(out, "fluxvm_vm_start_duration_ms_total", c.vm_start_duration_ms_total);
    assert(out@ =~= old(out)@ + counter_part(*c));
}

/// Writes all counters as text.
pub fn render_metrics(vms: &Vec<VmRecord>, counters: &Counters) -> (r: String)
    ensures
        r@ == metrics_text(vms@, *counters),
{
    let mut out = String::new();
    write_status_part(&mut out, vms);
    write_backend_part(&mut out, vms);
    write_agent_part(&mut out, vms);
    write_counter_part(&mut out, counters);
    assert(out@ =~= metrics_text(vms@, *counters));
    out
}

/// Every virtual machine is counted once by its state, and once by the program that runs
/// it, unless none was chosen yet.
pub proof fn law_every_machine_is_counted(vms: Seq<VmRecord>)
    ensures
        with_status(vms, VmStatus::Creating) + with_status(vms, VmStatus::Running) + with_status(
            vms,
            VmStatus::Paused,
        ) + with_status(vms, VmStatus::Stopped) + with_status(vms, VmStatus::Failed) == vms.len(),
        with_backend(vms, BackendKind::Qemu) + with_backend(vms, BackendKind::CloudHypervisor)
            + with_backend(vms, BackendKind::Firecracker) + with_backend(vms, BackendKind::FluxVm)
            + with_backend(vms, BackendKind::Auto) == vms.len(),
        with_agent(vms) <= vms.len(),
    decreases vms.len(),
{
    if vms.len() > 0 {
        law_every_machine_is_counted(vms.drop_last());
    }
}

} // verus!
