//! What the command line shows.

use vstd::prelude::*;

use crate::api::laws;
use crate::api::laws::shows;
use crate::api::metrics;
use crate::api::records::VmRecord;
use crate::cli::commands;
use crate::cli::help;
use crate::cli::paint;
use crate::cli::status;
use crate::cli::status::{HostPrograms, NodeStatus};
use crate::text;
use crate::vm::{BackendKind, VmStatus};

verus! {

// ---------------------------------------------------------------------------
// Columns
// ---------------------------------------------------------------------------

/// A text in a column keeps its characters and is followed by blanks up to the width.
pub proof fn law_columns_are_filled(t: Seq<char>, width: nat, i: int)
    ensures
        text::has_prefix(paint::padded(t, width), t),
        t.len() <= width ==> paint::padded(t, width).len() == width,
        t.len() > width ==> paint::padded(t, width) == t,
        t.len() <= i < paint::padded(t, width).len() ==> paint::padded(t, width)[i] == ' ',
{
    assert(paint::padded(t, width).take(t.len() as int) =~= t);
    assert(t.len() > width ==> paint::padded(t, width) =~= t);
}

/// A text in a color stands between the code of the color and the code that ends it.
pub proof fn law_colors_are_ended(code: Seq<char>, t: Seq<char>)
    ensures
        text::has_prefix(paint::painted(code, t, true), code + t),
        text::has_suffix(paint::painted(code, t, true), t + "\x1b[0m"@),
{
    let end = "\x1b[0m"@;
    let p = paint::painted(code, t, true);
    assert(p.take((code + t).len() as int) =~= code + t);
    assert(p.skip(p.len() - (t + end).len()) =~= t + end);
}

// ---------------------------------------------------------------------------
// The panel
// ---------------------------------------------------------------------------

/// A virtual machine that has failed is counted.
proof fn lemma_failed(vms: Seq<VmRecord>)
    ensures
        metrics::with_status(vms, VmStatus::Failed) > 0 <==> exists|i: int|
            0 <= i < vms.len() && (#[trigger] vms[i]).status is Failed,
    decreases vms.len(),
{
    if vms.len() > 0 {
        let before = vms.drop_last();
        lemma_failed(before);
        if exists|i: int| 0 <= i < vms.len() && (#[trigger] vms[i]).status is Failed {
            let i = choose|i: int| 0 <= i < vms.len() && (#[trigger] vms[i]).status is Failed;
            if i < before.len() {
                assert(before[i] == vms[i]);
            }
        }
        if exists|i: int| 0 <= i < before.len() && (#[trigger] before[i]).status is Failed {
            let i = choose|i: int| 0 <= i < before.len() && (#[trigger] before[i]).status is Failed;
            assert(vms[i] == before[i]);
        }
        if vms.last().status is Failed {
            assert(vms[vms.len() - 1].status is Failed);
        }
    }
}

/// A node is not well just where one of its virtual machines has failed.
pub proof fn law_failed_machines_are_a_fault(s: NodeStatus)
    ensures
        status::status_fault(s) is Some <==> (s.vms matches Some(v) && exists|i: int|
            0 <= i < v@.len() && (#[trigger] v@[i]).status is Failed),
{
    lemma_failed(status::known(s));
}

/// The programs that are named are those that are there; the node's own counts by either of
/// its two names.
pub proof fn law_programs_that_are_there_are_named(p: HostPrograms)
    ensures
        status::usable(p).contains("qemu"@) <==> p.qemu,
        status::usable(p).contains("cloud-hypervisor"@) <==> p.cloud_hypervisor,
        status::usable(p).contains("firecracker"@) <==> p.firecracker,
        status::usable(p).contains("flux-vm"@) <==> p.hypervisor || p.fluxctl,
{
    reveal_strlit("qemu");
    reveal_strlit("cloud-hypervisor");
    reveal_strlit("firecracker");
    reveal_strlit("flux-vm");
    assert("qemu"@.len() == 4 && "cloud-hypervisor"@.len() == 16 && "firecracker"@.len() == 11
        && "flux-vm"@.len() == 7);
    let a = status::named(p.qemu, "qemu"@);
    let b = status::named(p.cloud_hypervisor, "cloud-hypervisor"@);
    let c = status::named(p.firecracker, "firecracker"@);
    let d = status::named(p.hypervisor || p.fluxctl, "flux-vm"@);
    let all = a + b + c + d;
    assert(status::usable(p) == all);
    if p.qemu {
        assert(all[0] == "qemu"@);
    }
    if p.cloud_hypervisor {
        assert(all[a.len() as int] == "cloud-hypervisor"@);
    }
    if p.firecracker {
        assert(all[(a.len() + b.len()) as int] == "firecracker"@);
    }
    if p.hypervisor || p.fluxctl {
        assert(all[(a.len() + b.len() + c.len()) as int] == "flux-vm"@);
    }
}

/// The components are marked by their settings: wrong where something is needed and missing,
/// and well, with the setting itself, where all is there.
pub proof fn law_components_are_marked(s: NodeStatus, on: bool)
    ensures
        s.listen@.len() == 0 ==> text::has_prefix(
            status::api_status(s, false),
            "❌ "@,
        ),
        s.listen@.len() > 0 ==> status::api_status(s, on) == status::ok_mark(on) + " ("@ + s.listen@
            + ")"@,
        s.jailer_required && !s.jailer_enabled ==> text::has_prefix(
            status::jailer_status(s, false),
            "❌ "@,
        ),
        s.jailer_enabled ==> text::has_prefix(status::jailer_status(s, on), status::ok_mark(on)),
        s.auth.has_credentials ==> text::has_prefix(
            status::auth_status(s, on),
            status::ok_mark(on),
        ),
        !s.auth.has_credentials && s.auth.required ==> text::has_prefix(
            status::auth_status(s, false),
            "❌ "@,
        ),
        (s.firecracker_kernel matches Some(k) && k.exists) || (s.fluxvm_kernel matches Some(k)
            && k.exists) ==> status::kernel_status(s, on) == status::ok_mark(on),
        !(s.programs.qemu || s.programs.cloud_hypervisor || s.programs.firecracker
            || s.programs.hypervisor || s.programs.fluxctl) ==> text::has_prefix(
            status::backends_status(s, false),
            "❌ "@,
        ),
{
    let e = "❌ "@;
    assert((e + "listen unset"@).take(e.len() as int) =~= e);
    assert((e + "required but disabled"@).take(e.len() as int) =~= e);
    assert((e + "required but empty"@).take(e.len() as int) =~= e);
    assert((e + "none on PATH"@).take(e.len() as int) =~= e);
    let m = status::ok_mark(on);
    let x = if s.jailer_required {
        "enforce"@
    } else {
        "optional"@
    };
    assert((m + " ("@ + x + ")"@).take(m.len() as int) =~= m);
    let y = if s.auth.oidc {
        "tokens+oidc"@
    } else {
        "tokens"@
    };
    assert((m + " ("@ + y + ")"@).take(m.len() as int) =~= m);
}

/// The panel shows the summary, and where it is asked for what is on the host.
pub proof fn law_panels_show_their_parts(s: NodeStatus, on: bool, verbose: bool)
    ensures
        shows(status::panel(s, on, verbose), status::logo(s, on)),
        shows(status::panel(s, on, verbose), status::summary(s, on, verbose)),
        verbose ==> shows(status::panel(s, on, verbose), status::host_part(s, on)),
{
    let logo = status::logo(s, on);
    let gap = logo + "\n"@ + "\n"@;
    let sum = status::summary(s, on, verbose);
    let host = if verbose {
        status::host_part(s, on)
    } else {
        Seq::empty()
    };
    laws::lemma_ends(logo, "\n"@);
    laws::lemma_either(logo + "\n"@, "\n"@, logo);
    laws::lemma_ends(gap, sum);
    laws::lemma_either(gap, sum, logo);
    laws::lemma_either(gap + sum, host, logo);
    laws::lemma_either(gap + sum, host, sum);
    laws::lemma_ends(gap + sum, host);
}

/// The logo shows how each component is doing.
pub proof fn law_logos_show_components(s: NodeStatus, on: bool)
    ensures
        shows(status::logo(s, on), status::api_status(s, on)),
        shows(status::logo(s, on), status::jailer_status(s, on)),
        shows(status::logo(s, on), status::dataplane_status(s, on)),
        shows(status::logo(s, on), status::auth_status(s, on)),
        shows(status::logo(s, on), status::backends_status(s, on)),
{
    let nl = "\n"@;
    let a = status::api_status(s, on);
    let b = status::jailer_status(s, on);
    let c = status::dataplane_status(s, on);
    let d = status::auth_status(s, on);
    let e = status::backends_status(s, on);
    if on {
        lemma_five_lines(
            "\x1b[33m    /¯¯\\\x1b[0m"@ + nl
                + "\x1b[36m /¯¯\x1b[33m\\__/\x1b[32m¯¯\\\x1b[0m    FluxVM:             "@,
            a,
            nl,
            "\x1b[36m \\__\x1b[31m/¯¯\\\x1b[32m__/\x1b[0m    Jailer:             "@,
            b,
            "\x1b[32m /¯¯\x1b[31m\\__/\x1b[35m¯¯\\\x1b[0m    Dataplane:          "@,
            c,
            "\x1b[32m \\__\x1b[34m/¯¯\\\x1b[35m__/\x1b[0m    Auth:               "@,
            d,
            "\x1b[34m\x1b[34m\x1b[34m    \\__/\x1b[0m       Hypervisors:       "@,
            e,
        );
    } else {
        lemma_five_lines(
            "    /¯¯\\"@ + nl + " /¯¯\\__/¯¯\\    FluxVM:             "@,
            a,
            nl,
            " \\__/¯¯\\__/    Jailer:             "@,
            b,
            " /¯¯\\__/¯¯\\    Dataplane:          "@,
            c,
            " \\__/¯¯\\__/    Auth:               "@,
            d,
            "    \\__/       Hypervisors:       "@,
            e,
        );
    }
}

/// Five texts behind their labels are all shown.
proof fn lemma_five_lines(
    la: Seq<char>,
    a: Seq<char>,
    nl: Seq<char>,
    lb: Seq<char>,
    b: Seq<char>,
    lc: Seq<char>,
    c: Seq<char>,
    ld: Seq<char>,
    d: Seq<char>,
    le: Seq<char>,
    e: Seq<char>,
)
    ensures
        ({
            let all = la + a + nl + lb + b + nl + lc + c + nl + ld + d + nl + le + e;
            shows(all, a) && shows(all, b) && shows(all, c) && shows(all, d) && shows(all, e)
        }),
{
    let p1 = la + a;
    let p2 = p1 + nl + lb + b;
    let p3 = p2 + nl + lc + c;
    let p4 = p3 + nl + ld + d;
    laws::lemma_ends(la, a);
    laws::lemma_carried(p1, nl, lb, b, a);
    laws::lemma_carried(p2, nl, lc, c, a);
    laws::lemma_carried(p2, nl, lc, c, b);
    laws::lemma_carried(p3, nl, ld, d, a);
    laws::lemma_carried(p3, nl, ld, d, b);
    laws::lemma_carried(p3, nl, ld, d, c);
    laws::lemma_carried(p4, nl, le, e, a);
    laws::lemma_carried(p4, nl, le, e, b);
    laws::lemma_carried(p4, nl, le, e, c);
    laws::lemma_carried(p4, nl, le, e, d);
}

/// A row names its label and shows its value.
proof fn lemma_row(label: Seq<char>, value: Seq<char>)
    ensures
        shows(status::row(label, value), value),
        shows(status::row(label, value), label),
{
    let p = paint::padded(label, 22);
    laws::lemma_ends(label, paint::spaces(paint::missing(22, label.len())));
    laws::lemma_either(p, " "@, label);
    laws::lemma_either(p + " "@, value, label);
    laws::lemma_either(p + " "@ + value, "\n"@, label);
    laws::lemma_ends(p + " "@, value);
    laws::lemma_either(p + " "@ + value, "\n"@, value);
}

/// The summary shows the kernels and the directory of the state, and where there are virtual
/// machines how many each program runs.
pub proof fn law_summaries_show_their_rows(s: NodeStatus, on: bool, verbose: bool)
    ensures
        shows(status::summary(s, on, verbose), status::kernel_status(s, on)),
        shows(status::summary(s, on, verbose), s.state_dir@),
        shows(
            status::summary(s, on, verbose),
            text::trim_start_of(status::vm_status(s, on)),
        ),
        status::known(s).len() > 0 ==> shows(
            status::summary(s, on, verbose),
            text::joined(status::shares(status::known(s)), " "@),
        ),
        verbose ==> shows(status::summary(s, on, verbose), s.listen@),
{
    let v1 = text::trim_start_of(status::vm_status(s, on));
    let v2 = status::kernel_status(s, on);
    let v3 = text::joined(status::shares(status::known(s)), " "@);
    let v4 = s.state_dir@;
    let v5 = if verbose {
        "listen="@ + s.listen@
    } else {
        "loaded"@
    };
    let r1 = status::row("VMs:"@, v1);
    let r2 = status::row("Kernels:"@, v2);
    let r3 = status::shares_row(s);
    let r4 = status::row("State dir:"@, v4);
    let r5 = status::row("Config:"@, v5);
    lemma_row("VMs:"@, v1);
    lemma_row("Kernels:"@, v2);
    lemma_row("Backends in use:"@, v3);
    lemma_row("State dir:"@, v4);
    lemma_row("Config:"@, v5);
    laws::lemma_ends("listen="@, s.listen@);
    if verbose {
        let pad = paint::padded("Config:"@, 22) + " "@;
        laws::lemma_either(pad, v5, s.listen@);
        laws::lemma_either(pad + v5, "\n"@, s.listen@);
    }
    lemma_four_after(r1, r2, r3, r4, r5, v1);
    lemma_four_after(r1, r2, r3, r4, r5, v2);
    lemma_four_after(r1, r2, r3, r4, r5, v3);
    lemma_four_after(r1, r2, r3, r4, r5, v4);
    lemma_four_after(r1, r2, r3, r4, r5, s.listen@);
}

/// What one of five parts shows, the text shows.
proof fn lemma_four_after(
    a: Seq<char>,
    b: Seq<char>,
    c: Seq<char>,
    d: Seq<char>,
    e: Seq<char>,
    x: Seq<char>,
)
    ensures
        shows(a, x) || shows(b, x) || shows(c, x) || shows(d, x) || shows(e, x) ==> shows(
            a + b + c + d + e,
            x,
        ),
{
    laws::lemma_either(a, b, x);
    laws::lemma_either(a + b, c, x);
    laws::lemma_either(a + b + c, d, x);
    laws::lemma_either(a + b + c + d, e, x);
}

// ---------------------------------------------------------------------------
// The help
// ---------------------------------------------------------------------------

/// What a part of the help shows, the help shows.
proof fn lemma_help(on: bool, x: Seq<char>)
    ensures
        shows(help::basic_part(on), x) ==> shows(help::help_text(on), x),
        shows(help::lifecycle_part(on), x) ==> shows(help::help_text(on), x),
        shows(help::runtime_part(on), x) ==> shows(help::help_text(on), x),
        shows(help::guest_part(on), x) ==> shows(help::help_text(on), x),
        shows(help::images_part(on), x) ==> shows(help::help_text(on), x),
        shows(help::policy_part(on), x) ==> shows(help::help_text(on), x),
        shows(help::observability_part(on), x) ==> shows(help::help_text(on), x),
        shows(help::cluster_part(on), x) ==> shows(help::help_text(on), x),
{
    let p0 = help::tinted(help::heading_tint(on), "Available Commands:"@);
    laws::lemma_either(p0, help::basic_part(on), x);
    let p1 = p0 + help::basic_part(on);
    laws::lemma_either(p1, help::lifecycle_part(on), x);
    let p2 = p1 + help::lifecycle_part(on);
    laws::lemma_either(p2, help::runtime_part(on), x);
    let p3 = p2 + help::runtime_part(on);
    laws::lemma_either(p3, help::guest_part(on), x);
    let p4 = p3 + help::guest_part(on);
    laws::lemma_either(p4, help::images_part(on), x);
    let p5 = p4 + help::images_part(on);
    laws::lemma_either(p5, help::policy_part(on), x);
    let p6 = p5 + help::policy_part(on);
    laws::lemma_either(p6, help::observability_part(on), x);
    let p7 = p6 + help::observability_part(on);
    laws::lemma_either(p7, help::cluster_part(on), x);
    let p8 = p7 + help::cluster_part(on);
    laws::lemma_either(p8, "\n"@, x);
    laws::lemma_either(
        p8 + "\n"@,
        "Use \"fluxctl [command] --help\" for more information about a command."@,
        x,
    );
}

/// The help lists the commands of this group, each with what it does.
pub proof fn law_basic_commands_are_listed(on: bool)
    ensures
        shows(help::help_text(on), help::command("serve"@, "Start the FluxVM control-plane daemon"@, on)),
        shows(help::help_text(on), help::command("status"@, "Display status (Cilium-style panel)"@, on)),
{
    let q0 = help::heading("✨ Basic Commands:"@, on);
    let c1 = help::command("serve"@, "Start the FluxVM control-plane daemon"@, on);
    let q1 = q0 + c1;
    let c2 = help::command("status"@, "Display status (Cilium-style panel)"@, on);
    let q2 = q1 + c2;
    laws::lemma_ends(q0, c1);
    laws::lemma_either(q1, c2, c1);
    lemma_help(on, c1);
    laws::lemma_ends(q1, c2);
    lemma_help(on, c2);
}

/// The help lists the commands of this group, each with what it does.
pub proof fn law_lifecycle_commands_are_listed(on: bool)
    ensures
        shows(help::help_text(on), help::command("create"@, "Create a VM from a JSON spec file"@, on)),
        shows(help::help_text(on), help::command("list"@, "List VMs"@, on)),
        shows(help::help_text(on), help::command("get"@, "Get a VM by id"@, on)),
        shows(help::help_text(on), help::command("start"@, "Relaunch a Stopped VM from its existing disk"@, on)),
        shows(help::help_text(on), help::command("stop"@, "Stop a VM"@, on)),
        shows(help::help_text(on), help::command("pause"@, "Pause a VM"@, on)),
        shows(help::help_text(on), help::command("resume"@, "Resume a paused VM"@, on)),
        shows(help::help_text(on), help::command("delete"@, "Delete a VM"@, on)),
{
    let q0 = help::heading("🔄 Lifecycle Commands:"@, on);
    let c1 = help::command("create"@, "Create a VM from a JSON spec file"@, on);
    let q1 = q0 + c1;
    let c2 = help::command("list"@, "List VMs"@, on);
    let q2 = q1 + c2;
    let c3 = help::command("get"@, "Get a VM by id"@, on);
    let q3 = q2 + c3;
    let c4 = help::command("start"@, "Relaunch a Stopped VM from its existing disk"@, on);
    let q4 = q3 + c4;
    let c5 = help::command("stop"@, "Stop a VM"@, on);
    let q5 = q4 + c5;
    let c6 = help::command("pause"@, "Pause a VM"@, on);
    let q6 = q5 + c6;
    let c7 = help::command("resume"@, "Resume a paused VM"@, on);
    let q7 = q6 + c7;
    let c8 = help::command("delete"@, "Delete a VM"@, on);
    let q8 = q7 + c8;
    laws::lemma_ends(q0, c1);
    laws::lemma_either(q1, c2, c1);
    laws::lemma_either(q2, c3, c1);
    laws::lemma_either(q3, c4, c1);
    laws::lemma_either(q4, c5, c1);
    laws::lemma_either(q5, c6, c1);
    laws::lemma_either(q6, c7, c1);
    laws::lemma_either(q7, c8, c1);
    lemma_help(on, c1);
    laws::lemma_ends(q1, c2);
    laws::lemma_either(q2, c3, c2);
    laws::lemma_either(q3, c4, c2);
    laws::lemma_either(q4, c5, c2);
    laws::lemma_either(q5, c6, c2);
    laws::lemma_either(q6, c7, c2);
    laws::lemma_either(q7, c8, c2);
    lemma_help(on, c2);
    laws::lemma_ends(q2, c3);
    laws::lemma_either(q3, c4, c3);
    laws::lemma_either(q4, c5, c3);
    laws::lemma_either(q5, c6, c3);
    laws::lemma_either(q6, c7, c3);
    laws::lemma_either(q7, c8, c3);
    lemma_help(on, c3);
    laws::lemma_ends(q3, c4);
    laws::lemma_either(q4, c5, c4);
    laws::lemma_either(q5, c6, c4);
    laws::lemma_either(q6, c7, c4);
    laws::lemma_either(q7, c8, c4);
    lemma_help(on, c4);
    laws::lemma_ends(q4, c5);
    laws::lemma_either(q5, c6, c5);
    laws::lemma_either(q6, c7, c5);
    laws::lemma_either(q7, c8, c5);
    lemma_help(on, c5);
    laws::lemma_ends(q5, c6);
    laws::lemma_either(q6, c7, c6);
    laws::lemma_either(q7, c8, c6);
    lemma_help(on, c6);
    laws::lemma_ends(q6, c7);
    laws::lemma_either(q7, c8, c7);
    lemma_help(on, c7);
    laws::lemma_ends(q7, c8);
    lemma_help(on, c8);
}

/// The help lists the commands of this group, each with what it does.
pub proof fn law_runtime_commands_are_listed(on: bool)
    ensures
        shows(help::help_text(on), help::command("freeze"@, "Freeze a VM via cgroup v2 freezer"@, on)),
        shows(help::help_text(on), help::command("thaw"@, "Thaw a previously frozen VM"@, on)),
        shows(help::help_text(on), help::command("frozen"@, "Report whether a VM's cgroup is frozen"@, on)),
        shows(help::help_text(on), help::command("resources"@, "Apply cgroup v2 resource-control settings"@, on)),
{
    let q0 = help::heading("🧊 Runtime Control:"@, on);
    let c1 = help::command("freeze"@, "Freeze a VM via cgroup v2 freezer"@, on);
    let q1 = q0 + c1;
    let c2 = help::command("thaw"@, "Thaw a previously frozen VM"@, on);
    let q2 = q1 + c2;
    let c3 = help::command("frozen"@, "Report whether a VM's cgroup is frozen"@, on);
    let q3 = q2 + c3;
    let c4 = help::command("resources"@, "Apply cgroup v2 resource-control settings"@, on);
    let q4 = q3 + c4;
    laws::lemma_ends(q0, c1);
    laws::lemma_either(q1, c2, c1);
    laws::lemma_either(q2, c3, c1);
    laws::lemma_either(q3, c4, c1);
    lemma_help(on, c1);
    laws::lemma_ends(q1, c2);
    laws::lemma_either(q2, c3, c2);
    laws::lemma_either(q3, c4, c2);
    lemma_help(on, c2);
    laws::lemma_ends(q2, c3);
    laws::lemma_either(q3, c4, c3);
    lemma_help(on, c3);
    laws::lemma_ends(q3, c4);
    lemma_help(on, c4);
}

/// The help lists the commands of this group, each with what it does.
pub proof fn law_guest_commands_are_listed(on: bool)
    ensures
        shows(help::help_text(on), help::command("exec"@, "Run a command inside the guest over vsock"@, on)),
        shows(help::help_text(on), help::command("ping"@, "Health-check the vsock guest agent"@, on)),
        shows(help::help_text(on), help::command("copy-to"@, "Copy a local file into the guest"@, on)),
        shows(help::help_text(on), help::command("copy-from"@, "Copy a file out of the guest"@, on)),
        shows(help::help_text(on), help::command("qga"@, "QEMU guest-agent (virtio-serial) helpers"@, on)),
{
    let q0 = help::heading("🖥️  Guest Access:"@, on);
    let c1 = help::command("exec"@, "Run a command inside the guest over vsock"@, on);
    let q1 = q0 + c1;
    let c2 = help::command("ping"@, "Health-check the vsock guest agent"@, on);
    let q2 = q1 + c2;
    let c3 = help::command("copy-to"@, "Copy a local file into the guest"@, on);
    let q3 = q2 + c3;
    let c4 = help::command("copy-from"@, "Copy a file out of the guest"@, on);
    let q4 = q3 + c4;
    let c5 = help::command("qga"@, "QEMU guest-agent (virtio-serial) helpers"@, on);
    let q5 = q4 + c5;
    laws::lemma_ends(q0, c1);
    laws::lemma_either(q1, c2, c1);
    laws::lemma_either(q2, c3, c1);
    laws::lemma_either(q3, c4, c1);
    laws::lemma_either(q4, c5, c1);
    lemma_help(on, c1);
    laws::lemma_ends(q1, c2);
    laws::lemma_either(q2, c3, c2);
    laws::lemma_either(q3, c4, c2);
    laws::lemma_either(q4, c5, c2);
    lemma_help(on, c2);
    laws::lemma_ends(q2, c3);
    laws::lemma_either(q3, c4, c3);
    laws::lemma_either(q4, c5, c3);
    lemma_help(on, c3);
    laws::lemma_ends(q3, c4);
    laws::lemma_either(q4, c5, c4);
    lemma_help(on, c4);
    laws::lemma_ends(q4, c5);
    lemma_help(on, c5);
}

/// The help lists the commands of this group, each with what it does.
pub proof fn law_images_commands_are_listed(on: bool)
    ensures
        shows(help::help_text(on), help::command("build-image"@, "Build a guest disk image"@, on)),
        shows(help::help_text(on), help::command("catalog"@, "Manage the named/signed image catalog"@, on)),
        shows(help::help_text(on), help::command("pool"@, "Manage warm VM pools"@, on)),
{
    let q0 = help::heading("📦 Images & Pools:"@, on);
    let c1 = help::command("build-image"@, "Build a guest disk image"@, on);
    let q1 = q0 + c1;
    let c2 = help::command("catalog"@, "Manage the named/signed image catalog"@, on);
    let q2 = q1 + c2;
    let c3 = help::command("pool"@, "Manage warm VM pools"@, on);
    let q3 = q2 + c3;
    laws::lemma_ends(q0, c1);
    laws::lemma_either(q1, c2, c1);
    laws::lemma_either(q2, c3, c1);
    lemma_help(on, c1);
    laws::lemma_ends(q1, c2);
    laws::lemma_either(q2, c3, c2);
    lemma_help(on, c2);
    laws::lemma_ends(q2, c3);
    lemma_help(on, c3);
}

/// The help lists the commands of this group, each with what it does.
pub proof fn law_policy_commands_are_listed(on: bool)
    ensures
        shows(help::help_text(on), help::command("group"@, "Security groups for the VM-edge dataplane"@, on)),
        shows(help::help_text(on), help::command("cnp"@, "CNP documents compiled onto security groups"@, on)),
        shows(help::help_text(on), help::command("identity"@, "Reserved + group numeric identities"@, on)),
        shows(help::help_text(on), help::command("dataplane"@, "Dataplane health, ipcache, and FQDN refresh"@, on)),
{
    let q0 = help::heading("🛡️  Network Policy:"@, on);
    let c1 = help::command("group"@, "Security groups for the VM-edge dataplane"@, on);
    let q1 = q0 + c1;
    let c2 = help::command("cnp"@, "CNP documents compiled onto security groups"@, on);
    let q2 = q1 + c2;
    let c3 = help::command("identity"@, "Reserved + group numeric identities"@, on);
    let q3 = q2 + c3;
    let c4 = help::command("dataplane"@, "Dataplane health, ipcache, and FQDN refresh"@, on);
    let q4 = q3 + c4;
    laws::lemma_ends(q0, c1);
    laws::lemma_either(q1, c2, c1);
    laws::lemma_either(q2, c3, c1);
    laws::lemma_either(q3, c4, c1);
    lemma_help(on, c1);
    laws::lemma_ends(q1, c2);
    laws::lemma_either(q2, c3, c2);
    laws::lemma_either(q3, c4, c2);
    lemma_help(on, c2);
    laws::lemma_ends(q2, c3);
    laws::lemma_either(q3, c4, c3);
    lemma_help(on, c3);
    laws::lemma_ends(q3, c4);
    lemma_help(on, c4);
}

/// The help lists the commands of this group, each with what it does.
pub proof fn law_observability_commands_are_listed(on: bool)
    ensures
        shows(help::help_text(on), help::command("diagnose"@, "Correlate Runtime Intelligence with VM-edge state"@, on)),
        shows(help::help_text(on), help::command("trace"@, "Live VM Flight Recorder events"@, on)),
        shows(help::help_text(on), help::command("observe"@, "Snapshot of identities, groups, CNPs, and VMs"@, on)),
        shows(help::help_text(on), help::command("hubble"@, "Hubble-lite flows and CiliumEndpoint views"@, on)),
{
    let q0 = help::heading("🔭 Observability:"@, on);
    let c1 = help::command("diagnose"@, "Correlate Runtime Intelligence with VM-edge state"@, on);
    let q1 = q0 + c1;
    let c2 = help::command("trace"@, "Live VM Flight Recorder events"@, on);
    let q2 = q1 + c2;
    let c3 = help::command("observe"@, "Snapshot of identities, groups, CNPs, and VMs"@, on);
    let q3 = q2 + c3;
    let c4 = help::command("hubble"@, "Hubble-lite flows and CiliumEndpoint views"@, on);
    let q4 = q3 + c4;
    laws::lemma_ends(q0, c1);
    laws::lemma_either(q1, c2, c1);
    laws::lemma_either(q2, c3, c1);
    laws::lemma_either(q3, c4, c1);
    lemma_help(on, c1);
    laws::lemma_ends(q1, c2);
    laws::lemma_either(q2, c3, c2);
    laws::lemma_either(q3, c4, c2);
    lemma_help(on, c2);
    laws::lemma_ends(q2, c3);
    laws::lemma_either(q3, c4, c3);
    lemma_help(on, c3);
    laws::lemma_ends(q3, c4);
    lemma_help(on, c4);
}

/// The help lists the commands of this group, each with what it does.
pub proof fn law_cluster_commands_are_listed(on: bool)
    ensures
        shows(help::help_text(on), help::command("migrate"@, "Live VM migration (QEMU / Cloud Hypervisor)"@, on)),
        shows(help::help_text(on), help::command("fleet"@, "Manage a multi-host fleet via the central registry"@, on)),
{
    let q0 = help::heading("🌐 Cluster:"@, on);
    let c1 = help::command("migrate"@, "Live VM migration (QEMU / Cloud Hypervisor)"@, on);
    let q1 = q0 + c1;
    let c2 = help::command("fleet"@, "Manage a multi-host fleet via the central registry"@, on);
    let q2 = q1 + c2;
    laws::lemma_ends(q0, c1);
    laws::lemma_either(q1, c2, c1);
    lemma_help(on, c1);
    laws::lemma_ends(q1, c2);
    lemma_help(on, c2);
}

/// A line of the help shows the command and what it does.
pub proof fn law_lines_show_their_command(name: Seq<char>, about: Seq<char>, on: bool)
    ensures
        shows(help::command(name, about, on), name),
        shows(help::command(name, about, on), about),
{
    let t = help::name_tint(on);
    let tinted = help::tinted(t, name);
    let gap = paint::spaces(paint::missing(14, text::byte_len(name)));
    laws::lemma_ends(help::start_of(t), name);
    laws::lemma_either(help::start_of(t) + name, help::end_of(t), name);
    laws::lemma_either("  "@, tinted, name);
    laws::lemma_either("  "@ + tinted, gap, name);
    laws::lemma_either("  "@ + tinted + gap, " "@, name);
    laws::lemma_either("  "@ + tinted + gap + " "@, about, name);
    laws::lemma_either("  "@ + tinted + gap + " "@ + about, "\n"@, name);
    laws::lemma_ends("  "@ + tinted + gap + " "@, about);
    laws::lemma_either("  "@ + tinted + gap + " "@ + about, "\n"@, about);
}

/// The form of recorded events is known by its name in any case, and by no other.
pub proof fn law_forms_are_known_by_name(output: Seq<char>)
    ensures
        commands::trace_named(output) matches Some(t) ==> (t is Document <==> text::lower(output)
            == "json"@) && (t is Lines <==> text::lower(output) == "jsonl"@),
        commands::trace_named(output) is None <==> text::lower(output) != "json"@ && text::lower(
            output,
        ) != "jsonl"@,
{
    reveal_strlit("json");
    reveal_strlit("jsonl");
    assert("json"@.len() == 4 && "jsonl"@.len() == 5);
}

/// A text holds a part between others.
proof fn lemma_shown(before: Seq<char>, part: Seq<char>, after: Seq<char>)
    ensures
        shows(before + part + after, part),
{
    reveal(shows);
    text::lemma_holds(before, part, after);
}

/// The tallies tell how many machines run, are paused and have failed, and how many there
/// are.
pub proof fn law_tallies_are_told(vms: Seq<VmRecord>, failed: Seq<char>)
    ensures
        shows(
            status::tallies(vms, failed),
            text::decimal_text(metrics::with_status(vms, VmStatus::Running)) + " running / "@,
        ),
        shows(
            status::tallies(vms, failed),
            text::decimal_text(metrics::with_status(vms, VmStatus::Paused)) + " paused / "@,
        ),
        shows(status::tallies(vms, failed), failed + " failed ("@),
        shows(status::tallies(vms, failed), text::decimal_text(vms.len()) + " total)"@),
{
    let t = status::tallies(vms, failed);
    let z = "  "@;
    let r = text::decimal_text(metrics::with_status(vms, VmStatus::Running));
    let p = text::decimal_text(metrics::with_status(vms, VmStatus::Paused));
    let n = text::decimal_text(vms.len());
    let a = " running / "@;
    let b = " paused / "@;
    let c = " failed ("@;
    let d = " total)"@;
    let none = Seq::<char>::empty();
    lemma_shown(z, r + a, p + b + failed + c + n + d);
    assert(t =~= z + (r + a) + (p + b + failed + c + n + d));
    lemma_shown(z + r + a, p + b, failed + c + n + d);
    assert(t =~= z + r + a + (p + b) + (failed + c + n + d));
    lemma_shown(z + r + a + p + b, failed + c, n + d);
    assert(t =~= z + r + a + p + b + (failed + c) + (n + d));
    lemma_shown(z + r + a + p + b + failed + c, n + d, none);
    assert(t =~= z + r + a + p + b + failed + c + (n + d) + none);
}

/// The machines are marked wrong just where one has failed, and well where they are there and
/// none has; a state that cannot be read is marked.
pub proof fn law_machines_are_marked(s: NodeStatus, on: bool)
    ensures
        ({
            let vms = status::known(s);
            let failed = metrics::with_status(vms, VmStatus::Failed);
            let t = status::vm_status(s, on);
            &&& s.vms is None ==> t == status::warn_mark(on, "state dir not readable"@)
            &&& s.vms is Some && failed > 0 ==> text::has_prefix(
                t,
                status::err_mark(on, text::decimal_text(failed) + " errors"@),
            ) && text::has_suffix(
                t,
                status::tallies(vms, status::err_mark(on, text::decimal_text(failed))),
            )
            &&& s.vms is Some && failed == 0 && vms.len() > 0 ==> text::has_prefix(
                t,
                status::ok_mark(on),
            ) && text::has_suffix(t, status::tallies(vms, text::decimal_text(0)))
            &&& s.vms is Some && failed == 0 && vms.len() == 0 ==> text::has_prefix(
                t,
                status::warn_mark(on, "idle"@),
            )
        }),
{
    let vms = status::known(s);
    let failed = text::decimal_text(metrics::with_status(vms, VmStatus::Failed));
    let t = status::vm_status(s, on);
    let e = status::err_mark(on, failed + " errors"@);
    let x = status::tallies(vms, status::err_mark(on, failed));
    let y = status::tallies(vms, failed);
    let o = status::ok_mark(on);
    let w = status::warn_mark(on, "idle"@);
    assert((e + x).take(e.len() as int) =~= e);
    assert((e + x).skip((e + x).len() - x.len()) =~= x);
    assert((o + y).take(o.len() as int) =~= o);
    assert((o + y).skip((o + y).len() - y.len()) =~= y);
    assert((w + "  0 VMs"@).take(w.len() as int) =~= w);
}

/// A kernel that is set is told with its path, as there or as missing.
pub proof fn law_kernels_are_told(label: Seq<char>, k: status::Kernel, on: bool)
    ensures
        status::kernel_row(label, None, on).len() == 0,
        k.exists ==> shows(
            status::kernel_row(label, Some(k), on),
            status::ok_mark(on) + " ("@ + k.path@ + ")"@,
        ),
        !k.exists ==> shows(
            status::kernel_row(label, Some(k), on),
            status::err_mark(on, "missing "@ + k.path@),
        ),
        shows(status::kernel_row(label, Some(k), on), label),
{
    let v = if k.exists {
        status::ok_with(on, k.path@)
    } else {
        status::err_mark(on, "missing "@ + k.path@)
    };
    lemma_row(label, v);
    laws::lemma_either("  "@, status::row(label, v), v);
    laws::lemma_either("  "@, status::row(label, v), label);
}

/// Every program that runs machines is told with their number.
pub proof fn law_programs_in_use_are_told(vms: Seq<VmRecord>)
    ensures
        ({
            let all = status::shares(vms);
            let n = |b: BackendKind| metrics::with_backend(vms, b);
            &&& n(BackendKind::Auto) > 0 ==> all.contains(
                "auto"@ + "="@ + text::decimal_text(n(BackendKind::Auto)),
            )
            &&& n(BackendKind::CloudHypervisor) > 0 ==> all.contains(
                "cloudhypervisor"@ + "="@ + text::decimal_text(n(BackendKind::CloudHypervisor)),
            )
            &&& n(BackendKind::Firecracker) > 0 ==> all.contains(
                "firecracker"@ + "="@ + text::decimal_text(n(BackendKind::Firecracker)),
            )
            &&& n(BackendKind::FluxVm) > 0 ==> all.contains(
                "fluxvm"@ + "="@ + text::decimal_text(n(BackendKind::FluxVm)),
            )
            &&& n(BackendKind::Qemu) > 0 ==> all.contains(
                "qemu"@ + "="@ + text::decimal_text(n(BackendKind::Qemu)),
            )
            &&& all.len() <= 5
        }),
{
    let a = status::share(vms, BackendKind::Auto, "auto"@);
    let c = status::share(vms, BackendKind::CloudHypervisor, "cloudhypervisor"@);
    let f = status::share(vms, BackendKind::Firecracker, "firecracker"@);
    let x = status::share(vms, BackendKind::FluxVm, "fluxvm"@);
    let q = status::share(vms, BackendKind::Qemu, "qemu"@);
    let all = status::shares(vms);
    if a.len() > 0 {
        assert(all[0] == a[0]);
    }
    if c.len() > 0 {
        assert(all[a.len() as int] == c[0]);
    }
    if f.len() > 0 {
        assert(all[(a + c).len() as int] == f[0]);
    }
    if x.len() > 0 {
        assert(all[(a + c + f).len() as int] == x[0]);
    }
    if q.len() > 0 {
        assert(all[(a + c + f + x).len() as int] == q[0]);
    }
}

/// The settings of the components are told as they are.
pub proof fn law_settings_are_told(s: NodeStatus, on: bool)
    ensures
        s.jailer_enabled && s.jailer_required ==> status::jailer_status(s, on) == status::ok_mark(on)
            + " ("@ + "enforce"@ + ")"@,
        s.jailer_enabled && !s.jailer_required ==> status::jailer_status(s, on) == status::ok_mark(
            on,
        ) + " ("@ + "optional"@ + ")"@,
        s.auth.has_credentials && s.auth.oidc ==> status::auth_status(s, on) == status::ok_mark(on)
            + " ("@ + "tokens+oidc"@ + ")"@,
        s.auth.has_credentials && !s.auth.oidc ==> status::auth_status(s, on) == status::ok_mark(on)
            + " ("@ + "tokens"@ + ")"@,
{
}

} // verus!
