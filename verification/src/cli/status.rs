//! The panel that shows how a node is doing.

use vstd::prelude::*;

use crate::api::metrics;
use crate::api::metrics::{count_backend, count_status};
use crate::api::records::VmRecord;
use crate::cli::paint;
use crate::cli::paint::{paint, push_padded};
use crate::text;
use crate::text::{cat, join_with, push_decimal, same, to_lower, trim_start, u64_text};
use crate::vm::{BackendKind, VmStatus};

verus! {

/// A kernel that is named in the settings.
#[derive(Debug)]
pub struct Kernel {
    pub path: String,
    /// Whether there is such a file.
    pub exists: bool,
}

/// The programs of the host that can be found.
#[derive(Debug, Clone, Copy)]
pub struct HostPrograms {
    pub qemu: bool,
    pub cloud_hypervisor: bool,
    pub firecracker: bool,
    pub jailer: bool,
    pub hypervisor: bool,
    pub fluxctl: bool,
}

/// What the settings say of how requests are let in.
#[derive(Debug, Clone, Copy)]
pub struct AuthSettings {
    pub has_credentials: bool,
    pub oidc: bool,
    /// Whether requests must be let in by credentials only.
    pub required: bool,
}

/// What the panel shows.
#[derive(Debug)]
pub struct NodeStatus {
    pub listen: String,
    pub state_dir: String,
    pub jailer_enabled: bool,
    pub jailer_required: bool,
    /// How packets are handled, by the name of the mode.
    pub dataplane: String,
    pub auth: AuthSettings,
    pub programs: HostPrograms,
    pub firecracker_kernel: Option<Kernel>,
    pub fluxvm_kernel: Option<Kernel>,
    /// The virtual machines, where they can be read.
    pub vms: Option<Vec<VmRecord>>,
}

// ---------------------------------------------------------------------------
// Marks
// ---------------------------------------------------------------------------

/// All is well.
pub open spec fn ok_mark(on: bool) -> Seq<char> {
    paint::painted("\x1b[32m"@, "✅ OK"@, on)
}

/// Something is to be looked at.
pub open spec fn warn_mark(on: bool, message: Seq<char>) -> Seq<char> {
    paint::painted("\x1b[33m"@, "⚠️  "@ + message, on)
}

/// Something is wrong.
pub open spec fn err_mark(on: bool, message: Seq<char>) -> Seq<char> {
    paint::painted("\x1b[31m"@, "❌ "@ + message, on)
}

/// Something is not in use.
pub open spec fn disabled_mark(on: bool) -> Seq<char> {
    paint::painted("\x1b[33m\x1b[1m"@, "⭘ disabled"@, on)
}

/// All is well, with a remark.
pub open spec fn ok_with(on: bool, remark: Seq<char>) -> Seq<char> {
    ok_mark(on) + " ("@ + remark + ")"@
}

fn ok(on: bool) -> (r: String)
    ensures
        r@ == ok_mark(on),
{
    paint("\x1b[32m", "✅ OK", on)
}

fn warn(on: bool, message: &str) -> (r: String)
    ensures
        r@ == warn_mark(on, message@),
{
    paint("\x1b[33m", cat("⚠️  ", message).as_str(), on)
}

fn err(on: bool, message: &str) -> (r: String)
    ensures
        r@ == err_mark(on, message@),
{
    paint("\x1b[31m", cat("❌ ", message).as_str(), on)
}

fn disabled(on: bool) -> (r: String)
    ensures
        r@ == disabled_mark(on),
{
    paint("\x1b[33m\x1b[1m", "⭘ disabled", on)
}

fn fine(on: bool, remark: &str) -> (r: String)
    ensures
        r@ == ok_with(on, remark@),
{
    let mut out = ok(on);
    out.append(" (");
    out.append(remark);
    out.append(")");
    out
}

// ---------------------------------------------------------------------------
// Components
// ---------------------------------------------------------------------------

/// Where requests are taken.
pub open spec fn api_status(s: NodeStatus, on: bool) -> Seq<char> {
    if s.listen@.len() == 0 {
        err_mark(on, "listen unset"@)
    } else {
        ok_with(on, s.listen@)
    }
}

/// Whether virtual machines are shut in.
pub open spec fn jailer_status(s: NodeStatus, on: bool) -> Seq<char> {
    if s.jailer_enabled {
        ok_with(
            on,
            if s.jailer_required {
                "enforce"@
            } else {
                "optional"@
            },
        )
    } else if s.jailer_required {
        err_mark(on, "required but disabled"@)
    } else {
        disabled_mark(on)
    }
}

/// How packets are handled.
pub open spec fn dataplane_status(s: NodeStatus, on: bool) -> Seq<char> {
    let mode = text::lower(s.dataplane@);
    if mode == "off"@ || mode == "none"@ {
        disabled_mark(on)
    } else {
        ok_with(on, mode)
    }
}

/// How requests are let in.
pub open spec fn auth_status(s: NodeStatus, on: bool) -> Seq<char> {
    if s.auth.has_credentials {
        ok_with(
            on,
            if s.auth.oidc {
                "tokens+oidc"@
            } else {
                "tokens"@
            },
        )
    } else if s.auth.required {
        err_mark(on, "required but empty"@)
    } else {
        warn_mark(on, "off (lab)"@)
    }
}

/// A name, where it applies.
pub open spec fn named(present: bool, name: Seq<char>) -> Seq<Seq<char>> {
    if present {
        seq![name]
    } else {
        Seq::empty()
    }
}

/// The programs that can run virtual machines.
pub open spec fn usable(p: HostPrograms) -> Seq<Seq<char>> {
    named(p.qemu, "qemu"@) + named(p.cloud_hypervisor, "cloud-hypervisor"@) + named(
        p.firecracker,
        "firecracker"@,
    ) + named(p.hypervisor || p.fluxctl, "flux-vm"@)
}

/// What can run virtual machines.
pub open spec fn backends_status(s: NodeStatus, on: bool) -> Seq<char> {
    if usable(s.programs).len() == 0 {
        err_mark(on, "none on PATH"@)
    } else {
        ok_with(on, text::joined(usable(s.programs), ", "@))
    }
}

/// A kernel is there.
pub open spec fn found(k: Option<Kernel>) -> bool {
    k matches Some(k) && k.exists
}

/// Whether there is a kernel.
pub open spec fn kernel_status(s: NodeStatus, on: bool) -> Seq<char> {
    if found(s.firecracker_kernel) || found(s.fluxvm_kernel) {
        ok_mark(on)
    } else {
        warn_mark(on, "no kernel configured"@)
    }
}

/// The virtual machines that can be read.
pub open spec fn known(s: NodeStatus) -> Seq<VmRecord> {
    match s.vms {
        Some(v) => v@,
        None => Seq::empty(),
    }
}

/// How many virtual machines are in a state, as text.
pub open spec fn tally(vms: Seq<VmRecord>, status: VmStatus) -> Seq<char> {
    text::decimal_text(metrics::with_status(vms, status))
}

/// How the virtual machines are doing, behind the mark.
pub open spec fn tallies(vms: Seq<VmRecord>, failed: Seq<char>) -> Seq<char> {
    "  "@ + tally(vms, VmStatus::Running) + " running / "@ + tally(vms, VmStatus::Paused)
        + " paused / "@ + failed + " failed ("@ + text::decimal_text(vms.len()) + " total)"@
}

/// How the virtual machines are doing.
pub open spec fn vm_status(s: NodeStatus, on: bool) -> Seq<char> {
    let vms = known(s);
    let failed = tally(vms, VmStatus::Failed);
    if s.vms is None {
        warn_mark(on, "state dir not readable"@)
    } else if metrics::with_status(vms, VmStatus::Failed) > 0 {
        err_mark(on, failed + " errors"@) + tallies(vms, err_mark(on, failed))
    } else if vms.len() == 0 {
        warn_mark(on, "idle"@) + "  0 VMs"@
    } else {
        ok_mark(on) + tallies(vms, failed)
    }
}

fn show_api(s: &NodeStatus, on: bool) -> (r: String)
    ensures
        r@ == api_status(*s, on),
{
    proof {
        reveal_strlit("");
        if s.listen@.len() == 0 {
            assert(s.listen@ =~= ""@);
        }
    }
    if same(s.listen.as_str(), "") {
        err(on, "listen unset")
    } else {
        fine(on, s.listen.as_str())
    }
}

fn show_jailer(s: &NodeStatus, on: bool) -> (r: String)
    ensures
        r@ == jailer_status(*s, on),
{
    if s.jailer_enabled {
        if s.jailer_required {
            fine(on, "enforce")
        } else {
            fine(on, "optional")
        }
    } else if s.jailer_required {
        err(on, "required but disabled")
    } else {
        disabled(on)
    }
}

fn show_dataplane(s: &NodeStatus, on: bool) -> (r: String)
    ensures
        r@ == dataplane_status(*s, on),
{
    let mode = to_lower(s.dataplane.as_str());
    if same(mode.as_str(), "off") || same(mode.as_str(), "none") {
        disabled(on)
    } else {
        fine(on, mode.as_str())
    }
}

fn show_auth(s: &NodeStatus, on: bool) -> (r: String)
    ensures
        r@ == auth_status(*s, on),
{
    if s.auth.has_credentials {
        if s.auth.oidc {
            fine(on, "tokens+oidc")
        } else {
            fine(on, "tokens")
        }
    } else if s.auth.required {
        err(on, "required but empty")
    } else {
        warn(on, "off (lab)")
    }
}

fn push_named(out: &mut Vec<String>, present: bool, name: &str)
    ensures
        text::views(final(out)@) == text::views(old(out)@) + named(present, name@),
{
    if present {
        out.push(name.to_owned());
    }
    assert(text::views(out@) =~= text::views(old(out)@) + named(present, name@));
}

fn show_backends(s: &NodeStatus, on: bool) -> (r: String)
    ensures
        r@ == backends_status(*s, on),
{
    let p = s.programs;
    let mut parts: Vec<String> = Vec::new();
    push_named(&mut parts, p.qemu, "qemu");
    push_named(&mut parts, p.cloud_hypervisor, "cloud-hypervisor");
    push_named(&mut parts, p.firecracker, "firecracker");
    push_named(&mut parts, p.hypervisor || p.fluxctl, "flux-vm");
    assert(text::views(parts@) =~= usable(p));
    if parts.len() == 0 {
        err(on, "none on PATH")
    } else {
        fine(on, join_with(&parts, ", ").as_str())
    }
}

fn is_found(k: &Option<Kernel>) -> (r: bool)
    ensures
        r == found(*k),
{
    match k {
        Some(k) => k.exists,
        None => false,
    }
}

fn show_kernel(s: &NodeStatus, on: bool) -> (r: String)
    ensures
        r@ == kernel_status(*s, on),
{
    if is_found(&s.firecracker_kernel) || is_found(&s.fluxvm_kernel) {
        ok(on)
    } else {
        warn(on, "no kernel configured")
    }
}

fn push_tallies(out: &mut String, vms: &Vec<VmRecord>, failed: &str)
    ensures
        final(out)@ == old(out)@ + tallies(vms@, failed@),
{
    out.append("  ");
    push_decimal(out, count_status(vms, VmStatus::Running));
    out.append(" running / ");
    push_decimal(out, count_status(vms, VmStatus::Paused));
    out.append(" paused / ");
    out.append(failed);
    out.append(" failed (");
    push_decimal(out, vms.len() as u64);
    out.append(" total)");
    assert(out@ =~= old(out)@ + tallies(vms@, failed@));
}

fn show_vms(s: &NodeStatus, on: bool) -> (r: String)
    ensures
        r@ == vm_status(*s, on),
{
    match &s.vms {
        None => warn(on, "state dir not readable"),
        Some(vms) => {
            let failed: u64 = count_status(vms, VmStatus::Failed);
            let text = u64_text(failed);
            if failed > 0 {
                let mut out = err(on, cat(text.as_str(), " errors").as_str());
                push_tallies(&mut out, vms, err(on, text.as_str()).as_str());
                out
            } else if vms.len() == 0 {
                let mut out = warn(on, "idle");
                out.append("  0 VMs");
                out
            } else {
                let mut out = ok(on);
                push_tallies(&mut out, vms, text.as_str());
                out
            }
        },
    }
}

// ---------------------------------------------------------------------------
// The logo
// ---------------------------------------------------------------------------

/// The logo, with the components beside it.
pub open spec fn logo(s: NodeStatus, on: bool) -> Seq<char> {
    if on {
        "\x1b[33m    /¯¯\\\x1b[0m"@ + "\n"@
            + "\x1b[36m /¯¯\x1b[33m\\__/\x1b[32m¯¯\\\x1b[0m    FluxVM:             "@ + api_status(
            s,
            on,
        ) + "\n"@ + "\x1b[36m \\__\x1b[31m/¯¯\\\x1b[32m__/\x1b[0m    Jailer:             "@
            + jailer_status(s, on) + "\n"@
            + "\x1b[32m /¯¯\x1b[31m\\__/\x1b[35m¯¯\\\x1b[0m    Dataplane:          "@
            + dataplane_status(s, on) + "\n"@
            + "\x1b[32m \\__\x1b[34m/¯¯\\\x1b[35m__/\x1b[0m    Auth:               "@
            + auth_status(s, on) + "\n"@
            + "\x1b[34m\x1b[34m\x1b[34m    \\__/\x1b[0m       Hypervisors:       "@
            + backends_status(s, on)
    } else {
        "    /¯¯\\"@ + "\n"@ + " /¯¯\\__/¯¯\\    FluxVM:             "@ + api_status(s, on) + "\n"@
            + " \\__/¯¯\\__/    Jailer:             "@ + jailer_status(s, on) + "\n"@
            + " /¯¯\\__/¯¯\\    Dataplane:          "@ + dataplane_status(s, on) + "\n"@
            + " \\__/¯¯\\__/    Auth:               "@ + auth_status(s, on) + "\n"@
            + "    \\__/       Hypervisors:       "@ + backends_status(s, on)
    }
}

fn draw_logo(s: &NodeStatus, on: bool) -> (r: String)
    ensures
        r@ == logo(*s, on),
{
    let mut out = String::new();
    if on {
        out.append("\x1b[33m    /¯¯\\\x1b[0m");
        out.append("\n");
        out.append("\x1b[36m /¯¯\x1b[33m\\__/\x1b[32m¯¯\\\x1b[0m    FluxVM:             ");
        out.append(show_api(s, on).as_str());
        out.append("\n");
        out.append("\x1b[36m \\__\x1b[31m/¯¯\\\x1b[32m__/\x1b[0m    Jailer:             ");
        out.append(show_jailer(s, on).as_str());
        out.append("\n");
        out.append("\x1b[32m /¯¯\x1b[31m\\__/\x1b[35m¯¯\\\x1b[0m    Dataplane:          ");
        out.append(show_dataplane(s, on).as_str());
        out.append("\n");
        out.append("\x1b[32m \\__\x1b[34m/¯¯\\\x1b[35m__/\x1b[0m    Auth:               ");
        out.append(show_auth(s, on).as_str());
        out.append("\n");
        out.append("\x1b[34m\x1b[34m\x1b[34m    \\__/\x1b[0m       Hypervisors:       ");
        out.append(show_backends(s, on).as_str());
    } else {
        out.append("    /¯¯\\");
        out.append("\n");
        out.append(" /¯¯\\__/¯¯\\    FluxVM:             ");
        out.append(show_api(s, on).as_str());
        out.append("\n");
        out.append(" \\__/¯¯\\__/    Jailer:             ");
        out.append(show_jailer(s, on).as_str());
        out.append("\n");
        out.append(" /¯¯\\__/¯¯\\    Dataplane:          ");
        out.append(show_dataplane(s, on).as_str());
        out.append("\n");
        out.append(" \\__/¯¯\\__/    Auth:               ");
        out.append(show_auth(s, on).as_str());
        out.append("\n");
        out.append("    \\__/       Hypervisors:       ");
        out.append(show_backends(s, on).as_str());
    }
    assert(out@ =~= logo(*s, on));
    out
}

// ---------------------------------------------------------------------------
// The summary
// ---------------------------------------------------------------------------

/// A row of the summary.
pub open spec fn row(label: Seq<char>, value: Seq<char>) -> Seq<char> {
    paint::padded(label, 22) + " "@ + value + "\n"@
}

/// How many virtual machines a program runs, where it runs any.
pub open spec fn share(vms: Seq<VmRecord>, backend: BackendKind, name: Seq<char>) -> Seq<
    Seq<char>,
> {
    let n = metrics::with_backend(vms, backend);
    named(n > 0, name + "="@ + text::decimal_text(n))
}

/// How many virtual machines each program runs, by the programs' names.
pub open spec fn shares(vms: Seq<VmRecord>) -> Seq<Seq<char>> {
    share(vms, BackendKind::Auto, "auto"@) + share(
        vms,
        BackendKind::CloudHypervisor,
        "cloudhypervisor"@,
    ) + share(vms, BackendKind::Firecracker, "firecracker"@) + share(
        vms,
        BackendKind::FluxVm,
        "fluxvm"@,
    ) + share(vms, BackendKind::Qemu, "qemu"@)
}

/// The row on the programs that run virtual machines, where there are any.
pub open spec fn shares_row(s: NodeStatus) -> Seq<char> {
    if known(s).len() == 0 {
        Seq::empty()
    } else {
        row("Backends in use:"@, text::joined(shares(known(s)), " "@))
    }
}

/// The summary below the logo.
pub open spec fn summary(s: NodeStatus, on: bool, verbose: bool) -> Seq<char> {
    row("VMs:"@, text::trim_start_of(vm_status(s, on))) + row("Kernels:"@, kernel_status(s, on))
        + shares_row(s) + row("State dir:"@, s.state_dir@) + row(
        "Config:"@,
        if verbose {
            "listen="@ + s.listen@
        } else {
            "loaded"@
        },
    )
}

fn push_row(out: &mut String, label: &str, value: &str)
    ensures
        final(out)@ == old(out)@ + row(label@, value@),
{
    push_padded(out, label, 22);
    out.append(" ");
    out.append(value);
    out.append("\n");
    assert(out@ =~= old(out)@ + row(label@, value@));
}

fn push_share(out: &mut Vec<String>, vms: &Vec<VmRecord>, backend: BackendKind, name: &str)
    ensures
        text::views(final(out)@) == text::views(old(out)@) + share(vms@, backend, name@),
{
    let n: u64 = count_backend(vms, backend);
    let part = cat(cat(name, "=").as_str(), u64_text(n).as_str());
    push_named(out, n > 0, part.as_str());
}

fn push_shares(out: &mut String, s: &NodeStatus)
    ensures
        final(out)@ == old(out)@ + shares_row(*s),
{
    if let Some(vms) = &s.vms {
        if vms.len() > 0 {
            let mut parts: Vec<String> = Vec::new();
            push_share(&mut parts, vms, BackendKind::Auto, "auto");
            push_share(&mut parts, vms, BackendKind::CloudHypervisor, "cloudhypervisor");
            push_share(&mut parts, vms, BackendKind::Firecracker, "firecracker");
            push_share(&mut parts, vms, BackendKind::FluxVm, "fluxvm");
            push_share(&mut parts, vms, BackendKind::Qemu, "qemu");
            assert(text::views(parts@) =~= shares(vms@));
            push_row(out, "Backends in use:", join_with(&parts, " ").as_str());
        }
    }
    assert(out@ =~= old(out)@ + shares_row(*s));
}

fn push_summary(out: &mut String, s: &NodeStatus, on: bool, verbose: bool)
    ensures
        final(out)@ == old(out)@ + summary(*s, on, verbose),
{
    push_row(out, "VMs:", trim_start(show_vms(s, on).as_str()).as_str());
    push_row(out, "Kernels:", show_kernel(s, on).as_str());
    push_shares(out, s);
    push_row(out, "State dir:", s.state_dir.as_str());
    if verbose {
        push_row(out, "Config:", cat("listen=", s.listen.as_str()).as_str());
    } else {
        push_row(out, "Config:", "loaded");
    }
    assert(out@ =~= old(out)@ + summary(*s, on, verbose));
}

// ---------------------------------------------------------------------------
// The host
// ---------------------------------------------------------------------------

/// A row on the host.
pub open spec fn host_row(label: Seq<char>, value: Seq<char>) -> Seq<char> {
    "  "@ + row(label, value)
}

/// Whether a program is there.
pub open spec fn program_row(name: Seq<char>, present: bool, on: bool) -> Seq<char> {
    host_row(
        name,
        if present {
            ok_mark(on)
        } else {
            disabled_mark(on)
        },
    )
}

/// Whether a kernel is there, where one is named.
pub open spec fn kernel_row(label: Seq<char>, k: Option<Kernel>, on: bool) -> Seq<char> {
    match k {
        None => Seq::empty(),
        Some(k) => host_row(
            label,
            if k.exists {
                ok_with(on, k.path@)
            } else {
                err_mark(on, "missing "@ + k.path@)
            },
        ),
    }
}

/// What is there on the host.
pub open spec fn host_part(s: NodeStatus, on: bool) -> Seq<char> {
    "\n"@ + paint::painted("\x1b[1m\x1b[36m"@, "Host binaries:\n"@, on) + program_row(
        "qemu-system-x86_64"@,
        s.programs.qemu,
        on,
    ) + program_row("cloud-hypervisor"@, s.programs.cloud_hypervisor, on) + program_row(
        "firecracker"@,
        s.programs.firecracker,
        on,
    ) + program_row("jailer"@, s.programs.jailer, on) + program_row(
        "fluxvm-hypervisor"@,
        s.programs.hypervisor,
        on,
    ) + kernel_row("firecracker_kernel"@, s.firecracker_kernel, on) + kernel_row(
        "fluxvm_kernel"@,
        s.fluxvm_kernel,
        on,
    )
}

fn push_program(out: &mut String, name: &str, present: bool, on: bool)
    ensures
        final(out)@ == old(out)@ + program_row(name@, present, on),
{
    let mark = if present {
        ok(on)
    } else {
        disabled(on)
    };
    out.append("  ");
    push_row(out, name, mark.as_str());
    assert(out@ =~= old(out)@ + program_row(name@, present, on));
}

fn push_kernel(out: &mut String, label: &str, k: &Option<Kernel>, on: bool)
    ensures
        final(out)@ == old(out)@ + kernel_row(label@, *k, on),
{
    if let Some(k) = k {
        let mark = if k.exists {
            fine(on, k.path.as_str())
        } else {
            err(on, cat("missing ", k.path.as_str()).as_str())
        };
        out.append("  ");
        push_row(out, label, mark.as_str());
    }
    assert(out@ =~= old(out)@ + kernel_row(label@, *k, on));
}

fn push_host(out: &mut String, s: &NodeStatus, on: bool)
    ensures
        final(out)@ == old(out)@ + host_part(*s, on),
{
    out.append("\n");
    out.append(paint("\x1b[1m\x1b[36m", "Host binaries:\n", on).as_str());
    push_program(out, "qemu-system-x86_64", s.programs.qemu, on);
    push_program(out, "cloud-hypervisor", s.programs.cloud_hypervisor, on);
    push_program(out, "firecracker", s.programs.firecracker, on);
    push_program(out, "jailer", s.programs.jailer, on);
    push_program(out, "fluxvm-hypervisor", s.programs.hypervisor, on);
    push_kernel(out, "firecracker_kernel", &s.firecracker_kernel, on);
    push_kernel(out, "fluxvm_kernel", &s.fluxvm_kernel, on);
    assert(out@ =~= old(out)@ + host_part(*s, on));
}

// ---------------------------------------------------------------------------
// The panel
// ---------------------------------------------------------------------------

/// The whole panel.
pub open spec fn panel(s: NodeStatus, on: bool, verbose: bool) -> Seq<char> {
    logo(s, on) + "\n"@ + "\n"@ + summary(s, on, verbose) + if verbose {
        host_part(s, on)
    } else {
        Seq::empty()
    }
}

/// Why a node is not well.
pub open spec fn status_fault(s: NodeStatus) -> Option<Seq<char>> {
    if metrics::with_status(known(s), VmStatus::Failed) > 0 {
        Some(
            "status check failed: "@ + tally(known(s), VmStatus::Failed)
                + " VM(s) in Failed state"@,
        )
    } else {
        None
    }
}

/// Draws the panel.
pub fn render_status(s: &NodeStatus, on: bool, verbose: bool) -> (r: String)
    ensures
        r@ == panel(*s, on, verbose),
{
    let mut out = draw_logo(s, on);
    out.append("\n");
    out.append("\n");
    push_summary(&mut out, s, on, verbose);
    if verbose {
        push_host(&mut out, s, on);
    }
    assert(out@ =~= panel(*s, on, verbose));
    out
}

/// Judges a node: it is not well while a virtual machine has failed.
pub fn check_status(s: &NodeStatus) -> (r: Result<(), String>)
    ensures
        match (r, status_fault(*s)) {
            (Ok(_), None) => true,
            (Err(e), Some(m)) => e@ == m,
            _ => false,
        },
{
    if let Some(vms) = &s.vms {
        let failed: u64 = count_status(vms, VmStatus::Failed);
        if failed > 0 {
            let head = cat("status check failed: ", u64_text(failed).as_str());
            return Err(cat(head.as_str(), " VM(s) in Failed state"));
        }
    }
    Ok(())
}

/// A node whose virtual machines cannot be read is not judged by them.
pub proof fn law_unread_machines_are_no_fault(s: NodeStatus)
    requires
        s.vms is None,
    ensures
        status_fault(s) is None,
{
}

} // verus!
