//! What the command line says of itself.

use vstd::prelude::*;

use crate::cli::paint;
use crate::cli::paint::push_spaces;
use crate::text;
use crate::text::byte_count;

verus! {

/// What the command line is for, with examples.
pub const LONG_ABOUT: &'static str = "\
🚀 CLI to install, manage, and troubleshoot FluxVM hosts.

FluxVM is a Rust-native VM control plane for QEMU, Cloud Hypervisor,
Firecracker, and the in-tree FluxVM hypervisor — with Network Fabric,
warm pools, and Hubble-lite observability.

Examples:
  # Start the control plane on this host
  $ fluxctl --config /etc/fluxvm.toml serve

  # Check status of FluxVM (Cilium-style panel)
  $ fluxctl status

  # Create a VM from a JSON spec
  $ fluxctl create --spec examples/qemu.json

  # Observe Hubble-lite flows
  $ fluxctl hubble observe
";

/// How the parts of the help follow one another. The commands come in groups of their own,
/// after the usage.
pub const HELP_TEMPLATE: &'static str = "\
{about-with-newline}\
{usage-heading} {usage}

{after-help}
{all-args}
";

/// How a text is set off.
#[derive(Debug, Clone, Copy)]
pub enum Tint {
    /// Not at all.
    Plain,
    /// Bold and yellow.
    Yellow,
    /// Bold and green.
    Green,
}

/// What stands in front of a text that is set off.
pub open spec fn start_of(tint: Tint) -> Seq<char> {
    match tint {
        Tint::Plain => ""@,
        Tint::Yellow => "\x1b[1m\x1b[33m"@,
        Tint::Green => "\x1b[1m\x1b[32m"@,
    }
}

/// What stands behind a text that is set off.
pub open spec fn end_of(tint: Tint) -> Seq<char> {
    match tint {
        Tint::Plain => ""@,
        _ => "\x1b[0m"@,
    }
}

/// Calls `anstyle::Style::render`. A style without a color or an effect is written as
/// nothing; a bold one in a color as the code for bold and the code of the color.
#[verifier::external_body]
fn style_start(tint: Tint) -> (r: String)
    ensures
        r@ == start_of(tint),
{
    let style = match tint {
        Tint::Plain => anstyle::Style::new(),
        Tint::Yellow => anstyle::AnsiColor::Yellow.on_default().bold(),
        Tint::Green => anstyle::AnsiColor::Green.on_default().bold(),
    };
    style.render().to_string()
}

/// Calls `anstyle::Style::render_reset`, which writes the code that ends all styles, but
/// nothing for a style without a color or an effect.
#[verifier::external_body]
fn style_end(tint: Tint) -> (r: String)
    ensures
        r@ == end_of(tint),
{
    let style = match tint {
        Tint::Plain => anstyle::Style::new(),
        Tint::Yellow => anstyle::AnsiColor::Yellow.on_default().bold(),
        Tint::Green => anstyle::AnsiColor::Green.on_default().bold(),
    };
    style.render_reset().to_string()
}

/// How headings are set off.
pub open spec fn heading_tint(on: bool) -> Tint {
    if on {
        Tint::Yellow
    } else {
        Tint::Plain
    }
}

/// How the names of commands are set off.
pub open spec fn name_tint(on: bool) -> Tint {
    if on {
        Tint::Green
    } else {
        Tint::Plain
    }
}

/// A text that is set off.
pub open spec fn tinted(tint: Tint, text: Seq<char>) -> Seq<char> {
    start_of(tint) + text + end_of(tint)
}

/// The heading of a group.
pub open spec fn heading(title: Seq<char>, on: bool) -> Seq<char> {
    "\n\n"@ + tinted(heading_tint(on), title) + "\n"@
}

/// A command, with what it does.
pub open spec fn command(name: Seq<char>, about: Seq<char>, on: bool) -> Seq<char> {
    "  "@ + tinted(name_tint(on), name) + paint::spaces(paint::missing(14, text::byte_len(name)))
        + " "@ + about + "\n"@
}

fn push_tinted(out: &mut String, tint: Tint, text: &str)
    ensures
        final(out)@ == old(out)@ + tinted(tint, text@),
{
    out.append(style_start(tint).as_str());
    out.append(text);
    out.append(style_end(tint).as_str());
    assert(out@ =~= old(out)@ + tinted(tint, text@));
}

fn push_heading(out: &mut String, title: &str, on: bool)
    ensures
        final(out)@ == old(out)@ + heading(title@, on),
{
    out.append("\n\n");
    push_tinted(
        out,
        if on {
            Tint::Yellow
        } else {
            Tint::Plain
        },
        title,
    );
    out.append("\n");
    assert(out@ =~= old(out)@ + heading(title@, on));
}

fn push_command(out: &mut String, name: &str, about: &str, on: bool)
    ensures
        final(out)@ == old(out)@ + command(name@, about@, on),
{
    out.append("  ");
    push_tinted(
        out,
        if on {
            Tint::Green
        } else {
            Tint::Plain
        },
        name,
    );
    let used: usize = byte_count(name);
    push_spaces(
        out,
        if used < 14 {
            14 - used
        } else {
            0
        },
    );
    out.append(" ");
    out.append(about);
    out.append("\n");
    assert(out@ =~= old(out)@ + command(name@, about@, on));
}

/// Basic Commands.
pub open spec fn basic_part(on: bool) -> Seq<char> {
    heading("✨ Basic Commands:"@, on) + command(
        "serve"@,
        "Start the FluxVM control-plane daemon"@,
        on,
    ) + command(
        "status"@,
        "Display status (Cilium-style panel)"@,
        on,
    )
}

fn push_basic(out: &mut String, on: bool)
    ensures
        final(out)@ == old(out)@ + basic_part(on),
{
    push_heading(out, "✨ Basic Commands:", on);
    push_command(out, "serve", "Start the FluxVM control-plane daemon", on);
    push_command(out, "status", "Display status (Cilium-style panel)", on);
    assert(out@ =~= old(out)@ + basic_part(on));
}

/// Lifecycle Commands.
pub open spec fn lifecycle_part(on: bool) -> Seq<char> {
    heading("🔄 Lifecycle Commands:"@, on) + command(
        "create"@,
        "Create a VM from a JSON spec file"@,
        on,
    ) + command(
        "list"@,
        "List VMs"@,
        on,
    ) + command(
        "get"@,
        "Get a VM by id"@,
        on,
    ) + command(
        "start"@,
        "Relaunch a Stopped VM from its existing disk"@,
        on,
    ) + command(
        "stop"@,
        "Stop a VM"@,
        on,
    ) + command(
        "pause"@,
        "Pause a VM"@,
        on,
    ) + command(
        "resume"@,
        "Resume a paused VM"@,
        on,
    ) + command(
        "delete"@,
        "Delete a VM"@,
        on,
    )
}

fn push_lifecycle(out: &mut String, on: bool)
    ensures
        final(out)@ == old(out)@ + lifecycle_part(on),
{
    push_heading(out, "🔄 Lifecycle Commands:", on);
    push_command(out, "create", "Create a VM from a JSON spec file", on);
    push_command(out, "list", "List VMs", on);
    push_command(out, "get", "Get a VM by id", on);
    push_command(out, "start", "Relaunch a Stopped VM from its existing disk", on);
    push_command(out, "stop", "Stop a VM", on);
    push_command(out, "pause", "Pause a VM", on);
    push_command(out, "resume", "Resume a paused VM", on);
    push_command(out, "delete", "Delete a VM", on);
    assert(out@ =~= old(out)@ + lifecycle_part(on));
}

/// Runtime Control.
pub open spec fn runtime_part(on: bool) -> Seq<char> {
    heading("🧊 Runtime Control:"@, on) + command(
        "freeze"@,
        "Freeze a VM via cgroup v2 freezer"@,
        on,
    ) + command(
        "thaw"@,
        "Thaw a previously frozen VM"@,
        on,
    ) + command(
        "frozen"@,
        "Report whether a VM's cgroup is frozen"@,
        on,
    ) + command(
        "resources"@,
        "Apply cgroup v2 resource-control settings"@,
        on,
    )
}

fn push_runtime(out: &mut String, on: bool)
    ensures
        final(out)@ == old(out)@ + runtime_part(on),
{
    push_heading(out, "🧊 Runtime Control:", on);
    push_command(out, "freeze", "Freeze a VM via cgroup v2 freezer", on);
    push_command(out, "thaw", "Thaw a previously frozen VM", on);
    push_command(out, "frozen", "Report whether a VM's cgroup is frozen", on);
    push_command(out, "resources", "Apply cgroup v2 resource-control settings", on);
    assert(out@ =~= old(out)@ + runtime_part(on));
}

/// Guest Access.
pub open spec fn guest_part(on: bool) -> Seq<char> {
    heading("🖥️  Guest Access:"@, on) + command(
        "exec"@,
        "Run a command inside the guest over vsock"@,
        on,
    ) + command(
        "ping"@,
        "Health-check the vsock guest agent"@,
        on,
    ) + command(
        "copy-to"@,
        "Copy a local file into the guest"@,
        on,
    ) + command(
        "copy-from"@,
        "Copy a file out of the guest"@,
        on,
    ) + command(
        "qga"@,
        "QEMU guest-agent (virtio-serial) helpers"@,
        on,
    )
}

fn push_guest(out: &mut String, on: bool)
    ensures
        final(out)@ == old(out)@ + guest_part(on),
{
    push_heading(out, "🖥️  Guest Access:", on);
    push_command(out, "exec", "Run a command inside the guest over vsock", on);
    push_command(out, "ping", "Health-check the vsock guest agent", on);
    push_command(out, "copy-to", "Copy a local file into the guest", on);
    push_command(out, "copy-from", "Copy a file out of the guest", on);
    push_command(out, "qga", "QEMU guest-agent (virtio-serial) helpers", on);
    assert(out@ =~= old(out)@ + guest_part(on));
}

/// Images & Pools.
pub open spec fn images_part(on: bool) -> Seq<char> {
    heading("📦 Images & Pools:"@, on) + command(
        "build-image"@,
        "Build a guest disk image"@,
        on,
    ) + command(
        "catalog"@,
        "Manage the named/signed image catalog"@,
        on,
    ) + command(
        "pool"@,
        "Manage warm VM pools"@,
        on,
    )
}

fn push_images(out: &mut String, on: bool)
    ensures
        final(out)@ == old(out)@ + images_part(on),
{
    push_heading(out, "📦 Images & Pools:", on);
    push_command(out, "build-image", "Build a guest disk image", on);
    push_command(out, "catalog", "Manage the named/signed image catalog", on);
    push_command(out, "pool", "Manage warm VM pools", on);
    assert(out@ =~= old(out)@ + images_part(on));
}

/// Network Policy.
pub open spec fn policy_part(on: bool) -> Seq<char> {
    heading("🛡️  Network Policy:"@, on) + command(
        "group"@,
        "Security groups for the VM-edge dataplane"@,
        on,
    ) + command(
        "cnp"@,
        "CNP documents compiled onto security groups"@,
        on,
    ) + command(
        "identity"@,
        "Reserved + group numeric identities"@,
        on,
    ) + command(
        "dataplane"@,
        "Dataplane health, ipcache, and FQDN refresh"@,
        on,
    )
}

fn push_policy(out: &mut String, on: bool)
    ensures
        final(out)@ == old(out)@ + policy_part(on),
{
    push_heading(out, "🛡️  Network Policy:", on);
    push_command(out, "group", "Security groups for the VM-edge dataplane", on);
    push_command(out, "cnp", "CNP documents compiled onto security groups", on);
    push_command(out, "identity", "Reserved + group numeric identities", on);
    push_command(out, "dataplane", "Dataplane health, ipcache, and FQDN refresh", on);
    assert(out@ =~= old(out)@ + policy_part(on));
}

/// Observability.
pub open spec fn observability_part(on: bool) -> Seq<char> {
    heading("🔭 Observability:"@, on) + command(
        "diagnose"@,
        "Correlate Runtime Intelligence with VM-edge state"@,
        on,
    ) + command(
        "trace"@,
        "Live VM Flight Recorder events"@,
        on,
    ) + command(
        "observe"@,
        "Snapshot of identities, groups, CNPs, and VMs"@,
        on,
    ) + command(
        "hubble"@,
        "Hubble-lite flows and CiliumEndpoint views"@,
        on,
    )
}

fn push_observability(out: &mut String, on: bool)
    ensures
        final(out)@ == old(out)@ + observability_part(on),
{
    push_heading(out, "🔭 Observability:", on);
    push_command(out, "diagnose", "Correlate Runtime Intelligence with VM-edge state", on);
    push_command(out, "trace", "Live VM Flight Recorder events", on);
    push_command(out, "observe", "Snapshot of identities, groups, CNPs, and VMs", on);
    push_command(out, "hubble", "Hubble-lite flows and CiliumEndpoint views", on);
    assert(out@ =~= old(out)@ + observability_part(on));
}

/// Cluster.
pub open spec fn cluster_part(on: bool) -> Seq<char> {
    heading("🌐 Cluster:"@, on) + command(
        "migrate"@,
        "Live VM migration (QEMU / Cloud Hypervisor)"@,
        on,
    ) + command(
        "fleet"@,
        "Manage a multi-host fleet via the central registry"@,
        on,
    )
}

fn push_cluster(out: &mut String, on: bool)
    ensures
        final(out)@ == old(out)@ + cluster_part(on),
{
    push_heading(out, "🌐 Cluster:", on);
    push_command(out, "migrate", "Live VM migration (QEMU / Cloud Hypervisor)", on);
    push_command(out, "fleet", "Manage a multi-host fleet via the central registry", on);
    assert(out@ =~= old(out)@ + cluster_part(on));
}

/// All commands in their groups.
pub open spec fn help_text(on: bool) -> Seq<char> {
    tinted(heading_tint(on), "Available Commands:"@) + basic_part(on) + lifecycle_part(on)
        + runtime_part(on) + guest_part(on) + images_part(on) + policy_part(on)
        + observability_part(on) + cluster_part(on)
        + "\n"@
        + "Use \"fluxctl [command] --help\" for more information about a command."@
}

/// Lists all commands in their groups.
pub fn after_help(on: bool) -> (r: String)
    ensures
        r@ == help_text(on),
{
    let mut out = String::new();
    push_tinted(
        &mut out,
        if on {
            Tint::Yellow
        } else {
            Tint::Plain
        },
        "Available Commands:",
    );
    push_basic(&mut out, on);
    push_lifecycle(&mut out, on);
    push_runtime(&mut out, on);
    push_guest(&mut out, on);
    push_images(&mut out, on);
    push_policy(&mut out, on);
    push_observability(&mut out, on);
    push_cluster(&mut out, on);
    out.append("\n");
    out.append("Use \"fluxctl [command] --help\" for more information about a command.");
    assert(out@ =~= help_text(on));
    out
}

} // verus!
