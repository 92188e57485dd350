use fluxvm::api::records::VmRecord;
use fluxvm::cli::commands::{
    check_serve, drops_colors, entries_beside, group_settings, trace_output, waits_for_growth, TraceOutput,
};
use fluxvm::cli::help::{after_help, HELP_TEMPLATE, LONG_ABOUT};
use fluxvm::cli::paint::{color_enabled, paint, push_padded};
use fluxvm::cli::status::{
    check_status, render_status, AuthSettings, HostPrograms, Kernel, NodeStatus,
};
use fluxvm::vm::{BackendKind, VmStatus};

fn vm(backend: BackendKind, status: VmStatus) -> VmRecord {
    VmRecord { name: "x".into(), tenant: None, backend, status, agent_enabled: false, memory_mib: 1 }
}

fn node(vms: Option<Vec<VmRecord>>) -> NodeStatus {
    NodeStatus {
        listen: "127.0.0.1:7788".into(),
        state_dir: "/var/lib/fluxvm".into(),
        jailer_enabled: false,
        jailer_required: false,
        dataplane: "Ebpf".into(),
        auth: AuthSettings { has_credentials: true, oidc: false, required: true },
        programs: HostPrograms {
            qemu: true,
            cloud_hypervisor: false,
            firecracker: true,
            jailer: false,
            hypervisor: false,
            fluxctl: false,
        },
        firecracker_kernel: Some(Kernel { path: "/k".into(), exists: true }),
        fluxvm_kernel: Some(Kernel { path: "/m".into(), exists: false }),
        vms,
    }
}

#[test]
fn grouped_help_uses_emoji_sections() {
    assert!(LONG_ABOUT.contains('🚀'));
    let help = after_help(false);
    for marker in [
        "✨ Basic Commands:",
        "🔄 Lifecycle Commands:",
        "🧊 Runtime Control:",
        "🖥️",
        "📦 Images & Pools:",
        "🛡️",
        "🔭 Observability:",
        "🌐 Cluster:",
    ] {
        assert!(help.contains(marker), "grouped help missing {marker}");
    }
}

#[test]
fn help_lines_up_its_commands() {
    let help = after_help(false);
    assert!(help.starts_with(
        "Available Commands:\n\n✨ Basic Commands:\n  serve          Start the FluxVM control-plane daemon\n"
    ));
    assert!(help.contains("\n  build-image    Build a guest disk image\n"));
    assert!(help.ends_with(
        "\n\nUse \"fluxctl [command] --help\" for more information about a command."
    ));
    assert!(!help.contains('\x1b'));
    assert!(HELP_TEMPLATE.contains("{after-help}"));
}

#[test]
fn help_is_colored_on_request() {
    let help = after_help(true);
    assert!(help.starts_with("\x1b[1m\x1b[33mAvailable Commands:\x1b[0m"));
    assert!(help.contains("  \x1b[1m\x1b[32mserve\x1b[0m          Start"));
    let style = anstyle::AnsiColor::Yellow.on_default().effects(anstyle::Effects::BOLD);
    assert!(help.starts_with(&format!("{style}Available Commands:{style:#}")));
}

#[test]
fn colors_can_be_switched_off() {
    assert!(!color_enabled(true, true, true));
    assert!(color_enabled(false, true, false));
    assert!(color_enabled(false, false, true));
    assert!(!color_enabled(false, false, false));
    assert_eq!(paint("\x1b[32m", "x", true), "\x1b[32mx\x1b[0m");
    assert_eq!(paint("\x1b[32m", "x", false), "x");
    let mut out = String::new();
    push_padded(&mut out, "ab", 4);
    push_padded(&mut out, "abcdef", 4);
    assert_eq!(out, "ab  abcdef");
}

#[test]
fn the_panel_shows_a_node() {
    let s = node(Some(vec![
        vm(BackendKind::Qemu, VmStatus::Running),
        vm(BackendKind::Qemu, VmStatus::Paused),
        vm(BackendKind::CloudHypervisor, VmStatus::Running),
    ]));
    let out = render_status(&s, false, false);
    let expected = "    /¯¯\\\n \
        /¯¯\\__/¯¯\\    FluxVM:             ✅ OK (127.0.0.1:7788)\n \
        \\__/¯¯\\__/    Jailer:             ⭘ disabled\n \
        /¯¯\\__/¯¯\\    Dataplane:          ✅ OK (ebpf)\n \
        \\__/¯¯\\__/    Auth:               ✅ OK (tokens)\n    \
        \\__/       Hypervisors:       ✅ OK (qemu, firecracker)\n\n\
        VMs:                   ✅ OK  2 running / 1 paused / 0 failed (3 total)\n\
        Kernels:               ✅ OK\n\
        Backends in use:       cloudhypervisor=1 qemu=2\n\
        State dir:             /var/lib/fluxvm\n\
        Config:                loaded\n";
    assert_eq!(out, expected);
    assert!(check_status(&s).is_ok());
}

#[test]
fn the_panel_tells_more_on_request() {
    let out = render_status(&node(None), false, true);
    assert!(out.contains("VMs:                   ⚠️  state dir not readable\n"));
    assert!(out.contains("Config:                listen=127.0.0.1:7788\n\nHost binaries:\n"));
    assert!(out.contains("  qemu-system-x86_64     ✅ OK\n"));
    assert!(out.contains("  jailer                 ⭘ disabled\n"));
    assert!(out.contains("  firecracker_kernel     ✅ OK (/k)\n"));
    assert!(out.ends_with("  fluxvm_kernel          ❌ missing /m\n"));
    assert!(check_status(&node(None)).is_ok());
    let idle = render_status(&node(Some(vec![])), false, false);
    assert!(idle.contains("⚠️  idle  0 VMs\n"));
    assert!(!idle.contains("Backends in use"));
}

#[test]
fn a_failed_machine_is_a_fault() {
    let s = node(Some(vec![vm(BackendKind::FluxVm, VmStatus::Failed)]));
    assert_eq!(
        check_status(&s).err().unwrap(),
        "status check failed: 1 VM(s) in Failed state"
    );
    let out = render_status(&s, true, false);
    assert!(out.contains(
        "\x1b[31m❌ 1 errors\x1b[0m  0 running / 0 paused / \x1b[31m❌ 1\x1b[0m failed (1 total)\n"
    ));
    assert!(out.starts_with("\x1b[33m    /¯¯\\\x1b[0m\n\x1b[36m /¯¯\x1b[33m\\__/\x1b[32m¯¯\\\x1b[0m    FluxVM:"));
}

#[test]
fn settings_decide_the_marks() {
    let mut s = node(None);
    s.listen = String::new();
    s.jailer_required = true;
    s.dataplane = "Off".into();
    s.auth = AuthSettings { has_credentials: false, oidc: false, required: true };
    s.programs = HostPrograms {
        qemu: false,
        cloud_hypervisor: false,
        firecracker: false,
        jailer: false,
        hypervisor: false,
        fluxctl: false,
    };
    s.firecracker_kernel = None;
    let out = render_status(&s, false, false);
    assert!(out.contains("FluxVM:             ❌ listen unset\n"));
    assert!(out.contains("Jailer:             ❌ required but disabled\n"));
    assert!(out.contains("Dataplane:          ⭘ disabled\n"));
    assert!(out.contains("Auth:               ❌ required but empty\n"));
    assert!(out.contains("Hypervisors:       ❌ none on PATH\n"));
    assert!(out.contains("Kernels:               ⚠️  no kernel configured\n"));
    s.jailer_enabled = true;
    s.auth.required = false;
    s.programs.fluxctl = true;
    let out = render_status(&s, false, false);
    assert!(out.contains("Jailer:             ✅ OK (enforce)\n"));
    assert!(out.contains("Auth:               ⚠️  off (lab)\n"));
    assert!(out.contains("Hypervisors:       ✅ OK (flux-vm)\n"));
}

#[test]
fn a_node_is_not_started_unguarded() {
    assert_eq!(check_serve(true, true, "0.0.0.0:1").unwrap(), false);
    assert_eq!(check_serve(false, false, "127.0.0.1:1").unwrap(), true);
    let err = check_serve(true, false, "0.0.0.0:1").err().unwrap();
    assert!(err.starts_with("auth is required for listen=0.0.0.0:1 but no [[auth.tokens]]"), "{err}");
}

#[test]
fn commands_decide() {
    assert_eq!(trace_output("JSON").unwrap(), TraceOutput::Document);
    assert_eq!(trace_output("jsonl").unwrap(), TraceOutput::Lines);
    assert_eq!(
        trace_output("X\"").err().unwrap(),
        "unsupported trace output \"x\\\"\"; use json or jsonl"
    );
    assert!(drops_colors(Some("1"), "COLOR"));
    assert!(!drops_colors(Some(""), "color"));
    assert!(!drops_colors(None, "color"));
    assert!(!drops_colors(Some("1"), "json"));
    let names = vec!["a".to_string(), "b".to_string(), "a".to_string()];
    assert_eq!(entries_beside(&names, "a"), vec![1]);
    let g = group_settings(None, None, None);
    assert_eq!((g.default_allow, g.priority, g.description.as_str()), (true, 100, ""));
    let g = group_settings(Some(false), Some(3), Some("d".to_string()));
    assert_eq!((g.default_allow, g.priority, g.description.as_str()), (false, 3, "d"));
    assert!(waits_for_growth(1, 2));
    assert!(!waits_for_growth(2, 2));
}
