use fluxvm::container::address::Address;
use fluxvm::container::agent::{
    finished, read_request, token_in, Action, Agent, Attaching, ContainerEntry, Incoming,
};
use fluxvm::container::child::{child_steps, failure_code, ChildStep};
use fluxvm::container::client::{
    check_proxy, closed_text, connect_backoff, connect_line, ping, read_reply,
    validate_stream_ack, AgentSettings, AttachError, Endpoint, HandshakeLine, HandshakeStep, PingError,
    Received, ReplyError, ReplyLine, ReplyStep, VmEndpoint, MAX_HANDSHAKE_BYTES,
};
use fluxvm::container::launch::{
    ambient_cleared, cap_words, executable_candidates, input_step, namespace_files, resolve_executable,
    ContainerNamespaces, InputStep, NamespacePlan, NsRequest, StdioPlan, CLONE_NEWIPC, CLONE_NEWNS, CLONE_NEWPID, CLONE_NEWUSER, CLONE_NEWUTS,
};
use fluxvm::container::line::{
    decode_attach, decode_ack, decode_envelope, decode_response, encode_ack, encode_attach, encode_envelope,
    encode_response, ContainerEnvelope, DecodeError,
};
use fluxvm::container::oci::config::{parse_oci_config, resource_limits_from_oci, OciConfig};
use fluxvm::container::oci::devices::{
    apply_oci_sysctls, device_target, oci_devices, plan_device, DeviceStep, GuestDevice, S_IFCHR, S_IFIFO,
};
use fluxvm::container::oci::mounts::{
    apply_oci_mounts, cleanup_mounts, mask_calls, masked_paths, minimal_devices, mount_options,
    readonly_calls, readonly_paths, readonly_root, safe_guest_destination, MS_BIND, MS_NOATIME, MS_NODEV,
    MS_NODIRATIME, MS_NOEXEC, MS_NOSUID, MS_RDONLY, MS_REC, MS_RELATIME, MS_REMOUNT, MS_STRICTATIME,
};
use fluxvm::container::oci::process::{
    capability_number, parse_oci_process, rlimit_resource, CapabilitySets,
};
use fluxvm::container::oci::seccomp::{seccomp_action, ACT_ALLOW, ACT_ERRNO};
use fluxvm::container::process::{
    exit_code, failed, signalled, signalled_member, ProcHandle, ProcIo, StartStep, StdinStep,
};
use fluxvm::container::protocol::{
    CgroupEvents, ContainerIo, ContainerNetworkPolicy, ContainerRequest, ContainerResponse, ContainerStats, ContainerStatus,
    IoStreamAck, IoStreamAttach, IoStreamKind, ResourceLimits, SecurityStats,
};
use fluxvm::container::resources::{
    apply_resource_limits, cgroup_component, cgroup_root, container_cgroup_events, container_cgroup_path,
    container_stats, cpu_weight, current_memory_limit_for_swap, enable_controllers, freeze_step,
    oci_swap_to_cgroup2, pids_from_cgroup, read_cgroup_limit, try_removal_again, CgroupFiles, FreezeStep,
    LimitWrite, StatFiles, WriteKind, EBUSY, ENOTEMPTY, SIGCONT, SIGKILL, SIGSTOP,
};
use fluxvm::container::setup::{undo, GroupUndo, SetupFault};
use fluxvm::json::Json;
use fluxvm::keyed::Keyed;
use fluxvm::token::{bearer_token, constant_time_eq};
use fluxvm::vm::BackendKind;

fn json(s: &str) -> Json {
    Json::parse(s).unwrap()
}

fn same<A: std::fmt::Debug, B: std::fmt::Debug>(a: &A, b: &B) -> bool {
    format!("{a:?}") == format!("{b:?}")
}

fn no_io() -> ContainerIo {
    ContainerIo::default()
}

fn entry(pid: u32) -> ContainerEntry {
    ContainerEntry {
        rootfs: "/run/rootfs".to_string(),
        mounts: vec![],
        cgroup_path: "/cg/c1".to_string(),
        seccomp: None,
        namespaces: ContainerNamespaces::default(),
        is_sandbox: false,
        init: ProcHandle::new_created(pid, 9, ProcIo::Legacy),
        execs: Keyed::new(),
    }
}

fn agent_with(id: &str, pid: u32) -> Agent {
    let mut agent = Agent::new();
    agent.add_container(id.to_string(), entry(pid));
    agent
}

fn error_of(a: Action) -> String {
    match a {
        Action::Reply(ContainerResponse::Error { message }) => message,
        other => panic!("{other:?}"),
    }
}

// --- configuration ----------------------------------------------------------

#[test]
fn parses_minimal_oci_config() {
    let (spec, mounts, resources) = parse_oci_config(
        r#"{
          "root":{"path":"/run/rootfs"},
          "process":{"args":["/bin/echo","hi"],"cwd":"/","env":["A=B"],"user":{"uid":1000,"gid":1001}}
        }"#,
    )
    .unwrap();
    assert!(mounts.is_empty());
    assert!(same(&resources, &ResourceLimits::default()));
    assert_eq!(spec.rootfs, "/run/rootfs");
    assert_eq!(spec.args[0], "/bin/echo");
    assert_eq!(spec.uid, 1000);
    assert_eq!(spec.gid, 1001);
    assert_eq!(spec.env, vec![("A".to_string(), "B".to_string())]);
}

#[test]
fn parses_process_security_controls() {
    let (spec, _, _) = parse_oci_config(
        r#"{
          "root":{"path":"/run/rootfs"},
          "process":{
            "args":["/bin/sh"],
            "cwd":"/",
            "noNewPrivileges":true,
            "user":{"uid":1000,"gid":1000,"additionalGids":[10,20],"umask":18},
            "rlimits":[{"type":"RLIMIT_NOFILE","soft":1024,"hard":2048}],
            "capabilities":{
              "bounding":["CAP_CHOWN","CAP_NET_BIND_SERVICE"],
              "effective":["CAP_NET_BIND_SERVICE"],
              "inheritable":["CAP_NET_BIND_SERVICE"],
              "permitted":["CAP_NET_BIND_SERVICE"],
              "ambient":["CAP_NET_BIND_SERVICE"]
            }
          }
        }"#,
    )
    .unwrap();
    assert_eq!(spec.additional_gids, vec![10, 20]);
    assert!(spec.no_new_privileges);
    assert_eq!(spec.umask, Some(18));
    assert_eq!(spec.rlimits.len(), 1);
    assert_eq!(spec.rlimits[0].soft, 1024);
    assert_eq!(spec.rlimits[0].hard, 2048);
    let caps = spec.capabilities.unwrap();
    assert_ne!(caps.bounding & (1 << 0), 0);
    assert_ne!(caps.bounding & (1 << 10), 0);
    assert_eq!(caps.effective, 1 << 10);
    assert_eq!(caps.ambient, 1 << 10);
}

#[test]
fn rejects_unknown_capability() {
    assert!(parse_oci_config(
        r#"{
          "root":{"path":"/r"},
          "process":{
            "args":["/bin/true"],
            "capabilities":{"effective":["CAP_NOT_REAL"]}
          }
        }"#
    )
    .is_err());
}

#[test]
fn rejects_unattached_block_device_nodes() {
    let config = json(
        r#"{"linux": {"devices": [{
            "path": "/dev/raw-volume", "type": "b", "major": 253, "minor": 17, "fileMode": 384
        }]}}"#,
    );
    let devices = oci_devices(&config).unwrap();
    let (path, _) = device_target(&devices[0], "/rootfs").unwrap();
    match plan_device(&devices[0], &path, None) {
        DeviceStep::Done(Err(error)) => {
            assert!(error.contains("raw block volumes require VMM device hotplug"))
        }
        other => panic!("{other:?}"),
    }
}

#[test]
fn rejects_unknown_rlimit() {
    assert!(parse_oci_config(
        r#"{
          "root":{"path":"/r"},
          "process":{"args":["/bin/true"],"rlimits":[{"type":"RLIMIT_FAKE","soft":1,"hard":1}]}
        }"#
    )
    .is_err());
}

#[test]
fn rejects_empty_args() {
    assert!(parse_oci_config(r#"{"root":{"path":"/r"},"process":{"args":[]}}"#).is_err());
}

#[test]
fn parses_seccomp_without_argument_filters() {
    let (spec, _, _) = parse_oci_config(
        r#"{
          "root":{"path":"/run/rootfs"},
          "process":{"args":["/bin/true"]},
          "linux":{"seccomp":{"defaultAction":"SCMP_ACT_ALLOW","syscalls":[{"names":["ptrace"],"action":"SCMP_ACT_ERRNO","errnoRet":1}]}}
        }"#,
    )
    .unwrap();
    let seccomp = spec.seccomp.unwrap();
    assert_eq!(seccomp.rules.len(), 1);
    assert_eq!(seccomp.rules[0].names, vec!["ptrace"]);
    assert_eq!(seccomp.default_action, ACT_ALLOW);
    assert_eq!(seccomp.rules[0].action, ACT_ERRNO | 1);
}

#[test]
fn rejects_seccomp_argument_filters_instead_of_ignoring_them() {
    assert!(parse_oci_config(
        r#"{
          "root":{"path":"/run/rootfs"},
          "process":{"args":["/bin/true"]},
          "linux":{"seccomp":{"defaultAction":"SCMP_ACT_ALLOW","syscalls":[{"names":["clone"],"action":"SCMP_ACT_ERRNO","args":[{"index":0,"value":1,"op":"SCMP_CMP_EQ"}]}]}}
        }"#
    )
    .is_err());
}

#[test]
fn token_compare() {
    assert!(constant_time_eq("same", "same"));
    assert!(!constant_time_eq("same", "diff"));
    assert!(!constant_time_eq("same", "same2"));
}

#[test]
fn oci_swap_translation_matches_cgroup_v2_semantics() {
    assert_eq!(oci_swap_to_cgroup2(512, 256).unwrap().as_deref(), Some("256"));
    assert_eq!(oci_swap_to_cgroup2(-1, 256).unwrap().as_deref(), Some("max"));
    assert_eq!(oci_swap_to_cgroup2(0, 256).unwrap(), None);
    assert_eq!(oci_swap_to_cgroup2(0, -1).unwrap().as_deref(), Some("max"));
    assert_eq!(oci_swap_to_cgroup2(512, -1).unwrap().as_deref(), Some("512"));
    assert!(oci_swap_to_cgroup2(128, 256).is_err());
    assert!(oci_swap_to_cgroup2(512, 0).is_err());
}

#[test]
fn resource_parser_keeps_reservation_swap_and_unified() {
    let resources = resource_limits_from_oci(&json(
        r#"{"linux": {"resources": {
            "memory": {"limit": 256, "reservation": 128, "swap": 512},
            "unified": {"memory.high": "192", "memory.oom.group": "1"}
        }}}"#,
    ));
    assert_eq!(resources.memory_limit_bytes, Some(256));
    assert_eq!(resources.memory_reservation_bytes, Some(128));
    assert_eq!(resources.memory_swap_bytes, Some(512));
    let high = resources.unified.iter().find(|(k, _)| k == "memory.high").map(|(_, v)| v.as_str());
    assert_eq!(high, Some("192"));
}

#[test]
fn bad_configurations_say_what_is_wrong() {
    assert!(OciConfig::parse("{").is_err());
    assert!(OciConfig::parse("{}").is_err());
    let process = parse_oci_process(r#"{"args":["sh"],"cwd":"/w"}"#, "/r".to_string()).unwrap();
    assert_eq!((process.cwd.as_str(), process.rootfs.as_str()), ("/w", "/r"));
    assert!(parse_oci_process("[]", "/r".to_string()).is_err());
}

#[test]
fn resource_numbers_are_those_of_the_system() {
    for (name, number) in [
        ("RLIMIT_CPU", libc::RLIMIT_CPU),
        ("RLIMIT_FSIZE", libc::RLIMIT_FSIZE),
        ("RLIMIT_DATA", libc::RLIMIT_DATA),
        ("RLIMIT_STACK", libc::RLIMIT_STACK),
        ("RLIMIT_CORE", libc::RLIMIT_CORE),
        ("RLIMIT_RSS", libc::RLIMIT_RSS),
        ("RLIMIT_NPROC", libc::RLIMIT_NPROC),
        ("RLIMIT_NOFILE", libc::RLIMIT_NOFILE),
        ("RLIMIT_MEMLOCK", libc::RLIMIT_MEMLOCK),
        ("RLIMIT_AS", libc::RLIMIT_AS),
        ("RLIMIT_LOCKS", libc::RLIMIT_LOCKS),
        ("RLIMIT_SIGPENDING", libc::RLIMIT_SIGPENDING),
        ("RLIMIT_MSGQUEUE", libc::RLIMIT_MSGQUEUE),
        ("RLIMIT_NICE", libc::RLIMIT_NICE),
        ("RLIMIT_RTPRIO", libc::RLIMIT_RTPRIO),
        ("RLIMIT_RTTIME", libc::RLIMIT_RTTIME),
    ] {
        assert_eq!(rlimit_resource(name), Some(number as u32), "{name}");
    }
    assert_eq!(rlimit_resource("RLIMIT_FAKE"), None);
    assert_eq!(capability_number("CAP_CHOWN"), Some(0));
    assert_eq!(capability_number("CAP_SYS_ADMIN"), Some(21));
    assert_eq!(capability_number("CAP_CHECKPOINT_RESTORE"), Some(40));
}

#[test]
fn constants_are_those_of_the_system() {
    assert_eq!(MS_RDONLY, libc::MS_RDONLY);
    assert_eq!(MS_NOSUID, libc::MS_NOSUID);
    assert_eq!(MS_NODEV, libc::MS_NODEV);
    assert_eq!(MS_NOEXEC, libc::MS_NOEXEC);
    assert_eq!(MS_REMOUNT, libc::MS_REMOUNT);
    assert_eq!(MS_NOATIME, libc::MS_NOATIME);
    assert_eq!(MS_NODIRATIME, libc::MS_NODIRATIME);
    assert_eq!(MS_BIND, libc::MS_BIND);
    assert_eq!(MS_REC, libc::MS_REC);
    assert_eq!(MS_RELATIME, libc::MS_RELATIME);
    assert_eq!(MS_STRICTATIME, libc::MS_STRICTATIME);
    assert_eq!(CLONE_NEWNS, libc::CLONE_NEWNS);
    assert_eq!(CLONE_NEWUTS, libc::CLONE_NEWUTS);
    assert_eq!(CLONE_NEWIPC, libc::CLONE_NEWIPC);
    assert_eq!(CLONE_NEWUSER, libc::CLONE_NEWUSER);
    assert_eq!(CLONE_NEWPID, libc::CLONE_NEWPID);
    assert_eq!((SIGKILL, SIGCONT, SIGSTOP), (libc::SIGKILL, libc::SIGCONT, libc::SIGSTOP));
    assert_eq!((EBUSY, ENOTEMPTY), (libc::EBUSY, libc::ENOTEMPTY));
    assert_eq!((S_IFCHR, S_IFIFO), (libc::S_IFCHR, libc::S_IFIFO));
}

// --- devices, mounts --------------------------------------------------------

#[test]
fn character_devices_must_be_the_guests_own() {
    let dev = json(r#"{"path":"/dev/fuse","type":"c","major":10,"minor":229,"fileMode":438,"uid":7}"#);
    assert!(matches!(plan_device(&dev, "/dev/fuse", None), DeviceStep::Ask));
    let own = GuestDevice { is_char: true, major: 10, minor: 229 };
    match plan_device(&dev, "/dev/fuse", Some(Ok(own))) {
        DeviceStep::Done(Ok(node)) => {
            assert_eq!(node.mode, S_IFCHR | 438);
            assert_eq!(node.numbers, Some((10, 229)));
            assert_eq!((node.uid, node.gid), (7, 0));
        }
        other => panic!("{other:?}"),
    }
    for other in [
        Ok(GuestDevice { is_char: false, major: 10, minor: 229 }),
        Ok(GuestDevice { is_char: true, major: 10, minor: 228 }),
        Err("gone".to_string()),
    ] {
        assert!(matches!(plan_device(&dev, "/dev/fuse", Some(other)), DeviceStep::Done(Err(_))));
    }
    let pipe = json(r#"{"path":"/p","type":"p"}"#);
    match plan_device(&pipe, "/p", None) {
        DeviceStep::Done(Ok(node)) => assert_eq!((node.mode, node.numbers), (S_IFIFO | 0o666, None)),
        other => panic!("{other:?}"),
    }
    let strange = json(r#"{"path":"/p","type":"x\n"}"#);
    match plan_device(&strange, "/p", None) {
        DeviceStep::Done(Err(m)) => assert_eq!(m, "unsupported OCI device type \"x\\n\""),
        other => panic!("{other:?}"),
    }
}

#[test]
fn destinations_stay_inside() {
    assert!(safe_guest_destination("/a/b").is_ok());
    assert!(safe_guest_destination("/a/../b").is_err());
    assert!(safe_guest_destination("..").is_err());
}

#[test]
fn mount_options_are_flags_or_data() {
    let options: Vec<String> = ["ro", "nosuid", "mode=755", "size=64k"].iter().map(|s| s.to_string()).collect();
    let (flags, data) = mount_options(&options, false);
    assert_eq!(flags, MS_RDONLY | MS_NOSUID);
    assert_eq!(data.as_deref(), Some("mode=755,size=64k"));
    let bind: Vec<String> = vec!["rbind".to_string()];
    let (flags, data) = mount_options(&bind, true);
    assert_eq!(flags, MS_BIND | MS_REC);
    assert_eq!(data, None);
}

#[test]
fn mounts_follow_the_configuration() {
    let config = json(
        r#"{"mounts":[
            {"destination":"/proc","type":"proc","source":"proc"},
            {"destination":"/etc/hosts","type":"bind","source":"/host/hosts","options":["rbind","ro"]}
        ]}"#,
    );
    let plan = apply_oci_mounts(&config, "/root");
    assert!(plan.fault.is_none());
    assert_eq!(plan.steps.len(), 2);
    assert_eq!(plan.steps[0].call.target, "/root/proc");
    assert!(!plan.steps[0].is_bind);
    assert!(plan.steps[1].is_bind);
    assert!(plan.steps[1].read_only);
    assert!(plan.steps[1].remount().is_some());
    assert!(plan.steps[0].remount().is_none());
    let broken = apply_oci_mounts(&json(r#"{"mounts":[{"destination":"/a/../b","source":"x"}]}"#), "/root");
    assert!(broken.fault.is_some());
    assert!(broken.steps.is_empty());
}

#[test]
fn paths_are_masked_and_frozen() {
    let config = json(
        r#"{"root":{"path":"/r","readonly":true},"linux":{"maskedPaths":["/proc/kcore"],"readonlyPaths":["/proc/sys"]}}"#,
    );
    assert!(readonly_root(&config));
    assert_eq!(masked_paths(&config, "/root").steps, vec!["/root/proc/kcore".to_string()]);
    assert_eq!(readonly_paths(&config, "/root").steps, vec!["/root/proc/sys".to_string()]);
    assert!(!mask_calls("/root/x", true).is_empty());
    assert_eq!(readonly_calls("/root/x").len(), 2);
    assert_eq!(minimal_devices().len(), 6);
    assert_eq!(
        cleanup_mounts(&vec!["/a".to_string(), "/a/b".to_string()]),
        vec!["/a/b".to_string(), "/a".to_string()]
    );
}

#[test]
fn kernel_parameters_become_files() {
    let plan = apply_oci_sysctls(&json(r#"{"linux":{"sysctl":{"net.ipv4.ip_forward":"1"}}}"#));
    assert!(plan.fault.is_none());
    assert_eq!(plan.steps[0].path, "/proc/sys/net/ipv4/ip_forward");
    assert_eq!(plan.steps[0].value, "1");
    assert_eq!(
        plan.steps[0].failed("denied"),
        "applying OCI sysctl net.ipv4.ip_forward=1: denied"
    );
}

#[test]
fn seccomp_actions_have_codes() {
    assert_eq!(seccomp_action("SCMP_ACT_ALLOW", None).unwrap(), ACT_ALLOW);
    assert_eq!(seccomp_action("SCMP_ACT_ERRNO", None).unwrap(), ACT_ERRNO | 1);
    assert_eq!(seccomp_action("SCMP_ACT_ERRNO", Some(38)).unwrap(), ACT_ERRNO | 38);
    assert!(seccomp_action("SCMP_ACT_NOTIFY", None).is_err());
}

// --- the protocol -----------------------------------------------------------

#[test]
fn response_decode_is_strict() {
    let r = decode_response("{\"result\":\"pong\"}\n").unwrap();
    assert!(matches!(r, ContainerResponse::Pong));
    assert!(decode_response("not-json").is_err());
}

#[test]
fn create_round_trip() {
    let req = ContainerEnvelope {
        token: Some("secret".into()),
        request: ContainerRequest::Create {
            id: "c1".into(),
            config_json: "{\"ociVersion\":\"1.1.0\"}".into(),
            io: ContainerIo {
                stdin: None,
                stdout: Some("/run/fluxvm/pod/io/c1.out".into()),
                stderr: Some("/run/fluxvm/pod/io/c1.err".into()),
                terminal: false,
                streaming: false,
            },
            is_sandbox: true,
            share_process_namespace: false,
            network_policy: None,
        },
    };
    let line = encode_envelope(&req);
    let back = decode_envelope(&line).unwrap();
    assert_eq!(back.token.as_deref(), Some("secret"));
    assert!(matches!(
        back.request,
        ContainerRequest::Create { is_sandbox: true, share_process_namespace: false, .. }
    ));
    assert!(same(&back, &req));
    assert!(line.ends_with("}\n"));
}

#[test]
fn resource_update_round_trip() {
    let req = ContainerEnvelope {
        token: None,
        request: ContainerRequest::UpdateResources {
            id: "c1".into(),
            resources: ResourceLimits {
                cpu_quota: Some(50_000),
                cpu_period: Some(100_000),
                memory_limit_bytes: Some(256 * 1024 * 1024),
                memory_reservation_bytes: Some(128 * 1024 * 1024),
                memory_swap_bytes: Some(512 * 1024 * 1024),
                pids_limit: Some(128),
                unified: vec![("memory.high".into(), "201326592".into())],
                ..Default::default()
            },
        },
    };
    let line = encode_envelope(&req);
    let back = decode_envelope(&line).unwrap();
    assert!(matches!(back.request, ContainerRequest::UpdateResources { .. }));
    assert!(same(&back, &req));
}

#[test]
fn deleted_response_round_trip() {
    let response =
        ContainerResponse::Deleted { pid: 42, exit_code: 137, exited_at_unix_nano: 123456789 };
    let line = encode_response(&response);
    let back = decode_response(&line).unwrap();
    assert!(matches!(back, ContainerResponse::Deleted { pid: 42, exit_code: 137, .. }));
}

#[test]
fn stats_response_round_trip() {
    let response = ContainerResponse::Stats {
        stats: ContainerStats {
            cpu_usage_usec: 100,
            memory_usage_bytes: 4096,
            pids_current: 3,
            pids_limit: 64,
            ..Default::default()
        },
    };
    let line = encode_response(&response);
    let back = decode_response(&line).unwrap();
    assert!(matches!(back, ContainerResponse::Stats { .. }));
    assert!(same(&back, &response));
}

#[test]
fn exited_response_round_trip() {
    let response =
        ContainerResponse::Exited { exit_code: 0, exited_at_unix_nano: 1_759_000_000_000_000_000 };
    let line = encode_response(&response);
    let back = decode_response(&line).unwrap();
    assert!(matches!(back, ContainerResponse::Exited { exit_code: 0, .. }));
}

#[test]
fn cgroup_events_round_trip() {
    let response = ContainerResponse::CgroupEvents {
        events: CgroupEvents { oom: 2, oom_kill: 1, ..Default::default() },
    };
    let line = encode_response(&response);
    let back = decode_response(&line).unwrap();
    assert!(matches!(back, ContainerResponse::CgroupEvents { events } if events.oom_kill == 1));
}

#[test]
fn stream_attach_round_trip() {
    let attach = IoStreamAttach {
        token: Some("secret".into()),
        id: "c1".into(),
        exec_id: Some("shell".into()),
        stream: IoStreamKind::Stdout,
    };
    let line = encode_attach(&attach);
    let back = decode_attach(&line).unwrap();
    assert_eq!(back.id, "c1");
    assert_eq!(back.exec_id.as_deref(), Some("shell"));
    assert_eq!(back.stream, IoStreamKind::Stdout);
}

#[test]
fn security_stats_round_trip() {
    let response = ContainerResponse::SecurityStats {
        stats: SecurityStats { seccomp_notify_denied: 2, ..Default::default() },
    };
    let line = encode_response(&response);
    let back = decode_response(&line).unwrap();
    assert!(
        matches!(back, ContainerResponse::SecurityStats { stats } if stats.seccomp_notify_denied == 2)
    );
}

#[test]
fn unreadable_lines_are_told_apart() {
    assert!(matches!(decode_response("{"), Err(DecodeError::NotJson(_))));
    assert!(matches!(decode_response("{\"result\":\"nonsense\"}"), Err(DecodeError::WrongShape)));
    assert!(matches!(decode_ack("[]"), Err(DecodeError::WrongShape)));
    let ack = IoStreamAck { ok: false, message: Some("no \"such\"\n".to_string()) };
    assert!(same(&decode_ack(&encode_ack(&ack)).unwrap(), &ack));
}

#[test]
fn no_two_requests_are_sent_alike() {
    let kill = |id: &str, exec_id: Option<&str>, signal: i32, all: bool| {
        encode_envelope(&ContainerEnvelope {
            token: None,
            request: ContainerRequest::Kill {
                id: id.to_string(),
                exec_id: exec_id.map(|s| s.to_string()),
                signal,
                all,
            },
        })
    };
    let lines = [
        kill("c1", None, 9, false),
        kill("c2", None, 9, false),
        kill("c1", Some(""), 9, false),
        kill("c1", None, 15, false),
        kill("c1", None, 9, true),
    ];
    for i in 0..lines.len() {
        for j in 0..i {
            assert_ne!(lines[i], lines[j]);
        }
    }
    match decode_envelope(&lines[2]).unwrap().request {
        ContainerRequest::Kill { id, exec_id, signal, all } => {
            assert_eq!(id, "c1");
            assert_eq!(exec_id.as_deref(), Some(""));
            assert_eq!(signal, 9);
            assert!(!all);
        }
        other => panic!("{other:?}"),
    }
}

#[test]
fn requests_are_written_with_their_name() {
    let line = encode_envelope(&ContainerEnvelope { token: None, request: ContainerRequest::Ping });
    let value: serde_json::Value = serde_json::from_str(&line).unwrap();
    assert_eq!(value["op"], "ping");
}

// --- processes --------------------------------------------------------------

#[test]
fn a_process_starts_once() {
    let mut p = ProcHandle::new_created(5, 9, ProcIo::Legacy);
    assert_eq!(p.snapshot().status, ContainerStatus::Created);
    assert!(matches!(p.start(), StartStep::Release(9)));
    assert!(matches!(p.start(), StartStep::Done(Err(_))));
    assert_eq!(p.released(Ok(())).unwrap(), 5);
    assert_eq!(p.snapshot().status, ContainerStatus::Running);
    assert!(matches!(p.start(), StartStep::Done(Ok(5))));
    assert_eq!(p.mark_exited(3, 77), None);
    assert_eq!(p.wait().unwrap().exit_code, Some(3));
    assert!(matches!(p.start(), StartStep::Done(Err(_))));
}

#[test]
fn an_exit_is_final() {
    let mut p = ProcHandle::new_created(5, 9, ProcIo::Legacy);
    assert!(p.wait().is_none());
    assert_eq!(p.mark_exited(3, 77), Some(9));
    p.set_status(ContainerStatus::Running);
    let s = p.wait().unwrap();
    assert_eq!((s.exit_code, s.exited_at_unix_nano), (Some(3), Some(77)));
    assert_eq!(p.signal(false), None);
}

#[test]
fn signals_reach_processes_and_groups() {
    let p = ProcHandle::new_created(5, 9, ProcIo::Legacy);
    assert_eq!(p.signal(false), Some(5));
    assert_eq!(p.signal(true), Some(-5));
    assert!(signalled(Err((libc::ESRCH, "gone".to_string()))).is_ok());
    assert!(signalled(Err((libc::EPERM, "denied".to_string()))).is_err());
    assert_eq!(failed("doing", Err("x".to_string())).err().unwrap(), "doing: x");
}

#[test]
fn exit_codes_follow_the_wait_status() {
    assert_eq!(exit_code(true, 3 << 8), 3);
    assert_eq!(exit_code(true, 9), 137);
    assert_eq!(exit_code(false, 0), 255);
}

#[test]
fn a_stream_has_one_reader() {
    let io = ProcIo::Pipes {
        stdin_write: Some(3),
        stdin_attached: false,
        stdout_read: Some(4),
        stdout_attached: false,
        stderr_read: None,
        stderr_attached: false,
    };
    let mut p = ProcHandle::new_created(5, 9, io);
    let (fd, label) = p.attach_stream(IoStreamKind::Stdout).unwrap();
    assert_eq!(fd, 4);
    p.attached(IoStreamKind::Stdout, label, Ok(())).unwrap();
    assert!(p.attach_stream(IoStreamKind::Stdout).is_err());
    assert!(p.attach_stream(IoStreamKind::Stdin).is_ok());
    assert!(p.attach_stream(IoStreamKind::Stderr).is_err());
    p.detach_stream(IoStreamKind::Stdout);
    assert!(p.attach_stream(IoStreamKind::Stdout).is_ok());
    assert!(matches!(p.close_stdin(), StdinStep::Close(3)));
    assert!(matches!(p.close_stdin(), StdinStep::Nothing));
    assert!(p.resize_pty(80, 24).is_err());
}

#[test]
fn terminals_are_resized() {
    let mut p = ProcHandle::new_created(
        5,
        9,
        ProcIo::Pty { master_fd: 8, stdin_attached: false, stdout_attached: false },
    );
    let size = p.resize_pty(101, 33).unwrap();
    assert_eq!((size.fd, size.columns, size.rows), (8, 101, 33));
    assert!(p.resize_pty(0, 33).is_err());
    assert!(p.resize_pty(70_000, 33).is_err());
    assert!(p.attach_stream(IoStreamKind::Stderr).is_err());
    assert!(!matches!(p.close_stdin(), StdinStep::Nothing));
}

// --- launching --------------------------------------------------------------

#[test]
fn programs_are_found_on_the_path() {
    let process = parse_oci_process(
        r#"{"args":["sh"],"cwd":"/","env":["PATH=/a:/b"]}"#,
        "/r".to_string(),
    )
    .unwrap();
    let all = executable_candidates(&process);
    assert_eq!(all.len(), 2);
    assert_eq!(all[1].0, "/b/sh");
    assert_eq!(resolve_executable(&process, &vec![false, true]).unwrap(), "/b/sh");
    assert_eq!(
        resolve_executable(&process, &vec![false, false]).err().unwrap(),
        "executable \"sh\" was not found in OCI PATH"
    );
    let named = parse_oci_process(r#"{"args":["./x"],"cwd":"/"}"#, "/r".to_string()).unwrap();
    let present = vec![false; executable_candidates(&named).len()];
    assert_eq!(resolve_executable(&named, &present).unwrap(), "./x");
}

#[test]
fn namespaces_are_created_or_joined() {
    let first = NamespacePlan::settle(
        NsRequest::Create { is_sandbox: true, share_process_namespace: false },
        None,
        false,
    );
    assert!(first.creates_mount_ns());
    assert!(!first.wants_user_ns());
    assert!(first.joins.is_empty());
    let held = ContainerNamespaces { mnt: 3, pid: 4, ipc: 5, uts: 6, user: -1 };
    let second = NamespacePlan::settle(
        NsRequest::Create { is_sandbox: false, share_process_namespace: true },
        Some(held),
        false,
    );
    assert!(second.creates_mount_ns());
    assert!(second.joins.contains(&(5, CLONE_NEWIPC)));
    assert!(second.joins.contains(&(4, CLONE_NEWPID)));
    let exec = NamespacePlan::settle(NsRequest::Exec { target: held }, None, false);
    assert!(exec.joined_mount_ns());
    assert!(!exec.creates_mount_ns());
    let mut taken = held;
    assert_eq!(taken.close(), vec![3, 4, 5, 6]);
    assert!(taken.close().is_empty());
}

#[test]
fn standard_streams_are_settled() {
    let mut io = no_io();
    io.stdout = Some("/out".to_string());
    io.stderr = Some(String::new());
    match StdioPlan::settle(&io) {
        StdioPlan::Files { stdin, stdout, stderr } => {
            assert_eq!((stdin, stdout.as_deref(), stderr), (None, Some("/out"), None))
        }
        other => panic!("{other:?}"),
    }
    io.streaming = true;
    assert!(matches!(
        StdioPlan::settle(&io),
        StdioPlan::Pipes { stdin: false, stdout: true, stderr: true }
    ));
    io.terminal = true;
    assert!(matches!(StdioPlan::settle(&io), StdioPlan::Terminal));
}

#[test]
fn capabilities_outside_the_bounding_set_are_dropped() {
    let sets = CapabilitySets { bounding: 0b101, effective: 1, inheritable: 0, permitted: 1, ambient: 1 << 10 };
    assert_eq!(sets.dropped(Some("3\n")), vec![1, 3]);
    assert_eq!(sets.raised(), vec![10]);
    assert!(sets.kept_for(1000));
    assert!(!sets.kept_for(0));
    assert_eq!(cap_words(0x1_0000_0002), (2, 1));
}

#[test]
fn privileges_go_in_order() {
    let process = parse_oci_process(
        r#"{"args":["sh"],"cwd":"/","noNewPrivileges":true,
            "user":{"uid":7,"gid":8,"umask":18,"additionalGids":[9]},
            "rlimits":[{"type":"RLIMIT_NOFILE","soft":1,"hard":2}],
            "capabilities":{"bounding":["CAP_CHOWN"],"permitted":["CAP_CHOWN"]}}"#,
        "/r".to_string(),
    )
    .unwrap();
    let plan = NamespacePlan::settle(
        NsRequest::Create { is_sandbox: true, share_process_namespace: false },
        None,
        false,
    );
    let steps = child_steps(&process, &plan);
    assert_eq!(steps.len(), 13);
    assert_eq!(steps[0], ChildStep::PivotRoot);
    assert_eq!(steps[1], ChildStep::EnterDirectory);
    assert_eq!(steps[2], ChildStep::Umask(18));
    assert!(matches!(steps[3], ChildStep::Limit(l) if l.hard == 2));
    assert_eq!(
        steps[4..],
        [
            ChildStep::Groups,
            ChildStep::DropBounding,
            ChildStep::KeepCapabilities,
            ChildStep::Group(8),
            ChildStep::User(7),
            ChildStep::TakeCapabilities,
            ChildStep::ForgetCapabilities,
            ChildStep::NoNewPrivileges,
            ChildStep::Execute,
        ]
    );
    assert_eq!(failure_code(ChildStep::User(7)), Some(126));
    assert_eq!(failure_code(ChildStep::Execute), Some(127));
    assert_eq!(failure_code(ChildStep::ForgetCapabilities), None);
}

#[test]
fn a_joined_container_is_entered_as_it_is() {
    let process = parse_oci_process(r#"{"args":["sh"]}"#, "/r".to_string()).unwrap();
    let held = ContainerNamespaces { mnt: 3, pid: 4, ipc: 5, uts: 6, user: -1 };
    let plan = NamespacePlan::settle(NsRequest::Exec { target: held }, None, false);
    assert_eq!(child_steps(&process, &plan)[0], ChildStep::EnterDirectory);
    let bare = ContainerNamespaces::default();
    let plan = NamespacePlan::settle(NsRequest::Exec { target: bare }, None, false);
    assert_eq!(child_steps(&process, &plan)[0], ChildStep::ChangeRoot);
}

#[test]
fn signals_to_members_of_a_group() {
    assert!(signalled_member(Ok(())).is_ok());
    assert!(signalled_member(Err((libc::ESRCH, "gone".to_string()))).is_ok());
    let denied = signalled_member(Err((libc::EPERM, "denied".to_string())));
    assert_eq!(denied, Err("denied".to_string()));
}

#[test]
fn failed_setups_are_undone() {
    let u = undo(SetupFault::NotMoved);
    assert!(u.kill && u.unmount && u.group == GroupUndo::Remove);
    let u = undo(SetupFault::NoGroup);
    assert!(!u.kill && u.unmount && u.group == GroupUndo::Nothing);
    assert_eq!(undo(SetupFault::TakenMeanwhile).group, GroupUndo::Clear);
    assert!(!undo(SetupFault::Taken).unmount);
    assert_eq!(undo(SetupFault::NoProcess).group, GroupUndo::Remove);
}

// --- limits -----------------------------------------------------------------

#[test]
fn groups_have_safe_names() {
    assert_eq!(cgroup_root(), "/sys/fs/cgroup/fluxvm-containers");
    assert!(!cgroup_component("../a/b").contains('/'));
    assert!(container_cgroup_path("c1").starts_with("/sys/fs/cgroup/fluxvm-containers/"));
}

#[test]
fn controllers_are_handed_down() {
    assert_eq!(
        enable_controllers("/cg", Some("cpu io memory")).unwrap().as_deref(),
        Some("+cpu +memory")
    );
    assert_eq!(enable_controllers("/cg", Some("io")).unwrap(), None);
    assert_eq!(
        enable_controllers("/cg", None).err().unwrap(),
        "cgroup v2 is required (/cg/cgroup.controllers is missing)"
    );
}

#[test]
fn shares_become_weights() {
    assert_eq!(cpu_weight(2), 1);
    assert_eq!(cpu_weight(1024), 39);
    assert_eq!(cpu_weight(262_144), 10_000);
    assert!(cpu_weight(100) <= cpu_weight(200));
}

#[test]
fn limits_become_writes() {
    let files = CgroupFiles {
        cpu_max: Some("max 100000".to_string()),
        memory_max: None,
        own_mems: None,
        parent_mems: None,
        present: vec!["memory.swap.max".to_string()],
    };
    let limits = ResourceLimits {
        cpu_quota: Some(50_000),
        memory_limit_bytes: Some(256),
        memory_swap_bytes: Some(512),
        pids_limit: Some(-1),
        ..Default::default()
    };
    let plan = apply_resource_limits("/cg", &limits, &files);
    assert!(plan.fault.is_none(), "{:?}", plan.fault);
    let find = |name: &str| {
        plan.steps.iter().find(|w| w.path == format!("/cg/{name}")).map(|w| w.value.clone())
    };
    assert_eq!(find("cpu.max").as_deref(), Some("50000 100000"));
    assert_eq!(find("memory.max").as_deref(), Some("256"));
    assert_eq!(find("memory.swap.max").as_deref(), Some("256"));
    assert_eq!(find("pids.max").as_deref(), Some("max"));
}

#[test]
fn absent_limits_stay() {
    let group = |own: &str| CgroupFiles {
        cpu_max: Some("max 100000".to_string()),
        memory_max: Some("max".to_string()),
        own_mems: Some(own.to_string()),
        parent_mems: Some("0-1\n".to_string()),
        present: vec!["cpuset.mems".to_string()],
    };
    let limits = ResourceLimits::default();
    let kept = apply_resource_limits("/cg", &limits, &group("0\n"));
    assert!(kept.fault.is_none());
    assert!(kept.steps.is_empty());
    let fresh = apply_resource_limits("/cg", &limits, &group("\n"));
    assert!(fresh.fault.is_none());
    assert_eq!(fresh.steps.len(), 1);
    assert_eq!(fresh.steps[0].path, "/cg/cpuset.mems");
    assert_eq!(fresh.steps[0].value, "0-1");
}

#[test]
fn failed_writes_count_by_their_kind() {
    let mut w = LimitWrite { path: "/cg/x".to_string(), value: "1".to_string(), kind: WriteKind::Tried };
    assert!(w.judge(Err("e".to_string())).is_ok());
    w.kind = WriteKind::Needed;
    assert_eq!(w.judge(Err("e".to_string())).err().unwrap(), "e");
    w.kind = WriteKind::Unified;
    assert_eq!(
        w.judge(Err("e".to_string())).err().unwrap(),
        "writing OCI unified control /cg/x=1: e"
    );
}

#[test]
fn groups_are_read() {
    assert_eq!(pids_from_cgroup("1\n22\nx\n"), vec![1, 22]);
    assert_eq!(current_memory_limit_for_swap(&Some("max\n".to_string())), -1);
    assert_eq!(current_memory_limit_for_swap(&Some("256\n".to_string())), 256);
    assert_eq!(read_cgroup_limit(&Some("max".to_string())), Some(0));
    assert_eq!(read_cgroup_limit(&Some("x".to_string())), None);
    assert_eq!(read_cgroup_limit(&None), None);
    assert_eq!(read_cgroup_limit(&Some("5\n".to_string())), Some(5));
    let e = container_cgroup_events(&Some("low 0\noom 2\noom_kill 1\n".to_string()));
    assert_eq!((e.oom, e.oom_kill, e.high), (2, 1, 0));
    let files = StatFiles {
        cpu_stat: Some("usage_usec 7\n".to_string()),
        memory_stat: None,
        memory_events: None,
        memory_current: Some("4096\n".to_string()),
        memory_max: Some("max\n".to_string()),
        memory_peak: None,
        memory_swap_current: None,
        memory_swap_max: None,
        pids_current: Some("3".to_string()),
        pids_max: Some("max".to_string()),
    };
    let s = container_stats(&files);
    assert_eq!((s.cpu_usage_usec, s.memory_usage_bytes, s.pids_current, s.pids_limit), (7, 4096, 3, 0));
}

#[test]
fn groups_are_frozen_by_file_or_signal() {
    match freeze_step("/cg", true, true) {
        FreezeStep::Write { path, value } => assert_eq!((path.as_str(), value), ("/cg/cgroup.freeze", "1")),
        other => panic!("{other:?}"),
    }
    assert!(matches!(freeze_step("/cg", true, false), FreezeStep::Signal(SIGSTOP)));
    assert!(matches!(freeze_step("/cg", false, false), FreezeStep::Signal(SIGCONT)));
    assert!(try_removal_again(1, EBUSY));
    assert!(!try_removal_again(20, EBUSY));
    assert!(!try_removal_again(1, libc::ENOENT));
}

// --- the agent --------------------------------------------------------------

#[test]
fn the_agent_answers_and_plans() {
    let mut agent = agent_with("c1", 5);
    assert!(matches!(
        agent.dispatch(ContainerRequest::Ping),
        Action::Reply(ContainerResponse::Pong)
    ));
    match agent.dispatch(ContainerRequest::Start { id: "c1".into(), exec_id: None }) {
        Action::Release { id, exec_id: None, gate: 9 } => assert_eq!(id, "c1"),
        other => panic!("{other:?}"),
    }
    assert!(matches!(
        agent.released("c1", &None, Ok(())),
        ContainerResponse::Started { pid: 5 }
    ));
    match agent.dispatch(ContainerRequest::State { id: "c1".into(), exec_id: None }) {
        Action::Reply(ContainerResponse::State { status, pid, .. }) => {
            assert_eq!((status, pid), (ContainerStatus::Running, 5))
        }
        other => panic!("{other:?}"),
    }
    match agent.dispatch(ContainerRequest::Stats { id: "c1".into() }) {
        Action::ReadStats { cgroup_path } => assert_eq!(cgroup_path, "/cg/c1"),
        other => panic!("{other:?}"),
    }
    match agent.dispatch(ContainerRequest::Kill { id: "c1".into(), exec_id: None, signal: 15, all: false }) {
        Action::SignalProcess { signal: 15, .. } => {}
        other => panic!("{other:?}"),
    }
    assert!(matches!(
        agent.dispatch(ContainerRequest::SecurityStats),
        Action::Reply(ContainerResponse::SecurityStats { .. })
    ));
}

#[test]
fn unknown_containers_are_refused() {
    let mut agent = agent_with("c1", 5);
    for request in [
        ContainerRequest::Start { id: "x".into(), exec_id: None },
        ContainerRequest::Pause { id: "x".into() },
        ContainerRequest::Pids { id: "x".into() },
        ContainerRequest::Stats { id: "x".into() },
    ] {
        let message = error_of(agent.dispatch(request));
        assert!(message.contains("\"x\""), "{message}");
    }
}

#[test]
fn a_running_process_is_not_deleted_without_force() {
    let mut agent = agent_with("c1", 5);
    let delete = |force: bool| ContainerRequest::Delete { id: "c1".into(), exec_id: None, force };
    error_of(agent.dispatch(delete(false)));
    match agent.dispatch(delete(true)) {
        Action::Delete { kill: Some(k), .. } => {
            assert_eq!(k.target, -5);
            assert_eq!(k.cgroup_path.as_deref(), Some("/cg/c1"));
        }
        other => panic!("{other:?}"),
    }
    assert!(agent.delete_process("c1", &None, 1).is_none());
    let ticket = wait_for(&mut agent, "c1", None);
    assert!(agent.waited(ticket, 1).is_none());
    assert_eq!(agent.exited("c1", &None, 6, 0, 41), None);
    assert!(agent.waited(ticket, 1).is_none());
    agent.exited("c1", &None, 5, 137, 42);
    match agent.waited(ticket, 1) {
        Some(ContainerResponse::Exited { exit_code: 137, exited_at_unix_nano: 42 }) => {}
        other => panic!("{other:?}"),
    }
    assert!(agent.waited(ticket, 1).is_none());
    let removal = agent.delete_process("c1", &None, 1).unwrap();
    assert!(matches!(
        removal.response,
        ContainerResponse::Deleted { pid: 5, exit_code: 137, exited_at_unix_nano: 42 }
    ));
    assert!(removal.process.is_none());
    let mut entry = removal.entry.unwrap();
    entry.namespaces = ContainerNamespaces { mnt: 3, pid: -1, ipc: 5, uts: -1, user: -1 };
    entry.init.io = ProcIo::Pty { master_fd: 7, stdin_attached: false, stdout_attached: true };
    let piped = ProcIo::Pipes {
        stdin_write: None,
        stdin_attached: false,
        stdout_read: Some(8),
        stdout_attached: false,
        stderr_read: Some(9),
        stderr_attached: false,
    };
    entry.execs.insert("shell".to_string(), ProcHandle::new_created(6, 10, piped));
    assert_eq!(entry.close(), vec![3, 5, 7, 8, 9]);
    assert!(agent.free_name("c1").is_ok());
}

fn wait_for(agent: &mut Agent, id: &str, exec_id: Option<&str>) -> usize {
    let exec_id = exec_id.map(str::to_string);
    match agent.dispatch(ContainerRequest::Wait { id: id.to_string(), exec_id }) {
        Action::Wait { ticket } => ticket,
        other => panic!("{other:?}"),
    }
}

#[test]
fn waits_outlast_the_removal_of_their_process() {
    let mut agent = agent_with("c1", 5);
    let shell = ProcHandle::new_created(6, 10, ProcIo::Legacy);
    agent.add_exec("c1", "shell".to_string(), shell);
    let init = wait_for(&mut agent, "c1", None);
    let exec = wait_for(&mut agent, "c1", Some("shell"));
    assert_ne!(init, exec);
    agent.exited("c1", &None, 5, 3, 40);
    assert!(agent.delete_process("c1", &None, 41).is_some());
    assert!(agent.free_name("c1").is_ok());
    match agent.waited(init, 99) {
        Some(ContainerResponse::Exited { exit_code: 3, exited_at_unix_nano: 40 }) => {}
        other => panic!("{other:?}"),
    }
    // The name is used again while the other process still runs.
    agent.add_container("c1".to_string(), entry(7));
    assert!(agent.waited(exec, 99).is_none());
    assert_eq!(agent.exited("c1", &Some("shell".to_string()), 6, 9, 50), None);
    match agent.waited(exec, 99) {
        Some(ContainerResponse::Exited { exit_code: 9, exited_at_unix_nano: 50 }) => {}
        other => panic!("{other:?}"),
    }
    // A wait for a process that has exited is answered at once, and tickets are used again.
    agent.exited("c1", &None, 7, 0, 60);
    let late = wait_for(&mut agent, "c1", None);
    assert_eq!(late, init);
    assert!(matches!(agent.waited(late, 99), Some(ContainerResponse::Exited { exit_code: 0, .. })));
    let gone = agent.dispatch(ContainerRequest::Wait { id: "c2".into(), exec_id: None });
    assert!(matches!(gone, Action::Reply(ContainerResponse::Error { .. })));
}

#[test]
fn members_are_written_in_their_order() {
    let resources = ResourceLimits {
        pids_limit: Some(7),
        unified: vec![
            ("pids.max".to_string(), "1".to_string()),
            ("memory.high".to_string(), "2".to_string()),
            ("pids.max".to_string(), "3".to_string()),
        ],
        ..Default::default()
    };
    let envelope = ContainerEnvelope {
        token: Some("secret".to_string()),
        request: ContainerRequest::UpdateResources { id: "c1".to_string(), resources },
    };
    assert_eq!(
        encode_envelope(&envelope),
        "{\"token\":\"secret\",\"op\":\"update-resources\",\"id\":\"c1\",\"resources\":{\"cpu_quota\":null,\"cpu_period\":null,\"cpu_shares\":null,\"cpuset_cpus\":null,\"cpuset_mems\":null,\"memory_limit_bytes\":null,\"memory_reservation_bytes\":null,\"memory_swap_bytes\":null,\"pids_limit\":7,\"unified\":{\"memory.high\":\"2\",\"pids.max\":\"3\"}}}\n"
    );
    let state = ContainerResponse::State {
        id: "c".to_string(),
        exec_id: None,
        status: ContainerStatus::Running,
        pid: 4,
        exit_code: None,
        exited_at_unix_nano: None,
    };
    assert_eq!(
        encode_response(&state),
        "{\"result\":\"state\",\"id\":\"c\",\"exec_id\":null,\"status\":\"running\",\"pid\":4,\"exit_code\":null,\"exited_at_unix_nano\":null}\n"
    );
    let attach = IoStreamAttach {
        token: None,
        id: "c".to_string(),
        exec_id: None,
        stream: IoStreamKind::Stdout,
    };
    assert_eq!(
        encode_attach(&attach),
        "{\"token\":null,\"id\":\"c\",\"exec_id\":null,\"stream\":\"stdout\"}\n"
    );
    assert_eq!(
        encode_ack(&IoStreamAck { ok: true, message: None }),
        "{\"ok\":true,\"message\":null}\n"
    );
    let ids = ContainerResponse::Pids { pids: vec![3, 1] };
    assert_eq!(encode_response(&ids), "{\"result\":\"pids\",\"pids\":[3,1]}\n");
}

#[test]
fn answers_are_received_byte_by_byte() {
    let mut line = ReplyLine::new();
    assert_eq!(line.feed(Received::Nothing, 1), ReplyStep::More);
    assert_eq!(line.feed(Received::Byte(b'a'), 0), ReplyStep::More);
    assert_eq!(line.feed(Received::Nothing, 0), ReplyStep::Failed);
    assert_eq!(line.feed(Received::Failure, 9), ReplyStep::Failed);
    assert_eq!(line.feed(Received::End, 9), ReplyStep::Complete);
    assert_eq!(line.feed(Received::Byte(b'\n'), 9), ReplyStep::Complete);
    assert_eq!(line.bytes, b"a".to_vec());
}

#[test]
fn namespaces_are_opened_by_their_names() {
    assert_eq!(namespace_files(false), vec!["mnt", "pid_for_children", "ipc", "uts"]);
    assert_eq!(namespace_files(true), vec!["mnt", "pid_for_children", "ipc", "uts", "user"]);
    let found = ContainerNamespaces::from_descriptors(&vec![3, 4, -1, 6]);
    let wanted = ContainerNamespaces { mnt: 3, pid: 4, ipc: -1, uts: 6, user: -1 };
    assert!(same(&found, &wanted));
    let found = ContainerNamespaces::from_descriptors(&vec![3, 4, 5, 6, 7]);
    assert_eq!(found.user, 7);
}

#[test]
fn a_missing_input_file_is_empty() {
    assert_eq!(input_step(None), InputStep::File);
    assert_eq!(input_step(Some(libc::ENOENT)), InputStep::Empty);
    assert_eq!(input_step(Some(libc::EACCES)), InputStep::Fail);
}

#[test]
fn systems_without_ambient_capabilities_will_do() {
    assert!(ambient_cleared(None, 1));
    assert!(ambient_cleared(Some(libc::EINVAL), 0));
    assert!(!ambient_cleared(Some(libc::EINVAL), 1));
    assert!(!ambient_cleared(Some(libc::EPERM), 0));
}

#[test]
fn names_are_used_once() {
    let agent = agent_with("c1", 5);
    assert_eq!(agent.free_name("c1").err().unwrap(), "container \"c1\" already exists");
    assert!(agent.free_name("c2").is_ok());
    assert_eq!(agent.container_cgroup("c1").unwrap(), "/cg/c1");
}

#[test]
fn further_processes_are_kept_by_name() {
    let mut agent = agent_with("c1", 5);
    let terminal = ProcIo::Pty { master_fd: 12, stdin_attached: false, stdout_attached: false };
    let shell = ProcHandle::new_created(6, 10, terminal);
    assert!(matches!(
        agent.add_exec("c1", "shell".to_string(), shell),
        ContainerResponse::ExecStarted { pid: 6 }
    ));
    let name = Some("shell".to_string());
    assert_eq!(agent.find_process("c1", &name).unwrap().snapshot().pid, 6);
    agent.exited("c1", &name, 6, 0, 9);
    let removal = agent.delete_process("c1", &name, 9).unwrap();
    assert!(removal.entry.is_none());
    assert_eq!(removal.process.unwrap().io.descriptors(), vec![12]);
    assert!(agent.find_process("c1", &name).is_err());
    assert_eq!(agent.find_process("c1", &None).unwrap().snapshot().pid, 5);
}

#[test]
fn freezing_changes_the_status() {
    let mut agent = agent_with("c1", 5);
    agent.dispatch(ContainerRequest::Start { id: "c1".into(), exec_id: None });
    agent.released("c1", &None, Ok(()));
    match agent.dispatch(ContainerRequest::Pause { id: "c1".into() }) {
        Action::Freeze { freeze: true, cgroup_path, .. } => assert_eq!(cgroup_path, "/cg/c1"),
        other => panic!("{other:?}"),
    }
    assert!(matches!(agent.frozen("c1", true, Ok(())), ContainerResponse::Paused));
    assert_eq!(agent.find_process("c1", &None).unwrap().snapshot().status, ContainerStatus::Paused);
    assert!(matches!(agent.frozen("c1", false, Ok(())), ContainerResponse::Resumed));
    assert!(matches!(
        agent.frozen("c1", true, Err("no".to_string())),
        ContainerResponse::Error { .. }
    ));
    assert!(matches!(
        finished(Err("x".to_string()), ContainerResponse::Killed),
        ContainerResponse::Error { .. }
    ));
}

#[test]
fn requests_need_the_secret() {
    let secret = Some("s".to_string());
    let good = encode_envelope(&ContainerEnvelope { token: secret.clone(), request: ContainerRequest::Ping });
    let bare = encode_envelope(&ContainerEnvelope { token: None, request: ContainerRequest::Ping });
    assert!(matches!(read_request(&good, &secret, None), Incoming::Accepted(ContainerRequest::Ping)));
    assert!(matches!(
        read_request(&bare, &secret, None),
        Incoming::Reply(ContainerResponse::Error { .. })
    ));
    assert!(matches!(read_request(&bare, &None, None), Incoming::Accepted(ContainerRequest::Ping)));
    assert!(matches!(read_request("", &secret, None), Incoming::Closed));
    assert!(matches!(read_request("{", &secret, None), Incoming::Unreadable(_)));
    assert_eq!(token_in(Some(" s \n")), secret);
    assert_eq!(token_in(Some(" \n")), None);
    assert_eq!(token_in(None), None);
}

#[test]
fn too_long_requests_are_refused() {
    let line = "x".repeat(16 * 1024 * 1024 + 1);
    match read_request(&line, &None, None) {
        Incoming::Reply(ContainerResponse::Error { message }) => {
            assert_eq!(message, "request exceeds 16777216 bytes")
        }
        _ => panic!(),
    }
}

#[test]
fn streams_are_attached_by_request() {
    let mut agent = Agent::new();
    let mut e = entry(5);
    e.init = ProcHandle::new_created(
        5,
        9,
        ProcIo::Pipes {
            stdin_write: None,
            stdin_attached: false,
            stdout_read: Some(4),
            stdout_attached: false,
            stderr_read: None,
            stderr_attached: false,
        },
    );
    agent.add_container("c1".to_string(), e);
    let line = encode_attach(&IoStreamAttach {
        token: Some("s".into()),
        id: "c1".into(),
        exec_id: None,
        stream: IoStreamKind::Stdout,
    });
    let secret = Some("s".to_string());
    match agent.read_attach(&line, &secret, None) {
        Attaching::Open { attach, fd: 4, label } => {
            assert!(agent.attached(&attach, label, Ok(())).ok);
            assert!(matches!(agent.read_attach(&line, &secret, None), Attaching::Refused(_)));
            agent.detached(&attach);
            assert!(matches!(agent.read_attach(&line, &secret, None), Attaching::Open { .. }));
        }
        other => panic!("{other:?}"),
    }
    assert!(matches!(
        agent.read_attach(&line, &Some("other".to_string()), None),
        Attaching::Refused(_)
    ));
    assert!(matches!(agent.read_attach("", &secret, None), Attaching::Closed));
}

// --- the client -------------------------------------------------------------

fn endpoint(backend: BackendKind, socket: Option<&str>) -> VmEndpoint {
    VmEndpoint {
        agent: Some(AgentSettings { enabled: true, token: Some("s".to_string()) }),
        guest_cid: Some(7),
        backend,
        vsock_socket: socket.map(str::to_string),
    }
}

#[test]
fn calls_go_where_the_machine_listens() {
    let direct = endpoint(BackendKind::Qemu, None).call(ContainerRequest::Ping).unwrap();
    assert!(matches!(direct.endpoint, Endpoint::Native { cid: 7, .. }));
    assert_eq!(decode_envelope(&direct.line).unwrap().token.as_deref(), Some("s"));
    let relayed = endpoint(BackendKind::Firecracker, Some("/s")).call(ContainerRequest::Ping).unwrap();
    match relayed.endpoint {
        Endpoint::Proxy { socket, .. } => assert_eq!(socket, "/s"),
        other => panic!("{other:?}"),
    }
    assert_eq!(
        endpoint(BackendKind::FluxVm, None).call(ContainerRequest::Ping).err().unwrap(),
        "VM has no vsock proxy socket recorded"
    );
    assert_eq!(
        endpoint(BackendKind::Auto, None).call(ContainerRequest::Ping).err().unwrap(),
        "unresolved FluxVM backend"
    );
    let mut off = endpoint(BackendKind::Qemu, None);
    assert!(off.has_agent());
    off.agent = None;
    assert!(!off.has_agent());
    assert_eq!(
        off.call(ContainerRequest::Ping).err().unwrap(),
        "FluxVM guest agent must be enabled for secure containers"
    );
    let mut lost = endpoint(BackendKind::Qemu, None);
    lost.guest_cid = None;
    assert_eq!(lost.call(ContainerRequest::Ping).err().unwrap(), "VM has no vsock CID assigned");
    let stream = endpoint(BackendKind::Qemu, None)
        .open_stream(IoStreamAttach {
            token: None,
            id: "c".into(),
            exec_id: None,
            stream: IoStreamKind::Stdin,
        })
        .unwrap();
    assert_eq!(decode_attach(&stream.line).unwrap().token.as_deref(), Some("s"));
}

#[test]
fn relays_are_asked_and_judged() {
    assert_eq!(connect_line(1024), "CONNECT 1024\n");
    assert!(check_proxy(1, "ok 1073741824\n").is_ok());
    assert_eq!(
        check_proxy(1, "NO\n").err().unwrap(),
        "vsock proxy refused port 1: \"NO\""
    );
}

#[test]
fn handshakes_end_at_the_line() {
    let mut line = HandshakeLine::new();
    assert_eq!(line.feed(Some(b'O')), HandshakeStep::More);
    assert_eq!(line.feed(Some(b'\n')), HandshakeStep::Complete);
    let mut line = HandshakeLine::new();
    let mut last = HandshakeStep::More;
    for _ in 0..=MAX_HANDSHAKE_BYTES {
        last = line.feed(Some(b'x'));
        if last != HandshakeStep::More {
            break;
        }
    }
    assert_eq!(last, HandshakeStep::TooLarge);
}

#[test]
fn replies_are_judged() {
    assert!(matches!(read_reply("", None), Err(ReplyError::Closed)));
    assert!(matches!(read_reply("{\"result\":\"pong\"}\n", None), Ok(ContainerResponse::Pong)));
    assert!(read_reply("x", None).is_err());
    assert_eq!(closed_text(), "container agent closed without a response");
    assert!(ping(ContainerResponse::Pong).is_ok());
    match ping(ContainerResponse::Error { message: "m".into() }) {
        Err(PingError::Agent(m)) => assert!(m.contains('m')),
        other => panic!("{other:?}"),
    }
    assert!(ping(ContainerResponse::Killed).is_err());
    assert!(validate_stream_ack("{\"ok\":true}\n", None).is_ok());
    match validate_stream_ack("{\"ok\":false,\"message\":\"busy\"}\n", None) {
        Err(AttachError::Refused(m)) => assert_eq!(m, "container stream attach failed: busy"),
        other => panic!("{other:?}"),
    }
    match validate_stream_ack("{\"ok\":false}\n", None) {
        Err(AttachError::Refused(m)) => {
            assert_eq!(m, "container stream attach failed: unknown error")
        }
        other => panic!("{other:?}"),
    }
    assert!(matches!(validate_stream_ack("-", None), Err(AttachError::Unreadable(_))));
}

#[test]
fn the_typed_reader_has_a_say() {
    let fault = || Some("duplicate field `ok` at line 1 column 20".to_string());
    match validate_stream_ack("{\"ok\":true,\"ok\":true}\n", fault()) {
        Err(AttachError::Unreadable(e)) => assert_eq!(e.words(), fault().unwrap()),
        other => panic!("{other:?}"),
    }
    match read_reply("{\"result\":\"pong\",\"result\":\"pong\"}", fault()) {
        Err(ReplyError::Unreadable(e)) => assert_eq!(e.words(), fault().unwrap()),
        other => panic!("{other:?}"),
    }
    assert!(matches!(read_reply("", fault()), Err(ReplyError::Closed)));
    match read_request("{\"op\":\"ping\",\"op\":\"ping\"}", &None, fault()) {
        Incoming::Unreadable(DecodeError::Refused(m)) => assert_eq!(Some(m), fault()),
        other => panic!("{other:?}"),
    }
    assert!(matches!(read_request("", &None, fault()), Incoming::Closed));
    let agent = Agent::new();
    assert!(matches!(
        agent.read_attach("{}", &None, fault()),
        Attaching::Unreadable(DecodeError::Refused(_))
    ));
    assert_eq!(decode_ack("{}").err().unwrap().words(), "the message has a wrong shape");
}

#[test]
fn attempts_to_connect_back_off() {
    assert_eq!(connect_backoff(libc::ECONNREFUSED, 0, 1000), Some(50));
    assert_eq!(connect_backoff(libc::ECONNRESET, 3, 1000), Some(200));
    assert_eq!(connect_backoff(libc::EAGAIN, 3, 120), Some(120));
    assert_eq!(connect_backoff(libc::EAGAIN, 3, 0), None);
    assert_eq!(connect_backoff(libc::ENOENT, 0, 1000), None);
}

#[test]
fn bearer_tokens_are_read_from_the_header() {
    assert_eq!(bearer_token(Some("Bearer abc")).as_deref(), Some("abc"));
    assert_eq!(bearer_token(Some("Basic abc")), None);
    assert_eq!(bearer_token(None), None);
}

#[test]
fn addresses_are_told_from_other_texts() {
    let good = [
        "0.0.0.0", "127.0.0.1", "255.255.255.255", "::", "::1", "1::", "2001:db8::8a2e:370:7334",
        "1:2:3:4:5:6:7:8", "FE80::ABCD", "::ffff:10.0.0.1", "1:2:3:4:5:6:1.2.3.4",
        "1:2:3:4:5:6:7::", "1:2:3:4:5::1.2.3.4", "0001:0:0:0:0:0:0:0",
    ];
    let bad = [
        "", "1.2.3", "1.2.3.4.5", "01.2.3.4", "256.1.1.1", "1.2.3.+4", "1.2.3.4 ", ":", ":::", "1:::2",
        "1::2::3", "1:2:3:4:5:6:7", "1:2:3:4:5:6:7:8:9", "1:2:3:4:5:6:7:8::", "12345::", "g::",
        "1.2.3.4::", "::1.2.3.4:5", "1:2:3:4:5:6::1.2.3.4", "localhost", "fe80::1%eth0",
    ];
    for s in good {
        assert!(Address::parse(s).is_some(), "{s}");
    }
    for s in bad {
        assert!(Address::parse(s).is_none(), "{s}");
    }
}

#[test]
fn addresses_have_one_text() {
    let texts = [
        ("10.0.0.1", "10.0.0.1"),
        ("0:0:0:0:0:0:0:1", "::1"),
        ("0:0:0:0:0:0:0:0", "::"),
        ("::", "::"),
        ("1:0:0:0:0:0:0:0", "1::"),
        ("FE80::ABCD", "fe80::abcd"),
        ("2001:0DB8:0:0:8:800:200C:417A", "2001:db8::8:800:200c:417a"),
        ("1:0:0:2:0:0:0:3", "1:0:0:2::3"),
        ("1:0:0:2:3:0:0:4", "1::2:3:0:0:4"),
        ("1:0:2:3:4:5:6:7", "1:0:2:3:4:5:6:7"),
        ("1:2:3:4:5:6:1.2.3.4", "1:2:3:4:5:6:102:304"),
        ("::ffff:a00:1", "::ffff:10.0.0.1"),
        ("::1.2.3.4", "::102:304"),
        ("::ffff:0:0", "::ffff:0.0.0.0"),
    ];
    for (given, text) in texts {
        let address = Address::parse(given).unwrap();
        assert_eq!(address.text(), text, "{given}");
        assert_eq!(Address::parse(text), Some(address), "{given}");
    }
    assert_eq!(Address::parse("1.2.3.4"), Some(Address::V4([1, 2, 3, 4])));
    assert_eq!(Address::parse("1::f"), Some(Address::V6([1, 0, 0, 0, 0, 0, 0, 15])));
}

#[test]
fn policies_hold_addresses() {
    let create = |peer: &str| {
        format!(
            "{{\"op\":\"create\",\"id\":\"c\",\"config_json\":\"\",\"io\":{{}},\"network_policy\":{{\"allow_addresses\":[\"{peer}\"]}}}}"
        )
    };
    match decode_envelope(&create("10.0.0.1")).unwrap().request {
        ContainerRequest::Create { network_policy: Some(p), .. } => {
            assert_eq!(p.allow_addresses, vec![Address::V4([10, 0, 0, 1])]);
            assert!(p.deny_addresses.is_empty());
        }
        other => panic!("{other:?}"),
    }
    assert!(matches!(decode_envelope(&create("peer")), Err(DecodeError::WrongShape)));
    let long = decode_envelope(&create("0:0:0:0:0:0:0:1")).unwrap();
    assert!(encode_envelope(&long).contains("\"allow_addresses\":[\"::1\"]"));
    let policy: ContainerNetworkPolicy = Default::default();
    assert!(!policy.default_allow);
}

#[test]
fn messages_may_be_lists() {
    let ack = decode_ack("[true,null]").unwrap();
    assert!(ack.ok && ack.message.is_none());
    assert!(decode_ack("[true]").unwrap().ok);
    assert!(matches!(decode_ack("[]"), Err(DecodeError::WrongShape)));
    assert!(matches!(decode_ack("[true,null,1]"), Err(DecodeError::WrongShape)));
    let attach = decode_attach("[null,\"c1\",null,\"stdout\"]").unwrap();
    assert_eq!((attach.id.as_str(), attach.stream), ("c1", IoStreamKind::Stdout));
    assert!(matches!(decode_response("[\"pong\"]").unwrap(), ContainerResponse::Pong));
    assert!(decode_response("[\"pong\",1]").is_err());
    assert!(matches!(
        decode_response("[\"created\",7]").unwrap(),
        ContainerResponse::Created { pid: 7, container_identity: 0 }
    ));
    assert!(decode_response("[\"created\"]").is_err());
    match decode_envelope("{\"op\":\"exec\",\"id\":\"c\",\"exec_id\":\"e\",\"process_json\":\"\",\"io\":[null,\"/o\"]}")
        .unwrap()
        .request
    {
        ContainerRequest::Exec { io, .. } => assert_eq!(io.stdout.as_deref(), Some("/o")),
        other => panic!("{other:?}"),
    }
}

#[test]
fn names_may_be_members() {
    let attach = decode_attach("{\"id\":\"c1\",\"stream\":{\"stderr\":null}}").unwrap();
    assert_eq!(attach.stream, IoStreamKind::Stderr);
    assert!(decode_attach("{\"id\":\"c1\",\"stream\":{\"stderr\":1}}").is_err());
    assert!(decode_attach("{\"id\":\"c1\",\"stream\":{}}").is_err());
    assert!(decode_attach("{\"id\":\"c1\",\"stream\":{\"stderr\":null,\"stdin\":null}}").is_err());
    assert!(matches!(
        decode_response("{\"result\":\"state\",\"id\":\"c\",\"status\":{\"paused\":null},\"pid\":3}").unwrap(),
        ContainerResponse::State { status: ContainerStatus::Paused, pid: 3, .. }
    ));
}

#[test]
fn a_message_is_one_line() {
    let ack = IoStreamAck { ok: false, message: Some("two\nlines\r\n".to_string()) };
    let line = encode_ack(&ack);
    assert_eq!(line.matches('\n').count(), 1);
    assert!(line.ends_with('\n'));
    let bare = decode_ack(line.trim_end_matches('\n')).unwrap();
    assert_eq!(bare.message, ack.message);
    assert_eq!(decode_ack(&line).unwrap().message, ack.message);
}

#[test]
fn limits_keep_every_key() {
    let key = "$serde_json::private::RawValue";
    let limits = ResourceLimits {
        unified: vec![(key.to_string(), "1".to_string())],
        ..Default::default()
    };
    let line = encode_envelope(&ContainerEnvelope {
        token: None,
        request: ContainerRequest::UpdateResources { id: "c".into(), resources: limits },
    });
    match decode_envelope(&line).unwrap().request {
        ContainerRequest::UpdateResources { resources, .. } => {
            assert_eq!(resources.unified, vec![(key.to_string(), "1".to_string())]);
        }
        other => panic!("{other:?}"),
    }
}

#[test]
fn unsafe_surroundings_are_refused() {
    let config = |linux: &str| {
        parse_oci_config(&format!(
            "{{\"root\":{{\"path\":\"/r\"}},\"process\":{{\"args\":[\"sh\"]}},\"linux\":{linux}}}"
        ))
    };
    assert!(config("{}").is_ok());
    assert!(config("{\"sysctl\":{\"net.ipv4.ip_forward\":\"1\"}}").is_ok());
    let fault = |linux: &str| config(linux).err().unwrap();
    assert_eq!(fault("{\"sysctl\":{\"a/b\":\"1\"}}"), "unsafe OCI sysctl key \"a/b\"");
    assert_eq!(fault("{\"sysctl\":{\"a\":1}}"), "OCI sysctl value must be a string");
    assert!(config("{\"maskedPaths\":[\"/proc/../etc\"]}").is_err());
    assert!(config("{\"readonlyPaths\":[\"relative\"]}").is_err());
    assert_eq!(fault("{\"devices\":[{}]}"), "OCI device.path is required");
    assert_eq!(fault("{\"devices\":[{\"path\":\"/dev/x\"}]}"), "OCI device.type is required");
    assert!(config("{\"devices\":[{\"path\":\"/dev/sda\",\"type\":\"b\"}]}").is_err());
    assert_eq!(
        fault("{\"devices\":[{\"path\":\"/dev/x\",\"type\":\"q\"}]}"),
        "unsupported OCI device type \"q\""
    );
    assert!(config("{\"devices\":[{\"path\":\"/dev/null\",\"type\":\"c\"}]}").is_ok());
}
