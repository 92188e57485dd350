use fluxvm::cloud_hypervisor::{
    build_args, ch_remote, end_launch, hotplug_cpu, hotplug_memory, max_memory_mib, max_vcpus, migration_outcome,
    migration_start, resized_cpu, resized_memory, snapshot_command, snapshot_save,
    validate_migration_transport, CreateVmRequest, GrowthStep, LaunchContext, LaunchStage, MigrationMode,
    MigrationStartRequest, NetworkSpec,
};

const INFO: &str = r#"{"config":{"cpus":{"boot_vcpus":2,"max_vcpus":8},"memory":{"size":536870912,"hotplug_size":2147483648}}}"#;

fn req() -> CreateVmRequest {
    CreateVmRequest {
        vcpus: 1,
        memory_mib: 512,
        max_vcpus: None,
        max_memory_mib: None,
        loadvm_tag: None,
        kernel: None,
        initrd: None,
        firmware: Some("/usr/share/cloud-hypervisor/CLOUDHV.fd".into()),
        kernel_args: None,
        extra_args: vec![],
        hyperv: false,
        qga_enabled: false,
        agent_enabled: false,
        tpm: None,
    }
}

fn ctx() -> LaunchContext {
    LaunchContext {
        workspace: "/tmp/eph-ch-fixture".into(),
        disk: "/tmp/eph-ch-fixture/root.raw".into(),
        seed_disk: None,
        log_path: "/tmp/eph-ch-fixture/console.log".into(),
        network: NetworkSpec::Off,
        macvtap_fd: None,
        guest_cid: None,
        vsock_socket: None,
    }
}

fn info(s: &str) -> Option<Result<String, String>> {
    Some(Ok(s.to_string()))
}

fn args(r: &CreateVmRequest) -> Vec<String> {
    build_args(&None, r, &ctx()).unwrap()
}

fn value_of(args: &[String], name: &str) -> Option<String> {
    args.iter().position(|a| a == name).map(|i| args[i + 1].clone())
}

fn migration_request(destination: &str) -> MigrationStartRequest {
    MigrationStartRequest {
        destination: destination.into(),
        mode: MigrationMode::PreCopy,
        bandwidth_mbps: None,
        max_downtime_ms: None,
        multifd_channels: None,
    }
}

#[test]
fn qga_serial_socket_flag_shape() {
    let mut r = req();
    r.qga_enabled = true;
    let args = args(&r);
    let flag = args.iter().find(|a| a.contains("qga.sock")).unwrap();
    assert!(flag.contains("qga.sock"));
    assert!(flag.starts_with("socket="));
}

#[test]
fn hotplug_cpu_resizes_to_current_plus_add() {
    match hotplug_cpu("/ws", 3, &info(INFO)) {
        GrowthStep::Resize { command, target, .. } => {
            assert_eq!(resized_cpu(target, Ok(())).unwrap(), 5);
            let logged = command.join(" ");
            assert!(logged.contains("resize --cpus 5"), "expected an absolute target of 5, got: {logged}");
        }
        other => panic!("{other:?}"),
    }
    assert!(matches!(hotplug_cpu("/ws", 3, &None), GrowthStep::Report));
}

#[test]
fn hotplug_cpu_rejects_exceeding_max_vcpus_headroom() {
    let report = r#"{"config":{"cpus":{"boot_vcpus":6,"max_vcpus":8},"memory":{"size":536870912,"hotplug_size":2147483648}}}"#;
    match hotplug_cpu("/ws", 5, &info(report)) {
        GrowthStep::Fail(err) => {
            assert!(err.contains("exceed the 8-vCPU headroom"), "unexpected error: {err}")
        }
        other => panic!("{other:?}"),
    }
}

#[test]
fn hotplug_cpu_rejects_zero() {
    match hotplug_cpu("/ws", 0, &None) {
        GrowthStep::Fail(err) => assert!(err.contains("greater than zero")),
        other => panic!("{other:?}"),
    }
}

#[test]
fn hotplug_cpu_propagates_a_real_resize_failure() {
    let err = resized_cpu(2, Err("exit 1".to_string())).err().unwrap();
    assert!(err.contains("resizing vCPU count"));
}

#[test]
fn hotplug_memory_resizes_to_current_plus_add() {
    match hotplug_memory("/ws", 256, &info(INFO)) {
        GrowthStep::Resize { command, current, target } => {
            assert_eq!(resized_memory(current, target, Ok(())).unwrap(), 768);
            let logged = command.join(" ");
            assert!(
                logged.contains("resize --memory 805306368"),
                "expected an absolute byte target, got: {logged}"
            );
        }
        other => panic!("{other:?}"),
    }
}

#[test]
fn hotplug_memory_rejects_non_128mib_multiple() {
    match hotplug_memory("/ws", 100, &None) {
        GrowthStep::Fail(err) => assert!(err.contains("multiple of 128MiB")),
        other => panic!("{other:?}"),
    }
}

#[test]
fn hotplug_memory_rejects_zero() {
    match hotplug_memory("/ws", 0, &None) {
        GrowthStep::Fail(err) => assert!(err.contains("greater than zero")),
        other => panic!("{other:?}"),
    }
}

#[test]
fn unreadable_reports_are_refused() {
    for report in ["", "{}", r#"{"config":{"cpus":{}}}"#] {
        assert!(matches!(hotplug_cpu("/ws", 1, &info(report)), GrowthStep::Fail(_)), "{report}");
        assert!(matches!(hotplug_memory("/ws", 128, &info(report)), GrowthStep::Fail(_)), "{report}");
    }
    assert!(matches!(
        hotplug_cpu("/ws", 1, &Some(Err("no socket".to_string()))),
        GrowthStep::Fail(_)
    ));
}

#[test]
fn cpu_and_memory_hotplug_headroom_defaults_when_unset() {
    let args = args(&req());
    assert_eq!(value_of(&args, "--cpus").unwrap(), "boot=1,max=2");
    assert_eq!(value_of(&args, "--memory").unwrap(), "size=512M,hotplug_size=2048M");
}

#[test]
fn cpu_and_memory_hotplug_headroom_respects_explicit_request() {
    let mut r = req();
    r.vcpus = 4;
    r.max_vcpus = Some(8);
    r.memory_mib = 1024;
    r.max_memory_mib = Some(4096);
    let args = args(&r);
    assert_eq!(value_of(&args, "--cpus").unwrap(), "boot=4,max=8");
    assert_eq!(value_of(&args, "--memory").unwrap(), "size=1024M,hotplug_size=3072M");
}

#[test]
fn ceilings_never_lie_below_the_size() {
    let mut r = req();
    r.vcpus = 200;
    assert_eq!(max_vcpus(&r), 254);
    r.vcpus = 255;
    r.max_vcpus = Some(1);
    assert!(max_vcpus(&r) >= 254);
    r.memory_mib = 4096;
    assert_eq!(max_memory_mib(&r), 8192);
}

#[test]
fn snapshot_save_success_path_resumes() {
    snapshot_save(Ok(()), Ok(())).unwrap();
}

#[test]
fn snapshot_save_reports_resume_failure_after_successful_snapshot() {
    let msg = snapshot_save(Ok(()), Err("exit 1".to_string())).err().unwrap();
    assert!(
        msg.contains("snapshot saved") && msg.contains("resume"),
        "expected a resume-after-success message, got: {msg}"
    );
}

#[test]
fn snapshot_save_reports_both_failures() {
    let msg = snapshot_save(Err("s".to_string()), Err("r".to_string())).err().unwrap();
    assert!(msg.contains("also failed to resume"), "expected both-failed message, got: {msg}");
}

#[test]
fn snapshot_save_propagates_snapshot_failure_when_resume_succeeds() {
    let err = snapshot_save(Err("s".to_string()), Ok(())).err().unwrap();
    assert!(!err.contains("also failed to resume"));
    assert!(err.contains('s'));
}

#[test]
fn tpm_disabled_omits_tpm_flag() {
    let args = args(&req());
    assert!(!args.iter().any(|a| a == "--tpm"));
}

#[test]
fn tpm_enabled_adds_tpm_socket_flag() {
    let mut r = req();
    r.tpm = Some(true);
    let args = args(&r);
    let idx = args.iter().position(|a| a == "--tpm").expect("missing --tpm flag");
    assert_eq!(args[idx + 1], "socket=/tmp/eph-ch-fixture/swtpm.sock");
}

#[test]
fn networks_become_arguments() {
    let mut c = ctx();
    c.network = NetworkSpec::Tap {
        tap_name: Some("tap7".to_string()),
        mac: Some("02:00:00:00:00:01".to_string()),
    };
    let args = build_args(&None, &req(), &c).unwrap();
    let net = value_of(&args, "--net").unwrap();
    assert!(net.contains("tap=tap7") && net.contains("mac=02:00:00:00:00:01"), "{net}");
    c.network = NetworkSpec::User;
    assert!(build_args(&None, &req(), &c).is_err());
}

#[test]
fn without_a_kernel_the_usual_firmware_is_needed() {
    let mut r = req();
    r.firmware = None;
    assert!(build_args(&None, &r, &ctx()).is_err());
    let args = build_args(&Some("/fw".to_string()), &r, &ctx()).unwrap();
    assert!(args.iter().any(|a| a == "/fw"));
}

#[test]
fn commands_name_the_socket() {
    let c = ch_remote("/ws", "pause").join(" ");
    assert!(c.contains("/ws/") && c.ends_with("pause"), "{c}");
    assert!(snapshot_command("/ws", "/snap").join(" ").ends_with("snapshot file:///snap"));
}

#[test]
fn migration_start_rejects_a_non_tcp_unix_destination() {
    let err = migration_start("/ws", &migration_request("exec:cat > /tmp/x")).err().unwrap();
    assert!(err.contains("tcp: or unix:"));
    assert!(validate_migration_transport("tcp:h:1").is_ok());
    assert!(validate_migration_transport("unix:/s").is_ok());
}

#[test]
fn migration_start_rejects_bandwidth_mbps() {
    let mut req = migration_request("tcp:10.0.0.5:4444");
    req.bandwidth_mbps = Some(100);
    let err = migration_start("/ws", &req).err().unwrap();
    assert!(err.contains("no bandwidth throttle"));
}

#[test]
fn migration_start_rejects_zero_multifd_channels() {
    let mut req = migration_request("tcp:10.0.0.5:4444");
    req.multifd_channels = Some(0);
    let err = migration_start("/ws", &req).err().unwrap();
    assert!(err.contains("greater than zero") || err.contains(">= 1"));
}

#[test]
fn migration_start_rejects_multifd_over_a_unix_destination() {
    let mut req = migration_request("unix:/tmp/mig.sock");
    req.multifd_channels = Some(4);
    let err = migration_start("/ws", &req).err().unwrap();
    assert!(err.contains("unix:"));
}

#[test]
fn migration_start_rejects_multifd_with_post_copy() {
    let mut req = migration_request("tcp:10.0.0.5:4444");
    req.mode = MigrationMode::PostCopy;
    req.multifd_channels = Some(4);
    let err = migration_start("/ws", &req).err().unwrap();
    assert!(err.contains("post-copy"));
}

#[test]
fn migration_start_builds_the_expected_send_migration_config() {
    let mut req = migration_request("tcp:10.0.0.5:4444");
    req.max_downtime_ms = Some(300);
    req.multifd_channels = Some(4);
    let logged = migration_start("/ws", &req).unwrap().join(" ");
    assert!(
        logged.contains("send-migration destination_url=tcp:10.0.0.5:4444,downtime_ms=300,connections=4"),
        "unexpected argv: {logged}"
    );
}

#[test]
fn migration_start_adds_memory_mode_postcopy_for_post_copy_requests() {
    let mut req = migration_request("unix:/tmp/mig.sock");
    req.mode = MigrationMode::PostCopy;
    let logged = migration_start("/ws", &req).unwrap().join(" ");
    assert!(
        logged.contains("destination_url=unix:/tmp/mig.sock,memory_mode=postcopy"),
        "unexpected argv: {logged}"
    );
}

#[test]
fn migration_start_propagates_a_real_send_migration_failure() {
    let err = migration_outcome(Err("exit 1".to_string())).err().unwrap();
    assert!(err.contains("send-migration request"));
    assert!(migration_outcome(Ok(())).is_ok());
}

#[test]
fn failed_starts_leave_nothing() {
    let mut c = ctx();
    c.macvtap_fd = Some(5);
    for stage in [LaunchStage::SpawnFailed("no".to_string()), LaunchStage::Vanished] {
        let end = end_launch(&c, Some(9), stage);
        assert_eq!((end.close, end.terminate), (Some(5), Some(9)));
        assert!(end.outcome.is_err());
    }
    let end = end_launch(&c, None, LaunchStage::ChipFailed("chip".to_string()));
    assert_eq!((end.close, end.terminate), (Some(5), None));
    assert_eq!(end.outcome.err().unwrap(), "chip");
    let end = end_launch(&c, Some(9), LaunchStage::ArgsFailed("args".to_string()));
    assert_eq!((end.close, end.terminate), (None, None));
    let end = end_launch(&c, Some(9), LaunchStage::Running(77));
    assert_eq!((end.close, end.terminate), (Some(5), None));
    let done = end.outcome.unwrap();
    assert_eq!((done.pid, done.swtpm_pid), (77, Some(9)));
    assert_eq!(done.control_socket, "/tmp/eph-ch-fixture/ch-api.sock");
}
