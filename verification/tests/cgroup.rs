use fluxvm::cgroup::cpu::{parse_cpu_max, CpuController, CpuMax};
use fluxvm::cgroup::cpuset::{format_set, parse_set, CpusetController};
use fluxvm::cgroup::error::CgroupError;
use fluxvm::cgroup::freezer::FreezerController;
use fluxvm::cgroup::io::{
    format_limit, parse_io_limit, parse_io_max_for_device, parse_io_stat, DeviceId, IoController, IoMax,
};
use fluxvm::cgroup::manager::{
    delegation_roots, ensure_delegation, CgroupManager, CgroupPath,
};
use fluxvm::cgroup::memory::MemoryController;
use fluxvm::cgroup::pids::PidsController;
use fluxvm::cgroup::pressure::{float_text, parse_pressure, parse_pressure_line};
use fluxvm::cgroup::util::{
    join, limit, lookup_key, parse_flat_keyed, parse_u64_or_max, read_cgroup_file,
    read_flat_keyed, read_u64, write_cgroup_file, FileWrite, Reading,
};

fn near(text: &str, expected: f64) -> bool {
    (text.parse::<f64>().unwrap() - expected).abs() < f64::EPSILON
}

fn done<T>(r: Reading<T>) -> Result<T, CgroupError> {
    match r {
        Reading::Done(d) => d,
        Reading::Need(p) => panic!("asked for {p} again"),
    }
}

fn needs<T>(r: Reading<T>) -> String {
    match r {
        Reading::Need(p) => p,
        Reading::Done(_) => panic!("answered without reading"),
    }
}

fn content(s: &str) -> Option<Result<String, String>> {
    Some(Ok(s.to_string()))
}

fn pair(w: &FileWrite) -> (&str, &str) {
    (w.path.as_str(), w.value.as_str())
}

// --- cpu -------------------------------------------------------------------

#[test]
fn test_parse_cpu_max_unlimited() {
    let max = parse_cpu_max("/test/cpu.max", "max 100000").unwrap();
    assert!(max.quota_usec.is_none());
    assert_eq!(max.period_usec, 100_000);
}

#[test]
fn test_parse_cpu_max_limited() {
    let max = parse_cpu_max("/test/cpu.max", "50000 100000").unwrap();
    assert_eq!(max.quota_usec, Some(50000));
    assert_eq!(max.period_usec, 100_000);
}

#[test]
fn test_parse_cpu_max_no_period() {
    let max = parse_cpu_max("/test/cpu.max", "max").unwrap();
    assert!(max.quota_usec.is_none());
    assert_eq!(max.period_usec, 100_000);
}

#[test]
fn test_cpu_max_unlimited() {
    let max = CpuMax::unlimited();
    assert!(max.quota_usec.is_none());
    assert_eq!(max.period_usec, 100_000);
}

#[test]
fn test_cpu_max_from_percent() {
    let max = CpuMax::from_percent(50);
    assert_eq!(max.quota_usec, Some(50_000));
    assert_eq!(max.period_usec, 100_000);
}

#[test]
fn cpu_max_faults_carry_path_and_content() {
    match parse_cpu_max("/x/cpu.max", "fast 100000") {
        Err(CgroupError::ParseError { path, content, .. }) => {
            assert_eq!(path, "/x/cpu.max");
            assert_eq!(content, "fast 100000");
        }
        other => panic!("{other:?}"),
    }
    assert!(parse_cpu_max("/x/cpu.max", "1 slow").is_err());
    assert!(parse_cpu_max("/x/cpu.max", "").is_err());
}

#[test]
fn cpu_max_reads_back_what_it_writes() {
    let cpu = CpuController::new("/cg".to_string());
    for max in [
        CpuMax::unlimited(),
        CpuMax::from_percent(150),
        CpuMax { quota_usec: Some(7), period_usec: 9 },
    ] {
        let w = cpu.set_max(&max);
        assert_eq!(w.path, "/cg/cpu.max");
        let back = done(cpu.get_max(content(&w.value))).unwrap();
        assert_eq!(back.quota_usec, max.quota_usec);
        assert_eq!(back.period_usec, max.period_usec);
    }
}

#[test]
fn cpu_weight_is_bounded() {
    let cpu = CpuController::new("/cg".to_string());
    assert_eq!(pair(&cpu.set_weight(1).unwrap()), ("/cg/cpu.weight", "1"));
    assert_eq!(pair(&cpu.set_weight(10_000).unwrap()), ("/cg/cpu.weight", "10000"));
    for bad in [0u64, 10_001] {
        match cpu.set_weight(bad) {
            Err(CgroupError::InvalidValue { field, value, .. }) => {
                assert_eq!(field, "cpu.weight");
                assert_eq!(value, bad.to_string());
            }
            other => panic!("{other:?}"),
        }
    }
    assert_eq!(needs(cpu.get_weight(None)), "/cg/cpu.weight");
    assert_eq!(done(cpu.get_weight(content("100\n"))).unwrap(), 100);
}

#[test]
fn cpu_stat_is_read_by_name() {
    let cpu = CpuController::new("/cg".to_string());
    let stat = done(cpu.get_stat(content(
        "usage_usec 30\nuser_usec 20\nsystem_usec 10\nnr_periods 3\nnr_throttled 2\nthrottled_usec 1\n",
    )))
    .unwrap();
    assert_eq!(
        (
            stat.usage_usec,
            stat.user_usec,
            stat.system_usec,
            stat.nr_periods,
            stat.nr_throttled,
            stat.throttled_usec
        ),
        (30, 20, 10, 3, 2, 1)
    );
    let sparse = done(cpu.get_stat(content("usage_usec 5"))).unwrap();
    assert_eq!((sparse.usage_usec, sparse.throttled_usec), (5, 0));
}

// --- cpuset ----------------------------------------------------------------

#[test]
fn test_parse_set_range() {
    assert_eq!(parse_set("/test", "0-3").unwrap(), vec![0, 1, 2, 3]);
}

#[test]
fn test_parse_set_mixed() {
    assert_eq!(
        parse_set("/test", "0-3,8,10-12").unwrap(),
        vec![0, 1, 2, 3, 8, 10, 11, 12]
    );
}

#[test]
fn test_parse_set_single() {
    assert_eq!(parse_set("/test", "5").unwrap(), vec![5]);
}

#[test]
fn test_parse_set_empty() {
    assert_eq!(parse_set("/test", "").unwrap(), Vec::<u32>::new());
}

#[test]
fn test_parse_set_whitespace() {
    assert_eq!(parse_set("/test", "  0-3  ").unwrap(), vec![0, 1, 2, 3]);
}

#[test]
fn test_format_set_range() {
    assert_eq!(format_set(&[0, 1, 2, 3]), "0-3");
}

#[test]
fn test_format_set_mixed() {
    assert_eq!(format_set(&[0, 1, 2, 3, 8, 10, 11, 12]), "0-3,8,10-12");
}

#[test]
fn test_format_set_single() {
    assert_eq!(format_set(&[5]), "5");
}

#[test]
fn test_format_set_empty() {
    assert_eq!(format_set(&[]), "");
}

#[test]
fn test_format_set_unsorted() {
    assert_eq!(format_set(&[3, 1, 2, 0]), "0-3");
}

#[test]
fn test_format_set_gaps() {
    assert_eq!(format_set(&[0, 2, 4, 6]), "0,2,4,6");
}

#[test]
fn test_roundtrip() {
    let original = "0-3,8,10-12";
    let parsed = parse_set("/test", original).unwrap();
    let formatted = format_set(&parsed);
    assert_eq!(formatted, original);
}

#[test]
fn sets_with_faults_are_refused() {
    assert!(parse_set("/test", "a").is_err());
    assert!(parse_set("/test", "1-b").is_err());
    assert!(parse_set("/test", "4294967296").is_err());
    assert_eq!(parse_set("/test", "4294967295").unwrap(), vec![u32::MAX]);
}

#[test]
fn sets_with_the_largest_number_are_written() {
    assert_eq!(format_set(&[u32::MAX, u32::MAX - 1]), "4294967294-4294967295");
}

#[test]
fn cpuset_controller_reads_and_writes() {
    let c = CpusetController::new("/cg".to_string());
    assert_eq!(pair(&c.set_cpus(&[1, 0])), ("/cg/cpuset.cpus", "0-1"));
    assert_eq!(pair(&c.set_mems(&[0])), ("/cg/cpuset.mems", "0"));
    assert_eq!(needs(c.get_cpus(None)), "/cg/cpuset.cpus");
    assert_eq!(needs(c.get_cpus_effective(None)), "/cg/cpuset.cpus.effective");
    assert_eq!(needs(c.get_mems(None)), "/cg/cpuset.mems");
    assert_eq!(needs(c.get_mems_effective(None)), "/cg/cpuset.mems.effective");
    assert_eq!(done(c.get_cpus(content("0-1\n"))).unwrap(), vec![0, 1]);
}

// --- freezer ---------------------------------------------------------------

#[test]
fn test_parse_frozen_state() {
    let freezer = FreezerController::new("/cg".to_string());
    let frozen = done(freezer.is_frozen(content("populated 1\nfrozen 1\n"))).unwrap();
    assert!(frozen);

    let frozen2 = done(freezer.is_frozen(content("populated 1\nfrozen 0\n"))).unwrap();
    assert!(!frozen2);
}

#[test]
fn freezer_writes_its_state() {
    let freezer = FreezerController::new("/cg".to_string());
    assert_eq!(pair(&freezer.freeze()), ("/cg/cgroup.freeze", "1"));
    assert_eq!(pair(&freezer.thaw()), ("/cg/cgroup.freeze", "0"));
    assert_eq!(needs(freezer.is_frozen(None)), "/cg/cgroup.events");
}

// --- io --------------------------------------------------------------------

#[test]
fn test_device_id_parse() {
    let dev = DeviceId::parse("8:0").unwrap();
    assert_eq!(dev.major, 8);
    assert_eq!(dev.minor, 0);
    assert_eq!(dev.to_string(), "8:0");
}

#[test]
fn test_device_id_parse_invalid() {
    assert!(DeviceId::parse("invalid").is_none());
    assert!(DeviceId::parse("a:b").is_none());
    assert!(DeviceId::parse("").is_none());
}

#[test]
fn test_parse_io_stat() {
    let content = "8:0 rbytes=1024 wbytes=2048 rios=10 wios=20 dbytes=0 dios=0\n\
                    259:0 rbytes=4096 wbytes=8192 rios=5 wios=15 dbytes=512 dios=1\n";
    let stats = parse_io_stat("/test/io.stat", content).unwrap();
    assert_eq!(stats.len(), 2);

    assert_eq!(stats[0].device, DeviceId { major: 8, minor: 0 });
    assert_eq!(stats[0].rbytes, 1024);
    assert_eq!(stats[0].wbytes, 2048);
    assert_eq!(stats[0].rios, 10);
    assert_eq!(stats[0].wios, 20);

    assert_eq!(stats[1].device, DeviceId { major: 259, minor: 0 });
    assert_eq!(stats[1].rbytes, 4096);
    assert_eq!(stats[1].dbytes, 512);
    assert_eq!(stats[1].dios, 1);
}

#[test]
fn test_parse_io_max() {
    let content = "8:0 rbps=1048576 wbps=max riops=100 wiops=max\n";
    let dev = DeviceId { major: 8, minor: 0 };
    let max = parse_io_max_for_device("/test/io.max", content, dev).unwrap().unwrap();
    assert_eq!(max.rbps, Some(1048576));
    assert!(max.wbps.is_none());
    assert_eq!(max.riops, Some(100));
    assert!(max.wiops.is_none());
}

#[test]
fn test_parse_io_max_device_not_found() {
    let content = "8:0 rbps=max wbps=max riops=max wiops=max\n";
    let dev = DeviceId { major: 259, minor: 0 };
    let result = parse_io_max_for_device("/test/io.max", content, dev).unwrap();
    assert!(result.is_none());
}

#[test]
fn test_parse_io_stat_empty() {
    let stats = parse_io_stat("/test/io.stat", "").unwrap();
    assert!(stats.is_empty());
}

#[test]
fn io_limits_read_back() {
    let io = IoController::new("/cg".to_string());
    let dev = DeviceId { major: 259, minor: 3 };
    let limits = IoMax { rbps: Some(10), wbps: None, riops: Some(0), wiops: None };
    let w = io.set_max(dev, &limits);
    assert_eq!(pair(&w), ("/cg/io.max", "259:3 rbps=10 wbps=max riops=0 wiops=max"));
    let back = done(io.get_max(dev, content(&w.value))).unwrap().unwrap();
    assert_eq!((back.rbps, back.wbps, back.riops, back.wiops), (Some(10), None, Some(0), None));
    assert_eq!(format_limit(Some(3)), "3");
    assert_eq!(format_limit(None), "max");
    assert_eq!(parse_io_limit("max"), None);
    assert_eq!(parse_io_limit("12"), Some(12));
}

#[test]
fn io_weight_is_bounded() {
    let io = IoController::new("/cg".to_string());
    assert!(io.set_weight(0).is_err());
    assert!(io.set_weight(10_001).is_err());
    assert_eq!(io.set_weight(500).unwrap().path, "/cg/io.weight");
    assert_eq!(done(io.get_weight(content("default 100\n"))).unwrap(), 100);
    assert!(done(io.get_weight(content("default x"))).is_err());
}

// --- pressure --------------------------------------------------------------

#[test]
fn test_parse_cpu_pressure() {
    let content = "some avg10=1.50 avg60=2.30 avg300=0.80 total=123456\n";
    let stats = parse_pressure("/test/cpu.pressure", content).unwrap();
    assert!(near(&stats.some.avg10, 1.50));
    assert!(near(&stats.some.avg60, 2.30));
    assert!(near(&stats.some.avg300, 0.80));
    assert_eq!(stats.some.total, 123456);
    assert!(stats.full.is_none());
}

#[test]
fn test_parse_memory_pressure() {
    let content = "\
some avg10=0.00 avg60=0.00 avg300=0.00 total=0
full avg10=0.00 avg60=0.00 avg300=0.00 total=0
";
    let stats = parse_pressure("/test/memory.pressure", content).unwrap();
    assert!(near(&stats.some.avg10, 0.0));
    let full = stats.full.unwrap();
    assert!(near(&full.avg10, 0.0));
    assert_eq!(full.total, 0);
}

#[test]
fn test_parse_pressure_missing_some() {
    let content = "full avg10=0.00 avg60=0.00 avg300=0.00 total=0\n";
    assert!(parse_pressure("/test/pressure", content).is_err());
}

#[test]
fn test_parse_pressure_with_values() {
    let content = "\
some avg10=10.25 avg60=5.50 avg300=1.75 total=999999
full avg10=3.14 avg60=2.71 avg300=1.41 total=500000
";
    let stats = parse_pressure("/test/io.pressure", content).unwrap();
    assert!(near(&stats.some.avg10, 10.25));
    assert!(near(&stats.some.avg60, 5.50));
    assert_eq!(stats.some.total, 999999);
    let full = stats.full.unwrap();
    assert!(near(&full.avg10, 3.14));
    assert_eq!(full.total, 500000);
}

#[test]
fn what_counts_as_a_number_is_what_can_be_parsed() {
    for s in [
        "1", "1.5", ".5", "5.", "+1", "-1", "1e3", "1E-3", "inf", "-Infinity", "nan", "NaN", "", ".", "e",
        "1e", "1e+", "1.2.3", "0x1", "1_0", " 1", "--1", "+", "infin", "1.e2", ".e2",
    ] {
        assert_eq!(float_text(s), s.parse::<f64>().is_ok(), "{s:?}");
    }
}

#[test]
fn pressure_lines_with_faults_are_refused() {
    for line in ["some avg10", "some avg10=x", "some total=-1", "some avg60=", "some avg300=1.2.3"] {
        match parse_pressure_line("/p", line) {
            Err(CgroupError::ParseError { path, content, .. }) => {
                assert_eq!(path, "/p");
                assert_eq!(content, line);
            }
            other => panic!("{other:?}"),
        }
    }
}

// --- util ------------------------------------------------------------------

#[test]
fn test_parse_u64_or_max() {
    assert_eq!(parse_u64_or_max("/test", "max").unwrap(), u64::MAX);
    assert_eq!(parse_u64_or_max("/test", "12345").unwrap(), 12345);
    assert_eq!(parse_u64_or_max("/test", "  max  ").unwrap(), u64::MAX);
    assert_eq!(parse_u64_or_max("/test", "  0  ").unwrap(), 0);
    assert!(parse_u64_or_max("/test", "abc").is_err());
}

#[test]
fn test_parse_flat_keyed() {
    let content = "usage_usec 123456\nuser_usec 100000\nsystem_usec 23456\n";
    let entries = parse_flat_keyed("/test", content).unwrap();
    assert_eq!(entries.len(), 3);
    assert_eq!(entries[0], ("usage_usec".to_string(), 123456));
    assert_eq!(entries[1], ("user_usec".to_string(), 100000));
    assert_eq!(entries[2], ("system_usec".to_string(), 23456));
}

#[test]
fn test_parse_flat_keyed_empty() {
    let entries = parse_flat_keyed("/test", "").unwrap();
    assert!(entries.is_empty());
}

#[test]
fn test_parse_flat_keyed_invalid() {
    assert!(parse_flat_keyed("/test", "key notanumber").is_err());
}

#[test]
fn test_lookup_key() {
    let entries = vec![
        ("anon".to_string(), 100),
        ("file".to_string(), 200),
        ("kernel".to_string(), 300),
    ];
    assert_eq!(lookup_key(&entries, "anon"), 100);
    assert_eq!(lookup_key(&entries, "file"), 200);
    assert_eq!(lookup_key(&entries, "missing"), 0);
}

#[test]
fn limits_read_back() {
    for n in [0u64, 1, 4096, u64::MAX - 1, u64::MAX] {
        assert_eq!(parse_u64_or_max("/m", &limit(n)).unwrap(), n);
    }
    assert_eq!(limit(u64::MAX), "max");
}

#[test]
fn failed_reads_and_writes_name_their_file() {
    match read_cgroup_file("/cg/x", Err("gone".to_string())) {
        Err(e) => assert_eq!(e.to_string(), "failed to read /cg/x: gone"),
        Ok(_) => panic!(),
    }
    assert_eq!(read_cgroup_file("/cg/x", Ok(" 7 \n".to_string())).unwrap(), "7");
    let w = FileWrite { path: "/cg/y".to_string(), value: "1".to_string() };
    match write_cgroup_file(w, Err("busy".to_string())) {
        Err(e) => assert_eq!(e.to_string(), "failed to write /cg/y: busy"),
        Ok(_) => panic!(),
    }
    match done(read_u64("/cg/z", content("1x"))) {
        Err(e) => assert!(e.to_string().starts_with("failed to parse /cg/z: "), "{}", e.to_string()),
        Ok(_) => panic!(),
    }
    assert_eq!(done(read_flat_keyed("/cg/k", content("a 1\n"))).unwrap(), vec![("a".to_string(), 1)]);
}

#[test]
fn messages_quote_what_was_read() {
    let e = CgroupError::ParseError {
        path: "/p".to_string(),
        content: "a\"b\n".to_string(),
        detail: "d".to_string(),
    };
    assert_eq!(e.to_string(), format!("failed to parse /p: d (content: {:?})", "a\"b\n"));
    let e = CgroupError::InvalidValue {
        field: "f".to_string(),
        value: "v\\".to_string(),
        expected: "1-10000".to_string(),
    };
    assert_eq!(e.to_string(), format!("invalid value for f: {:?} (expected 1-10000)", "v\\"));
    let e = CgroupError::ControllerNotAvailable {
        controller: "io".to_string(),
        path: "/cg".to_string(),
    };
    assert_eq!(e.to_string(), "controller \"io\" not available at /cg");
    assert_eq!(
        CgroupError::NotFound("/cg".to_string()).to_string(),
        "cgroup path not found: /cg"
    );
}

#[test]
fn paths_are_joined() {
    assert_eq!(join("/a", "b"), "/a/b");
    assert_eq!(join("/a/", "b"), "/a/b");
    assert_eq!(join("", "b"), "b");
}

// --- memory, pids ----------------------------------------------------------

#[test]
fn memory_controller_reads_and_writes() {
    let m = MemoryController::new("/cg".to_string());
    assert_eq!(pair(&m.set_max(u64::MAX)), ("/cg/memory.max", "max"));
    assert_eq!(pair(&m.set_min(1)), ("/cg/memory.min", "1"));
    assert_eq!(pair(&m.set_low(2)), ("/cg/memory.low", "2"));
    assert_eq!(pair(&m.set_high(3)), ("/cg/memory.high", "3"));
    assert_eq!(pair(&m.set_swap_max(4)), ("/cg/memory.swap.max", "4"));
    assert_eq!(pair(&m.set_oom_group(true)), ("/cg/memory.oom.group", "1"));
    assert_eq!(pair(&m.set_oom_group(false)), ("/cg/memory.oom.group", "0"));
    assert_eq!(done(m.get_max(content("max\n"))).unwrap(), u64::MAX);
    assert_eq!(done(m.get_current(content("42\n"))).unwrap(), 42);
    assert!(done(m.get_oom_group(content("1\n"))).unwrap());
    assert!(!done(m.get_oom_group(content("0\n"))).unwrap());
    let stat = done(m.get_stat(content("anon 1\nfile 2\npgfault 9\nunknown 5\n"))).unwrap();
    assert_eq!((stat.anon, stat.file, stat.pgfault, stat.kernel), (1, 2, 9, 0));
    let events = done(m.get_events(content("low 0\nhigh 1\nmax 2\noom 3\noom_kill 4\noom_group_kill 5\n"))).unwrap();
    assert_eq!((events.high, events.oom_kill, events.oom_group_kill), (1, 4, 5));
}

#[test]
fn pids_controller_reads_and_writes() {
    let p = PidsController::new("/cg".to_string());
    assert_eq!(pair(&p.set_max(64)), ("/cg/pids.max", "64"));
    assert_eq!(pair(&p.set_max(u64::MAX)), ("/cg/pids.max", "max"));
    assert_eq!(done(p.get_max(content("max"))).unwrap(), u64::MAX);
    assert_eq!(done(p.get_current(content("3\n"))).unwrap(), 3);
}

// --- manager ---------------------------------------------------------------

#[test]
fn managers_open_existing_cgroups_only() {
    let m = CgroupManager::for_vm("vm-1", true).unwrap();
    assert_eq!(m.path(), "/sys/fs/cgroup/fluxvm.slice/vm-1.scope");
    match CgroupManager::for_vm("vm-1", false) {
        Err(CgroupError::NotFound(p)) => assert_eq!(p, "/sys/fs/cgroup/fluxvm.slice/vm-1.scope"),
        other => panic!("{other:?}"),
    }
    assert!(CgroupManager::from_path("/elsewhere".to_string(), false).is_err());
    assert_eq!(CgroupPath::for_vm("a").path(), "/sys/fs/cgroup/fluxvm.slice/a.scope");
}

#[test]
fn a_process_is_moved_into_its_cgroup() {
    let step = CgroupManager::create_and_migrate("vm-1", 77);
    assert_eq!(step.directory, "/sys/fs/cgroup/fluxvm.slice/vm-1.scope");
    assert_eq!(
        pair(&step.procs),
        ("/sys/fs/cgroup/fluxvm.slice/vm-1.scope/cgroup.procs", "77")
    );
    assert_eq!(step.manager.remove(), "/sys/fs/cgroup/fluxvm.slice/vm-1.scope");
}

#[test]
fn only_offered_controllers_are_delegated() {
    let writes = ensure_delegation("/cg", Ok("cpu io rdma\n".to_string()));
    let pairs: Vec<(&str, &str)> = writes.iter().map(pair).collect();
    assert_eq!(
        pairs,
        vec![("/cg/cgroup.subtree_control", "+cpu"), ("/cg/cgroup.subtree_control", "+io")]
    );
    assert!(ensure_delegation("/cg", Err("no".to_string())).is_empty());
    assert_eq!(
        delegation_roots(),
        vec!["/sys/fs/cgroup".to_string(), "/sys/fs/cgroup/fluxvm.slice".to_string()]
    );
}

#[test]
fn managers_read_events_and_controllers() {
    let m = CgroupManager::from_path("/cg".to_string(), true).unwrap();
    let e = done(m.events(content("populated 1\nfrozen 0\n"))).unwrap();
    assert!(e.populated);
    assert!(!e.frozen);
    assert_eq!(
        done(m.available_controllers(content("cpu memory\n"))).unwrap(),
        vec!["cpu".to_string(), "memory".to_string()]
    );
    assert_eq!(needs(m.events(None)), "/cg/cgroup.events");
    assert_eq!(m.cpu().path, "/cg");
    assert_eq!(m.memory().path, "/cg");
    assert_eq!(m.io().path, "/cg");
    assert_eq!(m.pids().path, "/cg");
    assert_eq!(m.cpuset().path, "/cg");
    assert_eq!(m.freezer().path, "/cg");
}

#[test]
fn limits_of_several_devices_read_back() {
    let io = IoController::new("/cg".to_string());
    let a = DeviceId { major: 8, minor: 0 };
    let b = DeviceId { major: 259, minor: 1 };
    let of_a = IoMax { rbps: Some(10), wbps: None, riops: Some(0), wiops: None };
    let of_b = IoMax { rbps: None, wbps: Some(7), riops: None, wiops: Some(3) };
    let file = format!("{}\n{}\n", io.set_max(a, &of_a).value, io.set_max(b, &of_b).value);
    let read = |d: DeviceId| parse_io_max_for_device("/cg/io.max", file.trim(), d).unwrap();
    assert_eq!(read(a).unwrap().rbps, Some(10));
    assert_eq!(read(b).unwrap().wiops, Some(3));
    assert_eq!(read(b).unwrap().rbps, None);
    assert!(read(DeviceId { major: 8, minor: 1 }).is_none());
}
