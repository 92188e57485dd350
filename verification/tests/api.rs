use fluxvm::api::auth::{
    after_check, authenticate, counted_as, extract_vm_uuid, first_segment, guarded, require_admin,
    tenant_guard, throttled, unauthorized, Admission, AuthPolicy, Caller, Credentials, Role, TokenEntry,
};
use fluxvm::api::metrics::{render_metrics, Counters};
use fluxvm::api::oidc::{
    build_oidc, judge, parse_role, read_discovery, read_identity, KeySource, OidcValidator, SigningAlgorithm, Verdict,
    KEY_LIFETIME_SECS,
};
use fluxvm::api::records::{
    enforce_token_quotas, list_pools, list_sandboxes, list_vms, pool_tenant, pool_visible_to, reach_pool,
    vm_tenant, PoolRecord, Quotas, VmRecord,
};
use fluxvm::api::requests::{
    default_catalog_format, default_console_cols, default_console_rows, default_hubble_limit,
    default_log_lines, default_network_flow_limit, default_service_flow_limit, delta_window,
    flows_unreadable, guest_command, passes_header, plan_proxy, policy_not_found, proxy_port, rate_setting,
    readyz, relay_step, runtime_capabilities, service_not_found, FrameKind, GuestCommand, LogTail,
    ProxyStage, RateSetting, RelayStep,
};
use fluxvm::api::routes::{routes, Endpoint, Verb, ROUTES};
use fluxvm::json::Json;
use fluxvm::vm::{BackendKind, VmStatus};

const NO_COUNTERS: Counters = Counters {
    auth_deny_total: 0,
    egress_deny_total: 0,
    vm_create_total: 0,
    vm_create_duration_ms_total: 0,
    vm_start_total: 0,
    vm_start_duration_ms_total: 0,
};

fn fixture(backend: BackendKind, status: VmStatus, agent_enabled: bool) -> VmRecord {
    VmRecord {
        name: "fixture".into(),
        tenant: None,
        backend,
        status,
        agent_enabled,
        memory_mib: 512,
    }
}

fn owned(backend: BackendKind, name: &str, tenant: Option<&str>) -> VmRecord {
    let mut vm = fixture(backend, VmStatus::Running, true);
    vm.name = name.into();
    vm.tenant = some(tenant);
    vm
}

fn pool(name: &str, tenant: Option<&str>) -> PoolRecord {
    PoolRecord { name: name.into(), tenant: some(tenant) }
}

fn some(s: Option<&str>) -> Option<String> {
    s.map(str::to_string)
}

fn token(token: &str, role: Role, name: Option<&str>, tenant: Option<&str>) -> TokenEntry {
    TokenEntry { token: token.into(), role, name: some(name), tenant: some(tenant) }
}

fn policy(tokens: Vec<TokenEntry>) -> AuthPolicy {
    AuthPolicy {
        must_authenticate: !tokens.is_empty(),
        has_credentials: !tokens.is_empty(),
        tokens,
        oidc: false,
        mtls: false,
    }
}

fn bearer(t: Option<&str>) -> Credentials {
    Credentials {
        authorization: t.map(|t| format!("Bearer {t}")),
        cert_cn: None,
        cert_role: None,
        cert_tenant: None,
    }
}

fn known(p: &AuthPolicy, path: &str, t: Option<&str>) -> Option<Caller> {
    match authenticate(p, path, &bearer(t)) {
        Admission::Known(c) => Some(c),
        _ => None,
    }
}

fn json(s: &str) -> Json {
    Json::parse(s).unwrap()
}

// --- metrics ----------------------------------------------------------------

#[test]
fn counts_by_status_and_backend() {
    let vms = vec![
        fixture(BackendKind::Qemu, VmStatus::Running, true),
        fixture(BackendKind::Qemu, VmStatus::Paused, false),
        fixture(BackendKind::CloudHypervisor, VmStatus::Running, false),
        fixture(BackendKind::Firecracker, VmStatus::Failed, false),
    ];
    let out = render_metrics(&vms, &NO_COUNTERS);

    assert!(out.contains("fluxvm_vms_total{status=\"running\"} 2"));
    assert!(out.contains("fluxvm_vms_total{status=\"paused\"} 1"));
    assert!(out.contains("fluxvm_vms_total{status=\"stopped\"} 0"));
    assert!(out.contains("fluxvm_vms_total{status=\"failed\"} 1"));

    assert!(out.contains("fluxvm_vms_by_backend{backend=\"qemu\"} 2"));
    assert!(out.contains("fluxvm_vms_by_backend{backend=\"cloud-hypervisor\"} 1"));
    assert!(out.contains("fluxvm_vms_by_backend{backend=\"firecracker\"} 1"));

    assert!(out.contains("fluxvm_vms_agent_enabled 1"));
}

#[test]
fn empty_fleet_still_renders_zeroed_gauges() {
    let out = render_metrics(&vec![], &NO_COUNTERS);
    assert!(out.contains("fluxvm_vms_total{status=\"running\"} 0"));
    assert!(out.contains("fluxvm_vms_agent_enabled 0"));
}

#[test]
fn counters_are_rendered_with_their_names() {
    let counters = Counters {
        auth_deny_total: 1,
        egress_deny_total: 2,
        vm_create_total: 3,
        vm_create_duration_ms_total: 4,
        vm_start_total: 5,
        vm_start_duration_ms_total: 6,
    };
    let out = render_metrics(&vec![], &counters);
    assert!(out.contains("\nfluxvm_auth_deny_total 1\n"));
    assert!(out.contains("\nfluxvm_egress_deny_total 2\n"));
    assert!(out.contains("\nfluxvm_vm_create_total 3\n"));
    assert!(out.contains("\nfluxvm_vm_create_duration_ms_total 4\n"));
    assert!(out.contains("\nfluxvm_vm_start_total 5\n"));
    assert!(out.ends_with("\nfluxvm_vm_start_duration_ms_total 6\n"));
    assert!(out.starts_with(
        "# HELP fluxvm_vms_total Number of VMs known to this fluxvm instance, by status.\n\
         # TYPE fluxvm_vms_total gauge\n\
         fluxvm_vms_total{status=\"creating\"} 0\n"
    ));
}

// --- senders ----------------------------------------------------------------

#[test]
fn auth_disabled_allows_unauthenticated_requests() {
    let caller = known(&policy(vec![]), "/v1/vms", None).unwrap();
    assert_eq!(caller.role, Role::Admin);
    assert_eq!(caller.actor, "anonymous-admin");
    assert!(Endpoint::ListVms.permit(caller.role).is_ok());
}

#[test]
fn missing_token_is_rejected_when_auth_is_enabled() {
    let p = policy(vec![token("secret", Role::Admin, None, None)]);
    assert!(matches!(authenticate(&p, "/v1/vms", &bearer(None)), Admission::Denied));
    assert_eq!(unauthorized().status, 401);
}

#[test]
fn wrong_token_is_rejected() {
    let p = policy(vec![token("secret", Role::Admin, None, None)]);
    assert!(matches!(authenticate(&p, "/v1/vms", &bearer(Some("nope"))), Admission::Denied));
}

#[test]
fn healthz_is_reachable_without_a_token_even_when_auth_is_enabled() {
    let p = policy(vec![token("secret", Role::Admin, None, None)]);
    assert!(matches!(authenticate(&p, "/healthz", &bearer(None)), Admission::Probe));
    assert!(matches!(authenticate(&p, "/readyz", &bearer(None)), Admission::Probe));
}

#[test]
fn readonly_token_can_list_but_not_create() {
    let p = policy(vec![token("ro", Role::ReadOnly, None, None)]);
    let caller = known(&p, "/v1/vms", Some("ro")).unwrap();
    assert!(Endpoint::ListVms.permit(caller.role).is_ok());
    let err = Endpoint::CreateVm.permit(caller.role).err().unwrap();
    assert_eq!((err.status, err.message.as_str()), (403, "admin role required"));
}

#[test]
fn readonly_token_cannot_call_egress_check() {
    let p = policy(vec![token("ro", Role::ReadOnly, None, None)]);
    let caller = known(&p, "/v1/egress/check", Some("ro")).unwrap();
    assert_eq!(Endpoint::EgressCheck.permit(caller.role).err().unwrap().status, 403);
}

#[test]
fn admin_token_can_call_egress_check() {
    let p = policy(vec![token("admin", Role::Admin, None, None)]);
    let caller = known(&p, "/v1/egress/check", Some("admin")).unwrap();
    assert!(Endpoint::EgressCheck.permit(caller.role).is_ok());
}

#[test]
fn admin_token_passes_auth_for_a_mutating_route() {
    let p = policy(vec![token("admin", Role::Admin, None, None)]);
    let caller = known(&p, "/v1/vms", Some("admin")).unwrap();
    assert!(Endpoint::CreateVm.permit(caller.role).is_ok());
    assert!(require_admin(caller.role).is_ok());
    assert!(require_admin(Role::ReadOnly).is_err());
}

#[test]
fn certificates_are_read_where_they_are_trusted() {
    let mut p = policy(vec![]);
    p.must_authenticate = true;
    let c = Credentials {
        authorization: None,
        cert_cn: Some("node-1".to_string()),
        cert_role: Some("admin".to_string()),
        cert_tenant: Some("acme".to_string()),
    };
    assert!(matches!(authenticate(&p, "/v1/vms", &c), Admission::Denied));
    p.mtls = true;
    p.has_credentials = true;
    match authenticate(&p, "/v1/vms", &c) {
        Admission::Known(caller) => {
            assert_eq!(caller.role, Role::Admin);
            assert!(caller.actor.contains("node-1"));
            assert_eq!(caller.tenant.as_deref(), Some("acme"));
        }
        other => panic!("{other:?}"),
    }
}

#[test]
fn unknown_tokens_are_put_to_the_provider() {
    let mut p = policy(vec![token("secret", Role::Admin, Some("ops"), Some("acme"))]);
    p.oidc = true;
    match authenticate(&p, "/v1/vms", &bearer(Some("a.b.c"))) {
        Admission::Ask(t) => assert_eq!(t, "a.b.c"),
        other => panic!("{other:?}"),
    }
    let caller = known(&p, "/v1/vms", Some("secret")).unwrap();
    assert_eq!((caller.actor.as_str(), caller.tenant.as_deref()), ("ops", Some("acme")));
    assert!(matches!(after_check(Verdict::Refuse("no".to_string())), Admission::Denied));
}

// --- rates ------------------------------------------------------------------

#[test]
fn caller_is_throttled_past_burst_with_retry_after_set() {
    let (err, retry_after) = throttled(0);
    assert_eq!(err.status, 429);
    assert_eq!(err.message, "too many requests; try again later");
    assert_eq!(retry_after, 1);
    assert_eq!(throttled(7).1, 8);
}

#[test]
fn healthz_is_never_rate_limited() {
    assert_eq!(counted_as("/healthz", &some(Some("alice"))), None);
    assert_eq!(counted_as("/readyz", &None), None);
    assert_eq!(counted_as("/v1/vms", &some(Some("alice"))).as_deref(), Some("alice"));
    assert_eq!(counted_as("/v1/vms", &None).as_deref(), Some("unknown"));
}

#[test]
fn unset_config_applies_no_rate_limiting_at_all() {
    assert_eq!(rate_setting(false, false), RateSetting::Off);
    assert_eq!(rate_setting(true, false), RateSetting::HalfSet);
    assert_eq!(rate_setting(false, true), RateSetting::HalfSet);
    assert_eq!(rate_setting(true, true), RateSetting::On);
}

// --- tenants ----------------------------------------------------------------

#[test]
fn list_sandboxes_only_returns_the_callers_own_tenant() {
    let vms = vec![
        owned(BackendKind::FluxVm, "a", Some("acme")),
        owned(BackendKind::FluxVm, "b", Some("other")),
        owned(BackendKind::Qemu, "c", Some("acme")),
    ];
    assert_eq!(list_sandboxes(&vms, &some(Some("acme"))), vec![0]);
    assert_eq!(list_sandboxes(&vms, &None), vec![0, 1]);
}

#[test]
fn machines_are_listed_by_name_and_tenant() {
    let vms = vec![
        owned(BackendKind::Qemu, "a", Some("acme")),
        owned(BackendKind::Qemu, "b", None),
        owned(BackendKind::Qemu, "a", Some("other")),
    ];
    assert_eq!(list_vms(&vms, &None, &None, &None).ok().unwrap(), vec![0, 1, 2]);
    assert_eq!(list_vms(&vms, &None, &some(Some("a")), &None).ok().unwrap(), vec![0, 2]);
    assert_eq!(list_vms(&vms, &None, &None, &some(Some("other"))).ok().unwrap(), vec![2]);
    assert_eq!(list_vms(&vms, &some(Some("acme")), &None, &None).ok().unwrap(), vec![0]);
    assert_eq!(
        list_vms(&vms, &some(Some("acme")), &None, &some(Some("acme"))).ok().unwrap(),
        vec![0]
    );
    let err = list_vms(&vms, &some(Some("acme")), &None, &some(Some("other"))).err().unwrap();
    assert_eq!(
        (err.status, err.message.as_str()),
        (403, "token tenant 'acme' cannot list tenant 'other'")
    );
}

#[test]
fn sandbox_id_routes_are_tenant_scoped_like_vm_routes() {
    let id = uuid::Uuid::from_u128(7).to_string();
    let path = format!("/v1/sandboxes/{id}/process");
    let other = some(Some("other"));
    assert_eq!(guarded(&other, &path).as_deref(), Some(id.as_str()));
    let owner = Some(some(Some("acme")));
    let err = tenant_guard(&other, &owner).err().unwrap();
    assert_eq!((err.status, err.message.as_str()), (404, "VM not found"));
    assert!(tenant_guard(&some(Some("acme")), &owner).is_ok());
    assert_eq!(tenant_guard(&other, &None).err().unwrap().status, 404);
    assert_eq!(tenant_guard(&other, &Some(None)).err().unwrap().status, 404);
    assert!(tenant_guard(&None, &None).is_ok());
    assert_eq!(guarded(&None, &path), None);
}

#[test]
fn identifiers_are_read_from_paths() {
    let id = uuid::Uuid::from_u128(0x1234);
    let plain = id.to_string();
    assert_eq!(extract_vm_uuid(&format!("/v1/vms/{plain}")).as_deref(), Some(plain.as_str()));
    let upper = id.simple().to_string().to_uppercase();
    assert_eq!(
        extract_vm_uuid(&format!("/v1/vms/{upper}/stop")).as_deref(),
        Some(plain.as_str())
    );
    assert_eq!(extract_vm_uuid("/v1/vms/"), None);
    assert_eq!(extract_vm_uuid("/v1/vms/x"), None);
    assert_eq!(extract_vm_uuid(&format!("/v1/pools/{plain}")), None);
    assert_eq!(first_segment(&format!("{plain}/x")).as_deref(), Some(plain.as_str()));
}

#[test]
fn list_pools_only_returns_the_callers_own_tenant() {
    let pools = vec![pool("acme-pool", Some("acme")), pool("other-pool", Some("other"))];
    let items = list_pools(&pools, &some(Some("acme")));
    assert_eq!(items.len(), 1, "expected exactly one pool");
    assert_eq!(pools[items[0]].name, "acme-pool");
    assert_eq!(list_pools(&pools, &None), vec![0, 1]);
}

#[test]
fn pool_by_name_routes_are_tenant_scoped() {
    let p = pool("acme-pool", Some("acme"));
    let err = reach_pool(&p, &some(Some("other"))).err().unwrap();
    assert_eq!((err.status, err.message.as_str()), (404, "pool not found"));
    assert!(reach_pool(&p, &some(Some("acme"))).is_ok());
    assert!(pool_visible_to(&p, &None));
    assert!(!pool_visible_to(&pool("p", None), &some(Some("acme"))));
}

#[test]
fn resize_pool_route_is_tenant_scoped() {
    let p = pool("acme-pool", Some("acme"));
    assert!(Endpoint::ResizePool.permit(Role::Admin).is_ok());
    assert_eq!(reach_pool(&p, &some(Some("other"))).err().unwrap().status, 404);
    assert!(reach_pool(&p, &some(Some("acme"))).is_ok());
    assert_eq!(Endpoint::ResizePool.success_status(), 200);
}

#[test]
fn resize_pool_route_requires_admin() {
    assert_eq!(Endpoint::ResizePool.permit(Role::ReadOnly).err().unwrap().status, 403);
    assert!(Endpoint::ResizePool.permit(Role::Admin).is_ok());
}

#[test]
fn create_pool_forces_the_callers_own_tenant() {
    let t = pool_tenant(&some(Some("acme")), &None).ok().unwrap();
    assert_eq!(t.as_deref(), Some("acme"));
}

#[test]
fn create_pool_rejects_a_template_tenant_mismatch() {
    let err = pool_tenant(&some(Some("acme")), &some(Some("other"))).err().unwrap();
    assert_eq!(
        (err.status, err.message.as_str()),
        (403, "token tenant 'acme' cannot create a pool for tenant 'other'")
    );
}

#[test]
fn machines_are_created_for_the_callers_own_tenant() {
    assert_eq!(vm_tenant(&some(Some("acme")), &None).ok().unwrap().as_deref(), Some("acme"));
    assert_eq!(vm_tenant(&None, &some(Some("x"))).ok().unwrap().as_deref(), Some("x"));
    assert_eq!(vm_tenant(&None, &None).ok().unwrap(), None);
    let err = vm_tenant(&some(Some("acme")), &some(Some("other"))).err().unwrap();
    assert_eq!(err.message, "token tenant 'acme' cannot create VM for tenant 'other'");
}

#[test]
fn quotas_limit_senders() {
    let vms = vec![
        fixture(BackendKind::Qemu, VmStatus::Running, false),
        fixture(BackendKind::Qemu, VmStatus::Running, false),
    ];
    let alice = some(Some("alice"));
    let none = Quotas { max_vms: None, max_memory_mib: None };
    assert!(enforce_token_quotas(&alice, none, &vms, 1).is_ok());
    let vm = Quotas { max_vms: Some(2), max_memory_mib: None };
    let err = enforce_token_quotas(&alice, vm, &vms, 1).err().unwrap();
    assert_eq!((err.status, err.message.as_str()), (403, "token 'alice' at max_vms_per_token (2)"));
    let mem = Quotas { max_vms: None, max_memory_mib: Some(2048) };
    assert!(enforce_token_quotas(&alice, mem, &vms, 1024).is_ok());
    let err = enforce_token_quotas(&alice, mem, &vms, 1025).err().unwrap();
    assert_eq!(
        err.message,
        "token 'alice' would exceed max_memory_mib_per_token (2048)"
    );
    assert!(enforce_token_quotas(&alice, mem, &vms, u64::MAX).is_err());
    for free in [None, Some("anonymous-admin"), Some("none")] {
        assert!(enforce_token_quotas(&some(free), vm, &vms, u64::MAX).is_ok());
    }
}

// --- routes -----------------------------------------------------------------

#[test]
fn the_table_is_complete() {
    let table = routes();
    assert_eq!(table.len(), ROUTES);
    let mut seen: Vec<(Verb, &str)> = Vec::new();
    for r in &table {
        assert!(!seen.contains(&(r.verb, r.pattern)), "{} is served twice", r.pattern);
        seen.push((r.verb, r.pattern));
        assert_eq!(r.verb, r.endpoint.verb());
        assert_eq!(r.pattern, r.endpoint.pattern());
    }
    let at = |verb: Verb, pattern: &str| {
        table.iter().find(|r| r.verb == verb && r.pattern == pattern).map(|r| r.endpoint)
    };
    assert_eq!(at(Verb::Get, "/v1/vms"), Some(Endpoint::ListVms));
    assert_eq!(at(Verb::Post, "/v1/vms"), Some(Endpoint::CreateVm));
    assert_eq!(at(Verb::Delete, "/v1/vms/{id}"), Some(Endpoint::DeleteVm));
    assert_eq!(at(Verb::Any, "/sandbox/{id}/{*path}"), Some(Endpoint::SandboxHttpProxyDefaultPort));
}

#[test]
fn changes_need_an_administrator() {
    for r in routes() {
        if r.verb == Verb::Post || r.verb == Verb::Delete {
            assert!(r.endpoint.needs_admin(), "{}", r.pattern);
        }
    }
    assert!(Endpoint::AgentConsole.needs_admin());
    assert!(!Endpoint::VmStats.needs_admin());
}

// --- single requests --------------------------------------------------------

#[test]
fn requests_reach_programs_in_sandboxes() {
    let woken = Ok(Some("10.0.0.2".to_string()));
    assert_eq!(
        plan_proxy(&woken, 8080, "a/b", Some("x=1")).ok().unwrap(),
        "http://10.0.0.2:8080/a/b?x=1"
    );
    assert_eq!(plan_proxy(&woken, 80, "", None).ok().unwrap(), "http://10.0.0.2:80/");
    let err = plan_proxy(&Ok(None), 80, "", None).err().unwrap();
    assert_eq!(
        (err.status, err.message.as_str()),
        (400, "sandbox has no guest_ip (use network.mode=tap with netns for HTTP proxy)")
    );
    let err = plan_proxy(&Err("gone".to_string()), 80, "", None).err().unwrap();
    assert_eq!((err.status, err.message.as_str()), (502, "resume/get sandbox: gone"));
    let err = ProxyStage::Body.fault("big");
    assert_eq!((err.status, err.message.as_str()), (400, "body: big"));
    let err = ProxyStage::Upstream.fault("x");
    assert_eq!((err.status, err.message.as_str()), (502, "guest upstream: x"));
    assert!(!passes_header("host"));
    assert!(passes_header("accept"));
    assert_eq!((proxy_port(Some(1), 2), proxy_port(None, 2)), (1, 2));
}

#[test]
fn readiness_has_a_status() {
    assert_eq!(readyz(Ok(json(r#"{"ok":true}"#))).0, 200);
    assert_eq!(readyz(Ok(json(r#"{"ok":false}"#))).0, 503);
    assert_eq!(readyz(Ok(json(r#"{}"#))).0, 503);
    let (status, body) = readyz(Err("down".to_string()));
    assert_eq!(status, 503);
    let body = body.to_value();
    assert_eq!(body["ok"], false);
    assert_eq!(body["error"], "down");
}

#[test]
fn guest_commands_are_settled() {
    match guest_command(some(Some("cmd.exe")), vec!["/c".to_string()], some(Some("dir"))) {
        Ok(GuestCommand::Powershell(line)) => assert_eq!(line, "dir"),
        other => panic!("{other:?}"),
    }
    match guest_command(some(Some("cmd.exe")), vec!["/c".to_string()], None) {
        Ok(GuestCommand::Program { path, args }) => {
            assert_eq!((path.as_str(), args.len()), ("cmd.exe", 1))
        }
        other => panic!("{other:?}"),
    }
    let err = guest_command(None, vec![], None).err().unwrap();
    assert_eq!(
        (err.status, err.message.as_str()),
        (400, "qga exec requires `path` or `powershell`")
    );
}

#[test]
fn the_end_of_a_log_is_kept() {
    let mut tail = LogTail::new(2);
    for line in ["a\n", "b\n", "c\n"] {
        tail.push(line.to_string());
    }
    assert_eq!(tail.finish(), vec!["b\n".to_string(), "c\n".to_string()]);
    let mut one = LogTail::new(0);
    one.push("a".to_string());
    one.push("b".to_string());
    assert_eq!(one.finish(), vec!["b".to_string()]);
}

#[test]
fn usual_values_are_taken() {
    assert_eq!(default_network_flow_limit(), 100);
    assert_eq!(default_service_flow_limit(), 256);
    assert_eq!(default_hubble_limit(), 64);
    assert_eq!(default_log_lines(), 100);
    assert_eq!((default_console_cols(), default_console_rows()), (80, 24));
    assert_eq!(default_catalog_format(), "qcow2");
    assert_eq!(delta_window(None, None), (0, 1024));
    assert_eq!(delta_window(Some(3), Some(4)), (3, 4));
    let err = service_not_found("web");
    assert_eq!((err.status, err.message.as_str()), (404, "service 'web' not found"));
    let err = policy_not_found("web");
    assert_eq!((err.status, err.message.as_str()), (404, "service policy 'web' not found"));
    let err = flows_unreadable("no map");
    assert_eq!((err.status, err.message.as_str()), (500, "error: no map\n"));
    assert_eq!(relay_step(FrameKind::Text), RelayStep::Forward);
    assert_eq!(relay_step(FrameKind::Close), RelayStep::End);
    assert_eq!(relay_step(FrameKind::Other), RelayStep::Skip);
}

#[test]
fn a_node_tells_what_it_can_do() {
    let c = runtime_capabilities();
    assert_eq!(c.api_version, "runtime.fluxvm.zyvor.io/v1");
    assert_eq!(c.migration.len(), 1);
    assert_eq!(c.migration[0].transports, vec!["tcp".to_string(), "unix".to_string()]);
    assert_eq!(c.snapshot.len(), 4);
    assert!(!c.snapshot[2].memory);
    assert!(c.snapshot[3].memory);
}

// --- identity providers -----------------------------------------------------

const X: &str = "axfR8uEsQkf4vOblY6RA8ncDfYEt6zOg9KE5RdiYwpY";
const Y: &str = "T-NC4v4af5uO5-tKfA-eFivOM1drMV7Oy7ZAaDe_UfU";

/// The key pair whose private number is one.
fn signing_key() -> jsonwebtoken::EncodingKey {
    let mut der: Vec<u8> = vec![
        0x30, 0x81, 0x87, 0x02, 0x01, 0x00, 0x30, 0x13, 0x06, 0x07, 0x2a, 0x86, 0x48, 0xce, 0x3d, 0x02,
        0x01, 0x06, 0x08, 0x2a, 0x86, 0x48, 0xce, 0x3d, 0x03, 0x01, 0x07, 0x04, 0x6d, 0x30, 0x6b, 0x02,
        0x01, 0x01, 0x04, 0x20,
    ];
    der.extend(vec![0u8; 31]);
    der.push(1);
    der.extend([0xa1, 0x44, 0x03, 0x42, 0x00, 0x04]);
    der.extend([
        0x6b, 0x17, 0xd1, 0xf2, 0xe1, 0x2c, 0x42, 0x47, 0xf8, 0xbc, 0xe6, 0xe5, 0x63, 0xa4, 0x40, 0xf2,
        0x77, 0x03, 0x7d, 0x81, 0x2d, 0xeb, 0x33, 0xa0, 0xf4, 0xa1, 0x39, 0x45, 0xd8, 0x98, 0xc2, 0x96,
        0x4f, 0xe3, 0x42, 0xe2, 0xfe, 0x1a, 0x7f, 0x9b, 0x8e, 0xe7, 0xeb, 0x4a, 0x7c, 0x0f, 0x9e, 0x16,
        0x2b, 0xce, 0x33, 0x57, 0x6b, 0x31, 0x5e, 0xce, 0xcb, 0xb6, 0x40, 0x68, 0x37, 0xbf, 0x51, 0xf5,
    ]);
    jsonwebtoken::EncodingKey::from_ec_der(&der)
}

fn signed(kid: Option<&str>, claims: &str) -> String {
    let mut header = jsonwebtoken::Header::new(jsonwebtoken::Algorithm::ES256);
    header.kid = some(kid);
    let claims: serde_json::Value = serde_json::from_str(claims).unwrap();
    jsonwebtoken::encode(&header, &claims, &signing_key()).unwrap()
}

fn published() -> String {
    format!(
        r#"{{"keys":[
            {{"kty":"EC","crv":"P-256","kid":"k1","alg":"ES256","use":"sig","x":"{X}","y":"{Y}"}},
            {{"kty":"EC","crv":"P-256","alg":"ES256","x":"{X}","y":"{Y}"}}
        ]}}"#
    )
}

fn validator() -> OidcValidator {
    let mut v = build_oidc(&some(Some("https://id/")), &some(Some("fluxvm"))).unwrap();
    v.refresh(&published(), "https://id/keys".to_string(), 100).unwrap();
    v
}

const CLAIMS: &str = r#"{"iss":"https://id","aud":"fluxvm","exp":4102444800,"sub":"u1","preferred_username":"alice","fluxvm_role":"Admin","tenant":"acme"}"#;

#[test]
fn signed_tokens_are_accepted() {
    let v = validator();
    assert_eq!(v.keys.get("k1").unwrap().algorithm, SigningAlgorithm::ES256);
    match v.validate(&signed(Some("k1"), CLAIMS), 200, None) {
        Verdict::Accept(i) => {
            assert_eq!(i.role, Role::Admin);
            assert_eq!(i.actor, "alice");
            assert_eq!(i.tenant.as_deref(), Some("acme"));
        }
        other => panic!("{other:?}"),
    }
    match after_check(v.validate_refreshed(&signed(Some("k1"), CLAIMS), None)) {
        Admission::Known(c) => assert_eq!(c.tenant.as_deref(), Some("acme")),
        other => panic!("{other:?}"),
    }
}

#[test]
fn tokens_for_others_are_refused() {
    let v = validator();
    for claims in [
        r#"{"iss":"https://evil","aud":"fluxvm","exp":4102444800}"#,
        r#"{"iss":"https://id","aud":"other","exp":4102444800}"#,
        r#"{"iss":"https://id","aud":"fluxvm","exp":1}"#,
        r#"{"iss":"https://id","aud":"fluxvm"}"#,
        r#"{"iss":"https://id","aud":"fluxvm","exp":4102444800,"role":7}"#,
    ] {
        match v.validate(&signed(Some("k1"), claims), 200, None) {
            Verdict::Refuse(m) => assert!(m.starts_with("OIDC JWT validate: "), "{m}"),
            other => panic!("{claims}: {other:?}"),
        }
    }
    let mut forged = signed(Some("k1"), CLAIMS);
    forged.truncate(forged.len() - 4);
    forged.push_str("AAAA");
    assert!(matches!(v.validate(&forged, 200, None), Verdict::Refuse(_)));
}

#[test]
fn keys_are_fetched_when_they_are_missing_or_old() {
    let v = validator();
    let token = signed(Some("k1"), CLAIMS);
    assert!(matches!(v.validate(&token, 100 + KEY_LIFETIME_SECS, None), Verdict::Refresh));
    assert!(matches!(v.validate(&signed(Some("k2"), CLAIMS), 200, None), Verdict::Refresh));
    match v.validate_refreshed(&signed(Some("k2"), CLAIMS), None) {
        Verdict::Refuse(m) => assert_eq!(m, "OIDC JWKS has no key for kid=k2"),
        other => panic!("{other:?}"),
    }
    match v.validate(&signed(None, CLAIMS), 200, None) {
        Verdict::Refuse(m) => assert_eq!(m, "OIDC JWT missing kid"),
        other => panic!("{other:?}"),
    }
    match v.validate("nonsense", 200, None) {
        Verdict::Refuse(m) => assert!(m.starts_with("OIDC JWT header: "), "{m}"),
        other => panic!("{other:?}"),
    }
}

#[test]
fn broken_keys_change_nothing() {
    let mut v = validator();
    assert!(v.refresh("{", "u".to_string(), 300).err().unwrap().starts_with("parse JWKS: "));
    assert!(v.keys.get("k1").is_some());
    assert_eq!(v.fetched_at, Some(100));
    let unusable = r#"{"keys":[{"kty":"EC","crv":"P-256","kid":"bad","x":"***","y":"***"}]}"#;
    v.refresh(unusable, "u".to_string(), 300).unwrap();
    assert!(v.keys.get("bad").is_none());
    assert!(v.keys.get("k1").is_none());
    assert_eq!(v.fetched_at, Some(300));
}

#[test]
fn providers_are_described() {
    let v = OidcValidator::new("https://id//".to_string(), "a".to_string());
    assert_eq!(v.discovery_url(), "https://id/.well-known/openid-configuration");
    match v.key_source() {
        KeySource::Described(u) => assert_eq!(u, v.discovery_url()),
        other => panic!("{other:?}"),
    }
    match validator().key_source() {
        KeySource::Published(u) => assert_eq!(u, "https://id/keys"),
        other => panic!("{other:?}"),
    }
    assert_eq!(read_discovery(r#"{"jwks_uri":"https://id/k"}"#).as_deref(), Some("https://id/k"));
    assert_eq!(read_discovery("{}"), None);
    assert_eq!(read_discovery("{"), None);
    assert!(build_oidc(&some(Some("i")), &None).is_none());
    assert!(build_oidc(&None, &some(Some("a"))).is_none());
}

#[test]
fn claims_are_read() {
    let i = read_identity(&json(r#"{"email":"e@x","role":"read-only","org":""}"#)).unwrap();
    assert_eq!((i.role, i.actor.as_str(), i.tenant), (Role::ReadOnly, "e@x", None));
    let i = read_identity(&json("{}")).unwrap();
    assert_eq!((i.role, i.actor.as_str()), (Role::ReadOnly, "oidc"));
    assert!(read_identity(&json(r#"{"sub":1}"#)).is_none());
    assert_eq!(parse_role(Some("ADMIN")), Role::Admin);
    assert_eq!(parse_role(Some("x")), Role::ReadOnly);
    assert_eq!(parse_role(Some("read-only")), Role::ReadOnly);
    assert_eq!(parse_role(Some("administrator")), Role::ReadOnly);
    assert_eq!(parse_role(None), Role::ReadOnly);
    assert!(matches!(judge(Err("bad".to_string()), None), Verdict::Refuse(_)));
    let fault = || Some("JSON error: duplicate field `sub` at line 1 column 20".to_string());
    match judge(Ok(Json::parse("{\"sub\":\"a\"}").unwrap()), fault()) {
        Verdict::Refuse(m) => assert_eq!(m, format!("OIDC JWT validate: {}", fault().unwrap())),
        other => panic!("{other:?}"),
    }
    match judge(Err("bad".to_string()), fault()) {
        Verdict::Refuse(m) => assert_eq!(m, "OIDC JWT validate: bad"),
        other => panic!("{other:?}"),
    }
}

#[test]
fn answers_say_what_was_done() {
    assert_eq!(Endpoint::CreateVm.success_status(), 201);
    assert_eq!(Endpoint::DeletePool.success_status(), 204);
    assert_eq!(Endpoint::StartVm.success_status(), 200);
    assert_eq!(Endpoint::DeleteNetworkService.success_status(), 200);
}

#[test]
fn settings_with_tokens_are_never_open() {
    let mut p = policy(vec![]);
    assert!(matches!(authenticate(&p, "/v1/vms", &bearer(None)), Admission::Known(_)));
    p.oidc = true;
    assert!(matches!(authenticate(&p, "/v1/vms", &bearer(None)), Admission::Denied));
    p.oidc = false;
    p.tokens.push(TokenEntry { token: "t".into(), role: Role::ReadOnly, name: None, tenant: None });
    assert!(matches!(authenticate(&p, "/v1/vms", &bearer(None)), Admission::Denied));
    assert!(matches!(authenticate(&p, "/v1/vms", &bearer(Some("t"))), Admission::Known(_)));
}
