use fluxvm::fleet::agent::{local_vm_count, total_memory_mib, NodeConfig};
use fluxvm::fleet::central::{
    capacity, create_vm, created_vm, delete_vm, deleted_vm, deregister_node, get_node, list_nodes,
    listed_node_vms, node_vms, set_node_cordoned, CentralConfig, ListReply, Listing,
};
use fluxvm::fleet::client;
use fluxvm::fleet::node::{NodeInfo, HEALTHY_WINDOW_NANOS};
use fluxvm::fleet::registry::{
    apply_register, deregister, pick_best_capacity, request_sizes, resolve_target, set_cordoned,
    AppError, DeregisterOutcome, RegisterRequest, Registry,
};
use fluxvm::json::Json;

const SECOND: i64 = 1_000_000_000;
const NOW: i64 = 1_700_000_000 * SECOND;
const HEALTHY_WINDOW_SECS: i64 = 30;

fn node(name: &str, vm_count: usize, age_secs: i64) -> NodeInfo {
    NodeInfo {
        name: name.into(),
        fluxvm_url: format!("http://{name}"),
        vcpus_total: 8,
        memory_mib_total: 16384,
        vm_count,
        last_seen: NOW - age_secs * SECOND,
        cordoned: false,
        labels: vec![],
    }
}

fn node_cap(name: &str, vm_count: usize, vcpus: u32, mem: u64) -> NodeInfo {
    NodeInfo {
        name: name.into(),
        fluxvm_url: format!("http://{name}"),
        vcpus_total: vcpus,
        memory_mib_total: mem,
        vm_count,
        last_seen: NOW,
        cordoned: false,
        labels: vec![],
    }
}

fn beat(name: &str, vm_count: usize) -> RegisterRequest {
    RegisterRequest {
        name: name.into(),
        fluxvm_url: format!("http://{name}"),
        vcpus_total: 8,
        memory_mib_total: 16384,
        vm_count,
        labels: vec![],
    }
}

fn pick(nodes: &Registry) -> Option<NodeInfo> {
    pick_best_capacity(nodes, 2, 2048, &vec![], NOW)
}

fn json(s: &str) -> Json {
    Json::parse(s).unwrap()
}

fn value(j: &Json) -> serde_json::Value {
    j.to_value()
}

// --- placement -------------------------------------------------------------

#[test]
fn picks_node_with_more_residual_capacity() {
    let mut nodes = Registry::new();
    nodes.insert(node("a", 1, 0));
    nodes.insert(node("b", 3, 0));
    let picked = pick(&nodes).unwrap();
    assert_eq!(picked.name, "a");
}

#[test]
fn prefers_host_that_can_fit_when_other_is_saturated() {
    let mut nodes = Registry::new();
    nodes.insert(node_cap("small", 1, 2, 2048));
    nodes.insert(node_cap("large", 1, 64, 131072));
    let picked = pick(&nodes).unwrap();
    assert_eq!(picked.name, "large");
}

#[test]
fn skips_stale_nodes() {
    let mut nodes = Registry::new();
    nodes.insert(node("stale", 0, HEALTHY_WINDOW_SECS + 5));
    nodes.insert(node("fresh", 5, 0));
    let picked = pick(&nodes).unwrap();
    assert_eq!(picked.name, "fresh");
}

#[test]
fn returns_none_when_no_node_is_healthy() {
    let mut nodes = Registry::new();
    nodes.insert(node("stale", 0, HEALTHY_WINDOW_SECS + 5));
    assert!(pick(&nodes).is_none());
}

#[test]
fn ties_break_by_name_for_determinism() {
    let mut nodes = Registry::new();
    nodes.insert(node("z", 1, 0));
    nodes.insert(node("a", 1, 0));
    let picked = pick(&nodes).unwrap();
    assert_eq!(picked.name, "a");
}

#[test]
fn request_sizes_defaults() {
    assert_eq!(request_sizes(&json("{}")), (2, 2048));
    assert_eq!(
        request_sizes(&json(r#"{"vcpus": 4, "memory_mib": 4096}"#)),
        (4, 4096)
    );
}

#[test]
fn cordoned_node_excluded_from_automatic_placement() {
    let mut nodes = Registry::new();
    let mut a = node("a", 0, 0);
    a.cordoned = true;
    nodes.insert(a);
    nodes.insert(node("b", 3, 0));
    let picked = pick(&nodes).unwrap();
    assert_eq!(picked.name, "b");
}

#[test]
fn cordoning_the_only_node_leaves_nothing_placeable() {
    let mut nodes = Registry::new();
    let mut a = node("a", 0, 0);
    a.cordoned = true;
    nodes.insert(a);
    assert!(pick(&nodes).is_none());
}

#[test]
fn uncordoning_restores_eligibility() {
    let mut nodes = Registry::new();
    let mut a = node("a", 0, 0);
    a.cordoned = true;
    nodes.insert(a);
    assert!(pick(&nodes).is_none());
    set_cordoned(&mut nodes, "a", false).unwrap();
    let picked = pick(&nodes).unwrap();
    assert_eq!(picked.name, "a");
}

#[test]
fn set_cordoned_reports_none_for_unknown_node() {
    let mut nodes = Registry::new();
    nodes.insert(node("a", 0, 0));
    assert!(set_cordoned(&mut nodes, "nonexistent", true).is_none());
}

#[test]
fn heartbeat_preserves_existing_cordoned_state() {
    let mut nodes = Registry::new();
    nodes.insert(node("a", 0, 0));
    set_cordoned(&mut nodes, "a", true).unwrap();
    assert!(nodes.get("a").unwrap().cordoned);

    apply_register(&mut nodes, beat("a", 1), NOW);
    assert!(nodes.get("a").unwrap().cordoned);
    assert_eq!(nodes.get("a").unwrap().vm_count, 1);
}

#[test]
fn first_ever_heartbeat_registers_uncordoned() {
    let mut nodes = Registry::new();
    apply_register(
        &mut nodes,
        RegisterRequest {
            name: "new".into(),
            fluxvm_url: "http://new".into(),
            vcpus_total: 4,
            memory_mib_total: 8192,
            vm_count: 0,
            labels: vec![],
        },
        NOW,
    );
    assert!(!nodes.get("new").unwrap().cordoned);
}

#[test]
fn explicit_node_targeting_bypasses_cordon() {
    let mut nodes = Registry::new();
    let mut a = node("a", 0, 0);
    a.cordoned = true;
    nodes.insert(a);
    assert!(pick(&nodes).is_none());
    let target = resolve_target(&nodes, Some("a".to_string()), 2, 2048, &vec![], NOW);
    assert_eq!(target.ok().unwrap().name, "a");
}

#[test]
fn explicit_node_targeting_unknown_name_still_errors() {
    let nodes = Registry::new();
    let err = resolve_target(&nodes, Some("ghost".to_string()), 2, 2048, &vec![], NOW)
        .err()
        .unwrap();
    assert_eq!(err.status, 400);
}

#[test]
fn automatic_placement_skips_cordoned_even_with_more_capacity() {
    let mut nodes = Registry::new();
    let mut roomy = node_cap("roomy", 0, 64, 131072);
    roomy.cordoned = true;
    nodes.insert(roomy);
    nodes.insert(node_cap("tight", 1, 4, 8192));
    let target = resolve_target(&nodes, None, 2, 2048, &vec![], NOW);
    assert_eq!(target.ok().unwrap().name, "tight");
}

#[test]
fn deregister_removes_a_stale_node() {
    let mut nodes = Registry::new();
    nodes.insert(node("stale", 0, HEALTHY_WINDOW_SECS + 5));
    assert!(matches!(
        deregister(&mut nodes, "stale", NOW),
        DeregisterOutcome::Removed
    ));
    assert!(nodes.get("stale").is_none());
}

#[test]
fn deregister_refuses_a_healthy_node() {
    let mut nodes = Registry::new();
    nodes.insert(node("fresh", 0, 0));
    assert!(matches!(
        deregister(&mut nodes, "fresh", NOW),
        DeregisterOutcome::StillHealthy
    ));
    assert!(nodes.get("fresh").is_some());
}

#[test]
fn central_deregister_unknown_node_is_not_found() {
    let mut nodes = Registry::new();
    assert!(matches!(
        deregister(&mut nodes, "ghost", NOW),
        DeregisterOutcome::NotFound
    ));
}

#[test]
fn deregister_then_new_heartbeat_recreates_uncordoned() {
    let mut nodes = Registry::new();
    let mut a = node("a", 0, HEALTHY_WINDOW_SECS + 5);
    a.cordoned = true;
    nodes.insert(a);
    assert!(matches!(
        deregister(&mut nodes, "a", NOW),
        DeregisterOutcome::Removed
    ));
    apply_register(&mut nodes, beat("a", 0), NOW);
    assert!(!nodes.get("a").unwrap().cordoned);
}

#[test]
fn deregister_node_http_removes_a_stale_node() {
    let mut nodes = Registry::new();
    nodes.insert(node("stale", 0, HEALTHY_WINDOW_SECS + 5));
    assert!(deregister_node(&mut nodes, "stale", NOW).is_ok());
    assert!(nodes.get("stale").is_none());
}

#[test]
fn deregister_node_http_conflicts_on_a_healthy_node() {
    let mut nodes = Registry::new();
    nodes.insert(node("fresh", 0, 0));
    let err = deregister_node(&mut nodes, "fresh", NOW).err().unwrap();
    assert_eq!(err.status, 409);
    assert!(nodes.get("fresh").is_some());
}

#[test]
fn deregister_node_http_not_found_for_unknown_node() {
    let mut nodes = Registry::new();
    let err = deregister_node(&mut nodes, "ghost", NOW).err().unwrap();
    assert_eq!(err.status, 404);
}

#[test]
fn the_healthy_window_has_an_edge() {
    let n = node("a", 0, 0);
    assert_eq!(HEALTHY_WINDOW_NANOS, HEALTHY_WINDOW_SECS * SECOND);
    assert!(n.healthy(NOW + HEALTHY_WINDOW_NANOS - 1));
    assert!(!n.healthy(NOW + HEALTHY_WINDOW_NANOS + 1));
    assert!(n.healthy(NOW - 5));
}

#[test]
fn capacity_is_estimated_from_the_machines() {
    let n = node("a", 3, 0);
    assert_eq!(n.estimated_used_vcpus(), 6);
    assert_eq!(n.estimated_used_memory_mib(), 6144);
    assert_eq!(n.free_vcpus(), 2);
    assert_eq!(n.free_memory_mib(), 16384 - 6144);
    let full = node("b", 100, 0);
    assert_eq!(full.free_vcpus(), 0);
    assert_eq!(full.free_memory_mib(), 0);
}

#[test]
fn a_heartbeat_leaves_other_nodes_alone() {
    let mut nodes = Registry::new();
    nodes.insert(node("a", 4, 7));
    apply_register(&mut nodes, beat("b", 1), NOW);
    let a = nodes.get("a").unwrap();
    assert_eq!((a.vm_count, a.last_seen), (4, NOW - 7 * SECOND));
    assert_eq!(nodes.get("b").unwrap().last_seen, NOW);
}

#[test]
fn a_node_is_filed_under_one_name_once() {
    let nodes = Registry::from_nodes(vec![node("a", 1, 0), node("b", 2, 0), node("a", 3, 0)]);
    assert_eq!(nodes.nodes.len(), 2);
    assert_eq!(nodes.get("a").unwrap().vm_count, 3);
}

// --- the central interface --------------------------------------------------

#[test]
fn node_vms_returns_only_that_nodes_vms_tagged_with_its_name() {
    let mut nodes = Registry::new();
    nodes.insert(node("a", 2, 0));
    nodes.insert(node("b", 5, 0));
    let target = node_vms(&nodes, "a").ok().unwrap();
    assert_eq!(target.url, "http://a/v1/vms");
    let resp = listed_node_vms("a", true, json(r#"{"items": [{"id": "vm-1"}, {"id": "vm-2"}]}"#))
        .ok()
        .unwrap();
    let resp = value(&resp);
    assert_eq!(resp["node"], "a");
    let items = resp["items"].as_array().unwrap();
    assert_eq!(items.len(), 2);
    assert_eq!(items[0]["id"], "vm-1");
    assert_eq!(items[0]["node"], "a");
    assert_eq!(items[1]["node"], "a");
}

#[test]
fn node_vms_unknown_node_is_bad_request() {
    let nodes = Registry::new();
    let err = node_vms(&nodes, "ghost").err().unwrap();
    assert_eq!(err.status, 400);
}

#[test]
fn node_vms_surfaces_unreachable_node_as_an_error_instead_of_hiding_it() {
    let cause = "error sending request for url (http://127.0.0.1:9/v1/vms)";
    let err = AppError::unreachable(cause);
    assert_eq!((err.status, err.message.as_str()), (502, cause));
}

#[test]
fn node_vms_propagates_the_nodes_own_error_status() {
    let err = listed_node_vms("a", false, json(r#"{"error": "local fluxvm serve is unhappy"}"#))
        .err()
        .unwrap();
    assert_eq!(err.status, 502);
    assert!(err.message.contains("local fluxvm serve is unhappy"));
}

#[test]
fn node_vms_handles_a_node_with_no_vms() {
    let resp = listed_node_vms("a", true, json(r#"{"items": []}"#)).ok().unwrap();
    assert_eq!(value(&resp)["items"].as_array().unwrap().len(), 0);
}

#[test]
fn list_vms_all_healthy_and_reachable_reports_no_unreachable_nodes() {
    let mut nodes = Registry::new();
    nodes.insert(node("a", 1, 0));
    let (mut listing, targets) = Listing::start(&nodes, NOW);
    assert_eq!(targets.len(), 1);
    listing.add_reply(
        "a",
        ListReply::Answered {
            success: true,
            status: "200 OK".to_string(),
            body: json(r#"{"items": [{"id": "vm-1"}]}"#),
        },
    );
    let resp = value(&listing.finish());
    let items = resp["items"].as_array().unwrap();
    assert_eq!(items.len(), 1);
    assert_eq!(items[0]["node"], "a");
    assert_eq!(resp["unreachable_nodes"].as_array().unwrap().len(), 0);
}

#[test]
fn list_vms_names_a_node_it_cannot_connect_to_instead_of_silently_dropping_it() {
    let mut nodes = Registry::new();
    nodes.insert(node("dead", 3, 0));
    nodes.insert(node("up", 1, 0));
    let (mut listing, targets) = Listing::start(&nodes, NOW);
    assert_eq!(targets.len(), 2);
    listing.add_reply("dead", ListReply::Unreachable("connection refused".to_string()));
    listing.add_reply(
        "up",
        ListReply::Answered {
            success: true,
            status: "200 OK".to_string(),
            body: json(r#"{"items": [{"id": "vm-ok"}]}"#),
        },
    );
    let resp = value(&listing.finish());
    let items = resp["items"].as_array().unwrap();
    assert_eq!(items.len(), 1);
    assert_eq!(items[0]["id"], "vm-ok");
    let unreachable = resp["unreachable_nodes"].as_array().unwrap();
    assert_eq!(unreachable.len(), 1);
    assert_eq!(unreachable[0]["node"], "dead");
    assert!(unreachable[0]["reason"].as_str().unwrap().contains("unreachable"));
}

#[test]
fn list_vms_names_a_stale_heartbeat_node_as_unreachable_without_contacting_it() {
    let mut nodes = Registry::new();
    nodes.insert(node("stale", 2, 300));
    let (listing, targets) = Listing::start(&nodes, NOW);
    assert!(targets.is_empty());
    let resp = value(&listing.finish());
    assert_eq!(resp["items"].as_array().unwrap().len(), 0);
    let unreachable = resp["unreachable_nodes"].as_array().unwrap();
    assert_eq!(unreachable.len(), 1);
    assert_eq!(unreachable[0]["node"], "stale");
    assert!(unreachable[0]["reason"].as_str().unwrap().contains("unhealthy"));
}

#[test]
fn list_vms_names_a_node_that_rejects_the_list_call_as_unreachable() {
    let mut nodes = Registry::new();
    nodes.insert(node("cranky", 1, 0));
    let (mut listing, _) = Listing::start(&nodes, NOW);
    listing.add_reply(
        "cranky",
        ListReply::Answered {
            success: false,
            status: "500 Internal Server Error".to_string(),
            body: json(r#"{"error": "local fluxvm serve is unhappy"}"#),
        },
    );
    let resp = value(&listing.finish());
    assert_eq!(resp["items"].as_array().unwrap().len(), 0);
    let unreachable = resp["unreachable_nodes"].as_array().unwrap();
    assert_eq!(unreachable.len(), 1);
    assert_eq!(unreachable[0]["node"], "cranky");
    assert!(unreachable[0]["reason"]
        .as_str()
        .unwrap()
        .contains("local fluxvm serve is unhappy"));
}

#[test]
fn a_listing_says_what_could_not_be_read() {
    let (mut listing, _) = Listing::start(&Registry::new(), NOW);
    listing.add_reply("n", ListReply::Unparsable("eof".to_string()));
    let resp = value(&listing.finish());
    assert_eq!(
        resp["unreachable_nodes"][0]["reason"],
        "failed to parse node's VM list: eof"
    );
}

#[test]
fn list_nodes_sees_a_registered_node() {
    let mut nodes = Registry::new();
    apply_register(&mut nodes, beat("worker-1", 0), NOW);
    let body = value(&list_nodes(&nodes, NOW));
    let items = body["items"].as_array().unwrap();
    assert_eq!(items.len(), 1);
    assert_eq!(items[0]["name"], "worker-1");
    assert_eq!(items[0]["cordoned"], false);
}

#[test]
fn get_node_returns_the_named_node_only() {
    let mut nodes = Registry::new();
    apply_register(&mut nodes, beat("worker-1", 0), NOW);
    apply_register(&mut nodes, beat("worker-2", 0), NOW);
    let body = value(&get_node(&nodes, "worker-1", NOW).ok().unwrap());
    assert_eq!(body["name"], "worker-1");
    assert_eq!(body["cordoned"], false);
}

#[test]
fn the_last_heartbeat_is_shown_as_a_date() {
    let mut nodes = Registry::new();
    apply_register(&mut nodes, beat("worker-1", 0), NOW + 5);
    let body = value(&get_node(&nodes, "worker-1", NOW).ok().unwrap());
    let expected = chrono::DateTime::from_timestamp_nanos(NOW + 5);
    let shown = body["last_seen"].as_str().unwrap();
    let read: chrono::DateTime<chrono::Utc> = shown.parse().unwrap();
    assert_eq!(read, expected);
    assert!(shown.starts_with("2023-11-14T22:13:20.000000005"), "{shown}");
}

#[test]
fn get_node_unknown_name_is_a_readable_not_found_error() {
    let err = get_node(&Registry::new(), "ghost", NOW).err().unwrap();
    assert_eq!(err.status, 404);
    let call = client::get_node("http://c", "ghost");
    let msg = call
        .check_success(false, "404 Not Found", &err.message)
        .err()
        .unwrap();
    assert!(msg.contains("404"), "expected a 404, got: {msg}");
    assert!(msg.contains("ghost"), "error should name the unknown node: {msg}");
}

#[test]
fn cordon_then_uncordon_round_trips() {
    let mut nodes = Registry::new();
    apply_register(&mut nodes, beat("worker-1", 0), NOW);
    let cordoned = value(&set_node_cordoned(&mut nodes, "worker-1", true, NOW).ok().unwrap());
    assert_eq!(cordoned["cordoned"], true);
    let uncordoned = value(&set_node_cordoned(&mut nodes, "worker-1", false, NOW).ok().unwrap());
    assert_eq!(uncordoned["cordoned"], false);
}

#[test]
fn cordon_unknown_node_is_a_readable_error() {
    let err = set_node_cordoned(&mut Registry::new(), "ghost", true, NOW).err().unwrap();
    assert!(err.message.contains("ghost"), "{}", err.message);
}

#[test]
fn deregister_rejects_a_still_healthy_node() {
    let mut nodes = Registry::new();
    apply_register(&mut nodes, beat("worker-1", 0), NOW);
    let err = deregister_node(&mut nodes, "worker-1", NOW).err().unwrap();
    assert_eq!(err.status, 409);
    assert!(err.message.to_lowercase().contains("heartbeat"), "{}", err.message);
}

#[test]
fn fleet_client_deregister_unknown_node_is_not_found() {
    let err = deregister_node(&mut Registry::new(), "ghost", NOW).err().unwrap();
    let msg = client::deregister("http://c", "ghost")
        .check_success(false, "404 Not Found", &err.message)
        .err()
        .unwrap();
    assert!(msg.contains("404"));
}

#[test]
fn capacity_reflects_a_registered_nodes_totals() {
    let mut nodes = Registry::new();
    apply_register(&mut nodes, beat("worker-1", 0), NOW);
    let cap = value(&capacity(&nodes, NOW));
    assert_eq!(cap["nodes_total"], 1);
    assert_eq!(cap["nodes_healthy"], 1);
    assert_eq!(cap["vcpus_total"], 8);
    assert_eq!(cap["memory_mib_total"], 16384);
}

#[test]
fn bearer_token_is_required_when_configured() {
    let central = CentralConfig { state_dir: "/d".to_string(), token: Some("s3cret".to_string()) };
    assert!(!central.authorized("/fleet/nodes", None), "missing bearer token must be rejected");
    assert!(
        central.authorized("/fleet/nodes", Some("Bearer s3cret")),
        "correct bearer token must be accepted"
    );
    assert!(
        !central.authorized("/fleet/nodes", Some("Bearer nope")),
        "wrong bearer token must be rejected"
    );
    assert!(central.authorized("/healthz", None));
    let open = CentralConfig { state_dir: "/d".to_string(), token: None };
    assert!(open.authorized("/fleet/nodes", None));
    assert_eq!(open.persist_path(), "/d/fleet-nodes.json");
    assert_eq!(open.lock_path(), "/d/fleet-nodes.lock");
}

#[test]
fn create_vm_merges_the_node_flag_and_routes_to_it() {
    let mut nodes = Registry::new();
    apply_register(&mut nodes, beat("worker-1", 0), NOW);
    let body = client::merge_create_body(
        json(r#"{"name": "test-vm"}"#),
        Some("worker-1".to_string()),
        &vec![],
    )
    .unwrap();
    let call = create_vm(&nodes, body, NOW).ok().unwrap();
    assert_eq!(call.url, "http://worker-1/v1/vms");
    assert!(value(&call.body).get("node").is_none());
    let result = created_vm(&call.node, true, json(r#"{"id": "1", "name": "test-vm"}"#)).ok().unwrap();
    let result = value(&result);
    assert_eq!(result["node"], "worker-1");
    assert_eq!(result["vm"]["name"], "test-vm");
}

#[test]
fn create_vm_with_no_node_and_no_registered_nodes_fails_clearly() {
    let err = create_vm(&Registry::new(), json(r#"{"name": "x"}"#), NOW).err().unwrap();
    assert_eq!(err.status, 503);
    assert!(err.message.contains("no healthy"));
}

#[test]
fn create_vm_merges_the_node_selector_flag_and_routes_to_a_matching_node() {
    let mut nodes = Registry::new();
    apply_register(&mut nodes, beat("worker-1", 0), NOW);
    let mut gpu = beat("worker-gpu", 3);
    gpu.labels = vec![("gpu".to_string(), "true".to_string())];
    apply_register(&mut nodes, gpu, NOW);
    let body = client::merge_create_body(
        json(r#"{"name": "test-vm"}"#),
        None,
        &vec![("gpu".to_string(), "true".to_string())],
    )
    .unwrap();
    assert_eq!(value(&body)["nodeSelector"]["gpu"], "true");
    let call = create_vm(&nodes, body, NOW).ok().unwrap();
    assert_eq!(call.node, "worker-gpu");
    assert!(value(&call.body).get("nodeSelector").is_none());
}

#[test]
fn create_vm_node_selector_matching_nothing_is_a_readable_error() {
    let mut nodes = Registry::new();
    apply_register(&mut nodes, beat("worker-1", 0), NOW);
    let body = client::merge_create_body(
        json(r#"{"name": "x"}"#),
        None,
        &vec![("gpu".to_string(), "true".to_string())],
    )
    .unwrap();
    let err = create_vm(&nodes, body, NOW).err().unwrap();
    assert!(err.message.contains("nodeSelector"), "{}", err.message);
}

#[test]
fn a_selector_must_be_an_object_of_strings() {
    let err = create_vm(&Registry::new(), json(r#"{"nodeSelector": {"gpu": 1}}"#), NOW)
        .err()
        .unwrap();
    assert_eq!(err.status, 400);
    assert_eq!(err.message, "\"nodeSelector\" must be a JSON object of strings");
}

#[test]
fn node_vms_and_delete_vm_proxy_to_the_named_node() {
    let mut nodes = Registry::new();
    apply_register(&mut nodes, beat("worker-1", 0), NOW);
    let vms = listed_node_vms(
        "worker-1",
        true,
        json(r#"{"items": [{"id": "abc", "name": "on-worker-1"}]}"#),
    )
    .ok()
    .unwrap();
    let vms = value(&vms);
    assert_eq!(vms["items"][0]["name"], "on-worker-1");
    assert_eq!(vms["items"][0]["node"], "worker-1");

    let target = delete_vm(&nodes, "worker-1", "abc").ok().unwrap();
    assert_eq!(target.url, "http://worker-1/v1/vms/abc");
    assert!(deleted_vm("worker-1", true, "").is_ok());
    let err = deleted_vm("worker-1", false, "no").err().unwrap();
    assert_eq!((err.status, err.message.as_str()), (502, "node 'worker-1' rejected delete: no"));
    assert_eq!(delete_vm(&nodes, "ghost", "abc").err().unwrap().status, 400);
}

#[test]
fn a_refused_create_is_answered_with_the_reply() {
    let err = created_vm("a", false, json(r#"{"error":"full"}"#)).err().unwrap();
    assert_eq!(err.status, 502);
    assert_eq!(err.message, r#"node 'a' rejected create: {"error":"full"}"#);
}

// --- the client and the node agent -------------------------------------------

#[test]
fn only_an_object_can_be_sent_to_a_node() {
    assert!(client::merge_create_body(json("[]"), Some("n".to_string()), &vec![]).is_err());
}

#[test]
fn client_calls_have_their_addresses() {
    let c = "http://c";
    assert_eq!(client::list_nodes(c).url, "http://c/fleet/nodes");
    assert_eq!(client::get_node(c, "n").url, "http://c/fleet/nodes/n");
    assert_eq!(client::set_cordoned(c, "n", true).url, "http://c/fleet/nodes/n/cordon");
    assert_eq!(client::set_cordoned(c, "n", false).url, "http://c/fleet/nodes/n/uncordon");
    assert_eq!(client::cordon(c, "n").url, "http://c/fleet/nodes/n/cordon");
    assert_eq!(client::uncordon(c, "n").what, "uncordoning node 'n'");
    assert_eq!(client::deregister(c, "n").url, "http://c/fleet/nodes/n");
    assert_eq!(client::capacity(c).url, "http://c/fleet/capacity");
    assert_eq!(client::create_vm(c).url, "http://c/fleet/vms");
    assert_eq!(client::list_vms(c).url, "http://c/fleet/vms");
    assert_eq!(client::node_vms(c, "n").url, "http://c/fleet/nodes/n/vms");
    assert_eq!(client::delete_vm(c, "n", "i").url, "http://c/fleet/vms/n/i");
    assert!(client::list_vms(c).check_success(true, "200 OK", "").is_ok());
}

#[test]
fn a_heartbeat_is_understood_by_the_registry() {
    let config = NodeConfig {
        name: "n".to_string(),
        central_url: "http://c".to_string(),
        fluxvm_url: "http://l".to_string(),
        advertise_url: "http://a".to_string(),
        interval_secs: 10,
        token: None,
    };
    assert_eq!(config.register_url(), "http://c/fleet/register");
    assert_eq!(config.list_url(), "http://l/v1/vms");
    let sent = config.beat(3, 16, 32768);
    let read = RegisterRequest::from_json(&sent).unwrap();
    assert_eq!(
        (read.name.as_str(), read.fluxvm_url.as_str(), read.vcpus_total, read.memory_mib_total, read.vm_count),
        ("n", "http://a", 16, 32768, 3)
    );
    assert!(RegisterRequest::from_json(&json(r#"{"name": "n"}"#)).is_none());
    assert_eq!(RegisterRequest::read(&sent, None).unwrap().name, read.name);
    let fault = "duplicate field `name` at line 1 column 22";
    let refused = RegisterRequest::read(&sent, Some(fault.to_string()));
    assert_eq!(refused.err().unwrap(), fault);
    assert_eq!(
        RegisterRequest::read(&json("{}"), None).err().unwrap(),
        "the heartbeat lacks a field or holds a wrong one"
    );
}

#[test]
fn the_agent_reads_its_host() {
    assert_eq!(local_vm_count(&json(r#"{"items": [1, 2]}"#)), 2);
    assert_eq!(local_vm_count(&json("{}")), 0);
    assert_eq!(
        total_memory_mib("MemFree: 1 kB\nMemTotal:       16384000 kB\n"),
        Some(16000)
    );
    assert_eq!(total_memory_mib("nothing"), None);
}

#[test]
fn nodes_with_room_go_first() {
    let mut nodes = Registry::new();
    nodes.insert(node_cap("a", 5, 16, 32768));
    nodes.insert(node_cap("b", 40, 100, 204800));
    let picked = pick_best_capacity(&nodes, 8, 2048, &vec![], NOW).unwrap();
    assert_eq!(picked.name, "b");
    let picked = pick_best_capacity(&nodes, 6, 2048, &vec![], NOW).unwrap();
    assert_eq!(picked.name, "a");
    assert!(pick_best_capacity(&nodes, 101, 2048, &vec![], NOW).is_none());
}

#[test]
fn heartbeats_may_be_lists() {
    let beat = RegisterRequest::from_json(&json("[\"n\",\"http://n\",4,1024,2]")).unwrap();
    assert_eq!((beat.name.as_str(), beat.fluxvm_url.as_str()), ("n", "http://n"));
    assert_eq!((beat.vcpus_total, beat.memory_mib_total, beat.vm_count), (4, 1024, 2));
    assert!(RegisterRequest::from_json(&json("[\"n\",\"http://n\",4,1024]")).is_none());
}
