//! What the central registry answers to its callers. The caller performs the
//! requests to nodes and hands their replies back.

use vstd::prelude::*;

use crate::fleet::node;
use crate::fleet::node::{Node, NodeInfo};
use crate::fleet::registry;
use crate::fleet::registry::{
    deregister, request_sizes, resolve_target, set_cordoned, unknown_node_error, AppError,
    DeregisterOutcome, Registry,
};
use crate::json;
use crate::json::{Js, Json};
use crate::labels;
use crate::text;
use crate::text::{cat, same};
use crate::token;
use crate::token::{bearer_token, constant_time_eq};

verus! {

/// Where the registry keeps its state, and the secret that callers present.
#[derive(Debug)]
pub struct CentralConfig {
    pub state_dir: String,
    pub token: Option<String>,
}

impl CentralConfig {
    /// The file that holds the registry.
    pub fn persist_path(&self) -> (r: String)
        ensures
            r@ == crate::cgroup::util::path_join(self.state_dir@, "fleet-nodes.json"@),
    {
        crate::cgroup::util::join(self.state_dir.as_str(), "fleet-nodes.json")
    }

    /// The file that guards the registry's file.
    pub fn lock_path(&self) -> (r: String)
        ensures
            r@ == crate::cgroup::util::path_join(self.state_dir@, "fleet-nodes.lock"@),
    {
        crate::cgroup::util::join(self.state_dir.as_str(), "fleet-nodes.lock")
    }

    /// Tells whether a request may pass: the liveness probe always does, and
    /// everything does where no secret is set; otherwise the request has to
    /// present the secret.
    pub fn authorized(&self, path: &str, authorization: Option<&str>) -> (r: bool)
        ensures
            r == (path@ == "/healthz"@ || self.token is None || token::bearer(
                text::optional(authorization),
            ) == Some(self.token->0@)),
    {
        if same(path, "/healthz") {
            return true;
        }
        match &self.token {
            None => true,
            Some(expected) => match bearer_token(authorization) {
                Some(presented) => constant_time_eq(presented.as_str(), expected.as_str()),
                None => false,
            },
        }
    }
}

/// The descriptions of nodes, in the order of the registry.
pub open spec fn node_list(nodes: Seq<NodeInfo>, now: int) -> Seq<Js> {
    Seq::new(nodes.len(), |i: int| nodes[i].view().json(now))
}

/// An object with one member.
pub open spec fn one(key: Seq<char>, value: Js) -> Js {
    Js::Obj(Map::<Seq<char>, Js>::empty().insert(key, value))
}

/// Describes all nodes.
pub fn list_nodes(nodes: &Registry, now: i64) -> (r: Json)
    ensures
        r.view() == one("items"@, Js::Arr(node_list(nodes.nodes@, now as int))),
{
    let mut items: Vec<Json> = Vec::new();
    let mut i: usize = 0;
    while i < nodes.nodes.len()
        invariant
            i <= nodes.nodes.len(),
            items.len() == i,
            forall|j: int|
                0 <= j < i ==> (#[trigger] items[j]).view() == nodes.nodes[j].view().json(
                    now as int,
                ),
        decreases nodes.nodes.len() - i,
    {
        items.push(nodes.nodes[i].node_json(now));
        i += 1;
    }
    proof {
        json::lemma_items(items@);
        let list = node_list(nodes.nodes@, now as int);
        assert forall|j: int| 0 <= j < items.len() implies json::items_view(items@)[j]
            == list[j] by {
            assert(items@[j].view() == nodes.nodes[j].view().json(now as int));
        }
        assert(json::items_view(items@) =~= list);
    }
    Json::object().with("items", Json::Array(items))
}

/// Describes one node.
pub fn get_node(nodes: &Registry, name: &str, now: i64) -> (r: Result<Json, AppError>)
    requires
        nodes.wf(),
    ensures
        match r {
            Ok(j) => nodes.view().contains_key(name@) && j.view() == nodes.view()[name@].json(
                now as int,
            ),
            Err(e) => !nodes.view().contains_key(name@) && e.is(404, registry::unknown_node(name@)),
        },
{
    match nodes.get(name) {
        Some(n) => Ok(n.node_json(now)),
        None => Err(unknown_node_error(404, name)),
    }
}

/// Cordons a node or lifts its cordon, and describes it.
pub fn set_node_cordoned(nodes: &mut Registry, name: &str, cordoned: bool, now: i64) -> (r: Result<
    Json,
    AppError,
>)
    requires
        old(nodes).wf(),
    ensures
        final(nodes).wf(),
        match r {
            Ok(j) => old(nodes).view().contains_key(name@) && final(nodes).view()
                == registry::with_cordon(
                    old(nodes).view(),
                    name@,
                    cordoned,
                ) && j.view() == final(nodes).view()[name@].json(now as int),
            Err(e) => !old(nodes).view().contains_key(name@) && final(nodes).view() == old(nodes).view() && e.is(
                404,
                registry::unknown_node(name@),
            ),
        },
{
    if set_cordoned(nodes, name, cordoned).is_none() {
        return Err(unknown_node_error(404, name));
    }
    get_node(nodes, name, now)
}

/// The message for a node that is still alive.
pub open spec fn still_healthy(name: Seq<char>) -> Seq<char> {
    "node '"@ + name
        + "' is still heartbeating; stop its fluxvm-agent node process (or otherwise let its heartbeat lapse) and wait for it to go stale before deregistering, or its next heartbeat will simply re-register it"@
}

/// Forgets a node whose heartbeat has gone stale.
pub fn deregister_node(nodes: &mut Registry, name: &str, now: i64) -> (r: Result<(), AppError>)
    requires
        old(nodes).wf(),
    ensures
        final(nodes).wf(),
        match r {
            Ok(_) => old(nodes).view().contains_key(name@) && !old(nodes).view()[name@].healthy(
                now as int,
            ) && final(nodes).view() == old(nodes).view().remove(name@),
            Err(e) => final(nodes).view() == old(nodes).view() && if old(nodes).view().contains_key(name@) {
                old(nodes).view()[name@].healthy(now as int) && e.is(409, still_healthy(name@))
            } else {
                e.is(404, registry::unknown_node(name@))
            },
        },
{
    match deregister(nodes, name, now) {
        DeregisterOutcome::Removed => Ok(()),
        DeregisterOutcome::NotFound => Err(unknown_node_error(404, name)),
        DeregisterOutcome::StillHealthy => {
            let mut message = cat("node '", name);
            message.append(
                "' is still heartbeating; stop its fluxvm-agent node process (or otherwise let its heartbeat lapse) and wait for it to go stale before deregistering, or its next heartbeat will simply re-register it",
            );
            Err(AppError { status: 409, message })
        },
    }
}

/// What the fleet has in total.
pub struct Totals {
    pub nodes: nat,
    pub healthy: nat,
    pub vcpus: nat,
    pub memory_mib: nat,
}

/// `n`, or the largest 64-bit number where `n` is larger.
pub open spec fn capped(n: nat) -> nat {
    if n > u64::MAX {
        u64::MAX as nat
    } else {
        n
    }
}

/// The totals over all registered nodes, with sums capped at 64 bits.
pub open spec fn totals(nodes: Seq<NodeInfo>, now: int) -> Totals
    decreases nodes.len(),
{
    if nodes.len() == 0 {
        Totals { nodes: 0, healthy: 0, vcpus: 0, memory_mib: 0 }
    } else {
        let t = totals(nodes.drop_last(), now);
        let n = nodes.last().view();
        Totals {
            nodes: t.nodes + 1,
            healthy: if n.healthy(now) {
                t.healthy + 1
            } else {
                t.healthy
            },
            vcpus: capped(t.vcpus + n.vcpus_total),
            memory_mib: capped(t.memory_mib + n.memory_mib_total),
        }
    }
}

/// The totals as callers get them.
pub open spec fn totals_json(t: Totals) -> Js {
    Js::Obj(
        Map::<Seq<char>, Js>::empty().insert("nodes_total"@, Js::Int(t.nodes as int)).insert(
            "nodes_healthy"@,
            Js::Int(t.healthy as int),
        ).insert("vcpus_total"@, Js::Int(t.vcpus as int)).insert(
            "memory_mib_total"@,
            Js::Int(t.memory_mib as int),
        ),
    )
}

/// Adds up what the fleet has.
pub fn capacity(nodes: &Registry, now: i64) -> (r: Json)
    ensures
        r.view() == totals_json(totals(nodes.nodes@, now as int)),
{
    let mut healthy: u64 = 0;
    let mut vcpus: u64 = 0;
    let mut memory: u64 = 0;
    let mut i: usize = 0;
    let ghost ns = nodes.nodes@;
    assert(ns.take(0) =~= Seq::<NodeInfo>::empty());
    while i < nodes.nodes.len()
        invariant
            i <= nodes.nodes.len(),
            ns == nodes.nodes@,
            healthy <= i,
            totals(ns.take(i as int), now as int) == (Totals {
                nodes: i as nat,
                healthy: healthy as nat,
                vcpus: vcpus as nat,
                memory_mib: memory as nat,
            }),
        decreases nodes.nodes.len() - i,
    {
        proof {
            assert(ns.take(i + 1).drop_last() =~= ns.take(i as int));
            assert(ns.take(i + 1).last() == ns[i as int]);
        }
        if nodes.nodes[i].healthy(now) {
            healthy += 1;
        }
        vcpus = vcpus.saturating_add(nodes.nodes[i].vcpus_total as u64);
        memory = memory.saturating_add(nodes.nodes[i].memory_mib_total);
        i += 1;
    }
    assert(ns.take(nodes.nodes.len() as int) =~= ns);
    Json::object().with("nodes_total", Json::Unsigned(nodes.nodes.len() as u64)).with(
        "nodes_healthy",
        Json::Unsigned(healthy),
    ).with("vcpus_total", Json::Unsigned(vcpus)).with("memory_mib_total", Json::Unsigned(memory))
}

/// The member `key` as a map of strings: an object of strings, or nothing where
/// the member is absent. `None` where it has any other form.
pub open spec fn string_map_of(body: Js, key: Seq<char>) -> Option<Map<Seq<char>, Seq<char>>> {
    match body.get(key) {
        None => Some(Map::empty()),
        Some(Js::Obj(m)) => if forall|k: Seq<char>| #[trigger] m.contains_key(k) ==> m[k] is Str {
            Some(Map::new(|k: Seq<char>| m.contains_key(k), |k: Seq<char>| m[k]->Str_0))
        } else {
            None
        },
        Some(_) => None,
    }
}

/// The labels that a request asks of its node.
pub open spec fn selector_of(body: Js) -> Option<Map<Seq<char>, Seq<char>>> {
    string_map_of(body, "nodeSelector"@)
}

/// Reads the member `name` as a map of strings.
pub fn string_map(body: &Json, name: &str) -> (r: Option<Vec<(String, String)>>)
    ensures
        match r {
            Some(l) => string_map_of(body.view(), name@) == Some(labels::labels_view(l@)),
            None => string_map_of(body.view(), name@) is None,
        },
{
    let mut out: Vec<(String, String)> = Vec::new();
    match body.get(name) {
        None => {
            assert(labels::labels_view(out@) =~= Map::<Seq<char>, Seq<char>>::empty());
            Some(out)
        },
        Some(selector) => match selector {
            Json::Object(m) => {
                let ghost all = json::members_view(m@);
                let mut i: usize = 0;
                assert(m@.take(0) =~= Seq::<(String, Json)>::empty());
                while i < m.len()
                    invariant
                        i <= m.len(),
                        *selector == Json::Object(*m),
                        all == json::members_view(m@),
                        body.view().get(name@) == Some(Js::Obj(all)),
                        labels::labels_view(out@).dom() == json::members_view(
                            m@.take(i as int),
                        ).dom(),
                        forall|k: Seq<char>| #[trigger]
                            labels::labels_view(out@).contains_key(k) ==> all.contains_key(k)
                                && all[k] == Js::Str(labels::labels_view(out@)[k]),
                    decreases m.len() - i,
                {
                    let key = m[i].0.as_str();
                    let ghost before = out@;
                    proof {
                        assert(m@.take(i + 1).drop_last() =~= m@.take(i as int));
                        assert(m@.take(i + 1).last() == m@[i as int]);
                        json::lemma_member_is_read(m@, i as int);
                    }
                    match selector.str_at(key) {
                        Some(value) => {
                            out.push((key.to_owned(), value.to_owned()));
                            proof {
                                assert(out@.drop_last() =~= before);
                                let l = labels::labels_view(before);
                                let l2 = labels::labels_view(out@);
                                assert(l2 == l.insert(key@, value@));
                                assert(l2.dom() =~= json::members_view(m@.take(i + 1)).dom());
                                assert forall|k: Seq<char>| #[trigger] l2.contains_key(
                                    k,
                                ) implies all.contains_key(k) && all[k] == Js::Str(l2[k]) by {
                                    if k != key@ {
                                        assert(l.contains_key(k));
                                    }
                                }
                            }
                        },
                        None => {
                            assert(!(all[key@] is Str));
                            return None;
                        },
                    }
                    i += 1;
                }
                proof {
                    assert(m@.take(m.len() as int) =~= m@);
                    let l = labels::labels_view(out@);
                    assert forall|k: Seq<char>| #[trigger] all.contains_key(k) implies all[k] is Str by {
                        assert(l.contains_key(k));
                    }
                    assert(l =~= Map::new(
                        |k: Seq<char>| all.contains_key(k),
                        |k: Seq<char>| all[k]->Str_0,
                    ));
                }
                Some(out)
            },
            _ => None,
        },
    }
}

/// A create request to send: the node, the address, and the body.
pub struct CreateCall {
    pub node: String,
    pub url: String,
    pub body: Json,
}

/// The node that a request names, if it names one.
pub open spec fn requested_node(body: Js) -> Option<Seq<char>> {
    body.str_at("node"@)
}

/// The message for a selector that is no object of strings.
pub open spec fn bad_selector() -> Seq<char> {
    "\"nodeSelector\" must be a JSON object of strings"@
}

/// What becomes of a create request: it goes to its target, without the fields
/// that only choose the target.
pub open spec fn create_plan(
    m: Map<Seq<char>, Node>,
    body: Js,
    now: int,
    r: Result<CreateCall, AppError>,
) -> bool {
    let selector = selector_of(body);
    let rest = body.without("node"@).without("nodeSelector"@);
    let size = registry::sizes(rest);
    match (selector, r) {
        (None, Err(e)) => e.is(400, bad_selector()),
        (None, Ok(_)) => false,
        (Some(sel), Ok(call)) => {
            let n = m[call.node@];
            &&& m.contains_key(call.node@)
            &&& registry::is_target(m, n, requested_node(body), now, size.0, size.1, sel)
            &&& call.url@ == n.fluxvm_url + "/v1/vms"@
            &&& call.body.view() == rest
        },
        (Some(sel), Err(e)) => registry::has_no_target(
            m,
            e,
            requested_node(body),
            now,
            size.0,
            size.1,
            sel,
        ),
    }
}

/// Decides where a create request goes. The body may name a node in `node`, or
/// ask for labels in `nodeSelector`; neither is passed on.
pub fn create_vm(nodes: &Registry, body: Json, now: i64) -> (r: Result<CreateCall, AppError>)
    requires
        nodes.wf(),
    ensures
        create_plan(nodes.view(), body.view(), now as int, r),
{
    let requested = match body.str_at("node") {
        Some(s) => Some(s.to_owned()),
        None => None,
    };
    let selector = match string_map(&body, "nodeSelector") {
        Some(l) => l,
        None => {
            return Err(
                AppError {
                    status: 400,
                    message: "\"nodeSelector\" must be a JSON object of strings".to_owned(),
                },
            );
        },
    };
    let (rest, _) = body.without("node");
    let (rest, _) = rest.without("nodeSelector");
    let (vcpus, memory) = request_sizes(&rest);
    match resolve_target(nodes, requested, vcpus, memory, &selector, now) {
        Err(e) => Err(e),
        Ok(n) => {
            proof {
                registry::law_filed_by_name(*nodes);
            }
            let url = cat(n.fluxvm_url.as_str(), "/v1/vms");
            Ok(CreateCall { node: n.name, url, body: rest })
        },
    }
}

/// `node '<name>' rejected <what>: <reply>`.
pub open spec fn rejected(name: Seq<char>, what: Seq<char>, reply: Seq<char>) -> Seq<char> {
    "node '"@ + name + what + reply
}

/// The error for a node that rejects a request.
fn rejected_error(name: &str, what: &str, reply: &str) -> (r: AppError)
    ensures
        r.is(502, rejected(name@, what@, reply@)),
{
    let mut message = cat("node '", name);
    message.append(what);
    message.append(reply);
    AppError { status: 502, message }
}

/// The answer to a create request, given the node's reply to it.
pub fn created_vm(node: &str, success: bool, record: Json) -> (r: Result<Json, AppError>)
    ensures
        match r {
            Ok(j) => success && j.view() == one("node"@, Js::Str(node@)).with(
                "vm"@,
                record.view(),
            ),
            Err(e) => !success && e.is(
                502,
                rejected(node@, "' rejected create: "@, json::json_text(record.view())),
            ),
        },
{
    if !success {
        return Err(rejected_error(node, "' rejected create: ", record.render().as_str()));
    }
    Ok(Json::object().with("node", Json::text(node)).with("vm", record))
}

/// The machines of a reply, each tagged with the node that it runs on.
pub open spec fn tagged(items: Seq<Js>, node: Seq<char>) -> Seq<Js> {
    items.map_values(|vm: Js| vm.with("node"@, Js::Str(node)))
}

/// The machines that a reply lists.
pub open spec fn listed(body: Js) -> Seq<Js> {
    match body.array_at("items"@) {
        Some(v) => v,
        None => Seq::empty(),
    }
}

/// Tags the machines of a reply and appends them to `out`.
fn tag_into(out: &mut Vec<Json>, body: &Json, node: &str)
    ensures
        json::items_view(final(out)@) == json::items_view(old(out)@) + tagged(
            listed(body.view()),
            node@,
        ),
{
    match body.array_at("items") {
        None => {
            assert(tagged(listed(body.view()), node@) =~= Seq::<Js>::empty());
        },
        Some(items) => {
            let ghost all = json::items_view(items@);
            proof {
                json::lemma_items(items@);
            }
            let mut i: usize = 0;
            let ghost start = json::items_view(out@);
            assert(start =~= start + tagged(all.take(0), node@));
            while i < items.len()
                invariant
                    i <= items.len(),
                    all == json::items_view(items@),
                    all.len() == items.len(),
                    forall|j: int| 0 <= j < items.len() ==> all[j] == (#[trigger] items[j]).view(),
                    json::items_view(out@) == start + tagged(all.take(i as int), node@),
                decreases items.len() - i,
            {
                let vm = items[i].copy().with("node", Json::text(node));
                let ghost before = out@;
                out.push(vm);
                proof {
                    assert(out@.drop_last() =~= before);
                    assert(all.take(i + 1) =~= all.take(i as int).push(all[i as int]));
                    assert(tagged(all.take(i + 1), node@) =~= tagged(
                        all.take(i as int),
                        node@,
                    ).push(vm.view()));
                    assert(json::items_view(out@) =~= start + tagged(all.take(i + 1), node@));
                }
                i += 1;
            }
            assert(all.take(items.len() as int) =~= all);
        },
    }
}

/// What a node said to a list request.
pub enum ListReply {
    /// No reply came; the text says why.
    Unreachable(String),
    /// The reply is no JSON; the text says why.
    Unparsable(String),
    /// The reply, with its status as a text and whether that means success.
    Answered { success: bool, status: String, body: Json },
}

/// The listing of a whole fleet while it is being collected.
pub struct Listing {
    pub items: Vec<Json>,
    pub unreachable: Vec<Json>,
}

/// A node to ask for its machines.
pub struct Target {
    pub name: String,
    pub url: String,
}

/// A node that is not accounted for, and why.
pub open spec fn missing(node: Seq<char>, reason: Seq<char>) -> Js {
    one("node"@, Js::Str(node)).with("reason"@, Js::Str(reason))
}

/// Builds the entry of a node that is not accounted for.
fn missing_json(node: &str, reason: String) -> (r: Json)
    ensures
        r.view() == missing(node@, reason@),
{
    Json::object().with("node", Json::text(node)).with("reason", Json::Text(reason))
}

/// The nodes to ask: the healthy ones, in the order of the registry.
pub open spec fn targets_of(nodes: Seq<NodeInfo>, now: int) -> Seq<(Seq<char>, Seq<char>)>
    decreases nodes.len(),
{
    if nodes.len() == 0 {
        Seq::empty()
    } else {
        let before = targets_of(nodes.drop_last(), now);
        if nodes.last().view().healthy(now) {
            before.push((nodes.last().name@, nodes.last().fluxvm_url@ + "/v1/vms"@))
        } else {
            before
        }
    }
}

/// The entries of the stale nodes, in the order of the registry.
pub open spec fn stale_of(nodes: Seq<NodeInfo>, now: int) -> Seq<Js>
    decreases nodes.len(),
{
    if nodes.len() == 0 {
        Seq::empty()
    } else {
        let before = stale_of(nodes.drop_last(), now);
        if nodes.last().view().healthy(now) {
            before
        } else {
            before.push(missing(nodes.last().name@, "unhealthy (stale heartbeat)"@))
        }
    }
}

/// The reading of targets.
pub open spec fn targets_view(t: Seq<Target>) -> Seq<(Seq<char>, Seq<char>)> {
    t.map_values(|x: Target| (x.name@, x.url@))
}

/// Every node is either asked or named as missing from the start.
pub proof fn law_every_node_is_accounted_for(nodes: Seq<NodeInfo>, now: int, i: int)
    requires
        0 <= i < nodes.len(),
    ensures
        nodes[i].view().healthy(now) ==> targets_of(nodes, now).contains(
            (nodes[i].name@, nodes[i].fluxvm_url@ + "/v1/vms"@),
        ),
        !nodes[i].view().healthy(now) ==> stale_of(nodes, now).contains(
            missing(nodes[i].name@, "unhealthy (stale heartbeat)"@),
        ),
        targets_of(nodes, now).len() + stale_of(nodes, now).len() == nodes.len(),
    decreases nodes.len(),
{
    let init = nodes.drop_last();
    let target = (nodes[i].name@, nodes[i].fluxvm_url@ + "/v1/vms"@);
    let entry = missing(nodes[i].name@, "unhealthy (stale heartbeat)"@);
    let asked = targets_of(nodes, now);
    let stale = stale_of(nodes, now);
    lemma_asked_or_stale(nodes, now);
    if i < init.len() {
        law_every_node_is_accounted_for(init, now, i);
        assert(init[i] == nodes[i]);
        if nodes[i].view().healthy(now) {
            let k = choose|k: int|
                0 <= k < targets_of(init, now).len() && targets_of(init, now)[k] == target;
            assert(asked[k] == target);
        } else {
            let k = choose|k: int|
                0 <= k < stale_of(init, now).len() && stale_of(init, now)[k] == entry;
            assert(stale[k] == entry);
        }
    } else if nodes[i].view().healthy(now) {
        assert(asked[asked.len() - 1] == target);
    } else {
        assert(stale[stale.len() - 1] == entry);
    }
}

/// No node is both asked and named as missing.
proof fn lemma_asked_or_stale(nodes: Seq<NodeInfo>, now: int)
    ensures
        targets_of(nodes, now).len() + stale_of(nodes, now).len() == nodes.len(),
    decreases nodes.len(),
{
    if nodes.len() > 0 {
        lemma_asked_or_stale(nodes.drop_last(), now);
    }
}

/// What a reply adds to the machines.
pub open spec fn reply_items(node: Seq<char>, reply: ListReply) -> Seq<Js> {
    match reply {
        ListReply::Answered { success, status, body } => if success {
            tagged(listed(body.view()), node)
        } else {
            Seq::empty()
        },
        _ => Seq::empty(),
    }
}

/// What a reply adds to the nodes that are not accounted for.
pub open spec fn reply_missing(node: Seq<char>, reply: ListReply) -> Seq<Js> {
    match reply {
        ListReply::Unreachable(e) => seq![missing(node, "unreachable: "@ + e@)],
        ListReply::Unparsable(e) => seq![
            missing(node, "failed to parse node's VM list: "@ + e@),
        ],
        ListReply::Answered { success, status, body } => if success {
            Seq::empty()
        } else {
            seq![
                missing(
                    node,
                    "node rejected list ("@ + status@ + "): "@ + json::json_text(body.view()),
                ),
            ]
        },
    }
}

impl Listing {
    /// Starts a listing: names the stale nodes, and yields the nodes to ask.
    pub fn start(nodes: &Registry, now: i64) -> (r: (Listing, Vec<Target>))
        ensures
            r.0.items@.len() == 0,
            json::items_view(r.0.unreachable@) == stale_of(nodes.nodes@, now as int),
            targets_view(r.1@) == targets_of(nodes.nodes@, now as int),
    {
        let mut unreachable: Vec<Json> = Vec::new();
        let mut targets: Vec<Target> = Vec::new();
        let ghost ns = nodes.nodes@;
        let mut i: usize = 0;
        assert(ns.take(0) =~= Seq::<NodeInfo>::empty());
        assert(targets_view(targets@) =~= targets_of(ns.take(0), now as int));
        while i < nodes.nodes.len()
            invariant
                i <= nodes.nodes.len(),
                ns == nodes.nodes@,
                json::items_view(unreachable@) == stale_of(ns.take(i as int), now as int),
                targets_view(targets@) == targets_of(ns.take(i as int), now as int),
            decreases nodes.nodes.len() - i,
        {
            proof {
                assert(ns.take(i + 1).drop_last() =~= ns.take(i as int));
                assert(ns.take(i + 1).last() == ns[i as int]);
            }
            let n = &nodes.nodes[i];
            if n.healthy(now) {
                let ghost before = targets@;
                targets.push(
                    Target { name: n.name.clone(), url: cat(n.fluxvm_url.as_str(), "/v1/vms") },
                );
                proof {
                    assert(targets_view(targets@) =~= targets_view(before).push(
                        (n.name@, n.fluxvm_url@ + "/v1/vms"@),
                    ));
                }
            } else {
                let ghost before = unreachable@;
                unreachable.push(
                    missing_json(n.name.as_str(), "unhealthy (stale heartbeat)".to_owned()),
                );
                proof {
                    assert(unreachable@.drop_last() =~= before);
                }
            }
            i += 1;
        }
        assert(ns.take(nodes.nodes.len() as int) =~= ns);
        (Listing { items: Vec::new(), unreachable }, targets)
    }

    /// Takes a node's reply in: its machines, or the node's name and what went
    /// wrong.
    pub fn add_reply(&mut self, node: &str, reply: ListReply)
        ensures
            json::items_view(final(self).items@) == json::items_view(old(self).items@)
                + reply_items(node@, reply),
            json::items_view(final(self).unreachable@) == json::items_view(old(self).unreachable@)
                + reply_missing(node@, reply),
    {
        let ghost items = json::items_view(self.items@);
        let ghost missing_before = self.unreachable@;
        let ghost lost = json::items_view(self.unreachable@);
        assert(items + Seq::<Js>::empty() =~= items);
        assert(lost + Seq::<Js>::empty() =~= lost);
        let reason = match reply {
            ListReply::Unreachable(e) => cat("unreachable: ", e.as_str()),
            ListReply::Unparsable(e) => cat("failed to parse node's VM list: ", e.as_str()),
            ListReply::Answered { success, status, body } => {
                if success {
                    tag_into(&mut self.items, &body, node);
                    return;
                }
                let mut reason = cat("node rejected list (", status.as_str());
                reason.append("): ");
                reason.append(body.render().as_str());
                reason
            },
        };
        self.unreachable.push(missing_json(node, reason));
        proof {
            assert(self.unreachable@.drop_last() =~= missing_before);
            assert(lost.push(missing(node@, reason@)) =~= lost + seq![missing(node@, reason@)]);
        }
    }

    /// The answer: all machines, and the nodes that are not accounted for.
    pub fn finish(self) -> (r: Json)
        ensures
            r.view() == one("items"@, Js::Arr(json::items_view(self.items@))).with(
                "unreachable_nodes"@,
                Js::Arr(json::items_view(self.unreachable@)),
            ),
    {
        Json::object().with("items", Json::Array(self.items)).with(
            "unreachable_nodes",
            Json::Array(self.unreachable),
        )
    }
}

/// The address at which a node lists its machines.
pub fn node_vms(nodes: &Registry, name: &str) -> (r: Result<Target, AppError>)
    requires
        nodes.wf(),
    ensures
        match r {
            Ok(t) => nodes.view().contains_key(name@) && t.name@ == nodes.view()[name@].name
                && t.url@ == nodes.view()[name@].fluxvm_url + "/v1/vms"@,
            Err(e) => !nodes.view().contains_key(name@) && e.is(400, registry::unknown_node(name@)),
        },
{
    match nodes.get(name) {
        Some(n) => Ok(
            Target { name: n.name.clone(), url: cat(n.fluxvm_url.as_str(), "/v1/vms") },
        ),
        None => Err(unknown_node_error(400, name)),
    }
}

/// The answer to a request for one node's machines, given the node's reply.
pub fn listed_node_vms(name: &str, success: bool, body: Json) -> (r: Result<Json, AppError>)
    ensures
        match r {
            Ok(j) => success && j.view() == one("node"@, Js::Str(name@)).with(
                "items"@,
                Js::Arr(tagged(listed(body.view()), name@)),
            ),
            Err(e) => !success && e.is(
                502,
                rejected(name@, "' rejected list: "@, json::json_text(body.view())),
            ),
        },
{
    if !success {
        return Err(rejected_error(name, "' rejected list: ", body.render().as_str()));
    }
    let mut items: Vec<Json> = Vec::new();
    tag_into(&mut items, &body, name);
    assert(json::items_view(items@) =~= tagged(listed(body.view()), name@));
    Ok(Json::object().with("node", Json::text(name)).with("items", Json::Array(items)))
}

/// The address at which a node deletes a machine.
pub fn delete_vm(nodes: &Registry, name: &str, id: &str) -> (r: Result<Target, AppError>)
    requires
        nodes.wf(),
    ensures
        match r {
            Ok(t) => nodes.view().contains_key(name@) && t.name@ == nodes.view()[name@].name
                && t.url@ == nodes.view()[name@].fluxvm_url + "/v1/vms/"@ + id@,
            Err(e) => !nodes.view().contains_key(name@) && e.is(400, registry::unknown_node(name@)),
        },
{
    match nodes.get(name) {
        Some(n) => {
            let mut url = cat(n.fluxvm_url.as_str(), "/v1/vms/");
            url.append(id);
            Ok(Target { name: n.name.clone(), url })
        },
        None => Err(unknown_node_error(400, name)),
    }
}

/// The answer to a delete request, given whether the node succeeded and the
/// text that it sent.
pub fn deleted_vm(name: &str, success: bool, body: &str) -> (r: Result<(), AppError>)
    ensures
        match r {
            Ok(_) => success,
            Err(e) => !success && e.is(502, rejected(name@, "' rejected delete: "@, body@)),
        },
{
    if success {
        Ok(())
    } else {
        Err(rejected_error(name, "' rejected delete: ", body))
    }
}

} // verus!
