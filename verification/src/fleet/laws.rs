//! What the registry and its callers say to each other: nothing of it is lost, and nothing is
//! mistaken for something else.

use vstd::prelude::*;

use crate::fleet::agent;
use crate::fleet::central;
use crate::fleet::central::{CreateCall, ListReply};
use crate::fleet::client;
use crate::fleet::node::{Node, NodeInfo};
use crate::fleet::registry;
use crate::fleet::registry::AppError;
use crate::json::Js;
use crate::labels;
use crate::sandbox_index;
use crate::sandbox_index::Entry;
use crate::text;

verus! {

/// The member `key` of an object.
pub open spec fn member(j: Js, key: Seq<char>) -> Option<Js> {
    match j {
        Js::Obj(m) => if m.contains_key(key) {
            Some(m[key])
        } else {
            None
        },
        _ => None,
    }
}

// ---------------------------------------------------------------------------
// Totals
// ---------------------------------------------------------------------------

/// What the fleet has is what all its nodes have together, each counted once; only the ones
/// that report count as healthy.
pub proof fn law_totals_add_up(nodes: Seq<NodeInfo>, n: NodeInfo, now: int)
    ensures
        ({
            let none = central::totals(Seq::empty(), now);
            let t = central::totals(nodes, now);
            let u = central::totals(nodes.push(n), now);
            &&& none.nodes == 0 && none.healthy == 0 && none.vcpus == 0 && none.memory_mib == 0
            &&& u.nodes == t.nodes + 1
            &&& n.view().healthy(now) ==> u.healthy == t.healthy + 1
            &&& !n.view().healthy(now) ==> u.healthy == t.healthy
            &&& t.vcpus + n.view().vcpus_total <= u64::MAX ==> u.vcpus == t.vcpus
                + n.view().vcpus_total
            &&& t.memory_mib + n.view().memory_mib_total <= u64::MAX ==> u.memory_mib == t.memory_mib
                + n.view().memory_mib_total
        }),
{
    assert(nodes.push(n).drop_last() =~= nodes);
}

/// The totals are told by their names, and nothing else is.
pub proof fn law_totals_are_told(nodes: Seq<NodeInfo>, now: int)
    ensures
        ({
            let t = central::totals(nodes, now);
            let j = central::totals_json(t);
            &&& member(j, "nodes_total"@) == Some(Js::Int(t.nodes as int))
            &&& member(j, "nodes_healthy"@) == Some(Js::Int(t.healthy as int))
            &&& member(j, "vcpus_total"@) == Some(Js::Int(t.vcpus as int))
            &&& member(j, "memory_mib_total"@) == Some(Js::Int(t.memory_mib as int))
            &&& forall|k: Seq<char>| #[trigger]
                member(j, k) is Some ==> k == "nodes_total"@ || k == "nodes_healthy"@ || k
                    == "vcpus_total"@ || k == "memory_mib_total"@
        }),
{
    reveal_strlit("nodes_total");
    reveal_strlit("nodes_healthy");
    reveal_strlit("vcpus_total");
    reveal_strlit("memory_mib_total");
    assert("nodes_total"@.len() == 11 && "nodes_total"@[0] == 'n');
    assert("nodes_healthy"@.len() == 13);
    assert("vcpus_total"@.len() == 11 && "vcpus_total"@[0] == 'v');
    assert("memory_mib_total"@.len() == 16);
}

// ---------------------------------------------------------------------------
// New machines
// ---------------------------------------------------------------------------

/// The labels that a request asks for are the strings of its object; without one it asks for
/// none, and anything else is refused.
pub proof fn law_selectors_are_read(body: Js, key: Seq<char>, k: Seq<char>)
    ensures
        member(body, key) is None ==> central::string_map_of(body, key) == Some(
            Map::<Seq<char>, Seq<char>>::empty(),
        ),
        member(body, key) matches Some(x) ==> (!(x is Obj) ==> central::string_map_of(body, key)
            is None) && (member(x, k) matches Some(y) && !(y is Str) ==> central::string_map_of(
            body,
            key,
        ) is None),
        central::string_map_of(body, key) matches Some(l) ==> (member(body, key) matches Some(x)
            ==> (l.contains_key(k) <==> member(x, k) is Some) && (member(x, k) matches Some(y)
            ==> y == Js::Str(l[k]))),
{
    if let Some(Js::Obj(m)) = body.get(key) {
        assert(m.contains_key(k) <==> member(Js::Obj(m), k) is Some);
    }
}

/// A request for a new machine goes to a node of the registry, at that node's own address; a
/// node that it names is the one. What it says of the machine is passed on as it is, without
/// what only chooses the node.
pub proof fn law_create_requests_are_passed_on(
    m: Map<Seq<char>, Node>,
    body: Js,
    now: int,
    call: CreateCall,
    key: Seq<char>,
)
    requires
        central::create_plan(m, body, now, Ok::<CreateCall, AppError>(call)),
    ensures
        m.contains_key(call.node@),
        call.url@ == m[call.node@].fluxvm_url + "/v1/vms"@,
        member(body, "node"@) matches Some(Js::Str(name)) ==> m.contains_key(name) && m[call.node@]
            == m[name],
        key != "node"@ && key != "nodeSelector"@ ==> member(call.body.view(), key) == member(
            body,
            key,
        ),
        member(call.body.view(), "node"@) is None,
        member(call.body.view(), "nodeSelector"@) is None,
        !(member(body, "node"@) matches Some(Js::Str(_))) ==> !m[call.node@].cordoned && now
            - m[call.node@].last_seen < 30_000_000_000,
{
    let selector = central::selector_of(body)->0;
    let rest = body.without("node"@).without("nodeSelector"@);
    let size = registry::sizes(rest);
    let n = m[call.node@];
    if let Some(name) = central::requested_node(body) {
        registry::law_machines_go_where_they_belong(
            m,
            n,
            arbitrary(),
            name,
            now,
            size.0,
            size.1,
            selector,
        );
    } else {
        registry::law_machines_go_where_they_belong(
            m,
            n,
            arbitrary(),
            call.node@,
            now,
            size.0,
            size.1,
            selector,
        );
    }
}

/// A request without a sound selector is refused, and so is one that names an unknown node.
pub proof fn law_wrong_create_requests_are_refused(
    m: Map<Seq<char>, Node>,
    body: Js,
    now: int,
    r: Result<CreateCall, AppError>,
)
    requires
        central::create_plan(m, body, now, r),
    ensures
        central::string_map_of(body, "nodeSelector"@) is None ==> (r matches Err(e) && e.status
            == 400),
        central::string_map_of(body, "nodeSelector"@) is Some ==> (member(body, "node"@) matches Some(
            Js::Str(name),
        ) ==> (!m.contains_key(name) ==> (r matches Err(e) && e.status == 400)) && (m.contains_key(
            name,
        ) ==> r is Ok)),
{
    let size = registry::sizes(body.without("node"@).without("nodeSelector"@));
    if let Some(sel) = central::selector_of(body) {
        if let Some(name) = central::requested_node(body) {
            if let Err(e) = r {
                registry::law_machines_go_where_they_belong(
                    m,
                    arbitrary(),
                    e,
                    name,
                    now,
                    size.0,
                    size.1,
                    sel,
                );
            } else {
                registry::law_machines_go_where_they_belong(
                    m,
                    m[r->Ok_0.node@],
                    arbitrary(),
                    name,
                    now,
                    size.0,
                    size.1,
                    sel,
                );
            }
        }
    }
}

// ---------------------------------------------------------------------------
// Lists
// ---------------------------------------------------------------------------

/// The machines of a node are all kept, in their order and as the node describes them; each
/// is told its node.
pub proof fn law_machines_are_tagged(
    node: Seq<char>,
    body: Js,
    items: Seq<Js>,
    i: int,
    key: Seq<char>,
)
    requires
        member(body, "items"@) == Some(Js::Arr(items)),
        0 <= i < items.len(),
    ensures
        ({
            let list = central::tagged(central::listed(body), node);
            &&& list.len() == items.len()
            &&& items[i] is Obj ==> member(list[i], "node"@) == Some(Js::Str(node))
            &&& key != "node"@ ==> member(list[i], key) == member(items[i], key)
        }),
{
}

/// A node that answers adds its machines; one that does not is named, with the reason, and
/// adds none.
pub proof fn law_silent_nodes_are_named(node: Seq<char>, reply: ListReply)
    ensures
        central::reply_missing(node, reply).len() == 0 <==> (reply matches ListReply::Answered {
            success,
            ..
        } && success),
        central::reply_missing(node, reply).len() <= 1,
        central::reply_missing(node, reply).len() == 1 ==> member(
            central::reply_missing(node, reply)[0],
            "node"@,
        ) == Some(Js::Str(node)) && member(central::reply_missing(node, reply)[0], "reason"@) is Some
            && central::reply_items(node, reply).len() == 0,
        reply matches ListReply::Answered { success, body, .. } ==> (success ==> central::reply_items(
            node,
            reply,
        ).len() == central::listed(body.view()).len()),
{
    reveal_strlit("node");
    reveal_strlit("reason");
    assert("node"@.len() == 4 && "reason"@.len() == 6);
}

/// Only healthy nodes are asked, each at its own address.
pub proof fn law_healthy_nodes_are_asked(nodes: Seq<NodeInfo>, now: int, k: int)
    requires
        0 <= k < central::targets_of(nodes, now).len(),
    ensures
        exists|i: int|
            0 <= i < nodes.len() && (#[trigger] nodes[i]).view().healthy(now) && central::targets_of(
                nodes,
                now,
            )[k] == (nodes[i].name@, nodes[i].fluxvm_url@ + "/v1/vms"@),
    decreases nodes.len(),
{
    let before = nodes.drop_last();
    let n = nodes.len() - 1;
    let a = central::targets_of(before, now);
    if k < a.len() {
        law_healthy_nodes_are_asked(before, now, k);
        let i = choose|i: int|
            0 <= i < before.len() && (#[trigger] before[i]).view().healthy(now) && a[k] == (
                before[i].name@,
                before[i].fluxvm_url@ + "/v1/vms"@,
            );
        assert(nodes[i] == before[i]);
    } else {
        assert(nodes[n].view().healthy(now));
    }
}

// ---------------------------------------------------------------------------
// Heartbeats
// ---------------------------------------------------------------------------

/// The names of the fields of a heartbeat differ.
proof fn lemma_heartbeat_names()
    ensures
        seq![
            "name"@,
            "fluxvm_url"@,
            "vcpus_total"@,
            "memory_mib_total"@,
            "vm_count"@,
            "labels"@,
        ].no_duplicates(),
{
    reveal_strlit("name");
    reveal_strlit("fluxvm_url");
    reveal_strlit("vcpus_total");
    reveal_strlit("memory_mib_total");
    reveal_strlit("vm_count");
    reveal_strlit("labels");
    assert("name"@.len() == 4);
    assert("fluxvm_url"@.len() == 10);
    assert("vcpus_total"@.len() == 11);
    assert("memory_mib_total"@.len() == 16);
    assert("vm_count"@.len() == 8);
    assert("labels"@.len() == 6);
}

/// A heartbeat tells each thing under its own name.
pub proof fn law_heartbeats_tell_all(
    name: Seq<char>,
    url: Seq<char>,
    vcpus: nat,
    memory: nat,
    count: nat,
)
    ensures
        ({
            let j = agent::heartbeat_json(name, url, vcpus, memory, count);
            &&& member(j, "name"@) == Some(Js::Str(name))
            &&& member(j, "fluxvm_url"@) == Some(Js::Str(url))
            &&& member(j, "vcpus_total"@) == Some(Js::Int(vcpus as int))
            &&& member(j, "memory_mib_total"@) == Some(Js::Int(memory as int))
            &&& member(j, "vm_count"@) == Some(Js::Int(count as int))
        }),
{
    lemma_heartbeat_names();
    let n = seq![
        "name"@,
        "fluxvm_url"@,
        "vcpus_total"@,
        "memory_mib_total"@,
        "vm_count"@,
        "labels"@,
    ];
    assert(n[0] == "name"@ && n[1] == "fluxvm_url"@ && n[2] == "vcpus_total"@ && n[3]
        == "memory_mib_total"@ && n[4] == "vm_count"@ && n[5] == "labels"@);
}

/// A heartbeat that is accepted is read by the names of its fields.
pub proof fn law_heartbeats_are_read(body: Js)
    requires
        body is Obj,
        agent::heartbeat_of(body) is Some,
    ensures
        ({
            let q = agent::heartbeat_of(body)->0;
            &&& member(body, "name"@) == Some(Js::Str(q.name))
            &&& member(body, "fluxvm_url"@) == Some(Js::Str(q.fluxvm_url))
            &&& member(body, "vcpus_total"@) == Some(Js::Int(q.vcpus_total as int))
            &&& member(body, "memory_mib_total"@) == Some(Js::Int(q.memory_mib_total as int))
            &&& member(body, "vm_count"@) == Some(Js::Int(q.vm_count as int))
            &&& member(body, "labels"@) is None ==> q.labels == Map::<Seq<char>, Seq<char>>::empty()
            &&& member(body, "labels"@) matches Some(l) ==> forall|k: Seq<char>|
                (#[trigger] q.labels.contains_key(k) <==> member(l, k) is Some) && (
                q.labels.contains_key(k) ==> member(l, k) == Some(Js::Str(q.labels[k])))
        }),
{
    let q = agent::heartbeat_of(body)->0;
    if let Some(l) = member(body, "labels"@) {
        assert forall|k: Seq<char>|
            (#[trigger] q.labels.contains_key(k) <==> member(l, k) is Some) && (
            q.labels.contains_key(k) ==> member(l, k) == Some(Js::Str(q.labels[k]))) by {
            law_selectors_are_read(body, "labels"@, k);
        }
    }
}

/// A node has the memory that its system reports, in whole MiB: the number behind the name of
/// the first line for it, in KiB.
pub proof fn law_memory_is_read(lines: Seq<Seq<char>>, i: int, kib: nat)
    requires
        0 <= i < lines.len(),
        kib <= u64::MAX,
        text::has_prefix(lines[i], "MemTotal:"@),
        text::words_of(lines[i]).len() >= 2,
        text::words_of(lines[i])[1] == text::decimal_text(kib),
        forall|j: int| 0 <= j < i ==> !text::has_prefix(#[trigger] lines[j], "MemTotal:"@),
    ensures
        agent::memory_of(lines) matches Some(mib) && mib * 1024 <= kib < (mib + 1) * 1024,
    decreases lines.len(),
{
    text::law_decimal_round_trip(kib);
    if i > 0 {
        let rest = lines.skip(1);
        assert(!text::has_prefix(lines[0], "MemTotal:"@));
        assert(rest[i - 1] == lines[i]);
        assert forall|j: int| 0 <= j < i - 1 implies !text::has_prefix(
            #[trigger] rest[j],
            "MemTotal:"@,
        ) by {
            assert(rest[j] == lines[j + 1]);
        }
        law_memory_is_read(rest, i - 1, kib);
    }
}

// ---------------------------------------------------------------------------
// The command line
// ---------------------------------------------------------------------------

/// What labels are set on top of members.
proof fn lemma_with_labels(m: Map<Seq<char>, Js>, selector: Seq<(String, String)>, k: Seq<char>)
    ensures
        ({
            let r = client::with_labels(m, selector);
            let l = labels::labels_view(selector);
            &&& l.contains_key(k) ==> r.contains_key(k) && r[k] == Js::Str(l[k])
            &&& !l.contains_key(k) ==> r.contains_key(k) == m.contains_key(k)
            &&& !l.contains_key(k) && m.contains_key(k) ==> r[k] == m[k]
        }),
    decreases selector.len(),
{
    if selector.len() > 0 {
        lemma_with_labels(m, selector.drop_last(), k);
    }
}

/// The description of a machine is sent as it is, with the node and the labels of the command
/// line: those replace what the description says of them, and other labels of it stay.
pub proof fn law_descriptions_are_sent(
    spec: Js,
    node: Option<Seq<char>>,
    selector: Seq<(String, String)>,
    key: Seq<char>,
    k: Seq<char>,
)
    requires
        client::create_body(spec, node, selector) is Ok,
    ensures
        ({
            let body = client::create_body(spec, node, selector)->Ok_0;
            let l = labels::labels_view(selector);
            &&& key != "node"@ && key != "nodeSelector"@ ==> member(body, key) == member(spec, key)
            &&& node matches Some(n) ==> member(body, "node"@) == Some(Js::Str(n))
            &&& node is None ==> member(body, "node"@) == member(spec, "node"@)
            &&& selector.len() == 0 ==> member(body, "nodeSelector"@) == member(
                spec,
                "nodeSelector"@,
            )
            &&& l.contains_key(k) ==> (member(body, "nodeSelector"@) matches Some(s) && member(s, k)
                == Some(Js::Str(l[k])))
            &&& !l.contains_key(k) && selector.len() > 0 ==> (member(
                body,
                "nodeSelector"@,
            ) matches Some(s) && member(s, k) == (match member(spec, "nodeSelector"@) {
                Some(t) => member(t, k),
                None => None,
            }))
        }),
{
    reveal_strlit("node");
    reveal_strlit("nodeSelector");
    assert("node"@.len() == 4 && "nodeSelector"@.len() == 12);
    lemma_with_labels(Map::empty(), selector, k);
    if let Some(Js::Obj(m)) = spec.get("nodeSelector"@) {
        lemma_with_labels(m, selector, k);
    }
}

/// A description is sent just where it is an object whose labels, if labels are set, are one
/// too.
pub proof fn law_sound_descriptions_are_sent(
    spec: Js,
    node: Option<Seq<char>>,
    selector: Seq<(String, String)>,
)
    ensures
        client::create_body(spec, node, selector) is Ok <==> spec is Obj && (selector.len() == 0
            || member(spec, "nodeSelector"@) is None || (member(
            spec,
            "nodeSelector"@,
        ) matches Some(s) && s is Obj)),
{
    reveal_strlit("node");
    reveal_strlit("nodeSelector");
    assert("node"@.len() == 4 && "nodeSelector"@.len() == 12);
}

// ---------------------------------------------------------------------------
// Sandboxes
// ---------------------------------------------------------------------------

/// An entry of the index is told by the names of its fields, and read by them.
pub proof fn law_entries_tell_all(e: Entry, j: Js)
    ensures
        member(sandbox_index::entry_json(e), "id"@) == Some(Js::Str(e.id)),
        member(sandbox_index::entry_json(e), "node"@) == Some(Js::Str(e.node)),
        member(sandbox_index::entry_json(e), "status"@) == Some(Js::Str(e.status)),
        j is Obj ==> (sandbox_index::entry_of(j) == Some(e) <==> member(j, "id"@) == Some(
            Js::Str(e.id),
        ) && member(j, "node"@) == Some(Js::Str(e.node)) && member(j, "status"@) == Some(
            Js::Str(e.status),
        )),
{
    reveal_strlit("id");
    reveal_strlit("node");
    reveal_strlit("status");
    assert("id"@.len() == 2 && "node"@.len() == 4 && "status"@.len() == 6);
}

/// Each sandbox has a key of its own, in which its name stands.
pub proof fn law_sandboxes_have_their_keys(a: Seq<char>, b: Seq<char>)
    ensures
        sandbox_index::entry_key(a) == sandbox_index::entry_key(b) <==> a == b,
        text::has_suffix(sandbox_index::entry_key(a), a),
        text::has_prefix(sandbox_index::entry_key(a), "fluxvm:sandbox:"@),
{
    let p = "fluxvm:sandbox:"@;
    let n = p.len() as int;
    assert((p + a).skip(n) =~= a);
    assert((p + b).skip(n) =~= b);
    assert((p + a).take(n) =~= p);
    assert((p + a).len() - a.len() == n);
}

/// All nodes are described, in the order of the registry.
pub proof fn law_all_nodes_are_described(nodes: Seq<NodeInfo>, now: int, i: int)
    ensures
        central::node_list(nodes, now).len() == nodes.len(),
        0 <= i < nodes.len() ==> central::node_list(nodes, now)[i] == nodes[i].view().json(now),
        member(central::one("items"@, Js::Arr(central::node_list(nodes, now))), "items"@) == Some(
            Js::Arr(central::node_list(nodes, now)),
        ),
{
}

/// Cordoning and lifting a cordon are different requests.
pub proof fn law_cordon_requests()
    ensures
        client::cordon_verb(true) == "cordon"@,
        client::cordon_verb(false) == "uncordon"@,
{
}

/// Targets are read one by one.
pub proof fn law_targets_are_read(t: Seq<central::Target>, i: int)
    ensures
        central::targets_view(t).len() == t.len(),
        0 <= i < t.len() ==> central::targets_view(t)[i] == (t[i].name@, t[i].url@),
{
}

/// An error has its status and its message.
pub proof fn law_errors_are_told(e: AppError, status: nat, message: Seq<char>)
    requires
        e.is(status, message),
    ensures
        e.status == status,
        e.message@ == message,
{
}

} // verus!
