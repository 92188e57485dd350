//! The nodes of a fleet, and which of them gets a machine.

use vstd::prelude::*;

use crate::fleet::node;
use crate::fleet::node::{better, Node, NodeInfo, Score, DEFAULT_VM_MEMORY_MIB, DEFAULT_VM_VCPUS};
use crate::json::{Js, Json};
use crate::labels;
use crate::text;
use crate::text::{cat, same};

verus! {

/// An answer other than success: an HTTP status and a message.
#[derive(Debug)]
pub struct AppError {
    pub status: u16,
    pub message: String,
}

impl AppError {
    /// The error has this status and this message.
    pub open spec fn is(self, status: nat, message: Seq<char>) -> bool {
        self.status == status && self.message@ == message
    }

    /// The answer where a node could not be asked, or gave something unreadable: a bad
    /// gateway, with the cause.
    pub fn unreachable(cause: &str) -> (r: AppError)
        ensures
            r.is(502, cause@),
    {
        AppError { status: 502, message: cause.to_owned() }
    }
}

/// What a node reports in a heartbeat.
#[derive(Debug)]
pub struct RegisterRequest {
    pub name: String,
    pub fluxvm_url: String,
    pub vcpus_total: u32,
    pub memory_mib_total: u64,
    pub vm_count: usize,
    pub labels: Vec<(String, String)>,
}

/// The nodes of a fleet, no two of the same name.
#[derive(Debug)]
pub struct Registry {
    pub nodes: Vec<NodeInfo>,
}

/// No two nodes have the same name.
pub open spec fn distinct(nodes: Seq<NodeInfo>) -> bool {
    forall|i: int, j: int|
        0 <= i < j < nodes.len() ==> (#[trigger] nodes[i]).name@ != (#[trigger] nodes[j]).name@
}

/// The nodes by name.
pub open spec fn nodes_view(nodes: Seq<NodeInfo>) -> Map<Seq<char>, Node>
    decreases nodes.len(),
{
    if nodes.len() == 0 {
        Map::empty()
    } else {
        nodes_view(nodes.drop_last()).insert(nodes.last().name@, nodes.last().view())
    }
}

impl Registry {
    pub open spec fn wf(self) -> bool {
        distinct(self.nodes@)
    }

    pub open spec fn view(self) -> Map<Seq<char>, Node> {
        nodes_view(self.nodes@)
    }
}

/// The nodes by name are the nodes of the list.
pub proof fn lemma_nodes(nodes: Seq<NodeInfo>)
    requires
        distinct(nodes),
    ensures
        forall|i: int|
            0 <= i < nodes.len() ==> nodes_view(nodes).contains_key((#[trigger] nodes[i]).name@)
                && nodes_view(nodes)[nodes[i].name@] == nodes[i].view(),
        forall|k: Seq<char>| #[trigger]
            nodes_view(nodes).contains_key(k) ==> exists|i: int|
                0 <= i < nodes.len() && (#[trigger] nodes[i]).name@ == k,
    decreases nodes.len(),
{
    if nodes.len() > 0 {
        let init = nodes.drop_last();
        assert(distinct(init)) by {
            assert forall|i: int, j: int| 0 <= i < j < init.len() implies (
            #[trigger] init[i]).name@ != (#[trigger] init[j]).name@ by {
                assert(nodes[i].name@ != nodes[j].name@);
            }
        }
        lemma_nodes(init);
        assert forall|i: int| 0 <= i < nodes.len() implies nodes_view(nodes).contains_key(
            (#[trigger] nodes[i]).name@,
        ) && nodes_view(nodes)[nodes[i].name@] == nodes[i].view() by {
            if i < init.len() {
                assert(init[i] == nodes[i]);
                assert(nodes[i].name@ != nodes[nodes.len() - 1].name@);
            }
        }
        assert forall|k: Seq<char>| #[trigger] nodes_view(nodes).contains_key(k) implies exists|
            i: int,
        | 0 <= i < nodes.len() && (#[trigger] nodes[i]).name@ == k by {
            if k == nodes.last().name@ {
                assert(nodes[nodes.len() - 1].name@ == k);
            } else {
                assert(nodes_view(init).contains_key(k));
                let i = choose|i: int| 0 <= i < init.len() && (#[trigger] init[i]).name@ == k;
                assert(nodes[i].name@ == k);
            }
        }
    }
}

/// Each node is filed under its own name.
pub open spec fn filed(m: Map<Seq<char>, Node>) -> bool {
    forall|k: Seq<char>| #[trigger] m.contains_key(k) ==> m[k].name == k
}

/// The nodes of a registry are filed under their names.
pub proof fn law_filed_by_name(r: Registry)
    requires
        r.wf(),
    ensures
        filed(r.view()),
{
    lemma_nodes(r.nodes@);
    assert forall|k: Seq<char>| #[trigger] r.view().contains_key(k) implies r.view()[k].name
        == k by {
        let i = choose|i: int| 0 <= i < r.nodes@.len() && (#[trigger] r.nodes@[i]).name@ == k;
        assert(r.view()[k] == r.nodes@[i].view());
    }
}

/// The node at a position is replaced by one of the same name.
proof fn lemma_replace(nodes: Seq<NodeInfo>, i: int, n: NodeInfo)
    requires
        distinct(nodes),
        0 <= i < nodes.len(),
        n.name@ == nodes[i].name@,
    ensures
        distinct(nodes.update(i, n)),
        nodes_view(nodes.update(i, n)) == nodes_view(nodes).insert(n.name@, n.view()),
{
    let after = nodes.update(i, n);
    assert forall|a: int, b: int| 0 <= a < b < after.len() implies (#[trigger] after[a]).name@ != (
    #[trigger] after[b]).name@ by {
        assert(nodes[a].name@ != nodes[b].name@);
    }
    lemma_nodes(nodes);
    lemma_nodes(after);
    let x = nodes_view(after);
    let y = nodes_view(nodes).insert(n.name@, n.view());
    assert forall|k: Seq<char>|
        #![trigger x.dom().contains(k)]
        #![trigger y.dom().contains(k)]
        #![trigger x[k]]
        x.contains_key(k) == y.contains_key(k) && (x.contains_key(k) ==> x[k] == y[k]) by {
        if x.contains_key(k) {
            let j = choose|j: int| 0 <= j < after.len() && (#[trigger] after[j]).name@ == k;
            assert(x[k] == after[j].view());
            if j != i {
                assert(nodes[j].name@ == k);
                if j < i {
                    assert(nodes[j].name@ != nodes[i].name@);
                } else {
                    assert(nodes[i].name@ != nodes[j].name@);
                }
            }
        }
        if y.contains_key(k) {
            if k == n.name@ {
                assert(after[i].name@ == k);
            } else {
                let j = choose|j: int| 0 <= j < nodes.len() && (#[trigger] nodes[j]).name@ == k;
                assert(after[j].name@ == k);
            }
        }
    }
    assert(x =~= y);
}

/// A node of a new name is appended.
proof fn lemma_append(nodes: Seq<NodeInfo>, n: NodeInfo)
    requires
        distinct(nodes),
        !nodes_view(nodes).contains_key(n.name@),
    ensures
        distinct(nodes.push(n)),
        nodes_view(nodes.push(n)) == nodes_view(nodes).insert(n.name@, n.view()),
{
    let after = nodes.push(n);
    lemma_nodes(nodes);
    assert forall|a: int, b: int| 0 <= a < b < after.len() implies (#[trigger] after[a]).name@ != (
    #[trigger] after[b]).name@ by {
        if b < nodes.len() {
            assert(nodes[a].name@ != nodes[b].name@);
        } else {
            assert(nodes_view(nodes).contains_key(nodes[a].name@));
        }
    }
    assert(after.drop_last() =~= nodes);
}

/// The node at a position is taken out.
proof fn lemma_take_out(nodes: Seq<NodeInfo>, i: int)
    requires
        distinct(nodes),
        0 <= i < nodes.len(),
    ensures
        distinct(nodes.remove(i)),
        nodes_view(nodes.remove(i)) == nodes_view(nodes).remove(nodes[i].name@),
{
    let after = nodes.remove(i);
    assert forall|a: int, b: int| 0 <= a < b < after.len() implies (#[trigger] after[a]).name@ != (
    #[trigger] after[b]).name@ by {
        let x = if a < i {
            a
        } else {
            a + 1
        };
        let y = if b < i {
            b
        } else {
            b + 1
        };
        assert(nodes[x].name@ != nodes[y].name@);
    }
    lemma_nodes(nodes);
    lemma_nodes(after);
    let x = nodes_view(after);
    let y = nodes_view(nodes).remove(nodes[i].name@);
    assert forall|k: Seq<char>|
        #![trigger x.dom().contains(k)]
        #![trigger y.dom().contains(k)]
        #![trigger x[k]]
        x.contains_key(k) == y.contains_key(k) && (x.contains_key(k) ==> x[k] == y[k]) by {
        if x.contains_key(k) {
            let j = choose|j: int| 0 <= j < after.len() && (#[trigger] after[j]).name@ == k;
            let j2 = if j < i {
                j
            } else {
                j + 1
            };
            assert(nodes[j2] == after[j]);
            if j2 < i {
                assert(nodes[j2].name@ != nodes[i].name@);
            } else {
                assert(nodes[i].name@ != nodes[j2].name@);
            }
        }
        if y.contains_key(k) {
            let j = choose|j: int| 0 <= j < nodes.len() && (#[trigger] nodes[j]).name@ == k;
            if j < i {
                assert(after[j].name@ == k);
            } else {
                assert(after[j - 1].name@ == k);
            }
        }
    }
    assert(x =~= y);
}

impl Registry {
    /// A registry without nodes.
    pub fn new() -> (r: Registry)
        ensures
            r.wf(),
            r.view() == Map::<Seq<char>, Node>::empty(),
    {
        Registry { nodes: Vec::new() }
    }

    /// The position of the node `name`.
    fn position(&self, name: &str) -> (r: Option<usize>)
        requires
            self.wf(),
        ensures
            match r {
                Some(i) => i < self.nodes.len() && self.nodes[i as int].name@ == name@
                    && self.view().contains_key(name@) && self.view()[name@]
                    == self.nodes[i as int].view(),
                None => !self.view().contains_key(name@),
            },
    {
        let mut i: usize = 0;
        while i < self.nodes.len()
            invariant
                i <= self.nodes.len(),
                self.wf(),
                forall|j: int| 0 <= j < i ==> (#[trigger] self.nodes[j]).name@ != name@,
            decreases self.nodes.len() - i,
        {
            if same(self.nodes[i].name.as_str(), name) {
                proof {
                    lemma_nodes(self.nodes@);
                    assert(self.nodes@[i as int].name@ == name@);
                }
                return Some(i);
            }
            i += 1;
        }
        proof {
            lemma_nodes(self.nodes@);
        }
        None
    }

    /// The node `name`.
    pub fn get(&self, name: &str) -> (r: Option<&NodeInfo>)
        requires
            self.wf(),
        ensures
            match r {
                Some(n) => self.view().contains_key(name@) && self.view()[name@] == n.view(),
                None => !self.view().contains_key(name@),
            },
    {
        match self.position(name) {
            Some(i) => Some(&self.nodes[i]),
            None => None,
        }
    }

    /// Files a node under its name, in place of one that was there.
    pub fn insert(&mut self, n: NodeInfo)
        requires
            old(self).wf(),
        ensures
            final(self).wf(),
            final(self).view() == old(self).view().insert(n.name@, n.view()),
    {
        match self.position(n.name.as_str()) {
            Some(i) => {
                proof {
                    lemma_replace(self.nodes@, i as int, n);
                }
                self.nodes.set(i, n);
            },
            None => {
                proof {
                    lemma_append(self.nodes@, n);
                }
                self.nodes.push(n);
            },
        }
    }

    /// A registry of the given nodes; of two nodes of one name the later stays.
    pub fn from_nodes(nodes: Vec<NodeInfo>) -> (r: Registry)
        ensures
            r.wf(),
            r.view() == nodes_view(nodes@),
    {
        let mut out = Registry::new();
        let mut i: usize = 0;
        assert(nodes@.take(0) =~= Seq::<NodeInfo>::empty());
        while i < nodes.len()
            invariant
                i <= nodes.len(),
                out.wf(),
                out.view() == nodes_view(nodes@.take(i as int)),
            decreases nodes.len() - i,
        {
            let n = nodes[i].copy();
            proof {
                assert(nodes@.take(i + 1).drop_last() =~= nodes@.take(i as int));
            }
            out.insert(n);
            i += 1;
        }
        assert(nodes@.take(nodes.len() as int) =~= nodes@);
        out
    }
}

/// The fleet after a heartbeat: the node is as reported, and stays cordoned if
/// it was.
pub open spec fn registered(m: Map<Seq<char>, Node>, req: RegisterRequest, now: int) -> Map<
    Seq<char>,
    Node,
> {
    m.insert(
        req.name@,
        Node {
            name: req.name@,
            fluxvm_url: req.fluxvm_url@,
            vcpus_total: req.vcpus_total as nat,
            memory_mib_total: req.memory_mib_total as nat,
            vm_count: req.vm_count as nat,
            last_seen: now,
            cordoned: m.contains_key(req.name@) && m[req.name@].cordoned,
            labels: labels::labels_view(req.labels@),
        },
    )
}

/// Takes a heartbeat in. A new node starts uncordoned; a known node keeps what
/// an operator set, as its heartbeat says nothing of it.
pub fn apply_register(nodes: &mut Registry, req: RegisterRequest, now: i64)
    requires
        old(nodes).wf(),
    ensures
        final(nodes).wf(),
        final(nodes).view() == registered(old(nodes).view(), req, now as int),
{
    let cordoned = match nodes.get(req.name.as_str()) {
        Some(n) => n.cordoned,
        None => false,
    };
    nodes.insert(
        NodeInfo {
            name: req.name,
            fluxvm_url: req.fluxvm_url,
            vcpus_total: req.vcpus_total,
            memory_mib_total: req.memory_mib_total,
            vm_count: req.vm_count,
            last_seen: now,
            cordoned,
            labels: req.labels,
        },
    );
}

/// The fleet with a node's cordon set or lifted.
pub open spec fn with_cordon(m: Map<Seq<char>, Node>, name: Seq<char>, cordoned: bool) -> Map<
    Seq<char>,
    Node,
> {
    m.insert(name, Node { cordoned, ..m[name] })
}

/// Cordons a node, or lifts its cordon. Nothing happens, and the result is
/// `None`, where no node has the name.
pub fn set_cordoned(nodes: &mut Registry, name: &str, cordoned: bool) -> (r: Option<()>)
    requires
        old(nodes).wf(),
    ensures
        final(nodes).wf(),
        r is Some <==> old(nodes).view().contains_key(name@),
        r is Some ==> final(nodes).view() == with_cordon(old(nodes).view(), name@, cordoned),
        r is None ==> final(nodes).view() == old(nodes).view(),
{
    match nodes.position(name) {
        Some(i) => {
            let mut n = nodes.nodes[i].copy();
            n.cordoned = cordoned;
            proof {
                lemma_replace(nodes.nodes@, i as int, n);
            }
            nodes.nodes.set(i, n);
            Some(())
        },
        None => None,
    }
}

/// What came of removing a node.
#[derive(Debug, Clone, Copy, PartialEq, Eq, Structural)]
pub enum DeregisterOutcome {
    Removed,
    NotFound,
    StillHealthy,
}

/// Forgets a node, but only once its heartbeat has gone stale: a healthy node
/// would register itself again at once, without its cordon.
pub fn deregister(nodes: &mut Registry, name: &str, now: i64) -> (r: DeregisterOutcome)
    requires
        old(nodes).wf(),
    ensures
        final(nodes).wf(),
        r == (if !old(nodes).view().contains_key(name@) {
            DeregisterOutcome::NotFound
        } else if old(nodes).view()[name@].healthy(now as int) {
            DeregisterOutcome::StillHealthy
        } else {
            DeregisterOutcome::Removed
        }),
        final(nodes).view() == (if r == DeregisterOutcome::Removed {
            old(nodes).view().remove(name@)
        } else {
            old(nodes).view()
        }),
{
    match nodes.position(name) {
        None => DeregisterOutcome::NotFound,
        Some(i) => {
            if nodes.nodes[i].healthy(now) {
                return DeregisterOutcome::StillHealthy;
            }
            proof {
                lemma_take_out(nodes.nodes@, i as int);
            }
            let _ = nodes.nodes.remove(i);
            DeregisterOutcome::Removed
        },
    }
}

/// A cordon outlives every heartbeat of the node.
pub proof fn law_heartbeat_keeps_cordon(
    m: Map<Seq<char>, Node>,
    name: Seq<char>,
    cordoned: bool,
    req: RegisterRequest,
    now: int,
)
    requires
        m.contains_key(name),
        req.name@ == name,
    ensures
        registered(with_cordon(m, name, cordoned), req, now)[name].cordoned == cordoned,
{
}

/// A node that is not in the registry, such as one that was removed, registers
/// uncordoned.
pub proof fn law_new_node_is_uncordoned(m: Map<Seq<char>, Node>, req: RegisterRequest, now: int)
    ensures
        !registered(m.remove(req.name@), req, now)[req.name@].cordoned,
{
}

/// A heartbeat changes no other node.
pub proof fn law_heartbeat_is_local(
    m: Map<Seq<char>, Node>,
    req: RegisterRequest,
    now: int,
    other: Seq<char>,
)
    requires
        other != req.name@,
    ensures
        registered(m, req, now).contains_key(other) == m.contains_key(other),
        m.contains_key(other) ==> registered(m, req, now)[other] == m[other],
{
}

/// A node is a candidate for a machine of this size.
pub open spec fn candidate(
    n: Node,
    now: int,
    vcpus: nat,
    memory: nat,
    selector: Map<Seq<char>, Seq<char>>,
) -> bool {
    n.placeable(now, vcpus, memory) && n.selected(selector)
}

/// The best candidate of the fleet, if there is one.
pub open spec fn is_best(
    m: Map<Seq<char>, Node>,
    best: Option<Node>,
    now: int,
    vcpus: nat,
    memory: nat,
    selector: Map<Seq<char>, Seq<char>>,
) -> bool {
    match best {
        None => forall|k: Seq<char>| #[trigger]
            m.contains_key(k) ==> !candidate(m[k], now, vcpus, memory, selector),
        Some(n) => {
            &&& m.contains_key(n.name) && m[n.name] == n
            &&& candidate(n, now, vcpus, memory, selector)
            &&& forall|k: Seq<char>| #[trigger]
                m.contains_key(k) && k != n.name && candidate(m[k], now, vcpus, memory, selector)
                    ==> n.better_than(m[k], vcpus, memory)
        },
    }
}

/// Being better is a strict order without ties between different names.
proof fn lemma_better(a: Node, b: Node, c: Node, vcpus: nat, memory: nat)
    ensures
        a.better_than(b, vcpus, memory) && b.better_than(c, vcpus, memory) ==> a.better_than(
            c,
            vcpus,
            memory,
        ),
        a.name != b.name ==> a.better_than(b, vcpus, memory) || b.better_than(a, vcpus, memory),
        !(a.better_than(b, vcpus, memory) && b.better_than(a, vcpus, memory)),
{
    text::lemma_text_order(a.name, b.name, c.name);
}

/// A fleet has at most one best candidate.
pub proof fn law_placement_is_determined(
    m: Map<Seq<char>, Node>,
    a: Option<Node>,
    b: Option<Node>,
    now: int,
    vcpus: nat,
    memory: nat,
    selector: Map<Seq<char>, Seq<char>>,
)
    requires
        is_best(m, a, now, vcpus, memory, selector),
        is_best(m, b, now, vcpus, memory, selector),
    ensures
        a == b,
{
    match (a, b) {
        (Some(x), Some(y)) => {
            if x.name != y.name {
                lemma_better(x, y, y, vcpus, memory);
            }
        },
        (Some(x), None) => {
            assert(m.contains_key(x.name));
        },
        (None, Some(y)) => {
            assert(m.contains_key(y.name));
        },
        (None, None) => {},
    }
}

/// A machine goes to a node with room for it, if a candidate has that: the best candidate
/// then has, and of those that have, none has a larger free share.
pub proof fn law_room_goes_first(
    m: Map<Seq<char>, Node>,
    best: Option<Node>,
    name: Seq<char>,
    now: int,
    vcpus: nat,
    memory: nat,
    selector: Map<Seq<char>, Seq<char>>,
)
    requires
        is_best(m, best, now, vcpus, memory, selector),
        m.contains_key(name),
        candidate(m[name], now, vcpus, memory, selector),
        m[name].fits(vcpus, memory),
    ensures
        best matches Some(n) && n.fits(vcpus, memory) && n.residual() >= m[name].residual(),
{
}

/// Of two candidates that both have room, the one whose free shares of CPU and memory are
/// both larger than the scarcer share of the other goes first: the other is not picked.
pub proof fn law_the_freest_node_is_picked(
    m: Map<Seq<char>, Node>,
    best: Option<Node>,
    a: Seq<char>,
    b: Seq<char>,
    now: int,
    vcpus: nat,
    memory: nat,
    selector: Map<Seq<char>, Seq<char>>,
)
    requires
        is_best(m, best, now, vcpus, memory, selector),
        filed(m),
        m.contains_key(a),
        m.contains_key(b),
        candidate(m[a], now, vcpus, memory, selector),
        m[a].vm_count * 2 <= u32::MAX,
        m[b].vm_count * 2 <= u32::MAX,
        m[a].vm_count * 2 + vcpus <= m[a].vcpus_total,
        m[a].vm_count * 2048 + memory <= m[a].memory_mib_total,
        node::scarcer_share(m[a]) > node::scarcer_share(m[b]),
    ensures
        best matches Some(n) && n.name != b,
{
    if let Some(n) = best {
        if n.name == b {
            assert(a != b);
            assert(n.better_than(m[a], vcpus, memory));
        }
    }
}

/// What is picked is a node of the fleet that reported within the last 30 seconds, is not
/// cordoned, is as a whole large enough and carries every label that is asked for; nothing
/// is picked just where there is no such node.
pub proof fn law_picked_nodes_can_hold_the_machine(
    m: Map<Seq<char>, Node>,
    best: Option<Node>,
    name: Seq<char>,
    key: Seq<char>,
    now: int,
    vcpus: nat,
    memory: nat,
    selector: Map<Seq<char>, Seq<char>>,
)
    requires
        is_best(m, best, now, vcpus, memory, selector),
        m.contains_key(name),
    ensures
        best matches Some(n) ==> m.contains_key(n.name) && m[n.name] == n && now - n.last_seen
            < 30_000_000_000 && !n.cordoned && vcpus <= n.vcpus_total && memory
            <= n.memory_mib_total && (selector.contains_key(key) ==> n.labels.contains_key(key)
            && n.labels[key] == selector[key]),
        best is None ==> now - m[name].last_seen >= 30_000_000_000 || m[name].cordoned || vcpus
            > m[name].vcpus_total || memory > m[name].memory_mib_total || !m[name].selected(
            selector,
        ),
{
}

/// A heartbeat is kept whole: the node is found under its name with everything that it
/// reported, as of now.
pub proof fn law_heartbeat_is_kept_whole(m: Map<Seq<char>, Node>, req: RegisterRequest, now: int)
    ensures
        registered(m, req, now).contains_key(req.name@),
        ({
            let n = registered(m, req, now)[req.name@];
            &&& n.name == req.name@
            &&& n.fluxvm_url == req.fluxvm_url@
            &&& n.vcpus_total == req.vcpus_total
            &&& n.memory_mib_total == req.memory_mib_total
            &&& n.vm_count == req.vm_count
            &&& n.last_seen == now
            &&& n.labels == labels::labels_view(req.labels@)
            &&& n.healthy(now)
        }),
{
}

/// A cordon changes nothing but the cordon, and no other node.
pub proof fn law_cordon_is_all_that_changes(
    m: Map<Seq<char>, Node>,
    name: Seq<char>,
    cordoned: bool,
    other: Seq<char>,
)
    requires
        m.contains_key(name),
    ensures
        with_cordon(m, name, cordoned)[name].cordoned == cordoned,
        with_cordon(m, name, m[name].cordoned) == m,
        with_cordon(with_cordon(m, name, cordoned), name, m[name].cordoned) == m,
        other != name ==> with_cordon(m, name, cordoned).contains_key(other) == m.contains_key(other)
            && (m.contains_key(other) ==> with_cordon(m, name, cordoned)[other] == m[other]),
{
    assert(with_cordon(m, name, m[name].cordoned) =~= m);
    assert(with_cordon(with_cordon(m, name, cordoned), name, m[name].cordoned) =~= m);
}

/// A machine goes to the node that it names, and to a named node only; without one it goes
/// where it is placed. It has no target just where the named node is unknown, or no node can
/// hold it.
pub proof fn law_machines_go_where_they_belong(
    m: Map<Seq<char>, Node>,
    n: Node,
    e: AppError,
    name: Seq<char>,
    now: int,
    vcpus: nat,
    memory: nat,
    selector: Map<Seq<char>, Seq<char>>,
)
    ensures
        is_target(m, n, Some(name), now, vcpus, memory, selector) ==> m.contains_key(name) && n
            == m[name],
        has_no_target(m, e, Some(name), now, vcpus, memory, selector) ==> !m.contains_key(name)
            && e.status == 400,
        is_target(m, n, None, now, vcpus, memory, selector) ==> m.contains_key(n.name) && m[n.name]
            == n && !n.cordoned && now - n.last_seen < 30_000_000_000,
        has_no_target(m, e, None, now, vcpus, memory, selector) ==> e.status == 503 && (
        m.contains_key(name) ==> !candidate(m[name], now, vcpus, memory, selector)),
{
}

/// A machine that names its node goes there even if the node is cordoned.
pub proof fn law_named_node_bypasses_cordon(
    m: Map<Seq<char>, Node>,
    name: Seq<char>,
    now: int,
    vcpus: nat,
    memory: nat,
    selector: Map<Seq<char>, Seq<char>>,
)
    requires
        m.contains_key(name),
    ensures
        is_target(
            with_cordon(m, name, true),
            Node { cordoned: true, ..m[name] },
            Some(name),
            now,
            vcpus,
            memory,
            selector,
        ),
{
}

/// A cordoned or stale node is never the best candidate.
pub proof fn law_cordoned_or_stale_is_never_picked(
    m: Map<Seq<char>, Node>,
    best: Option<Node>,
    name: Seq<char>,
    now: int,
    vcpus: nat,
    memory: nat,
    selector: Map<Seq<char>, Seq<char>>,
)
    requires
        is_best(m, best, now, vcpus, memory, selector),
        m.contains_key(name),
        m[name].cordoned || !m[name].healthy(now),
    ensures
        best matches Some(n) ==> n.name != name,
{
}

/// Finds the best candidate for a machine: the healthy, uncordoned node that
/// carries the labels, can hold the machine and has the largest free share of
/// CPU and memory. Nodes with room for the machine by what is free go before
/// those that would hold it only when empty.
pub fn pick_best_capacity(
    nodes: &Registry,
    request_vcpus: u32,
    request_mem: u64,
    selector: &Vec<(String, String)>,
    now: i64,
) -> (r: Option<NodeInfo>)
    requires
        nodes.wf(),
    ensures
        is_best(
            nodes.view(),
            match r {
                Some(n) => Some(n.view()),
                None => None,
            },
            now as int,
            request_vcpus as nat,
            request_mem as nat,
            labels::labels_view(selector@),
        ),
{
    let ghost sel = labels::labels_view(selector@);
    let mut best: Option<(usize, Score)> = None;
    let mut i: usize = 0;
    while i < nodes.nodes.len()
        invariant
            i <= nodes.nodes.len(),
            nodes.wf(),
            sel == labels::labels_view(selector@),
            match best {
                None => forall|j: int|
                    0 <= j < i ==> !candidate(
                        (#[trigger] nodes.nodes[j]).view(),
                        now as int,
                        request_vcpus as nat,
                        request_mem as nat,
                        sel,
                    ),
                Some((b, s)) => {
                    &&& b < i
                    &&& candidate(
                        nodes.nodes[b as int].view(),
                        now as int,
                        request_vcpus as nat,
                        request_mem as nat,
                        sel,
                    )
                    &&& s.fits == nodes.nodes[b as int].view().fits(
                        request_vcpus as nat,
                        request_mem as nat,
                    )
                    &&& s.residual == nodes.nodes[b as int].view().residual()
                    &&& s.vm_count == nodes.nodes[b as int].vm_count
                    &&& forall|j: int|
                        0 <= j < i && j != b && candidate(
                            (#[trigger] nodes.nodes[j]).view(),
                            now as int,
                            request_vcpus as nat,
                            request_mem as nat,
                            sel,
                        ) ==> nodes.nodes[b as int].view().better_than(
                            nodes.nodes[j].view(),
                            request_vcpus as nat,
                            request_mem as nat,
                        )
                },
            },
        decreases nodes.nodes.len() - i,
    {
        if nodes.nodes[i].matches(selector) {
            if let Some(score) = nodes.nodes[i].capacity_score(request_vcpus, request_mem, now) {
                match best {
                    None => {
                        best = Some((i, score));
                    },
                    Some((b, s)) => {
                        proof {
                            let x = nodes.nodes[i as int].view();
                            let y = nodes.nodes[b as int].view();
                            assert(nodes.nodes[b as int].name@ != nodes.nodes[i as int].name@);
                            let v = request_vcpus as nat;
                            let q = request_mem as nat;
                            lemma_better(x, y, y, v, q);
                            assert forall|j: int|
                                0 <= j < i && j != b && y.better_than(
                                    (#[trigger] nodes.nodes[j]).view(),
                                    v,
                                    q,
                                ) && x.better_than(y, v, q) implies x.better_than(
                                nodes.nodes[j].view(),
                                v,
                                q,
                            ) by {
                                lemma_better(x, y, nodes.nodes[j].view(), v, q);
                            }
                        }
                        if better(
                            &score,
                            nodes.nodes[i].name.as_str(),
                            &s,
                            nodes.nodes[b].name.as_str(),
                        ) {
                            best = Some((i, score));
                        }
                    },
                }
            }
        }
        i += 1;
    }
    proof {
        lemma_nodes(nodes.nodes@);
        law_filed_by_name(*nodes);
    }
    match best {
        None => {
            assert forall|k: Seq<char>| #[trigger] nodes.view().contains_key(k) implies !candidate(
                nodes.view()[k],
                now as int,
                request_vcpus as nat,
                request_mem as nat,
                sel,
            ) by {
                let j = choose|j: int|
                    0 <= j < nodes.nodes.len() && (#[trigger] nodes.nodes@[j]).name@ == k;
                assert(nodes.view()[k] == nodes.nodes[j].view());
            }
            None
        },
        Some((b, _)) => {
            let n = nodes.nodes[b].copy();
            assert forall|k: Seq<char>| #[trigger]
                nodes.view().contains_key(k) && k != n.name@ && candidate(
                    nodes.view()[k],
                    now as int,
                    request_vcpus as nat,
                    request_mem as nat,
                    sel,
                ) implies n.view().better_than(
                    nodes.view()[k],
                    request_vcpus as nat,
                    request_mem as nat,
                ) by {
                let j = choose|j: int|
                    0 <= j < nodes.nodes.len() && (#[trigger] nodes.nodes@[j]).name@ == k;
                assert(nodes.view()[k] == nodes.nodes[j].view());
            }
            Some(n)
        },
    }
}

/// The message for a name that no node has.
pub open spec fn unknown_node(name: Seq<char>) -> Seq<char> {
    "no registered node named '"@ + name + "'"@
}

/// The error for a name that no node has.
pub fn unknown_node_error(status: u16, name: &str) -> (r: AppError)
    ensures
        r.is(status as nat, unknown_node(name@)),
{
    let mut message = cat("no registered node named '", name);
    message.append("'");
    AppError { status, message }
}

/// The message where no node is a candidate.
pub open spec fn nothing_placeable(selector: Map<Seq<char>, Seq<char>>) -> Seq<char> {
    if selector.len() == 0 {
        "no healthy, uncordoned nodes registered"@
    } else {
        "no healthy, uncordoned nodes registered that match the requested nodeSelector"@
    }
}

/// `n` is the target of a machine: the named node, whatever its state; or else
/// the best candidate.
pub open spec fn is_target(
    m: Map<Seq<char>, Node>,
    n: Node,
    requested: Option<Seq<char>>,
    now: int,
    vcpus: nat,
    memory: nat,
    selector: Map<Seq<char>, Seq<char>>,
) -> bool {
    match requested {
        Some(name) => m.contains_key(name) && m[name] == n,
        None => is_best(m, Some(n), now, vcpus, memory, selector),
    }
}

/// A machine has no target, and `e` says why: no node has the requested name,
/// or no node is a candidate.
pub open spec fn has_no_target(
    m: Map<Seq<char>, Node>,
    e: AppError,
    requested: Option<Seq<char>>,
    now: int,
    vcpus: nat,
    memory: nat,
    selector: Map<Seq<char>, Seq<char>>,
) -> bool {
    match requested {
        Some(name) => !m.contains_key(name) && e.is(400, unknown_node(name)),
        None => is_best(m, None, now, vcpus, memory, selector) && e.is(
            503,
            nothing_placeable(selector),
        ),
    }
}

/// A list of labels is empty just when its reading is.
proof fn lemma_no_labels(l: Seq<(String, String)>)
    ensures
        labels::labels_view(l).dom().finite(),
        labels::labels_view(l).len() == 0 <==> l.len() == 0,
    decreases l.len(),
{
    if l.len() > 0 {
        lemma_no_labels(l.drop_last());
        assert(labels::labels_view(l).dom().contains(l.last().0@));
        assert(labels::labels_view(l).len() != 0) by {
            if labels::labels_view(l).dom().len() == 0 {
                assert(labels::labels_view(l).dom() =~= Set::<Seq<char>>::empty());
            }
        }
    } else {
        assert(labels::labels_view(l).dom() =~= Set::<Seq<char>>::empty());
    }
}

/// Decides where a machine goes. Naming a node bypasses placement, and so also
/// a cordon.
pub fn resolve_target(
    nodes: &Registry,
    requested_node: Option<String>,
    req_vcpus: u32,
    req_mem: u64,
    selector: &Vec<(String, String)>,
    now: i64,
) -> (r: Result<NodeInfo, AppError>)
    requires
        nodes.wf(),
    ensures
        match r {
            Ok(n) => is_target(
                nodes.view(),
                n.view(),
                text::optional_string(requested_node),
                now as int,
                req_vcpus as nat,
                req_mem as nat,
                labels::labels_view(selector@),
            ),
            Err(e) => has_no_target(
                nodes.view(),
                e,
                text::optional_string(requested_node),
                now as int,
                req_vcpus as nat,
                req_mem as nat,
                labels::labels_view(selector@),
            ),
        },
{
    match requested_node {
        Some(name) => match nodes.get(name.as_str()) {
            Some(n) => Ok(n.copy()),
            None => Err(unknown_node_error(400, name.as_str())),
        },
        None => match pick_best_capacity(nodes, req_vcpus, req_mem, selector, now) {
            Some(n) => Ok(n),
            None => {
                proof {
                    lemma_no_labels(selector@);
                }
                let message = if selector.len() == 0 {
                    "no healthy, uncordoned nodes registered".to_owned()
                } else {
                    "no healthy, uncordoned nodes registered that match the requested nodeSelector".to_owned()
                };
                Err(AppError { status: 503, message })
            },
        },
    }
}

/// The size that a request asks for, with defaults for what it leaves out. The
/// number of virtual CPUs is taken as a 32-bit number.
pub open spec fn sizes(body: Js) -> (nat, nat) {
    (
        match body.u64_at("vcpus"@) {
            Some(n) => n as nat % 0x1_0000_0000,
            None => DEFAULT_VM_VCPUS as nat,
        },
        match body.u64_at("memory_mib"@) {
            Some(n) => n as nat,
            None => DEFAULT_VM_MEMORY_MIB as nat,
        },
    )
}

/// A request has the size that it names, in each of the two on its own, and else that of a
/// usual machine.
pub proof fn law_sizes_are_those_asked_for(body: Js)
    ensures
        body.u64_at("vcpus"@) matches Some(n) ==> (n <= u32::MAX ==> sizes(body).0 == n) && (n
            - sizes(body).0) % 0x1_0000_0000 == 0,
        sizes(body).0 <= u32::MAX,
        body.u64_at("vcpus"@) is None ==> sizes(body).0 == 2,
        body.u64_at("memory_mib"@) matches Some(n) ==> sizes(body).1 == n,
        body.u64_at("memory_mib"@) is None ==> sizes(body).1 == 2048,
{
}

/// Reads the size that a request asks for.
pub fn request_sizes(body: &Json) -> (r: (u32, u64))
    ensures
        (r.0 as nat, r.1 as nat) == sizes(body.view()),
{
    let vcpus: u32 = match body.u64_at("vcpus") {
        Some(n) => (n % 0x1_0000_0000) as u32,
        None => DEFAULT_VM_VCPUS,
    };
    let memory: u64 = match body.u64_at("memory_mib") {
        Some(n) => n,
        None => DEFAULT_VM_MEMORY_MIB,
    };
    (vcpus, memory)
}

} // verus!
