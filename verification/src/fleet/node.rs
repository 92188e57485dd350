//! One node of a fleet: its health, its room and its labels.

use vstd::prelude::*;

use crate::json::{Js, Json};
use crate::labels;
use crate::text;
use crate::text::{comes_before, same};

verus! {

/// How long a node counts as healthy after its last heartbeat, in nanoseconds.
pub const HEALTHY_WINDOW_NANOS: i64 = 30_000_000_000;

/// The virtual CPUs assumed for a virtual machine whose size is not known.
pub const DEFAULT_VM_VCPUS: u32 = 2;

/// The memory assumed for a virtual machine whose size is not known.
pub const DEFAULT_VM_MEMORY_MIB: u64 = 2048;

/// A host that runs virtual machines.
#[derive(Debug)]
pub struct NodeInfo {
    pub name: String,
    pub fluxvm_url: String,
    pub vcpus_total: u32,
    pub memory_mib_total: u64,
    pub vm_count: usize,
    /// When the node last reported, in nanoseconds since the Unix epoch.
    pub last_seen: i64,
    /// Set by an operator: nothing is placed here automatically.
    pub cordoned: bool,
    /// What the node says of itself, for selectors.
    pub labels: Vec<(String, String)>,
}

/// The mathematical reading of a node.
#[verifier::ext_equal]
pub struct Node {
    pub name: Seq<char>,
    pub fluxvm_url: Seq<char>,
    pub vcpus_total: nat,
    pub memory_mib_total: nat,
    pub vm_count: nat,
    pub last_seen: int,
    pub cordoned: bool,
    pub labels: Map<Seq<char>, Seq<char>>,
}

impl Node {
    /// The last heartbeat is less than the window old.
    pub open spec fn healthy(self, now: int) -> bool {
        now - self.last_seen < HEALTHY_WINDOW_NANOS
    }

    /// The virtual CPUs that the node's machines are assumed to use. The count
    /// of machines is taken as a 32-bit number.
    pub open spec fn used_vcpus(self) -> nat {
        let n = (self.vm_count % 0x1_0000_0000) * (DEFAULT_VM_VCPUS as nat);
        if n > u32::MAX {
            u32::MAX as nat
        } else {
            n
        }
    }

    /// The memory that the node's machines are assumed to use.
    pub open spec fn used_memory(self) -> nat {
        let n = self.vm_count * (DEFAULT_VM_MEMORY_MIB as nat);
        if n > u64::MAX {
            u64::MAX as nat
        } else {
            n
        }
    }

    /// The virtual CPUs that are assumed to be free.
    pub open spec fn free_vcpus(self) -> nat {
        if self.used_vcpus() > self.vcpus_total {
            0
        } else {
            (self.vcpus_total - self.used_vcpus()) as nat
        }
    }

    /// The memory that is assumed to be free.
    pub open spec fn free_memory(self) -> nat {
        if self.used_memory() > self.memory_mib_total {
            0
        } else {
            (self.memory_mib_total - self.used_memory()) as nat
        }
    }

    /// A machine of this size may be placed here: the node is healthy, not
    /// cordoned, and as a whole large enough.
    pub open spec fn placeable(self, now: int, vcpus: nat, memory: nat) -> bool {
        self.healthy(now) && !self.cordoned && vcpus <= self.vcpus_total && memory
            <= self.memory_mib_total
    }

    /// The smaller one of the free shares of CPU and memory, in ten-thousandths.
    pub open spec fn residual(self) -> nat {
        let cpu = if self.vcpus_total == 0 {
            0
        } else {
            self.free_vcpus() * 10_000 / self.vcpus_total
        };
        let memory = if self.memory_mib_total == 0 {
            0
        } else {
            self.free_memory() * 10_000 / self.memory_mib_total
        };
        if cpu <= memory {
            cpu
        } else {
            memory
        }
    }

    /// What is assumed to be free has room for a machine of this size.
    pub open spec fn fits(self, vcpus: nat, memory: nat) -> bool {
        vcpus <= self.free_vcpus() && memory <= self.free_memory()
    }

    /// A better place than `other` for a machine of this size: one with room for
    /// it before one without; then a larger free share; then fewer machines; then
    /// the smaller name.
    pub open spec fn better_than(self, other: Node, vcpus: nat, memory: nat) -> bool {
        if self.fits(vcpus, memory) != other.fits(vcpus, memory) {
            self.fits(vcpus, memory)
        } else if self.residual() != other.residual() {
            self.residual() > other.residual()
        } else if self.vm_count != other.vm_count {
            self.vm_count < other.vm_count
        } else {
            text::text_less(self.name, other.name)
        }
    }

    /// The node carries every label that the selector asks for.
    pub open spec fn selected(self, selector: Map<Seq<char>, Seq<char>>) -> bool {
        forall|k: Seq<char>| #[trigger]
            selector.contains_key(k) ==> labels::label(self.labels, k) == Some(selector[k])
    }

    /// The description of the node that callers get.
    pub open spec fn json(self, now: int) -> Js {
        Js::Obj(
            Map::<Seq<char>, Js>::empty().insert("name"@, Js::Str(self.name)).insert(
                "fluxvm_url"@,
                Js::Str(self.fluxvm_url),
            ).insert("vcpus_total"@, Js::Int(self.vcpus_total as int)).insert(
                "memory_mib_total"@,
                Js::Int(self.memory_mib_total as int),
            ).insert("vm_count"@, Js::Int(self.vm_count as int)).insert(
                "last_seen"@,
                Js::Str(timestamp_text(self.last_seen)),
            ).insert("healthy"@, Js::Bool(self.healthy(now))).insert(
                "cordoned"@,
                Js::Bool(self.cordoned),
            ).insert("free_vcpus"@, Js::Int(self.free_vcpus() as int)).insert(
                "free_memory_mib"@,
                Js::Int(self.free_memory() as int),
            ),
        )
    }
}

/// A point in time, in nanoseconds since the Unix epoch, as an RFC 3339 text.
pub uninterp spec fn timestamp_text(nanos: int) -> Seq<char>;

/// `chrono::DateTime::from_timestamp_nanos` and `to_rfc3339_opts`: the text of a
/// point in time in UTC, which depends on the time alone.
#[verifier::external_body]
fn rfc3339(nanos: i64) -> (r: String)
    ensures
        r@ == timestamp_text(nanos as int),
{
    chrono::DateTime::from_timestamp_nanos(nanos)
        .to_rfc3339_opts(chrono::SecondsFormat::AutoSi, true)
}

/// How good a place a node is for a machine.
#[derive(Debug, Clone, Copy, PartialEq, Eq, Structural)]
pub struct Score {
    /// What is free has room for the machine.
    pub fits: bool,
    /// The smaller one of the free shares, in ten-thousandths.
    pub residual: u64,
    pub vm_count: usize,
}

impl NodeInfo {
    pub open spec fn view(self) -> Node {
        Node {
            name: self.name@,
            fluxvm_url: self.fluxvm_url@,
            vcpus_total: self.vcpus_total as nat,
            memory_mib_total: self.memory_mib_total as nat,
            vm_count: self.vm_count as nat,
            last_seen: self.last_seen as int,
            cordoned: self.cordoned,
            labels: labels::labels_view(self.labels@),
        }
    }

    /// A copy of the node.
    pub fn copy(&self) -> (r: NodeInfo)
        ensures
            r.view() == self.view(),
    {
        NodeInfo {
            name: self.name.clone(),
            fluxvm_url: self.fluxvm_url.clone(),
            vcpus_total: self.vcpus_total,
            memory_mib_total: self.memory_mib_total,
            vm_count: self.vm_count,
            last_seen: self.last_seen,
            cordoned: self.cordoned,
            labels: labels::copy_labels(&self.labels),
        }
    }

    /// Tells whether the node reported recently.
    pub fn healthy(&self, now: i64) -> (r: bool)
        ensures
            r == self.view().healthy(now as int),
    {
        (now as i128) - (self.last_seen as i128) < HEALTHY_WINDOW_NANOS as i128
    }

    /// The virtual CPUs that the node's machines are assumed to use.
    pub fn estimated_used_vcpus(&self) -> (r: u32)
        ensures
            r == self.view().used_vcpus(),
    {
        let n: u64 = (self.vm_count as u64 % 0x1_0000_0000) * (DEFAULT_VM_VCPUS as u64);
        if n > u32::MAX as u64 {
            u32::MAX
        } else {
            n as u32
        }
    }

    /// The memory that the node's machines are assumed to use.
    pub fn estimated_used_memory_mib(&self) -> (r: u64)
        ensures
            r == self.view().used_memory(),
    {
        let n: u128 = (self.vm_count as u128) * (DEFAULT_VM_MEMORY_MIB as u128);
        if n > u64::MAX as u128 {
            u64::MAX
        } else {
            n as u64
        }
    }

    /// The virtual CPUs that are assumed to be free.
    pub fn free_vcpus(&self) -> (r: u32)
        ensures
            r == self.view().free_vcpus(),
    {
        self.vcpus_total.saturating_sub(self.estimated_used_vcpus())
    }

    /// The memory that is assumed to be free.
    pub fn free_memory_mib(&self) -> (r: u64)
        ensures
            r == self.view().free_memory(),
    {
        self.memory_mib_total.saturating_sub(self.estimated_used_memory_mib())
    }

    /// The score of the node for a machine of this size; none where the machine
    /// may not be placed here.
    pub fn capacity_score(&self, request_vcpus: u32, request_mem: u64, now: i64) -> (r: Option<
        Score,
    >)
        ensures
            match r {
                Some(s) => self.view().placeable(
                    now as int,
                    request_vcpus as nat,
                    request_mem as nat,
                ) && s.fits == self.view().fits(request_vcpus as nat, request_mem as nat)
                    && s.residual == self.view().residual() && s.vm_count == self.vm_count,
                None => !self.view().placeable(
                    now as int,
                    request_vcpus as nat,
                    request_mem as nat,
                ),
            },
    {
        if !self.healthy(now) || self.cordoned {
            return None;
        }
        // The estimate of what is in use may overshoot, so a node is left out
        // only where it could not hold the machine even when empty. One without
        // room by the estimate comes after all that have it.
        if self.vcpus_total < request_vcpus || self.memory_mib_total < request_mem {
            return None;
        }
        let free: u32 = self.free_vcpus();
        let cpu: u64 = if self.vcpus_total == 0 {
            0
        } else {
            free as u64 * 10_000 / self.vcpus_total as u64
        };
        let free_mem: u64 = self.free_memory_mib();
        let memory: u128 = if self.memory_mib_total == 0 {
            0
        } else {
            free_mem as u128 * 10_000 / self.memory_mib_total as u128
        };
        let residual: u64 = if cpu as u128 <= memory {
            cpu
        } else {
            memory as u64
        };
        let fits = request_vcpus <= free && request_mem <= free_mem;
        Some(Score { fits, residual, vm_count: self.vm_count })
    }

    /// Tells whether the node carries every label that the selector asks for.
    pub fn matches(&self, selector: &Vec<(String, String)>) -> (r: bool)
        ensures
            r == self.view().selected(labels::labels_view(selector@)),
    {
        let ghost s = labels::labels_view(selector@);
        let mut i: usize = 0;
        assert(selector@.take(0) =~= Seq::<(String, String)>::empty());
        while i < selector.len()
            invariant
                i <= selector.len(),
                s == labels::labels_view(selector@),
                forall|k: Seq<char>| #[trigger]
                    labels::labels_view(selector@.take(i as int)).contains_key(k) ==> s.contains_key(k)
                        && labels::label(labels::labels_view(self.labels@), k) == Some(s[k]),
            decreases selector.len() - i,
        {
            let ghost key = selector@[i as int].0@;
            proof {
                assert(selector@.take(i + 1).drop_last() =~= selector@.take(i as int));
                labels::lemma_label_kept(selector@, i as int);
            }
            // The value that counts for a key is the last one given for it.
            let mut n: usize = selector.len();
            let mut found = false;
            assert(selector@.take(n as int) =~= selector@);
            while !found
                invariant
                    i < n <= selector.len(),
                    s == labels::labels_view(selector@),
                    key == selector@[i as int].0@,
                    s.contains_key(key),
                    !found ==> labels::labels_view(selector@.take(n as int)).contains_key(key) && s[key]
                        == labels::labels_view(selector@.take(n as int))[key],
                    found ==> selector@[n - 1].0@ == key && s[key] == selector@[n - 1].1@,
                decreases
                        n,
                        if found {
                            0int
                        } else {
                            1int
                        },
            {
                proof {
                    assert(selector@.take(n as int).drop_last() =~= selector@.take(n - 1));
                    if n > i + 1 {
                        labels::lemma_label_kept(selector@.take(n - 1), i as int);
                    }
                }
                if same(selector[n - 1].0.as_str(), selector[i].0.as_str()) {
                    found = true;
                } else {
                    n -= 1;
                }
            }
            if !labels::has_label(&self.labels, selector[n - 1].0.as_str(), selector[n - 1].1.as_str()) {
                return false;
            }
            proof {
                let before = labels::labels_view(selector@.take(i as int));
                let after = labels::labels_view(selector@.take(i + 1));
                assert(selector@.take(i + 1).last() == selector@[i as int]);
                assert(after == before.insert(key, selector@[i as int].1@));
                assert forall|k: Seq<char>| #[trigger] after.contains_key(k) implies s.contains_key(
                    k,
                ) && labels::label(labels::labels_view(self.labels@), k) == Some(s[k]) by {
                    if k != key {
                        assert(before.contains_key(k));
                    }
                }
            }
            i += 1;
        }
        assert(selector@.take(selector.len() as int) =~= selector@);
        true
    }

    /// The description of the node that callers get.
    pub fn node_json(&self, now: i64) -> (r: Json)
        ensures
            r.view() == self.view().json(now as int),
    {
        Json::object().with("name", Json::text(self.name.as_str())).with(
            "fluxvm_url",
            Json::text(self.fluxvm_url.as_str()),
        ).with("vcpus_total", Json::Unsigned(self.vcpus_total as u64)).with(
            "memory_mib_total",
            Json::Unsigned(self.memory_mib_total),
        ).with("vm_count", Json::Unsigned(self.vm_count as u64)).with(
            "last_seen",
            Json::Text(rfc3339(self.last_seen)),
        ).with("healthy", Json::Bool(self.healthy(now))).with(
            "cordoned",
            Json::Bool(self.cordoned),
        ).with("free_vcpus", Json::Unsigned(self.free_vcpus() as u64)).with(
            "free_memory_mib",
            Json::Unsigned(self.free_memory_mib()),
        )
    }
}

/// Whether a node is a better place than another, given their scores.
pub fn better(a: &Score, a_name: &str, b: &Score, b_name: &str) -> (r: bool)
    ensures
        r == (if a.fits != b.fits {
            a.fits
        } else if a.residual != b.residual {
            a.residual > b.residual
        } else if a.vm_count != b.vm_count {
            a.vm_count < b.vm_count
        } else {
            text::text_less(a_name@, b_name@)
        }),
{
    if a.fits != b.fits {
        a.fits
    } else if a.residual != b.residual {
        a.residual > b.residual
    } else if a.vm_count != b.vm_count {
        a.vm_count < b.vm_count
    } else {
        comes_before(a_name, b_name)
    }
}

// ---------------------------------------------------------------------------
// Laws
// ---------------------------------------------------------------------------

/// What is left of `total` after `each` was taken `count` times; never less than nothing.
pub open spec fn left_over(total: nat, count: nat, each: nat) -> nat {
    if count * each > total {
        0
    } else {
        (total - count * each) as nat
    }
}

/// A part in ten-thousandths of the whole, rounded down; none of nothing.
pub open spec fn ten_thousandths(part: nat, whole: nat) -> nat {
    if whole == 0 {
        0
    } else {
        part * 10_000 / whole
    }
}

/// Every machine counts for 2 virtual CPUs and 2048 MiB, and the rest is free.
pub proof fn law_machines_use_their_share(n: Node)
    requires
        n.vm_count * 2 <= u32::MAX,
    ensures
        n.free_vcpus() == left_over(n.vcpus_total, n.vm_count, 2),
        n.free_memory() == left_over(n.memory_mib_total, n.vm_count, 2048),
        n.free_vcpus() <= n.vcpus_total,
        n.free_memory() <= n.memory_mib_total,
{
}

/// However many machines there are, no more is free than there is, and another machine
/// never frees memory.
pub proof fn law_room_shrinks(a: Node, b: Node)
    requires
        a.memory_mib_total == b.memory_mib_total,
        a.vcpus_total == b.vcpus_total,
        a.vm_count <= b.vm_count,
    ensures
        b.free_memory() <= a.free_memory() <= a.memory_mib_total,
        b.vm_count <= u32::MAX ==> b.free_vcpus() <= a.free_vcpus() <= a.vcpus_total,
{
}

/// The score of a node is bounded by both of its free shares, that of CPU and that of
/// memory, and is one of them in ten-thousandths, rounded down.
pub proof fn law_score_is_the_scarcer_share(n: Node)
    requires
        n.vm_count * 2 <= u32::MAX,
        n.vcpus_total > 0,
        n.memory_mib_total > 0,
    ensures
        ({
            let cpu = left_over(n.vcpus_total, n.vm_count, 2);
            let memory = left_over(n.memory_mib_total, n.vm_count, 2048);
            &&& n.residual() * n.vcpus_total <= cpu * 10_000
            &&& n.residual() * n.memory_mib_total <= memory * 10_000
            &&& (n.residual() + 1) * n.vcpus_total > cpu * 10_000 || (n.residual() + 1)
                * n.memory_mib_total > memory * 10_000
            &&& n.residual() <= 10_000
        }),
{
    let cpu = left_over(n.vcpus_total, n.vm_count, 2);
    let memory = left_over(n.memory_mib_total, n.vm_count, 2048);
    lemma_share((cpu * 10_000) as int, n.vcpus_total as int, n.residual() as int);
    lemma_share((memory * 10_000) as int, n.memory_mib_total as int, n.residual() as int);
    assert(n.residual() <= 10_000) by {
        let x = (cpu * 10_000) as int;
        let t = n.vcpus_total as int;
        assert(x / t <= 10_000) by (nonlinear_arith)
            requires
                x <= t * 10_000,
                t > 0,
        ;
    }
}

/// A number up to a rounded share stays below the share, and the next one above the share
/// does not.
proof fn lemma_share(x: int, whole: int, r: int)
    requires
        whole > 0,
        0 <= x,
        0 <= r,
    ensures
        r <= x / whole ==> r * whole <= x,
        r >= x / whole ==> (r + 1) * whole > x,
{
    vstd::arithmetic::div_mod::lemma_fundamental_div_mod(x, whole);
    vstd::arithmetic::div_mod::lemma_mod_bound(x, whole);
    let q = x / whole;
    assert(r <= q ==> r * whole <= whole * q) by (nonlinear_arith)
        requires
            whole > 0,
    ;
    assert(r >= q ==> (r + 1) * whole >= whole * q + whole) by (nonlinear_arith)
        requires
            whole > 0,
    ;
}

/// The smaller of the free shares of a node, CPU or memory.
pub open spec fn scarcer_share(n: Node) -> nat {
    let cpu = ten_thousandths(left_over(n.vcpus_total, n.vm_count, 2), n.vcpus_total);
    let memory = ten_thousandths(left_over(n.memory_mib_total, n.vm_count, 2048), n.memory_mib_total);
    if cpu < memory {
        cpu
    } else {
        memory
    }
}

/// Of two nodes that both have room, or both have none, the one whose CPU and memory are
/// both freer than what is scarcer at the other is the better place. Where the scarcer
/// shares are the same, it is the one with fewer machines, and then the one whose name comes
/// first.
pub proof fn law_freer_nodes_are_better(a: Node, b: Node, vcpus: nat, memory: nat)
    requires
        a.vm_count * 2 <= u32::MAX,
        b.vm_count * 2 <= u32::MAX,
        (vcpus <= left_over(a.vcpus_total, a.vm_count, 2) && memory <= left_over(
            a.memory_mib_total,
            a.vm_count,
            2048,
        )) == (vcpus <= left_over(b.vcpus_total, b.vm_count, 2) && memory <= left_over(
            b.memory_mib_total,
            b.vm_count,
            2048,
        )),
    ensures
        scarcer_share(a) > scarcer_share(b) ==> a.better_than(b, vcpus, memory) && !b.better_than(
            a,
            vcpus,
            memory,
        ),
        scarcer_share(a) == scarcer_share(b) && a.vm_count < b.vm_count ==> a.better_than(
            b,
            vcpus,
            memory,
        ),
        scarcer_share(a) == scarcer_share(b) && a.vm_count == b.vm_count && text::text_less(
            a.name,
            b.name,
        ) ==> a.better_than(b, vcpus, memory),
{
}

/// A node with room for a machine is a better place for it than one without.
pub proof fn law_room_counts_most(a: Node, b: Node, vcpus: nat, memory: nat)
    requires
        a.vm_count * 2 <= u32::MAX,
        b.vm_count * 2 <= u32::MAX,
        a.vm_count * 2 + vcpus <= a.vcpus_total,
        a.vm_count * 2048 + memory <= a.memory_mib_total,
        b.vm_count * 2 + vcpus > b.vcpus_total || b.vm_count * 2048 + memory > b.memory_mib_total,
        0 < vcpus,
        0 < memory,
    ensures
        a.better_than(b, vcpus, memory),
        !b.better_than(a, vcpus, memory),
{
}

/// A machine may be placed on a node that reported within the last 30 seconds, is not
/// cordoned and is as a whole large enough, and on no other.
pub proof fn law_placeable_nodes(n: Node, now: int, vcpus: nat, memory: nat)
    ensures
        n.placeable(now, vcpus, memory) <==> now - n.last_seen < 30_000_000_000 && !n.cordoned
            && vcpus <= n.vcpus_total && memory <= n.memory_mib_total,
        n.healthy(now) <==> now - n.last_seen < 30_000_000_000,
{
}

/// A selector is met just by the nodes that carry each of its labels with its value; the
/// empty one by all.
pub proof fn law_selectors_ask_for_labels(
    n: Node,
    selector: Map<Seq<char>, Seq<char>>,
    key: Seq<char>,
    value: Seq<char>,
)
    ensures
        n.selected(Map::empty()),
        n.selected(selector.insert(key, value)) ==> n.labels.contains_key(key) && n.labels[key]
            == value,
        n.selected(selector) && n.labels.contains_key(key) && n.labels[key] == value ==> n.selected(
            selector.insert(key, value),
        ),
{
    let more = selector.insert(key, value);
    assert(more.contains_key(key));
}

/// The description of a node says what the node is.
pub proof fn law_descriptions_are_true(n: Node, now: int)
    requires
        n.vm_count * 2 <= u32::MAX,
    ensures
        n.json(now).get("name"@) == Some(Js::Str(n.name)),
        n.json(now).get("fluxvm_url"@) == Some(Js::Str(n.fluxvm_url)),
        n.json(now).get("vcpus_total"@) == Some(Js::Int(n.vcpus_total as int)),
        n.json(now).get("memory_mib_total"@) == Some(Js::Int(n.memory_mib_total as int)),
        n.json(now).get("vm_count"@) == Some(Js::Int(n.vm_count as int)),
        n.json(now).get("last_seen"@) == Some(Js::Str(timestamp_text(n.last_seen))),
        n.json(now).get("healthy"@) == Some(Js::Bool(now - n.last_seen < 30_000_000_000)),
        n.json(now).get("cordoned"@) == Some(Js::Bool(n.cordoned)),
        n.json(now).get("free_vcpus"@) == Some(
            Js::Int(left_over(n.vcpus_total, n.vm_count, 2) as int),
        ),
        n.json(now).get("free_memory_mib"@) == Some(
            Js::Int(left_over(n.memory_mib_total, n.vm_count, 2048) as int),
        ),
{
    reveal_strlit("name");
    reveal_strlit("fluxvm_url");
    reveal_strlit("vcpus_total");
    reveal_strlit("memory_mib_total");
    reveal_strlit("vm_count");
    reveal_strlit("last_seen");
    reveal_strlit("healthy");
    reveal_strlit("cordoned");
    reveal_strlit("free_vcpus");
    reveal_strlit("free_memory_mib");
    assert("name"@.len() == 4);
    assert("fluxvm_url"@.len() == 10);
    assert("vcpus_total"@.len() == 11);
    assert("memory_mib_total"@.len() == 16);
    assert("vm_count"@.len() == 8);
    assert("last_seen"@.len() == 9);
    assert("healthy"@.len() == 7);
    assert("cordoned"@.len() == 8);
    assert("free_vcpus"@.len() == 10);
    assert("free_memory_mib"@.len() == 15);
    assert("vm_count"@[0] != "cordoned"@[0]);
    assert("fluxvm_url"@[1] != "free_vcpus"@[1]);
}

} // verus!
