//! The part of a node that reports to the central registry.

use vstd::prelude::*;

use crate::fleet::central;
use crate::fleet::registry::RegisterRequest;
use crate::json;
use crate::json::{Js, Json};
use crate::labels;
use crate::text;
use crate::text::{cat, lines, parse_u64, starts_with, words};

verus! {

/// How a node reports.
#[derive(Debug)]
pub struct NodeConfig {
    pub name: String,
    pub central_url: String,
    /// Where the node itself reaches its virtual machine service.
    pub fluxvm_url: String,
    /// Where the registry reaches the same service.
    pub advertise_url: String,
    pub interval_secs: u64,
    /// The secret shared with the registry.
    pub token: Option<String>,
}

/// What a node reports.
pub open spec fn heartbeat_json(
    name: Seq<char>,
    url: Seq<char>,
    vcpus: nat,
    memory_mib: nat,
    vm_count: nat,
) -> Js {
    Js::Obj(
        Map::<Seq<char>, Js>::empty().insert("name"@, Js::Str(name)).insert(
            "fluxvm_url"@,
            Js::Str(url),
        ).insert("vcpus_total"@, Js::Int(vcpus as int)).insert(
            "memory_mib_total"@,
            Js::Int(memory_mib as int),
        ).insert("vm_count"@, Js::Int(vm_count as int)),
    )
}

impl NodeConfig {
    /// The address of the local list of virtual machines.
    pub fn list_url(&self) -> (r: String)
        ensures
            r@ == self.fluxvm_url@ + "/v1/vms"@,
    {
        cat(self.fluxvm_url.as_str(), "/v1/vms")
    }

    /// The address that takes heartbeats.
    pub fn register_url(&self) -> (r: String)
        ensures
            r@ == self.central_url@ + "/fleet/register"@,
    {
        cat(self.central_url.as_str(), "/fleet/register")
    }

    /// The heartbeat to send.
    pub fn beat(&self, vm_count: usize, vcpus_total: u32, memory_mib_total: u64) -> (r: Json)
        ensures
            r.view() == heartbeat_json(
                self.name@,
                self.advertise_url@,
                vcpus_total as nat,
                memory_mib_total as nat,
                vm_count as nat,
            ),
    {
        Json::object().with("name", Json::text(self.name.as_str())).with(
            "fluxvm_url",
            Json::text(self.advertise_url.as_str()),
        ).with("vcpus_total", Json::Unsigned(vcpus_total as u64)).with(
            "memory_mib_total",
            Json::Unsigned(memory_mib_total),
        ).with("vm_count", Json::Unsigned(vm_count as u64))
    }
}

/// Counts the machines in a reply to a list request.
pub fn local_vm_count(body: &Json) -> (r: usize)
    ensures
        r == central::listed(body.view()).len(),
{
    match body.array_at("items") {
        Some(items) => {
            proof {
                json::lemma_items(items@);
            }
            items.len()
        },
        None => 0,
    }
}

/// The memory that the lines of `/proc/meminfo` report, in MiB.
pub open spec fn memory_of(lines: Seq<Seq<char>>) -> Option<nat>
    decreases lines.len(),
{
    if lines.len() == 0 {
        None
    } else if text::has_prefix(lines[0], "MemTotal:"@) {
        let w = text::words_of(lines[0]);
        if w.len() < 2 {
            None
        } else {
            match text::unsigned_value(w[1], u64::MAX as nat) {
                Some(kib) => Some(kib / 1024),
                None => None,
            }
        }
    } else {
        memory_of(lines.skip(1))
    }
}

/// Reads the total memory of the host, in MiB, out of `/proc/meminfo`.
pub fn total_memory_mib(content: &str) -> (r: Option<u64>)
    ensures
        match r {
            Some(n) => memory_of(text::lines_of(content@)) == Some(n as nat),
            None => memory_of(text::lines_of(content@)) is None,
        },
{
    let all = lines(content);
    let ghost ls = text::lines_of(content@);
    let mut i: usize = 0;
    assert(ls.skip(0) =~= ls);
    while i < all.len()
        invariant
            i <= all.len(),
            text::views(all@) == ls,
            ls == text::lines_of(content@),
            memory_of(ls.skip(i as int)) == memory_of(ls),
        decreases all.len() - i,
    {
        proof {
            assert(ls.skip(i as int)[0] == all[i as int]@);
            assert(ls.skip(i as int).skip(1) =~= ls.skip(i + 1));
        }
        if starts_with(all[i].as_str(), "MemTotal:") {
            let parts = words(all[i].as_str());
            if parts.len() < 2 {
                return None;
            }
            assert(text::words_of(all[i as int]@)[1] == parts[1]@);
            return match parse_u64(parts[1].as_str()) {
                Some(kib) => Some(kib / 1024),
                None => None,
            };
        }
        i += 1;
    }
    None
}

/// The fields of a heartbeat, in their order.
pub open spec fn heartbeat_fields() -> Seq<Seq<char>> {
    seq![
        "name"@,
        "fluxvm_url"@,
        "vcpus_total"@,
        "memory_mib_total"@,
        "vm_count"@,
        "labels"@,
    ]
}

/// The heartbeat that a body carries, by the names of its fields or by their order.
pub open spec fn heartbeat_of(body: Js) -> Option<RegisterView> {
    match json::named(body, heartbeat_fields(), 5) {
        None => None,
        Some(o) => heartbeat_in(o),
    }
}

/// The heartbeat that an object carries: all its fields in their types, and labels
/// that are an object of strings or absent.
pub open spec fn heartbeat_in(body: Js) -> Option<RegisterView> {
    let labels = central::string_map_of(body, "labels"@);
    match (
        body.str_at("name"@),
        body.str_at("fluxvm_url"@),
        body.u64_at("vcpus_total"@),
        body.u64_at("memory_mib_total"@),
        body.u64_at("vm_count"@),
        labels,
    ) {
        (Some(name), Some(url), Some(vcpus), Some(memory), Some(count), Some(l)) => if vcpus
            <= u32::MAX && count <= usize::MAX {
            Some(
                RegisterView {
                    name,
                    fluxvm_url: url,
                    vcpus_total: vcpus as nat,
                    memory_mib_total: memory as nat,
                    vm_count: count as nat,
                    labels: l,
                },
            )
        } else {
            None
        },
        _ => None,
    }
}

/// The mathematical reading of a heartbeat.
#[verifier::ext_equal]
pub struct RegisterView {
    pub name: Seq<char>,
    pub fluxvm_url: Seq<char>,
    pub vcpus_total: nat,
    pub memory_mib_total: nat,
    pub vm_count: nat,
    pub labels: Map<Seq<char>, Seq<char>>,
}

impl RegisterRequest {
    pub open spec fn view(self) -> RegisterView {
        RegisterView {
            name: self.name@,
            fluxvm_url: self.fluxvm_url@,
            vcpus_total: self.vcpus_total as nat,
            memory_mib_total: self.memory_mib_total as nat,
            vm_count: self.vm_count as nat,
            labels: labels::labels_view(self.labels@),
        }
    }

    /// Reads the body of a heartbeat, or says why it is none. `fault` is what the typed
    /// reader of heartbeats has against the body: it alone sees a field that comes twice.
    pub fn read(body: &Json, fault: Option<String>) -> (r: Result<RegisterRequest, String>)
        ensures
            match fault {
                Some(f) => r matches Err(m) && m@ == f@,
                None => match heartbeat_of(body.view()) {
                    Some(q) => r matches Ok(x) && x.view() == q,
                    None => r matches Err(m) && m@
                        == "the heartbeat lacks a field or holds a wrong one"@,
                },
            },
    {
        if let Some(fault) = fault {
            return Err(fault);
        }
        match RegisterRequest::from_json(body) {
            Some(x) => Ok(x),
            None => Err("the heartbeat lacks a field or holds a wrong one".to_owned()),
        }
    }

    /// Reads a heartbeat.
    pub fn from_json(body: &Json) -> (r: Option<RegisterRequest>)
        ensures
            match r {
                Some(q) => heartbeat_of(body.view()) == Some(q.view()),
                None => heartbeat_of(body.view()) is None,
            },
    {
        let names: [&'static str; 6] = [
            "name",
            "fluxvm_url",
            "vcpus_total",
            "memory_mib_total",
            "vm_count",
            "labels",
        ];
        assert(text::names_of(names@) =~= heartbeat_fields());
        let body = &json::name_fields(body, &names, 5)?;
        let labels = match central::string_map(body, "labels") {
            Some(l) => l,
            None => {
                return None;
            },
        };
        match (
            body.str_at("name"),
            body.str_at("fluxvm_url"),
            body.u64_at("vcpus_total"),
            body.u64_at("memory_mib_total"),
            body.u64_at("vm_count"),
        ) {
            (Some(name), Some(url), Some(vcpus), Some(memory), Some(count)) => {
                if vcpus <= u32::MAX as u64 && count <= usize::MAX as u64 {
                    Some(
                        RegisterRequest {
                            name: name.to_owned(),
                            fluxvm_url: url.to_owned(),
                            vcpus_total: vcpus as u32,
                            memory_mib_total: memory,
                            vm_count: count as usize,
                            labels,
                        },
                    )
                } else {
                    None
                }
            },
            _ => None,
        }
    }
}

/// The registry reads a heartbeat as the node sent it.
pub proof fn law_heartbeat_is_understood(
    name: Seq<char>,
    url: Seq<char>,
    vcpus: u32,
    memory_mib: u64,
    vm_count: usize,
)
    ensures
        heartbeat_of(
            heartbeat_json(name, url, vcpus as nat, memory_mib as nat, vm_count as nat),
        ) == Some(
            RegisterView {
                name,
                fluxvm_url: url,
                vcpus_total: vcpus as nat,
                memory_mib_total: memory_mib as nat,
                vm_count: vm_count as nat,
                labels: Map::empty(),
            },
        ),
{
    reveal_strlit("name");
    reveal_strlit("fluxvm_url");
    reveal_strlit("vcpus_total");
    reveal_strlit("memory_mib_total");
    reveal_strlit("vm_count");
    reveal_strlit("labels");
    assert("name"@.len() == 4 && "fluxvm_url"@.len() == 10 && "vcpus_total"@.len() == 11
        && "memory_mib_total"@.len() == 16 && "vm_count"@.len() == 8 && "labels"@.len() == 6);
}

} // verus!
