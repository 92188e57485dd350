//! The configuration as a whole.

use vstd::prelude::*;

use crate::container::oci::devices;
use crate::container::oci::devices::{apply_oci_sysctls, refused_devices};
use crate::container::oci::mounts;
use crate::container::oci::mounts::{
    apply_oci_mounts, masked_paths, readonly_paths, Mount, MountPlan,
};
use crate::container::oci::process;
use crate::container::oci::process::{parse_process_value, Process, ProcessSpec};
use crate::container::oci::seccomp;
use crate::container::oci::seccomp::parse_seccomp_profile;
use crate::container::protocol::ResourceLimits;
use crate::json;
use crate::json::{Js, Json};
use crate::labels;
use crate::text;
use crate::text::cat;

verus! {

/// A configuration, and the root file system that it names.
#[derive(Debug)]
pub struct OciConfig {
    pub json: Json,
    pub rootfs: String,
}

/// The root file system of a configuration.
pub open spec fn rootfs_of(config: Js) -> Option<Seq<char>> {
    match config.get2("root"@, "path"@) {
        Some(j) => j.as_str(),
        None => None,
    }
}

/// The configuration in a text.
pub open spec fn config_in(document: Seq<char>) -> Result<(Js, Seq<char>), Seq<char>> {
    match json::json_read(document) {
        Err(e) => Err("parsing OCI config.json: "@ + e),
        Ok(j) => match rootfs_of(j) {
            None => Err("OCI root.path is required"@),
            Some(rootfs) => Ok((j, rootfs)),
        },
    }
}

/// The number below `linux.resources` that two keys lead to.
pub open spec fn resource(config: Js, group: Seq<char>, key: Seq<char>) -> Option<Js> {
    match config.get3("linux"@, "resources"@, group) {
        Some(j) => j.get(key),
        None => None,
    }
}

/// A signed number of the resources.
pub open spec fn resource_i64(config: Js, group: Seq<char>, key: Seq<char>) -> Option<i64> {
    match resource(config, group, key) {
        Some(j) => j.as_i64(),
        None => None,
    }
}

/// An unsigned number of the resources.
pub open spec fn resource_u64(config: Js, group: Seq<char>, key: Seq<char>) -> Option<u64> {
    match resource(config, group, key) {
        Some(j) => j.as_u64(),
        None => None,
    }
}

/// A text of the resources.
pub open spec fn resource_text(config: Js, group: Seq<char>, key: Seq<char>) -> Option<Seq<char>> {
    match resource(config, group, key) {
        Some(j) => j.as_str(),
        None => None,
    }
}

/// The members of an object that are strings.
pub open spec fn string_members(m: Map<Seq<char>, Js>) -> Map<Seq<char>, Seq<char>> {
    Map::new(|k: Seq<char>| m.contains_key(k) && m[k] is Str, |k: Seq<char>| m[k]->Str_0)
}

/// The further controls of the resources.
pub open spec fn unified_of(config: Js) -> Map<Seq<char>, Seq<char>> {
    match config.get3("linux"@, "resources"@, "unified"@) {
        Some(Js::Obj(m)) => string_members(m),
        _ => Map::empty(),
    }
}

/// The limits are those of the configuration.
pub open spec fn limits_of(r: ResourceLimits, config: Js) -> bool {
    &&& r.cpu_quota == resource_i64(config, "cpu"@, "quota"@)
    &&& r.cpu_period == resource_u64(config, "cpu"@, "period"@)
    &&& r.cpu_shares == resource_u64(config, "cpu"@, "shares"@)
    &&& text::optional_string(r.cpuset_cpus) == resource_text(config, "cpu"@, "cpus"@)
    &&& text::optional_string(r.cpuset_mems) == resource_text(config, "cpu"@, "mems"@)
    &&& r.memory_limit_bytes == resource_i64(config, "memory"@, "limit"@)
    &&& r.memory_reservation_bytes == resource_i64(config, "memory"@, "reservation"@)
    &&& r.memory_swap_bytes == resource_i64(config, "memory"@, "swap"@)
    &&& r.pids_limit == resource_i64(config, "pids"@, "limit"@)
    &&& labels::labels_view(r.unified@) == unified_of(config)
}

/// Finds a value of the resources.
fn find_resource<'a>(config: &'a Json, group: &str, key: &str) -> (r: Option<&'a Json>)
    ensures
        match r {
            Some(j) => resource(config.view(), group@, key@) == Some(j.view()),
            None => resource(config.view(), group@, key@) is None,
        },
{
    match config.get3("linux", "resources", group) {
        Some(j) => j.get(key),
        None => None,
    }
}

fn read_resource_i64(config: &Json, group: &str, key: &str) -> (r: Option<i64>)
    ensures
        r == resource_i64(config.view(), group@, key@),
{
    match find_resource(config, group, key) {
        Some(j) => j.as_i64(),
        None => None,
    }
}

fn read_resource_u64(config: &Json, group: &str, key: &str) -> (r: Option<u64>)
    ensures
        r == resource_u64(config.view(), group@, key@),
{
    match find_resource(config, group, key) {
        Some(j) => j.as_u64(),
        None => None,
    }
}

fn read_resource_text(config: &Json, group: &str, key: &str) -> (r: Option<String>)
    ensures
        text::optional_string(r) == resource_text(config.view(), group@, key@),
{
    match find_resource(config, group, key) {
        Some(j) => match j.as_str() {
            Some(s) => Some(s.to_owned()),
            None => None,
        },
        None => None,
    }
}

/// Reads the further controls of the resources.
fn read_unified(config: &Json) -> (r: Vec<(String, String)>)
    ensures
        labels::labels_view(r@) == unified_of(config.view()),
{
    let mut out: Vec<(String, String)> = Vec::new();
    let table = match config.get3("linux", "resources", "unified") {
        None => {
            return out;
        },
        Some(j) => j,
    };
    let keys = match table.keys() {
        None => {
            return out;
        },
        Some(keys) => keys,
    };
    let ghost m = table.view()->Obj_0;
    let ghost all = text::views(keys@);
    let mut i: usize = 0;
    assert(text::views(keys@.take(0)) =~= Seq::<Seq<char>>::empty());
    while i < keys.len()
        invariant
            i <= keys.len(),
            table.view() == Js::Obj(m),
            all == text::views(keys@),
            all.to_set() == m.dom(),
            labels::labels_view(out@) == gathered(text::views(keys@.take(i as int)), m),
        decreases keys.len() - i,
    {
        let key = keys[i].as_str();
        let ghost before = out@;
        proof {
            let next = text::views(keys@.take(i + 1));
            assert(next.drop_last() =~= text::views(keys@.take(i as int)));
            assert(next.last() == key@);
            assert(all[i as int] == key@);
            assert(all.to_set().contains(key@));
        }
        if let Some(value) = table.get(key) {
            if let Some(s) = value.as_str() {
                out.push((key.to_owned(), s.to_owned()));
                assert(out@.drop_last() =~= before);
            }
        }
        i += 1;
    }
    proof {
        assert(keys@.take(keys.len() as int) =~= keys@);
        let l = gathered(all, m);
        let t = string_members(m);
        assert forall|k: Seq<char>|
            #![trigger l.dom().contains(k)]
            #![trigger t.dom().contains(k)]
            #![trigger l[k]]
            l.dom().contains(k) == t.dom().contains(k) && (l.dom().contains(k) ==> l[k] == t[k]) by {
            lemma_gathered(all, m, k);
            assert(all.to_set().contains(k) == all.contains(k));
        }
        assert(l =~= t);
    }
    out
}

/// The members with these keys that are strings.
spec fn gathered(keys: Seq<Seq<char>>, m: Map<Seq<char>, Js>) -> Map<Seq<char>, Seq<char>>
    decreases keys.len(),
{
    if keys.len() == 0 {
        Map::empty()
    } else {
        match m[keys.last()].as_str() {
            Some(s) => gathered(keys.drop_last(), m).insert(keys.last(), s),
            None => gathered(keys.drop_last(), m),
        }
    }
}

/// What is gathered under a key.
proof fn lemma_gathered(keys: Seq<Seq<char>>, m: Map<Seq<char>, Js>, k: Seq<char>)
    ensures
        gathered(keys, m).dom().contains(k) == (keys.contains(k) && m[k] is Str),
        gathered(keys, m).dom().contains(k) ==> gathered(keys, m)[k] == m[k]->Str_0,
    decreases keys.len(),
{
    if keys.len() > 0 {
        let rest = keys.drop_last();
        lemma_gathered(rest, m, k);
        assert(keys =~= rest.push(keys.last()));
        text::lemma_push_set(rest, keys.last(), k);
        assert(keys.to_set().contains(k) == keys.contains(k));
        assert(rest.to_set().contains(k) == rest.contains(k));
    }
}

/// The resource limits of a configuration.
pub fn resource_limits_from_oci(config: &Json) -> (r: ResourceLimits)
    ensures
        limits_of(r, config.view()),
{
    ResourceLimits {
        cpu_quota: read_resource_i64(config, "cpu", "quota"),
        cpu_period: read_resource_u64(config, "cpu", "period"),
        cpu_shares: read_resource_u64(config, "cpu", "shares"),
        cpuset_cpus: read_resource_text(config, "cpu", "cpus"),
        cpuset_mems: read_resource_text(config, "cpu", "mems"),
        memory_limit_bytes: read_resource_i64(config, "memory", "limit"),
        memory_reservation_bytes: read_resource_i64(config, "memory", "reservation"),
        memory_swap_bytes: read_resource_i64(config, "memory", "swap"),
        pids_limit: read_resource_i64(config, "pids", "limit"),
        unified: read_unified(config),
    }
}

/// The process of a configuration, with the filter of the container.
pub open spec fn container_of(config: Js, rootfs: Seq<char>) -> Result<Process, Seq<char>> {
    match config.get("process"@) {
        None => Err("OCI process is required"@),
        Some(j) => match process::process_of(j, rootfs) {
            Err(e) => Err(e),
            Ok(p) => match seccomp::profile_of(config) {
                Err(e) => Err(e),
                Ok(seccomp) => Ok(Process { seccomp, ..p }),
            },
        },
    }
}

impl OciConfig {
    /// Reads a configuration.
    pub fn parse(document: &str) -> (r: Result<OciConfig, String>)
        ensures
            match (r, config_in(document@)) {
                (Ok(c), Ok((j, rootfs))) => c.json.view() == j && c.rootfs@ == rootfs,
                (Err(m), Err(e)) => m@ == e,
                _ => false,
            },
    {
        let json = match Json::parse(document) {
            Err(e) => {
                return Err(cat("parsing OCI config.json: ", e.as_str()));
            },
            Ok(j) => j,
        };
        let rootfs = match json.get2("root", "path") {
            None => None,
            Some(j) => match j.as_str() {
                None => None,
                Some(s) => Some(s.to_owned()),
            },
        };
        match rootfs {
            None => Err("OCI root.path is required".to_owned()),
            Some(rootfs) => Ok(OciConfig { json, rootfs }),
        }
    }

    /// The process and the resource limits of the container.
    pub fn container(&self) -> (r: Result<(ProcessSpec, ResourceLimits), String>)
        ensures
            match (r, container_of(self.json.view(), self.rootfs@)) {
                (Ok((p, l)), Ok(s)) => p.view() == s && limits_of(l, self.json.view()),
                (Err(m), Err(e)) => m@ == e,
                _ => false,
            },
    {
        let item = match self.json.get("process") {
            None => {
                return Err("OCI process is required".to_owned());
            },
            Some(j) => j,
        };
        let resources = resource_limits_from_oci(&self.json);
        let mut spec = match parse_process_value(item, self.rootfs.clone()) {
            Err(e) => {
                return Err(e);
            },
            Ok(p) => p,
        };
        match parse_seccomp_profile(&self.json) {
            Err(e) => Err(e),
            Ok(seccomp) => {
                spec.seccomp = seccomp;
                Ok((spec, resources))
            },
        }
    }
}

/// Why the surroundings of a container cannot be set up, by the configuration alone: its
/// devices, then its kernel parameters, then its paths that are hidden or read-only.
pub open spec fn surroundings_fault(config: Js, rootfs: Seq<char>) -> Option<Seq<char>> {
    match devices::devices_fault(devices::devices_of(config), rootfs) {
        Some(e) => Some(e),
        None => match devices::sysctls_of(config).1 {
            Some(e) => Some(e),
            None => match mounts::listed_targets(config, "maskedPaths"@, rootfs).1 {
                Some(e) => Some(e),
                None => mounts::listed_targets(config, "readonlyPaths"@, rootfs).1,
            },
        },
    }
}

/// Tells why the surroundings of a container cannot be set up.
fn refused_surroundings(config: &Json, rootfs: &str) -> (r: Option<String>)
    ensures
        text::optional_string(r) == surroundings_fault(config.view(), rootfs@),
{
    if let Some(e) = refused_devices(config, rootfs) {
        return Some(e);
    }
    if let Some(e) = apply_oci_sysctls(config).fault {
        return Some(e);
    }
    if let Some(e) = masked_paths(config, rootfs).fault {
        return Some(e);
    }
    readonly_paths(config, rootfs).fault
}

/// What a configuration says of a container: its process and its mounts. This is what
/// the text alone decides. What it asks for can still fail when it is applied, and a
/// character device can still be one that the guest does not have.
pub open spec fn configured(document: Seq<char>) -> Result<(Process, Seq<Mount>), Seq<char>> {
    match config_in(document) {
        Err(e) => Err(e),
        Ok((config, rootfs)) => match mounts::mounts_of(config, rootfs) {
            (_, Some(e)) => Err(e),
            (list, None) => match surroundings_fault(config, rootfs) {
                Some(e) => Err(e),
                None => match container_of(config, rootfs) {
                    Err(e) => Err(e),
                    Ok(p) => Ok((p, list)),
                },
            },
        },
    }
}

/// Reads what a configuration says of a container.
pub fn parse_oci_config(document: &str) -> (r: Result<
    (ProcessSpec, Vec<MountPlan>, ResourceLimits),
    String,
>)
    ensures
        match (r, configured(document@)) {
            (Ok((p, m, l)), Ok((s, t))) => p.view() == s && mounts::plans_view(m@) == t
                && limits_of(l, json::json_read(document@)->Ok_0),
            (Err(m), Err(e)) => m@ == e,
            _ => false,
        },
{
    let config = match OciConfig::parse(document) {
        Err(e) => {
            return Err(e);
        },
        Ok(c) => c,
    };
    let list = apply_oci_mounts(&config.json, config.rootfs.as_str());
    match list.fault {
        Some(e) => Err(e),
        None => match refused_surroundings(&config.json, config.rootfs.as_str()) {
            Some(e) => Err(e),
            None => match config.container() {
                Err(e) => Err(e),
                Ok((spec, resources)) => Ok((spec, list.steps, resources)),
            },
        },
    }
}

} // verus!
