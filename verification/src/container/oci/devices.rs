//! The devices and the kernel parameters that a configuration asks for.

use vstd::prelude::*;

use crate::cgroup::util;
use crate::cgroup::util::join;
use crate::container::oci::mounts;
use crate::container::oci::mounts::safe_guest_destination;
use crate::container::schedule::Schedule;
use crate::json;
use crate::json::{Js, Json};
use crate::text;
use crate::text::{cat, chars_of, debug_quoted, has_char, replace_char, same, u64_text};

verus! {

pub const S_IFIFO: u32 = 0o010000;

pub const S_IFCHR: u32 = 0o020000;

/// A device file of the guest.
#[derive(Debug, Clone, Copy)]
pub struct GuestDevice {
    pub is_char: bool,
    pub major: u64,
    pub minor: u64,
}

/// A device file to create.
#[derive(Debug, Clone, Copy)]
pub struct DeviceNode {
    /// The kind of file and its permissions.
    pub mode: u32,
    /// The numbers of the device; a pipe has none.
    pub numbers: Option<(u64, u64)>,
    pub uid: u32,
    pub gid: u32,
}

/// What creating a device needs.
#[derive(Debug)]
pub enum DeviceStep {
    /// Look at the guest's own device and call again.
    Ask,
    Done(Result<DeviceNode, String>),
}

/// The device's path and the file to create for it.
pub open spec fn device_target_of(dev: Js, rootfs: Seq<char>) -> Result<
    (Seq<char>, Seq<char>),
    Seq<char>,
> {
    match dev.str_at("path"@) {
        None => Err("OCI device.path is required"@),
        Some(path) => match mounts::destination_of(path) {
            Err(e) => Err(e),
            Ok(relative) => Ok((path, util::path_join(rootfs, relative))),
        },
    }
}

/// The device's path and the file to create for it.
pub fn device_target(dev: &Json, rootfs: &str) -> (r: Result<(String, String), String>)
    ensures
        match (r, device_target_of(dev.view(), rootfs@)) {
            (Ok((path, target)), Ok((p, t))) => path@ == p && target@ == t,
            (Err(m), Err(e)) => m@ == e,
            _ => false,
        },
{
    let path = match dev.str_at("path") {
        None => {
            return Err("OCI device.path is required".to_owned());
        },
        Some(p) => p,
    };
    match safe_guest_destination(path) {
        Err(e) => Err(e),
        Ok(relative) => Ok((path.to_owned(), join(rootfs, relative.as_str()))),
    }
}

/// A signed number of the configuration, taken as an unsigned one.
pub open spec fn device_number(dev: Js, key: Seq<char>) -> u64 {
    match dev.i64_at(key) {
        Some(n) => n as u64,
        None => 0,
    }
}

/// The lower 32 bits of a number of the configuration, or another number.
pub open spec fn small_number(dev: Js, key: Seq<char>, other: u32) -> u32 {
    match dev.u64_at(key) {
        Some(n) => n as u32,
        None => other,
    }
}

/// Two numbers with a colon between them.
pub open spec fn numbers_text(major: u64, minor: u64) -> Seq<char> {
    text::decimal_text(major as nat) + ":"@ + text::decimal_text(minor as nat)
}

/// The device file to create with a kind of file.
pub open spec fn node_with(dev: Js, kind: u32, numbers: Option<(u64, u64)>) -> DeviceNode {
    DeviceNode {
        mode: kind | small_number(dev, "fileMode"@, 0o666),
        numbers,
        uid: small_number(dev, "uid"@, 0),
        gid: small_number(dev, "gid"@, 0),
    }
}

/// What is done for a device. A block device is refused, since the guest has no such
/// device. A character device is created only where the guest has the same one.
pub open spec fn device_of(
    dev: Js,
    path: Seq<char>,
    guest: Option<Result<GuestDevice, String>>,
) -> Option<Result<DeviceNode, Seq<char>>> {
    let major = device_number(dev, "major"@);
    let minor = device_number(dev, "minor"@);
    match dev.str_at("type"@) {
        None => Some(Err("OCI device.type is required"@)),
        Some(kind) => if kind == "b"@ {
            Some(
                Err(
                    "OCI block device "@ + path + " ("@ + numbers_text(major, minor)
                        + ") is not attached to the FluxVM guest; raw block volumes require VMM device hotplug"@,
                ),
            )
        } else if kind == "c"@ || kind == "u"@ {
            match guest {
                None => None,
                Some(Err(e)) => Some(
                    Err(
                        "OCI character device "@ + path + " is not present in the guest: "@ + e@,
                    ),
                ),
                Some(Ok(g)) => if !g.is_char {
                    Some(
                        Err(
                            "OCI character device source "@ + path
                                + " is not a guest character device"@,
                        ),
                    )
                } else if g.major != major || g.minor != minor {
                    Some(
                        Err(
                            "OCI character device "@ + path + " requested "@ + numbers_text(
                                major,
                                minor,
                            ) + ", guest has "@ + numbers_text(g.major, g.minor),
                        ),
                    )
                } else {
                    Some(Ok(node_with(dev, S_IFCHR, Some((major, minor)))))
                },
            }
        } else if kind == "p"@ {
            Some(Ok(node_with(dev, S_IFIFO, None)))
        } else {
            Some(Err("unsupported OCI device type "@ + text::debug_text(kind)))
        },
    }
}

/// Reads a signed number as an unsigned one.
fn read_device_number(dev: &Json, key: &str) -> (r: u64)
    ensures
        r == device_number(dev.view(), key@),
{
    match dev.i64_at(key) {
        Some(n) => n as u64,
        None => 0,
    }
}

/// Reads the lower 32 bits of a number.
fn read_small_number(dev: &Json, key: &str, other: u32) -> (r: u32)
    ensures
        r == small_number(dev.view(), key@, other),
{
    match dev.u64_at(key) {
        Some(n) => n as u32,
        None => other,
    }
}

/// Writes two numbers with a colon between them.
fn write_numbers(major: u64, minor: u64) -> (r: String)
    ensures
        r@ == numbers_text(major, minor),
{
    cat(cat(u64_text(major).as_str(), ":").as_str(), u64_text(minor).as_str())
}

/// The device file to create with a kind of file.
fn make_node(dev: &Json, kind: u32, numbers: Option<(u64, u64)>) -> (r: DeviceNode)
    ensures
        r == node_with(dev.view(), kind, numbers),
{
    DeviceNode {
        mode: kind | read_small_number(dev, "fileMode", 0o666),
        numbers,
        uid: read_small_number(dev, "uid", 0),
        gid: read_small_number(dev, "gid", 0),
    }
}

/// Plans one device. `guest` is what is known of the guest's own device of that path.
pub fn plan_device(
    dev: &Json,
    path: &str,
    guest: Option<Result<GuestDevice, String>>,
) -> (r: DeviceStep)
    ensures
        match (r, device_of(dev.view(), path@, guest)) {
            (DeviceStep::Ask, None) => true,
            (DeviceStep::Done(Ok(n)), Some(Ok(s))) => n == s,
            (DeviceStep::Done(Err(m)), Some(Err(e))) => m@ == e,
            _ => false,
        },
{
    let major: u64 = read_device_number(dev, "major");
    let minor: u64 = read_device_number(dev, "minor");
    let kind = match dev.str_at("type") {
        None => {
            return DeviceStep::Done(Err("OCI device.type is required".to_owned()));
        },
        Some(kind) => kind,
    };
    if same(kind, "b") {
        let head = cat(cat("OCI block device ", path).as_str(), " (");
        let body = cat(head.as_str(), write_numbers(major, minor).as_str());
        return DeviceStep::Done(
            Err(
                cat(
                    body.as_str(),
                    ") is not attached to the FluxVM guest; raw block volumes require VMM device hotplug",
                ),
            ),
        );
    }
    if same(kind, "c") || same(kind, "u") {
        return match guest {
            None => DeviceStep::Ask,
            Some(Err(e)) => {
                let head = cat(
                    cat("OCI character device ", path).as_str(),
                    " is not present in the guest: ",
                );
                DeviceStep::Done(Err(cat(head.as_str(), e.as_str())))
            },
            Some(Ok(g)) => if !g.is_char {
                let head = cat("OCI character device source ", path);
                DeviceStep::Done(Err(cat(head.as_str(), " is not a guest character device")))
            } else if g.major != major || g.minor != minor {
                let head = cat(cat("OCI character device ", path).as_str(), " requested ");
                let asked = cat(head.as_str(), write_numbers(major, minor).as_str());
                let tail = cat(asked.as_str(), ", guest has ");
                DeviceStep::Done(
                    Err(cat(tail.as_str(), write_numbers(g.major, g.minor).as_str())),
                )
            } else {
                DeviceStep::Done(Ok(make_node(dev, S_IFCHR, Some((major, minor)))))
            },
        };
    }
    if same(kind, "p") {
        return DeviceStep::Done(Ok(make_node(dev, S_IFIFO, None)));
    }
    DeviceStep::Done(Err(cat("unsupported OCI device type ", debug_quoted(kind).as_str())))
}

/// The devices of a configuration.
pub open spec fn devices_of(config: Js) -> Seq<Js> {
    match config.get2("linux"@, "devices"@) {
        None => Seq::empty(),
        Some(j) => match j.as_array() {
            Some(items) => items,
            None => Seq::empty(),
        },
    }
}

/// The devices of a configuration.
pub fn oci_devices(config: &Json) -> (r: Option<&Vec<Json>>)
    ensures
        match r {
            Some(v) => json::items_view(v@) == devices_of(config.view()),
            None => devices_of(config.view()).len() == 0,
        },
{
    match config.get2("linux", "devices") {
        None => None,
        Some(j) => j.as_array(),
    }
}

/// Why a device is refused, whatever the guest has.
pub open spec fn device_fault(dev: Js, rootfs: Seq<char>) -> Option<Seq<char>> {
    match device_target_of(dev, rootfs) {
        Err(e) => Some(e),
        Ok((path, _)) => match device_of(dev, path, None) {
            Some(Err(e)) => Some(e),
            _ => None,
        },
    }
}

/// Why the first one of the devices is refused that is, whatever the guest has.
pub open spec fn devices_fault(items: Seq<Js>, rootfs: Seq<char>) -> Option<Seq<char>>
    decreases items.len(),
{
    if items.len() == 0 {
        None
    } else {
        match devices_fault(items.drop_last(), rootfs) {
            Some(e) => Some(e),
            None => device_fault(items.last(), rootfs),
        }
    }
}

/// Tells why a device is refused, whatever the guest has.
fn refused_device(dev: &Json, rootfs: &str) -> (r: Option<String>)
    ensures
        text::optional_string(r) == device_fault(dev.view(), rootfs@),
{
    match device_target(dev, rootfs) {
        Err(e) => Some(e),
        Ok((path, _)) => match plan_device(dev, path.as_str(), None) {
            DeviceStep::Done(Err(e)) => Some(e),
            _ => None,
        },
    }
}

/// A device that is refused spoils every longer list of devices.
proof fn lemma_devices_fault(items: Seq<Js>, k: int, rootfs: Seq<char>)
    requires
        0 <= k <= items.len(),
        devices_fault(items.take(k), rootfs) is Some,
    ensures
        devices_fault(items, rootfs) == devices_fault(items.take(k), rootfs),
    decreases items.len() - k,
{
    if k < items.len() {
        assert(items.take(k + 1).drop_last() =~= items.take(k));
        lemma_devices_fault(items, k + 1, rootfs);
    } else {
        assert(items.take(k) =~= items);
    }
}

/// Tells why the devices of a configuration are refused, whatever the guest has.
pub fn refused_devices(config: &Json, rootfs: &str) -> (r: Option<String>)
    ensures
        text::optional_string(r) == devices_fault(devices_of(config.view()), rootfs@),
{
    let items = match oci_devices(config) {
        None => {
            return None;
        },
        Some(v) => v,
    };
    let ghost all = json::items_view(items@);
    let mut i: usize = 0;
    proof {
        json::lemma_items(items@);
        assert(all.take(0) =~= Seq::<Js>::empty());
    }
    while i < items.len()
        invariant
            i <= items.len(),
            all == json::items_view(items@),
            all.len() == items.len(),
            all == devices_of(config.view()),
            devices_fault(all.take(i as int), rootfs@) is None,
        decreases items.len() - i,
    {
        proof {
            json::lemma_items(items@);
            assert(all.take(i + 1).drop_last() =~= all.take(i as int));
            assert(all.take(i + 1).last() == items[i as int].view());
        }
        if let Some(e) = refused_device(&items[i], rootfs) {
            proof {
                lemma_devices_fault(all, i + 1, rootfs@);
            }
            return Some(e);
        }
        i += 1;
    }
    assert(all.take(all.len() as int) =~= all);
    None
}

/// A block device of the host is never created in the guest.
pub proof fn law_block_devices_are_refused(
    dev: Js,
    path: Seq<char>,
    guest: Option<Result<GuestDevice, String>>,
)
    requires
        dev.str_at("type"@) == Some("b"@),
    ensures
        device_of(dev, path, guest) matches Some(Err(_)),
{
}

/// A character device that is created has the numbers of the guest's own device.
pub proof fn law_character_devices_exist_in_the_guest(
    dev: Js,
    path: Seq<char>,
    guest: Option<Result<GuestDevice, String>>,
)
    requires
        device_of(dev, path, guest) matches Some(Ok(n)) && n.numbers is Some,
    ensures
        guest matches Some(Ok(g)) && g.is_char && device_of(dev, path, guest)->Some_0->Ok_0.numbers
            == Some((g.major, g.minor)),
{
}

// ---------------------------------------------------------------------------
// Kernel parameters
// ---------------------------------------------------------------------------

/// A kernel parameter to set.
#[derive(Debug)]
pub struct Sysctl {
    pub key: String,
    pub path: String,
    pub value: String,
}

/// The reading of a kernel parameter to set.
pub ghost struct Parameter {
    pub key: Seq<char>,
    pub path: Seq<char>,
    pub value: Seq<char>,
}

impl Sysctl {
    pub open spec fn view(self) -> Parameter {
        Parameter { key: self.key@, path: self.path@, value: self.value@ }
    }

    /// The error of a parameter that could not be set.
    pub fn failed(&self, error: &str) -> (r: String)
        ensures
            r@ == "applying OCI sysctl "@ + self.key@ + "="@ + self.value@ + ": "@ + error@,
    {
        let head = cat("applying OCI sysctl ", self.key.as_str());
        let pair = cat(cat(head.as_str(), "=").as_str(), self.value.as_str());
        cat(cat(pair.as_str(), ": ").as_str(), error)
    }
}

/// Two dots stand side by side.
pub open spec fn has_two_dots(s: Seq<char>) -> bool {
    exists|i: int| 0 <= i < s.len() - 1 && #[trigger] s[i] == '.' && s[i + 1] == '.'
}

/// Tells whether two dots stand side by side.
fn two_dots(s: &str) -> (r: bool)
    ensures
        r == has_two_dots(s@),
{
    let v = chars_of(s);
    let mut i: usize = 1;
    while i < v.len()
        invariant
            1 <= i,
            i <= v.len() || v.len() == 0,
            v@ == s@,
            forall|k: int| 0 <= k < i - 1 ==> !(#[trigger] v@[k] == '.' && v@[k + 1] == '.'),
        decreases v.len() - i,
    {
        if v[i - 1] == '.' && v[i] == '.' {
            assert(s@[i - 1] == '.' && s@[i - 1 + 1] == '.');
            return true;
        }
        i += 1;
    }
    false
}

/// One kernel parameter.
pub open spec fn sysctl_of(key: Seq<char>, value: Js) -> Result<Parameter, Seq<char>> {
    match value.as_str() {
        None => Err("OCI sysctl value must be a string"@),
        Some(v) => if key.contains('/') || has_two_dots(key) {
            Err("unsafe OCI sysctl key "@ + text::debug_text(key))
        } else {
            Ok(
                Parameter {
                    key,
                    path: util::path_join("/proc/sys"@, text::replaced(key, '.', '/')),
                    value: v,
                },
            )
        },
    }
}

/// The parameters with these keys up to the first error, and that error.
pub open spec fn sysctls_in(keys: Seq<Seq<char>>, m: Map<Seq<char>, Js>) -> (
    Seq<Parameter>,
    Option<Seq<char>>,
)
    decreases keys.len(),
{
    if keys.len() == 0 {
        (Seq::empty(), None)
    } else {
        let (before, fault) = sysctls_in(keys.drop_last(), m);
        match fault {
            Some(e) => (before, Some(e)),
            None => match sysctl_of(keys.last(), m[keys.last()]) {
                Ok(p) => (before.push(p), None),
                Err(e) => (before, Some(e)),
            },
        }
    }
}

/// The parameters of a configuration, in the order of their keys, up to the first
/// error, and that error.
pub open spec fn sysctls_of(config: Js) -> (Seq<Parameter>, Option<Seq<char>>) {
    match config.get2("linux"@, "sysctl"@) {
        Some(Js::Obj(m)) => sysctls_in(text::ordered(m.dom()), m),
        _ => (Seq::empty(), None),
    }
}

/// The readings of parameters.
pub open spec fn sysctls_view(v: Seq<Sysctl>) -> Seq<Parameter> {
    v.map_values(|s: Sysctl| s.view())
}

/// Plans one kernel parameter.
fn plan_sysctl(key: &str, value: &Json) -> (r: Result<Sysctl, String>)
    ensures
        match (r, sysctl_of(key@, value.view())) {
            (Ok(p), Ok(s)) => p.view() == s,
            (Err(m), Err(e)) => m@ == e,
            _ => false,
        },
{
    let text = match value.as_str() {
        None => {
            return Err("OCI sysctl value must be a string".to_owned());
        },
        Some(v) => v,
    };
    if has_char(key, '/') || two_dots(key) {
        return Err(cat("unsafe OCI sysctl key ", debug_quoted(key).as_str()));
    }
    let path = join("/proc/sys", replace_char(key, '.', '/').as_str());
    Ok(Sysctl { key: key.to_owned(), path, value: text.to_owned() })
}

/// Plans the kernel parameters of a configuration.
pub fn apply_oci_sysctls(config: &Json) -> (r: Schedule<Sysctl>)
    ensures
        (sysctls_view(r.steps@), text::optional_string(r.fault)) == sysctls_of(config.view()),
{
    let mut steps: Vec<Sysctl> = Vec::new();
    let mut fault: Option<String> = None;
    assert(sysctls_view(steps@) =~= Seq::<Parameter>::empty());
    let table = match config.get2("linux", "sysctl") {
        None => {
            return Schedule { steps, fault };
        },
        Some(j) => j,
    };
    let keys = match table.keys() {
        None => {
            return Schedule { steps, fault };
        },
        Some(keys) => keys,
    };
    let ghost m = table.view()->Obj_0;
    let ghost all = text::views(keys@);
    let mut i: usize = 0;
    assert(text::views(keys@.take(0)) =~= Seq::<Seq<char>>::empty());
    while i < keys.len()
        invariant
            i <= keys.len(),
            table.view() == Js::Obj(m),
            all == text::views(keys@),
            all.to_set() == m.dom(),
            (sysctls_view(steps@), text::optional_string(fault)) == sysctls_in(
                text::views(keys@.take(i as int)),
                m,
            ),
        decreases keys.len() - i,
    {
        let key = keys[i].as_str();
        proof {
            let next = text::views(keys@.take(i + 1));
            assert(next.drop_last() =~= text::views(keys@.take(i as int)));
            assert(next.last() == key@);
            assert(all[i as int] == key@);
            assert(all.to_set().contains(key@));
        }
        if fault.is_none() {
            if let Some(value) = table.get(key) {
                match plan_sysctl(key, value) {
                    Ok(p) => {
                        let ghost before = steps@;
                        steps.push(p);
                        assert(sysctls_view(steps@) =~= sysctls_view(before).push(p.view()));
                    },
                    Err(e) => {
                        fault = Some(e);
                    },
                }
            }
        }
        i += 1;
    }
    assert(keys@.take(keys.len() as int) =~= keys@);
    Schedule { steps, fault }
}

} // verus!
