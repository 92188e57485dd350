//! The mounts that a configuration asks for.

use vstd::prelude::*;

use crate::cgroup::util;
use crate::cgroup::util::join;
use crate::container::schedule::Schedule;
use crate::json;
use crate::json::{Js, Json};
use crate::text;
use crate::text::{cat, chars_of, debug_quoted, join_with, same, split};

verus! {

pub const MS_RDONLY: u64 = 0x1;

pub const MS_NOSUID: u64 = 0x2;

pub const MS_NODEV: u64 = 0x4;

pub const MS_NOEXEC: u64 = 0x8;

pub const MS_REMOUNT: u64 = 0x20;

pub const MS_NOATIME: u64 = 0x400;

pub const MS_NODIRATIME: u64 = 0x800;

pub const MS_BIND: u64 = 0x1000;

pub const MS_REC: u64 = 0x4000;

pub const MS_RELATIME: u64 = 0x20_0000;

pub const MS_STRICTATIME: u64 = 0x100_0000;

/// One mount to make.
#[derive(Debug)]
pub struct MountCall {
    pub source: String,
    pub target: String,
    pub fs_type: Option<String>,
    pub flags: u64,
    pub data: Option<String>,
}

/// The reading of a mount to make.
pub ghost struct Call {
    pub source: Seq<char>,
    pub target: Seq<char>,
    pub fs_type: Option<Seq<char>>,
    pub flags: u64,
    pub data: Option<Seq<char>>,
}

impl MountCall {
    pub open spec fn view(self) -> Call {
        Call {
            source: self.source@,
            target: self.target@,
            fs_type: text::optional_string(self.fs_type),
            flags: self.flags,
            data: text::optional_string(self.data),
        }
    }
}

/// The readings of mounts to make.
pub open spec fn calls_view(v: Seq<MountCall>) -> Seq<Call> {
    v.map_values(|c: MountCall| c.view())
}

// ---------------------------------------------------------------------------
// Destinations
// ---------------------------------------------------------------------------

/// A part of a path that names something.
pub open spec fn names_something(part: Seq<char>) -> bool {
    part != ""@ && part != "."@
}

/// The parts of a path that name something.
pub open spec fn named_parts(parts: Seq<Seq<char>>) -> Seq<Seq<char>>
    decreases parts.len(),
{
    if parts.len() == 0 {
        Seq::empty()
    } else if names_something(parts.last()) {
        named_parts(parts.drop_last()).push(parts.last())
    } else {
        named_parts(parts.drop_last())
    }
}

/// A destination in the container as a path below the root file system. It is
/// absolute, and no part of it leads upwards.
pub open spec fn destination_of(destination: Seq<char>) -> Result<Seq<char>, Seq<char>> {
    let parts = named_parts(text::split_on(destination, '/'));
    if destination.len() == 0 || destination[0] != '/' {
        Err("OCI mount destination must be absolute: "@ + destination)
    } else if parts.contains(".."@) {
        Err("unsafe OCI mount destination: "@ + destination)
    } else {
        Ok(text::joined(parts, "/"@))
    }
}

/// The path below the root file system that a destination stands for.
pub fn safe_guest_destination(destination: &str) -> (r: Result<String, String>)
    ensures
        match (r, destination_of(destination@)) {
            (Ok(p), Ok(s)) => p@ == s,
            (Err(m), Err(e)) => m@ == e,
            _ => false,
        },
{
    let v = chars_of(destination);
    if v.len() == 0 || v[0] != '/' {
        return Err(cat("OCI mount destination must be absolute: ", destination));
    }
    let all = split(destination, '/');
    let ghost parts = text::views(all@);
    let mut out: Vec<String> = Vec::new();
    let mut upwards = false;
    let mut i: usize = 0;
    assert(text::views(out@) =~= Seq::<Seq<char>>::empty());
    while i < all.len()
        invariant
            i <= all.len(),
            text::views(out@) == named_parts(text::views(all@.take(i as int))),
            upwards == text::views(out@).contains(".."@),
        decreases all.len() - i,
    {
        let part = all[i].as_str();
        proof {
            let next = text::views(all@.take(i + 1));
            assert(next.drop_last() =~= text::views(all@.take(i as int)));
            assert(next.last() == part@);
        }
        if !same(part, "") && !same(part, ".") {
            let ghost before = text::views(out@);
            out.push(part.to_owned());
            proof {
                let now = text::views(out@);
                assert(now =~= before.push(part@));
                assert(now.contains(".."@) == (before.contains(".."@) || part@ == ".."@)) by {
                    if before.contains(".."@) {
                        let k = choose|k: int| 0 <= k < before.len() && before[k] == ".."@;
                        assert(now[k] == ".."@);
                    }
                    if part@ == ".."@ {
                        assert(now[before.len() as int] == ".."@);
                    }
                    if now.contains(".."@) && part@ != ".."@ {
                        let k = choose|k: int| 0 <= k < now.len() && now[k] == ".."@;
                        assert(before[k] == ".."@);
                    }
                }
            }
            if same(part, "..") {
                upwards = true;
            }
        }
        i += 1;
    }
    assert(all@.take(all.len() as int) =~= all@);
    if upwards {
        Err(cat("unsafe OCI mount destination: ", destination))
    } else {
        Ok(join_with(&out, "/"))
    }
}

/// The parts that name something do not lead upwards where there is no such part.
proof fn lemma_named_parts(parts: Seq<Seq<char>>)
    ensures
        forall|i: int|
            0 <= i < named_parts(parts).len() ==> names_something(#[trigger] named_parts(parts)[i])
                && parts.contains(named_parts(parts)[i]),
    decreases parts.len(),
{
    if parts.len() > 0 {
        let rest = parts.drop_last();
        lemma_named_parts(rest);
        assert forall|i: int| 0 <= i < named_parts(parts).len() implies names_something(
            #[trigger] named_parts(parts)[i],
        ) && parts.contains(named_parts(parts)[i]) by {
            if i < named_parts(rest).len() {
                let x = named_parts(rest)[i];
                assert(rest.contains(x));
                let k = choose|k: int| 0 <= k < rest.len() && rest[k] == x;
                assert(parts[k] == x);
            } else {
                assert(parts[parts.len() - 1] == parts.last());
            }
        }
    }
}

/// Parts of a split text do not hold the separator.
proof fn lemma_parts_lack(s: Seq<char>, sep: char)
    ensures
        forall|i: int|
            0 <= i < text::split_on(s, sep).len() ==> !(#[trigger] text::split_on(
                s,
                sep,
            )[i]).contains(sep),
    decreases s.len(),
{
    if s.len() > 0 {
        lemma_parts_lack(s.drop_last(), sep);
        let before = text::split_on(s.drop_last(), sep);
        let now = text::split_on(s, sep);
        assert forall|i: int| 0 <= i < now.len() implies !(#[trigger] now[i]).contains(sep) by {
            if s.last() != sep && i == now.len() - 1 {
                let old_part = before.last();
                assert(!before[before.len() - 1].contains(sep));
                if now[i].contains(sep) {
                    let k = choose|k: int| 0 <= k < now[i].len() && now[i][k] == sep;
                    assert(now[i] == old_part.push(s.last()));
                    assert(old_part[k] == sep);
                }
            } else if i < before.len() {
                assert(now[i] == before[i]);
            }
        }
    }
}

/// A path that is joined of parts does not start at the root.
proof fn lemma_joined_is_relative(parts: Seq<Seq<char>>)
    requires
        forall|i: int|
            0 <= i < parts.len() ==> (#[trigger] parts[i]).len() > 0 && !parts[i].contains('/'),
    ensures
        parts.len() > 0 ==> text::joined(parts, "/"@).len() > 0,
        text::joined(parts, "/"@).len() > 0 ==> text::joined(parts, "/"@)[0] != '/',
    decreases parts.len(),
{
    if parts.len() == 1 {
        assert(parts[0][0] != '/');
    } else if parts.len() > 1 {
        let rest = parts.drop_last();
        assert forall|i: int| 0 <= i < rest.len() implies (#[trigger] rest[i]).len() > 0
            && !rest[i].contains('/') by {
            assert(rest[i] == parts[i]);
        }
        lemma_joined_is_relative(rest);
    }
}

/// A destination that is accepted stays below the root file system: its file is the
/// root's path followed by parts, none of which leads upwards.
pub proof fn law_destination_stays_inside(destination: Seq<char>, rootfs: Seq<char>)
    requires
        destination_of(destination) is Ok,
        rootfs.len() > 0,
    ensures
        text::has_prefix(util::path_join(rootfs, destination_of(destination)->Ok_0), rootfs),
        !named_parts(text::split_on(destination, '/')).contains(".."@),
{
    let all = text::split_on(destination, '/');
    let parts = named_parts(all);
    let path = text::joined(parts, "/"@);
    lemma_named_parts(all);
    lemma_parts_lack(destination, '/');
    assert forall|i: int| 0 <= i < parts.len() implies (#[trigger] parts[i]).len() > 0
        && !parts[i].contains('/') by {
        reveal_strlit("");
        assert(names_something(parts[i]));
        if parts[i].len() == 0 {
            assert(parts[i] =~= ""@);
        }
        assert(all.contains(parts[i]));
        let k = choose|k: int| 0 <= k < all.len() && all[k] == parts[i];
        assert(!all[k].contains('/'));
    }
    lemma_joined_is_relative(parts);
    let whole = util::path_join(rootfs, path);
    assert(whole.take(rootfs.len() as int) =~= rootfs);
}

// ---------------------------------------------------------------------------
// Options
// ---------------------------------------------------------------------------

/// The flags after one more option.
pub open spec fn option_flags(flags: u64, option: Seq<char>) -> u64 {
    if option == "bind"@ {
        flags | MS_BIND
    } else if option == "rbind"@ {
        flags | (MS_BIND | MS_REC)
    } else if option == "ro"@ {
        flags | MS_RDONLY
    } else if option == "rw"@ {
        flags & !MS_RDONLY
    } else if option == "nosuid"@ {
        flags | MS_NOSUID
    } else if option == "nodev"@ {
        flags | MS_NODEV
    } else if option == "noexec"@ {
        flags | MS_NOEXEC
    } else if option == "noatime"@ {
        flags | MS_NOATIME
    } else if option == "nodiratime"@ {
        flags | MS_NODIRATIME
    } else if option == "relatime"@ {
        flags | MS_RELATIME
    } else if option == "strictatime"@ {
        flags | MS_STRICTATIME
    } else if option == "rec"@ {
        flags | MS_REC
    } else {
        flags
    }
}

/// Options that become flags.
pub open spec fn flag_options() -> Seq<Seq<char>> {
    seq![
        "bind"@,
        "rbind"@,
        "ro"@,
        "rw"@,
        "nosuid"@,
        "nodev"@,
        "noexec"@,
        "noatime"@,
        "nodiratime"@,
        "relatime"@,
        "strictatime"@,
        "rec"@,
    ]
}

/// Options that have no effect.
pub open spec fn ignored_options() -> Seq<Seq<char>> {
    seq![
        "remount"@,
        "private"@,
        "rprivate"@,
        "slave"@,
        "rslave"@,
        "shared"@,
        "rshared"@,
    ]
}

/// An option that is handed to the file system.
pub open spec fn is_data(option: Seq<char>) -> bool {
    text::place_of(flag_options(), option) is None && text::place_of(ignored_options(), option)
        is None
}

/// The flags of all options.
pub open spec fn all_flags(options: Seq<Seq<char>>, is_bind: bool) -> u64
    decreases options.len(),
{
    if options.len() == 0 {
        if is_bind {
            MS_BIND
        } else {
            0
        }
    } else {
        option_flags(all_flags(options.drop_last(), is_bind), options.last())
    }
}

/// The options that are handed to the file system.
pub open spec fn all_data(options: Seq<Seq<char>>) -> Seq<Seq<char>>
    decreases options.len(),
{
    if options.len() == 0 {
        Seq::empty()
    } else if is_data(options.last()) {
        all_data(options.drop_last()).push(options.last())
    } else {
        all_data(options.drop_last())
    }
}

/// What is handed to the file system.
pub open spec fn data_of(options: Seq<Seq<char>>) -> Option<Seq<char>> {
    if all_data(options).len() == 0 {
        None
    } else {
        Some(text::joined(all_data(options), ","@))
    }
}

/// The flags after one more option.
fn add_option(flags: u64, option: &str) -> (r: u64)
    ensures
        r == option_flags(flags, option@),
{
    if same(option, "bind") {
        flags | MS_BIND
    } else if same(option, "rbind") {
        flags | (MS_BIND | MS_REC)
    } else if same(option, "ro") {
        flags | MS_RDONLY
    } else if same(option, "rw") {
        flags & !MS_RDONLY
    } else if same(option, "nosuid") {
        flags | MS_NOSUID
    } else if same(option, "nodev") {
        flags | MS_NODEV
    } else if same(option, "noexec") {
        flags | MS_NOEXEC
    } else if same(option, "noatime") {
        flags | MS_NOATIME
    } else if same(option, "nodiratime") {
        flags | MS_NODIRATIME
    } else if same(option, "relatime") {
        flags | MS_RELATIME
    } else if same(option, "strictatime") {
        flags | MS_STRICTATIME
    } else if same(option, "rec") {
        flags | MS_REC
    } else {
        flags
    }
}

/// Tells whether an option is handed to the file system.
fn data_option(option: &str) -> (r: bool)
    ensures
        r == is_data(option@),
{
    let flags: [&'static str; 12] = [
        "bind",
        "rbind",
        "ro",
        "rw",
        "nosuid",
        "nodev",
        "noexec",
        "noatime",
        "nodiratime",
        "relatime",
        "strictatime",
        "rec",
    ];
    let ignored: [&'static str; 7] = [
        "remount",
        "private",
        "rprivate",
        "slave",
        "rslave",
        "shared",
        "rshared",
    ];
    assert(text::names_of(flags@) =~= flag_options());
    assert(text::names_of(ignored@) =~= ignored_options());
    text::place(&flags, option).is_none() && text::place(&ignored, option).is_none()
}

/// The flags and the data that options stand for.
pub fn mount_options(options: &Vec<String>, is_bind: bool) -> (r: (u64, Option<String>))
    ensures
        r.0 == all_flags(text::views(options@), is_bind),
        text::optional_string(r.1) == data_of(text::views(options@)),
{
    let mut flags: u64 = if is_bind {
        MS_BIND
    } else {
        0
    };
    let mut data: Vec<String> = Vec::new();
    let mut i: usize = 0;
    assert(text::views(data@) =~= Seq::<Seq<char>>::empty());
    while i < options.len()
        invariant
            i <= options.len(),
            flags == all_flags(text::views(options@.take(i as int)), is_bind),
            text::views(data@) == all_data(text::views(options@.take(i as int))),
        decreases options.len() - i,
    {
        let option = options[i].as_str();
        proof {
            let next = text::views(options@.take(i + 1));
            assert(next.drop_last() =~= text::views(options@.take(i as int)));
            assert(next.last() == option@);
        }
        flags = add_option(flags, option);
        if data_option(option) {
            let ghost before = data@;
            data.push(option.to_owned());
            assert(text::views(data@) =~= text::views(before).push(option@));
        }
        i += 1;
    }
    assert(options@.take(options.len() as int) =~= options@);
    assert(text::views(data@).len() == data.len());
    if data.len() == 0 {
        (flags, None)
    } else {
        (flags, Some(join_with(&data, ",")))
    }
}

// ---------------------------------------------------------------------------
// The list of mounts
// ---------------------------------------------------------------------------

/// One mount of the configuration.
#[derive(Debug)]
pub struct MountPlan {
    /// The mount to make.
    pub call: MountCall,
    /// The type that the configuration gives.
    pub kind: String,
    /// A part of the file tree appears in a second place.
    pub is_bind: bool,
    /// The mount is made read-only by a second call.
    pub read_only: bool,
    /// The usual devices are created in it.
    pub with_devices: bool,
}

/// The reading of one mount of the configuration.
pub ghost struct Mount {
    pub call: Call,
    pub kind: Seq<char>,
    pub is_bind: bool,
    pub read_only: bool,
    pub with_devices: bool,
}

impl MountPlan {
    pub open spec fn view(self) -> Mount {
        Mount {
            call: self.call.view(),
            kind: self.kind@,
            is_bind: self.is_bind,
            read_only: self.read_only,
            with_devices: self.with_devices,
        }
    }
}

/// The text of the member `key`, or another text.
pub open spec fn text_or(j: Js, key: Seq<char>, other: Seq<char>) -> Seq<char> {
    match j.str_at(key) {
        Some(s) => s,
        None => other,
    }
}

/// The options of a mount.
pub open spec fn options_of(item: Js) -> Seq<Seq<char>> {
    match item.array_at("options"@) {
        Some(items) => json::strings_in(items),
        None => Seq::empty(),
    }
}

/// One mount of the configuration below the root file system.
pub open spec fn mount_of(item: Js, rootfs: Seq<char>) -> Result<Mount, Seq<char>> {
    match item.str_at("destination"@) {
        None => Err("OCI mount destination is required"@),
        Some(destination) => match destination_of(destination) {
            Err(e) => Err(e),
            Ok(relative) => {
                let kind = text_or(item, "type"@, ""@);
                let options = options_of(item);
                let is_bind = kind == "bind"@ || options.contains("bind"@) || options.contains(
                    "rbind"@,
                );
                Ok(
                    Mount {
                        call: Call {
                            source: text_or(item, "source"@, kind),
                            target: util::path_join(rootfs, relative),
                            fs_type: if is_bind {
                                None
                            } else {
                                Some(kind)
                            },
                            flags: all_flags(options, is_bind),
                            data: data_of(options),
                        },
                        kind,
                        is_bind,
                        read_only: is_bind && options.contains("ro"@),
                        with_devices: destination == "/dev"@ && kind == "tmpfs"@,
                    },
                )
            },
        },
    }
}

/// Tells whether `option` is among the options.
fn has_option(options: &Vec<String>, option: &str) -> (r: bool)
    ensures
        r == text::views(options@).contains(option@),
{
    let mut i: usize = 0;
    while i < options.len()
        invariant
            i <= options.len(),
            forall|k: int| 0 <= k < i ==> (#[trigger] options@[k])@ != option@,
        decreases options.len() - i,
    {
        if same(options[i].as_str(), option) {
            assert(text::views(options@)[i as int] == option@);
            return true;
        }
        i += 1;
    }
    false
}

/// Plans one mount of the configuration.
pub fn plan_mount(item: &Json, rootfs: &str) -> (r: Result<MountPlan, String>)
    ensures
        match (r, mount_of(item.view(), rootfs@)) {
            (Ok(p), Ok(m)) => p.view() == m,
            (Err(m), Err(e)) => m@ == e,
            _ => false,
        },
{
    let destination = match item.str_at("destination") {
        None => {
            return Err("OCI mount destination is required".to_owned());
        },
        Some(s) => s,
    };
    let relative = match safe_guest_destination(destination) {
        Err(e) => {
            return Err(e);
        },
        Ok(p) => p,
    };
    let kind = match item.str_at("type") {
        Some(s) => s.to_owned(),
        None => "".to_owned(),
    };
    let source = match item.str_at("source") {
        Some(s) => s.to_owned(),
        None => kind.clone(),
    };
    let options = match item.array_at("options") {
        Some(items) => json::strings(items),
        None => Vec::new(),
    };
    assert(text::views(options@) =~= options_of(item.view()));
    let is_bind = same(kind.as_str(), "bind") || has_option(&options, "bind") || has_option(
        &options,
        "rbind",
    );
    let (flags, data) = mount_options(&options, is_bind);
    let fs_type = if is_bind {
        None
    } else {
        Some(kind.clone())
    };
    let read_only = is_bind && has_option(&options, "ro");
    let with_devices = same(destination, "/dev") && same(kind.as_str(), "tmpfs");
    let target = join(rootfs, relative.as_str());
    Ok(
        MountPlan {
            call: MountCall { source, target, fs_type, flags, data },
            kind,
            is_bind,
            read_only,
            with_devices,
        },
    )
}

/// The mounts of a list up to the first error, and that error.
pub open spec fn mounts_in(items: Seq<Js>, rootfs: Seq<char>) -> (Seq<Mount>, Option<Seq<char>>)
    decreases items.len(),
{
    if items.len() == 0 {
        (Seq::empty(), None)
    } else {
        let (before, fault) = mounts_in(items.drop_last(), rootfs);
        match fault {
            Some(e) => (before, Some(e)),
            None => match mount_of(items.last(), rootfs) {
                Ok(m) => (before.push(m), None),
                Err(e) => (before, Some(e)),
            },
        }
    }
}

/// The mounts of a configuration up to the first error, and that error.
pub open spec fn mounts_of(config: Js, rootfs: Seq<char>) -> (Seq<Mount>, Option<Seq<char>>) {
    match config.array_at("mounts"@) {
        None => (Seq::empty(), None),
        Some(items) => mounts_in(items, rootfs),
    }
}

/// The readings of planned mounts.
pub open spec fn plans_view(v: Seq<MountPlan>) -> Seq<Mount> {
    v.map_values(|p: MountPlan| p.view())
}

/// Plans the mounts of a configuration.
pub fn apply_oci_mounts(config: &Json, rootfs: &str) -> (r: Schedule<MountPlan>)
    ensures
        (plans_view(r.steps@), text::optional_string(r.fault)) == mounts_of(config.view(), rootfs@),
{
    let mut steps: Vec<MountPlan> = Vec::new();
    let mut fault: Option<String> = None;
    assert(plans_view(steps@) =~= Seq::<Mount>::empty());
    let items = match config.array_at("mounts") {
        None => {
            return Schedule { steps, fault };
        },
        Some(items) => items,
    };
    let mut i: usize = 0;
    assert(items@.take(0) =~= Seq::<Json>::empty());
    while i < items.len()
        invariant
            i <= items.len(),
            (plans_view(steps@), text::optional_string(fault)) == mounts_in(
                json::items_view(items@.take(i as int)),
                rootfs@,
            ),
        decreases items.len() - i,
    {
        proof {
            json::lemma_items_step(items@, i as int);
        }
        if fault.is_none() {
            match plan_mount(&items[i], rootfs) {
                Ok(p) => {
                    let ghost before = steps@;
                    steps.push(p);
                    assert(plans_view(steps@) =~= plans_view(before).push(p.view()));
                },
                Err(e) => {
                    fault = Some(e);
                },
            }
        }
        i += 1;
    }
    assert(items@.take(items.len() as int) =~= items@);
    Schedule { steps, fault }
}

/// The second attempt for a mount that failed: only the old kind of control group
/// has one.
pub open spec fn second_attempt(m: Mount) -> Option<Call> {
    if m.kind == "cgroup"@ {
        Some(Call { source: "cgroup2"@, fs_type: Some("cgroup2"@), ..m.call })
    } else {
        None
    }
}

impl MountPlan {
    /// What to do after the mount failed: another mount, or the error.
    pub fn retry(&self, first: &str) -> (r: Result<MountCall, String>)
        ensures
            match (r, second_attempt(self.view())) {
                (Ok(c), Some(s)) => c.view() == s,
                (Err(m), None) => m@ == "mounting "@ + text::debug_text(self.call.source@) + " on "@
                    + self.call.target@ + ": "@ + first@,
                _ => false,
            },
    {
        if same(self.kind.as_str(), "cgroup") {
            Ok(
                MountCall {
                    source: "cgroup2".to_owned(),
                    target: self.call.target.clone(),
                    fs_type: Some("cgroup2".to_owned()),
                    flags: self.call.flags,
                    data: match &self.call.data {
                        Some(s) => Some(s.clone()),
                        None => None,
                    },
                },
            )
        } else {
            let head = cat("mounting ", debug_quoted(self.call.source.as_str()).as_str());
            let place = cat(cat(head.as_str(), " on ").as_str(), self.call.target.as_str());
            Err(cat(cat(place.as_str(), ": ").as_str(), first))
        }
    }

    /// The error after the second attempt failed too.
    pub fn failed(&self, first: &str, second: &str) -> (r: String)
        ensures
            r@ == "mounting cgroup/cgroup2 on "@ + self.call.target@ + " after "@ + first@ + ": "@
                + second@,
    {
        let head = cat("mounting cgroup/cgroup2 on ", self.call.target.as_str());
        let both = cat(cat(head.as_str(), " after ").as_str(), first);
        cat(cat(both.as_str(), ": ").as_str(), second)
    }

    /// The call that makes a bind mount read-only.
    pub fn remount(&self) -> (r: Option<MountCall>)
        ensures
            match r {
                Some(c) => self.read_only && c.view() == (Call {
                    source: self.call.source@,
                    target: self.call.target@,
                    fs_type: None,
                    flags: MS_BIND | MS_REMOUNT | MS_RDONLY,
                    data: None,
                }),
                None => !self.read_only,
            },
    {
        if self.read_only {
            Some(
                MountCall {
                    source: self.call.source.clone(),
                    target: self.call.target.clone(),
                    fs_type: None,
                    flags: MS_BIND | MS_REMOUNT | MS_RDONLY,
                    data: None,
                },
            )
        } else {
            None
        }
    }
}

// ---------------------------------------------------------------------------
// Masked and read-only paths
// ---------------------------------------------------------------------------

/// Targets for the paths of a list up to the first error, and that error.
pub open spec fn targets_in(paths: Seq<Seq<char>>, rootfs: Seq<char>) -> (
    Seq<Seq<char>>,
    Option<Seq<char>>,
)
    decreases paths.len(),
{
    if paths.len() == 0 {
        (Seq::empty(), None)
    } else {
        let (before, fault) = targets_in(paths.drop_last(), rootfs);
        match fault {
            Some(e) => (before, Some(e)),
            None => match destination_of(paths.last()) {
                Ok(p) => (before.push(util::path_join(rootfs, p)), None),
                Err(e) => (before, Some(e)),
            },
        }
    }
}

/// Targets for the paths that the configuration lists under `key`.
pub open spec fn listed_targets(config: Js, key: Seq<char>, rootfs: Seq<char>) -> (
    Seq<Seq<char>>,
    Option<Seq<char>>,
) {
    match config.get2("linux"@, key) {
        None => (Seq::empty(), None),
        Some(j) => match j.as_array() {
            None => (Seq::empty(), None),
            Some(items) => targets_in(json::strings_in(items), rootfs),
        },
    }
}

/// Finds the targets for the paths that the configuration lists under `key`.
fn find_targets(config: &Json, key: &str, rootfs: &str) -> (r: Schedule<String>)
    ensures
        (text::views(r.steps@), text::optional_string(r.fault)) == listed_targets(
            config.view(),
            key@,
            rootfs@,
        ),
{
    let mut steps: Vec<String> = Vec::new();
    let mut fault: Option<String> = None;
    assert(text::views(steps@) =~= Seq::<Seq<char>>::empty());
    let paths = match config.get2("linux", key) {
        None => {
            return Schedule { steps, fault };
        },
        Some(j) => match j.as_array() {
            None => {
                return Schedule { steps, fault };
            },
            Some(items) => json::strings(items),
        },
    };
    let mut i: usize = 0;
    assert(text::views(paths@.take(0)) =~= Seq::<Seq<char>>::empty());
    while i < paths.len()
        invariant
            i <= paths.len(),
            (text::views(steps@), text::optional_string(fault)) == targets_in(
                text::views(paths@.take(i as int)),
                rootfs@,
            ),
        decreases paths.len() - i,
    {
        proof {
            let next = text::views(paths@.take(i + 1));
            assert(next.drop_last() =~= text::views(paths@.take(i as int)));
            assert(next.last() == paths@[i as int]@);
        }
        if fault.is_none() {
            match safe_guest_destination(paths[i].as_str()) {
                Ok(p) => {
                    let ghost before = steps@;
                    let target = join(rootfs, p.as_str());
                    steps.push(target);
                    assert(text::views(steps@) =~= text::views(before).push(target@));
                },
                Err(e) => {
                    fault = Some(e);
                },
            }
        }
        i += 1;
    }
    assert(paths@.take(paths.len() as int) =~= paths@);
    Schedule { steps, fault }
}

/// The paths to hide, where they exist.
pub fn masked_paths(config: &Json, rootfs: &str) -> (r: Schedule<String>)
    ensures
        (text::views(r.steps@), text::optional_string(r.fault)) == listed_targets(
            config.view(),
            "maskedPaths"@,
            rootfs@,
        ),
{
    find_targets(config, "maskedPaths", rootfs)
}

/// The paths to make read-only, where they exist.
pub fn readonly_paths(config: &Json, rootfs: &str) -> (r: Schedule<String>)
    ensures
        (text::views(r.steps@), text::optional_string(r.fault)) == listed_targets(
            config.view(),
            "readonlyPaths"@,
            rootfs@,
        ),
{
    find_targets(config, "readonlyPaths", rootfs)
}

/// Tells whether the root file system is made read-only.
pub fn readonly_root(config: &Json) -> (r: bool)
    ensures
        r == (config.view().get2("root"@, "readonly"@) == Some(Js::Bool(true))),
{
    match config.get2("root", "readonly") {
        Some(j) => match j.as_bool() {
            Some(b) => b,
            None => false,
        },
        None => false,
    }
}

/// The mounts that hide a path.
pub open spec fn masking(target: Seq<char>, is_dir: bool) -> Seq<Call> {
    if is_dir {
        seq![
            Call {
                source: "tmpfs"@,
                target,
                fs_type: Some("tmpfs"@),
                flags: MS_RDONLY | MS_NOSUID | MS_NODEV | MS_NOEXEC,
                data: Some("size=0"@),
            },
        ]
    } else {
        seq![
            Call { source: "/dev/null"@, target, fs_type: None, flags: MS_BIND, data: None },
            Call {
                source: "/dev/null"@,
                target,
                fs_type: None,
                flags: MS_BIND | MS_REMOUNT | MS_RDONLY,
                data: None,
            },
        ]
    }
}

/// The mounts that make a path read-only.
pub open spec fn freezing(target: Seq<char>) -> Seq<Call> {
    seq![
        Call { source: target, target, fs_type: None, flags: MS_BIND | MS_REC, data: None },
        Call {
            source: target,
            target,
            fs_type: None,
            flags: MS_BIND | MS_REMOUNT | MS_RDONLY | MS_REC,
            data: None,
        },
    ]
}

/// A mount without a type and without data.
fn bind_call(source: &str, target: &str, flags: u64) -> (r: MountCall)
    ensures
        r.view() == (Call { source: source@, target: target@, fs_type: None, flags, data: None }),
{
    MountCall {
        source: source.to_owned(),
        target: target.to_owned(),
        fs_type: None,
        flags,
        data: None,
    }
}

/// The mounts that hide a path.
pub fn mask_calls(target: &str, is_dir: bool) -> (r: Vec<MountCall>)
    ensures
        calls_view(r@) == masking(target@, is_dir),
{
    let mut out: Vec<MountCall> = Vec::new();
    if is_dir {
        out.push(
            MountCall {
                source: "tmpfs".to_owned(),
                target: target.to_owned(),
                fs_type: Some("tmpfs".to_owned()),
                flags: MS_RDONLY | MS_NOSUID | MS_NODEV | MS_NOEXEC,
                data: Some("size=0".to_owned()),
            },
        );
    } else {
        out.push(bind_call("/dev/null", target, MS_BIND));
        out.push(bind_call("/dev/null", target, MS_BIND | MS_REMOUNT | MS_RDONLY));
    }
    assert(calls_view(out@) =~= masking(target@, is_dir));
    out
}

/// The mounts that make a path read-only.
pub fn readonly_calls(target: &str) -> (r: Vec<MountCall>)
    ensures
        calls_view(r@) == freezing(target@),
{
    let mut out: Vec<MountCall> = Vec::new();
    out.push(bind_call(target, target, MS_BIND | MS_REC));
    out.push(bind_call(target, target, MS_BIND | MS_REMOUNT | MS_RDONLY | MS_REC));
    assert(calls_view(out@) =~= freezing(target@));
    out
}

/// A device that is created in a new device directory.
#[derive(Debug, Clone, Copy)]
pub struct MinimalDevice {
    pub name: &'static str,
    pub major: u32,
    pub minor: u32,
    pub mode: u32,
}

/// The usual devices: name, major and minor number.
pub open spec fn minimal_table() -> Seq<(Seq<char>, u32, u32)> {
    seq![
        ("null"@, 1, 3),
        ("zero"@, 1, 5),
        ("full"@, 1, 7),
        ("random"@, 1, 8),
        ("urandom"@, 1, 9),
        ("tty"@, 5, 0),
    ]
}

/// The usual devices, which everyone may read and write.
pub fn minimal_devices() -> (r: Vec<MinimalDevice>)
    ensures
        r.len() == 6,
        forall|i: int|
            0 <= i < 6 ==> ((#[trigger] r@[i]).name@, r@[i].major, r@[i].minor)
                == minimal_table()[i] && r@[i].mode == 0o666,
{
    let mut out: Vec<MinimalDevice> = Vec::new();
    out.push(MinimalDevice { name: "null", major: 1, minor: 3, mode: 0o666 });
    out.push(MinimalDevice { name: "zero", major: 1, minor: 5, mode: 0o666 });
    out.push(MinimalDevice { name: "full", major: 1, minor: 7, mode: 0o666 });
    out.push(MinimalDevice { name: "random", major: 1, minor: 8, mode: 0o666 });
    out.push(MinimalDevice { name: "urandom", major: 1, minor: 9, mode: 0o666 });
    out.push(MinimalDevice { name: "tty", major: 5, minor: 0, mode: 0o666 });
    out
}

/// The order in which mounts are undone: the last one first.
pub fn cleanup_mounts(mounts: &Vec<String>) -> (r: Vec<String>)
    ensures
        text::views(r@) == text::views(mounts@).reverse(),
{
    let mut out: Vec<String> = Vec::new();
    let mut n: usize = mounts.len();
    while n > 0
        invariant
            n <= mounts.len(),
            out.len() == mounts.len() - n,
            forall|k: int|
                0 <= k < out.len() ==> (#[trigger] out@[k])@ == mounts@[mounts.len() - 1 - k]@,
        decreases n,
    {
        n -= 1;
        out.push(mounts[n].clone());
    }
    assert(text::views(out@) =~= text::views(mounts@).reverse());
    out
}

} // verus!
