//! What a configuration comes to: whatever it says of the limits, the mounts, the devices,
//! the kernel parameters and the system calls of a container is what is done.

use vstd::prelude::*;

use crate::cgroup::util;
use crate::container::oci::config;
use crate::container::oci::devices;
use crate::container::oci::devices::{DeviceNode, GuestDevice, Parameter, S_IFCHR, S_IFIFO};
use crate::container::oci::mounts;
use crate::container::oci::mounts::{
    Mount, MS_BIND, MS_NOATIME, MS_NODEV, MS_NODIRATIME, MS_NOEXEC, MS_NOSUID, MS_RDONLY,
    MS_REC, MS_RELATIME, MS_REMOUNT, MS_STRICTATIME,
};
use crate::container::oci::process;
use crate::container::oci::seccomp;
use crate::container::protocol::ResourceLimits;
use crate::json;
use crate::json::Js;
use crate::labels;
use crate::text;

verus! {

/// The value to which keys lead, one after the other.
pub open spec fn at(j: Js, keys: Seq<Seq<char>>) -> Option<Js>
    decreases keys.len(),
{
    if keys.len() == 0 {
        Some(j)
    } else {
        match at(j, keys.drop_last()) {
            Some(Js::Obj(m)) => if m.contains_key(keys.last()) {
                Some(m[keys.last()])
            } else {
                None
            },
            _ => None,
        }
    }
}

/// Two, three or four keys lead where the single steps do.
proof fn lemma_at(j: Js, a: Seq<char>, b: Seq<char>, c: Seq<char>, d: Seq<char>)
    ensures
        at(j, seq![a]) == j.get(a),
        at(j, seq![a, b]) == j.get2(a, b),
        at(j, seq![a, b, c]) == j.get3(a, b, c),
        at(j, seq![a, b, c, d]) == (match j.get3(a, b, c) {
            Some(x) => x.get(d),
            None => None,
        }),
{
    let s0 = Seq::<Seq<char>>::empty();
    let s1 = seq![a];
    let s2 = seq![a, b];
    let s3 = seq![a, b, c];
    let s4 = seq![a, b, c, d];
    assert(s1.drop_last() =~= s0);
    assert(s2.drop_last() =~= s1);
    assert(s3.drop_last() =~= s2);
    assert(s4.drop_last() =~= s3);
    assert(at(j, s0) == Some(j));
}

// ---------------------------------------------------------------------------
// Limits
// ---------------------------------------------------------------------------

/// The value is the signed number to which the keys below the resources lead.
pub open spec fn is_signed(value: Option<i64>, j: Js, group: Seq<char>, key: Seq<char>) -> bool {
    match at(j, seq!["linux"@, "resources"@, group, key]) {
        Some(Js::Int(n)) => i64::MIN <= n <= i64::MAX ==> value == Some(n as i64),
        _ => value is None,
    }
}

/// The value is the unsigned number to which the keys below the resources lead.
pub open spec fn is_unsigned(value: Option<u64>, j: Js, group: Seq<char>, key: Seq<char>) -> bool {
    match at(j, seq!["linux"@, "resources"@, group, key]) {
        Some(Js::Int(n)) => 0 <= n <= u64::MAX ==> value == Some(n as u64),
        _ => value is None,
    }
}

/// The value is the text to which the keys below the resources lead.
pub open spec fn is_text(value: Option<String>, j: Js, group: Seq<char>, key: Seq<char>) -> bool {
    match at(j, seq!["linux"@, "resources"@, group, key]) {
        Some(Js::Str(s)) => value matches Some(v) && v@ == s,
        _ => value is None,
    }
}

/// The limits of a container are those that its configuration states, each by its own name.
pub proof fn law_limits_are_those_of_the_configuration(r: ResourceLimits, j: Js)
    requires
        config::limits_of(r, j),
    ensures
        is_signed(r.cpu_quota, j, "cpu"@, "quota"@),
        is_unsigned(r.cpu_period, j, "cpu"@, "period"@),
        is_unsigned(r.cpu_shares, j, "cpu"@, "shares"@),
        is_text(r.cpuset_cpus, j, "cpu"@, "cpus"@),
        is_text(r.cpuset_mems, j, "cpu"@, "mems"@),
        is_signed(r.memory_limit_bytes, j, "memory"@, "limit"@),
        is_signed(r.memory_reservation_bytes, j, "memory"@, "reservation"@),
        is_signed(r.memory_swap_bytes, j, "memory"@, "swap"@),
        is_signed(r.pids_limit, j, "pids"@, "limit"@),
{
    lemma_at(j, "linux"@, "resources"@, "cpu"@, "quota"@);
    lemma_at(j, "linux"@, "resources"@, "cpu"@, "period"@);
    lemma_at(j, "linux"@, "resources"@, "cpu"@, "shares"@);
    lemma_at(j, "linux"@, "resources"@, "cpu"@, "cpus"@);
    lemma_at(j, "linux"@, "resources"@, "cpu"@, "mems"@);
    lemma_at(j, "linux"@, "resources"@, "memory"@, "limit"@);
    lemma_at(j, "linux"@, "resources"@, "memory"@, "reservation"@);
    lemma_at(j, "linux"@, "resources"@, "memory"@, "swap"@);
    lemma_at(j, "linux"@, "resources"@, "pids"@, "limit"@);
}

/// The further controls of a container are those that its configuration states.
pub proof fn law_further_controls_are_read(r: ResourceLimits, j: Js, key: Seq<char>)
    requires
        config::limits_of(r, j),
    ensures
        match at(j, seq!["linux"@, "resources"@, "unified"@, key]) {
            Some(Js::Str(v)) => labels::labels_view(r.unified@).contains_key(key)
                && labels::labels_view(r.unified@)[key] == v,
            _ => !labels::labels_view(r.unified@).contains_key(key),
        },
{
    lemma_at(j, "linux"@, "resources"@, "unified"@, key);
}

// ---------------------------------------------------------------------------
// Mounts
// ---------------------------------------------------------------------------

/// A list without a wrong mount is made mount by mount.
proof fn lemma_mounts(items: Seq<Js>, rootfs: Seq<char>)
    ensures
        mounts::mounts_in(items, rootfs).1 is None <==> (forall|i: int|
            0 <= i < items.len() ==> mounts::mount_of(#[trigger] items[i], rootfs) is Ok),
        mounts::mounts_in(items, rootfs).1 is None ==> mounts::mounts_in(items, rootfs).0.len()
            == items.len() && forall|i: int|
            0 <= i < items.len() ==> mounts::mount_of(#[trigger] items[i], rootfs) == Ok::<
                Mount,
                Seq<char>,
            >(mounts::mounts_in(items, rootfs).0[i]),
    decreases items.len(),
{
    if items.len() > 0 {
        let before = items.drop_last();
        lemma_mounts(before, rootfs);
        assert(forall|i: int| 0 <= i < before.len() ==> before[i] == items[i]);
        let last = items[items.len() - 1];
        if mounts::mounts_in(items, rootfs).1 is Some {
            if mounts::mount_of(last, rootfs) is Ok {
                let i = choose|i: int|
                    0 <= i < before.len() && !(mounts::mount_of(#[trigger] before[i], rootfs) is Ok);
                assert(!(mounts::mount_of(items[i], rootfs) is Ok));
            }
        } else {
            assert forall|i: int| 0 <= i < items.len() implies mounts::mount_of(
                #[trigger] items[i],
                rootfs,
            ) == Ok::<Mount, Seq<char>>(mounts::mounts_in(items, rootfs).0[i]) by {
                if i < before.len() {
                    assert(before[i] == items[i]);
                }
            }
        }
    }
}

/// Where there is no error, every mount of the configuration is made, in the order of the
/// configuration; there is an error just where one of them is wrong.
pub proof fn law_mounts_are_all_made(j: Js, rootfs: Seq<char>, items: Seq<Js>)
    requires
        at(j, seq!["mounts"@]) == Some(Js::Arr(items)),
    ensures
        mounts::mounts_of(j, rootfs).1 is None <==> (forall|i: int|
            0 <= i < items.len() ==> mounts::mount_of(#[trigger] items[i], rootfs) is Ok),
        mounts::mounts_of(j, rootfs).1 is None ==> mounts::mounts_of(j, rootfs).0.len()
            == items.len() && forall|i: int|
            0 <= i < items.len() ==> mounts::mount_of(#[trigger] items[i], rootfs) == Ok::<
                Mount,
                Seq<char>,
            >(mounts::mounts_of(j, rootfs).0[i]),
{
    lemma_at(j, "mounts"@, ""@, ""@, ""@);
    lemma_mounts(items, rootfs);
}

/// A part of a path that can stand in a destination.
pub open spec fn is_plain(part: Seq<char>) -> bool {
    part != ""@ && part != "."@ && part != ".."@ && text::lacks(part, '/')
}

/// Parts that name something are all named.
proof fn lemma_all_named(parts: Seq<Seq<char>>)
    requires
        forall|i: int| 0 <= i < parts.len() ==> mounts::names_something(#[trigger] parts[i]),
    ensures
        mounts::named_parts(parts) == parts,
    decreases parts.len(),
{
    if parts.len() > 0 {
        assert(mounts::names_something(parts[parts.len() - 1]));
        assert forall|i: int| 0 <= i < parts.drop_last().len() implies mounts::names_something(
            #[trigger] parts.drop_last()[i],
        ) by {
            assert(parts.drop_last()[i] == parts[i]);
        }
        lemma_all_named(parts.drop_last());
        assert(parts =~= parts.drop_last().push(parts.last()));
    } else {
        assert(parts =~= Seq::<Seq<char>>::empty());
    }
}

/// A part in front of others that names nothing is left out.
proof fn lemma_first_unnamed(first: Seq<char>, parts: Seq<Seq<char>>)
    requires
        !mounts::names_something(first),
    ensures
        mounts::named_parts(seq![first] + parts) == mounts::named_parts(parts),
    decreases parts.len(),
{
    let all = seq![first] + parts;
    if parts.len() == 0 {
        assert(all.drop_last() =~= Seq::<Seq<char>>::empty());
        assert(all.last() == first);
        assert(parts =~= Seq::<Seq<char>>::empty());
        assert(mounts::named_parts(all.drop_last()) =~= Seq::<Seq<char>>::empty());
    } else {
        assert(all.drop_last() =~= seq![first] + parts.drop_last());
        assert(all.last() == parts.last());
        lemma_first_unnamed(first, parts.drop_last());
    }
}

/// A text with a separator in front is split into nothing and the parts of the text.
proof fn lemma_split_behind(s: Seq<char>, sep: char)
    ensures
        text::split_on(seq![sep] + s, sep) == seq![Seq::<char>::empty()] + text::split_on(s, sep),
    decreases s.len(),
{
    let all = seq![sep] + s;
    if s.len() == 0 {
        assert(s =~= Seq::<char>::empty());
        assert(all.drop_last() =~= Seq::<char>::empty());
        assert(all.last() == sep);
        reveal_with_fuel(text::split_on, 3);
        assert(text::split_on(all, sep) =~= seq![Seq::<char>::empty()] + text::split_on(s, sep));
    } else {
        assert(all.drop_last() =~= seq![sep] + s.drop_last());
        assert(all.last() == s.last());
        lemma_split_behind(s.drop_last(), sep);
        let a = text::split_on(s.drop_last(), sep);
        let b = text::split_on(all.drop_last(), sep);
        assert(b =~= seq![Seq::<char>::empty()] + a);
        assert(a.len() > 0) by {
            reveal_with_fuel(text::split_on, 2);
        }
        assert(b.last() == a.last());
        assert(b.drop_last() =~= seq![Seq::<char>::empty()] + a.drop_last());
        assert(text::split_on(all, sep) =~= seq![Seq::<char>::empty()] + text::split_on(s, sep));
    }
}

/// A destination of plain parts is that path below the root file system.
pub proof fn law_plain_destinations_are_kept(parts: Seq<Seq<char>>)
    requires
        parts.len() > 0,
        forall|i: int| 0 <= i < parts.len() ==> is_plain(#[trigger] parts[i]),
    ensures
        mounts::destination_of(seq!['/'] + text::joined(parts, seq!['/'])) == Ok::<
            Seq<char>,
            Seq<char>,
        >(text::joined(parts, seq!['/'])),
{
    reveal_strlit("/");
    reveal_strlit("");
    assert("/"@ =~= seq!['/']);
    assert(""@ =~= Seq::<char>::empty());
    let rest = text::joined(parts, seq!['/']);
    let d = seq!['/'] + rest;
    assert forall|i: int| 0 <= i < parts.len() implies text::lacks(#[trigger] parts[i], '/') by {
        assert(is_plain(parts[i]));
    }
    text::lemma_split_joined(parts, '/');
    lemma_split_behind(rest, '/');
    lemma_first_unnamed(Seq::<char>::empty(), parts);
    assert forall|i: int| 0 <= i < parts.len() implies mounts::names_something(#[trigger] parts[i]) by {
        assert(is_plain(parts[i]));
    }
    lemma_all_named(parts);
    if parts.contains(".."@) {
        let i = choose|i: int| 0 <= i < parts.len() && parts[i] == ".."@;
        assert(is_plain(parts[i]));
    }
}

/// A path that is relative, or in which a part leads upwards, is no destination.
pub proof fn law_wrong_destinations_are_refused(destination: Seq<char>, i: int)
    requires
        destination.len() == 0 || destination[0] != '/' || (0 <= i < text::split_on(
            destination,
            '/',
        ).len() && text::split_on(destination, '/')[i] == ".."@),
    ensures
        mounts::destination_of(destination) is Err,
{
    let parts = text::split_on(destination, '/');
    if 0 <= i < parts.len() && parts[i] == ".."@ {
        reveal_strlit("..");
        reveal_strlit(".");
        reveal_strlit("");
        assert(".."@.len() == 2);
        assert("."@.len() == 1);
        assert(""@.len() == 0);
        lemma_named_stays(parts, i);
    }
}

/// A part that names something stays.
proof fn lemma_named_stays(parts: Seq<Seq<char>>, i: int)
    requires
        0 <= i < parts.len(),
        mounts::names_something(parts[i]),
    ensures
        mounts::named_parts(parts).contains(parts[i]),
    decreases parts.len(),
{
    let before = parts.drop_last();
    if i < before.len() {
        assert(before[i] == parts[i]);
        lemma_named_stays(before, i);
        let named = mounts::named_parts(before);
        let k = choose|k: int| 0 <= k < named.len() && named[k] == parts[i];
        assert(mounts::named_parts(parts)[k] == parts[i]);
    } else {
        let named = mounts::named_parts(parts);
        assert(named[named.len() - 1] == parts[i]);
    }
}

/// The strings of a list, as the options of a mount.
pub open spec fn has_options(item: Js, options: Seq<Seq<char>>) -> bool {
    at(item, seq!["options"@]) matches Some(Js::Arr(items)) && items.len() == options.len()
        && forall|i: int| 0 <= i < items.len() ==> #[trigger] items[i] == Js::Str(options[i])
}

/// The options of a mount are the strings of its list.
proof fn lemma_options(item: Js, options: Seq<Seq<char>>)
    requires
        has_options(item, options),
    ensures
        mounts::options_of(item) == options,
{
    lemma_at(item, "options"@, ""@, ""@, ""@);
    let items = at(item, seq!["options"@])->0->Arr_0;
    json::law_strings_are_kept(items);
    assert forall|i: int| 0 <= i < items.len() implies json::strings_in(items)[i] == options[i] by {
        assert(items[i] == Js::Str(options[i]));
    }
    assert(json::strings_in(items) =~= options);
}

/// A mount is what its description says: its file below the root file system, what it is
/// made from, and of what type. A mount of a part of the file tree has no type.
pub proof fn law_mounts_are_as_described(
    item: Js,
    rootfs: Seq<char>,
    options: Seq<Seq<char>>,
    destination: Seq<char>,
    kind: Seq<char>,
    source: Seq<char>,
)
    requires
        at(item, seq!["destination"@]) == Some(Js::Str(destination)),
        at(item, seq!["type"@]) == Some(Js::Str(kind)),
        at(item, seq!["source"@]) == Some(Js::Str(source)),
        has_options(item, options),
    ensures
        mounts::mount_of(item, rootfs) is Ok <==> mounts::destination_of(destination) is Ok,
        mounts::mount_of(item, rootfs) matches Ok(m) ==> {
            &&& m.kind == kind
            &&& m.call.source == source
            &&& m.call.target == util::path_join(rootfs, mounts::destination_of(destination)->Ok_0)
            &&& m.is_bind <==> kind == "bind"@ || options.contains("bind"@) || options.contains(
                "rbind"@,
            )
            &&& m.is_bind <==> m.call.fs_type is None
            &&& !m.is_bind ==> m.call.fs_type == Some(kind)
            &&& m.read_only <==> m.is_bind && options.contains("ro"@)
            &&& m.with_devices <==> destination == "/dev"@ && kind == "tmpfs"@
        },
{
    lemma_at(item, "destination"@, ""@, ""@, ""@);
    lemma_at(item, "type"@, ""@, ""@, ""@);
    lemma_at(item, "source"@, ""@, ""@, ""@);
    lemma_options(item, options);
}

/// What is not said of a mount: without a source its type stands for it, and without options
/// it has none.
pub proof fn law_mounts_without_details(
    item: Js,
    rootfs: Seq<char>,
    destination: Seq<char>,
    kind: Seq<char>,
)
    requires
        at(item, seq!["destination"@]) == Some(Js::Str(destination)),
        at(item, seq!["type"@]) == Some(Js::Str(kind)),
        at(item, seq!["source"@]) is None,
        at(item, seq!["options"@]) is None,
        mounts::destination_of(destination) is Ok,
        kind != "bind"@,
    ensures
        mounts::mount_of(item, rootfs) matches Ok(m) && m.call.source == kind && m.call.fs_type
            == Some(kind) && m.call.flags == 0 && m.call.data is None && !m.read_only,
{
    lemma_at(item, "destination"@, ""@, ""@, ""@);
    lemma_at(item, "type"@, ""@, ""@, ""@);
    lemma_at(item, "source"@, ""@, ""@, ""@);
    lemma_at(item, "options"@, ""@, ""@, ""@);
    assert(!Seq::<Seq<char>>::empty().contains("bind"@));
    assert(!Seq::<Seq<char>>::empty().contains("rbind"@));
}

/// The bits of two numbers together.
proof fn lemma_or(f: u64, m: u64, k: u64)
    by (bit_vector)
    ensures
        ((f | m) & k != 0) == (f & k != 0 || m & k != 0),
{
}

/// The bits of a number without some.
proof fn lemma_without(f: u64, m: u64, k: u64)
    by (bit_vector)
    requires
        k & m == 0,
    ensures
        ((f & !m) & k != 0) == (f & k != 0),
        (f & !m) & m == 0,
{
}

/// The flags are single bits of their own.
proof fn lemma_bits()
    by (bit_vector)
    ensures
        MS_RDONLY & MS_NOSUID == 0 && MS_RDONLY & MS_NODEV == 0 && MS_RDONLY & MS_NOEXEC == 0,
        MS_RDONLY & MS_NOATIME == 0 && MS_RDONLY & MS_NODIRATIME == 0 && MS_RDONLY & MS_BIND == 0,
        MS_RDONLY & MS_REC == 0 && MS_RDONLY & MS_RELATIME == 0 && MS_RDONLY & MS_STRICTATIME == 0,
        MS_NOSUID & MS_RDONLY == 0 && MS_NOSUID & MS_NODEV == 0 && MS_NOSUID & MS_NOEXEC == 0,
        MS_NOSUID & MS_NOATIME == 0 && MS_NOSUID & MS_NODIRATIME == 0 && MS_NOSUID & MS_BIND == 0,
        MS_NOSUID & MS_REC == 0 && MS_NOSUID & MS_RELATIME == 0 && MS_NOSUID & MS_STRICTATIME == 0,
        MS_NODEV & MS_RDONLY == 0 && MS_NODEV & MS_NOSUID == 0 && MS_NODEV & MS_NOEXEC == 0,
        MS_NODEV & MS_NOATIME == 0 && MS_NODEV & MS_NODIRATIME == 0 && MS_NODEV & MS_BIND == 0,
        MS_NODEV & MS_REC == 0 && MS_NODEV & MS_RELATIME == 0 && MS_NODEV & MS_STRICTATIME == 0,
        MS_NOEXEC & MS_RDONLY == 0 && MS_NOEXEC & MS_NOSUID == 0 && MS_NOEXEC & MS_NODEV == 0,
        MS_NOEXEC & MS_NOATIME == 0 && MS_NOEXEC & MS_NODIRATIME == 0 && MS_NOEXEC & MS_BIND == 0,
        MS_NOEXEC & MS_REC == 0 && MS_NOEXEC & MS_RELATIME == 0 && MS_NOEXEC & MS_STRICTATIME == 0,
        MS_NOATIME & MS_RDONLY == 0 && MS_NOATIME & MS_NOSUID == 0 && MS_NOATIME & MS_NODEV == 0,
        MS_NOATIME & MS_NOEXEC == 0 && MS_NOATIME & MS_NODIRATIME == 0 && MS_NOATIME & MS_BIND == 0,
        MS_NOATIME & MS_REC == 0 && MS_NOATIME & MS_RELATIME == 0 && MS_NOATIME & MS_STRICTATIME
            == 0,
        MS_NODIRATIME & MS_RDONLY == 0 && MS_NODIRATIME & MS_NOSUID == 0 && MS_NODIRATIME & MS_NODEV
            == 0,
        MS_NODIRATIME & MS_NOEXEC == 0 && MS_NODIRATIME & MS_NOATIME == 0 && MS_NODIRATIME & MS_BIND
            == 0,
        MS_NODIRATIME & MS_REC == 0 && MS_NODIRATIME & MS_RELATIME == 0 && MS_NODIRATIME
            & MS_STRICTATIME == 0,
        MS_BIND & MS_RDONLY == 0 && MS_BIND & MS_NOSUID == 0 && MS_BIND & MS_NODEV == 0,
        MS_BIND & MS_NOEXEC == 0 && MS_BIND & MS_NOATIME == 0 && MS_BIND & MS_NODIRATIME == 0,
        MS_BIND & MS_REC == 0 && MS_BIND & MS_RELATIME == 0 && MS_BIND & MS_STRICTATIME == 0,
        MS_REC & MS_RDONLY == 0 && MS_REC & MS_NOSUID == 0 && MS_REC & MS_NODEV == 0,
        MS_REC & MS_NOEXEC == 0 && MS_REC & MS_NOATIME == 0 && MS_REC & MS_NODIRATIME == 0,
        MS_REC & MS_BIND == 0 && MS_REC & MS_RELATIME == 0 && MS_REC & MS_STRICTATIME == 0,
        MS_RELATIME & MS_RDONLY == 0 && MS_RELATIME & MS_NOSUID == 0 && MS_RELATIME & MS_NODEV == 0,
        MS_RELATIME & MS_NOEXEC == 0 && MS_RELATIME & MS_NOATIME == 0 && MS_RELATIME
            & MS_NODIRATIME == 0,
        MS_RELATIME & MS_BIND == 0 && MS_RELATIME & MS_REC == 0 && MS_RELATIME & MS_STRICTATIME
            == 0,
        MS_STRICTATIME & MS_RDONLY == 0 && MS_STRICTATIME & MS_NOSUID == 0 && MS_STRICTATIME
            & MS_NODEV == 0,
        MS_STRICTATIME & MS_NOEXEC == 0 && MS_STRICTATIME & MS_NOATIME == 0 && MS_STRICTATIME
            & MS_NODIRATIME == 0,
        MS_STRICTATIME & MS_BIND == 0 && MS_STRICTATIME & MS_REC == 0 && MS_STRICTATIME
            & MS_RELATIME == 0,
        MS_RDONLY & MS_RDONLY != 0 && MS_NOSUID & MS_NOSUID != 0 && MS_NODEV & MS_NODEV != 0,
        MS_NOEXEC & MS_NOEXEC != 0 && MS_NOATIME & MS_NOATIME != 0 && MS_NODIRATIME & MS_NODIRATIME
            != 0,
        MS_BIND & MS_BIND != 0 && MS_REC & MS_REC != 0 && MS_RELATIME & MS_RELATIME != 0,
        MS_STRICTATIME & MS_STRICTATIME != 0,
{
}

/// The last of the two options is the first of them.
pub open spec fn decides(options: Seq<Seq<char>>, yes: Seq<char>, no: Seq<char>) -> bool
    decreases options.len(),
{
    if options.len() == 0 {
        false
    } else if options.last() == yes {
        true
    } else if options.last() == no {
        false
    } else {
        decides(options.drop_last(), yes, no)
    }
}

/// One more option is among the options, as are those before it.
proof fn lemma_contains_step(options: Seq<Seq<char>>, name: Seq<char>)
    requires
        options.len() > 0,
    ensures
        options.contains(name) == (options.drop_last().contains(name) || options.last() == name),
{
    let before = options.drop_last();
    if options.contains(name) && options.last() != name {
        let i = choose|i: int| 0 <= i < options.len() && options[i] == name;
        assert(before[i] == name);
    }
    if before.contains(name) {
        let i = choose|i: int| 0 <= i < before.len() && before[i] == name;
        assert(options[i] == name);
    }
    assert(options[options.len() - 1] == options.last());
}

/// The names of the options differ.
proof fn lemma_option_names()
    ensures
        ({
            let names = mounts::flag_options();
            names.no_duplicates()
        }),
{
    reveal_strlit("bind");
    reveal_strlit("rbind");
    reveal_strlit("ro");
    reveal_strlit("rw");
    reveal_strlit("nosuid");
    reveal_strlit("nodev");
    reveal_strlit("noexec");
    reveal_strlit("noatime");
    reveal_strlit("nodiratime");
    reveal_strlit("relatime");
    reveal_strlit("strictatime");
    reveal_strlit("rec");
    assert("bind"@.len() == 4);
    assert("rbind"@.len() == 5 && "rbind"@[0] == 'r');
    assert("ro"@.len() == 2 && "ro"@[1] == 'o');
    assert("rw"@.len() == 2 && "rw"@[1] == 'w');
    assert("nosuid"@.len() == 6 && "nosuid"@[2] == 's');
    assert("nodev"@.len() == 5 && "nodev"@[0] == 'n');
    assert("noexec"@.len() == 6 && "noexec"@[2] == 'e');
    assert("noatime"@.len() == 7);
    assert("nodiratime"@.len() == 10);
    assert("relatime"@.len() == 8);
    assert("strictatime"@.len() == 11);
    assert("rec"@.len() == 3);
}

/// Each flag of a mount is set just where its option stands in the list; of the options for
/// reading only and for writing, the last one counts.
pub proof fn law_options_are_flags(options: Seq<Seq<char>>, is_bind: bool)
    ensures
        ({
            let f = mounts::all_flags(options, is_bind);
            &&& f & MS_NOSUID != 0 <==> options.contains("nosuid"@)
            &&& f & MS_NODEV != 0 <==> options.contains("nodev"@)
            &&& f & MS_NOEXEC != 0 <==> options.contains("noexec"@)
            &&& f & MS_NOATIME != 0 <==> options.contains("noatime"@)
            &&& f & MS_NODIRATIME != 0 <==> options.contains("nodiratime"@)
            &&& f & MS_RELATIME != 0 <==> options.contains("relatime"@)
            &&& f & MS_STRICTATIME != 0 <==> options.contains("strictatime"@)
            &&& f & MS_REC != 0 <==> options.contains("rec"@) || options.contains("rbind"@)
            &&& f & MS_BIND != 0 <==> is_bind || options.contains("bind"@) || options.contains(
                "rbind"@,
            )
            &&& f & MS_RDONLY != 0 <==> decides(options, "ro"@, "rw"@)
        }),
    decreases options.len(),
{
    lemma_bits();
    if options.len() == 0 {
        assert(forall|k: u64| #[trigger] (0u64 & k) == 0) by (bit_vector);
    } else {
        law_options_are_flags(options.drop_last(), is_bind);
        let f = mounts::all_flags(options.drop_last(), is_bind);
        lemma_contains_step(options, "nosuid"@);
        lemma_contains_step(options, "nodev"@);
        lemma_contains_step(options, "noexec"@);
        lemma_contains_step(options, "noatime"@);
        lemma_contains_step(options, "nodiratime"@);
        lemma_contains_step(options, "relatime"@);
        lemma_contains_step(options, "strictatime"@);
        lemma_contains_step(options, "rec"@);
        lemma_contains_step(options, "bind"@);
        lemma_contains_step(options, "rbind"@);
        lemma_option_names();
        let names = mounts::flag_options();
        assert(names[0] == "bind"@ && names[1] == "rbind"@ && names[2] == "ro"@ && names[3]
            == "rw"@ && names[4] == "nosuid"@ && names[5] == "nodev"@ && names[6] == "noexec"@
            && names[7] == "noatime"@ && names[8] == "nodiratime"@ && names[9] == "relatime"@
            && names[10] == "strictatime"@ && names[11] == "rec"@);
        assert forall|m: u64, k: u64| #[trigger]
            ((f | m) & k) != 0 <==> (f & k != 0 || m & k != 0) by {
            lemma_or(f, m, k);
        }
        assert forall|k: u64| #[trigger] (MS_RDONLY & k) == 0 implies ((f & !MS_RDONLY) & k != 0)
            == (f & k != 0) by {
            assert(MS_RDONLY & k == k & MS_RDONLY) by (bit_vector);
            lemma_without(f, MS_RDONLY, k);
        }
        assert((f & !MS_RDONLY) & MS_RDONLY == 0) by {
            assert(0u64 & MS_RDONLY == 0) by (bit_vector);
            lemma_without(f, MS_RDONLY, 0);
        }
        lemma_or(MS_BIND, MS_REC, MS_NOSUID);
        lemma_or(MS_BIND, MS_REC, MS_NODEV);
        lemma_or(MS_BIND, MS_REC, MS_NOEXEC);
        lemma_or(MS_BIND, MS_REC, MS_NOATIME);
        lemma_or(MS_BIND, MS_REC, MS_NODIRATIME);
        lemma_or(MS_BIND, MS_REC, MS_RELATIME);
        lemma_or(MS_BIND, MS_REC, MS_STRICTATIME);
        lemma_or(MS_BIND, MS_REC, MS_REC);
        lemma_or(MS_BIND, MS_REC, MS_BIND);
        lemma_or(MS_BIND, MS_REC, MS_RDONLY);
    }
}

/// What is handed to the file system of a mount are just the options that set no flag and
/// that are no propagation, in their order and with commas between them.
pub proof fn law_other_options_are_data(options: Seq<Seq<char>>)
    requires
        forall|i: int|
            0 <= i < options.len() ==> !mounts::flag_options().contains(#[trigger] options[i])
                && !mounts::ignored_options().contains(options[i]),
    ensures
        options.len() > 0 ==> mounts::data_of(options) == Some(text::joined(options, ","@)),
        options.len() == 0 ==> mounts::data_of(options) is None,
        mounts::all_data(options) == options,
        mounts::all_flags(options, false) == 0,
    decreases options.len(),
{
    if options.len() > 0 {
        let before = options.drop_last();
        let last = options[options.len() - 1];
        assert forall|i: int| 0 <= i < before.len() implies !mounts::flag_options().contains(
            #[trigger] before[i],
        ) && !mounts::ignored_options().contains(before[i]) by {
            assert(before[i] == options[i]);
        }
        law_other_options_are_data(before);
        text::lemma_place(mounts::flag_options(), last);
        text::lemma_place(mounts::ignored_options(), last);
        let names = mounts::flag_options();
        assert(names[0] == "bind"@ && names[1] == "rbind"@ && names[2] == "ro"@ && names[3]
            == "rw"@ && names[4] == "nosuid"@ && names[5] == "nodev"@ && names[6] == "noexec"@
            && names[7] == "noatime"@ && names[8] == "nodiratime"@ && names[9] == "relatime"@
            && names[10] == "strictatime"@ && names[11] == "rec"@);
        assert(options =~= before.push(last));
    } else {
        assert(options =~= Seq::<Seq<char>>::empty());
    }
}

/// Options that set flags are not handed to the file system.
pub proof fn law_flags_are_no_data(options: Seq<Seq<char>>)
    requires
        forall|i: int|
            0 <= i < options.len() ==> mounts::flag_options().contains(#[trigger] options[i]),
    ensures
        mounts::data_of(options) is None,
    decreases options.len(),
{
    if options.len() > 0 {
        let before = options.drop_last();
        assert forall|i: int| 0 <= i < before.len() implies mounts::flag_options().contains(
            #[trigger] before[i],
        ) by {
            assert(before[i] == options[i]);
        }
        law_flags_are_no_data(before);
        let last = options[options.len() - 1];
        assert(mounts::flag_options().contains(last));
        text::lemma_place(mounts::flag_options(), last);
    }
}

/// The paths of a list are found one by one.
proof fn lemma_targets(paths: Seq<Seq<char>>, rootfs: Seq<char>)
    ensures
        mounts::targets_in(paths, rootfs).1 is None <==> (forall|i: int|
            0 <= i < paths.len() ==> mounts::destination_of(#[trigger] paths[i]) is Ok),
        mounts::targets_in(paths, rootfs).1 is None ==> mounts::targets_in(paths, rootfs).0.len()
            == paths.len() && forall|i: int|
            0 <= i < paths.len() ==> (mounts::destination_of(#[trigger] paths[i]) matches Ok(p)
                && mounts::targets_in(paths, rootfs).0[i] == util::path_join(rootfs, p)),
    decreases paths.len(),
{
    if paths.len() > 0 {
        let before = paths.drop_last();
        lemma_targets(before, rootfs);
        assert(forall|i: int| 0 <= i < before.len() ==> before[i] == paths[i]);
        let last = paths[paths.len() - 1];
        if mounts::targets_in(paths, rootfs).1 is Some {
            if mounts::destination_of(last) is Ok {
                let i = choose|i: int|
                    0 <= i < before.len() && !(mounts::destination_of(#[trigger] before[i]) is Ok);
                assert(!(mounts::destination_of(paths[i]) is Ok));
            }
        } else {
            assert forall|i: int| 0 <= i < paths.len() implies (mounts::destination_of(
                #[trigger] paths[i],
            ) matches Ok(p) && mounts::targets_in(paths, rootfs).0[i] == util::path_join(
                rootfs,
                p,
            )) by {
                if i < before.len() {
                    assert(before[i] == paths[i]);
                }
            }
        }
    }
}

/// Where there is no error, all paths that a configuration lists under a key are found below
/// the root file system, in their order.
pub proof fn law_listed_paths_are_all_found(
    j: Js,
    key: Seq<char>,
    rootfs: Seq<char>,
    items: Seq<Js>,
    paths: Seq<Seq<char>>,
)
    requires
        at(j, seq!["linux"@, key]) == Some(Js::Arr(items)),
        items.len() == paths.len(),
        forall|i: int| 0 <= i < items.len() ==> #[trigger] items[i] == Js::Str(paths[i]),
    ensures
        mounts::listed_targets(j, key, rootfs).1 is None <==> (forall|i: int|
            0 <= i < paths.len() ==> mounts::destination_of(#[trigger] paths[i]) is Ok),
        mounts::listed_targets(j, key, rootfs).1 is None ==> mounts::listed_targets(
            j,
            key,
            rootfs,
        ).0.len() == paths.len() && forall|i: int|
            0 <= i < paths.len() ==> (mounts::destination_of(#[trigger] paths[i]) matches Ok(p)
                && mounts::listed_targets(j, key, rootfs).0[i] == util::path_join(rootfs, p)),
{
    lemma_at(j, "linux"@, key, ""@, ""@);
    json::law_strings_are_kept(items);
    assert forall|i: int| 0 <= i < items.len() implies json::strings_in(items)[i] == paths[i] by {
        assert(items[i] == Js::Str(paths[i]));
    }
    assert(json::strings_in(items) =~= paths);
    lemma_targets(paths, rootfs);
}

/// A path that is hidden is covered by something empty, and in the end nothing can be written
/// there; a path that is made read-only shows the same files as before. Nothing else is
/// touched.
pub proof fn law_covered_paths(target: Seq<char>, is_dir: bool)
    requires
        target != "/dev/null"@,
        target != "tmpfs"@,
    ensures
        ({
            let hidden = mounts::masking(target, is_dir);
            let frozen = mounts::freezing(target);
            &&& hidden.len() > 0 && frozen.len() > 0
            &&& forall|i: int|
                0 <= i < hidden.len() ==> (#[trigger] hidden[i]).target == target
                    && hidden[i].source != target
            &&& forall|i: int|
                0 <= i < frozen.len() ==> (#[trigger] frozen[i]).target == target
                    && frozen[i].source == target && frozen[i].flags & MS_BIND != 0
                    && frozen[i].flags & MS_REC != 0
            &&& hidden.last().flags & MS_RDONLY != 0
            &&& frozen.last().flags & MS_RDONLY != 0
            &&& frozen.last().flags & MS_REMOUNT != 0
            &&& frozen[0].flags & MS_REMOUNT == 0
            &&& is_dir ==> hidden[0].fs_type == Some("tmpfs"@) && hidden[0].flags & MS_BIND == 0
            &&& !is_dir ==> hidden[0].source == "/dev/null"@ && hidden[0].flags & MS_BIND != 0
                && hidden[0].flags & MS_REMOUNT == 0
        }),
{
    assert((MS_BIND | MS_REMOUNT | MS_RDONLY) & MS_RDONLY != 0 && (MS_BIND | MS_REMOUNT | MS_RDONLY
        | MS_REC) & MS_RDONLY != 0 && (MS_BIND | MS_REMOUNT | MS_RDONLY | MS_REC) & MS_BIND != 0
        && (MS_BIND | MS_REMOUNT | MS_RDONLY | MS_REC) & MS_REC != 0 && (MS_BIND | MS_REC) & MS_BIND
        != 0 && (MS_BIND | MS_REC) & MS_REC != 0 && (MS_RDONLY | MS_NOSUID | MS_NODEV | MS_NOEXEC)
        & MS_RDONLY != 0 && (MS_RDONLY | MS_NOSUID | MS_NODEV | MS_NOEXEC) & MS_BIND == 0 && MS_BIND
        & MS_BIND != 0 && (MS_BIND | MS_REMOUNT | MS_RDONLY | MS_REC) & MS_REMOUNT != 0 && (MS_BIND
        | MS_REC) & MS_REMOUNT == 0 && MS_BIND & MS_REMOUNT == 0) by (bit_vector);
}

// ---------------------------------------------------------------------------
// Devices
// ---------------------------------------------------------------------------

/// A device is as described: its owner, its permissions, and its numbers. Pipes have no
/// numbers.
pub proof fn law_devices_are_as_described(
    dev: Js,
    path: Seq<char>,
    guest: Option<Result<GuestDevice, String>>,
    n: DeviceNode,
)
    requires
        devices::device_of(dev, path, guest) == Some(Ok::<DeviceNode, Seq<char>>(n)),
    ensures
        at(dev, seq!["uid"@]) matches Some(Js::Int(u)) ==> (0 <= u <= u32::MAX ==> n.uid == u),
        at(dev, seq!["gid"@]) matches Some(Js::Int(g)) ==> (0 <= g <= u32::MAX ==> n.gid == g),
        at(dev, seq!["uid"@]) is None ==> n.uid == 0,
        at(dev, seq!["gid"@]) is None ==> n.gid == 0,
        at(dev, seq!["fileMode"@]) matches Some(Js::Int(m)) ==> (0 <= m <= 0o7777 ==> n.mode
            & 0o7777 == m),
        at(dev, seq!["fileMode"@]) is None ==> n.mode & 0o7777 == 0o666,
        at(dev, seq!["type"@]) == Some(Js::Str("p"@)) <==> n.numbers is None,
        n.numbers is None ==> n.mode & S_IFIFO != 0 && (at(dev, seq!["fileMode"@]) is None ==> n.mode
            & S_IFCHR == 0),
        n.numbers is Some ==> n.mode & S_IFCHR != 0 && (at(dev, seq!["fileMode"@]) is None ==> n.mode
            & S_IFIFO == 0),
        n.numbers matches Some((major, minor)) ==> (at(dev, seq!["major"@]) matches Some(
            Js::Int(a),
        ) ==> (0 <= a <= i64::MAX ==> major == a)) && (at(dev, seq!["minor"@]) matches Some(
            Js::Int(b),
        ) ==> (0 <= b <= i64::MAX ==> minor == b)),
{
    lemma_at(dev, "uid"@, ""@, ""@, ""@);
    lemma_at(dev, "gid"@, ""@, ""@, ""@);
    lemma_at(dev, "fileMode"@, ""@, ""@, ""@);
    lemma_at(dev, "type"@, ""@, ""@, ""@);
    lemma_at(dev, "major"@, ""@, ""@, ""@);
    lemma_at(dev, "minor"@, ""@, ""@, ""@);
    reveal_strlit("b");
    reveal_strlit("c");
    reveal_strlit("u");
    reveal_strlit("p");
    assert("p"@[0] != "c"@[0] && "p"@[0] != "u"@[0] && "p"@[0] != "b"@[0]);
    let m = devices::small_number(dev, "fileMode"@, 0o666);
    assert(m <= 0o7777 ==> (S_IFCHR | m) & 0o7777 == m && (S_IFIFO | m) & 0o7777 == m) by (bit_vector);
    assert((S_IFCHR | m) & S_IFCHR != 0 && (S_IFIFO | m) & S_IFIFO != 0) by (bit_vector);
    assert((S_IFIFO | 0o666u32) & S_IFCHR == 0 && (S_IFCHR | 0o666u32) & S_IFIFO == 0) by (bit_vector);
}

/// A device that the guest can have is created: a pipe always, a character device where the
/// guest has one with the same numbers.
pub proof fn law_possible_devices_are_created(dev: Js, path: Seq<char>, g: GuestDevice)
    requires
        at(dev, seq!["type"@]) matches Some(Js::Str(kind)) && (kind == "p"@ || ((kind == "c"@ || kind
            == "u"@) && g.is_char && at(dev, seq!["major"@]) == Some(Js::Int(g.major as int)) && at(
            dev,
            seq!["minor"@],
        ) == Some(Js::Int(g.minor as int)) && g.major <= i64::MAX && g.minor <= i64::MAX)),
    ensures
        devices::device_of(dev, path, Some(Ok(g))) matches Some(Ok(_)),
{
    lemma_at(dev, "type"@, ""@, ""@, ""@);
    lemma_at(dev, "major"@, ""@, ""@, ""@);
    lemma_at(dev, "minor"@, ""@, ""@, ""@);
    reveal_strlit("b");
    reveal_strlit("c");
    reveal_strlit("u");
    reveal_strlit("p");
    assert("p"@[0] != "c"@[0] && "p"@[0] != "u"@[0] && "p"@[0] != "b"@[0]);
    assert("b"@[0] != "c"@[0] && "b"@[0] != "u"@[0]);
}

/// Devices are refused just where one of them is.
pub proof fn law_one_wrong_device_is_enough(items: Seq<Js>, rootfs: Seq<char>)
    ensures
        devices::devices_fault(items, rootfs) is None <==> (forall|i: int|
            0 <= i < items.len() ==> devices::device_fault(#[trigger] items[i], rootfs) is None),
    decreases items.len(),
{
    if items.len() > 0 {
        let before = items.drop_last();
        law_one_wrong_device_is_enough(before, rootfs);
        assert(forall|i: int| 0 <= i < before.len() ==> before[i] == items[i]);
        let last = items[items.len() - 1];
        if devices::devices_fault(items, rootfs) is Some {
            if devices::device_fault(last, rootfs) is None {
                let i = choose|i: int|
                    0 <= i < before.len() && !(devices::device_fault(#[trigger] before[i], rootfs)
                        is None);
                assert(!(devices::device_fault(items[i], rootfs) is None));
            }
        }
    }
}

// ---------------------------------------------------------------------------
// Kernel parameters
// ---------------------------------------------------------------------------

/// A kernel parameter that can be set: its value is a text, and its key stays below the
/// parameters.
pub open spec fn can_be_set(key: Seq<char>, value: Js) -> bool {
    value is Str && !key.contains('/') && !text::holds(key, seq!['.', '.'])
}

/// The parameter is set: the file for its key holds its value, and the file's path is the
/// key with slashes for the dots.
pub open spec fn sets(p: Parameter, key: Seq<char>, value: Js) -> bool {
    p.key == key && value == Js::Str(p.value) && p.path.len() == key.len() + "/proc/sys/"@.len()
        && text::has_prefix(p.path, "/proc/sys/"@) && forall|i: int|
        0 <= i < key.len() ==> #[trigger] p.path[i + "/proc/sys/"@.len()] == if key[i] == '.' {
            '/'
        } else {
            key[i]
        }
}

/// Two dots side by side are a part of a text.
proof fn lemma_two_dots(key: Seq<char>)
    ensures
        devices::has_two_dots(key) == text::holds(key, seq!['.', '.']),
{
    let dots = seq!['.', '.'];
    if devices::has_two_dots(key) {
        let i = choose|i: int|
            0 <= i < key.len() - 1 && #[trigger] key[i] == '.' && key[i + 1] == '.';
        assert(key =~= key.take(i) + dots + key.skip(i + 2));
        text::lemma_holds(key.take(i), dots, key.skip(i + 2));
    }
    if text::holds(key, dots) {
        lemma_part_chars(key, dots);
    }
}

/// Dots that are a part of a text stand side by side in it.
proof fn lemma_part_chars(key: Seq<char>, dots: Seq<char>)
    requires
        dots == seq!['.', '.'],
        text::holds(key, dots),
    ensures
        devices::has_two_dots(key),
{
    let i = choose|i: int| 0 <= i <= key.len() - dots.len() && #[trigger] key.subrange(
        i,
        i + dots.len(),
    ) == dots;
    let part = key.subrange(i, i + 2);
    assert(part[0] == key[i] && part[1] == key[i + 1]);
    assert(key[i] == '.' && key[i + 1] == '.');
}

/// One parameter.
proof fn lemma_sysctl(key: Seq<char>, value: Js)
    requires
        key.len() > 0,
    ensures
        devices::sysctl_of(key, value) is Ok <==> can_be_set(key, value),
        devices::sysctl_of(key, value) matches Ok(p) ==> (key[0] != '.' ==> sets(p, key, value)),
{
    lemma_two_dots(key);
    reveal_strlit("/proc/sys");
    reveal_strlit("/proc/sys/");
    reveal_strlit("/");
    assert("/proc/sys"@.len() == 9);
    assert("/proc/sys/"@.len() == 10);
    assert("/proc/sys/"@ =~= "/proc/sys"@ + "/"@);
    if devices::sysctl_of(key, value) is Ok && key[0] != '.' {
        let name = text::replaced(key, '.', '/');
        let path = util::path_join("/proc/sys"@, name);
        assert(name.len() == key.len());
        assert(name[0] == key[0]);
        assert(!key.contains('/') ==> key[0] != '/');
        assert("/proc/sys"@.last() == 's');
        assert(path =~= "/proc/sys/"@ + name);
        assert(path.take(10) =~= "/proc/sys/"@);
        assert forall|i: int| 0 <= i < key.len() implies #[trigger] path[i + "/proc/sys/"@.len()]
            == if key[i] == '.' {
            '/'
        } else {
            key[i]
        } by {
            assert(path[i + 10] == name[i]);
        }
    }
}

/// The parameters with these keys are set one by one.
proof fn lemma_sysctls(keys: Seq<Seq<char>>, m: Map<Seq<char>, Js>)
    requires
        forall|i: int| 0 <= i < keys.len() ==> (#[trigger] keys[i]).len() > 0 && keys[i][0] != '.',
    ensures
        ({
            let (list, fault) = devices::sysctls_in(keys, m);
            &&& fault is None <==> (forall|i: int|
                0 <= i < keys.len() ==> can_be_set(#[trigger] keys[i], m[keys[i]]))
            &&& fault is None ==> list.len() == keys.len() && forall|i: int|
                0 <= i < keys.len() ==> sets(list[i], #[trigger] keys[i], m[keys[i]])
        }),
    decreases keys.len(),
{
    if keys.len() > 0 {
        let before = keys.drop_last();
        assert forall|i: int| 0 <= i < before.len() implies (#[trigger] before[i]).len() > 0
            && before[i][0] != '.' by {
            assert(before[i] == keys[i]);
        }
        lemma_sysctls(before, m);
        assert(forall|i: int| 0 <= i < before.len() ==> before[i] == keys[i]);
        let last = keys[keys.len() - 1];
        lemma_sysctl(last, m[last]);
        let (list, fault) = devices::sysctls_in(keys, m);
        if fault is Some {
            if can_be_set(last, m[last]) {
                let i = choose|i: int|
                    0 <= i < before.len() && !can_be_set(#[trigger] before[i], m[before[i]]);
                assert(!can_be_set(keys[i], m[keys[i]]));
            }
        } else {
            assert forall|i: int| 0 <= i < keys.len() implies sets(
                list[i],
                #[trigger] keys[i],
                m[keys[i]],
            ) by {
                if i < before.len() {
                    assert(before[i] == keys[i]);
                }
            }
        }
    }
}

/// Where there is no error, all kernel parameters of a configuration are set, each to its own
/// value and once; there is an error just where one of them cannot be set.
pub proof fn law_parameters_are_all_set(j: Js, members: Seq<(String, json::Json)>)
    requires
        at(j, seq!["linux"@, "sysctl"@]) == Some(Js::Obj(json::members_view(members))),
        forall|i: int|
            0 <= i < members.len() ==> (#[trigger] members[i]).0@.len() > 0 && members[i].0@[0]
                != '.',
    ensures
        ({
            let m = json::members_view(members);
            let (list, fault) = devices::sysctls_of(j);
            &&& fault is None <==> (forall|k: Seq<char>| #[trigger]
                m.contains_key(k) ==> can_be_set(k, m[k]))
            &&& fault is None ==> (forall|k: Seq<char>| #[trigger]
                m.contains_key(k) ==> exists|i: int|
                    0 <= i < list.len() && sets(#[trigger] list[i], k, m[k]))
            &&& fault is None ==> (forall|i: int|
                0 <= i < list.len() ==> m.contains_key((#[trigger] list[i]).key))
        }),
{
    lemma_at(j, "linux"@, "sysctl"@, ""@, ""@);
    let m = json::members_view(members);
    let f = |e: (String, json::Json)| e.0@;
    let names = members.map_values(f);
    lemma_member_keys(members);
    text::law_texts_have_an_order(names);
    let keys = text::ordered(m.dom());
    assert forall|k: Seq<char>| m.contains_key(k) == keys.contains(k) by {
        assert(keys.to_set().contains(k) == m.dom().contains(k));
    }
    assert forall|i: int| 0 <= i < keys.len() implies (#[trigger] keys[i]).len() > 0 && keys[i][0]
        != '.' by {
        assert(keys.to_set().contains(keys[i]));
        assert(names.to_set().contains(keys[i]));
        let n = choose|n: int| 0 <= n < names.len() && names[n] == keys[i];
        assert(members[n].0@ == keys[i]);
    }
    lemma_sysctls(keys, m);
    let (list, fault) = devices::sysctls_of(j);
    assert(forall|i: int| 0 <= i < keys.len() ==> keys.contains(#[trigger] keys[i]));
    if fault is None {
        assert forall|k: Seq<char>| #[trigger] m.contains_key(k) implies (can_be_set(k, m[k])
            && exists|i: int| 0 <= i < list.len() && sets(#[trigger] list[i], k, m[k])) by {
            let i = choose|i: int| 0 <= i < keys.len() && keys[i] == k;
            assert(sets(list[i], keys[i], m[keys[i]]));
            assert(can_be_set(keys[i], m[keys[i]]));
        }
        assert forall|i: int| 0 <= i < list.len() implies m.contains_key((#[trigger] list[i]).key) by {
            assert(sets(list[i], keys[i], m[keys[i]]));
            assert(keys.contains(keys[i]));
        }
    } else {
        let i = choose|i: int| 0 <= i < keys.len() && !can_be_set(#[trigger] keys[i], m[keys[i]]);
        assert(m.contains_key(keys[i]));
    }
}

/// The keys of an object are those of all its members.
proof fn lemma_member_keys(members: Seq<(String, json::Json)>)
    ensures
        json::members_view(members).dom() == members.map_values(
            |e: (String, json::Json)| e.0@,
        ).to_set(),
    decreases members.len(),
{
    let f = |e: (String, json::Json)| e.0@;
    let names = members.map_values(f);
    if members.len() == 0 {
        assert(json::members_view(members).dom() =~= names.to_set());
    } else {
        let rest = members.drop_last();
        lemma_member_keys(rest);
        assert(names =~= rest.map_values(f).push(members.last().0@));
        assert forall|t: Seq<char>| json::members_view(members).dom().contains(t)
            == names.to_set().contains(t) by {
            text::lemma_push_set(rest.map_values(f), members.last().0@, t);
        }
        assert(json::members_view(members).dom() =~= names.to_set());
    }
}

// ---------------------------------------------------------------------------
// System calls
// ---------------------------------------------------------------------------

/// The system's own number for an action; one that makes a call fail carries the number of
/// the error, or 1.
pub open spec fn acts(code: u32, name: Seq<char>, errno: Option<int>) -> bool {
    &&& name == "SCMP_ACT_ALLOW"@ ==> code == 0x7fff_0000
    &&& name == "SCMP_ACT_LOG"@ ==> code == 0x7ffc_0000
    &&& name == "SCMP_ACT_TRAP"@ ==> code == 0x0003_0000
    &&& name == "SCMP_ACT_KILL_PROCESS"@ ==> code == 0x8000_0000
    &&& name == "SCMP_ACT_KILL"@ || name == "SCMP_ACT_KILL_THREAD"@ ==> code == 0
    &&& name == "SCMP_ACT_ERRNO"@ ==> (errno is None ==> code == 0x0005_0001) && (
    errno matches Some(n) ==> (0 <= n < 0x1_0000 ==> code == 0x0005_0000 + n))
}

/// The number of an error that a value states.
pub open spec fn stated_errno(j: Js, key: Seq<char>) -> Option<int> {
    match at(j, seq![key]) {
        Some(Js::Int(n)) => if 0 <= n <= u64::MAX {
            Some(n)
        } else {
            None
        },
        _ => None,
    }
}

/// Actions are known by their names.
proof fn lemma_action(name: Seq<char>, j: Js, key: Seq<char>)
    ensures
        seccomp::action_of(name, seccomp::errno_at(j, key)) is Ok <==> (name == "SCMP_ACT_ALLOW"@
            || name == "SCMP_ACT_LOG"@ || name == "SCMP_ACT_TRAP"@ || name
            == "SCMP_ACT_KILL_PROCESS"@ || name == "SCMP_ACT_KILL"@ || name
            == "SCMP_ACT_KILL_THREAD"@ || name == "SCMP_ACT_ERRNO"@),
        seccomp::action_of(name, seccomp::errno_at(j, key)) matches Ok(code) ==> acts(
            code,
            name,
            stated_errno(j, key),
        ),
{
    lemma_at(j, key, ""@, ""@, ""@);
    reveal_strlit("SCMP_ACT_ALLOW");
    reveal_strlit("SCMP_ACT_LOG");
    reveal_strlit("SCMP_ACT_TRAP");
    reveal_strlit("SCMP_ACT_KILL_PROCESS");
    reveal_strlit("SCMP_ACT_KILL");
    reveal_strlit("SCMP_ACT_KILL_THREAD");
    reveal_strlit("SCMP_ACT_ERRNO");
    assert("SCMP_ACT_ALLOW"@.len() == 14 && "SCMP_ACT_ALLOW"@[9] == 'A');
    assert("SCMP_ACT_LOG"@.len() == 12);
    assert("SCMP_ACT_TRAP"@.len() == 13 && "SCMP_ACT_TRAP"@[9] == 'T');
    assert("SCMP_ACT_KILL_PROCESS"@.len() == 21);
    assert("SCMP_ACT_KILL"@.len() == 13 && "SCMP_ACT_KILL"@[9] == 'K');
    assert("SCMP_ACT_KILL_THREAD"@.len() == 20);
    assert("SCMP_ACT_ERRNO"@.len() == 14 && "SCMP_ACT_ERRNO"@[9] == 'E');
    let n = match seccomp::errno_at(j, key) {
        Some(n) => n,
        None => 1u32,
    };
    assert(n < 0x1_0000 ==> 0x0005_0000u32 | (n & 0xffff) == 0x0005_0000 + n) by (bit_vector);
}

/// A rule is read whole: all names that it lists, with what is done for them. It asks for
/// nothing about arguments.
pub open spec fn reads_rule(rule: seccomp::Rule, item: Js) -> bool {
    &&& at(item, seq!["action"@]) matches Some(Js::Str(name)) && acts(
        rule.action,
        name,
        stated_errno(item, "errnoRet"@),
    )
    &&& at(item, seq!["names"@]) matches Some(Js::Arr(names)) && names.len() == rule.names.len()
        && forall|i: int| 0 <= i < names.len() ==> #[trigger] names[i] == Js::Str(rule.names[i])
    &&& at(item, seq!["args"@]) matches Some(Js::Arr(args)) ==> args.len() == 0
}

/// A rule that is accepted is read whole.
proof fn lemma_rule(item: Js)
    requires
        seccomp::rule_of(item) is Ok,
    ensures
        reads_rule(seccomp::rule_of(item)->Ok_0, item),
{
    lemma_at(item, "action"@, ""@, ""@, ""@);
    lemma_at(item, "names"@, ""@, ""@, ""@);
    lemma_at(item, "args"@, ""@, ""@, ""@);
    lemma_action(item.str_at("action"@)->0, item, "errnoRet"@);
    json::law_texts_are_all_items(item.array_at("names"@)->0);
}

/// Rules are read one by one.
proof fn lemma_rules(items: Seq<Js>)
    ensures
        seccomp::rules_in(items) is Ok <==> (forall|i: int|
            0 <= i < items.len() ==> seccomp::rule_of(#[trigger] items[i]) is Ok),
        seccomp::rules_in(items) matches Ok(rules) ==> rules.len() == items.len() && forall|i: int|
            0 <= i < items.len() ==> reads_rule(rules[i], #[trigger] items[i]),
    decreases items.len(),
{
    if items.len() > 0 {
        let before = items.drop_last();
        lemma_rules(before);
        assert(forall|i: int| 0 <= i < before.len() ==> before[i] == items[i]);
        let last = items[items.len() - 1];
        if seccomp::rules_in(items) is Err {
            if seccomp::rule_of(last) is Ok {
                let i = choose|i: int|
                    0 <= i < before.len() && !(seccomp::rule_of(#[trigger] before[i]) is Ok);
                assert(!(seccomp::rule_of(items[i]) is Ok));
            }
        } else {
            lemma_rule(last);
            let rules = seccomp::rules_in(items)->Ok_0;
            assert forall|i: int| 0 <= i < items.len() implies reads_rule(
                rules[i],
                #[trigger] items[i],
            ) by {
                if i < before.len() {
                    assert(before[i] == items[i]);
                }
            }
        }
    }
}

/// The filter of a container is read whole: what it does by default and all of its rules, in
/// their order. Without a word on it there is none.
pub proof fn law_filters_are_read_whole(j: Js)
    requires
        seccomp::profile_of(j) is Ok,
    ensures
        seccomp::profile_of(j)->Ok_0 is None <==> at(j, seq!["linux"@, "seccomp"@]) is None,
        at(j, seq!["linux"@, "seccomp"@]) matches Some(s) ==> {
            let p = seccomp::profile_of(j)->Ok_0->0;
            &&& at(s, seq!["defaultAction"@]) matches Some(Js::Str(name)) && acts(
                p.default_action,
                name,
                stated_errno(s, "defaultErrnoRet"@),
            )
            &&& at(s, seq!["syscalls"@]) matches Some(Js::Arr(items)) ==> p.rules.len() == items.len()
                && forall|i: int|
                0 <= i < items.len() ==> reads_rule(p.rules[i], #[trigger] items[i])
            &&& !(at(s, seq!["syscalls"@]) matches Some(Js::Arr(_))) ==> p.rules.len() == 0
        },
{
    lemma_at(j, "linux"@, "seccomp"@, ""@, ""@);
    if let Some(s) = at(j, seq!["linux"@, "seccomp"@]) {
        lemma_at(s, "defaultAction"@, ""@, ""@, ""@);
        lemma_at(s, "syscalls"@, ""@, ""@, ""@);
        lemma_action(s.str_at("defaultAction"@)->0, s, "defaultErrnoRet"@);
        if let Some(items) = s.array_at("syscalls"@) {
            lemma_rules(items);
        }
    }
}

/// A filter without rules on arguments that uses known actions is accepted.
pub proof fn law_plain_filters_are_accepted(j: Js, s: Js, items: Seq<Js>)
    requires
        at(j, seq!["linux"@, "seccomp"@]) == Some(s),
        at(s, seq!["architectures"@]) is None,
        at(s, seq!["defaultAction"@]) == Some(Js::Str("SCMP_ACT_ERRNO"@)) || at(
            s,
            seq!["defaultAction"@],
        ) == Some(Js::Str("SCMP_ACT_ALLOW"@)),
        at(s, seq!["syscalls"@]) == Some(Js::Arr(items)),
        forall|i: int|
            0 <= i < items.len() ==> at(#[trigger] items[i], seq!["args"@]) is None && (at(
                items[i],
                seq!["action"@],
            ) == Some(Js::Str("SCMP_ACT_ERRNO"@)) || at(items[i], seq!["action"@]) == Some(
                Js::Str("SCMP_ACT_ALLOW"@),
            )) && (at(items[i], seq!["names"@]) matches Some(Js::Arr(names)) && forall|k: int|
                0 <= k < names.len() ==> (#[trigger] names[k]) is Str),
    ensures
        seccomp::profile_of(j) is Ok,
{
    lemma_at(j, "linux"@, "seccomp"@, ""@, ""@);
    lemma_at(s, "architectures"@, ""@, ""@, ""@);
    lemma_at(s, "defaultAction"@, ""@, ""@, ""@);
    lemma_at(s, "syscalls"@, ""@, ""@, ""@);
    lemma_action(s.str_at("defaultAction"@)->0, s, "defaultErrnoRet"@);
    assert forall|i: int| 0 <= i < items.len() implies seccomp::rule_of(#[trigger] items[i]) is Ok by {
        lemma_at(items[i], "args"@, ""@, ""@, ""@);
        lemma_at(items[i], "action"@, ""@, ""@, ""@);
        lemma_at(items[i], "names"@, ""@, ""@, ""@);
        lemma_action(items[i].str_at("action"@)->0, items[i], "errnoRet"@);
        json::law_texts_are_all_items(items[i].array_at("names"@)->0);
    }
    lemma_rules(items);
}

// ---------------------------------------------------------------------------
// The configuration as a whole
// ---------------------------------------------------------------------------

/// A configuration that is accepted is read whole: its process in the root file system that
/// it names, with the filter that it states, and all of its mounts.
pub proof fn law_configurations_are_read_whole(document: Seq<char>)
    requires
        config::configured(document) is Ok,
    ensures
        ({
            let (p, list) = config::configured(document)->Ok_0;
            json::json_read(document) matches Ok(j) && (at(j, seq!["root"@, "path"@]) matches Some(
                Js::Str(rootfs),
            ) && {
                &&& at(j, seq!["process"@]) matches Some(described) && (process::process_of(
                    described,
                    rootfs,
                ) matches Ok(q) && p == (process::Process { seccomp: p.seccomp, ..q }))
                &&& seccomp::profile_of(j) == Ok::<Option<seccomp::Profile>, Seq<char>>(p.seccomp)
                &&& at(j, seq!["mounts"@]) matches Some(Js::Arr(items)) ==> list.len() == items.len()
                    && forall|i: int|
                    0 <= i < items.len() ==> mounts::mount_of(#[trigger] items[i], rootfs) == Ok::<
                        Mount,
                        Seq<char>,
                    >(list[i])
                &&& at(j, seq!["mounts"@]) is None ==> list.len() == 0
                &&& at(j, seq!["linux"@, "devices"@]) matches Some(Js::Arr(items)) ==> forall|i: int|
                    0 <= i < items.len() ==> devices::device_fault(#[trigger] items[i], rootfs)
                        is None
                &&& devices::sysctls_of(j).1 is None
                &&& mounts::listed_targets(j, "maskedPaths"@, rootfs).1 is None
                &&& mounts::listed_targets(j, "readonlyPaths"@, rootfs).1 is None
            })
        }),
{
    let j = json::json_read(document)->Ok_0;
    lemma_at(j, "root"@, "path"@, ""@, ""@);
    lemma_at(j, "process"@, ""@, ""@, ""@);
    lemma_at(j, "mounts"@, ""@, ""@, ""@);
    lemma_at(j, "linux"@, "devices"@, ""@, ""@);
    let rootfs = config::rootfs_of(j)->0;
    if let Some(items) = j.array_at("mounts"@) {
        lemma_mounts(items, rootfs);
    }
    law_one_wrong_device_is_enough(devices::devices_of(j), rootfs);
}

/// A configuration with a root file system and a process, and nothing else, is accepted where
/// its process is.
pub proof fn law_plain_configurations_are_accepted(
    document: Seq<char>,
    j: Js,
    rootfs: Seq<char>,
    described: Js,
)
    requires
        json::json_read(document) == Ok::<Js, Seq<char>>(j),
        at(j, seq!["root"@, "path"@]) == Some(Js::Str(rootfs)),
        at(j, seq!["process"@]) == Some(described),
        process::process_of(described, rootfs) is Ok,
        at(j, seq!["mounts"@]) is None,
        at(j, seq!["linux"@]) is None,
    ensures
        config::configured(document) is Ok,
        config::configured(document)->Ok_0.0.seccomp is None,
{
    lemma_at(j, "root"@, "path"@, ""@, ""@);
    lemma_at(j, "process"@, ""@, ""@, ""@);
    lemma_at(j, "mounts"@, ""@, ""@, ""@);
    lemma_at(j, "linux"@, ""@, ""@, ""@);
    assert(j.get2("linux"@, "devices"@) is None);
    assert(j.get2("linux"@, "sysctl"@) is None);
    assert(j.get2("linux"@, "seccomp"@) is None);
}

/// A mount of the old kind of control group is tried again as one of the new kind, in the
/// same place; no other mount is.
pub proof fn law_second_attempts(m: Mount)
    ensures
        mounts::second_attempt(m) is Some <==> m.kind == "cgroup"@,
        mounts::second_attempt(m) matches Some(c) ==> c.fs_type == Some("cgroup2"@) && c.target
            == m.call.target && c.flags == m.call.flags && c.data == m.call.data,
{
}

/// The usual devices are those of the system, by its numbers.
pub proof fn law_usual_devices()
    ensures
        mounts::minimal_table().len() == 6,
        mounts::minimal_table().contains(("null"@, 1u32, 3u32)),
        mounts::minimal_table().contains(("zero"@, 1u32, 5u32)),
        mounts::minimal_table().contains(("full"@, 1u32, 7u32)),
        mounts::minimal_table().contains(("random"@, 1u32, 8u32)),
        mounts::minimal_table().contains(("urandom"@, 1u32, 9u32)),
        mounts::minimal_table().contains(("tty"@, 5u32, 0u32)),
{
    let t = mounts::minimal_table();
    assert(t[0] == ("null"@, 1u32, 3u32));
    assert(t[1] == ("zero"@, 1u32, 5u32));
    assert(t[2] == ("full"@, 1u32, 7u32));
    assert(t[3] == ("random"@, 1u32, 8u32));
    assert(t[4] == ("urandom"@, 1u32, 9u32));
    assert(t[5] == ("tty"@, 5u32, 0u32));
}

/// Planned mounts and parameters are read one by one, each with all that it says.
pub proof fn law_plans_are_read_one_by_one(
    m: Seq<mounts::MountPlan>,
    c: Seq<mounts::MountCall>,
    p: Seq<devices::Sysctl>,
    i: int,
)
    ensures
        mounts::plans_view(m).len() == m.len(),
        0 <= i < m.len() ==> mounts::plans_view(m)[i].kind == m[i].kind@ && mounts::plans_view(
            m,
        )[i].call.target == m[i].call.target@ && mounts::plans_view(m)[i].call.source
            == m[i].call.source@ && mounts::plans_view(m)[i].call.flags == m[i].call.flags
            && mounts::plans_view(m)[i].is_bind == m[i].is_bind && mounts::plans_view(m)[i].read_only
            == m[i].read_only && mounts::plans_view(m)[i].with_devices == m[i].with_devices,
        mounts::calls_view(c).len() == c.len(),
        0 <= i < c.len() ==> mounts::calls_view(c)[i].target == c[i].target@ && mounts::calls_view(
            c,
        )[i].source == c[i].source@ && mounts::calls_view(c)[i].flags == c[i].flags,
        devices::sysctls_view(p).len() == p.len(),
        0 <= i < p.len() ==> devices::sysctls_view(p)[i].key == p[i].key@ && devices::sysctls_view(
            p,
        )[i].path == p[i].path@ && devices::sysctls_view(p)[i].value == p[i].value@,
{
}

/// The list names no architecture but the one that is filtered.
proof fn lemma_foreign(items: Seq<Js>)
    ensures
        seccomp::foreign(json::strings_in(items)) is None <==> (forall|i: int|
            0 <= i < items.len() ==> (#[trigger] items[i] matches Js::Str(a) ==> a
                == "SCMP_ARCH_X86_64"@)),
    decreases items.len(),
{
    if items.len() > 0 {
        let before = items.drop_last();
        let last = items[items.len() - 1];
        lemma_foreign(before);
        assert(forall|i: int| 0 <= i < before.len() ==> before[i] == items[i]);
        if let Js::Str(a) = last {
            let texts = json::strings_in(items);
            assert(texts.drop_last() =~= json::strings_in(before));
            assert(texts.last() == a);
        }
        if !(seccomp::foreign(json::strings_in(before)) is None) {
            let i = choose|i: int|
                0 <= i < before.len() && !(#[trigger] before[i] matches Js::Str(a) ==> a
                    == "SCMP_ARCH_X86_64"@);
            assert(!(items[i] matches Js::Str(a) ==> a == "SCMP_ARCH_X86_64"@));
        }
    }
}

/// A filter for other architectures is refused, and one for this alone is not refused for
/// that.
pub proof fn law_filters_are_for_this_architecture(j: Js, s: Js, items: Seq<Js>)
    requires
        at(j, seq!["linux"@, "seccomp"@]) == Some(s),
        at(s, seq!["architectures"@]) == Some(Js::Arr(items)),
    ensures
        seccomp::profile_of(j) is Ok ==> (forall|i: int|
            0 <= i < items.len() ==> (#[trigger] items[i] matches Js::Str(a) ==> a
                == "SCMP_ARCH_X86_64"@)),
        (forall|i: int|
            0 <= i < items.len() ==> (#[trigger] items[i] matches Js::Str(a) ==> a
                == "SCMP_ARCH_X86_64"@)) && at(s, seq!["defaultAction"@]) == Some(
            Js::Str("SCMP_ACT_ALLOW"@),
        ) && at(s, seq!["syscalls"@]) is None ==> seccomp::profile_of(j) is Ok,
{
    lemma_at(j, "linux"@, "seccomp"@, ""@, ""@);
    lemma_at(s, "architectures"@, ""@, ""@, ""@);
    lemma_at(s, "defaultAction"@, ""@, ""@, ""@);
    lemma_at(s, "syscalls"@, ""@, ""@, ""@);
    lemma_foreign(items);
    lemma_action_known();
}

/// To allow is an action that is known.
proof fn lemma_action_known()
    ensures
        forall|errno: Option<u32>| #[trigger]
            seccomp::action_of("SCMP_ACT_ALLOW"@, errno) is Ok,
{
}

} // verus!
