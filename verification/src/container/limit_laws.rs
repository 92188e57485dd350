//! What setting the limits of a container comes to: each limit that is given is what its
//! file says in the end, and what the statistics report.

use vstd::prelude::*;

use crate::cgroup::util;
use crate::container::protocol::{CgroupEvents, ContainerStats, ResourceLimits};
use crate::container::resources;
use crate::container::resources::{CgroupFiles, Limit, LimitWrite, Plan, StatFiles, WriteKind};
use crate::container::schedule::Schedule;
use crate::labels;
use crate::text;
use crate::text_laws;

verus! {

// ---------------------------------------------------------------------------
// Writes
// ---------------------------------------------------------------------------

/// The writes to a file, in their order.
pub open spec fn writes_for(writes: Seq<Limit>, path: Seq<char>) -> Seq<Limit>
    decreases writes.len(),
{
    if writes.len() == 0 {
        Seq::empty()
    } else if writes.last().path == path {
        writes_for(writes.drop_last(), path).push(writes.last())
    } else {
        writes_for(writes.drop_last(), path)
    }
}

/// The writes to a file of the control group, when all limits are set.
pub open spec fn written(
    path: Seq<char>,
    l: ResourceLimits,
    files: CgroupFiles,
    name: Seq<char>,
) -> Seq<Limit> {
    writes_for(resources::limits_plan(path, l, files).writes, util::path_join(path, name))
}

/// The file is among the further controls.
pub open spec fn is_extra(l: ResourceLimits, name: Seq<char>) -> bool {
    labels::labels_view(l.unified@).contains_key(name)
}

/// There is one write; it has to succeed, and its value is the number in decimal.
pub open spec fn says_number(w: Seq<Limit>, n: int) -> bool {
    w.len() == 1 && w[0].kind is Needed && n >= 0 && text::all_digits(w[0].value)
        && text::decimal_value(w[0].value) == n && w[0].value.len() > 0
}

/// There is one write; it has to succeed, and its value is this text.
pub open spec fn says_text(w: Seq<Limit>, t: Seq<char>) -> bool {
    w.len() == 1 && w[0].kind is Needed && w[0].value == t
}

/// The writes of joined plans to a file are those of both.
proof fn lemma_writes_join(a: Seq<Limit>, b: Seq<Limit>, path: Seq<char>)
    ensures
        writes_for(a + b, path) == writes_for(a, path) + writes_for(b, path),
    decreases b.len(),
{
    if b.len() == 0 {
        assert(a + b =~= a);
        assert(writes_for(a, path) + writes_for(b, path) =~= writes_for(a, path));
    } else {
        lemma_writes_join(a, b.drop_last(), path);
        assert((a + b).drop_last() =~= a + b.drop_last());
        assert(writes_for(a + b, path) =~= writes_for(a, path) + writes_for(b, path));
    }
}

/// A plan writes to one file only, at most once.
pub open spec fn only_writes(p: Plan, path: Seq<char>, name: Seq<char>) -> bool {
    p.writes.len() <= 1 && (p.writes.len() == 1 ==> p.writes[0].path == util::path_join(path, name))
}

/// Different names are different files.
proof fn lemma_files_apart(path: Seq<char>, a: Seq<char>, b: Seq<char>)
    requires
        a != b,
        a.len() > 0 ==> a[0] != '/',
        b.len() > 0 ==> b[0] != '/',
    ensures
        util::path_join(path, a) != util::path_join(path, b),
{
    let head = if path.len() == 0 || path.last() == '/' {
        path
    } else {
        path + "/"@
    };
    assert(util::path_join(path, a) =~= head + a);
    assert(util::path_join(path, b) =~= head + b);
    if head + a == head + b {
        assert((head + a).skip(head.len() as int) =~= a);
        assert((head + b).skip(head.len() as int) =~= b);
    }
}

/// What a plan that writes to one file writes to a file.
proof fn lemma_one_file(p: Plan, path: Seq<char>, own: Seq<char>, name: Seq<char>)
    requires
        only_writes(p, path, own),
        own.len() > 0 ==> own[0] != '/',
        name.len() > 0 ==> name[0] != '/',
    ensures
        writes_for(p.writes, util::path_join(path, name)) == if own == name {
            p.writes
        } else {
            Seq::empty()
        },
{
    reveal_with_fuel(writes_for, 2);
    if own != name {
        lemma_files_apart(path, own, name);
    }
    if p.writes.len() == 1 {
        assert(p.writes.drop_last() =~= Seq::<Limit>::empty());
        assert(Seq::<Limit>::empty().push(p.writes.last()) =~= p.writes);
    } else {
        assert(p.writes =~= Seq::<Limit>::empty());
    }
}

/// What the further controls with these keys write to a file.
proof fn lemma_controls(
    path: Seq<char>,
    keys: Seq<Seq<char>>,
    m: Map<Seq<char>, Seq<char>>,
    files: CgroupFiles,
    name: Seq<char>,
)
    requires
        keys.no_duplicates(),
        resources::controls_plan(path, keys, m, files).fault is None,
        name.len() > 0 ==> name[0] != '/',
    ensures
        writes_for(
            resources::controls_plan(path, keys, m, files).writes,
            util::path_join(path, name),
        ) == if keys.contains(name) {
            seq![
                Limit {
                    path: util::path_join(path, name),
                    value: text::trim_of(m[name]),
                    kind: WriteKind::Unified,
                },
            ]
        } else {
            Seq::empty()
        },
    decreases keys.len(),
{
    if keys.len() > 0 {
        let before = keys.drop_last();
        let key = keys.last();
        lemma_controls(path, before, m, files, name);
        let p = resources::controls_plan(path, before, m, files);
        let q = resources::control_plan(path, key, m[key], files);
        lemma_writes_join(p.writes, q.writes, util::path_join(path, name));
        text::lemma_place(resources::allowed(), key);
        lemma_allowed(key);
        lemma_one_file(q, path, key, name);
        assert(keys[keys.len() - 1] == key);
        if keys.contains(name) && name != key {
            let i = choose|i: int| 0 <= i < keys.len() && keys[i] == name;
            assert(before[i] == name);
        }
        if before.contains(name) {
            let i = choose|i: int| 0 <= i < before.len() && before[i] == name;
            assert(keys[i] == name);
        }
        assert(writes_for(p.then_do(q).writes, util::path_join(path, name)) =~= writes_for(
            p.writes,
            util::path_join(path, name),
        ) + writes_for(q.writes, util::path_join(path, name)));
    }
}

/// The further controls that are allowed are names without a slash in front.
proof fn lemma_allowed(key: Seq<char>)
    requires
        text::place_of(resources::allowed(), key) is Some,
    ensures
        key.len() > 0,
        key[0] != '/',
{
    text::lemma_place(resources::allowed(), key);
    reveal_strlit("cpu.max.burst");
    reveal_strlit("cpu.uclamp.min");
    reveal_strlit("cpu.uclamp.max");
    reveal_strlit("memory.min");
    reveal_strlit("memory.low");
    reveal_strlit("memory.high");
    reveal_strlit("memory.max");
    reveal_strlit("memory.swap.max");
    reveal_strlit("memory.oom.group");
    reveal_strlit("pids.max");
    let k = text::place_of(resources::allowed(), key)->0;
    assert(resources::allowed()[k] == key);
}

/// The names of the files of the limits differ, and none has a slash in front.
proof fn lemma_names()
    ensures
        ({
            let names = seq![
                "cpu.max"@,
                "cpu.weight"@,
                "memory.max"@,
                "memory.low"@,
                "memory.swap.max"@,
                "pids.max"@,
                "cpuset.mems"@,
                "cpuset.cpus"@,
            ];
            &&& names.no_duplicates()
            &&& forall|i: int|
                0 <= i < names.len() ==> (#[trigger] names[i]).len() > 0 && names[i][0] != '/'
        }),
{
    reveal_strlit("cpu.max");
    reveal_strlit("cpu.weight");
    reveal_strlit("memory.max");
    reveal_strlit("memory.low");
    reveal_strlit("memory.swap.max");
    reveal_strlit("pids.max");
    reveal_strlit("cpuset.mems");
    reveal_strlit("cpuset.cpus");
    assert("cpu.max"@.len() == 7);
    assert("cpu.weight"@.len() == 10);
    assert("memory.max"@.len() == 10);
    assert("memory.low"@.len() == 10);
    assert("memory.swap.max"@.len() == 15);
    assert("pids.max"@.len() == 8);
    assert("cpuset.mems"@.len() == 11);
    assert("cpuset.cpus"@.len() == 11);
    assert("cpu.weight"@[0] != "memory.max"@[0]);
    assert("cpu.weight"@[0] != "memory.low"@[0]);
    assert("memory.max"@[7] != "memory.low"@[7]);
    assert("cpuset.mems"@[7] != "cpuset.cpus"@[7]);
}

/// What is written to a file when all limits are set: what its own limit writes, and then
/// the further control of that name.
proof fn lemma_written(path: Seq<char>, l: ResourceLimits, files: CgroupFiles, own: Plan, k: int)
    requires
        resources::limits_plan(path, l, files).fault is None,
        0 <= k < 8,
        own == seq![
            resources::cpu_plan(path, l, files),
            resources::weight_plan(path, l),
            resources::memory_plan(path, l),
            resources::reservation_plan(path, l, files),
            resources::swap_plan(path, l, files),
            resources::pids_plan(path, l),
            resources::mems_plan(path, l, files),
            resources::cpus_plan(path, l),
        ][k],
    ensures
        own.fault is None,
        ({
            let names = seq![
                "cpu.max"@,
                "cpu.weight"@,
                "memory.max"@,
                "memory.low"@,
                "memory.swap.max"@,
                "pids.max"@,
                "cpuset.mems"@,
                "cpuset.cpus"@,
            ];
            written(path, l, files, names[k]) == if is_extra(l, names[k]) {
                own.writes.push(
                    Limit {
                        path: util::path_join(path, names[k]),
                        value: text::trim_of(labels::labels_view(l.unified@)[names[k]]),
                        kind: WriteKind::Unified,
                    },
                )
            } else {
                own.writes
            }
        }),
{
    let names = seq![
        "cpu.max"@,
        "cpu.weight"@,
        "memory.max"@,
        "memory.low"@,
        "memory.swap.max"@,
        "pids.max"@,
        "cpuset.mems"@,
        "cpuset.cpus"@,
    ];
    lemma_names();
    let name = names[k];
    let file = util::path_join(path, name);
    let p0 = resources::cpu_plan(path, l, files);
    let p1 = resources::weight_plan(path, l);
    let p2 = resources::memory_plan(path, l);
    let p3 = resources::reservation_plan(path, l, files);
    let p4 = resources::swap_plan(path, l, files);
    let p5 = resources::pids_plan(path, l);
    let p6 = resources::mems_plan(path, l, files);
    let p7 = resources::cpus_plan(path, l);
    let p8 = resources::unified_plan(path, l, files);
    assert(names[0] == "cpu.max"@ && names[1] == "cpu.weight"@ && names[2] == "memory.max"@
        && names[3] == "memory.low"@ && names[4] == "memory.swap.max"@ && names[5] == "pids.max"@
        && names[6] == "cpuset.mems"@ && names[7] == "cpuset.cpus"@);
    lemma_one_file(p0, path, names[0], name);
    lemma_one_file(p1, path, names[1], name);
    lemma_one_file(p2, path, names[2], name);
    lemma_one_file(p3, path, names[3], name);
    lemma_one_file(p4, path, names[4], name);
    lemma_one_file(p5, path, names[5], name);
    lemma_one_file(p6, path, names[6], name);
    lemma_one_file(p7, path, names[7], name);
    let w1 = p0.writes + p1.writes;
    let w2 = w1 + p2.writes;
    let w3 = w2 + p3.writes;
    let w4 = w3 + p4.writes;
    let w5 = w4 + p5.writes;
    let w6 = w5 + p6.writes;
    let w7 = w6 + p7.writes;
    lemma_writes_join(p0.writes, p1.writes, file);
    lemma_writes_join(w1, p2.writes, file);
    lemma_writes_join(w2, p3.writes, file);
    lemma_writes_join(w3, p4.writes, file);
    lemma_writes_join(w4, p5.writes, file);
    lemma_writes_join(w5, p6.writes, file);
    lemma_writes_join(w6, p7.writes, file);
    lemma_writes_join(w7, p8.writes, file);
    let m = labels::labels_view(l.unified@);
    labels::lemma_keys_in_order(l.unified@);
    lemma_controls(path, text::ordered(m.dom()), m, files, name);
    assert(resources::limits_plan(path, l, files).writes == w7 + p8.writes);
    assert(writes_for(w7, file) =~= own.writes);
    assert(is_extra(l, name) == text::ordered(m.dom()).contains(name)) by {
        assert(text::ordered(m.dom()).to_set().contains(name) == m.dom().contains(name));
    }
    assert(own.writes + Seq::<Limit>::empty() =~= own.writes);
}

/// The limit on processes is the number that is given; none where it is not above zero, and
/// nothing is written where none is given.
pub proof fn law_process_limit_is_set(path: Seq<char>, l: ResourceLimits, files: CgroupFiles)
    requires
        resources::limits_plan(path, l, files).fault is None,
        !is_extra(l, "pids.max"@),
    ensures
        l.pids_limit matches Some(n) ==> (n > 0 ==> says_number(
            written(path, l, files, "pids.max"@),
            n as int,
        )),
        l.pids_limit matches Some(n) ==> (n <= 0 ==> says_text(
            written(path, l, files, "pids.max"@),
            "max"@,
        )),
        l.pids_limit is None ==> written(path, l, files, "pids.max"@).len() == 0,
{
    lemma_written(path, l, files, resources::pids_plan(path, l), 5);
    if let Some(n) = l.pids_limit {
        text::law_decimal_round_trip(n as nat);
    }
}

/// The limits on memory are the numbers that are given, each in its own file: -1 lifts a
/// limit, and 0 leaves it as it is.
pub proof fn law_memory_limits_are_set(path: Seq<char>, l: ResourceLimits, files: CgroupFiles)
    requires
        resources::limits_plan(path, l, files).fault is None,
        !is_extra(l, "memory.max"@),
        !is_extra(l, "memory.low"@),
    ensures
        l.memory_limit_bytes matches Some(n) ==> n >= -1 && (n > 0 ==> says_number(
            written(path, l, files, "memory.max"@),
            n as int,
        )) && (n == -1 ==> says_text(written(path, l, files, "memory.max"@), "max"@)),
        l.memory_limit_bytes is None || l.memory_limit_bytes == Some(0i64) ==> written(
            path,
            l,
            files,
            "memory.max"@,
        ).len() == 0,
        l.memory_reservation_bytes matches Some(n) ==> n >= -1 && (n > 0 ==> says_number(
            written(path, l, files, "memory.low"@),
            n as int,
        )) && (n == -1 ==> says_text(written(path, l, files, "memory.low"@), "max"@)),
        l.memory_reservation_bytes is None || l.memory_reservation_bytes == Some(0i64) ==> written(
            path,
            l,
            files,
            "memory.low"@,
        ).len() == 0,
{
    lemma_written(path, l, files, resources::memory_plan(path, l), 2);
    lemma_written(path, l, files, resources::reservation_plan(path, l, files), 3);
    if let Some(n) = l.memory_limit_bytes {
        text::law_decimal_round_trip(n as nat);
    }
    if let Some(n) = l.memory_reservation_bytes {
        text::law_decimal_round_trip(n as nat);
    }
}

/// The limit on swap space is what the limit on memory leaves of the limit on both: with it
/// the two add up. A limit of -1 lifts it.
pub proof fn law_swap_limit_is_set(path: Seq<char>, l: ResourceLimits, files: CgroupFiles)
    requires
        resources::limits_plan(path, l, files).fault is None,
        !is_extra(l, "memory.swap.max"@),
        files.has("memory.swap.max"@),
    ensures
        l.memory_swap_bytes matches Some(both) ==> (l.memory_limit_bytes matches Some(memory) ==> (
        both > 0 && memory > 0 ==> memory <= both && says_number(
            written(path, l, files, "memory.swap.max"@),
            both - memory,
        )) && (both > 0 && memory == -1 ==> says_number(
            written(path, l, files, "memory.swap.max"@),
            both as int,
        ))),
        l.memory_swap_bytes == Some(-1i64) ==> says_text(
            written(path, l, files, "memory.swap.max"@),
            "max"@,
        ),
        l.memory_swap_bytes is None ==> written(path, l, files, "memory.swap.max"@).len() == 0,
{
    lemma_written(path, l, files, resources::swap_plan(path, l, files), 4);
    if let (Some(both), Some(memory)) = (l.memory_swap_bytes, l.memory_limit_bytes) {
        text::law_decimal_round_trip((both - memory) as nat);
        text::law_decimal_round_trip(both as nat);
    }
}

/// The processors and the memory nodes are those that are given; where no processors are,
/// nothing is written.
pub proof fn law_cpusets_are_set(path: Seq<char>, l: ResourceLimits, files: CgroupFiles)
    requires
        resources::limits_plan(path, l, files).fault is None,
        !is_extra(l, "cpuset.cpus"@),
        !is_extra(l, "cpuset.mems"@),
    ensures
        l.cpuset_cpus matches Some(t) ==> (t@.len() > 0 ==> says_text(
            written(path, l, files, "cpuset.cpus"@),
            t@,
        )),
        l.cpuset_mems matches Some(t) ==> (t@.len() > 0 ==> says_text(
            written(path, l, files, "cpuset.mems"@),
            t@,
        )),
        l.cpuset_cpus is None ==> written(path, l, files, "cpuset.cpus"@).len() == 0,
        l.cpuset_mems is None && (files.own_mems matches Some(t) && text::trim_of(t@).len() > 0)
            ==> written(path, l, files, "cpuset.mems"@).len() == 0,
        l.cpuset_mems is None && files.has("cpuset.mems"@) && (files.own_mems matches Some(t)
            && text::trim_of(t@).len() == 0) && (files.parent_mems matches Some(t) && text::trim_of(
            t@,
        ).len() > 0) ==> written(path, l, files, "cpuset.mems"@).len() == 1 && written(
            path,
            l,
            files,
            "cpuset.mems"@,
        )[0].value == text::trim_of(files.parent_mems->0@),
{
    reveal_strlit("");
    lemma_written(path, l, files, resources::cpus_plan(path, l), 7);
    lemma_written(path, l, files, resources::mems_plan(path, l, files), 6);
}

/// The share of processor time grows with the shares: the weight is the number of the
/// scale from 1 to 10000 that stands where the shares stand on the scale from 2 to 262144,
/// rounded down.
pub proof fn law_weight_is_set(path: Seq<char>, l: ResourceLimits, files: CgroupFiles)
    requires
        resources::limits_plan(path, l, files).fault is None,
        !is_extra(l, "cpu.weight"@),
    ensures
        l.cpu_shares matches Some(s) ==> (2 <= s <= 262_144 ==> exists|w: int| #[trigger]
            says_number(written(path, l, files, "cpu.weight"@), w) && (w - 1) * 262_142 <= (s - 2)
                * 9_999 < w * 262_142),
        l.cpu_shares matches Some(s) ==> (s == 1 ==> says_number(
            written(path, l, files, "cpu.weight"@),
            1,
        )) && (s > 262_144 ==> says_number(written(path, l, files, "cpu.weight"@), 10_000)),
        l.cpu_shares is None || l.cpu_shares == Some(0u64) ==> written(
            path,
            l,
            files,
            "cpu.weight"@,
        ).len() == 0,
{
    lemma_written(path, l, files, resources::weight_plan(path, l), 1);
    if let Some(s) = l.cpu_shares {
        let w = resources::weight_of(s as nat);
        text::law_decimal_round_trip(w);
        if s > 0 {
            assert(says_number(written(path, l, files, "cpu.weight"@), w as int));
        }
    }
}

/// The limit on processor time names the quota and the period that are given, in this
/// order; what of the two is not given stays as it is in force.
pub proof fn law_cpu_limit_is_set(path: Seq<char>, l: ResourceLimits, files: CgroupFiles)
    requires
        resources::limits_plan(path, l, files).fault is None,
        !is_extra(l, "cpu.max"@),
    ensures
        ({
            let w = written(path, l, files, "cpu.max"@);
            &&& l.cpu_quota is None && l.cpu_period is None <==> w.len() == 0
            &&& l.cpu_quota is Some || l.cpu_period is Some ==> w.len() == 1 && w[0].kind is Needed
            &&& l.cpu_quota matches Some(q) ==> text::has_prefix(
                w[0].value,
                (if q > 0 {
                    text::decimal_text(q as nat)
                } else {
                    "max"@
                }) + " "@,
            )
            &&& l.cpu_period matches Some(p) ==> (p > 0 ==> text::has_suffix(
                w[0].value,
                " "@ + text::decimal_text(p as nat),
            ))
            &&& l.cpu_quota is None && l.cpu_period is Some && (files.cpu_max matches Some(now)
                && text::words_of(now@).len() == 2) ==> text::has_prefix(
                w[0].value,
                text::words_of(files.cpu_max->0@)[0] + " "@,
            )
            &&& l.cpu_period is None && l.cpu_quota is Some && (files.cpu_max matches Some(now)
                && text::words_of(now@).len() == 2 && (text::unsigned_value(
                text::words_of(now@)[1],
                u64::MAX as nat,
            ) is Some)) ==> text::has_suffix(
                w[0].value,
                " "@ + text::decimal_text(
                    text::unsigned_value(
                        text::words_of(files.cpu_max->0@)[1],
                        u64::MAX as nat,
                    )->0,
                ),
            )
            &&& l.cpu_quota is Some && l.cpu_period is Some ==> (l.cpu_quota->0 > 0 && l.cpu_period->0
                > 0 ==> w[0].value == text::decimal_text(l.cpu_quota->0 as nat) + " "@
                + text::decimal_text(l.cpu_period->0 as nat))
        }),
{
    let plan = resources::cpu_plan(path, l, files);
    lemma_written(path, l, files, plan, 0);
    if plan.writes.len() == 1 {
        let v = plan.writes[0].value;
        let (quota_now, period_now) = resources::current_cpu(text::optional_string(files.cpu_max));
        let quota = match l.cpu_quota {
            Some(v) => if v > 0 {
                text::signed_text(v as int)
            } else {
                "max"@
            },
            None => quota_now,
        };
        let period = match l.cpu_period {
            Some(v) => if v > 0 {
                v as nat
            } else {
                period_now
            },
            None => period_now,
        };
        let head = quota + " "@;
        let tail = " "@ + text::decimal_text(period);
        assert(v == head + text::decimal_text(period));
        assert(v.take(head.len() as int) =~= head);
        assert(v =~= quota + tail);
        assert(v.skip(v.len() - tail.len()) =~= tail);
    }
}

/// Where the group says nothing of its CPU limit, a quota is over a tenth of a second, and a
/// period alone limits nothing.
pub proof fn law_usual_cpu_period(path: Seq<char>, l: ResourceLimits, files: CgroupFiles)
    requires
        resources::limits_plan(path, l, files).fault is None,
        !is_extra(l, "cpu.max"@),
        files.cpu_max is None || text::words_of(files.cpu_max->0@).len() == 0,
    ensures
        ({
            let w = written(path, l, files, "cpu.max"@);
            &&& l.cpu_quota matches Some(q) ==> (q > 0 && (l.cpu_period is None || l.cpu_period
                == Some(0u64)) ==> w.len() == 1 && w[0].value == text::decimal_text(q as nat)
                + " 100000"@)
            &&& l.cpu_quota is None && (l.cpu_period matches Some(p) && p > 0) ==> w.len() == 1
                && w[0].value == "max "@ + text::decimal_text(l.cpu_period->0 as nat)
        }),
{
    let plan = resources::cpu_plan(path, l, files);
    lemma_written(path, l, files, plan, 0);
    let now = resources::current_cpu(text::optional_string(files.cpu_max));
    assert(now.0 == "max"@ && now.1 == 100_000) by {
        if files.cpu_max is None {
            lemma_usual_cpu();
        }
    }
    assert(" "@ + text::decimal_text(100_000) == " 100000"@) by {
        reveal_strlit(" ");
        reveal_strlit(" 100000");
        reveal_with_fuel(text::decimal_text, 7);
        assert(" "@ + text::decimal_text(100_000) =~= " 100000"@);
    }
    assert("max"@ + " "@ == "max "@) by {
        reveal_strlit("max");
        reveal_strlit(" ");
        reveal_strlit("max ");
        assert("max"@ + " "@ =~= "max "@);
    }
    if let Some(q) = l.cpu_quota {
        if q > 0 {
            assert(text::decimal_text(q as nat) + " "@ + text::decimal_text(100_000)
                =~= text::decimal_text(q as nat) + (" "@ + text::decimal_text(100_000)));
        }
    }
}

/// What holds where the group says nothing of its CPU limit.
proof fn lemma_usual_cpu()
    ensures
        resources::current_cpu(None) == ("max"@, 100_000nat),
{
    let whole = "max 100000"@;
    let word = "max"@;
    let number = "100000"@;
    reveal_strlit("max 100000");
    reveal_strlit("max");
    reveal_strlit("100000");
    assert(whole =~= word + seq![' '] + number);
    let words = seq![word, number];
    assert(text::is_word(word));
    assert(text::is_word(number));
    text_laws::law_words_are_all_read(words);
    assert(text::joined(words, seq![' ']) =~= whole) by {
        assert(words.drop_last() =~= seq![word]);
        assert(seq![word].drop_last() =~= Seq::<Seq<char>>::empty());
        reveal_with_fuel(text::joined, 3);
    }
    text::law_decimal_round_trip(100_000);
    assert(text::decimal_text(100_000) =~= number) by {
        reveal_with_fuel(text::decimal_text, 7);
    }
}

/// A further control is written last, with the value that is given for it and no white space
/// around it.
pub proof fn law_further_controls_are_set(
    path: Seq<char>,
    l: ResourceLimits,
    files: CgroupFiles,
    key: Seq<char>,
)
    requires
        resources::unified_plan(path, l, files).fault is None,
        is_extra(l, key),
        key.len() > 0,
        key[0] != '/',
    ensures
        writes_for(
            resources::unified_plan(path, l, files).writes,
            util::path_join(path, key),
        ) == seq![
            Limit {
                path: util::path_join(path, key),
                value: text::trim_of(labels::labels_view(l.unified@)[key]),
                kind: WriteKind::Unified,
            },
        ],
        resources::limits_plan(path, l, files).fault is None ==> written(path, l, files, key).len()
            > 0 && written(path, l, files, key).last().value == text::trim_of(
            labels::labels_view(l.unified@)[key],
        ),
{
    let m = labels::labels_view(l.unified@);
    labels::lemma_keys_in_order(l.unified@);
    assert(text::ordered(m.dom()).to_set().contains(key));
    lemma_controls(path, text::ordered(m.dom()), m, files, key);
    let p0 = resources::cpu_plan(path, l, files);
    let p1 = p0.then_do(resources::weight_plan(path, l));
    let p2 = p1.then_do(resources::memory_plan(path, l));
    let p3 = p2.then_do(resources::reservation_plan(path, l, files));
    let p4 = p3.then_do(resources::swap_plan(path, l, files));
    let p5 = p4.then_do(resources::pids_plan(path, l));
    let p6 = p5.then_do(resources::mems_plan(path, l, files));
    let p7 = p6.then_do(resources::cpus_plan(path, l));
    lemma_writes_join(
        p7.writes,
        resources::unified_plan(path, l, files).writes,
        util::path_join(path, key),
    );
}

/// Limits that make sense are set: where the amounts are at least -1 and no control that is
/// missing is asked for, there is no error.
pub proof fn law_sound_limits_are_accepted(path: Seq<char>, l: ResourceLimits, files: CgroupFiles)
    requires
        l.memory_limit_bytes matches Some(n) ==> n >= -1,
        l.memory_reservation_bytes matches Some(n) ==> n >= -1 && files.has("memory.low"@),
        l.memory_swap_bytes matches Some(both) ==> files.has("memory.swap.max"@) && (
        l.memory_limit_bytes matches Some(memory) && memory > 0 && both >= memory),
        l.unified@.len() == 0,
    ensures
        resources::limits_plan(path, l, files).fault is None,
{
    let none = Seq::<Seq<char>>::empty();
    assert(none.to_set() =~= labels::labels_view(l.unified@).dom());
    text::lemma_ordered(none);
}

/// Limits that make no sense are refused: amounts below -1, a limit on both memory and swap
/// space below that on memory, and a protected amount where there is no such control.
pub proof fn law_unsound_limits_are_refused(path: Seq<char>, l: ResourceLimits, files: CgroupFiles)
    requires
        (l.memory_limit_bytes matches Some(n) && n < -1) || (
        l.memory_reservation_bytes matches Some(n) && (n < -1 || !files.has("memory.low"@))) || (
        l.memory_swap_bytes matches Some(both) && (l.memory_limit_bytes matches Some(memory) && 0
            < both < memory)),
    ensures
        resources::limits_plan(path, l, files).fault is Some,
{
}

// ---------------------------------------------------------------------------
// Statistics
// ---------------------------------------------------------------------------

/// The file holds the number, and maybe a line feed behind it.
pub open spec fn holds_number(content: Option<String>, n: nat) -> bool {
    content matches Some(t) && (t@ == text::decimal_text(n) || t@ == text::decimal_text(n).push('\n'))
}

/// The file holds the word for no limit, and maybe a line feed behind it.
pub open spec fn holds_max(content: Option<String>) -> bool {
    content matches Some(t) && (t@ == "max"@ || t@ == "max"@.push('\n'))
}

/// The line gives the number to the counter.
pub open spec fn is_counter_line(line: Seq<char>, key: Seq<char>, n: nat) -> bool {
    line == key.push(' ') + text::decimal_text(n)
}

/// A line of the file gives the number to the counter, and no line before it speaks of the
/// counter.
pub open spec fn holds_counter(content: Option<String>, key: Seq<char>, n: nat) -> bool {
    content matches Some(t) && exists|i: int|
        0 <= i < text::lines_of(t@).len() && is_counter_line(
            #[trigger] text::lines_of(t@)[i],
            key,
            n,
        ) && forall|j: int|
            0 <= j < i ==> !text::has_prefix(#[trigger] text::lines_of(t@)[j], key.push(' '))
}

/// A number has no white space around it, and neither has the word for no limit.
proof fn lemma_trimmed(n: nat)
    ensures
        text::trim_of(text::decimal_text(n)) == text::decimal_text(n),
        text::trim_of(text::decimal_text(n).push('\n')) == text::decimal_text(n),
        text::trim_of("max"@) == "max"@,
        text::trim_of("max"@.push('\n')) == "max"@,
        text::decimal_text(n) != "max"@,
{
    text::law_decimal_round_trip(n);
    reveal_strlit("max");
    let t = text::decimal_text(n);
    assert(text::is_digit(t[0]) && text::is_digit(t.last()));
    assert(t.push('\n').drop_last() =~= t);
    assert("max"@.push('\n').drop_last() =~= "max"@);
    reveal_with_fuel(text::trim_end_of, 2);
    reveal_with_fuel(text::trim_start_of, 2);
    assert("max"@[0] == 'm' && "max"@.last() == 'x');
    assert(t.push('\n')[0] == t[0]);
    assert("max"@.push('\n')[0] == 'm');
}

/// A number in a file is read as it is.
proof fn lemma_number(content: Option<String>, n: nat)
    requires
        n <= u64::MAX,
    ensures
        holds_number(content, n) ==> resources::number_in(content) == n && resources::limit_or_zero(
            content,
        ) == n,
        holds_max(content) ==> resources::limit_or_zero(content) == 0,
        content is None ==> resources::number_in(content) == 0 && resources::limit_or_zero(content)
            == 0,
{
    lemma_trimmed(n);
    text::law_decimal_round_trip(n);
}

/// A counter in lines is the number that its line gives.
proof fn lemma_counter_lines(lines: Seq<Seq<char>>, key: Seq<char>, n: nat, i: int)
    requires
        n <= u64::MAX,
        0 <= i < lines.len(),
        text::lacks(key, ' '),
        is_counter_line(lines[i], key, n),
        forall|j: int| 0 <= j < i ==> !text::has_prefix(#[trigger] lines[j], key.push(' ')),
    ensures
        resources::counter_in(lines, key) == Some(n),
    decreases lines.len(),
{
    let before = lines.drop_last();
    if i < lines.len() - 1 {
        assert(before[i] == lines[i]);
        assert forall|j: int| 0 <= j < i implies !text::has_prefix(
            #[trigger] before[j],
            key.push(' '),
        ) by {
            assert(before[j] == lines[j]);
        }
        lemma_counter_lines(before, key, n, i);
    } else {
        lemma_no_counter(before, key);
        let line = lines[i];
        let value = text::decimal_text(n);
        lemma_trimmed(n);
        text::law_decimal_round_trip(n);
        let k = key.len() as int;
        assert(line[k] == ' ');
        assert forall|j: int| 0 <= j < k implies line[j] != ' ' by {
            assert(line[j] == key[j]);
        }
        text::lemma_find(line, ' ', k);
        assert(line.take(k) =~= key);
        assert(line.skip(k + 1) =~= value);
    }
}

/// Lines that do not speak of a counter give it no number.
proof fn lemma_no_counter(lines: Seq<Seq<char>>, key: Seq<char>)
    requires
        forall|j: int|
            0 <= j < lines.len() ==> !text::has_prefix(#[trigger] lines[j], key.push(' ')),
    ensures
        resources::counter_in(lines, key) is None,
    decreases lines.len(),
{
    if lines.len() > 0 {
        let before = lines.drop_last();
        assert forall|j: int| 0 <= j < before.len() implies !text::has_prefix(
            #[trigger] before[j],
            key.push(' '),
        ) by {
            assert(before[j] == lines[j]);
        }
        lemma_no_counter(before, key);
        let line = lines[lines.len() - 1];
        text::law_cut_at_the_first(line, ' ');
        if let Some((name, value)) = text::split_once_on(line, ' ') {
            if name == key {
                assert(line.take(key.len() as int + 1) =~= key.push(' '));
            }
        }
    }
}

/// A counter in a file is the number that its line gives.
proof fn lemma_counter(content: Option<String>, key: Seq<char>, n: nat)
    requires
        n <= u64::MAX,
        text::lacks(key, ' '),
    ensures
        holds_counter(content, key, n) ==> resources::counter(content, key) == n,
        content is None ==> resources::counter(content, key) == 0,
{
    if holds_counter(content, key, n) {
        let lines = text::lines_of(content->0@);
        let i = choose|i: int|
            0 <= i < lines.len() && is_counter_line(#[trigger] lines[i], key, n) && forall|j: int|
                0 <= j < i ==> !text::has_prefix(#[trigger] lines[j], key.push(' '));
        lemma_counter_lines(lines, key, n, i);
    }
}

/// The processor time that is reported is that of the counters, each of its own.
pub proof fn law_processor_time_is_reported(s: ContainerStats, f: StatFiles, n: nat)
    requires
        resources::stats_of(s, f),
        n <= u64::MAX,
    ensures
        holds_counter(f.cpu_stat, "usage_usec"@, n) ==> s.cpu_usage_usec == n,
        holds_counter(f.cpu_stat, "user_usec"@, n) ==> s.cpu_user_usec == n,
        holds_counter(f.cpu_stat, "system_usec"@, n) ==> s.cpu_system_usec == n,
        holds_counter(f.cpu_stat, "nr_periods"@, n) ==> s.cpu_nr_periods == n,
        holds_counter(f.cpu_stat, "nr_throttled"@, n) ==> s.cpu_nr_throttled == n,
        holds_counter(f.cpu_stat, "throttled_usec"@, n) ==> s.cpu_throttled_usec == n,
{
    reveal_strlit("usage_usec");
    reveal_strlit("user_usec");
    reveal_strlit("system_usec");
    reveal_strlit("nr_periods");
    reveal_strlit("nr_throttled");
    reveal_strlit("throttled_usec");
    lemma_counter(f.cpu_stat, "usage_usec"@, n);
    lemma_counter(f.cpu_stat, "user_usec"@, n);
    lemma_counter(f.cpu_stat, "system_usec"@, n);
    lemma_counter(f.cpu_stat, "nr_periods"@, n);
    lemma_counter(f.cpu_stat, "nr_throttled"@, n);
    lemma_counter(f.cpu_stat, "throttled_usec"@, n);
}

/// The memory that is reported is that of the counters, each of its own.
pub proof fn law_memory_counters_are_reported(s: ContainerStats, f: StatFiles, n: nat)
    requires
        resources::stats_of(s, f),
        n <= u64::MAX,
    ensures
        holds_counter(f.memory_stat, "anon"@, n) ==> s.memory_anon_bytes == n,
        holds_counter(f.memory_stat, "file"@, n) ==> s.memory_file_bytes == n,
        holds_counter(f.memory_stat, "anon_thp"@, n) ==> s.memory_anon_thp_bytes == n,
        holds_counter(f.memory_stat, "file_mapped"@, n) ==> s.memory_file_mapped_bytes == n,
        holds_counter(f.memory_stat, "file_dirty"@, n) ==> s.memory_dirty_bytes == n,
        holds_counter(f.memory_stat, "file_writeback"@, n) ==> s.memory_writeback_bytes == n,
        holds_counter(f.memory_stat, "pgfault"@, n) ==> s.memory_pgfault == n,
        holds_counter(f.memory_stat, "pgmajfault"@, n) ==> s.memory_pgmajfault == n,
        holds_counter(f.memory_stat, "inactive_anon"@, n) ==> s.memory_inactive_anon_bytes == n,
        holds_counter(f.memory_stat, "active_anon"@, n) ==> s.memory_active_anon_bytes == n,
        holds_counter(f.memory_stat, "inactive_file"@, n) ==> s.memory_total_inactive_file_bytes == n,
        holds_counter(f.memory_stat, "active_file"@, n) ==> s.memory_active_file_bytes == n,
        holds_counter(f.memory_stat, "unevictable"@, n) ==> s.memory_unevictable_bytes == n,
        holds_counter(f.memory_events, "max"@, n) ==> s.memory_events_max == n,
        holds_counter(f.memory_events, "oom"@, n) ==> s.memory_events_oom == n,
        holds_counter(f.memory_events, "oom_kill"@, n) ==> s.memory_events_oom_kill == n,
{
    reveal_strlit("anon");
    reveal_strlit("file");
    reveal_strlit("anon_thp");
    reveal_strlit("file_mapped");
    reveal_strlit("file_dirty");
    reveal_strlit("file_writeback");
    reveal_strlit("pgfault");
    reveal_strlit("pgmajfault");
    reveal_strlit("inactive_anon");
    reveal_strlit("active_anon");
    reveal_strlit("inactive_file");
    reveal_strlit("active_file");
    reveal_strlit("unevictable");
    reveal_strlit("max");
    reveal_strlit("oom");
    reveal_strlit("oom_kill");
    lemma_counter(f.memory_stat, "anon"@, n);
    lemma_counter(f.memory_stat, "file"@, n);
    lemma_counter(f.memory_stat, "anon_thp"@, n);
    lemma_counter(f.memory_stat, "file_mapped"@, n);
    lemma_counter(f.memory_stat, "file_dirty"@, n);
    lemma_counter(f.memory_stat, "file_writeback"@, n);
    lemma_counter(f.memory_stat, "pgfault"@, n);
    lemma_counter(f.memory_stat, "pgmajfault"@, n);
    lemma_counter(f.memory_stat, "inactive_anon"@, n);
    lemma_counter(f.memory_stat, "active_anon"@, n);
    lemma_counter(f.memory_stat, "inactive_file"@, n);
    lemma_counter(f.memory_stat, "active_file"@, n);
    lemma_counter(f.memory_stat, "unevictable"@, n);
    lemma_counter(f.memory_events, "max"@, n);
    lemma_counter(f.memory_events, "oom"@, n);
    lemma_counter(f.memory_events, "oom_kill"@, n);
}

/// The amounts and the limits that are reported are those in their own files, whatever the
/// other files hold; no limit counts as 0.
pub proof fn law_amounts_and_limits_are_reported(s: ContainerStats, f: StatFiles, n: nat)
    requires
        resources::stats_of(s, f),
        n <= u64::MAX,
    ensures
        holds_number(f.memory_current, n) ==> s.memory_usage_bytes == n,
        f.memory_current is None ==> s.memory_usage_bytes == 0,
        holds_number(f.memory_peak, n) ==> s.memory_peak_bytes == n,
        f.memory_peak is None ==> s.memory_peak_bytes == 0,
        holds_number(f.memory_swap_current, n) ==> s.memory_swap_usage_bytes == n,
        f.memory_swap_current is None ==> s.memory_swap_usage_bytes == 0,
        holds_number(f.pids_current, n) ==> s.pids_current == n,
        f.pids_current is None ==> s.pids_current == 0,
        holds_number(f.memory_max, n) ==> s.memory_limit_bytes == n,
        f.memory_max is None ==> s.memory_limit_bytes == 0,
        holds_number(f.memory_swap_max, n) ==> s.memory_swap_limit_bytes == n,
        f.memory_swap_max is None ==> s.memory_swap_limit_bytes == 0,
        holds_number(f.pids_max, n) ==> s.pids_limit == n,
        f.pids_max is None ==> s.pids_limit == 0,
        holds_max(f.memory_max) ==> s.memory_limit_bytes == 0,
        holds_max(f.memory_swap_max) ==> s.memory_swap_limit_bytes == 0,
        holds_max(f.pids_max) ==> s.pids_limit == 0,
{
    lemma_number(f.memory_current, n);
    lemma_number(f.memory_peak, n);
    lemma_number(f.memory_swap_current, n);
    lemma_number(f.pids_current, n);
    lemma_number(f.memory_max, n);
    lemma_number(f.memory_swap_max, n);
    lemma_number(f.pids_max, n);
}

/// The memory events that are reported are those of the counters, each of its own.
pub proof fn law_memory_events_are_reported(e: CgroupEvents, content: Option<String>, n: nat)
    requires
        resources::events_of(e, content),
        n <= u64::MAX,
    ensures
        holds_counter(content, "low"@, n) ==> e.low == n,
        holds_counter(content, "high"@, n) ==> e.high == n,
        holds_counter(content, "max"@, n) ==> e.max == n,
        holds_counter(content, "oom"@, n) ==> e.oom == n,
        holds_counter(content, "oom_kill"@, n) ==> e.oom_kill == n,
        holds_counter(content, "oom_group_kill"@, n) ==> e.oom_group_kill == n,
{
    reveal_strlit("low");
    reveal_strlit("high");
    reveal_strlit("max");
    reveal_strlit("oom");
    reveal_strlit("oom_kill");
    reveal_strlit("oom_group_kill");
    lemma_counter(content, "low"@, n);
    lemma_counter(content, "high"@, n);
    lemma_counter(content, "max"@, n);
    lemma_counter(content, "oom"@, n);
    lemma_counter(content, "oom_kill"@, n);
    lemma_counter(content, "oom_group_kill"@, n);
}

/// A limit that was set is the limit that is reported: when the file holds what was last
/// written to it, the statistics name the number that was given.
pub proof fn law_limits_that_are_set_are_reported(
    path: Seq<char>,
    l: ResourceLimits,
    files: CgroupFiles,
    s: ContainerStats,
    f: StatFiles,
)
    requires
        resources::limits_plan(path, l, files).fault is None,
        l.unified@.len() == 0,
        resources::stats_of(s, f),
    ensures
        l.memory_limit_bytes matches Some(n) ==> (f.memory_max matches Some(t) ==> (n > 0 && t@
            == written(path, l, files, "memory.max"@).last().value ==> s.memory_limit_bytes == n)),
        l.pids_limit matches Some(n) ==> (f.pids_max matches Some(t) ==> (n > 0 && t@ == written(
            path,
            l,
            files,
            "pids.max"@,
        ).last().value ==> s.pids_limit == n)),
        l.pids_limit matches Some(n) ==> (f.pids_max matches Some(t) ==> (n <= 0 && t@ == written(
            path,
            l,
            files,
            "pids.max"@,
        ).last().value ==> s.pids_limit == 0)),
{
    lemma_written(path, l, files, resources::pids_plan(path, l), 5);
    lemma_written(path, l, files, resources::memory_plan(path, l), 2);
    lemma_trimmed(0);
    if let Some(n) = l.pids_limit {
        if n > 0 {
            lemma_number(f.pids_max, n as nat);
        }
    }
    if let Some(n) = l.memory_limit_bytes {
        if n > 0 {
            lemma_number(f.memory_max, n as nat);
        }
    }
}

// ---------------------------------------------------------------------------
// Groups
// ---------------------------------------------------------------------------

/// A character that can stand in the name of a control group.
pub open spec fn is_name_char(c: char) -> bool {
    'a' <= c <= 'z' || 'A' <= c <= 'Z' || '0' <= c <= '9' || c == '-' || c == '_' || c == '.'
}

/// A container of a plain name has the control group of that name; in other names each
/// character that cannot stand there becomes a dash, and names end after 96 characters.
pub proof fn law_groups_are_named_after_containers(id: Seq<char>, i: int)
    requires
        id.len() > 0,
    ensures
        id.len() <= 96 ==> resources::component_of(id).len() == id.len(),
        id.len() > 96 ==> resources::component_of(id).len() == 96,
        0 <= i < resources::component_of(id).len() ==> resources::component_of(id)[i]
            == if is_name_char(id[i]) {
            id[i]
        } else {
            '-'
        },
        id.len() <= 96 && (forall|k: int| 0 <= k < id.len() ==> is_name_char(#[trigger] id[k]))
            ==> resources::component_of(id) == id && resources::container_path(id)
            == "/sys/fs/cgroup/fluxvm-containers/"@ + id,
{
    reveal_strlit("/sys/fs/cgroup/fluxvm-containers/");
    reveal_strlit("/sys/fs/cgroup/fluxvm-containers");
    reveal_strlit("/");
    assert("/sys/fs/cgroup/fluxvm-containers/"@ =~= "/sys/fs/cgroup/fluxvm-containers"@ + "/"@);
    assert("/sys/fs/cgroup/fluxvm-containers"@.last() == 's');
    if id.len() <= 96 && (forall|k: int| 0 <= k < id.len() ==> is_name_char(#[trigger] id[k])) {
        assert(resources::component_of(id) =~= id);
        assert(is_name_char(id[0]));
        assert(resources::container_path(id) =~= "/sys/fs/cgroup/fluxvm-containers"@ + "/"@ + id);
    }
}

/// The controllers that are handed down are those of the wanted ones that there are.
pub proof fn law_wanted_controllers_are_handed_down(available: Seq<Seq<char>>, c: Seq<char>)
    requires
        c == "cpu"@ || c == "memory"@ || c == "pids"@ || c == "cpuset"@,
    ensures
        resources::enabled(available, 4).contains("+"@ + c) <==> available.contains(c),
        resources::enabled(available, 4).len() <= 4,
{
    let w = resources::wanted();
    assert(w[0] == "cpu"@ && w[1] == "memory"@ && w[2] == "pids"@ && w[3] == "cpuset"@);
    assert(w.take(4) =~= w);
    lemma_enabled(available, c, 4);
    assert(w.contains(c)) by {
        if c == "cpu"@ {
            assert(w[0] == c);
        } else if c == "memory"@ {
            assert(w[1] == c);
        } else if c == "pids"@ {
            assert(w[2] == c);
        } else {
            assert(w[3] == c);
        }
    }
}

/// The first wanted controllers that there are.
proof fn lemma_enabled(available: Seq<Seq<char>>, c: Seq<char>, n: nat)
    requires
        n <= 4,
    ensures
        resources::enabled(available, n).contains("+"@ + c) <==> available.contains(c)
            && resources::wanted().take(n as int).contains(c),
        resources::enabled(available, n).len() <= n,
    decreases n,
{
    let w = resources::wanted();
    if n > 0 {
        lemma_enabled(available, c, (n - 1) as nat);
        let before = resources::enabled(available, (n - 1) as nat);
        let name = w[n - 1];
        assert(w.take(n as int) =~= w.take(n - 1).push(name));
        text::lemma_push_set(w.take(n - 1), name, c);
        text::lemma_push_set(before, "+"@ + name, "+"@ + c);
        assert(w.take(n as int).to_set().contains(c) == w.take(n as int).contains(c));
        assert(w.take(n - 1).to_set().contains(c) == w.take(n - 1).contains(c));
        assert(before.to_set().contains("+"@ + c) == before.contains("+"@ + c));
        assert(before.push("+"@ + name).to_set().contains("+"@ + c) == before.push(
            "+"@ + name,
        ).contains("+"@ + c));
        let one = "+"@.len() as int;
        assert(("+"@ + c).skip(one) =~= c);
        assert(("+"@ + name).skip(one) =~= name);
    }
}

/// The processes of a control group are those of all lines of its list, in their order.
pub proof fn law_processes_are_all_listed(lines: Seq<Seq<char>>, pids: Seq<u32>)
    requires
        lines.len() == pids.len(),
        forall|i: int|
            0 <= i < lines.len() ==> #[trigger] lines[i] == text::decimal_text(pids[i] as nat),
    ensures
        resources::pids_in(lines) == pids,
    decreases lines.len(),
{
    if lines.len() > 0 {
        let a = lines.drop_last();
        let b = pids.drop_last();
        assert forall|i: int| 0 <= i < a.len() implies #[trigger] a[i] == text::decimal_text(
            b[i] as nat,
        ) by {
            assert(a[i] == lines[i]);
        }
        law_processes_are_all_listed(a, b);
        let k = lines.len() - 1;
        assert(lines[k] == text::decimal_text(pids[k] as nat));
        text::lemma_trimmed_number(pids[k] as nat);
        text::law_decimal_round_trip(pids[k] as nat);
        assert(pids =~= b.push(pids[k]));
    } else {
        assert(pids =~= Seq::<u32>::empty());
    }
}

/// A further control is set where it is known and the group has its file, and refused
/// otherwise.
pub proof fn law_further_controls_must_be_known(
    path: Seq<char>,
    key: Seq<char>,
    value: Seq<char>,
    files: CgroupFiles,
)
    ensures
        resources::control_plan(path, key, value, files).fault is None <==> (key
            == "cpu.max.burst"@ || key == "cpu.uclamp.min"@ || key == "cpu.uclamp.max"@ || key
            == "memory.min"@ || key == "memory.low"@ || key == "memory.high"@ || key
            == "memory.max"@ || key == "memory.swap.max"@ || key == "memory.oom.group"@ || key
            == "pids.max"@) && text::trim_of(value).len() > 0 && text::lacks(
            text::trim_of(value),
            '\n',
        ) && text::lacks(text::trim_of(value), '\r') && files.has(key),
        resources::control_plan(path, key, value, files).fault is Some
            ==> resources::control_plan(path, key, value, files).writes.len() == 0,
{
    let a = resources::allowed();
    text::lemma_place(a, key);
    assert(a[0] == "cpu.max.burst"@ && a[1] == "cpu.uclamp.min"@ && a[2] == "cpu.uclamp.max"@ && a[3]
        == "memory.min"@ && a[4] == "memory.low"@ && a[5] == "memory.high"@ && a[6] == "memory.max"@
        && a[7] == "memory.swap.max"@ && a[8] == "memory.oom.group"@ && a[9] == "pids.max"@);
    let v = text::trim_of(value);
    assert(v.contains('\n') <==> !text::lacks(v, '\n'));
    assert(v.contains('\r') <==> !text::lacks(v, '\r'));
}

/// What is done follows the plan write by write: each file, its value, and how a failure
/// counts.
pub proof fn law_plans_are_followed(s: Schedule<LimitWrite>, p: Plan, i: int)
    requires
        s.follows(p),
    ensures
        s.steps@.len() == p.writes.len(),
        0 <= i < p.writes.len() ==> s.steps@[i].path@ == p.writes[i].path && s.steps@[i].value@
            == p.writes[i].value && s.steps@[i].kind == p.writes[i].kind,
        s.fault is Some <==> p.fault is Some,
        s.fault matches Some(m) ==> p.fault == Some(m@),
{
    if 0 <= i < p.writes.len() {
        assert(resources::limits_view(s.steps@)[i] == s.steps@[i].view());
    }
}

/// The controllers are handed down in one line, with blanks between them; without any there
/// is nothing to write.
pub proof fn law_controllers_are_handed_down_together(controllers: Seq<char>)
    ensures
        resources::enabling(controllers) is None <==> resources::enabled(
            text::words_of(controllers),
            4,
        ).len() == 0,
        resources::enabling(controllers) matches Some(t) ==> t == text::joined(
            resources::enabled(text::words_of(controllers), 4),
            seq![' '],
        ),
{
    reveal_strlit(" ");
    assert(" "@ =~= seq![' ']);
}

} // verus!
