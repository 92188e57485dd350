//! What the control files of a cgroup say, and what is written to them.

use vstd::prelude::*;

use crate::cgroup::cpu;
use crate::cgroup::cpu::{CpuMax, CpuStat};
use crate::cgroup::cpuset;
use crate::cgroup::error::{CgroupError, Fault};
use crate::cgroup::freezer;
use crate::cgroup::io;
use crate::cgroup::io::{DeviceId, IoMax, IoStat};
use crate::cgroup::manager;
use crate::cgroup::manager::CgroupEvents;
use crate::cgroup::memory::{MemoryEvents, MemoryStats};
use crate::cgroup::pressure;
use crate::cgroup::pressure::Pressure;
use crate::cgroup::util;
use crate::cgroup::util::{FileWrite, Reading};
use crate::text;
use crate::text_laws;

verus! {

// ---------------------------------------------------------------------------
// Files
// ---------------------------------------------------------------------------

/// A file is below its directory: the directory's path, one slash, and the name.
pub proof fn law_files_are_below_their_directory(base: Seq<char>, name: Seq<char>)
    requires
        base.len() > 0,
        base.last() != '/',
        name.len() > 0,
        name[0] != '/',
    ensures
        util::path_join(base, name) == base.push('/') + name,
        util::path_join(base.push('/'), name) == base.push('/') + name,
        util::path_join(base, seq!['/'] + name) == seq!['/'] + name,
{
    reveal_strlit("/");
    assert("/"@ =~= seq!['/']);
    assert(base + "/"@ + name =~= base.push('/') + name);
    assert((seq!['/'] + name)[0] == '/');
}

/// A number in a file is read as it is written, and so is a limit; no limit is the largest
/// number. Anything else is an error.
pub proof fn law_numbers_are_read(n: nat, t: Seq<char>)
    requires
        n <= u64::MAX,
    ensures
        util::plain_u64(text::decimal_text(n)) == Ok::<nat, Fault>(n),
        util::u64_or_max(text::decimal_text(n)) == Ok::<nat, Fault>(n),
        util::u64_or_max("max"@) == Ok::<nat, Fault>(u64::MAX as nat),
        n < u64::MAX ==> util::limit_text(n) == text::decimal_text(n),
        util::limit_text(u64::MAX as nat) == "max"@,
        t.len() > 0 && !text::is_digit(t[0]) && t[0] != '+' ==> util::plain_u64(t) is Err,
{
    text::law_decimal_round_trip(n);
    text::lemma_trimmed_number(n);
    util::law_limit_round_trip(u64::MAX);
    reveal_strlit("max");
    assert("max"@[0] == 'm');
    assert(text::is_digit(text::decimal_text(n)[0]));
}

/// The line gives a number to a key.
pub open spec fn is_pair_line(line: Seq<char>, key: Seq<char>, n: nat) -> bool {
    line == key.push(' ') + text::decimal_text(n)
}

/// A text with no white space at either end has none to trim.
proof fn lemma_nothing_to_trim(t: Seq<char>)
    requires
        t.len() > 0,
        !text::is_space(t[0]),
        !text::is_space(t.last()),
    ensures
        text::trim_of(t) == t,
{
    reveal_with_fuel(text::trim_end_of, 2);
    reveal_with_fuel(text::trim_start_of, 2);
}

/// One line of a keyed file.
proof fn lemma_pair(key: Seq<char>, n: nat)
    requires
        text::is_word(key),
        n <= u64::MAX,
    ensures
        ({
            let line = key.push(' ') + text::decimal_text(n);
            &&& text::trim_of(line) == line
            &&& line.len() > 0
            &&& util::flat_pair(line) == (key, text::decimal_text(n))
        }),
{
    let value = text::decimal_text(n);
    let line = key.push(' ') + value;
    text::law_decimal_round_trip(n);
    text::lemma_trimmed_number(n);
    assert(text::is_digit(value.last()));
    assert(line.last() == value.last());
    assert(line[0] == key[0]);
    assert(!text::is_space(key[0]));
    lemma_nothing_to_trim(line);
    let k = key.len() as int;
    assert(line[k] == ' ');
    assert forall|j: int| 0 <= j < k implies line[j] != ' ' by {
        assert(line[j] == key[j]);
        assert(!text::is_space(key[j]));
    }
    text::lemma_find(line, ' ', k);
    assert(line.take(k) =~= key);
    assert(line.skip(k + 1) =~= value);
}

/// The entries of a keyed file are those of its lines, all of them and in their order.
pub proof fn law_entries_are_all_read(lines: Seq<Seq<char>>, entries: Seq<(Seq<char>, nat)>)
    requires
        lines.len() == entries.len(),
        forall|i: int|
            0 <= i < lines.len() ==> text::is_word((#[trigger] entries[i]).0) && entries[i].1
                <= u64::MAX && is_pair_line(lines[i], entries[i].0, entries[i].1),
    ensures
        util::flat_entries(lines) == Ok::<Seq<(Seq<char>, nat)>, Fault>(entries),
    decreases lines.len(),
{
    if lines.len() == 0 {
        assert(entries =~= Seq::<(Seq<char>, nat)>::empty());
    } else {
        let a = lines.drop_last();
        let b = entries.drop_last();
        assert forall|i: int| 0 <= i < a.len() implies text::is_word((#[trigger] b[i]).0) && b[i].1
            <= u64::MAX && is_pair_line(a[i], b[i].0, b[i].1) by {
            assert(b[i] == entries[i]);
        }
        law_entries_are_all_read(a, b);
        let k = entries.len() - 1;
        let e = entries[k];
        assert(is_pair_line(lines[k], e.0, e.1));
        lemma_pair(e.0, e.1);
        text::law_decimal_round_trip(e.1);
        assert(entries =~= b.push(e));
        assert(lines.last() == lines[k]);
    }
}

/// An entry gives the number to the key, and no entry before it has the key.
pub open spec fn is_given(entries: Seq<(Seq<char>, nat)>, key: Seq<char>, n: nat) -> bool {
    exists|i: int|
        0 <= i < entries.len() && #[trigger] entries[i] == (key, n) && forall|j: int|
            0 <= j < i ==> (#[trigger] entries[j]).0 != key
}

/// The first entry of a key counts.
proof fn lemma_given(entries: Seq<(Seq<char>, nat)>, key: Seq<char>, n: nat)
    ensures
        is_given(entries, key, n) ==> util::lookup(entries, key) == n,
    decreases entries.len(),
{
    if is_given(entries, key, n) {
        let i = choose|i: int|
            0 <= i < entries.len() && #[trigger] entries[i] == (key, n) && forall|j: int|
                0 <= j < i ==> (#[trigger] entries[j]).0 != key;
        if i > 0 {
            let rest = entries.skip(1);
            assert(entries[0].0 != key);
            assert(rest[i - 1] == entries[i]);
            assert forall|j: int| 0 <= j < i - 1 implies (#[trigger] rest[j]).0 != key by {
                assert(rest[j] == entries[j + 1]);
            }
            assert(is_given(rest, key, n));
            lemma_given(rest, key, n);
        }
    }
}

/// A key that no entry has counts 0.
pub proof fn law_missing_keys_count_nothing(entries: Seq<(Seq<char>, nat)>, key: Seq<char>)
    requires
        forall|j: int| 0 <= j < entries.len() ==> (#[trigger] entries[j]).0 != key,
    ensures
        util::lookup(entries, key) == 0,
    decreases entries.len(),
{
    if entries.len() > 0 {
        let rest = entries.skip(1);
        assert(entries[0].0 != key);
        assert forall|j: int| 0 <= j < rest.len() implies (#[trigger] rest[j]).0 != key by {
            assert(rest[j] == entries[j + 1]);
        }
        law_missing_keys_count_nothing(rest, key);
    }
}

/// The counters of processor time are the numbers that their own keys are given.
pub proof fn law_processor_counters(s: CpuStat, entries: Seq<(Seq<char>, nat)>, n: nat)
    requires
        s.is_from(entries),
    ensures
        is_given(entries, "usage_usec"@, n) ==> s.usage_usec == n,
        is_given(entries, "user_usec"@, n) ==> s.user_usec == n,
        is_given(entries, "system_usec"@, n) ==> s.system_usec == n,
        is_given(entries, "nr_periods"@, n) ==> s.nr_periods == n,
        is_given(entries, "nr_throttled"@, n) ==> s.nr_throttled == n,
        is_given(entries, "throttled_usec"@, n) ==> s.throttled_usec == n,
{
    lemma_given(entries, "usage_usec"@, n);
    lemma_given(entries, "user_usec"@, n);
    lemma_given(entries, "system_usec"@, n);
    lemma_given(entries, "nr_periods"@, n);
    lemma_given(entries, "nr_throttled"@, n);
    lemma_given(entries, "throttled_usec"@, n);
}

/// The counters of memory are the numbers that their own keys are given.
pub proof fn law_memory_counters(s: MemoryStats, entries: Seq<(Seq<char>, nat)>, n: nat)
    requires
        s.is_from(entries),
    ensures
        is_given(entries, "anon"@, n) ==> s.anon == n,
        is_given(entries, "file"@, n) ==> s.file == n,
        is_given(entries, "kernel"@, n) ==> s.kernel == n,
        is_given(entries, "kernel_stack"@, n) ==> s.kernel_stack == n,
        is_given(entries, "pagetables"@, n) ==> s.pagetables == n,
        is_given(entries, "sec_pagetables"@, n) ==> s.sec_pagetables == n,
        is_given(entries, "shmem"@, n) ==> s.shmem == n,
        is_given(entries, "sock"@, n) ==> s.sock == n,
        is_given(entries, "slab"@, n) ==> s.slab == n,
        is_given(entries, "slab_reclaimable"@, n) ==> s.slab_reclaimable == n,
        is_given(entries, "slab_unreclaimable"@, n) ==> s.slab_unreclaimable == n,
        is_given(entries, "pgfault"@, n) ==> s.pgfault == n,
        is_given(entries, "pgmajfault"@, n) ==> s.pgmajfault == n,
        is_given(entries, "file_mapped"@, n) ==> s.file_mapped == n,
        is_given(entries, "file_dirty"@, n) ==> s.file_dirty == n,
        is_given(entries, "file_writeback"@, n) ==> s.file_writeback == n,
        is_given(entries, "anon_thp"@, n) ==> s.anon_thp == n,
        is_given(entries, "inactive_anon"@, n) ==> s.inactive_anon == n,
        is_given(entries, "active_anon"@, n) ==> s.active_anon == n,
        is_given(entries, "inactive_file"@, n) ==> s.inactive_file == n,
        is_given(entries, "active_file"@, n) ==> s.active_file == n,
        is_given(entries, "unevictable"@, n) ==> s.unevictable == n,
        is_given(entries, "workingset_refault_anon"@, n) ==> s.workingset_refault_anon == n,
        is_given(entries, "workingset_refault_file"@, n) ==> s.workingset_refault_file == n,
        is_given(entries, "workingset_activate_anon"@, n) ==> s.workingset_activate_anon == n,
        is_given(entries, "workingset_activate_file"@, n) ==> s.workingset_activate_file == n,
        is_given(entries, "workingset_nodereclaim"@, n) ==> s.workingset_nodereclaim == n,
        is_given(entries, "pgrefill"@, n) ==> s.pgrefill == n,
        is_given(entries, "pgscan"@, n) ==> s.pgscan == n,
        is_given(entries, "pgsteal"@, n) ==> s.pgsteal == n,
        is_given(entries, "pgactivate"@, n) ==> s.pgactivate == n,
        is_given(entries, "pgdeactivate"@, n) ==> s.pgdeactivate == n,
        is_given(entries, "pglazyfree"@, n) ==> s.pglazyfree == n,
        is_given(entries, "pglazyfreed"@, n) ==> s.pglazyfreed == n,
        is_given(entries, "thp_fault_alloc"@, n) ==> s.thp_fault_alloc == n,
        is_given(entries, "thp_collapse_alloc"@, n) ==> s.thp_collapse_alloc == n,
{
    lemma_given(entries, "anon"@, n);
    lemma_given(entries, "file"@, n);
    lemma_given(entries, "kernel"@, n);
    lemma_given(entries, "kernel_stack"@, n);
    lemma_given(entries, "pagetables"@, n);
    lemma_given(entries, "sec_pagetables"@, n);
    lemma_given(entries, "shmem"@, n);
    lemma_given(entries, "sock"@, n);
    lemma_given(entries, "slab"@, n);
    lemma_given(entries, "slab_reclaimable"@, n);
    lemma_given(entries, "slab_unreclaimable"@, n);
    lemma_given(entries, "pgfault"@, n);
    lemma_given(entries, "pgmajfault"@, n);
    lemma_given(entries, "file_mapped"@, n);
    lemma_given(entries, "file_dirty"@, n);
    lemma_given(entries, "file_writeback"@, n);
    lemma_given(entries, "anon_thp"@, n);
    lemma_given(entries, "inactive_anon"@, n);
    lemma_given(entries, "active_anon"@, n);
    lemma_given(entries, "inactive_file"@, n);
    lemma_given(entries, "active_file"@, n);
    lemma_given(entries, "unevictable"@, n);
    lemma_given(entries, "workingset_refault_anon"@, n);
    lemma_given(entries, "workingset_refault_file"@, n);
    lemma_given(entries, "workingset_activate_anon"@, n);
    lemma_given(entries, "workingset_activate_file"@, n);
    lemma_given(entries, "workingset_nodereclaim"@, n);
    lemma_given(entries, "pgrefill"@, n);
    lemma_given(entries, "pgscan"@, n);
    lemma_given(entries, "pgsteal"@, n);
    lemma_given(entries, "pgactivate"@, n);
    lemma_given(entries, "pgdeactivate"@, n);
    lemma_given(entries, "pglazyfree"@, n);
    lemma_given(entries, "pglazyfreed"@, n);
    lemma_given(entries, "thp_fault_alloc"@, n);
    lemma_given(entries, "thp_collapse_alloc"@, n);
}

/// The counters of memory events are the numbers that their own keys are given.
pub proof fn law_memory_events(s: MemoryEvents, entries: Seq<(Seq<char>, nat)>, n: nat)
    requires
        s.is_from(entries),
    ensures
        is_given(entries, "low"@, n) ==> s.low == n,
        is_given(entries, "high"@, n) ==> s.high == n,
        is_given(entries, "max"@, n) ==> s.max == n,
        is_given(entries, "oom"@, n) ==> s.oom == n,
        is_given(entries, "oom_kill"@, n) ==> s.oom_kill == n,
        is_given(entries, "oom_group_kill"@, n) ==> s.oom_group_kill == n,
{
    lemma_given(entries, "low"@, n);
    lemma_given(entries, "high"@, n);
    lemma_given(entries, "max"@, n);
    lemma_given(entries, "oom"@, n);
    lemma_given(entries, "oom_kill"@, n);
    lemma_given(entries, "oom_group_kill"@, n);
}

// ---------------------------------------------------------------------------
// Processor time
// ---------------------------------------------------------------------------

/// A limit on processor time is read as it stands: the quota, then the period; `max` is no
/// quota, and without a period it is a tenth of a second.
pub proof fn law_cpu_limits_are_read(quota: u64, period: u64)
    ensures
        cpu::cpu_max_of(
            text::decimal_text(quota as nat) + seq![' '] + text::decimal_text(period as nat),
        ) == Ok::<CpuMax, Fault>(CpuMax { quota_usec: Some(quota), period_usec: period }),
        cpu::cpu_max_of("max"@ + seq![' '] + text::decimal_text(period as nat)) == Ok::<
            CpuMax,
            Fault,
        >(CpuMax { quota_usec: None, period_usec: period }),
        (CpuMax { quota_usec: Some(quota), period_usec: period }).text() == text::decimal_text(
            quota as nat,
        ) + seq![' '] + text::decimal_text(period as nat),
{
    reveal_strlit(" ");
    assert(" "@ =~= seq![' ']);
    cpu::law_cpu_max_round_trip(CpuMax { quota_usec: Some(quota), period_usec: period });
    cpu::law_cpu_max_round_trip(CpuMax { quota_usec: None, period_usec: period });
}

// ---------------------------------------------------------------------------
// Block devices
// ---------------------------------------------------------------------------

/// A device is written as its two numbers with a colon between them.
pub proof fn law_devices_are_written(d: DeviceId)
    ensures
        d.text() == text::decimal_text(d.major as nat) + seq![':'] + text::decimal_text(
            d.minor as nat,
        ),
{
    reveal_strlit(":");
    assert(":"@ =~= seq![':']);
}

/// The token gives the number to the key.
pub open spec fn is_token(token: Seq<char>, key: Seq<char>, n: nat) -> bool {
    token == key.push('=') + text::decimal_text(n)
}

/// A token has its key and its value.
proof fn lemma_token_parts(token: Seq<char>, key: Seq<char>, value: Seq<char>)
    requires
        token == key.push('=') + value,
        text::lacks(key, '='),
    ensures
        text::split_once_on(token, '=') == Some((key, value)),
{
    let k = key.len() as int;
    assert(token[k] == '=');
    assert forall|j: int| 0 <= j < k implies token[j] != '=' by {
        assert(token[j] == key[j]);
    }
    text::lemma_find(token, '=', k);
    assert(token.take(k) =~= key);
    assert(token.skip(k + 1) =~= value);
}

/// The names of the counters of a device differ.
proof fn lemma_counter_names()
    ensures
        seq!["rbytes"@, "wbytes"@, "rios"@, "wios"@, "dbytes"@, "dios"@].no_duplicates(),
        text::lacks("rbytes"@, '=') && text::lacks("wbytes"@, '=') && text::lacks("rios"@, '=')
            && text::lacks("wios"@, '=') && text::lacks("dbytes"@, '=') && text::lacks(
            "dios"@,
            '=',
        ),
{
    reveal_strlit("rbytes");
    reveal_strlit("wbytes");
    reveal_strlit("rios");
    reveal_strlit("wios");
    reveal_strlit("dbytes");
    reveal_strlit("dios");
    assert("rbytes"@.len() == 6 && "rbytes"@[0] == 'r');
    assert("wbytes"@.len() == 6 && "wbytes"@[0] == 'w');
    assert("dbytes"@.len() == 6 && "dbytes"@[0] == 'd');
    assert("rios"@.len() == 4 && "rios"@[0] == 'r');
    assert("wios"@.len() == 4 && "wios"@[0] == 'w');
    assert("dios"@.len() == 4 && "dios"@[0] == 'd');
}

/// A token sets the counter of its key to its number, and no other.
pub proof fn law_device_counters(m: IoStat, token: Seq<char>, n: nat)
    requires
        n <= u64::MAX,
    ensures
        is_token(token, "rbytes"@, n) ==> io::with_counter(m, token) == (IoStat {
            rbytes: n as u64,
            ..m
        }),
        is_token(token, "wbytes"@, n) ==> io::with_counter(m, token) == (IoStat {
            wbytes: n as u64,
            ..m
        }),
        is_token(token, "rios"@, n) ==> io::with_counter(m, token) == (IoStat {
            rios: n as u64,
            ..m
        }),
        is_token(token, "wios"@, n) ==> io::with_counter(m, token) == (IoStat {
            wios: n as u64,
            ..m
        }),
        is_token(token, "dbytes"@, n) ==> io::with_counter(m, token) == (IoStat {
            dbytes: n as u64,
            ..m
        }),
        is_token(token, "dios"@, n) ==> io::with_counter(m, token) == (IoStat {
            dios: n as u64,
            ..m
        }),
{
    text::law_decimal_round_trip(n);
    lemma_counter_names();
    let names = seq!["rbytes"@, "wbytes"@, "rios"@, "wios"@, "dbytes"@, "dios"@];
    assert(names[0] == "rbytes"@ && names[1] == "wbytes"@ && names[2] == "rios"@ && names[3]
        == "wios"@ && names[4] == "dbytes"@ && names[5] == "dios"@);
    let value = text::decimal_text(n);
    if is_token(token, "rbytes"@, n) {
        lemma_token_parts(token, "rbytes"@, value);
    }
    if is_token(token, "wbytes"@, n) {
        lemma_token_parts(token, "wbytes"@, value);
    }
    if is_token(token, "rios"@, n) {
        lemma_token_parts(token, "rios"@, value);
    }
    if is_token(token, "wios"@, n) {
        lemma_token_parts(token, "wios"@, value);
    }
    if is_token(token, "dbytes"@, n) {
        lemma_token_parts(token, "dbytes"@, value);
    }
    if is_token(token, "dios"@, n) {
        lemma_token_parts(token, "dios"@, value);
    }
}

/// The counters of a device are those of all tokens of its line: one more token counts too,
/// and without tokens they are 0.
pub proof fn law_tokens_all_count(d: DeviceId, tokens: Seq<Seq<char>>, token: Seq<char>)
    ensures
        io::token_counters(d, Seq::empty()) == (IoStat {
            device: d,
            rbytes: 0,
            wbytes: 0,
            rios: 0,
            wios: 0,
            dbytes: 0,
            dios: 0,
        }),
        io::token_counters(d, tokens.push(token)) == io::with_counter(
            io::token_counters(d, tokens),
            token,
        ),
        io::token_counters(d, tokens).device == d,
    decreases tokens.len(),
{
    assert(tokens.push(token).drop_last() =~= tokens);
    if tokens.len() > 0 {
        law_tokens_all_count(d, tokens.drop_last(), tokens.last());
    }
}

/// Each line of counters is read for the device that it begins with, in the order of the
/// lines.
pub proof fn law_lines_are_read_for_their_device(
    lines: Seq<Seq<char>>,
    devices: Seq<DeviceId>,
    tokens: Seq<Seq<Seq<char>>>,
)
    requires
        lines.len() == devices.len(),
        lines.len() == tokens.len(),
        forall|i: int|
            0 <= i < lines.len() ==> text::words_of(text::trim_of(#[trigger] lines[i])) == seq![
                devices[i].text(),
            ] + tokens[i],
    ensures
        io::line_counters(lines) matches Ok(stats) && stats.len() == lines.len() && forall|i: int|
            0 <= i < lines.len() ==> #[trigger] stats[i] == io::token_counters(
                devices[i],
                tokens[i],
            ),
    decreases lines.len(),
{
    if lines.len() > 0 {
        let a = lines.drop_last();
        let b = devices.drop_last();
        let c = tokens.drop_last();
        assert forall|i: int| 0 <= i < a.len() implies text::words_of(
            text::trim_of(#[trigger] a[i]),
        ) == seq![b[i].text()] + c[i] by {
            assert(a[i] == lines[i]);
        }
        law_lines_are_read_for_their_device(a, b, c);
        let k = lines.len() - 1;
        let w = text::words_of(text::trim_of(lines[k]));
        assert(w == seq![devices[k].text()] + tokens[k]);
        assert(w[0] == devices[k].text());
        assert(w.skip(1) =~= tokens[k]);
        io::law_device_round_trip(devices[k]);
        let stats = io::line_counters(lines)->Ok_0;
        assert(io::line_counters(a) is Ok);
        assert forall|i: int| 0 <= i < lines.len() implies #[trigger] stats[i]
            == io::token_counters(devices[i], tokens[i]) by {
            if i < a.len() {
                assert(stats[i] == io::line_counters(a)->Ok_0[i]);
            }
        }
    }
}

/// The weight that is written is the weight that is read.
pub proof fn law_weights_round_trip(n: nat)
    requires
        n <= u64::MAX,
    ensures
        io::weight_of("default "@ + text::decimal_text(n)) == Ok::<nat, Fault>(n),
        io::weight_of(text::decimal_text(n)) == Ok::<nat, Fault>(n),
{
    text::law_decimal_round_trip(n);
    let p = "default "@;
    let v = text::decimal_text(n);
    reveal_strlit("default ");
    assert(p[0] == 'd');
    assert((p + v).take(p.len() as int) =~= p);
    assert((p + v).skip(p.len() as int) =~= v);
    assert(text::is_digit(v[0]));
    if text::has_prefix(v, p) {
        assert(v.take(p.len() as int)[0] == v[0]);
    }
}

// ---------------------------------------------------------------------------
// Pressure
// ---------------------------------------------------------------------------

/// A token of a line sets the value of its key, and no other.
pub proof fn law_pressure_values(line: Seq<char>, p: Pressure, value: Seq<char>, n: nat)
    requires
        n <= u64::MAX,
        pressure::is_float(value),
    ensures
        pressure::with_token(line, p, "avg10"@.push('=') + value) == Ok::<Pressure, Fault>(
            Pressure { avg10: value, ..p },
        ),
        pressure::with_token(line, p, "avg60"@.push('=') + value) == Ok::<Pressure, Fault>(
            Pressure { avg60: value, ..p },
        ),
        pressure::with_token(line, p, "avg300"@.push('=') + value) == Ok::<Pressure, Fault>(
            Pressure { avg300: value, ..p },
        ),
        pressure::with_token(line, p, "total"@.push('=') + text::decimal_text(n)) == Ok::<
            Pressure,
            Fault,
        >(Pressure { total: n, ..p }),
{
    text::law_decimal_round_trip(n);
    reveal_strlit("avg10");
    reveal_strlit("avg60");
    reveal_strlit("avg300");
    reveal_strlit("total");
    assert("avg10"@.len() == 5 && "avg10"@[3] == '1');
    assert("avg60"@.len() == 5 && "avg60"@[3] == '6');
    assert("avg300"@.len() == 6);
    assert("total"@.len() == 5 && "total"@[3] == 'a');
    assert(text::lacks("avg10"@, '='));
    assert(text::lacks("avg60"@, '='));
    assert(text::lacks("avg300"@, '='));
    assert(text::lacks("total"@, '='));
    lemma_token_parts("avg10"@.push('=') + value, "avg10"@, value);
    lemma_token_parts("avg60"@.push('=') + value, "avg60"@, value);
    lemma_token_parts("avg300"@.push('=') + value, "avg300"@, value);
    lemma_token_parts("total"@.push('=') + text::decimal_text(n), "total"@, text::decimal_text(n));
}

/// A line of pressure is read whole.
pub proof fn law_pressure_lines_are_read(
    line: Seq<char>,
    kind: Seq<char>,
    a: Seq<char>,
    b: Seq<char>,
    c: Seq<char>,
    n: nat,
)
    requires
        n <= u64::MAX,
        pressure::is_float(a),
        pressure::is_float(b),
        pressure::is_float(c),
        text::words_of(line) == seq![
            kind,
            "avg10"@.push('=') + a,
            "avg60"@.push('=') + b,
            "avg300"@.push('=') + c,
            "total"@.push('=') + text::decimal_text(n),
        ],
    ensures
        pressure::pressure_line(line) == Ok::<(Seq<char>, Pressure), Fault>(
            (kind, Pressure { avg10: a, avg60: b, avg300: c, total: n }),
        ),
{
    let p0 = pressure::no_pressure();
    let p1 = Pressure { avg10: a, ..p0 };
    let p2 = Pressure { avg60: b, ..p1 };
    let p3 = Pressure { avg300: c, ..p2 };
    let p4 = Pressure { total: n, ..p3 };
    let t1 = "avg10"@.push('=') + a;
    let t2 = "avg60"@.push('=') + b;
    let t3 = "avg300"@.push('=') + c;
    let t4 = "total"@.push('=') + text::decimal_text(n);
    assert(pressure::with_token(line, p0, t1) == Ok::<Pressure, Fault>(p1)) by {
        law_pressure_values(line, p0, a, n);
    }
    assert(pressure::with_token(line, p1, t2) == Ok::<Pressure, Fault>(p2)) by {
        law_pressure_values(line, p1, b, n);
    }
    assert(pressure::with_token(line, p2, t3) == Ok::<Pressure, Fault>(p3)) by {
        law_pressure_values(line, p2, c, n);
    }
    assert(pressure::with_token(line, p3, t4) == Ok::<Pressure, Fault>(p4)) by {
        law_pressure_values(line, p3, c, n);
    }
    lemma_four_tokens(line, kind, p1, p2, p3, p4, t1, t2, t3, t4);
}

/// A line of four tokens is read token by token.
proof fn lemma_four_tokens(
    line: Seq<char>,
    kind: Seq<char>,
    p1: Pressure,
    p2: Pressure,
    p3: Pressure,
    p4: Pressure,
    t1: Seq<char>,
    t2: Seq<char>,
    t3: Seq<char>,
    t4: Seq<char>,
)
    requires
        text::words_of(line) == seq![kind, t1, t2, t3, t4],
        pressure::with_token(line, pressure::no_pressure(), t1) == Ok::<Pressure, Fault>(p1),
        pressure::with_token(line, p1, t2) == Ok::<Pressure, Fault>(p2),
        pressure::with_token(line, p2, t3) == Ok::<Pressure, Fault>(p3),
        pressure::with_token(line, p3, t4) == Ok::<Pressure, Fault>(p4),
    ensures
        pressure::pressure_line(line) == Ok::<(Seq<char>, Pressure), Fault>((kind, p4)),
{
    let none = Seq::<Seq<char>>::empty();
    let s1 = seq![t4] + none;
    let s2 = seq![t3] + s1;
    let s3 = seq![t2] + s2;
    let s4 = seq![t1] + s3;
    lemma_record_step(line, p3, p4, t4, none, p4);
    lemma_record_step(line, p2, p3, t3, s1, p4);
    lemma_record_step(line, p1, p2, t2, s2, p4);
    lemma_record_step(line, pressure::no_pressure(), p1, t1, s3, p4);
    assert(seq![kind, t1, t2, t3, t4].skip(1) =~= s4);
}

/// One token more in front of a line.
proof fn lemma_record_step(
    line: Seq<char>,
    p: Pressure,
    q: Pressure,
    token: Seq<char>,
    rest: Seq<Seq<char>>,
    end: Pressure,
)
    requires
        pressure::with_token(line, p, token) == Ok::<Pressure, Fault>(q),
        rest.len() == 0 ==> q == end,
        rest.len() > 0 ==> pressure::token_record(line, q, rest) == Ok::<Pressure, Fault>(end),
    ensures
        pressure::token_record(line, p, seq![token] + rest) == Ok::<Pressure, Fault>(end),
{
    let all = seq![token] + rest;
    assert(all[0] == token);
    assert(all.skip(1) =~= rest);
    reveal_with_fuel(pressure::token_record, 2);
}

/// The pressure that is read is that of the line for some processes and of the line for all;
/// without the first there is none.
pub proof fn law_pressure_is_of_its_lines(some: Seq<char>, full: Seq<char>, p: Pressure, q: Pressure)
    requires
        text::trim_of(some).len() > 0,
        text::trim_of(full).len() > 0,
        pressure::pressure_line(text::trim_of(some)) == Ok::<(Seq<char>, Pressure), Fault>(
            ("some"@, p),
        ),
        pressure::pressure_line(text::trim_of(full)) == Ok::<(Seq<char>, Pressure), Fault>(
            ("full"@, q),
        ),
    ensures
        pressure::pressure_lines((None, None), seq![some, full]) == Ok::<
            (Option<Pressure>, Option<Pressure>),
            Fault,
        >((Some(p), Some(q))),
        pressure::pressure_lines((None, None), seq![some]) == Ok::<
            (Option<Pressure>, Option<Pressure>),
            Fault,
        >((Some(p), None)),
        pressure::pressure_lines((None, None), seq![full]) == Ok::<
            (Option<Pressure>, Option<Pressure>),
            Fault,
        >((None, Some(q))),
{
    reveal_strlit("some");
    reveal_strlit("full");
    assert("some"@[0] != "full"@[0]);
    reveal_with_fuel(pressure::pressure_lines, 4);
    assert(seq![some, full].skip(1) =~= seq![full]);
    assert(seq![full].skip(1) =~= Seq::<Seq<char>>::empty());
    assert(seq![some].skip(1) =~= Seq::<Seq<char>>::empty());
}

// ---------------------------------------------------------------------------
// Freezing
// ---------------------------------------------------------------------------

/// A line says whether an event holds.
proof fn lemma_event(name: Seq<char>, digit: Seq<char>)
    requires
        text::is_word(name),
        digit == seq!['1'] || digit == seq!['0'],
    ensures
        freezer::event_value(name.push(' ') + digit, name.push(' ')) == Some(digit == seq!['1']),
{
    let p = name.push(' ');
    let line = p + digit;
    assert(line[0] == name[0] && !text::is_space(name[0]));
    assert(line.last() == digit[0]);
    lemma_nothing_to_trim(line);
    lemma_nothing_to_trim(digit);
    assert(line.take(p.len() as int) =~= p);
    assert(line.skip(p.len() as int) =~= digit);
    reveal_strlit("1");
    assert("1"@ =~= seq!['1']);
    assert(digit == seq!['0'] ==> digit[0] != seq!['1'][0]);
}

/// Lines of one kind are not of the other.
proof fn lemma_other_event(digit: Seq<char>)
    requires
        digit == seq!['1'] || digit == seq!['0'],
    ensures
        freezer::event_value("frozen "@ + digit, "populated "@) is None,
        freezer::event_value("populated "@ + digit, "frozen "@) is None,
        freezer::event_value("frozen "@ + digit, "frozen "@) == Some(digit == seq!['1']),
        freezer::event_value("populated "@ + digit, "populated "@) == Some(digit == seq!['1']),
{
    reveal_strlit("frozen ");
    reveal_strlit("populated ");
    reveal_strlit("frozen");
    reveal_strlit("populated");
    assert("frozen "@ =~= "frozen"@.push(' '));
    assert("populated "@ =~= "populated"@.push(' '));
    assert(text::is_word("frozen"@));
    assert(text::is_word("populated"@));
    lemma_event("frozen"@, digit);
    lemma_event("populated"@, digit);
    let a = "frozen "@ + digit;
    let b = "populated "@ + digit;
    assert(a[0] == 'f' && b[0] == 'p');
    assert(a.last() == digit[0] && b.last() == digit[0]);
    lemma_nothing_to_trim(a);
    lemma_nothing_to_trim(b);
    assert("frozen "@[0] == 'f' && "populated "@[0] == 'p');
    if text::has_prefix(a, "populated "@) {
        assert(a.take("populated "@.len() as int)[0] == a[0]);
    }
    if text::has_prefix(b, "frozen "@) {
        assert(b.take("frozen "@.len() as int)[0] == b[0]);
    }
}

/// Whether a cgroup is frozen is what the line on it says, whatever the others say; and so
/// is whether it has processes.
pub proof fn law_events_are_read(populated: bool, frozen: bool)
    ensures
        ({
            let a = "populated "@ + if populated {
                seq!['1']
            } else {
                seq!['0']
            };
            let b = "frozen "@ + if frozen {
                seq!['1']
            } else {
                seq!['0']
            };
            &&& freezer::frozen_in(seq![a, b]) == frozen
            &&& freezer::frozen_in(seq![b, a]) == frozen
            &&& manager::events_in(seq![a, b]) == (CgroupEvents { populated, frozen })
            &&& manager::events_in(seq![b, a]) == (CgroupEvents { populated, frozen })
            &&& !freezer::frozen_in(seq![a])
        }),
{
    let x = if populated {
        seq!['1']
    } else {
        seq!['0']
    };
    let y = if frozen {
        seq!['1']
    } else {
        seq!['0']
    };
    assert(seq!['0'][0] != seq!['1'][0]);
    lemma_other_event(x);
    lemma_other_event(y);
    let a = "populated "@ + x;
    let b = "frozen "@ + y;
    reveal_with_fuel(freezer::frozen_in, 4);
    reveal_with_fuel(manager::events_in, 4);
    assert(seq![a, b].skip(1) =~= seq![b]);
    assert(seq![b, a].skip(1) =~= seq![a]);
    assert(seq![a].skip(1) =~= Seq::<Seq<char>>::empty());
    assert(seq![b].skip(1) =~= Seq::<Seq<char>>::empty());
    assert(seq![a, b].drop_last() =~= seq![a]);
    assert(seq![b, a].drop_last() =~= seq![b]);
    assert(seq![a].drop_last() =~= Seq::<Seq<char>>::empty());
    assert(seq![b].drop_last() =~= Seq::<Seq<char>>::empty());
}

/// The controllers that are enabled are those of the needed ones that the system offers.
pub proof fn law_offered_controllers_are_enabled(available: Seq<Seq<char>>, c: Seq<char>)
    ensures
        manager::offered(available, 5).contains(c) <==> available.contains(c) && (c == "cpu"@ || c
            == "memory"@ || c == "io"@ || c == "pids"@ || c == "cpuset"@),
{
    let d = manager::delegated_controllers();
    assert(d[0] == "cpu"@ && d[1] == "memory"@ && d[2] == "io"@ && d[3] == "pids"@ && d[4]
        == "cpuset"@);
    lemma_offered(available, c, 5);
    assert(d.take(5) =~= d);
    if d.contains(c) {
        let i = choose|i: int| 0 <= i < d.len() && d[i] == c;
        assert(i == 0 || i == 1 || i == 2 || i == 3 || i == 4);
    }
    if c == "cpu"@ || c == "memory"@ || c == "io"@ || c == "pids"@ || c == "cpuset"@ {
        assert(d.contains(c)) by {
            if c == "cpu"@ {
                assert(d[0] == c);
            } else if c == "memory"@ {
                assert(d[1] == c);
            } else if c == "io"@ {
                assert(d[2] == c);
            } else if c == "pids"@ {
                assert(d[3] == c);
            } else {
                assert(d[4] == c);
            }
        }
    }
}

/// The controllers among the first ones that the system offers.
proof fn lemma_offered(available: Seq<Seq<char>>, c: Seq<char>, n: nat)
    requires
        n <= 5,
    ensures
        manager::offered(available, n).contains(c) <==> available.contains(c)
            && manager::delegated_controllers().take(n as int).contains(c),
    decreases n,
{
    let d = manager::delegated_controllers();
    if n == 0 {
        assert(d.take(0).len() == 0);
    } else {
        lemma_offered(available, c, (n - 1) as nat);
        let before = manager::offered(available, (n - 1) as nat);
        let all = manager::offered(available, n);
        let x = d[n - 1];
        assert(d.take(n as int) =~= d.take(n - 1).push(x));
        text::lemma_push_set(d.take(n - 1), x, c);
        text::lemma_push_set(before, x, c);
        assert(d.take(n as int).to_set().contains(c) == d.take(n as int).contains(c));
        assert(d.take(n - 1).to_set().contains(c) == d.take(n - 1).contains(c));
        assert(before.push(x).to_set().contains(c) == before.push(x).contains(c));
        assert(before.to_set().contains(c) == before.contains(c));
        if !available.contains(x) {
            assert(all == before);
        }
    }
}

// ---------------------------------------------------------------------------
// Getters and setters
// ---------------------------------------------------------------------------

/// A write goes to the file of its name below the cgroup, and carries its value.
pub proof fn law_writes_go_to_their_file(
    w: FileWrite,
    base: Seq<char>,
    name: Seq<char>,
    value: Seq<char>,
)
    requires
        w.is(base, name, value),
    ensures
        w.path@ == util::path_join(base, name),
        w.value@ == value,
{
}

/// A getter asks for its own file first; what could not be read is an error that names the
/// file.
pub proof fn law_getters_ask_for_their_file<T>(
    r: Reading<T>,
    path: Seq<char>,
    outcome: Option<Result<String, String>>,
    answers: spec_fn(Seq<char>, Result<T, CgroupError>) -> bool,
)
    requires
        util::reads(r, path, outcome, answers),
    ensures
        outcome is None ==> (r matches Reading::Need(p) && p@ == path),
        outcome matches Some(Err(source)) ==> (r matches Reading::Done(
            Err(CgroupError::ReadFailed { path: p, source: s }),
        ) && p@ == path && s@ == source@),
        outcome matches Some(Ok(content)) ==> (r matches Reading::Done(d) && answers(
            text::trim_of(content@),
            d,
        )),
{
}

/// A number that a file holds is what its getter answers, and so is a limit; `max` is the
/// largest number.
pub proof fn law_numbers_are_answered(
    r: Reading<u64>,
    base: Seq<char>,
    name: Seq<char>,
    content: String,
    n: u64,
)
    ensures
        util::reads_number(r, base, name, Some(Ok(content))) && content@ == text::decimal_text(
            n as nat,
        ).push('\n') ==> r == Reading::Done(Ok::<u64, CgroupError>(n)),
        util::reads_limit(r, base, name, Some(Ok(content))) && content@ == text::decimal_text(
            n as nat,
        ).push('\n') ==> r == Reading::Done(Ok::<u64, CgroupError>(n)),
        util::reads_limit(r, base, name, Some(Ok(content))) && content@ == "max"@.push('\n') ==> r
            == Reading::Done(Ok::<u64, CgroupError>(u64::MAX)),
        util::reads_number(r, base, name, None) || util::reads_limit(r, base, name, None) ==> (
        r matches Reading::Need(p) && p@ == util::path_join(base, name)),
{
    text::lemma_trimmed_number(n as nat);
    text::law_decimal_round_trip(n as nat);
    reveal_strlit("max");
    lemma_nothing_to_trim("max"@);
    let none = Seq::<char>::empty();
    let nl = seq!['\n'];
    assert(text_laws::is_blank(none));
    assert(text_laws::is_blank(nl));
    assert("max"@[0] == 'm' && "max"@.last() == 'x');
    text_laws::law_trimming(none, "max"@, nl);
    assert(none + "max"@ + nl =~= "max"@.push('\n'));
    law_numbers_are_read(n as nat, none);
}

/// What is read is what the file says; what is wrong with it is told with the file's name.
pub proof fn law_readings_agree(
    path: Seq<char>,
    n: Result<u64, CgroupError>,
    sn: Result<nat, Fault>,
    m: Result<CpuMax, CgroupError>,
    sm: Result<CpuMax, Fault>,
    l: Result<Option<IoMax>, CgroupError>,
    sl: Result<Option<IoMax>, Fault>,
    c: Result<Vec<IoStat>, CgroupError>,
    sc: Result<Seq<IoStat>, Fault>,
)
    ensures
        util::agrees_u64(n, path, sn) ==> (n is Ok <==> sn is Ok) && (n matches Ok(v) ==> v
            == sn->Ok_0) && (n matches Err(e) ==> (e matches CgroupError::ParseError {
            path: p,
            content,
            detail,
        } && p@ == path && content@ == sn->Err_0.content && detail@ == sn->Err_0.detail)),
        cpu::agrees_cpu_max(m, path, sm) ==> (m is Ok <==> sm is Ok) && (m matches Ok(v) ==> v
            == sm->Ok_0),
        io::agrees_limits(l, path, sl) ==> (l is Ok <==> sl is Ok) && (l matches Ok(v) ==> v
            == sl->Ok_0),
        io::agrees_counters(c, path, sc) ==> (c is Ok <==> sc is Ok) && (c matches Ok(v) ==> v@
            == sc->Ok_0),
{
}

/// The ids that are read are those of the file, in ascending order.
pub proof fn law_sets_agree(
    path: Seq<char>,
    r: Result<Vec<u32>, CgroupError>,
    s: Result<Set<u32>, Fault>,
    id: u32,
    i: int,
    j: int,
)
    requires
        cpuset::agrees_set(r, path, s),
    ensures
        r is Ok <==> s is Ok,
        r matches Ok(v) ==> (v@.contains(id) <==> s->Ok_0.contains(id)) && (0 <= i < j < v@.len()
            ==> v@[i] < v@[j]),
{
    if let Ok(v) = r {
        assert(v@.to_set().contains(id) == v@.contains(id));
    }
}

/// A value that may not be written is told, with what may be.
pub proof fn law_wrong_values_are_told(
    e: CgroupError,
    field: Seq<char>,
    value: Seq<char>,
    expected: Seq<char>,
)
    requires
        e.is_invalid(field, value, expected),
    ensures
        e matches CgroupError::InvalidValue { field: f, value: v, expected: x } && f@ == field && v@
            == value && x@ == expected,
{
}

/// Each controller is enabled by a write of its own, in the file of the cgroup for that.
pub proof fn law_controllers_are_enabled(
    writes: Seq<FileWrite>,
    root: Seq<char>,
    controllers: Seq<Seq<char>>,
    i: int,
)
    requires
        manager::delegation(writes, root, controllers),
    ensures
        writes.len() == controllers.len(),
        0 <= i < writes.len() ==> writes[i].path@ == util::path_join(
            root,
            "cgroup.subtree_control"@,
        ) && writes[i].value@ == seq!['+'] + controllers[i],
{
    reveal_strlit("+");
    assert("+"@ =~= seq!['+']);
    if 0 <= i < writes.len() {
        assert(manager::enables(writes[i], root, controllers[i]));
    }
}

/// A cgroup is opened where it is, and only there.
pub proof fn law_cgroups_are_opened(
    r: Result<manager::CgroupManager, CgroupError>,
    path: Seq<char>,
    exists: bool,
)
    requires
        manager::CgroupManager::opens(r, path, exists),
    ensures
        r is Ok <==> exists,
        r matches Ok(m) ==> m.path.0@ == path,
        r matches Err(e) ==> (e matches CgroupError::NotFound(p) && p@ == path),
{
}

/// Each virtual machine has a cgroup of its own, below the slice for all of them.
pub proof fn law_machines_have_their_cgroup(id: Seq<char>)
    requires
        id.len() > 0,
        id[0] != '/',
    ensures
        util::path_join(manager::fluxvm_slice(), id + ".scope"@) == "/sys/fs/cgroup/fluxvm.slice/"@
            + id + ".scope"@,
        text::has_prefix(manager::fluxvm_slice(), manager::cgroup2_root()),
{
    reveal_strlit("/sys/fs/cgroup/fluxvm.slice/");
    reveal_strlit("/sys/fs/cgroup/fluxvm.slice");
    reveal_strlit("/sys/fs/cgroup");
    reveal_strlit("/");
    let s = manager::fluxvm_slice();
    assert(s.last() == 'e');
    assert("/sys/fs/cgroup/fluxvm.slice/"@ =~= s + "/"@);
    let name = id + ".scope"@;
    assert(name[0] == id[0]);
    assert(util::path_join(s, name) =~= "/sys/fs/cgroup/fluxvm.slice/"@ + id + ".scope"@);
    assert(s.take(14) =~= "/sys/fs/cgroup"@);
}

/// The pressure of a file is that of its two lines.
pub proof fn law_pressure_files_are_read(
    content: Seq<char>,
    some: Seq<char>,
    full: Seq<char>,
    p: Pressure,
    q: Pressure,
)
    requires
        text::trim_of(some).len() > 0,
        text::trim_of(full).len() > 0,
        pressure::pressure_line(text::trim_of(some)) == Ok::<(Seq<char>, Pressure), Fault>(
            ("some"@, p),
        ),
        pressure::pressure_line(text::trim_of(full)) == Ok::<(Seq<char>, Pressure), Fault>(
            ("full"@, q),
        ),
    ensures
        text::lines_of(content) == seq![some, full] ==> pressure::pressure_of(content) == Ok::<
            (Pressure, Option<Pressure>),
            Fault,
        >((p, Some(q))),
        text::lines_of(content) == seq![some] ==> pressure::pressure_of(content) == Ok::<
            (Pressure, Option<Pressure>),
            Fault,
        >((p, None)),
        text::lines_of(content) == seq![full] ==> pressure::pressure_of(content) is Err,
{
    law_pressure_is_of_its_lines(some, full, p, q);
}

/// The entries of a keyed file are those of its lines.
pub proof fn law_keyed_files_are_read(
    lines: Seq<Seq<char>>,
    entries: Seq<(Seq<char>, nat)>,
)
    requires
        lines.len() > 0,
        lines.len() == entries.len(),
        forall|i: int|
            0 <= i < lines.len() ==> text::is_word((#[trigger] entries[i]).0) && entries[i].1
                <= u64::MAX && is_pair_line(lines[i], entries[i].0, entries[i].1),
    ensures
        util::flat_keyed(text::joined(lines, seq!['\n'])) == Ok::<Seq<(Seq<char>, nat)>, Fault>(
            entries,
        ),
{
    assert forall|i: int| 0 <= i < lines.len() implies text::lacks(#[trigger] lines[i], '\n') && (
    lines[i].len() > 0 ==> lines[i].last() != '\r') by {
        let e = entries[i];
        assert(text::is_word(e.0) && is_pair_line(lines[i], e.0, e.1));
        text::law_decimal_round_trip(e.1);
        let v = text::decimal_text(e.1);
        assert forall|k: int| 0 <= k < lines[i].len() implies lines[i][k] != '\n' by {
            if k < e.0.len() {
                assert(lines[i][k] == e.0[k]);
                assert(!text::is_space(e.0[k]));
            } else if k > e.0.len() {
                assert(lines[i][k] == v[k - e.0.len() - 1]);
                assert(text::is_digit(v[k - e.0.len() - 1]));
            }
        }
        assert(lines[i].last() == v.last());
        assert(text::is_digit(v.last()));
    }
    let last = lines.len() - 1;
    assert(entries[last].1 <= u64::MAX);
    assert(is_pair_line(lines[last], entries[last].0, entries[last].1));
    assert(lines.last().len() > 0);
    text_laws::law_lines_are_all_read(lines);
    law_entries_are_all_read(lines, entries);
}

/// The ids that a file holds are those that its getter answers.
pub proof fn law_sets_are_answered(
    r: Reading<Vec<u32>>,
    base: Seq<char>,
    name: Seq<char>,
    content: String,
)
    requires
        cpuset::reads_set(r, base, name, Some(Ok(content))),
    ensures
        r matches Reading::Done(d) && cpuset::agrees_set(
            d,
            util::path_join(base, name),
            cpuset::set_ids(text::trim_of(content@)),
        ),
{
}

/// The pressure that a file holds is what its getter answers.
pub proof fn law_pressure_is_answered(
    r: Reading<pressure::PressureStats>,
    base: Seq<char>,
    name: Seq<char>,
    content: String,
    p: Pressure,
    q: Option<Pressure>,
)
    requires
        pressure::reads_pressure(r, base, name, Some(Ok(content))),
        pressure::pressure_of(text::trim_of(content@)) == Ok::<(Pressure, Option<Pressure>), Fault>(
            (p, q),
        ),
    ensures
        r matches Reading::Done(Ok(v)) && v.some.view() == p && (q is Some <==> v.full is Some) && (
        v.full matches Some(f) ==> q == Some(f.view())),
{
}

/// The entries that are read are those of the file, one by one.
pub proof fn law_entries_agree(
    r: Result<Vec<(String, u64)>, CgroupError>,
    path: Seq<char>,
    s: Result<Seq<(Seq<char>, nat)>, Fault>,
    i: int,
)
    requires
        util::agrees_flat(r, path, s),
    ensures
        r is Ok <==> s is Ok,
        r matches Ok(v) ==> v@.len() == s->Ok_0.len() && (0 <= i < v@.len() ==> s->Ok_0[i].0
            == v@[i].0@ && s->Ok_0[i].1 == v@[i].1),
{
    if let Ok(v) = r {
        if 0 <= i < v@.len() {
            assert(util::entries_view(v@)[i] == (v@[i].0@, v@[i].1 as nat));
        }
    }
}

/// A CPU limit without a period is over a tenth of a second.
pub proof fn law_usual_period(quota: u64)
    ensures
        cpu::cpu_max_of(text::decimal_text(quota as nat)) == Ok::<CpuMax, Fault>(
            CpuMax { quota_usec: Some(quota), period_usec: 100_000 },
        ),
        cpu::cpu_max_of("max"@) == Ok::<CpuMax, Fault>(
            CpuMax { quota_usec: None, period_usec: 100_000 },
        ),
{
    let d = text::decimal_text(quota as nat);
    text::law_decimal_round_trip(quota as nat);
    text::law_decimal_round_trip(100_000);
    text::lemma_word_of_digits(d);
    reveal_strlit("max");
    assert(text::is_word("max"@));
    text_laws::law_words_are_all_read(seq![d]);
    text_laws::law_words_are_all_read(seq!["max"@]);
    assert(text::joined(seq![d], seq![' ']) =~= d);
    assert(text::joined(seq!["max"@], seq![' ']) =~= "max"@);
    assert(text::decimal_text(100_000) =~= "100000"@) by {
        reveal_strlit("100000");
        reveal_with_fuel(text::decimal_text, 7);
    }
    assert(d != "max"@) by {
        assert(text::is_digit(d[0]));
    }
}

/// Whether a cgroup is frozen is what the first line on that says; without one it is not.
pub proof fn law_the_first_line_tells(lines: Seq<Seq<char>>, i: int)
    requires
        0 <= i <= lines.len(),
        forall|k: int| 0 <= k < i ==> freezer::event_value(#[trigger] lines[k], "frozen "@) is None,
    ensures
        i < lines.len() ==> (freezer::event_value(lines[i], "frozen "@) matches Some(b)
            ==> freezer::frozen_in(lines) == b),
        i == lines.len() ==> !freezer::frozen_in(lines),
    decreases i,
{
    if i > 0 {
        let rest = lines.skip(1);
        assert(freezer::event_value(lines[0], "frozen "@) is None);
        assert forall|k: int| 0 <= k < i - 1 implies freezer::event_value(
            #[trigger] rest[k],
            "frozen "@,
        ) is None by {
            assert(rest[k] == lines[k + 1]);
        }
        law_the_first_line_tells(rest, i - 1);
        if i < lines.len() {
            assert(rest[i - 1] == lines[i]);
        }
    }
}

} // verus!
