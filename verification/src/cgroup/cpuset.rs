//! The processors and memory nodes that a cgroup may use.

use vstd::prelude::*;

use crate::cgroup::error::{CgroupError, Fault};
use crate::cgroup::util;
use crate::cgroup::util::{join, parse_error, read_cgroup_file, FileWrite, Reading};
use crate::text;
use crate::text::{cat, debug_quoted, parse_u32, push_decimal, split, split_once, trim};

verus! {

/// Each id is larger than the one before it.
pub open spec fn ascending(ids: Seq<u32>) -> bool {
    forall|i: int, j: int| 0 <= i < j < ids.len() ==> ids[i] < ids[j]
}

/// The ids of a set in ascending order.
pub open spec fn in_order(s: Set<u32>) -> Seq<u32> {
    choose|ids: Seq<u32>| ascending(ids) && ids.to_set() == s
}

/// There is only one way to write a set in ascending order.
pub proof fn lemma_ascending_unique(a: Seq<u32>, b: Seq<u32>)
    requires
        ascending(a),
        ascending(b),
        a.to_set() == b.to_set(),
    ensures
        a == b,
    decreases a.len(),
{
    if a.len() == 0 {
        if b.len() > 0 {
            assert(b.to_set().contains(b[0]));
            assert(a.to_set().contains(b[0]));
        }
        assert(a =~= b);
    } else {
        assert(a.to_set().contains(a.last()));
        assert(b.to_set().contains(a.last()));
        assert(b.len() > 0);
        assert(b.to_set().contains(b.last()));
        assert(a.to_set().contains(b.last()));
        assert(a.contains(b.last()));
        assert(b.contains(a.last()));
        assert(a.last() == b.last());
        let x = a.drop_last();
        let y = b.drop_last();
        assert forall|v: u32| x.to_set().contains(v) == y.to_set().contains(v) by {
            if x.to_set().contains(v) {
                let i = choose|i: int| 0 <= i < x.len() && x[i] == v;
                assert(a[i] == v);
                assert(a.to_set().contains(v));
                assert(b.to_set().contains(v));
                let j = choose|j: int| 0 <= j < b.len() && b[j] == v;
                assert(j < b.len() - 1);
                assert(y[j] == v);
            }
            if y.to_set().contains(v) {
                let i = choose|i: int| 0 <= i < y.len() && y[i] == v;
                assert(b[i] == v);
                assert(b.to_set().contains(v));
                assert(a.to_set().contains(v));
                let j = choose|j: int| 0 <= j < a.len() && a[j] == v;
                assert(j < a.len() - 1);
                assert(x[j] == v);
            }
        }
        assert(x.to_set() =~= y.to_set());
        lemma_ascending_unique(x, y);
        assert(a =~= x.push(a.last()));
        assert(b =~= y.push(b.last()));
    }
}

/// An ascending sequence is the ordered form of its set.
pub proof fn lemma_in_order(ids: Seq<u32>)
    requires
        ascending(ids),
    ensures
        in_order(ids.to_set()) == ids,
{
    let s = ids.to_set();
    let q = in_order(s);
    assert(ascending(q) && q.to_set() == s);
    lemma_ascending_unique(q, ids);
}

/// The ids from `start` to `end`, both included.
pub open spec fn id_range(start: nat, end: nat) -> Set<u32> {
    Set::new(|id: u32| start <= id <= end)
}

/// The ids that one part of a set text names: one id, or a range `a-b`.
pub open spec fn part_ids(part: Seq<char>) -> Result<Set<u32>, Seq<char>> {
    match text::split_once_on(part, '-') {
        Some((a, b)) => match (
            text::unsigned_value(text::trim_of(a), u32::MAX as nat),
            text::unsigned_value(text::trim_of(b), u32::MAX as nat),
        ) {
            (None, _) => Err("invalid range start: "@ + text::debug_text(a)),
            (_, None) => Err("invalid range end: "@ + text::debug_text(b)),
            (Some(start), Some(end)) => Ok(id_range(start, end)),
        },
        None => match text::unsigned_value(part, u32::MAX as nat) {
            None => Err("invalid cpu/mem id: "@ + text::debug_text(part)),
            Some(id) => Ok(id_range(id, id)),
        },
    }
}

/// The ids that the parts name together, or what is wrong with the first bad
/// part. Blank parts name nothing.
pub open spec fn parts_ids(parts: Seq<Seq<char>>) -> Result<Set<u32>, Seq<char>>
    decreases parts.len(),
{
    if parts.len() == 0 {
        Ok(Set::empty())
    } else {
        match parts_ids(parts.drop_last()) {
            Err(d) => Err(d),
            Ok(ids) => {
                let part = text::trim_of(parts.last());
                if part.len() == 0 {
                    Ok(ids)
                } else {
                    match part_ids(part) {
                        Err(d) => Err(d),
                        Ok(more) => Ok(ids.union(more)),
                    }
                }
            },
        }
    }
}

/// The ids that a set text like `0-3,8,10-12` names.
pub open spec fn set_ids(content: Seq<char>) -> Result<Set<u32>, Fault> {
    let t = text::trim_of(content);
    if t.len() == 0 {
        Ok(Set::empty())
    } else {
        match parts_ids(text::split_on(t, ',')) {
            Ok(ids) => Ok(ids),
            Err(detail) => Err(Fault { content, detail }),
        }
    }
}

/// The executable result `r` is what the specification `s` says.
pub open spec fn agrees_set(
    r: Result<Vec<u32>, CgroupError>,
    path: Seq<char>,
    s: Result<Set<u32>, Fault>,
) -> bool {
    match (r, s) {
        (Ok(v), Ok(ids)) => ascending(v@) && v@.to_set() == ids,
        (Err(e), Err(f)) => e.is_fault(path, f),
        _ => false,
    }
}

/// A bad part spoils every longer list of parts.
proof fn lemma_parts_fault(parts: Seq<Seq<char>>, k: int)
    requires
        0 <= k <= parts.len(),
        parts_ids(parts.take(k)) is Err,
    ensures
        parts_ids(parts) == parts_ids(parts.take(k)),
    decreases parts.len() - k,
{
    if k == parts.len() {
        assert(parts.take(k) =~= parts);
    } else {
        assert(parts.take(k + 1).drop_last() =~= parts.take(k));
        lemma_parts_fault(parts, k + 1);
    }
}

/// Adds `id` to an ascending list, unless it is there already.
fn insert_id(ids: &mut Vec<u32>, id: u32)
    requires
        ascending(old(ids)@),
    ensures
        ascending(final(ids)@),
        final(ids)@.to_set() == old(ids)@.to_set().insert(id),
{
    let mut i: usize = ids.len();
    while i > 0 && ids[i - 1] > id
        invariant
            i <= ids.len(),
            ids@ == old(ids)@,
            ascending(ids@),
            forall|j: int| i <= j < ids.len() ==> ids[j] > id,
        decreases i,
    {
        i -= 1;
    }
    let ghost before = ids@;
    if i > 0 && ids[i - 1] == id {
        proof {
            assert(before[i - 1] == id);
            assert(before.to_set().contains(id));
            assert(before.to_set().insert(id) =~= before.to_set());
        }
        return;
    }
    ids.insert(i, id);
    proof {
        let after = ids@;
        assert forall|v: u32| after.to_set().contains(v) == before.to_set().insert(id).contains(v) by {
            if after.to_set().contains(v) {
                let j = choose|j: int| 0 <= j < after.len() && after[j] == v;
                if j < i {
                    assert(before[j] == v);
                } else if j > i {
                    assert(before[j - 1] == v);
                }
            }
            if before.to_set().contains(v) {
                let j = choose|j: int| 0 <= j < before.len() && before[j] == v;
                if j < i {
                    assert(after[j] == v);
                } else {
                    assert(after[j + 1] == v);
                }
            }
            if v == id {
                assert(after[i as int] == v);
            }
        }
        assert(after.to_set() =~= before.to_set().insert(id));
    }
}

/// Adds the ids from `start` to `end` to an ascending list.
fn insert_range(ids: &mut Vec<u32>, start: u32, end: u32)
    requires
        ascending(old(ids)@),
    ensures
        ascending(final(ids)@),
        final(ids)@.to_set() == old(ids)@.to_set().union(id_range(start as nat, end as nat)),
{
    let mut next: u64 = start as u64;
    proof {
        assert(ids@.to_set() =~= old(ids)@.to_set().union(
            Set::new(|id: u32| start <= id < next),
        ));
    }
    while next <= end as u64
        invariant
            start <= next,
            next <= end + 1 || next == start,
            ascending(ids@),
            ids@.to_set() == old(ids)@.to_set().union(Set::new(|id: u32| start <= id < next)),
        decreases end + 1 - next,
    {
        insert_id(ids, next as u32);
        proof {
            assert(ids@.to_set() =~= old(ids)@.to_set().union(
                Set::new(|id: u32| start <= id < next + 1),
            ));
        }
        next += 1;
    }
    proof {
        assert(ids@.to_set() =~= old(ids)@.to_set().union(id_range(start as nat, end as nat)));
    }
}

/// Parses a set text like `0-3,8,10-12` into its ids in ascending order.
pub fn parse_set(path: &str, content: &str) -> (r: Result<Vec<u32>, CgroupError>)
    ensures
        agrees_set(r, path@, set_ids(content@)),
{
    let trimmed = trim(content);
    let mut ids: Vec<u32> = Vec::new();
    proof {
        assert(ids@.to_set() =~= Set::<u32>::empty());
    }
    if trimmed.as_str().is_empty() {
        return Ok(ids);
    }
    let parts = split(trimmed.as_str(), ',');
    let ghost ps = text::split_on(trimmed@, ',');
    let mut i: usize = 0;
    assert(ps.take(0) =~= Seq::<Seq<char>>::empty());
    while i < parts.len()
        invariant
            i <= parts.len(),
            text::views(parts@) == ps,
            trimmed@ == text::trim_of(content@),
            trimmed@.len() > 0,
            ps == text::split_on(trimmed@, ','),
            ascending(ids@),
            parts_ids(ps.take(i as int)) == Ok::<Set<u32>, Seq<char>>(ids@.to_set()),
        decreases parts.len() - i,
    {
        let part = trim(parts[i].as_str());
        proof {
            assert(ps.take(i + 1).drop_last() =~= ps.take(i as int));
            assert(ps.take(i + 1).last() == parts[i as int]@);
        }
        if !part.as_str().is_empty() {
            match split_once(part.as_str(), '-') {
                Some((a, b)) => {
                    let start: u32 = match parse_u32(trim(a.as_str()).as_str()) {
                        Some(n) => n,
                        None => {
                            proof {
                                lemma_parts_fault(ps, i + 1);
                            }
                            let detail = cat(
                                "invalid range start: ",
                                debug_quoted(a.as_str()).as_str(),
                            );
                            return Err(parse_error(path, content, detail.as_str()));
                        },
                    };
                    let end: u32 = match parse_u32(trim(b.as_str()).as_str()) {
                        Some(n) => n,
                        None => {
                            proof {
                                lemma_parts_fault(ps, i + 1);
                            }
                            let detail = cat(
                                "invalid range end: ",
                                debug_quoted(b.as_str()).as_str(),
                            );
                            return Err(parse_error(path, content, detail.as_str()));
                        },
                    };
                    insert_range(&mut ids, start, end);
                },
                None => {
                    match parse_u32(part.as_str()) {
                        Some(id) => {
                            let ghost before = ids@.to_set();
                            insert_id(&mut ids, id);
                            proof {
                                assert(ids@.to_set() =~= before.union(
                                    id_range(id as nat, id as nat),
                                ));
                            }
                        },
                        None => {
                            proof {
                                lemma_parts_fault(ps, i + 1);
                            }
                            let detail = cat(
                                "invalid cpu/mem id: ",
                                debug_quoted(part.as_str()).as_str(),
                            );
                            return Err(parse_error(path, content, detail.as_str()));
                        },
                    }
                },
            }
        }
        i += 1;
    }
    assert(ps.take(parts.len() as int) =~= ps);
    Ok(ids)
}

/// The maximal runs of consecutive ids in an ascending sequence.
pub open spec fn runs(ids: Seq<u32>) -> Seq<(u32, u32)>
    decreases ids.len(),
{
    if ids.len() == 0 {
        Seq::empty()
    } else {
        let init = runs(ids.drop_last());
        if init.len() > 0 && init.last().1 + 1 == ids.last() {
            init.drop_last().push((init.last().0, ids.last()))
        } else {
            init.push((ids.last(), ids.last()))
        }
    }
}

/// One run: the id alone, or the first and the last id with a dash between.
pub open spec fn run_text(run: (u32, u32)) -> Seq<char> {
    if run.0 == run.1 {
        text::decimal_text(run.0 as nat)
    } else {
        text::decimal_text(run.0 as nat) + "-"@ + text::decimal_text(run.1 as nat)
    }
}

/// The runs with commas between.
pub open spec fn runs_text(rs: Seq<(u32, u32)>) -> Seq<char>
    decreases rs.len(),
{
    if rs.len() == 0 {
        Seq::empty()
    } else if rs.len() == 1 {
        run_text(rs[0])
    } else {
        runs_text(rs.drop_last()) + ","@ + run_text(rs.last())
    }
}

/// The compact text of a set of ids.
pub open spec fn set_text(ids: Set<u32>) -> Seq<char> {
    runs_text(runs(in_order(ids)))
}

/// Formats one run.
pub fn format_range(start: u32, end: u32) -> (r: String)
    ensures
        r@ == run_text((start, end)),
{
    let mut out = text::u64_text(start as u64);
    if start != end {
        out.append("-");
        push_decimal(&mut out, end as u64);
    }
    out
}

/// Formats ids compactly: `[0, 1, 2, 3, 8]` becomes `0-3,8`. The order of the
/// ids and repeated ids do not matter.
pub fn format_set(ids: &[u32]) -> (r: String)
    ensures
        r@ == set_text(ids@.to_set()),
{
    let mut sorted: Vec<u32> = Vec::new();
    let mut i: usize = 0;
    proof {
        assert(sorted@.to_set() =~= ids@.take(0).to_set());
    }
    while i < ids.len()
        invariant
            i <= ids.len(),
            ascending(sorted@),
            sorted@.to_set() == ids@.take(i as int).to_set(),
        decreases ids.len() - i,
    {
        insert_id(&mut sorted, ids[i]);
        proof {
            let a = ids@.take(i as int);
            let b = ids@.take(i + 1);
            assert(b =~= a.push(ids[i as int]));
            assert forall|v: u32| b.to_set().contains(v) == a.to_set().insert(
                ids[i as int],
            ).contains(v) by {
                if a.to_set().contains(v) {
                    let j = choose|j: int| 0 <= j < a.len() && a[j] == v;
                    assert(b[j] == v);
                }
                if v == ids[i as int] {
                    assert(b[i as int] == v);
                }
                if b.to_set().contains(v) {
                    let j = choose|j: int| 0 <= j < b.len() && b[j] == v;
                    if j < i {
                        assert(a[j] == v);
                    }
                }
            }
            assert(b.to_set() =~= a.to_set().insert(ids[i as int]));
        }
        i += 1;
    }
    proof {
        assert(ids@.take(ids.len() as int) =~= ids@);
        lemma_in_order(sorted@);
    }
    let mut out = String::new();
    if sorted.len() == 0 {
        return out;
    }
    let mut start: u32 = sorted[0];
    let mut end: u32 = sorted[0];
    let mut k: usize = 1;
    let ghost done: Seq<(u32, u32)> = Seq::empty();
    proof {
        assert(sorted@.take(1).drop_last() =~= Seq::<u32>::empty());
        assert(runs(sorted@.take(1).drop_last()) =~= Seq::empty());
        assert(runs(sorted@.take(1)) =~= seq![(start, end)]);
        assert(done.push((start, end)) =~= seq![(start, end)]);
    }
    while k < sorted.len()
        invariant
            1 <= k <= sorted.len(),
            ascending(sorted@),
            end == sorted[k - 1],
            runs(sorted@.take(k as int)) == done.push((start, end)),
            out@ == runs_text(done) + (if done.len() > 0 {
                ","@
            } else {
                Seq::<char>::empty()
            }),
        decreases sorted.len() - k,
    {
        let id: u32 = sorted[k];
        assert(sorted@[k - 1] < sorted@[k as int]);
        let ghost r = done.push((start, end));
        proof {
            assert(sorted@.take(k + 1).drop_last() =~= sorted@.take(k as int));
            assert(r.last() == (start, end));
            assert(r.drop_last() =~= done);
        }
        if id == end + 1 {
            end = id;
        } else {
            let run = format_range(start, end);
            out.append(run.as_str());
            out.append(",");
            proof {
                assert(runs_text(r) + ","@ =~= out@) by {
                    if done.len() == 0 {
                        assert(runs_text(done) =~= Seq::<char>::empty());
                        assert(runs_text(r) == run_text(r[0]));
                        assert(out@ =~= run@ + ","@);
                    } else {
                        assert(runs_text(r) == runs_text(done) + ","@ + run_text((start, end)));
                    }
                }
                done = r;
            }
            start = id;
            end = id;
        }
        k += 1;
    }
    let ghost r = done.push((start, end));
    let ghost head = out@;
    let run = format_range(start, end);
    out.append(run.as_str());
    proof {
        assert(sorted@.take(sorted.len() as int) =~= sorted@);
        assert(r.drop_last() =~= done);
        if done.len() == 0 {
            assert(runs_text(done) =~= Seq::<char>::empty());
            assert(out@ =~= run@);
        }
    }
    out
}

/// The texts of the runs, one for each.
pub open spec fn run_parts(rs: Seq<(u32, u32)>) -> Seq<Seq<char>> {
    rs.map_values(|run: (u32, u32)| run_text(run))
}

/// The ids in the runs.
pub open spec fn runs_ids(rs: Seq<(u32, u32)>) -> Set<u32>
    decreases rs.len(),
{
    if rs.len() == 0 {
        Set::empty()
    } else {
        runs_ids(rs.drop_last()).union(id_range(rs.last().0 as nat, rs.last().1 as nat))
    }
}

/// A run is written with digits and dashes, with a digit at either end.
proof fn lemma_run_text(run: (u32, u32))
    ensures
        run_text(run).len() > 0,
        text::is_digit(run_text(run)[0]),
        text::is_digit(run_text(run).last()),
        forall|i: int|
            0 <= i < run_text(run).len() ==> text::is_digit(#[trigger] run_text(run)[i])
                || run_text(run)[i] == '-',
{
    reveal_strlit("-");
    let a = text::decimal_text(run.0 as nat);
    let b = text::decimal_text(run.1 as nat);
    text::law_decimal_round_trip(run.0 as nat);
    text::law_decimal_round_trip(run.1 as nat);
    let t = run_text(run);
    if run.0 == run.1 {
        assert(t == a);
    } else {
        assert(t =~= a + "-"@ + b);
        assert forall|i: int| 0 <= i < t.len() implies text::is_digit(#[trigger] t[i]) || t[i]
            == '-' by {
            if i < a.len() {
                assert(t[i] == a[i]);
            } else if i > a.len() {
                assert(t[i] == b[i - a.len() - 1]);
            }
        }
        assert(t[0] == a[0]);
        assert(t.last() == b.last());
    }
}

/// A text with a digit at either end has nothing to trim.
proof fn lemma_trim_digits(t: Seq<char>)
    requires
        t.len() > 0,
        text::is_digit(t[0]),
        text::is_digit(t.last()),
    ensures
        text::trim_of(t) == t,
{
    assert(text::trim_start_of(t) == t);
    assert(text::trim_end_of(t) == t);
}

/// Reading one run gives its ids.
proof fn lemma_part_ids(run: (u32, u32))
    ensures
        part_ids(run_text(run)) == Ok::<Set<u32>, Seq<char>>(
            id_range(run.0 as nat, run.1 as nat),
        ),
{
    reveal_strlit("-");
    let a = text::decimal_text(run.0 as nat);
    let b = text::decimal_text(run.1 as nat);
    text::law_decimal_round_trip(run.0 as nat);
    text::law_decimal_round_trip(run.1 as nat);
    let t = run_text(run);
    if run.0 == run.1 {
        assert forall|i: int| !text::is_first(t, '-', i) by {
            if 0 <= i < t.len() {
                assert(text::is_digit(t[i]));
            }
        }
        assert(text::find(t, '-') is None);
    } else {
        assert(t =~= a + "-"@ + b);
        assert(text::is_first(t, '-', a.len() as int)) by {
            assert forall|j: int| 0 <= j < a.len() implies t[j] != '-' by {
                assert(text::is_digit(a[j]));
            }
        }
        text::lemma_find(t, '-', a.len() as int);
        assert(t.take(a.len() as int) =~= a);
        assert(t.skip(a.len() as int + 1) =~= b);
        assert(text::is_digit(a[0]) && text::is_digit(a.last()));
        assert(text::is_digit(b[0]) && text::is_digit(b.last()));
        lemma_trim_digits(a);
        lemma_trim_digits(b);
    }
}

/// The text of runs splits at its commas into the texts of the runs, and has a
/// digit at either end.
proof fn lemma_runs_text(rs: Seq<(u32, u32)>)
    requires
        rs.len() > 0,
    ensures
        text::split_on(runs_text(rs), ',') == run_parts(rs),
        runs_text(rs).len() > 0,
        text::is_digit(runs_text(rs)[0]),
        text::is_digit(runs_text(rs).last()),
    decreases rs.len(),
{
    reveal_strlit(",");
    let last = run_text(rs.last());
    lemma_run_text(rs.last());
    if rs.len() == 1 {
        let none = Seq::<char>::empty();
        assert(none + last =~= last);
        assert(text::split_on(none, ',') =~= seq![none]);
        text::lemma_split_extend(none, last, ',');
        assert(run_parts(rs) =~= seq![last]);
        assert(text::split_on(last, ',') =~= seq![last]);
    } else {
        let init = rs.drop_last();
        lemma_runs_text(init);
        let head = runs_text(init);
        let joined = head + ","@;
        assert(joined =~= head.push(','));
        assert(joined.drop_last() =~= head);
        let before = text::split_on(joined, ',');
        assert(before =~= text::split_on(head, ',').push(Seq::empty()));
        text::lemma_split_extend(joined, last, ',');
        assert(before.last() + last =~= last);
        assert(before.drop_last() =~= run_parts(init));
        assert(run_parts(rs) =~= run_parts(init).push(last));
    }
}

/// Reading the texts of runs gives the ids of the runs.
proof fn lemma_parts_of_runs(rs: Seq<(u32, u32)>)
    ensures
        parts_ids(run_parts(rs)) == Ok::<Set<u32>, Seq<char>>(runs_ids(rs)),
    decreases rs.len(),
{
    if rs.len() > 0 {
        lemma_parts_of_runs(rs.drop_last());
        assert(run_parts(rs).drop_last() =~= run_parts(rs.drop_last()));
        assert(run_parts(rs).last() == run_text(rs.last()));
        lemma_run_text(rs.last());
        lemma_trim_digits(run_text(rs.last()));
        lemma_part_ids(rs.last());
    }
}

/// The runs of an ascending sequence hold its ids.
proof fn lemma_runs_ids(ids: Seq<u32>)
    requires
        ascending(ids),
    ensures
        runs_ids(runs(ids)) == ids.to_set(),
        ids.len() > 0 ==> runs(ids).len() > 0 && runs(ids).last().1 == ids.last()
            && runs(ids).last().0 <= runs(ids).last().1,
    decreases ids.len(),
{
    if ids.len() == 0 {
        assert(runs_ids(runs(ids)) =~= ids.to_set());
    } else {
        let init = ids.drop_last();
        lemma_runs_ids(init);
        let before = runs(init);
        let after = runs(ids);
        assert(ids =~= init.push(ids.last()));
        assert forall|v: u32| ids.to_set().contains(v) == init.to_set().insert(
            ids.last(),
        ).contains(v) by {
            if init.to_set().contains(v) {
                let j = choose|j: int| 0 <= j < init.len() && init[j] == v;
                assert(ids[j] == v);
            }
            if v == ids.last() {
                assert(ids[ids.len() - 1] == v);
            }
            if ids.to_set().contains(v) {
                let j = choose|j: int| 0 <= j < ids.len() && ids[j] == v;
                if j < init.len() {
                    assert(init[j] == v);
                }
            }
        }
        assert(ids.to_set() =~= init.to_set().insert(ids.last()));
        assert(after.drop_last() =~= if before.len() > 0 && before.last().1 + 1 == ids.last() {
            before.drop_last()
        } else {
            before
        });
        assert(runs_ids(after) =~= init.to_set().insert(ids.last()));
    }
}

/// A set of ids that is formatted and parsed again is the same set.
pub proof fn law_set_round_trip(ids: Seq<u32>)
    ensures
        set_ids(set_text(ids.to_set())) == Ok::<Set<u32>, Fault>(ids.to_set()),
{
    lemma_order_exists(ids);
    let q = in_order(ids.to_set());
    assert(ascending(q) && q.to_set() == ids.to_set());
    let rs = runs(q);
    lemma_runs_ids(q);
    if q.len() == 0 {
        assert(runs_text(rs) =~= Seq::<char>::empty());
        assert(text::trim_of(Seq::<char>::empty()) =~= Seq::<char>::empty());
        assert(q.to_set() =~= Set::<u32>::empty());
    } else {
        lemma_runs_text(rs);
        lemma_trim_digits(runs_text(rs));
        lemma_parts_of_runs(rs);
    }
}

/// The ids of runs are those between their ends.
proof fn lemma_runs_hold(rs: Seq<(u32, u32)>, id: u32)
    ensures
        runs_ids(rs).contains(id) <==> exists|i: int|
            0 <= i < rs.len() && (#[trigger] rs[i]).0 <= id <= rs[i].1,
    decreases rs.len(),
{
    if rs.len() > 0 {
        let before = rs.drop_last();
        lemma_runs_hold(before, id);
        if runs_ids(before).contains(id) {
            let i = choose|i: int| 0 <= i < before.len() && (#[trigger] before[i]).0 <= id <= before[i].1;
            assert(rs[i] == before[i]);
        }
        let last = rs[rs.len() - 1];
        if exists|i: int| 0 <= i < rs.len() && (#[trigger] rs[i]).0 <= id <= rs[i].1 {
            let i = choose|i: int| 0 <= i < rs.len() && (#[trigger] rs[i]).0 <= id <= rs[i].1;
            if i < before.len() {
                assert(before[i] == rs[i]);
            }
        }
    }
}

/// A set text names the ids of all its parts, which stand between commas: single ids, and
/// ranges with both of their ends.
pub proof fn law_ranges_are_read(rs: Seq<(u32, u32)>, id: u32)
    requires
        rs.len() > 0,
    ensures
        set_ids(runs_text(rs)) matches Ok(ids) && (ids.contains(id) <==> exists|i: int|
            0 <= i < rs.len() && (#[trigger] rs[i]).0 <= id <= rs[i].1),
        text::split_on(runs_text(rs), ',').len() == rs.len(),
        forall|i: int|
            0 <= i < rs.len() ==> #[trigger] text::split_on(runs_text(rs), ',')[i] == if rs[i].0
                == rs[i].1 {
                text::decimal_text(rs[i].0 as nat)
            } else {
                text::decimal_text(rs[i].0 as nat) + seq!['-'] + text::decimal_text(rs[i].1 as nat)
            },
{
    lemma_runs_text(rs);
    lemma_trim_digits(runs_text(rs));
    lemma_parts_of_runs(rs);
    lemma_runs_hold(rs, id);
    reveal_strlit("-");
    assert("-"@ =~= seq!['-']);
}

/// Any ids can be put in ascending order.
proof fn lemma_order_exists(ids: Seq<u32>)
    ensures
        exists|q: Seq<u32>| ascending(q) && q.to_set() == ids.to_set(),
    decreases ids.len(),
{
    if ids.len() == 0 {
        assert(ascending(ids) && ids.to_set() == ids.to_set());
    } else {
        let init = ids.drop_last();
        let id = ids.last();
        lemma_order_exists(init);
        let q = choose|q: Seq<u32>| ascending(q) && q.to_set() == init.to_set();
        let r = lemma_insert_in_order(q, id);
        assert forall|v: u32| r.to_set().contains(v) == ids.to_set().contains(v) by {
            if init.to_set().contains(v) {
                let j = choose|j: int| 0 <= j < init.len() && init[j] == v;
                assert(ids[j] == v);
            }
            if v == id {
                assert(ids[ids.len() - 1] == v);
            }
            if ids.to_set().contains(v) {
                let j = choose|j: int| 0 <= j < ids.len() && ids[j] == v;
                if j < init.len() {
                    assert(init[j] == v);
                    assert(init.to_set().contains(v));
                }
            }
        }
        assert(r.to_set() =~= ids.to_set());
    }
}

/// One more id fits into an ascending sequence.
proof fn lemma_insert_in_order(q: Seq<u32>, id: u32) -> (r: Seq<u32>)
    requires
        ascending(q),
    ensures
        ascending(r),
        r.to_set() == q.to_set().insert(id),
    decreases q.len(),
{
    if q.len() == 0 || q.last() < id {
        let r = q.push(id);
        assert forall|v: u32| r.to_set().contains(v) == q.to_set().insert(id).contains(v) by {
            if q.to_set().contains(v) {
                let j = choose|j: int| 0 <= j < q.len() && q[j] == v;
                assert(r[j] == v);
            }
            if v == id {
                assert(r[q.len() as int] == v);
            }
            if r.to_set().contains(v) {
                let j = choose|j: int| 0 <= j < r.len() && r[j] == v;
                if j < q.len() {
                    assert(q[j] == v);
                }
            }
        }
        assert(r.to_set() =~= q.to_set().insert(id));
        r
    } else if q.last() == id {
        assert(q.to_set().contains(id)) by {
            assert(q[q.len() - 1] == id);
        }
        assert(q.to_set().insert(id) =~= q.to_set());
        q
    } else {
        let init = q.drop_last();
        let p = lemma_insert_in_order(init, id);
        let r = p.push(q.last());
        assert forall|i: int| 0 <= i < p.len() implies p[i] < q.last() by {
            assert(p.to_set().contains(p[i]));
            if p[i] != id {
                assert(init.to_set().contains(p[i]));
                let j = choose|j: int| 0 <= j < init.len() && init[j] == p[i];
                assert(q[j] < q.last());
            }
        }
        assert forall|v: u32| r.to_set().contains(v) == q.to_set().insert(id).contains(v) by {
            if q.to_set().contains(v) {
                let j = choose|j: int| 0 <= j < q.len() && q[j] == v;
                if j < init.len() {
                    assert(init[j] == v);
                    assert(p.to_set().contains(v));
                    let k = choose|k: int| 0 <= k < p.len() && p[k] == v;
                    assert(r[k] == v);
                } else {
                    assert(r[p.len() as int] == v);
                }
            }
            if v == id {
                assert(p.to_set().contains(v));
                let k = choose|k: int| 0 <= k < p.len() && p[k] == v;
                assert(r[k] == v);
            }
            if r.to_set().contains(v) {
                let j = choose|j: int| 0 <= j < r.len() && r[j] == v;
                if j < p.len() {
                    assert(p.to_set().contains(v));
                    if v != id {
                        assert(init.to_set().contains(v));
                        let k = choose|k: int| 0 <= k < init.len() && init[k] == v;
                        assert(q[k] == v);
                    }
                } else {
                    assert(q[q.len() - 1] == v);
                }
            }
        }
        assert(r.to_set() =~= q.to_set().insert(id));
        r
    }
}

/// The getter reads the set file `name` below `base`.
pub open spec fn reads_set(
    r: Reading<Vec<u32>>,
    base: Seq<char>,
    name: Seq<char>,
    outcome: Option<Result<String, String>>,
) -> bool {
    util::reads(
        r,
        util::path_join(base, name),
        outcome,
        |t: Seq<char>, d: Result<Vec<u32>, CgroupError>|
            agrees_set(d, util::path_join(base, name), set_ids(t)),
    )
}

/// Reads the set file `name` below `base`.
fn read_set(base: &str, name: &str, outcome: Option<Result<String, String>>) -> (r: Reading<
    Vec<u32>,
>)
    ensures
        reads_set(r, base@, name@, outcome),
{
    let file = join(base, name);
    match outcome {
        None => Reading::Need(file),
        Some(o) => match read_cgroup_file(file.as_str(), o) {
            Ok(content) => Reading::Done(parse_set(file.as_str(), content.as_str())),
            Err(e) => Reading::Done(Err(e)),
        },
    }
}

/// The cpuset controller of one cgroup.
pub struct CpusetController {
    pub path: String,
}

impl CpusetController {
    pub fn new(path: String) -> (r: Self)
        ensures
            r.path@ == path@,
    {
        CpusetController { path }
    }

    /// Reads `cpuset.cpus`.
    pub fn get_cpus(&self, outcome: Option<Result<String, String>>) -> (r: Reading<Vec<u32>>)
        ensures
            reads_set(r, self.path@, "cpuset.cpus"@, outcome),
    {
        read_set(self.path.as_str(), "cpuset.cpus", outcome)
    }

    /// Sets `cpuset.cpus`.
    pub fn set_cpus(&self, cpus: &[u32]) -> (r: FileWrite)
        ensures
            r.is(self.path@, "cpuset.cpus"@, set_text(cpus@.to_set())),
    {
        FileWrite::of(self.path.as_str(), "cpuset.cpus", format_set(cpus))
    }

    /// Reads `cpuset.cpus.effective`.
    pub fn get_cpus_effective(&self, outcome: Option<Result<String, String>>) -> (r: Reading<
        Vec<u32>,
    >)
        ensures
            reads_set(r, self.path@, "cpuset.cpus.effective"@, outcome),
    {
        read_set(self.path.as_str(), "cpuset.cpus.effective", outcome)
    }

    /// Reads `cpuset.mems`.
    pub fn get_mems(&self, outcome: Option<Result<String, String>>) -> (r: Reading<Vec<u32>>)
        ensures
            reads_set(r, self.path@, "cpuset.mems"@, outcome),
    {
        read_set(self.path.as_str(), "cpuset.mems", outcome)
    }

    /// Sets `cpuset.mems`.
    pub fn set_mems(&self, mems: &[u32]) -> (r: FileWrite)
        ensures
            r.is(self.path@, "cpuset.mems"@, set_text(mems@.to_set())),
    {
        FileWrite::of(self.path.as_str(), "cpuset.mems", format_set(mems))
    }

    /// Reads `cpuset.mems.effective`.
    pub fn get_mems_effective(&self, outcome: Option<Result<String, String>>) -> (r: Reading<
        Vec<u32>,
    >)
        ensures
            reads_set(r, self.path@, "cpuset.mems.effective"@, outcome),
    {
        read_set(self.path.as_str(), "cpuset.mems.effective", outcome)
    }
}

} // verus!
