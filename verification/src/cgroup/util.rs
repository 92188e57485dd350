//! Control files: how they are named, read, written and parsed.

use vstd::prelude::*;

use crate::cgroup::error::{CgroupError, Fault};
use crate::text;
use crate::text::{cat, chars_of, debug_quoted, lines, parse_u64, same, split_once, trim};

verus! {

/// `name` below `base`: an absolute `name` stands for itself.
pub open spec fn path_join(base: Seq<char>, name: Seq<char>) -> Seq<char> {
    if name.len() > 0 && name[0] == '/' {
        name
    } else if base.len() == 0 || base.last() == '/' {
        base + name
    } else {
        base + "/"@ + name
    }
}

/// Joins a path and a name.
pub fn join(base: &str, name: &str) -> (r: String)
    ensures
        r@ == path_join(base@, name@),
{
    let b = chars_of(base);
    let n = chars_of(name);
    if n.len() > 0 && n[0] == '/' {
        return name.to_owned();
    }
    if b.len() == 0 || b[b.len() - 1] == '/' {
        cat(base, name)
    } else {
        cat(cat(base, "/").as_str(), name)
    }
}

/// What a method that needs a file answers.
#[derive(Debug)]
pub enum Reading<T> {
    /// Read this file and call again with the outcome.
    Need(String),
    /// The answer.
    Done(Result<T, CgroupError>),
}

/// A file to write, and what to write to it.
#[derive(Debug)]
pub struct FileWrite {
    pub path: String,
    pub value: String,
}

impl FileWrite {
    /// The write stores `value` in the file `name` below `base`.
    pub open spec fn is(self, base: Seq<char>, name: Seq<char>, value: Seq<char>) -> bool {
        self.path@ == path_join(base, name) && self.value@ == value
    }

    /// A write of `value` to the file `name` below `base`.
    pub fn of(base: &str, name: &str, value: String) -> (r: Self)
        ensures
            r.is(base@, name@, value@),
    {
        FileWrite { path: join(base, name), value }
    }
}

/// Turns the outcome of reading `path` into the file's trimmed content.
pub fn read_cgroup_file(path: &str, outcome: Result<String, String>) -> (r: Result<
    String,
    CgroupError,
>)
    ensures
        match (outcome, r) {
            (Ok(content), Ok(text)) => text@ == text::trim_of(content@),
            (Err(source), Err(e)) => e.is_read_failed(path@, source@),
            _ => false,
        },
{
    match outcome {
        Ok(content) => Ok(trim(content.as_str())),
        Err(source) => Err(CgroupError::ReadFailed { path: path.to_owned(), source }),
    }
}

/// Turns the outcome of performing `write` into the operation's result.
pub fn write_cgroup_file(write: FileWrite, outcome: Result<(), String>) -> (r: Result<
    (),
    CgroupError,
>)
    ensures
        match (outcome, r) {
            (Ok(_), Ok(_)) => true,
            (Err(source), Err(CgroupError::WriteFailed { path, source: s })) => path@
                == write.path@ && s@ == source@,
            _ => false,
        },
{
    match outcome {
        Ok(_) => Ok(()),
        Err(source) => Err(CgroupError::WriteFailed { path: write.path, source }),
    }
}

/// A parse failure of `path`.
pub(crate) fn parse_error(path: &str, content: &str, detail: &str) -> (r: CgroupError)
    ensures
        r.is_fault(path@, (Fault { content: content@, detail: detail@ })),
{
    CgroupError::ParseError {
        path: path.to_owned(),
        content: content.to_owned(),
        detail: detail.to_owned(),
    }
}

/// `max` stands for the largest number; anything else is a number.
pub open spec fn u64_or_max(content: Seq<char>) -> Result<nat, Fault> {
    let t = text::trim_of(content);
    if t == "max"@ {
        Ok(u64::MAX as nat)
    } else {
        match text::unsigned_value(t, u64::MAX as nat) {
            Some(n) => Ok(n),
            None => Err(Fault { content: t, detail: "expected u64 or \"max\""@ }),
        }
    }
}

/// A plain number.
pub open spec fn plain_u64(content: Seq<char>) -> Result<nat, Fault> {
    match text::unsigned_value(content, u64::MAX as nat) {
        Some(n) => Ok(n),
        None => Err(Fault { content, detail: "expected u64"@ }),
    }
}

/// The executable result `r` is what the specification `s` says.
pub open spec fn agrees_u64(r: Result<u64, CgroupError>, path: Seq<char>, s: Result<nat, Fault>) -> bool {
    match (r, s) {
        (Ok(v), Ok(n)) => v == n,
        (Err(e), Err(f)) => e.is_fault(path, f),
        _ => false,
    }
}

/// Reads a number or `max`.
pub fn parse_u64_or_max(path: &str, content: &str) -> (r: Result<u64, CgroupError>)
    ensures
        agrees_u64(r, path@, u64_or_max(content@)),
{
    let trimmed = trim(content);
    if same(trimmed.as_str(), "max") {
        return Ok(u64::MAX);
    }
    match parse_u64(trimmed.as_str()) {
        Some(n) => Ok(n),
        None => Err(parse_error(path, trimmed.as_str(), "expected u64 or \"max\"")),
    }
}

/// What a getter of one file does: it asks for `path`, reports a failed read,
/// and otherwise yields a result that `answers` the trimmed content.
pub open spec fn reads<T>(
    r: Reading<T>,
    path: Seq<char>,
    outcome: Option<Result<String, String>>,
    answers: spec_fn(Seq<char>, Result<T, CgroupError>) -> bool,
) -> bool {
    match outcome {
        None => r matches Reading::Need(p) && p@ == path,
        Some(Err(source)) => r matches Reading::Done(Err(e)) && e.is_read_failed(path, source@),
        Some(Ok(content)) => r matches Reading::Done(d) && answers(
            text::trim_of(content@),
            d,
        ),
    }
}

/// The getter reads a plain number from the file `name` below `base`.
pub open spec fn reads_number(
    r: Reading<u64>,
    base: Seq<char>,
    name: Seq<char>,
    outcome: Option<Result<String, String>>,
) -> bool {
    reads(
        r,
        path_join(base, name),
        outcome,
        |t: Seq<char>, d: Result<u64, CgroupError>|
            agrees_u64(d, path_join(base, name), plain_u64(t)),
    )
}

/// The getter reads a number or `max` from the file `name` below `base`.
pub open spec fn reads_limit(
    r: Reading<u64>,
    base: Seq<char>,
    name: Seq<char>,
    outcome: Option<Result<String, String>>,
) -> bool {
    reads(
        r,
        path_join(base, name),
        outcome,
        |t: Seq<char>, d: Result<u64, CgroupError>|
            agrees_u64(d, path_join(base, name), u64_or_max(t)),
    )
}

/// Reads a number or `max` from the file `path`.
pub fn read_u64_or_max(path: &str, outcome: Option<Result<String, String>>) -> (r: Reading<u64>)
    ensures
        reads(
            r,
            path@,
            outcome,
            |t: Seq<char>, d: Result<u64, CgroupError>| agrees_u64(d, path@, u64_or_max(t)),
        ),
{
    match outcome {
        None => Reading::Need(path.to_owned()),
        Some(o) => match read_cgroup_file(path, o) {
            Ok(content) => Reading::Done(parse_u64_or_max(path, content.as_str())),
            Err(e) => Reading::Done(Err(e)),
        },
    }
}

/// Reads a number from the file `path`.
pub fn read_u64(path: &str, outcome: Option<Result<String, String>>) -> (r: Reading<u64>)
    ensures
        reads(
            r,
            path@,
            outcome,
            |t: Seq<char>, d: Result<u64, CgroupError>| agrees_u64(d, path@, plain_u64(t)),
        ),
{
    match outcome {
        None => Reading::Need(path.to_owned()),
        Some(o) => match read_cgroup_file(path, o) {
            Ok(content) => match parse_u64(content.as_str()) {
                Some(n) => Reading::Done(Ok(n)),
                None => Reading::Done(
                    Err(parse_error(path, content.as_str(), "expected u64")),
                ),
            },
            Err(e) => Reading::Done(Err(e)),
        },
    }
}

/// The key and the value text of a trimmed line `key value`.
pub open spec fn flat_pair(line: Seq<char>) -> (Seq<char>, Seq<char>) {
    match text::split_once_on(line, ' ') {
        Some((key, rest)) => (key, text::trim_of(rest)),
        None => (line, Seq::empty()),
    }
}

/// The entries of the lines of a flat keyed file, up to the first bad line.
pub open spec fn flat_entries(lines: Seq<Seq<char>>) -> Result<Seq<(Seq<char>, nat)>, Fault>
    decreases lines.len(),
{
    if lines.len() == 0 {
        Ok(Seq::empty())
    } else {
        match flat_entries(lines.drop_last()) {
            Err(f) => Err(f),
            Ok(entries) => {
                let line = text::trim_of(lines.last());
                let (key, value) = flat_pair(line);
                if line.len() == 0 {
                    Ok(entries)
                } else {
                    match text::unsigned_value(value, u64::MAX as nat) {
                        Some(n) => Ok(entries.push((key, n))),
                        None => Err(
                            Fault {
                                content: line,
                                detail: "expected u64 value for key "@ + text::debug_text(
                                    key,
                                ) + ", got "@ + text::debug_text(value),
                            },
                        ),
                    }
                }
            },
        }
    }
}

/// The entries of a flat keyed file.
pub open spec fn flat_keyed(content: Seq<char>) -> Result<Seq<(Seq<char>, nat)>, Fault> {
    flat_entries(text::lines_of(content))
}

/// The mathematical reading of parsed entries.
pub open spec fn entries_view(v: Seq<(String, u64)>) -> Seq<(Seq<char>, nat)> {
    v.map_values(|e: (String, u64)| (e.0@, e.1 as nat))
}

/// The executable result `r` is what the specification `s` says.
pub open spec fn agrees_flat(
    r: Result<Vec<(String, u64)>, CgroupError>,
    path: Seq<char>,
    s: Result<Seq<(Seq<char>, nat)>, Fault>,
) -> bool {
    match (r, s) {
        (Ok(v), Ok(entries)) => entries_view(v@) == entries,
        (Err(e), Err(f)) => e.is_fault(path, f),
        _ => false,
    }
}

/// A bad line spoils every longer list of lines.
proof fn lemma_flat_fault(lines: Seq<Seq<char>>, k: int)
    requires
        0 <= k <= lines.len(),
        flat_entries(lines.take(k)) is Err,
    ensures
        flat_entries(lines) == flat_entries(lines.take(k)),
    decreases lines.len() - k,
{
    if k == lines.len() {
        assert(lines.take(k) =~= lines);
    } else {
        assert(lines.take(k + 1).drop_last() =~= lines.take(k));
        lemma_flat_fault(lines, k + 1);
    }
}

/// Parses lines of the form `key value`.
pub fn parse_flat_keyed(path: &str, content: &str) -> (r: Result<Vec<(String, u64)>, CgroupError>)
    ensures
        agrees_flat(r, path@, flat_keyed(content@)),
{
    let all = lines(content);
    let ghost ls = text::lines_of(content@);
    let mut entries: Vec<(String, u64)> = Vec::new();
    let mut i: usize = 0;
    assert(ls.take(0) =~= Seq::<Seq<char>>::empty());
    assert(entries_view(entries@) =~= Seq::empty());
    while i < all.len()
        invariant
            i <= all.len(),
            text::views(all@) == ls,
            ls == text::lines_of(content@),
            flat_entries(ls.take(i as int)) == Ok::<Seq<(Seq<char>, nat)>, Fault>(
                entries_view(entries@),
            ),
        decreases all.len() - i,
    {
        let line = trim(all[i].as_str());
        proof {
            assert(ls.take(i + 1).drop_last() =~= ls.take(i as int));
            assert(ls.take(i + 1).last() == ls[i as int]);
            assert(ls[i as int] == all[i as int]@);
        }
        if !line.as_str().is_empty() {
            let (key, value) = match split_once(line.as_str(), ' ') {
                Some((k, rest)) => (k, trim(rest.as_str())),
                None => (line.clone(), String::new()),
            };
            match parse_u64(value.as_str()) {
                Some(n) => {
                    let ghost before = entries@;
                    entries.push((key, n));
                    assert(entries_view(entries@) =~= entries_view(before).push((key@, n as nat)));
                },
                None => {
                    let mut detail = cat(
                        "expected u64 value for key ",
                        debug_quoted(key.as_str()).as_str(),
                    );
                    detail.append(", got ");
                    detail.append(debug_quoted(value.as_str()).as_str());
                    proof {
                        lemma_flat_fault(ls, i + 1);
                    }
                    return Err(parse_error(path, line.as_str(), detail.as_str()));
                },
            }
        }
        i += 1;
    }
    assert(ls.take(all.len() as int) =~= ls);
    Ok(entries)
}

/// Reads the flat keyed file `path`.
pub fn read_flat_keyed(path: &str, outcome: Option<Result<String, String>>) -> (r: Reading<
    Vec<(String, u64)>,
>)
    ensures
        reads(
            r,
            path@,
            outcome,
            |t: Seq<char>, d: Result<Vec<(String, u64)>, CgroupError>|
                agrees_flat(d, path@, flat_keyed(t)),
        ),
{
    match outcome {
        None => Reading::Need(path.to_owned()),
        Some(o) => match read_cgroup_file(path, o) {
            Ok(content) => Reading::Done(parse_flat_keyed(path, content.as_str())),
            Err(e) => Reading::Done(Err(e)),
        },
    }
}

/// The value of the first entry for `key`, and 0 where there is none.
pub open spec fn lookup(entries: Seq<(Seq<char>, nat)>, key: Seq<char>) -> nat
    decreases entries.len(),
{
    if entries.len() == 0 {
        0
    } else if entries[0].0 == key {
        entries[0].1
    } else {
        lookup(entries.skip(1), key)
    }
}

/// Finds the value of `key`.
pub fn lookup_key(entries: &[(String, u64)], key: &str) -> (r: u64)
    ensures
        r == lookup(entries_view(entries@), key@),
{
    let ghost all = entries_view(entries@);
    let mut i: usize = 0;
    assert(all.skip(0) =~= all);
    while i < entries.len()
        invariant
            i <= entries.len(),
            all == entries_view(entries@),
            lookup(all.skip(i as int), key@) == lookup(all, key@),
        decreases entries.len() - i,
    {
        assert(all.skip(i as int)[0] == (entries[i as int].0@, entries[i as int].1 as nat));
        if same(entries[i].0.as_str(), key) {
            return entries[i].1;
        }
        assert(all.skip(i as int).skip(1) =~= all.skip(i + 1));
        i += 1;
    }
    0
}

/// The text that stands for a limit in which the largest number means none.
pub open spec fn limit_text(n: nat) -> Seq<char> {
    if n == u64::MAX {
        "max"@
    } else {
        text::decimal_text(n)
    }
}

/// Writes a limit, in which the largest number means none.
pub fn limit(n: u64) -> (r: String)
    ensures
        r@ == limit_text(n as nat),
{
    if n == u64::MAX {
        "max".to_owned()
    } else {
        text::u64_text(n)
    }
}

/// Reading a limit back gives what was written.
pub proof fn law_limit_round_trip(n: u64)
    ensures
        u64_or_max(limit_text(n as nat)) == Ok::<nat, Fault>(n as nat),
{
    reveal_strlit("max");
    let t = limit_text(n as nat);
    if n == u64::MAX {
        assert(t.len() == 3 && !text::is_space(t[0]) && !text::is_space(t[2]));
    } else {
        text::law_decimal_round_trip(n as nat);
        assert(text::is_digit(t[0]));
        assert(text::is_digit(t.last()));
        assert("max"@[0] == 'm');
    }
    assert(text::trim_start_of(t) == t);
    assert(text::trim_end_of(t) == t);
}

} // verus!
