//! Limits on block devices, and what they transferred.

use vstd::prelude::*;

use crate::cgroup::error::{CgroupError, Fault};
use crate::cgroup::pressure;
use crate::cgroup::pressure::{read_pressure, PressureStats};
use crate::cgroup::util;
use crate::cgroup::util::{join, parse_error, read_cgroup_file, FileWrite, Reading};
use crate::text;
use crate::text::{
    cat, debug_quoted, lines, parse_u32, parse_u64, push_decimal, same, split_once, strip_prefix,
    trim, u64_text, words,
};

verus! {

/// A block device, by its major and minor number.
#[derive(Debug, Clone, Copy, PartialEq, Eq, Structural, Hash)]
pub struct DeviceId {
    pub major: u32,
    pub minor: u32,
}

/// The device that `major:minor` names.
pub open spec fn device_of(s: Seq<char>) -> Option<DeviceId> {
    match text::split_once_on(s, ':') {
        None => None,
        Some((a, b)) => match (
            text::unsigned_value(a, u32::MAX as nat),
            text::unsigned_value(b, u32::MAX as nat),
        ) {
            (Some(major), Some(minor)) => Some(
                DeviceId { major: major as u32, minor: minor as u32 },
            ),
            _ => None,
        },
    }
}

impl DeviceId {
    /// The form `major:minor`.
    pub open spec fn text(self) -> Seq<char> {
        text::decimal_text(self.major as nat) + ":"@ + text::decimal_text(self.minor as nat)
    }

    /// Parses `major:minor`.
    pub fn parse(s: &str) -> (r: Option<Self>)
        ensures
            r == device_of(s@),
    {
        match split_once(s, ':') {
            None => None,
            Some((a, b)) => match (parse_u32(a.as_str()), parse_u32(b.as_str())) {
                (Some(major), Some(minor)) => Some(DeviceId { major, minor }),
                _ => None,
            },
        }
    }

    /// Renders `major:minor`.
    pub fn to_string(&self) -> (r: String)
        ensures
            r@ == self.text(),
    {
        let mut out = u64_text(self.major as u64);
        out.append(":");
        push_decimal(&mut out, self.minor as u64);
        out
    }
}

/// A device that is written and parsed again is the same device.
pub proof fn law_device_round_trip(d: DeviceId)
    ensures
        device_of(d.text()) == Some(d),
{
    reveal_strlit(":");
    let a = text::decimal_text(d.major as nat);
    let b = text::decimal_text(d.minor as nat);
    let t = d.text();
    text::law_decimal_round_trip(d.major as nat);
    text::law_decimal_round_trip(d.minor as nat);
    assert(t =~= a + ":"@ + b);
    assert(text::is_first(t, ':', a.len() as int)) by {
        assert forall|j: int| 0 <= j < a.len() implies t[j] != ':' by {
            assert(text::is_digit(a[j]));
        }
    }
    text::lemma_find(t, ':', a.len() as int);
    assert(t.take(a.len() as int) =~= a);
    assert(t.skip(a.len() as int + 1) =~= b);
}

/// The limits of one device; `None` means unlimited.
#[derive(Debug, Clone)]
pub struct IoMax {
    /// Bytes read per second.
    pub rbps: Option<u64>,
    /// Bytes written per second.
    pub wbps: Option<u64>,
    /// Read operations per second.
    pub riops: Option<u64>,
    /// Write operations per second.
    pub wiops: Option<u64>,
}

/// The traffic of one device.
#[derive(Debug, Clone)]
pub struct IoStat {
    pub device: DeviceId,
    pub rbytes: u64,
    pub wbytes: u64,
    pub rios: u64,
    pub wios: u64,
    pub dbytes: u64,
    pub dios: u64,
}

/// A limit as a text.
pub open spec fn io_limit_text(limit: Option<u64>) -> Seq<char> {
    match limit {
        Some(v) => text::decimal_text(v as nat),
        None => "max"@,
    }
}

/// Writes a limit.
pub fn format_limit(limit: Option<u64>) -> (r: String)
    ensures
        r@ == io_limit_text(limit),
{
    match limit {
        Some(v) => u64_text(v),
        None => "max".to_owned(),
    }
}

/// The limit that a text states: none for `max` and for anything that is no
/// number.
pub open spec fn io_limit(s: Seq<char>) -> Option<u64> {
    if s == "max"@ {
        None
    } else {
        match text::unsigned_value(s, u64::MAX as nat) {
            Some(n) => Some(n as u64),
            None => None,
        }
    }
}

/// Reads a limit.
pub fn parse_io_limit(s: &str) -> (r: Option<u64>)
    ensures
        r == io_limit(s@),
{
    if same(s, "max") {
        None
    } else {
        parse_u64(s)
    }
}

/// No limits at all.
pub open spec fn no_limits() -> IoMax {
    IoMax { rbps: None, wbps: None, riops: None, wiops: None }
}

/// The limits with one more token read.
pub open spec fn with_limit(m: IoMax, token: Seq<char>) -> IoMax {
    match text::split_once_on(token, '=') {
        None => m,
        Some((key, value)) => if key == "rbps"@ {
            IoMax { rbps: io_limit(value), ..m }
        } else if key == "wbps"@ {
            IoMax { wbps: io_limit(value), ..m }
        } else if key == "riops"@ {
            IoMax { riops: io_limit(value), ..m }
        } else if key == "wiops"@ {
            IoMax { wiops: io_limit(value), ..m }
        } else {
            m
        },
    }
}

/// The limits that a device's tokens state; a later token overrides an earlier.
pub open spec fn token_limits(tokens: Seq<Seq<char>>) -> IoMax
    decreases tokens.len(),
{
    if tokens.len() == 0 {
        no_limits()
    } else {
        with_limit(token_limits(tokens.drop_last()), tokens.last())
    }
}

/// The fault of a line whose device is no device.
pub open spec fn device_fault(line: Seq<char>, device: Seq<char>) -> Fault {
    Fault { content: line, detail: "invalid device id: "@ + text::debug_text(device) }
}

/// The limits of `target` that the lines state. The first line for the device
/// decides; a malformed line before it is a fault.
pub open spec fn limits_for(lines: Seq<Seq<char>>, target: DeviceId) -> Result<Option<IoMax>, Fault>
    decreases lines.len(),
{
    if lines.len() == 0 {
        Ok(None)
    } else {
        let line = text::trim_of(lines[0]);
        let w = text::words_of(line);
        if w.len() == 0 {
            limits_for(lines.skip(1), target)
        } else {
            match device_of(w[0]) {
                None => Err(device_fault(line, w[0])),
                Some(d) => if d == target {
                    Ok(Some(token_limits(w.skip(1))))
                } else {
                    limits_for(lines.skip(1), target)
                },
            }
        }
    }
}

/// The executable result `r` is what the specification `s` says.
pub open spec fn agrees_limits(
    r: Result<Option<IoMax>, CgroupError>,
    path: Seq<char>,
    s: Result<Option<IoMax>, Fault>,
) -> bool {
    match (r, s) {
        (Ok(v), Ok(m)) => v == m,
        (Err(e), Err(f)) => e.is_fault(path, f),
        _ => false,
    }
}

/// Reads the tokens of one device's line.
fn read_limits(parts: &Vec<String>) -> (r: IoMax)
    requires
        parts.len() > 0,
    ensures
        r == token_limits(text::views(parts@).skip(1)),
{
    let mut m = IoMax { rbps: None, wbps: None, riops: None, wiops: None };
    let ghost tokens = text::views(parts@).skip(1);
    let mut i: usize = 1;
    while i < parts.len()
        invariant
            1 <= i <= parts.len(),
            tokens == text::views(parts@).skip(1),
            m == token_limits(tokens.take(i - 1)),
        decreases parts.len() - i,
    {
        proof {
            assert(tokens.take(i as int).drop_last() =~= tokens.take(i - 1));
            assert(tokens.take(i as int).last() == parts[i as int]@);
        }
        if let Some((key, value)) = split_once(parts[i].as_str(), '=') {
            let parsed = parse_io_limit(value.as_str());
            if same(key.as_str(), "rbps") {
                m.rbps = parsed;
            } else if same(key.as_str(), "wbps") {
                m.wbps = parsed;
            } else if same(key.as_str(), "riops") {
                m.riops = parsed;
            } else if same(key.as_str(), "wiops") {
                m.wiops = parsed;
            }
        }
        i += 1;
    }
    assert(tokens.take(parts.len() - 1) =~= tokens);
    m
}

/// Finds the limits of `target` in the content of `io.max`.
pub fn parse_io_max_for_device(path: &str, content: &str, target: DeviceId) -> (r: Result<
    Option<IoMax>,
    CgroupError,
>)
    ensures
        agrees_limits(r, path@, limits_for(text::lines_of(content@), target)),
{
    let all = lines(content);
    let ghost ls = text::lines_of(content@);
    let mut i: usize = 0;
    assert(ls.skip(0) =~= ls);
    while i < all.len()
        invariant
            i <= all.len(),
            text::views(all@) == ls,
            ls == text::lines_of(content@),
            limits_for(ls.skip(i as int), target) == limits_for(ls, target),
        decreases all.len() - i,
    {
        let line = trim(all[i].as_str());
        let parts = words(line.as_str());
        proof {
            assert(ls.skip(i as int)[0] == all[i as int]@);
            assert(ls.skip(i as int).skip(1) =~= ls.skip(i + 1));
        }
        if parts.len() > 0 {
            assert(text::words_of(line@)[0] == parts[0]@);
            match DeviceId::parse(parts[0].as_str()) {
                None => {
                    let detail = cat(
                        "invalid device id: ",
                        debug_quoted(parts[0].as_str()).as_str(),
                    );
                    return Err(parse_error(path, line.as_str(), detail.as_str()));
                },
                Some(d) => {
                    if d == target {
                        return Ok(Some(read_limits(&parts)));
                    }
                },
            }
        }
        i += 1;
    }
    Ok(None)
}

/// The number that a counter states; 0 for anything that is no number.
pub open spec fn counter(s: Seq<char>) -> u64 {
    match text::unsigned_value(s, u64::MAX as nat) {
        Some(n) => n as u64,
        None => 0,
    }
}

/// The counters with one more token read.
pub open spec fn with_counter(m: IoStat, token: Seq<char>) -> IoStat {
    match text::split_once_on(token, '=') {
        None => m,
        Some((key, value)) => if key == "rbytes"@ {
            IoStat { rbytes: counter(value), ..m }
        } else if key == "wbytes"@ {
            IoStat { wbytes: counter(value), ..m }
        } else if key == "rios"@ {
            IoStat { rios: counter(value), ..m }
        } else if key == "wios"@ {
            IoStat { wios: counter(value), ..m }
        } else if key == "dbytes"@ {
            IoStat { dbytes: counter(value), ..m }
        } else if key == "dios"@ {
            IoStat { dios: counter(value), ..m }
        } else {
            m
        },
    }
}

/// The counters of a device that its tokens state.
pub open spec fn token_counters(device: DeviceId, tokens: Seq<Seq<char>>) -> IoStat
    decreases tokens.len(),
{
    if tokens.len() == 0 {
        IoStat { device, rbytes: 0, wbytes: 0, rios: 0, wios: 0, dbytes: 0, dios: 0 }
    } else {
        with_counter(token_counters(device, tokens.drop_last()), tokens.last())
    }
}

/// The counters that the lines state, one entry for each line that is not
/// blank, or the fault of the first malformed line.
pub open spec fn line_counters(lines: Seq<Seq<char>>) -> Result<Seq<IoStat>, Fault>
    decreases lines.len(),
{
    if lines.len() == 0 {
        Ok(Seq::empty())
    } else {
        match line_counters(lines.drop_last()) {
            Err(f) => Err(f),
            Ok(stats) => {
                let line = text::trim_of(lines.last());
                let w = text::words_of(line);
                if w.len() == 0 {
                    Ok(stats)
                } else {
                    match device_of(w[0]) {
                        None => Err(device_fault(line, w[0])),
                        Some(d) => Ok(stats.push(token_counters(d, w.skip(1)))),
                    }
                }
            },
        }
    }
}

/// The executable result `r` is what the specification `s` says.
pub open spec fn agrees_counters(
    r: Result<Vec<IoStat>, CgroupError>,
    path: Seq<char>,
    s: Result<Seq<IoStat>, Fault>,
) -> bool {
    match (r, s) {
        (Ok(v), Ok(stats)) => v@ == stats,
        (Err(e), Err(f)) => e.is_fault(path, f),
        _ => false,
    }
}

/// A malformed line spoils every longer list of lines.
proof fn lemma_counters_fault(lines: Seq<Seq<char>>, k: int)
    requires
        0 <= k <= lines.len(),
        line_counters(lines.take(k)) is Err,
    ensures
        line_counters(lines) == line_counters(lines.take(k)),
    decreases lines.len() - k,
{
    if k == lines.len() {
        assert(lines.take(k) =~= lines);
    } else {
        assert(lines.take(k + 1).drop_last() =~= lines.take(k));
        lemma_counters_fault(lines, k + 1);
    }
}

/// Reads a counter.
fn read_counter(s: &str) -> (r: u64)
    ensures
        r == counter(s@),
{
    match parse_u64(s) {
        Some(n) => n,
        None => 0,
    }
}

/// Reads the tokens of one device's line.
fn read_counters(device: DeviceId, parts: &Vec<String>) -> (r: IoStat)
    requires
        parts.len() > 0,
    ensures
        r == token_counters(device, text::views(parts@).skip(1)),
{
    let mut m = IoStat { device, rbytes: 0, wbytes: 0, rios: 0, wios: 0, dbytes: 0, dios: 0 };
    let ghost tokens = text::views(parts@).skip(1);
    let mut i: usize = 1;
    while i < parts.len()
        invariant
            1 <= i <= parts.len(),
            tokens == text::views(parts@).skip(1),
            m == token_counters(device, tokens.take(i - 1)),
        decreases parts.len() - i,
    {
        proof {
            assert(tokens.take(i as int).drop_last() =~= tokens.take(i - 1));
            assert(tokens.take(i as int).last() == parts[i as int]@);
        }
        if let Some((key, value)) = split_once(parts[i].as_str(), '=') {
            let v: u64 = read_counter(value.as_str());
            if same(key.as_str(), "rbytes") {
                m.rbytes = v;
            } else if same(key.as_str(), "wbytes") {
                m.wbytes = v;
            } else if same(key.as_str(), "rios") {
                m.rios = v;
            } else if same(key.as_str(), "wios") {
                m.wios = v;
            } else if same(key.as_str(), "dbytes") {
                m.dbytes = v;
            } else if same(key.as_str(), "dios") {
                m.dios = v;
            }
        }
        i += 1;
    }
    assert(tokens.take(parts.len() - 1) =~= tokens);
    m
}

/// Parses the content of `io.stat`.
pub fn parse_io_stat(path: &str, content: &str) -> (r: Result<Vec<IoStat>, CgroupError>)
    ensures
        agrees_counters(r, path@, line_counters(text::lines_of(content@))),
{
    let all = lines(content);
    let ghost ls = text::lines_of(content@);
    let mut stats: Vec<IoStat> = Vec::new();
    let mut i: usize = 0;
    assert(ls.take(0) =~= Seq::<Seq<char>>::empty());
    while i < all.len()
        invariant
            i <= all.len(),
            text::views(all@) == ls,
            ls == text::lines_of(content@),
            line_counters(ls.take(i as int)) == Ok::<Seq<IoStat>, Fault>(stats@),
        decreases all.len() - i,
    {
        let line = trim(all[i].as_str());
        let parts = words(line.as_str());
        proof {
            assert(ls.take(i + 1).drop_last() =~= ls.take(i as int));
            assert(ls.take(i + 1).last() == all[i as int]@);
        }
        if parts.len() > 0 {
            assert(text::words_of(line@)[0] == parts[0]@);
            match DeviceId::parse(parts[0].as_str()) {
                None => {
                    let detail = cat(
                        "invalid device id: ",
                        debug_quoted(parts[0].as_str()).as_str(),
                    );
                    proof {
                        lemma_counters_fault(ls, i + 1);
                    }
                    return Err(parse_error(path, line.as_str(), detail.as_str()));
                },
                Some(device) => {
                    stats.push(read_counters(device, &parts));
                },
            }
        }
        i += 1;
    }
    assert(ls.take(all.len() as int) =~= ls);
    Ok(stats)
}

/// The line that sets the limits of a device.
pub open spec fn limits_line(device: DeviceId, m: IoMax) -> Seq<char> {
    device.text() + " rbps="@ + io_limit_text(m.rbps) + " wbps="@ + io_limit_text(m.wbps)
        + " riops="@ + io_limit_text(m.riops) + " wiops="@ + io_limit_text(m.wiops)
}

/// The text of a limit is a word without `=` that reads back as the limit.
proof fn lemma_limit_text(limit: Option<u64>)
    ensures
        text::is_word(io_limit_text(limit)),
        io_limit(io_limit_text(limit)) == limit,
        forall|i: int| 0 <= i < io_limit_text(limit).len() ==> io_limit_text(limit)[i] != '\n',
{
    reveal_strlit("max");
    match limit {
        Some(v) => {
            let t = text::decimal_text(v as nat);
            text::law_decimal_round_trip(v as nat);
            text::lemma_word_of_digits(t);
            assert(text::is_digit(t[0]));
            assert("max"@[0] == 'm');
            assert forall|i: int| 0 <= i < t.len() implies t[i] != '\n' by {
                assert(text::is_digit(t[i]));
            }
        },
        None => {},
    }
}

/// A token `key=value` behind a space is one more word, with that key and value.
proof fn lemma_token(s: Seq<char>, key: Seq<char>, value: Seq<char>)
    requires
        s.len() > 0,
        text::is_word(key),
        text::is_word(value),
        forall|i: int| 0 <= i < key.len() ==> key[i] != '=',
    ensures
        text::words_of(s + (seq![' '] + key + seq!['=']) + value) == text::words_of(s).push(
            key + seq!['='] + value,
        ),
        text::split_once_on(key + seq!['='] + value, '=') == Some((key, value)),
{
    let token = key + seq!['='] + value;
    assert(text::is_word(token)) by {
        assert forall|i: int| 0 <= i < token.len() implies !text::is_space(#[trigger] token[i]) by {
            if i < key.len() {
                assert(token[i] == key[i]);
            } else if i > key.len() {
                assert(token[i] == value[i - key.len() - 1]);
            }
        }
    }
    text::lemma_words_space(s);
    text::lemma_words_push(s.push(' '), token);
    assert(s.push(' ') + token =~= s + (seq![' '] + key + seq!['=']) + value);
    assert(text::is_first(token, '=', key.len() as int));
    text::lemma_find(token, '=', key.len() as int);
    assert(token.take(key.len() as int) =~= key);
    assert(token.skip(key.len() as int + 1) =~= value);
}

/// A `key=value` token.
pub open spec fn limit_token(key: Seq<char>, limit: Option<u64>) -> Seq<char> {
    key + seq!['='] + io_limit_text(limit)
}

/// The tokens of a line of limits.
pub open spec fn limit_tokens(m: IoMax) -> Seq<Seq<char>> {
    seq![
        limit_token("rbps"@, m.rbps),
        limit_token("wbps"@, m.wbps),
        limit_token("riops"@, m.riops),
        limit_token("wiops"@, m.wiops),
    ]
}

/// A device is written as a word that begins with a digit.
proof fn lemma_device_word(device: DeviceId)
    ensures
        text::is_word(device.text()),
        text::is_digit(device.text()[0]),
{
    reveal_strlit(":");
    let a = text::decimal_text(device.major as nat);
    let b = text::decimal_text(device.minor as nat);
    text::law_decimal_round_trip(device.major as nat);
    text::law_decimal_round_trip(device.minor as nat);
    let d = device.text();
    assert(d[0] == a[0]);
    assert forall|i: int| 0 <= i < d.len() implies !text::is_space(#[trigger] d[i]) by {
        if i < a.len() {
            assert(d[i] == a[i] && text::is_digit(a[i]));
        } else if i > a.len() {
            assert(d[i] == b[i - a.len() - 1] && text::is_digit(b[i - a.len() - 1]));
        }
    }
}

/// The words of a line of limits are the device and the tokens.
proof fn lemma_line_words(device: DeviceId, m: IoMax)
    ensures
        text::words_of(limits_line(device, m)) == seq![device.text()] + limit_tokens(m),
{
    reveal_strlit(" rbps=");
    reveal_strlit(" wbps=");
    reveal_strlit(" riops=");
    reveal_strlit(" wiops=");
    reveal_strlit("rbps");
    reveal_strlit("wbps");
    reveal_strlit("riops");
    reveal_strlit("wiops");
    let d = device.text();
    lemma_device_word(device);
    let none = Seq::<char>::empty();
    assert(none + d =~= d);
    text::lemma_words_push(none, d);
    lemma_limit_text(m.rbps);
    lemma_limit_text(m.wbps);
    lemma_limit_text(m.riops);
    lemma_limit_text(m.wiops);
    assert(" rbps="@ =~= seq![' '] + "rbps"@ + seq!['=']);
    assert(" wbps="@ =~= seq![' '] + "wbps"@ + seq!['=']);
    assert(" riops="@ =~= seq![' '] + "riops"@ + seq!['=']);
    assert(" wiops="@ =~= seq![' '] + "wiops"@ + seq!['=']);
    let s1 = d + " rbps="@ + io_limit_text(m.rbps);
    let s2 = s1 + " wbps="@ + io_limit_text(m.wbps);
    let s3 = s2 + " riops="@ + io_limit_text(m.riops);
    lemma_token(d, "rbps"@, io_limit_text(m.rbps));
    lemma_token(s1, "wbps"@, io_limit_text(m.wbps));
    lemma_token(s2, "riops"@, io_limit_text(m.riops));
    lemma_token(s3, "wiops"@, io_limit_text(m.wiops));
    assert(text::words_of(limits_line(device, m)) =~= seq![d] + limit_tokens(m));
}

/// A token sets the limit of its key.
proof fn lemma_token_split(key: Seq<char>, limit: Option<u64>)
    requires
        text::is_word(key),
        forall|i: int| 0 <= i < key.len() ==> key[i] != '=',
    ensures
        text::split_once_on(limit_token(key, limit), '=') == Some((key, io_limit_text(limit))),
        io_limit(io_limit_text(limit)) == limit,
{
    lemma_limit_text(limit);
    lemma_token(seq!['0'], key, io_limit_text(limit));
}

/// The tokens of a line of limits state the limits.
#[verifier::spinoff_prover]
#[verifier::rlimit(40)]
proof fn lemma_tokens(m: IoMax)
    ensures
        token_limits(limit_tokens(m)) == m,
{
    reveal_strlit("rbps");
    reveal_strlit("wbps");
    reveal_strlit("riops");
    reveal_strlit("wiops");
    let t = limit_tokens(m);
    lemma_token_split("rbps"@, m.rbps);
    lemma_token_split("wbps"@, m.wbps);
    lemma_token_split("riops"@, m.riops);
    lemma_token_split("wiops"@, m.wiops);
    assert("rbps"@[0] != "wbps"@[0]);
    assert("riops"@[0] != "wiops"@[0]);
    assert("rbps"@.len() == 4 && "wbps"@.len() == 4 && "riops"@.len() == 5 && "wiops"@.len() == 5);
    assert(t.take(4) =~= t);
    assert(t.take(4).drop_last() =~= t.take(3));
    assert(t.take(3).drop_last() =~= t.take(2));
    assert(t.take(2).drop_last() =~= t.take(1));
    assert(t.take(1).drop_last() =~= t.take(0));
    assert(token_limits(t.take(0)) == no_limits());
    assert(token_limits(t.take(1)) == (IoMax { rbps: m.rbps, ..no_limits() }));
    assert(token_limits(t.take(2)) == (IoMax { rbps: m.rbps, wbps: m.wbps, ..no_limits() }));
    assert(token_limits(t.take(3)) == (IoMax {
        rbps: m.rbps,
        wbps: m.wbps,
        riops: m.riops,
        ..no_limits()
    }));
}

/// A line of limits is one line, with nothing to trim.
proof fn lemma_line_plain(device: DeviceId, m: IoMax)
    ensures
        text::lines_of(limits_line(device, m)) == seq![limits_line(device, m)],
        text::trim_of(limits_line(device, m)) == limits_line(device, m),
        text::lacks(limits_line(device, m), '\n'),
        limits_line(device, m).len() > 0,
        text::is_digit(limits_line(device, m)[0]),
        !text::is_space(limits_line(device, m).last()),
{
    reveal_strlit(" rbps=");
    reveal_strlit(" wbps=");
    reveal_strlit(" riops=");
    reveal_strlit(" wiops=");
    let d = device.text();
    lemma_device_word(device);
    lemma_limit_text(m.rbps);
    lemma_limit_text(m.wbps);
    lemma_limit_text(m.riops);
    lemma_limit_text(m.wiops);
    let v = io_limit_text(m.wiops);
    let line = limits_line(device, m);
    assert(line[0] == d[0]);
    assert(line.last() == v.last() && !text::is_space(v[v.len() - 1]));
    assert(text::trim_start_of(line) == line);
    assert(text::trim_end_of(line) == line);
    assert(text::lacks(d, '\n')) by {
        assert forall|i: int| 0 <= i < d.len() implies d[i] != '\n' by {
            assert(!text::is_space(d[i]));
        }
    }
    let s1 = d + " rbps="@ + io_limit_text(m.rbps);
    let s2 = s1 + " wbps="@ + io_limit_text(m.wbps);
    let s3 = s2 + " riops="@ + io_limit_text(m.riops);
    text::lemma_lacks(d, " rbps="@, '\n');
    text::lemma_lacks(d + " rbps="@, io_limit_text(m.rbps), '\n');
    text::lemma_lacks(s1, " wbps="@, '\n');
    text::lemma_lacks(s1 + " wbps="@, io_limit_text(m.wbps), '\n');
    text::lemma_lacks(s2, " riops="@, '\n');
    text::lemma_lacks(s2 + " riops="@, io_limit_text(m.riops), '\n');
    text::lemma_lacks(s3, " wiops="@, '\n');
    text::lemma_lacks(s3 + " wiops="@, v, '\n');
    text::lemma_one_line(line);
}

/// A file with the limits of several devices, one to a line.
pub open spec fn limits_file(entries: Seq<(DeviceId, IoMax)>) -> Seq<char>
    decreases entries.len(),
{
    if entries.len() == 0 {
        Seq::empty()
    } else {
        (limits_file(entries.drop_last()) + limits_line(entries.last().0, entries.last().1)).push(
            '\n',
        )
    }
}

/// The lines of such a file.
pub open spec fn limits_lines(entries: Seq<(DeviceId, IoMax)>) -> Seq<Seq<char>> {
    entries.map_values(|e: (DeviceId, IoMax)| limits_line(e.0, e.1))
}

/// The limits that the entries hold for a device.
pub open spec fn limits_among(entries: Seq<(DeviceId, IoMax)>, target: DeviceId) -> Option<IoMax>
    decreases entries.len(),
{
    if entries.len() == 0 {
        None
    } else if entries[0].0 == target {
        Some(entries[0].1)
    } else {
        limits_among(entries.skip(1), target)
    }
}

/// A file of limits splits into its lines, with nothing behind the last one.
proof fn lemma_file_parts(entries: Seq<(DeviceId, IoMax)>)
    ensures
        text::split_on(limits_file(entries), '\n') == limits_lines(entries).push(
            Seq::<char>::empty(),
        ),
    decreases entries.len(),
{
    let none = Seq::<char>::empty();
    if entries.len() > 0 {
        let init = entries.drop_last();
        let prev = limits_file(init);
        let line = limits_line(entries.last().0, entries.last().1);
        lemma_file_parts(init);
        lemma_line_plain(entries.last().0, entries.last().1);
        text::lemma_split_extend(prev, line, '\n');
        let file = limits_file(entries);
        assert(file.drop_last() =~= prev + line);
        assert(none + line =~= line);
        assert(text::split_on(prev, '\n').drop_last() =~= limits_lines(init));
        assert(text::split_on(file, '\n') =~= limits_lines(entries).push(none));
    } else {
        assert(limits_lines(entries).push(none) =~= seq![none]);
    }
}

/// A file of limits begins with a digit.
proof fn lemma_file_start(entries: Seq<(DeviceId, IoMax)>)
    requires
        entries.len() > 0,
    ensures
        limits_file(entries).len() > 1,
        text::is_digit(limits_file(entries)[0]),
    decreases entries.len(),
{
    let init = entries.drop_last();
    lemma_line_plain(entries.last().0, entries.last().1);
    if init.len() > 0 {
        lemma_file_start(init);
        assert(limits_file(entries)[0] == limits_file(init)[0]);
    } else {
        let line = limits_line(entries.last().0, entries.last().1);
        assert(limits_file(init) =~= Seq::<char>::empty());
        assert(Seq::<char>::empty() + line =~= line);
        assert(limits_file(entries) == line.push('\n'));
    }
}

/// The lines of a file of limits, without the white space around them.
proof fn lemma_file_lines(entries: Seq<(DeviceId, IoMax)>)
    ensures
        text::lines_of(text::trim_of(limits_file(entries))) == limits_lines(entries),
{
    let file = limits_file(entries);
    if entries.len() == 0 {
        assert(text::split_on(file, '\n') =~= seq![Seq::<char>::empty()]);
        assert(text::lines_of(text::trim_of(file)) =~= limits_lines(entries));
    } else {
        let init = entries.drop_last();
        let prev = limits_file(init);
        let line = limits_line(entries.last().0, entries.last().1);
        lemma_file_start(entries);
        lemma_line_plain(entries.last().0, entries.last().1);
        lemma_file_parts(init);
        text::lemma_split_extend(prev, line, '\n');
        let body = prev + line;
        assert(file.drop_last() =~= body);
        assert(body.last() == line.last());
        assert(text::trim_start_of(file) == file);
        assert(text::trim_end_of(file) == text::trim_end_of(body));
        assert(text::trim_end_of(body) == body);
        let parts = text::split_on(body, '\n');
        assert(Seq::<char>::empty() + line =~= line);
        assert(text::split_on(prev, '\n').drop_last() =~= limits_lines(init));
        assert(parts =~= limits_lines(init).push(line));
        assert(parts.drop_last() =~= limits_lines(init));
        let ended = parts.drop_last().map_values(|l: Seq<char>| text::strip_cr(l));
        assert forall|i: int| 0 <= i < init.len() implies ended[i] == limits_lines(init)[i] by {
            lemma_line_plain(init[i].0, init[i].1);
        }
        assert(ended =~= limits_lines(init));
        assert(text::lines_of(body) =~= limits_lines(entries));
    }
}

/// The lines of limits state the limits of each device.
proof fn lemma_limits_found(entries: Seq<(DeviceId, IoMax)>, target: DeviceId)
    ensures
        limits_for(limits_lines(entries), target) == Ok::<Option<IoMax>, Fault>(
            limits_among(entries, target),
        ),
    decreases entries.len(),
{
    if entries.len() > 0 {
        let (d, m) = entries[0];
        let line = limits_line(d, m);
        lemma_line_plain(d, m);
        lemma_line_words(d, m);
        lemma_tokens(m);
        law_device_round_trip(d);
        lemma_limits_found(entries.skip(1), target);
        assert(limits_lines(entries)[0] == line);
        assert(limits_lines(entries).skip(1) =~= limits_lines(entries.skip(1)));
        assert(text::words_of(line).skip(1) =~= limit_tokens(m));
    }
}

/// What is found among the entries.
proof fn lemma_among(entries: Seq<(DeviceId, IoMax)>, target: DeviceId)
    ensures
        match limits_among(entries, target) {
            Some(m) => exists|i: int|
                0 <= i < entries.len() && #[trigger] entries[i] == (target, m),
            None => forall|i: int| 0 <= i < entries.len() ==> (#[trigger] entries[i]).0 != target,
        },
    decreases entries.len(),
{
    if entries.len() > 0 && entries[0].0 != target {
        let rest = entries.skip(1);
        lemma_among(rest, target);
        match limits_among(rest, target) {
            Some(m) => {
                let i = choose|i: int| 0 <= i < rest.len() && #[trigger] rest[i] == (target, m);
                assert(entries[i + 1] == (target, m));
            },
            None => {
                assert forall|i: int| 0 <= i < entries.len() implies (#[trigger] entries[i]).0
                    != target by {
                    if i > 0 {
                        assert(rest[i - 1] == entries[i]);
                    }
                }
            },
        }
    }
}

/// The limits that are written for devices are the limits that are read for them, and none
/// are read for any other device.
pub proof fn law_limits_round_trip(entries: Seq<(DeviceId, IoMax)>, target: DeviceId)
    requires
        forall|i: int, j: int|
            0 <= i < j < entries.len() ==> (#[trigger] entries[i]).0 != (#[trigger] entries[j]).0,
    ensures
        limits_for(text::lines_of(text::trim_of(limits_file(entries))), target) is Ok,
        forall|i: int|
            0 <= i < entries.len() && (#[trigger] entries[i]).0 == target ==> limits_for(
                text::lines_of(text::trim_of(limits_file(entries))),
                target,
            ) == Ok::<Option<IoMax>, Fault>(Some(entries[i].1)),
        (forall|i: int| 0 <= i < entries.len() ==> (#[trigger] entries[i]).0 != target)
            ==> limits_for(text::lines_of(text::trim_of(limits_file(entries))), target) == Ok::<
            Option<IoMax>,
            Fault,
        >(None),
{
    lemma_file_lines(entries);
    lemma_limits_found(entries, target);
    lemma_among(entries, target);
}

/// The line that sets the limits of a device names the device and each limit by its own key.
pub proof fn law_limits_are_written(device: DeviceId, m: IoMax)
    ensures
        text::words_of(limits_line(device, m)) == seq![
            device.text(),
            "rbps"@ + seq!['='] + io_limit_text(m.rbps),
            "wbps"@ + seq!['='] + io_limit_text(m.wbps),
            "riops"@ + seq!['='] + io_limit_text(m.riops),
            "wiops"@ + seq!['='] + io_limit_text(m.wiops),
        ],
        m.rbps matches Some(n) ==> io_limit_text(m.rbps) == text::decimal_text(n as nat),
        m.rbps is None ==> io_limit_text(m.rbps) == "max"@,
{
    lemma_line_words(device, m);
    assert(seq![device.text()] + limit_tokens(m) =~= seq![
        device.text(),
        "rbps"@ + seq!['='] + io_limit_text(m.rbps),
        "wbps"@ + seq!['='] + io_limit_text(m.wbps),
        "riops"@ + seq!['='] + io_limit_text(m.riops),
        "wiops"@ + seq!['='] + io_limit_text(m.wiops),
    ]);
}

/// The weight that `io.weight` states, behind an optional `default `.
pub open spec fn weight_of(content: Seq<char>) -> Result<nat, Fault> {
    let value = match text::after_prefix(content, "default "@) {
        Some(rest) => rest,
        None => content,
    };
    match text::unsigned_value(value, u64::MAX as nat) {
        Some(n) => Ok(n),
        None => Err(Fault { content, detail: "expected u64 for io.weight"@ }),
    }
}

/// The io controller of one cgroup.
pub struct IoController {
    pub path: String,
}

impl IoController {
    pub fn new(path: String) -> (r: Self)
        ensures
            r.path@ == path@,
    {
        IoController { path }
    }

    /// Reads `io.weight`.
    pub fn get_weight(&self, outcome: Option<Result<String, String>>) -> (r: Reading<u64>)
        ensures
            util::reads(
                r,
                util::path_join(self.path@, "io.weight"@),
                outcome,
                |t: Seq<char>, d: Result<u64, CgroupError>|
                    util::agrees_u64(d, util::path_join(self.path@, "io.weight"@), weight_of(t)),
            ),
    {
        let file = join(self.path.as_str(), "io.weight");
        match outcome {
            None => Reading::Need(file),
            Some(o) => match read_cgroup_file(file.as_str(), o) {
                Err(e) => Reading::Done(Err(e)),
                Ok(content) => {
                    let value = match strip_prefix(content.as_str(), "default ") {
                        Some(rest) => rest,
                        None => content.clone(),
                    };
                    match parse_u64(value.as_str()) {
                        Some(n) => Reading::Done(Ok(n)),
                        None => Reading::Done(
                            Err(
                                parse_error(
                                    file.as_str(),
                                    content.as_str(),
                                    "expected u64 for io.weight",
                                ),
                            ),
                        ),
                    }
                },
            },
        }
    }

    /// Sets `io.weight`, which is between 1 and 10000.
    pub fn set_weight(&self, weight: u64) -> (r: Result<FileWrite, CgroupError>)
        ensures
            match r {
                Ok(w) => 1 <= weight <= 10000 && w.is(
                    self.path@,
                    "io.weight"@,
                    "default "@ + text::decimal_text(weight as nat),
                ),
                Err(e) => !(1 <= weight <= 10000) && e.is_invalid(
                    "io.weight"@,
                    text::decimal_text(weight as nat),
                    "1-10000"@,
                ),
            },
    {
        if !(1 <= weight && weight <= 10000) {
            return Err(
                CgroupError::InvalidValue {
                    field: "io.weight".to_owned(),
                    value: u64_text(weight),
                    expected: "1-10000".to_owned(),
                },
            );
        }
        let value = cat("default ", u64_text(weight).as_str());
        Ok(FileWrite::of(self.path.as_str(), "io.weight", value))
    }

    /// Reads the limits of a device from `io.max`.
    pub fn get_max(&self, device: DeviceId, outcome: Option<Result<String, String>>) -> (r: Reading<
        Option<IoMax>,
    >)
        ensures
            util::reads(
                r,
                util::path_join(self.path@, "io.max"@),
                outcome,
                |t: Seq<char>, d: Result<Option<IoMax>, CgroupError>|
                    agrees_limits(
                        d,
                        util::path_join(self.path@, "io.max"@),
                        limits_for(text::lines_of(t), device),
                    ),
            ),
    {
        let file = join(self.path.as_str(), "io.max");
        match outcome {
            None => Reading::Need(file),
            Some(o) => match read_cgroup_file(file.as_str(), o) {
                Ok(content) => Reading::Done(
                    parse_io_max_for_device(file.as_str(), content.as_str(), device),
                ),
                Err(e) => Reading::Done(Err(e)),
            },
        }
    }

    /// Sets the limits of a device in `io.max`.
    pub fn set_max(&self, device: DeviceId, limits: &IoMax) -> (r: FileWrite)
        ensures
            r.is(self.path@, "io.max"@, limits_line(device, *limits)),
    {
        let mut line = device.to_string();
        line.append(" rbps=");
        line.append(format_limit(limits.rbps).as_str());
        line.append(" wbps=");
        line.append(format_limit(limits.wbps).as_str());
        line.append(" riops=");
        line.append(format_limit(limits.riops).as_str());
        line.append(" wiops=");
        line.append(format_limit(limits.wiops).as_str());
        FileWrite::of(self.path.as_str(), "io.max", line)
    }

    /// Reads `io.stat`.
    pub fn get_stat(&self, outcome: Option<Result<String, String>>) -> (r: Reading<Vec<IoStat>>)
        ensures
            util::reads(
                r,
                util::path_join(self.path@, "io.stat"@),
                outcome,
                |t: Seq<char>, d: Result<Vec<IoStat>, CgroupError>|
                    agrees_counters(
                        d,
                        util::path_join(self.path@, "io.stat"@),
                        line_counters(text::lines_of(t)),
                    ),
            ),
    {
        let file = join(self.path.as_str(), "io.stat");
        match outcome {
            None => Reading::Need(file),
            Some(o) => match read_cgroup_file(file.as_str(), o) {
                Ok(content) => Reading::Done(parse_io_stat(file.as_str(), content.as_str())),
                Err(e) => Reading::Done(Err(e)),
            },
        }
    }

    /// Reads `io.pressure`.
    pub fn get_pressure(&self, outcome: Option<Result<String, String>>) -> (r: Reading<
        PressureStats,
    >)
        ensures
            pressure::reads_pressure(r, self.path@, "io.pressure"@, outcome),
    {
        read_pressure(join(self.path.as_str(), "io.pressure").as_str(), outcome)
    }
}

} // verus!
