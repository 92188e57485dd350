//! How long processes waited for a resource.

use vstd::prelude::*;

use crate::cgroup::error::{CgroupError, Fault};
use crate::cgroup::util::{parse_error, read_cgroup_file, Reading};
use crate::text;
use crate::text::{cat, debug_quoted, lines, parse_u64, same, split_once, to_lower, trim, words};

verus! {

/// One record of pressure stall information. The averages are decimal numbers
/// in the form in which the kernel wrote them.
#[derive(Debug, Clone)]
pub struct PressureRecord {
    pub avg10: String,
    pub avg60: String,
    pub avg300: String,
    pub total: u64,
}

/// The pressure on one resource. Only `some` is reported for every resource.
#[derive(Debug, Clone)]
pub struct PressureStats {
    pub some: PressureRecord,
    pub full: Option<PressureRecord>,
}

/// The mathematical reading of a record.
pub struct Pressure {
    pub avg10: Seq<char>,
    pub avg60: Seq<char>,
    pub avg300: Seq<char>,
    pub total: nat,
}

impl PressureRecord {
    pub open spec fn view(self) -> Pressure {
        Pressure {
            avg10: self.avg10@,
            avg60: self.avg60@,
            avg300: self.avg300@,
            total: self.total as nat,
        }
    }
}

/// The text behind an optional sign.
pub open spec fn unsigned_part(s: Seq<char>) -> Seq<char> {
    if s.len() > 0 && (s[0] == '+' || s[0] == '-') {
        s.skip(1)
    } else {
        s
    }
}

/// Digits with at most one decimal point, and at least one digit.
pub open spec fn is_mantissa(m: Seq<char>) -> bool {
    match text::split_once_on(m, '.') {
        None => m.len() > 0 && text::all_digits(m),
        Some((a, b)) => a.len() + b.len() > 0 && text::all_digits(a)
            && text::all_digits(b),
    }
}

/// `s` denotes a floating point number: a sign, then `inf`, `infinity`, `nan`
/// or a decimal number with an optional exponent.
pub open spec fn is_float(s: Seq<char>) -> bool {
    let b = text::lower(unsigned_part(s));
    ||| b == "inf"@
    ||| b == "infinity"@
    ||| b == "nan"@
    ||| match text::split_once_on(b, 'e') {
        None => is_mantissa(b),
        Some((m, e)) => is_mantissa(m) && unsigned_part(e).len() > 0 && text::all_digits(
            unsigned_part(e),
        ),
    }
}

/// The text behind an optional sign.
fn without_sign(s: &str) -> (r: String)
    ensures
        r@ == unsigned_part(s@),
{
    let v = text::chars_of(s);
    if v.len() > 0 && (v[0] == '+' || v[0] == '-') {
        let r = text::string_range(&v, 1, v.len());
        assert(r@ =~= s@.skip(1));
        r
    } else {
        s.to_owned()
    }
}

/// Tells whether `s` is made of digits alone.
fn digits_only(s: &str) -> (r: bool)
    ensures
        r == text::all_digits(s@),
{
    let v = text::chars_of(s);
    let mut i: usize = 0;
    while i < v.len()
        invariant
            i <= v.len(),
            v@ == s@,
            forall|j: int| 0 <= j < i ==> text::is_digit(#[trigger] v@[j]),
        decreases v.len() - i,
    {
        if !('0' <= v[i] && v[i] <= '9') {
            assert(!text::is_digit(s@[i as int]));
            return false;
        }
        i += 1;
    }
    true
}

/// Tells whether `m` is a decimal number without sign and exponent.
fn mantissa(m: &str) -> (r: bool)
    ensures
        r == is_mantissa(m@),
{
    match split_once(m, '.') {
        None => !m.is_empty() && digits_only(m),
        Some((a, b)) => {
            (!a.as_str().is_empty() || !b.as_str().is_empty()) && digits_only(a.as_str())
                && digits_only(b.as_str())
        },
    }
}

/// Tells whether `s` denotes a floating point number.
pub fn float_text(s: &str) -> (r: bool)
    ensures
        r == is_float(s@),
{
    let body = to_lower(without_sign(s).as_str());
    if same(body.as_str(), "inf") || same(body.as_str(), "infinity") || same(body.as_str(), "nan") {
        return true;
    }
    match split_once(body.as_str(), 'e') {
        None => mantissa(body.as_str()),
        Some((m, e)) => {
            let e = without_sign(e.as_str());
            mantissa(m.as_str()) && !e.as_str().is_empty() && digits_only(e.as_str())
        },
    }
}

/// The record before any field of the line is read.
pub open spec fn no_pressure() -> Pressure {
    Pressure { avg10: "0"@, avg60: "0"@, avg300: "0"@, total: 0 }
}

/// A fault in the pressure line `line`.
pub open spec fn line_fault(line: Seq<char>, what: Seq<char>, shown: Seq<char>) -> Fault {
    Fault { content: line, detail: what + text::debug_text(shown) }
}

/// The record with one more `key=value` token of `line` read.
pub open spec fn with_token(line: Seq<char>, p: Pressure, token: Seq<char>) -> Result<
    Pressure,
    Fault,
> {
    match text::split_once_on(token, '=') {
        None => Err(line_fault(line, "invalid key=value token: "@, token)),
        Some((key, value)) => if key == "avg10"@ {
            if is_float(value) {
                Ok(Pressure { avg10: value, ..p })
            } else {
                Err(line_fault(line, "invalid avg10: "@, value))
            }
        } else if key == "avg60"@ {
            if is_float(value) {
                Ok(Pressure { avg60: value, ..p })
            } else {
                Err(line_fault(line, "invalid avg60: "@, value))
            }
        } else if key == "avg300"@ {
            if is_float(value) {
                Ok(Pressure { avg300: value, ..p })
            } else {
                Err(line_fault(line, "invalid avg300: "@, value))
            }
        } else if key == "total"@ {
            match text::unsigned_value(value, u64::MAX as nat) {
                Some(n) => Ok(Pressure { total: n, ..p }),
                None => Err(line_fault(line, "invalid total: "@, value)),
            }
        } else {
            Ok(p)
        },
    }
}

/// The record that the tokens of `line` make, continuing from `p`.
pub open spec fn token_record(line: Seq<char>, p: Pressure, tokens: Seq<Seq<char>>) -> Result<
    Pressure,
    Fault,
>
    decreases tokens.len(),
{
    if tokens.len() == 0 {
        Ok(p)
    } else {
        match with_token(line, p, tokens[0]) {
            Ok(q) => token_record(line, q, tokens.skip(1)),
            Err(f) => Err(f),
        }
    }
}

/// The kind and the record of one line.
pub open spec fn pressure_line(line: Seq<char>) -> Result<(Seq<char>, Pressure), Fault> {
    let w = text::words_of(line);
    if w.len() == 0 {
        Err(Fault { content: line, detail: "empty pressure line"@ })
    } else {
        match token_record(line, no_pressure(), w.skip(1)) {
            Ok(p) => Ok((w[0], p)),
            Err(f) => Err(f),
        }
    }
}

/// The last `some` and the last `full` record of the lines, continuing from
/// `found`.
pub open spec fn pressure_lines(
    found: (Option<Pressure>, Option<Pressure>),
    lines: Seq<Seq<char>>,
) -> Result<(Option<Pressure>, Option<Pressure>), Fault>
    decreases lines.len(),
{
    if lines.len() == 0 {
        Ok(found)
    } else {
        let line = text::trim_of(lines[0]);
        if line.len() == 0 {
            pressure_lines(found, lines.skip(1))
        } else {
            match pressure_line(line) {
                Err(f) => Err(f),
                Ok((kind, p)) => pressure_lines(
                    if kind == "some"@ {
                        (Some(p), found.1)
                    } else if kind == "full"@ {
                        (found.0, Some(p))
                    } else {
                        found
                    },
                    lines.skip(1),
                ),
            }
        }
    }
}

/// The pressure that a whole file states.
pub open spec fn pressure_of(content: Seq<char>) -> Result<(Pressure, Option<Pressure>), Fault> {
    match pressure_lines((None, None), text::lines_of(content)) {
        Err(f) => Err(f),
        Ok((None, _)) => Err(Fault { content, detail: "missing 'some' pressure line"@ }),
        Ok((Some(some), full)) => Ok((some, full)),
    }
}

/// The reading of an optional record.
pub open spec fn optional(r: Option<PressureRecord>) -> Option<Pressure> {
    match r {
        Some(p) => Some(p.view()),
        None => None,
    }
}

/// The executable result `r` is what the specification `s` says.
pub open spec fn agrees_pressure(
    r: Result<PressureStats, CgroupError>,
    path: Seq<char>,
    s: Result<(Pressure, Option<Pressure>), Fault>,
) -> bool {
    match (r, s) {
        (Ok(v), Ok(p)) => v.some.view() == p.0 && optional(v.full) == p.1,
        (Err(e), Err(f)) => e.is_fault(path, f),
        _ => false,
    }
}

/// The getter reads the pressure file `name` below `base`.
pub open spec fn reads_pressure(
    r: Reading<PressureStats>,
    base: Seq<char>,
    name: Seq<char>,
    outcome: Option<Result<String, String>>,
) -> bool {
    crate::cgroup::util::reads(
        r,
        crate::cgroup::util::path_join(base, name),
        outcome,
        |t: Seq<char>, d: Result<PressureStats, CgroupError>|
            agrees_pressure(d, crate::cgroup::util::path_join(base, name), pressure_of(t)),
    )
}

/// An average, or the error that `value` is none.
fn average(path: &str, line: &str, what: &str, value: String) -> (r: Result<String, CgroupError>)
    ensures
        match r {
            Ok(v) => is_float(value@) && v@ == value@,
            Err(e) => !is_float(value@) && e.is_fault(path@, line_fault(line@, what@, value@)),
        },
{
    if float_text(value.as_str()) {
        Ok(value)
    } else {
        let detail = cat(what, debug_quoted(value.as_str()).as_str());
        Err(parse_error(path, line, detail.as_str()))
    }
}

/// Reads one more token of `line` into the record.
fn read_token(path: &str, line: &str, record: PressureRecord, token: &str) -> (r: Result<
    PressureRecord,
    CgroupError,
>)
    ensures
        match (r, with_token(line@, record.view(), token@)) {
            (Ok(v), Ok(p)) => v.view() == p,
            (Err(e), Err(f)) => e.is_fault(path@, f),
            _ => false,
        },
{
    let PressureRecord { avg10, avg60, avg300, total } = record;
    match split_once(token, '=') {
        None => {
            let detail = cat("invalid key=value token: ", debug_quoted(token).as_str());
            Err(parse_error(path, line, detail.as_str()))
        },
        Some((key, value)) => {
            if same(key.as_str(), "avg10") {
                match average(path, line, "invalid avg10: ", value) {
                    Ok(v) => Ok(PressureRecord { avg10: v, avg60, avg300, total }),
                    Err(e) => Err(e),
                }
            } else if same(key.as_str(), "avg60") {
                match average(path, line, "invalid avg60: ", value) {
                    Ok(v) => Ok(PressureRecord { avg10, avg60: v, avg300, total }),
                    Err(e) => Err(e),
                }
            } else if same(key.as_str(), "avg300") {
                match average(path, line, "invalid avg300: ", value) {
                    Ok(v) => Ok(PressureRecord { avg10, avg60, avg300: v, total }),
                    Err(e) => Err(e),
                }
            } else if same(key.as_str(), "total") {
                match parse_u64(value.as_str()) {
                    Some(n) => Ok(PressureRecord { avg10, avg60, avg300, total: n }),
                    None => {
                        let detail = cat("invalid total: ", debug_quoted(value.as_str()).as_str());
                        Err(parse_error(path, line, detail.as_str()))
                    },
                }
            } else {
                Ok(PressureRecord { avg10, avg60, avg300, total })
            }
        },
    }
}

/// Parses a line like `some avg10=0.00 avg60=0.00 avg300=0.00 total=0` into its
/// kind and its record.
pub fn parse_pressure_line(path: &str, line: &str) -> (r: Result<
    (String, PressureRecord),
    CgroupError,
>)
    ensures
        match (r, pressure_line(line@)) {
            (Ok(v), Ok(p)) => v.0@ == p.0 && v.1.view() == p.1,
            (Err(e), Err(f)) => e.is_fault(path@, f),
            _ => false,
        },
{
    let parts = words(line);
    let ghost w = text::words_of(line@);
    if parts.len() == 0 {
        return Err(parse_error(path, line, "empty pressure line"));
    }
    let mut record = PressureRecord {
        avg10: "0".to_owned(),
        avg60: "0".to_owned(),
        avg300: "0".to_owned(),
        total: 0,
    };
    let mut i: usize = 1;
    while i < parts.len()
        invariant
            1 <= i <= parts.len(),
            text::views(parts@) == w,
            w == text::words_of(line@),
            token_record(line@, record.view(), w.skip(i as int)) == token_record(
                line@,
                no_pressure(),
                w.skip(1),
            ),
        decreases parts.len() - i,
    {
        proof {
            assert(w.skip(i as int)[0] == parts[i as int]@);
            assert(w.skip(i as int).skip(1) =~= w.skip(i + 1));
        }
        match read_token(path, line, record, parts[i].as_str()) {
            Ok(next) => {
                record = next;
            },
            Err(e) => {
                return Err(e);
            },
        }
        i += 1;
    }
    assert(w[0] == parts[0]@);
    assert(w.skip(parts.len() as int).len() == 0);
    Ok((parts[0].clone(), record))
}

/// Parses the content of a pressure file.
pub fn parse_pressure(path: &str, content: &str) -> (r: Result<PressureStats, CgroupError>)
    ensures
        agrees_pressure(r, path@, pressure_of(content@)),
{
    let all = lines(content);
    let ghost ls = text::lines_of(content@);
    let mut some: Option<PressureRecord> = None;
    let mut full: Option<PressureRecord> = None;
    let mut i: usize = 0;
    assert(ls.skip(0) =~= ls);
    while i < all.len()
        invariant
            i <= all.len(),
            text::views(all@) == ls,
            ls == text::lines_of(content@),
            pressure_lines((optional(some), optional(full)), ls.skip(i as int)) == pressure_lines(
                (None, None),
                ls,
            ),
        decreases all.len() - i,
    {
        let line = trim(all[i].as_str());
        proof {
            assert(ls.skip(i as int)[0] == all[i as int]@);
            assert(ls.skip(i as int).skip(1) =~= ls.skip(i + 1));
        }
        if !line.as_str().is_empty() {
            match parse_pressure_line(path, line.as_str()) {
                Ok((kind, record)) => {
                    if same(kind.as_str(), "some") {
                        some = Some(record);
                    } else if same(kind.as_str(), "full") {
                        full = Some(record);
                    }
                },
                Err(e) => {
                    return Err(e);
                },
            }
        }
        i += 1;
    }
    match some {
        Some(some) => Ok(PressureStats { some, full }),
        None => Err(parse_error(path, content, "missing 'some' pressure line")),
    }
}

/// Reads the pressure file `path`.
pub fn read_pressure(path: &str, outcome: Option<Result<String, String>>) -> (r: Reading<
    PressureStats,
>)
    ensures
        crate::cgroup::util::reads(
            r,
            path@,
            outcome,
            |t: Seq<char>, d: Result<PressureStats, CgroupError>|
                agrees_pressure(d, path@, pressure_of(t)),
        ),
{
    match outcome {
        None => Reading::Need(path.to_owned()),
        Some(o) => match read_cgroup_file(path, o) {
            Ok(content) => Reading::Done(parse_pressure(path, content.as_str())),
            Err(e) => Reading::Done(Err(e)),
        },
    }
}

} // verus!
