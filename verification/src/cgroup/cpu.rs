//! Limits on processor time, and what was used.

use vstd::prelude::*;

use crate::cgroup::error::{CgroupError, Fault};
use crate::cgroup::pressure;
use crate::cgroup::pressure::{read_pressure, PressureStats};
use crate::cgroup::util;
use crate::cgroup::util::{
    join, lookup_key, parse_error, read_cgroup_file, read_flat_keyed, read_u64, FileWrite, Reading,
};
use crate::text;
use crate::text::{cat, debug_quoted, parse_u64, same, u64_text, words};

verus! {

/// A bandwidth limit: how much of each period may be used.
#[derive(Debug, Clone)]
pub struct CpuMax {
    /// Quota in microseconds, or `None` for unlimited.
    pub quota_usec: Option<u64>,
    /// Period in microseconds.
    pub period_usec: u64,
}

impl CpuMax {
    /// No throttling.
    pub fn unlimited() -> (r: Self)
        ensures
            r == (CpuMax { quota_usec: None, period_usec: 100_000 }),
    {
        CpuMax { quota_usec: None, period_usec: 100_000 }
    }

    /// A limit of `percent` of one CPU.
    pub fn from_percent(percent: u64) -> (r: Self)
        requires
            percent * 1_000 <= u64::MAX,
        ensures
            r.quota_usec == Some((percent * 1_000) as u64),
            r.period_usec == 100_000,
    {
        CpuMax { quota_usec: Some(percent * 1_000), period_usec: 100_000 }
    }

    /// The form in which the limit is written to `cpu.max`.
    pub open spec fn text(self) -> Seq<char> {
        (match self.quota_usec {
            Some(q) => text::decimal_text(q as nat),
            None => "max"@,
        }) + " "@ + text::decimal_text(self.period_usec as nat)
    }
}

/// CPU usage from `cpu.stat`.
#[derive(Debug, Clone)]
pub struct CpuStat {
    pub usage_usec: u64,
    pub user_usec: u64,
    pub system_usec: u64,
    pub nr_periods: u64,
    pub nr_throttled: u64,
    pub throttled_usec: u64,
}

impl CpuStat {
    /// Every field is the value of the entry of its name.
    pub open spec fn is_from(self, entries: Seq<(Seq<char>, nat)>) -> bool {
        &&& self.usage_usec == util::lookup(entries, "usage_usec"@)
        &&& self.user_usec == util::lookup(entries, "user_usec"@)
        &&& self.system_usec == util::lookup(entries, "system_usec"@)
        &&& self.nr_periods == util::lookup(entries, "nr_periods"@)
        &&& self.nr_throttled == util::lookup(entries, "nr_throttled"@)
        &&& self.throttled_usec == util::lookup(entries, "throttled_usec"@)
    }
}

/// The bandwidth limit that `cpu.max` states: a quota or `max`, and a period
/// that defaults to 100 ms.
pub open spec fn cpu_max_of(content: Seq<char>) -> Result<CpuMax, Fault> {
    let w = text::words_of(content);
    let period = if w.len() > 1 {
        w[1]
    } else {
        "100000"@
    };
    let quota_value = text::unsigned_value(w[0], u64::MAX as nat);
    if w.len() == 0 {
        Err(Fault { content, detail: "empty cpu.max"@ })
    } else if w[0] != "max"@ && quota_value is None {
        Err(Fault { content, detail: "invalid quota: "@ + text::debug_text(w[0]) })
    } else {
        match text::unsigned_value(period, u64::MAX as nat) {
            None => Err(
                Fault { content, detail: "invalid period: "@ + text::debug_text(period) },
            ),
            Some(p) => Ok(
                CpuMax {
                    quota_usec: if w[0] == "max"@ {
                        None
                    } else {
                        Some(quota_value->0 as u64)
                    },
                    period_usec: p as u64,
                },
            ),
        }
    }
}

/// The executable result `r` is what the specification `s` says.
pub open spec fn agrees_cpu_max(
    r: Result<CpuMax, CgroupError>,
    path: Seq<char>,
    s: Result<CpuMax, Fault>,
) -> bool {
    match (r, s) {
        (Ok(v), Ok(m)) => v == m,
        (Err(e), Err(f)) => e.is_fault(path, f),
        _ => false,
    }
}

/// Parses the content of `cpu.max`.
pub fn parse_cpu_max(path: &str, content: &str) -> (r: Result<CpuMax, CgroupError>)
    ensures
        agrees_cpu_max(r, path@, cpu_max_of(content@)),
{
    let parts = words(content);
    let ghost w = text::words_of(content@);
    if parts.len() == 0 {
        return Err(parse_error(path, content, "empty cpu.max"));
    }
    assert(w[0] == parts[0]@);
    let quota_usec = if same(parts[0].as_str(), "max") {
        None
    } else {
        match parse_u64(parts[0].as_str()) {
            Some(q) => Some(q),
            None => {
                let detail = cat("invalid quota: ", debug_quoted(parts[0].as_str()).as_str());
                return Err(parse_error(path, content, detail.as_str()));
            },
        }
    };
    let period = if parts.len() > 1 {
        assert(w[1] == parts[1]@);
        parts[1].clone()
    } else {
        "100000".to_owned()
    };
    match parse_u64(period.as_str()) {
        Some(period_usec) => Ok(CpuMax { quota_usec, period_usec }),
        None => {
            let detail = cat("invalid period: ", debug_quoted(period.as_str()).as_str());
            Err(parse_error(path, content, detail.as_str()))
        },
    }
}

/// What is written to `cpu.max` reads back as the same limit.
pub proof fn law_cpu_max_round_trip(max: CpuMax)
    ensures
        cpu_max_of(max.text()) == Ok::<CpuMax, Fault>(max),
{
    reveal_strlit("max");
    reveal_strlit(" ");
    let quota = match max.quota_usec {
        Some(q) => text::decimal_text(q as nat),
        None => "max"@,
    };
    let period = text::decimal_text(max.period_usec as nat);
    match max.quota_usec {
        Some(q) => {
            text::law_decimal_round_trip(q as nat);
            assert(text::is_digit(quota[0]));
            assert("max"@[0] == 'm');
        },
        None => {},
    }
    text::law_decimal_round_trip(max.period_usec as nat);
    text::lemma_word_of_digits(period);
    assert(text::is_word(quota)) by {
        if max.quota_usec is Some {
            text::lemma_word_of_digits(quota);
        }
    }
    let none = Seq::<char>::empty();
    assert(none + quota =~= quota);
    text::lemma_words_push(none, quota);
    text::lemma_words_space(quota);
    assert(quota.push(' ') =~= quota + " "@);
    text::lemma_words_push(quota + " "@, period);
    assert(text::words_of(max.text()) =~= seq![quota, period]);
}

/// The cpu controller of one cgroup.
pub struct CpuController {
    pub path: String,
}

impl CpuController {
    pub fn new(path: String) -> (r: Self)
        ensures
            r.path@ == path@,
    {
        CpuController { path }
    }

    /// Reads `cpu.max`.
    pub fn get_max(&self, outcome: Option<Result<String, String>>) -> (r: Reading<CpuMax>)
        ensures
            util::reads(
                r,
                util::path_join(self.path@, "cpu.max"@),
                outcome,
                |t: Seq<char>, d: Result<CpuMax, CgroupError>|
                    agrees_cpu_max(
                        d,
                        util::path_join(self.path@, "cpu.max"@),
                        cpu_max_of(t),
                    ),
            ),
    {
        let file = join(self.path.as_str(), "cpu.max");
        match outcome {
            None => Reading::Need(file),
            Some(o) => match read_cgroup_file(file.as_str(), o) {
                Ok(content) => Reading::Done(parse_cpu_max(file.as_str(), content.as_str())),
                Err(e) => Reading::Done(Err(e)),
            },
        }
    }

    /// Sets `cpu.max`.
    pub fn set_max(&self, max: &CpuMax) -> (r: FileWrite)
        ensures
            r.is(self.path@, "cpu.max"@, max.text()),
    {
        let mut value = match max.quota_usec {
            Some(q) => u64_text(q),
            None => "max".to_owned(),
        };
        value.append(" ");
        value.append(u64_text(max.period_usec).as_str());
        FileWrite::of(self.path.as_str(), "cpu.max", value)
    }

    /// Reads `cpu.weight`.
    pub fn get_weight(&self, outcome: Option<Result<String, String>>) -> (r: Reading<u64>)
        ensures
            util::reads_number(r, self.path@, "cpu.weight"@, outcome),
    {
        read_u64(join(self.path.as_str(), "cpu.weight").as_str(), outcome)
    }

    /// Sets `cpu.weight`, which is between 1 and 10000.
    pub fn set_weight(&self, weight: u64) -> (r: Result<FileWrite, CgroupError>)
        ensures
            match r {
                Ok(w) => 1 <= weight <= 10000 && w.is(
                    self.path@,
                    "cpu.weight"@,
                    text::decimal_text(weight as nat),
                ),
                Err(e) => !(1 <= weight <= 10000) && e.is_invalid(
                    "cpu.weight"@,
                    text::decimal_text(weight as nat),
                    "1-10000"@,
                ),
            },
    {
        if !(1 <= weight && weight <= 10000) {
            return Err(
                CgroupError::InvalidValue {
                    field: "cpu.weight".to_owned(),
                    value: u64_text(weight),
                    expected: "1-10000".to_owned(),
                },
            );
        }
        Ok(FileWrite::of(self.path.as_str(), "cpu.weight", u64_text(weight)))
    }

    /// Reads `cpu.stat`.
    pub fn get_stat(&self, outcome: Option<Result<String, String>>) -> (r: Reading<CpuStat>)
        ensures
            util::reads(
                r,
                util::path_join(self.path@, "cpu.stat"@),
                outcome,
                |t: Seq<char>, d: Result<CpuStat, CgroupError>|
                    match (d, util::flat_keyed(t)) {
                        (Ok(s), Ok(entries)) => s.is_from(entries),
                        (Err(e), Err(f)) => e.is_fault(
                            util::path_join(self.path@, "cpu.stat"@),
                            f,
                        ),
                        _ => false,
                    },
            ),
    {
        let file = join(self.path.as_str(), "cpu.stat");
        match read_flat_keyed(file.as_str(), outcome) {
            Reading::Need(p) => Reading::Need(p),
            Reading::Done(Err(e)) => Reading::Done(Err(e)),
            Reading::Done(Ok(v)) => {
                let entries = v.as_slice();
                Reading::Done(
                    Ok(
                        CpuStat {
                            usage_usec: lookup_key(entries, "usage_usec"),
                            user_usec: lookup_key(entries, "user_usec"),
                            system_usec: lookup_key(entries, "system_usec"),
                            nr_periods: lookup_key(entries, "nr_periods"),
                            nr_throttled: lookup_key(entries, "nr_throttled"),
                            throttled_usec: lookup_key(entries, "throttled_usec"),
                        },
                    ),
                )
            },
        }
    }

    /// Reads `cpu.pressure`.
    pub fn get_pressure(&self, outcome: Option<Result<String, String>>) -> (r: Reading<
        PressureStats,
    >)
        ensures
            pressure::reads_pressure(r, self.path@, "cpu.pressure"@, outcome),
    {
        read_pressure(join(self.path.as_str(), "cpu.pressure").as_str(), outcome)
    }
}

} // verus!
