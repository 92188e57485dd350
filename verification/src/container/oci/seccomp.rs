//! The system call filter that a configuration asks for.

use vstd::prelude::*;

use crate::json;
use crate::json::{Js, Json};
use crate::text;
use crate::text::{cat, debug_quoted, same};

verus! {

/// What to do with some system calls.
#[derive(Debug)]
pub struct SeccompRule {
    pub action: u32,
    pub names: Vec<String>,
}

/// The filter of a container.
#[derive(Debug)]
pub struct SeccompProfile {
    pub default_action: u32,
    pub rules: Vec<SeccompRule>,
}

/// The reading of a rule.
pub ghost struct Rule {
    pub action: u32,
    pub names: Seq<Seq<char>>,
}

/// The reading of a filter.
pub ghost struct Profile {
    pub default_action: u32,
    pub rules: Seq<Rule>,
}

impl SeccompRule {
    pub open spec fn view(self) -> Rule {
        Rule { action: self.action, names: text::views(self.names@) }
    }

    /// A copy of the rule.
    pub fn copy(&self) -> (r: SeccompRule)
        ensures
            r.view() == self.view(),
    {
        let names = text::copy_texts(&self.names);
        SeccompRule { action: self.action, names }
    }
}

/// The readings of the rules.
pub open spec fn rules_view(v: Seq<SeccompRule>) -> Seq<Rule> {
    v.map_values(|r: SeccompRule| r.view())
}

impl SeccompProfile {
    pub open spec fn view(self) -> Profile {
        Profile { default_action: self.default_action, rules: rules_view(self.rules@) }
    }

    /// A copy of the filter.
    pub fn copy(&self) -> (r: SeccompProfile)
        ensures
            r.view() == self.view(),
    {
        let mut rules: Vec<SeccompRule> = Vec::new();
        let mut i: usize = 0;
        while i < self.rules.len()
            invariant
                i <= self.rules.len(),
                rules.len() == i,
                forall|k: int|
                    0 <= k < i ==> (#[trigger] rules@[k]).view() == self.rules@[k].view(),
            decreases self.rules.len() - i,
        {
            rules.push(self.rules[i].copy());
            i += 1;
        }
        assert(rules_view(rules@) =~= rules_view(self.rules@));
        SeccompProfile { default_action: self.default_action, rules }
    }
}

pub const ACT_KILL_PROCESS: u32 = 0x8000_0000;

pub const ACT_KILL_THREAD: u32 = 0x0000_0000;

pub const ACT_TRAP: u32 = 0x0003_0000;

pub const ACT_ERRNO: u32 = 0x0005_0000;

pub const ACT_LOG: u32 = 0x7ffc_0000;

pub const ACT_ALLOW: u32 = 0x7fff_0000;

/// The error number of a call that is not permitted.
pub const EPERM: u32 = 1;

/// The code of an action; one that makes a call fail carries the error number.
pub open spec fn action_of(raw: Seq<char>, errno: Option<u32>) -> Result<u32, Seq<char>> {
    if raw == "SCMP_ACT_KILL"@ || raw == "SCMP_ACT_KILL_THREAD"@ {
        Ok(ACT_KILL_THREAD)
    } else if raw == "SCMP_ACT_KILL_PROCESS"@ {
        Ok(ACT_KILL_PROCESS)
    } else if raw == "SCMP_ACT_TRAP"@ {
        Ok(ACT_TRAP)
    } else if raw == "SCMP_ACT_ERRNO"@ {
        let number = match errno {
            Some(n) => n,
            None => EPERM,
        };
        Ok(ACT_ERRNO | (number & 0xffff))
    } else if raw == "SCMP_ACT_LOG"@ {
        Ok(ACT_LOG)
    } else if raw == "SCMP_ACT_ALLOW"@ {
        Ok(ACT_ALLOW)
    } else {
        Err("unsupported OCI seccomp action "@ + text::debug_text(raw))
    }
}

/// The code of an action.
pub fn seccomp_action(raw: &str, errno_ret: Option<u32>) -> (r: Result<u32, String>)
    ensures
        match (r, action_of(raw@, errno_ret)) {
            (Ok(n), Ok(s)) => n == s,
            (Err(m), Err(e)) => m@ == e,
            _ => false,
        },
{
    if same(raw, "SCMP_ACT_KILL") || same(raw, "SCMP_ACT_KILL_THREAD") {
        Ok(ACT_KILL_THREAD)
    } else if same(raw, "SCMP_ACT_KILL_PROCESS") {
        Ok(ACT_KILL_PROCESS)
    } else if same(raw, "SCMP_ACT_TRAP") {
        Ok(ACT_TRAP)
    } else if same(raw, "SCMP_ACT_ERRNO") {
        let number: u32 = match errno_ret {
            Some(n) => n,
            None => EPERM,
        };
        Ok(ACT_ERRNO | (number & 0xffff))
    } else if same(raw, "SCMP_ACT_LOG") {
        Ok(ACT_LOG)
    } else if same(raw, "SCMP_ACT_ALLOW") {
        Ok(ACT_ALLOW)
    } else {
        Err(cat("unsupported OCI seccomp action ", debug_quoted(raw).as_str()))
    }
}

/// The only architecture that is filtered.
pub open spec fn native() -> Seq<char> {
    "SCMP_ARCH_X86_64"@
}

/// The error for an architecture.
pub open spec fn arch_text(arch: Seq<char>) -> Seq<char> {
    "unsupported OCI seccomp architecture "@ + text::debug_text(arch)
        + "; Set 4 enforces native x86_64 only"@
}

/// The first architecture that is not filtered.
pub open spec fn foreign(arches: Seq<Seq<char>>) -> Option<Seq<char>>
    decreases arches.len(),
{
    if arches.len() == 0 {
        None
    } else {
        match foreign(arches.drop_last()) {
            Some(a) => Some(a),
            None => if arches.last() != native() {
                Some(arches.last())
            } else {
                None
            },
        }
    }
}

/// The error of a filter that names another architecture.
pub open spec fn arch_fault(seccomp: Js) -> Option<Seq<char>> {
    match seccomp.array_at("architectures"@) {
        None => None,
        Some(items) => match foreign(json::strings_in(items)) {
            Some(a) => Some(arch_text(a)),
            None => None,
        },
    }
}

/// An error number.
pub open spec fn errno_at(j: Js, key: Seq<char>) -> Option<u32> {
    match j.u64_at(key) {
        Some(n) => Some(n as u32),
        None => None,
    }
}

/// One rule. A rule on the arguments of a call is refused.
pub open spec fn rule_of(item: Js) -> Result<Rule, Seq<char>> {
    if item.array_at("args"@) matches Some(args) && args.len() > 0 {
        Err("OCI seccomp argument filters are not yet supported by FluxVM Set 4"@)
    } else {
        match item.str_at("action"@) {
            None => Err("OCI seccomp syscall action is required"@),
            Some(raw) => match action_of(raw, errno_at(item, "errnoRet"@)) {
                Err(e) => Err(e),
                Ok(action) => match item.array_at("names"@) {
                    None => Err("OCI seccomp syscall names are required"@),
                    Some(names) => match json::texts_of(names) {
                        None => Err("seccomp syscall name must be a string"@),
                        Some(names) => Ok(Rule { action, names }),
                    },
                },
            },
        }
    }
}

/// All rules, or the first error.
pub open spec fn rules_in(items: Seq<Js>) -> Result<Seq<Rule>, Seq<char>>
    decreases items.len(),
{
    if items.len() == 0 {
        Ok(Seq::empty())
    } else {
        match rules_in(items.drop_last()) {
            Err(e) => Err(e),
            Ok(v) => match rule_of(items.last()) {
                Err(e) => Err(e),
                Ok(rule) => Ok(v.push(rule)),
            },
        }
    }
}

/// The filter of a configuration, or the first error.
pub open spec fn profile_of(config: Js) -> Result<Option<Profile>, Seq<char>> {
    match config.get2("linux"@, "seccomp"@) {
        None => Ok(None),
        Some(seccomp) => match arch_fault(seccomp) {
            Some(e) => Err(e),
            None => match seccomp.str_at("defaultAction"@) {
                None => Err("OCI seccomp.defaultAction is required"@),
                Some(raw) => match action_of(raw, errno_at(seccomp, "defaultErrnoRet"@)) {
                    Err(e) => Err(e),
                    Ok(default_action) => match seccomp.array_at("syscalls"@) {
                        None => Ok(Some(Profile { default_action, rules: Seq::empty() })),
                        Some(items) => match rules_in(items) {
                            Err(e) => Err(e),
                            Ok(rules) => Ok(Some(Profile { default_action, rules })),
                        },
                    },
                },
            },
        },
    }
}

/// Looks for an architecture that is not filtered.
fn check_architectures(seccomp: &Json) -> (r: Option<String>)
    ensures
        match (r, arch_fault(seccomp.view())) {
            (Some(m), Some(e)) => m@ == e,
            (None, None) => true,
            _ => false,
        },
{
    let items = match seccomp.array_at("architectures") {
        None => {
            return None;
        },
        Some(items) => items,
    };
    let arches = json::strings(items);
    let mut found: Option<usize> = None;
    let mut i: usize = 0;
    while i < arches.len()
        invariant
            i <= arches.len(),
            match found {
                Some(k) => k < i && foreign(text::views(arches@.take(i as int))) == Some(
                    arches@[k as int]@,
                ),
                None => foreign(text::views(arches@.take(i as int))) is None,
            },
        decreases arches.len() - i,
    {
        proof {
            let next = text::views(arches@.take(i + 1));
            assert(next.drop_last() =~= text::views(arches@.take(i as int)));
        }
        if found.is_none() && !same(arches[i].as_str(), "SCMP_ARCH_X86_64") {
            found = Some(i);
        }
        i += 1;
    }
    assert(arches@.take(arches.len() as int) =~= arches@);
    match found {
        None => None,
        Some(k) => {
            let head = cat(
                "unsupported OCI seccomp architecture ",
                debug_quoted(arches[k].as_str()).as_str(),
            );
            Some(cat(head.as_str(), "; Set 4 enforces native x86_64 only"))
        },
    }
}

/// Reads an error number.
fn read_errno(j: &Json, key: &str) -> (r: Option<u32>)
    ensures
        r == errno_at(j.view(), key@),
{
    match j.u64_at(key) {
        Some(n) => Some(n as u32),
        None => None,
    }
}

/// Reads one rule.
fn read_rule(item: &Json) -> (r: Result<SeccompRule, String>)
    ensures
        match (r, rule_of(item.view())) {
            (Ok(x), Ok(s)) => x.view() == s,
            (Err(m), Err(e)) => m@ == e,
            _ => false,
        },
{
    if let Some(args) = item.array_at("args") {
        proof {
            json::lemma_items(args@);
        }
        if args.len() > 0 {
            return Err(
                "OCI seccomp argument filters are not yet supported by FluxVM Set 4".to_owned(),
            );
        }
    }
    let raw = match item.str_at("action") {
        None => {
            return Err("OCI seccomp syscall action is required".to_owned());
        },
        Some(raw) => raw,
    };
    let action: u32 = match seccomp_action(raw, read_errno(item, "errnoRet")) {
        Err(e) => {
            return Err(e);
        },
        Ok(action) => action,
    };
    match item.array_at("names") {
        None => Err("OCI seccomp syscall names are required".to_owned()),
        Some(items) => match json::texts(items) {
            None => Err("seccomp syscall name must be a string".to_owned()),
            Some(names) => Ok(SeccompRule { action, names }),
        },
    }
}

/// An error stays the first error of a longer list.
proof fn lemma_rule_fault(items: Seq<Js>, k: int)
    requires
        0 <= k <= items.len(),
        rules_in(items.take(k)) is Err,
    ensures
        rules_in(items) == rules_in(items.take(k)),
    decreases items.len(),
{
    if k < items.len() {
        assert(items.drop_last().take(k) =~= items.take(k));
        lemma_rule_fault(items.drop_last(), k);
    } else {
        assert(items.take(k) =~= items);
    }
}

/// Reads the rules.
fn read_rules(items: &Vec<Json>) -> (r: Result<Vec<SeccompRule>, String>)
    ensures
        match (r, rules_in(json::items_view(items@))) {
            (Ok(v), Ok(s)) => rules_view(v@) == s,
            (Err(m), Err(e)) => m@ == e,
            _ => false,
        },
{
    let mut out: Vec<SeccompRule> = Vec::new();
    let ghost all = json::items_view(items@);
    let mut i: usize = 0;
    assert(items@.take(0) =~= Seq::<Json>::empty());
    assert(rules_view(out@) =~= Seq::<Rule>::empty());
    while i < items.len()
        invariant
            i <= items.len(),
            all == json::items_view(items@),
            rules_in(json::items_view(items@.take(i as int))) == Ok::<Seq<Rule>, Seq<char>>(
                rules_view(out@),
            ),
        decreases items.len() - i,
    {
        proof {
            json::lemma_items_step(items@, i as int);
        }
        match read_rule(&items[i]) {
            Ok(rule) => {
                let ghost before = out@;
                out.push(rule);
                assert(rules_view(out@) =~= rules_view(before).push(rule.view()));
            },
            Err(m) => {
                proof {
                    json::lemma_items_take(items@, i + 1);
                    lemma_rule_fault(all, i + 1);
                }
                return Err(m);
            },
        }
        i += 1;
    }
    assert(items@.take(items.len() as int) =~= items@);
    Ok(out)
}

/// Reads the filter of a configuration.
pub fn parse_seccomp_profile(config: &Json) -> (r: Result<Option<SeccompProfile>, String>)
    ensures
        match (r, profile_of(config.view())) {
            (Ok(Some(p)), Ok(Some(s))) => p.view() == s,
            (Ok(None), Ok(None)) => true,
            (Err(m), Err(e)) => m@ == e,
            _ => false,
        },
{
    let seccomp = match config.get2("linux", "seccomp") {
        None => {
            return Ok(None);
        },
        Some(seccomp) => seccomp,
    };
    if let Some(m) = check_architectures(seccomp) {
        return Err(m);
    }
    let raw = match seccomp.str_at("defaultAction") {
        None => {
            return Err("OCI seccomp.defaultAction is required".to_owned());
        },
        Some(raw) => raw,
    };
    let default_action: u32 = match seccomp_action(raw, read_errno(seccomp, "defaultErrnoRet")) {
        Err(e) => {
            return Err(e);
        },
        Ok(action) => action,
    };
    match seccomp.array_at("syscalls") {
        None => {
            let rules: Vec<SeccompRule> = Vec::new();
            assert(rules_view(rules@) =~= Seq::<Rule>::empty());
            Ok(Some(SeccompProfile { default_action, rules }))
        },
        Some(items) => match read_rules(items) {
            Err(e) => Err(e),
            Ok(rules) => Ok(Some(SeccompProfile { default_action, rules })),
        },
    }
}

/// A rule on the arguments of a call is refused, never ignored: a list that holds one
/// is an error as a whole.
pub proof fn law_argument_filters_are_refused(items: Seq<Js>, i: int)
    requires
        0 <= i < items.len(),
        items[i].array_at("args"@) matches Some(args) && args.len() > 0,
    ensures
        rules_in(items) is Err,
    decreases items.len(),
{
    if i < items.len() - 1 {
        assert(items.drop_last()[i] == items[i]);
        law_argument_filters_are_refused(items.drop_last(), i);
    }
}

} // verus!
