//! What single commands decide.

use vstd::prelude::*;

use crate::api::records;
use crate::text;
use crate::text::{cat, debug_quoted, same, to_lower};

verus! {

/// Why a node that is reached from elsewhere is not started.
pub open spec fn unguarded(listen: Seq<char>) -> Seq<char> {
    "auth is required for listen="@ + listen
        + " but no [[auth.tokens]] and OIDC is not configured — add tokens, set auth.oidc_issuer+oidc_audience, or bind 127.0.0.1 / set auth.require=false for loopback-only lab use"@
}

/// Decides whether a node is started. It is not where requests must be let in by credentials
/// and there are none. Tells whether every request is let in.
pub fn check_serve(required: bool, has_credentials: bool, listen: &str) -> (r: Result<bool, String>)
    ensures
        match r {
            Ok(open) => !(required && !has_credentials) && open == !has_credentials,
            Err(e) => required && !has_credentials && e@ == unguarded(listen@),
        },
{
    if required && !has_credentials {
        let head = cat("auth is required for listen=", listen);
        return Err(
            cat(
                head.as_str(),
                " but no [[auth.tokens]] and OIDC is not configured — add tokens, set auth.oidc_issuer+oidc_audience, or bind 127.0.0.1 / set auth.require=false for loopback-only lab use",
            ),
        );
    }
    Ok(!has_credentials)
}

/// How recorded events are written.
#[derive(Debug, Clone, Copy, PartialEq, Eq, Structural)]
pub enum TraceOutput {
    /// As one document.
    Document,
    /// As one document on each line.
    Lines,
}

/// How events are written under a name, whatever its case.
pub open spec fn trace_named(output: Seq<char>) -> Option<TraceOutput> {
    let name = text::lower(output);
    if name == "json"@ {
        Some(TraceOutput::Document)
    } else if name == "jsonl"@ {
        Some(TraceOutput::Lines)
    } else {
        None
    }
}

/// Reads how events are written.
pub fn trace_output(output: &str) -> (r: Result<TraceOutput, String>)
    ensures
        match (r, trace_named(output@)) {
            (Ok(a), Some(b)) => a == b,
            (Err(e), None) => e@ == "unsupported trace output "@ + text::debug_text(
                text::lower(output@),
            ) + "; use json or jsonl"@,
            _ => false,
        },
{
    let name = to_lower(output);
    if same(name.as_str(), "json") {
        Ok(TraceOutput::Document)
    } else if same(name.as_str(), "jsonl") {
        Ok(TraceOutput::Lines)
    } else {
        let head = cat("unsupported trace output ", debug_quoted(name.as_str()).as_str());
        Err(cat(head.as_str(), "; use json or jsonl"))
    }
}

/// Decides whether observed connections lose their colors: where colors are asked for, but
/// the environment has them switched off.
pub fn drops_colors(no_color: Option<&str>, output: &str) -> (r: bool)
    ensures
        r == ((text::optional(no_color) matches Some(v) && v.len() > 0) && text::lower(output@)
            == "color"@),
{
    proof {
        reveal_strlit("");
    }
    let off = match no_color {
        Some(v) => {
            proof {
                if v@.len() == 0 {
                    assert(v@ =~= ""@);
                }
            }
            !same(v, "")
        },
        None => false,
    };
    off && same(to_lower(output).as_str(), "color")
}

/// Gives the places of the entries that stay when one is filed under a name: all but those
/// of that name.
pub fn entries_beside(names: &Vec<String>, name: &str) -> (r: Vec<usize>)
    ensures
        records::places(r@) == records::kept(names@, |n: String| n@ != name@),
{
    let ghost keep = |n: String| n@ != name@;
    let mut out: Vec<usize> = Vec::new();
    let mut i: usize = 0;
    assert(names@.take(0) =~= Seq::<String>::empty());
    assert(records::places(out@) =~= Seq::<int>::empty());
    while i < names.len()
        invariant
            i <= names.len(),
            keep == |n: String| n@ != name@,
            records::places(out@) == records::kept(names@.take(i as int), keep),
        decreases names.len() - i,
    {
        assert(names@.take(i + 1).drop_last() =~= names@.take(i as int));
        if !same(names[i].as_str(), name) {
            let ghost before = out@;
            out.push(i);
            assert(records::places(out@) =~= records::places(before).push(i as int));
        }
        i += 1;
    }
    assert(names@.take(names.len() as int) =~= names@);
    out
}

/// What is known of a group of virtual machines beside its rules.
#[derive(Debug)]
pub struct GroupSettings {
    pub default_allow: bool,
    pub priority: u32,
    pub description: String,
}

/// Settles what was left open of a group.
pub fn group_settings(
    default_allow: Option<bool>,
    priority: Option<u32>,
    description: Option<String>,
) -> (r: GroupSettings)
    ensures
        r.default_allow == (match default_allow {
            Some(b) => b,
            None => true,
        }),
        r.priority == (match priority {
            Some(p) => p,
            None => 100,
        }),
        r.description@ == (match description {
            Some(d) => d@,
            None => Seq::empty(),
        }),
{
    GroupSettings {
        default_allow: match default_allow {
            Some(b) => b,
            None => true,
        },
        priority: match priority {
            Some(p) => p,
            None => 100,
        },
        description: match description {
            Some(d) => d,
            None => String::new(),
        },
    }
}

/// Decides whether a command waits for new virtual machines of a pool: where it has grown.
pub fn waits_for_growth(before: usize, size: usize) -> (r: bool)
    ensures
        r == (size > before),
{
    size > before
}

} // verus!
