//! What messages tell: whatever they are about is in them, as it was given.

use vstd::prelude::*;

use crate::api::laws;
use crate::api::laws::shows;
use crate::cgroup::error::CgroupError;
use crate::cli::commands;
use crate::container::client;
use crate::container::process;
use crate::fleet::central;
use crate::fleet::client::FleetCall;
use crate::text;

verus! {

/// A text of three parts holds each.
proof fn lemma_three(a: Seq<char>, b: Seq<char>, c: Seq<char>)
    ensures
        shows(a + b + c, a),
        shows(a + b + c, b),
        shows(a + b + c, c),
{
    laws::lemma_ends(a, b);
    laws::lemma_either(a + b, c, a);
    laws::lemma_either(a + b, c, b);
    laws::lemma_ends(a + b, c);
}

/// A text of four parts holds each.
proof fn lemma_four(a: Seq<char>, b: Seq<char>, c: Seq<char>, d: Seq<char>)
    ensures
        shows(a + b + c + d, a),
        shows(a + b + c + d, b),
        shows(a + b + c + d, c),
        shows(a + b + c + d, d),
{
    lemma_three(a, b, c);
    laws::lemma_either(a + b + c, d, a);
    laws::lemma_either(a + b + c, d, b);
    laws::lemma_either(a + b + c, d, c);
    laws::lemma_ends(a + b + c, d);
}

/// A text of seven parts holds each.
proof fn lemma_seven(
    a: Seq<char>,
    b: Seq<char>,
    c: Seq<char>,
    d: Seq<char>,
    e: Seq<char>,
    f: Seq<char>,
    g: Seq<char>,
)
    ensures
        shows(a + b + c + d + e + f + g, a),
        shows(a + b + c + d + e + f + g, b),
        shows(a + b + c + d + e + f + g, d),
        shows(a + b + c + d + e + f + g, f),
{
    lemma_four(a, b, c, d);
    let s = a + b + c + d;
    laws::lemma_either(s, e, a);
    laws::lemma_either(s, e, b);
    laws::lemma_either(s, e, d);
    laws::lemma_either(s + e, f, a);
    laws::lemma_either(s + e, f, b);
    laws::lemma_either(s + e, f, d);
    laws::lemma_ends(s + e, f);
    laws::lemma_either(s + e + f, g, a);
    laws::lemma_either(s + e + f, g, b);
    laws::lemma_either(s + e + f, g, d);
    laws::lemma_either(s + e + f, g, f);
}

/// An error of a cgroup tells the file that it is about, and what is wrong with it.
pub proof fn law_cgroup_errors_are_told(
    path: String,
    name: String,
    what: String,
    more: String,
)
    ensures
        shows(CgroupError::NotFound(path).message(), path@),
        shows(
            (CgroupError::ControllerNotAvailable { controller: name, path }).message(),
            text::debug_text(name@),
        ),
        shows((CgroupError::ControllerNotAvailable { controller: name, path }).message(), path@),
        shows((CgroupError::ReadFailed { path, source: what }).message(), path@),
        shows((CgroupError::ReadFailed { path, source: what }).message(), what@),
        shows((CgroupError::ReadFailed { path, source: what }).message(), "read"@),
        shows((CgroupError::WriteFailed { path, source: what }).message(), path@),
        shows((CgroupError::WriteFailed { path, source: what }).message(), what@),
        shows((CgroupError::WriteFailed { path, source: what }).message(), "write"@),
        shows((CgroupError::ParseError { path, content: what, detail: more }).message(), path@),
        shows((CgroupError::ParseError { path, content: what, detail: more }).message(), more@),
        shows(
            (CgroupError::ParseError { path, content: what, detail: more }).message(),
            text::debug_text(what@),
        ),
        shows((CgroupError::InvalidValue { field: name, value: what, expected: more }).message(), name@),
        shows(
            (CgroupError::InvalidValue { field: name, value: what, expected: more }).message(),
            text::debug_text(what@),
        ),
        shows((CgroupError::InvalidValue { field: name, value: what, expected: more }).message(), more@),
{
    laws::lemma_ends("cgroup path not found: "@, path@);
    lemma_four("controller "@, text::debug_text(name@), " not available at "@, path@);
    lemma_four("failed to read "@, path@, ": "@, what@);
    lemma_four("failed to write "@, path@, ": "@, what@);
    lemma_word_in_head("failed "@, "to "@, "read"@, " "@, path@, ": "@, what@);
    lemma_word_in_head("failed "@, "to "@, "write"@, " "@, path@, ": "@, what@);
    assert("failed to read "@ == "failed "@ + "to "@ + "read"@ + " "@) by {
        reveal_strlit("failed to read ");
        reveal_strlit("failed ");
        reveal_strlit("to ");
        reveal_strlit("read");
        reveal_strlit(" ");
        assert("failed to read "@ =~= "failed "@ + "to "@ + "read"@ + " "@);
    }
    assert("failed to write "@ == "failed "@ + "to "@ + "write"@ + " "@) by {
        reveal_strlit("failed to write ");
        reveal_strlit("failed ");
        reveal_strlit("to ");
        reveal_strlit("write");
        reveal_strlit(" ");
        assert("failed to write "@ =~= "failed "@ + "to "@ + "write"@ + " "@);
    }
    lemma_seven(
        "failed to parse "@,
        path@,
        ": "@,
        more@,
        " (content: "@,
        text::debug_text(what@),
        ")"@,
    );
    lemma_seven(
        "invalid value for "@,
        name@,
        ": "@,
        text::debug_text(what@),
        " (expected "@,
        more@,
        ")"@,
    );
}

/// What the head of a text holds, the text holds.
proof fn lemma_word_in_head(
    a: Seq<char>,
    b: Seq<char>,
    word: Seq<char>,
    d: Seq<char>,
    e: Seq<char>,
    f: Seq<char>,
    g: Seq<char>,
)
    ensures
        shows(a + b + word + d + e + f + g, word),
{
    lemma_four(a, b, word, d);
    let s = a + b + word + d;
    laws::lemma_either(s, e, word);
    laws::lemma_either(s + e, f, word);
    laws::lemma_either(s + e + f, g, word);
}

/// What the agent says against a stream is passed on.
pub proof fn law_refused_streams_are_told(m: Seq<char>)
    ensures
        shows(client::refusal_text(Some(m)), m),
        client::refusal_text(None) == client::refusal_text(Some("unknown error"@)),
{
    laws::lemma_ends("container stream attach failed: "@, m);
}

/// A failure tells what was tried and what went wrong.
pub proof fn law_failures_are_told(action: Seq<char>, error: Seq<char>)
    ensures
        shows(process::failure_text(action, error), action),
        shows(process::failure_text(action, error), error),
{
    lemma_three(action, ": "@, error);
}

/// What a node says against a request is passed on with the node's name.
pub proof fn law_rejections_are_told(name: Seq<char>, what: Seq<char>, reply: Seq<char>)
    ensures
        shows(central::rejected(name, what, reply), name),
        shows(central::rejected(name, what, reply), what),
        shows(central::rejected(name, what, reply), reply),
        shows(central::still_healthy(name), name),
{
    lemma_four("node '"@, name, what, reply);
    lemma_three(
        "node '"@,
        name,
        "' is still heartbeating; stop its fluxvm-agent node process (or otherwise let its heartbeat lapse) and wait for it to go stale before deregistering, or its next heartbeat will simply re-register it"@,
    );
}

/// A request that fails is told with its status and what the node said.
pub proof fn law_failed_requests_are_told(c: FleetCall, status: Seq<char>, body: Seq<char>)
    ensures
        shows(c.failure(status, body), c.what@),
        shows(c.failure(status, body), status),
        shows(c.failure(status, body), body),
{
    lemma_four(c.what@, " failed ("@, status, "): "@);
    let s = c.what@ + " failed ("@ + status + "): "@;
    laws::lemma_either(s, body, c.what@);
    laws::lemma_either(s, body, status);
    laws::lemma_ends(s, body);
}

/// A node that anybody could use is told with its address.
pub proof fn law_unguarded_nodes_are_told(listen: Seq<char>)
    ensures
        shows(commands::unguarded(listen), listen),
{
    lemma_three(
        "auth is required for listen="@,
        listen,
        " but no [[auth.tokens]] and OIDC is not configured — add tokens, set auth.oidc_issuer+oidc_audience, or bind 127.0.0.1 / set auth.require=false for loopback-only lab use"@,
    );
}

} // verus!
