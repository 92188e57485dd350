//! Framing of messages: one JSON object per line.

use vstd::prelude::*;

use crate::container::address;
use crate::container::address::Address;
use crate::container::faithful;
use crate::container::protocol;
use crate::container::protocol::{
    CgroupEvents, ContainerIo, ContainerNetworkPolicy, ContainerRequest, ContainerResponse,
    ContainerStats, IoStreamAck, IoStreamAttach, ResourceLimits, SecurityStats,
};
use crate::container::wire;
use crate::container::wire::{read_opt_str, send_opt_str};
use crate::json;
use crate::json::{Form, Js, Json};
use crate::labels;
use crate::text;
use crate::text::trim_end;

verus! {

/// Why a line is no message.
#[derive(Debug)]
pub enum DecodeError {
    /// It is no JSON; the text says why.
    NotJson(String),
    /// It is JSON of another shape.
    WrongShape,
    /// The typed reader refuses it; the text says why. It alone sees a field that comes
    /// twice.
    Refused(String),
}

/// The typed reader has these words against a line.
pub open spec fn is_refused(e: DecodeError, fault: Seq<char>) -> bool {
    e matches DecodeError::Refused(m) && m@ == fault
}

impl DecodeError {
    /// What is wrong with the line.
    pub fn words(&self) -> (r: &str)
        ensures
            r@ == match *self {
                DecodeError::NotJson(m) => m@,
                DecodeError::WrongShape => "the message has a wrong shape"@,
                DecodeError::Refused(m) => m@,
            },
    {
        match self {
            DecodeError::NotJson(m) => m.as_str(),
            DecodeError::WrongShape => "the message has a wrong shape",
            DecodeError::Refused(m) => m.as_str(),
        }
    }
}

/// A request, with the secret of the virtual machine.
#[derive(Debug)]
pub struct ContainerEnvelope {
    pub token: Option<String>,
    pub request: ContainerRequest,
}

/// The form in which a request with its secret is sent, where `j` describes one.
pub open spec fn canon_envelope(j: Js) -> Option<Js> {
    wire::put(
        protocol::canon_request(j),
        "token"@,
        wire::pick_opt_str(wire::field(j, "token"@)),
    )
}

impl ContainerEnvelope {
    /// The request as it is sent.
    pub open spec fn json(self) -> Js {
        self.request.json().with("token"@, wire::opt_str_js(self.token))
    }

    /// The request as it is written: its secret comes first.
    pub open spec fn form(self) -> Form {
        self.request.form().put_first("token"@, json::flat(wire::opt_str_js(self.token)))
    }

    /// The request to send.
    pub fn to_json(&self) -> (r: Json)
        ensures
            r.view() == self.json(),
            r.form() == self.form(),
    {
        proof {
            lemma_no_token(self.request);
        }
        self.request.to_json().put_first("token", send_opt_str(&self.token))
    }

    /// Reads a request.
    pub fn from_json(j: &Json) -> (r: Option<ContainerEnvelope>)
        ensures
            match r {
                Some(x) => canon_envelope(j.view()) == Some(x.json()),
                None => canon_envelope(j.view()) is None,
            },
    {
        let request = ContainerRequest::from_json(j)?;
        let token = read_opt_str(j, "token")?;
        Some(ContainerEnvelope { token, request })
    }
}

/// What a line says, through the form that `canon` finds in its JSON.
pub open spec fn line_value(line: Seq<char>, canon: spec_fn(Js) -> Option<Js>) -> Result<
    Js,
    Option<Seq<char>>,
> {
    match json::json_read(text::trim_end_of(line)) {
        Err(e) => Err(Some(e)),
        Ok(j) => match canon(j) {
            Some(c) => Ok(c),
            None => Err(None),
        },
    }
}

/// The executable error `e` is what the specification says.
pub open spec fn agrees_error(e: DecodeError, s: Option<Seq<char>>) -> bool {
    match (e, s) {
        (DecodeError::NotJson(m), Some(t)) => m@ == t,
        (DecodeError::WrongShape, None) => true,
        _ => false,
    }
}

/// One JSON object per line.
pub open spec fn line_of(x: Form) -> Seq<char> {
    json::json_written(x).push('\n')
}

/// The text is one line: its only line feed is its last character.
pub open spec fn is_one_line(s: Seq<char>) -> bool {
    s.len() > 0 && s.last() == '\n' && text::lacks(s.drop_last(), '\n')
}

/// Frames an object as a line, which reads back as the object, with or without its line
/// feed.
pub fn encode_line(j: &Json) -> (r: String)
    requires
        j.view() is Obj,
    ensures
        r@ == line_of(j.form()),
        is_one_line(r@),
        text::trim_end_of(r@.drop_last()) == text::trim_end_of(r@),
        json::reads_back(text::trim_end_of(r@), j.view()),
{
    let mut out = j.render_as_written();
    let ghost body = out@;
    out.push('\n');
    proof {
        assert(out@.drop_last() =~= body);
        assert(text::trim_end_of(out@) == text::trim_end_of(body));
        assert(text::trim_end_of(body) == body);
    }
    out
}

/// Reads the JSON of a line.
pub fn decode_line(line: &str) -> (r: Result<Json, DecodeError>)
    ensures
        match (r, json::json_read(text::trim_end_of(line@))) {
            (Ok(j), Ok(v)) => j.view() == v,
            (Err(DecodeError::NotJson(m)), Err(e)) => m@ == e,
            _ => false,
        },
{
    match Json::parse(trim_end(line).as_str()) {
        Ok(j) => Ok(j),
        Err(e) => Err(DecodeError::NotJson(e)),
    }
}

/// Reads a response.
pub fn decode_response(line: &str) -> (r: Result<ContainerResponse, DecodeError>)
    ensures
        match (r, line_value(line@, |j: Js| protocol::canon_response(j))) {
            (Ok(x), Ok(c)) => x.json() == c,
            (Err(e), Err(s)) => agrees_error(e, s),
            _ => false,
        },
{
    match decode_line(line) {
        Err(e) => Err(e),
        Ok(j) => match ContainerResponse::from_json(&j) {
            Some(x) => Ok(x),
            None => Err(DecodeError::WrongShape),
        },
    }
}

/// Reads a request.
pub fn decode_envelope(line: &str) -> (r: Result<ContainerEnvelope, DecodeError>)
    ensures
        match (r, line_value(line@, |j: Js| canon_envelope(j))) {
            (Ok(x), Ok(c)) => x.json() == c,
            (Err(e), Err(s)) => agrees_error(e, s),
            _ => false,
        },
{
    match decode_line(line) {
        Err(e) => Err(e),
        Ok(j) => match ContainerEnvelope::from_json(&j) {
            Some(x) => Ok(x),
            None => Err(DecodeError::WrongShape),
        },
    }
}

/// Reads a request to attach to a stream.
pub fn decode_attach(line: &str) -> (r: Result<IoStreamAttach, DecodeError>)
    ensures
        match (r, line_value(line@, |j: Js| protocol::canon_attach(j))) {
            (Ok(x), Ok(c)) => x.json() == c,
            (Err(e), Err(s)) => agrees_error(e, s),
            _ => false,
        },
{
    match decode_line(line) {
        Err(e) => Err(e),
        Ok(j) => match IoStreamAttach::from_json(&j) {
            Some(x) => Ok(x),
            None => Err(DecodeError::WrongShape),
        },
    }
}

/// Reads a reply to an attach request.
pub fn decode_ack(line: &str) -> (r: Result<IoStreamAck, DecodeError>)
    ensures
        match (r, line_value(line@, |j: Js| protocol::canon_ack(j))) {
            (Ok(x), Ok(c)) => x.json() == c,
            (Err(e), Err(s)) => agrees_error(e, s),
            _ => false,
        },
{
    match decode_line(line) {
        Err(e) => Err(e),
        Ok(j) => match IoStreamAck::from_json(&j) {
            Some(x) => Ok(x),
            None => Err(DecodeError::WrongShape),
        },
    }
}

/// A request has no secret of its own.
proof fn lemma_no_token(x: ContainerRequest)
    ensures
        x.json().get("token"@) is None,
{
    lemma_token_is_new();
}

/// No field of a request is named like the secret.
proof fn lemma_token_is_new()
    ensures
        "token"@ != "op"@,
        "token"@ != "id"@,
        "token"@ != "config_json"@,
        "token"@ != "io"@,
        "token"@ != "is_sandbox"@,
        "token"@ != "share_process_namespace"@,
        "token"@ != "network_policy"@,
        "token"@ != "exec_id"@,
        "token"@ != "process_json"@,
        "token"@ != "signal"@,
        "token"@ != "all"@,
        "token"@ != "resources"@,
        "token"@ != "width"@,
        "token"@ != "height"@,
        "token"@ != "force"@,
{
    reveal_strlit("token");
    reveal_strlit("op");
    reveal_strlit("id");
    reveal_strlit("config_json");
    reveal_strlit("io");
    reveal_strlit("is_sandbox");
    reveal_strlit("share_process_namespace");
    reveal_strlit("network_policy");
    reveal_strlit("exec_id");
    reveal_strlit("process_json");
    reveal_strlit("signal");
    reveal_strlit("all");
    reveal_strlit("resources");
    reveal_strlit("width");
    reveal_strlit("height");
    reveal_strlit("force");
    assert("token"@.len() == 5);
    assert("op"@.len() == 2);
    assert("id"@.len() == 2);
    assert("config_json"@.len() == 11);
    assert("io"@.len() == 2);
    assert("is_sandbox"@.len() == 10);
    assert("share_process_namespace"@.len() == 23);
    assert("network_policy"@.len() == 14);
    assert("exec_id"@.len() == 7);
    assert("process_json"@.len() == 12);
    assert("signal"@.len() == 6);
    assert("all"@.len() == 3);
    assert("resources"@.len() == 9);
    assert("width"@.len() == 5);
    assert("height"@.len() == 6);
    assert("force"@.len() == 5);
    assert("token"@[0] != "width"@[0]);
    assert("token"@[0] != "force"@[0]);
}

/// The secret next to a request does not change the request.
proof fn lemma_token_apart(j: Js, v: Js)
    requires
        j is Obj,
    ensures
        protocol::canon_request(j.with("token"@, v)) == protocol::canon_request(j),
{
    lemma_token_is_new();
    let t = j.with("token"@, v);
    assert(wire::field(t, "op"@) == wire::field(j, "op"@));
    assert(wire::field(t, "id"@) == wire::field(j, "id"@));
    assert(wire::field(t, "config_json"@) == wire::field(j, "config_json"@));
    assert(wire::field(t, "io"@) == wire::field(j, "io"@));
    assert(wire::field(t, "is_sandbox"@) == wire::field(j, "is_sandbox"@));
    assert(
        wire::field(t, "share_process_namespace"@) == wire::field(j, "share_process_namespace"@)
    );
    assert(wire::field(t, "network_policy"@) == wire::field(j, "network_policy"@));
    assert(wire::field(t, "exec_id"@) == wire::field(j, "exec_id"@));
    assert(wire::field(t, "process_json"@) == wire::field(j, "process_json"@));
    assert(wire::field(t, "signal"@) == wire::field(j, "signal"@));
    assert(wire::field(t, "all"@) == wire::field(j, "all"@));
    assert(wire::field(t, "resources"@) == wire::field(j, "resources"@));
    assert(wire::field(t, "width"@) == wire::field(j, "width"@));
    assert(wire::field(t, "height"@) == wire::field(j, "height"@));
    assert(wire::field(t, "force"@) == wire::field(j, "force"@));
    assert(t.str_at("op"@) == j.str_at("op"@));
}

/// A request that is sent with its secret is read as the same request.
pub proof fn law_envelope_round_trip(x: ContainerEnvelope)
    ensures
        canon_envelope(x.json()) == Some(x.json()),
{
    protocol::law_request_round_trip(x.request);
    lemma_token_apart(x.request.json(), wire::opt_str_js(x.token));
}

/// Lists of addresses are plain.
proof fn lemma_addresses_plain(v: Seq<Address>, depth: nat)
    requires
        depth > 0,
    ensures
        json::plain(address::addresses_js(v), depth),
{
    broadcast use json::lemma_scalar_plain;

    json::lemma_list_plain(address::addresses_js(v)->Arr_0, depth);
}

/// Lists of numbers are plain.
proof fn lemma_numbers_plain(v: Seq<u32>, depth: nat)
    requires
        depth > 0,
    ensures
        json::plain(wire::u32s_js(v), depth),
{
    broadcast use json::lemma_scalar_plain;

    json::lemma_list_plain(v.map_values(|n: u32| Js::Int(n as int)), depth);
}

/// Maps of texts are plain.
proof fn lemma_map_plain(l: Seq<(String, String)>, depth: nat)
    requires
        depth > 0,
    ensures
        json::plain(wire::map_js(l), depth),
{
    broadcast use json::lemma_scalar_plain;

    json::lemma_members_plain(
        labels::labels_view(l).map_values(|s: Seq<char>| Js::Str(s)),
        depth,
    );
}

/// Stream settings are plain.
proof fn lemma_io_plain(x: ContainerIo, depth: nat)
    requires
        depth > 1,
    ensures
        json::plain(x.json(), depth),
{
    broadcast use {
        json::lemma_scalar_plain,
        json::lemma_no_members_plain,
        json::lemma_with_plain,
    };

}

/// Attach requests are plain.
proof fn lemma_attach_plain(x: IoStreamAttach, depth: nat)
    requires
        depth > 1,
    ensures
        json::plain(x.json(), depth),
{
    broadcast use {
        json::lemma_scalar_plain,
        json::lemma_no_members_plain,
        json::lemma_with_plain,
    };

}

/// Attach replies are plain.
proof fn lemma_ack_plain(x: IoStreamAck, depth: nat)
    requires
        depth > 1,
    ensures
        json::plain(x.json(), depth),
{
    broadcast use {
        json::lemma_scalar_plain,
        json::lemma_no_members_plain,
        json::lemma_with_plain,
    };

}

/// Network policies are plain.
proof fn lemma_policy_plain(x: ContainerNetworkPolicy, depth: nat)
    requires
        depth > 1,
    ensures
        json::plain(x.json(), depth),
{
    broadcast use {
        json::lemma_scalar_plain,
        json::lemma_no_members_plain,
        json::lemma_with_plain,
    };

    lemma_addresses_plain(x.allow_addresses@, (depth - 1) as nat);
    lemma_addresses_plain(x.deny_addresses@, (depth - 1) as nat);
}

/// Resource limits are plain.
proof fn lemma_limits_plain(x: ResourceLimits, depth: nat)
    requires
        depth > 1,
    ensures
        json::plain(x.json(), depth),
{
    broadcast use {
        json::lemma_scalar_plain,
        json::lemma_no_members_plain,
        json::lemma_with_plain,
    };

    lemma_map_plain(x.unified@, (depth - 1) as nat);
}

/// Counters are plain.
proof fn lemma_stats_plain(x: ContainerStats, depth: nat)
    requires
        depth > 1,
    ensures
        json::plain(x.json(), depth),
{
    broadcast use {
        json::lemma_scalar_plain,
        json::lemma_no_members_plain,
        json::lemma_with_plain,
    };

}

/// Event counters are plain.
proof fn lemma_events_plain(x: CgroupEvents, depth: nat)
    requires
        depth > 1,
    ensures
        json::plain(x.json(), depth),
{
    broadcast use {
        json::lemma_scalar_plain,
        json::lemma_no_members_plain,
        json::lemma_with_plain,
    };

}

/// Security counters are plain.
proof fn lemma_security_plain(x: SecurityStats, depth: nat)
    requires
        depth > 1,
    ensures
        json::plain(x.json(), depth),
{
    broadcast use {
        json::lemma_scalar_plain,
        json::lemma_no_members_plain,
        json::lemma_with_plain,
    };

}

/// Requests are plain.
proof fn lemma_request_plain(x: ContainerRequest, depth: nat)
    requires
        depth > 2,
    ensures
        json::plain(x.json(), depth),
{
    broadcast use {
        json::lemma_scalar_plain,
        json::lemma_no_members_plain,
        json::lemma_with_plain,
    };

    let inner = (depth - 1) as nat;
    match x {
        ContainerRequest::ConfigureSandboxResources { resources } => {
            lemma_limits_plain(resources, inner);
        },
        ContainerRequest::Create { io, network_policy, .. } => {
            lemma_io_plain(io, inner);
            if let Some(p) = network_policy {
                lemma_policy_plain(p, inner);
            }
        },
        ContainerRequest::Exec { io, .. } => {
            lemma_io_plain(io, inner);
        },
        ContainerRequest::UpdateResources { resources, .. } => {
            lemma_limits_plain(resources, inner);
        },
        _ => {},
    }
}

/// Requests with their secret are plain.
proof fn lemma_envelope_plain(x: ContainerEnvelope, depth: nat)
    requires
        depth > 2,
    ensures
        json::plain(x.json(), depth),
{
    broadcast use json::lemma_scalar_plain;

    lemma_request_plain(x.request, depth);
    json::lemma_with_plain(x.request.json(), "token"@, wire::opt_str_js(x.token), depth);
}

/// Responses are plain.
proof fn lemma_response_plain(x: ContainerResponse, depth: nat)
    requires
        depth > 2,
    ensures
        json::plain(x.json(), depth),
{
    broadcast use {
        json::lemma_scalar_plain,
        json::lemma_no_members_plain,
        json::lemma_with_plain,
    };

    let inner = (depth - 1) as nat;
    match x {
        ContainerResponse::Pids { pids } => {
            lemma_numbers_plain(pids@, inner);
        },
        ContainerResponse::Stats { stats } => {
            lemma_stats_plain(stats, inner);
        },
        ContainerResponse::CgroupEvents { events } => {
            lemma_events_plain(events, inner);
        },
        ContainerResponse::SecurityStats { stats } => {
            lemma_security_plain(stats, inner);
        },
        _ => {},
    }
}

/// A reader gets the response `y` out of the line.
pub open spec fn reads_as_response(line: Seq<char>, y: ContainerResponse) -> bool {
    line_value(line, |j: Js| protocol::canon_response(j)) == Ok::<Js, Option<Seq<char>>>(y.json())
}

/// The line carries the response `x`: it is one line, and with or without its line feed a
/// reader gets `x` out of it, and nothing else.
pub open spec fn carries_response(line: Seq<char>, x: ContainerResponse) -> bool {
    &&& is_one_line(line)
    &&& reads_as_response(line, x)
    &&& reads_as_response(line.drop_last(), x)
    &&& forall|y: ContainerResponse| #[trigger]
        reads_as_response(line, y) ==> faithful::same_response(x, y)
    &&& forall|y: ContainerResponse| #[trigger]
        reads_as_response(line.drop_last(), y) ==> faithful::same_response(x, y)
}

/// A reader gets the request `y` out of the line.
pub open spec fn reads_as_envelope(line: Seq<char>, y: ContainerEnvelope) -> bool {
    line_value(line, |j: Js| canon_envelope(j)) == Ok::<Js, Option<Seq<char>>>(y.json())
}

/// The line carries the request `x`: it is one line, and with or without its line feed a
/// reader gets `x` out of it, and nothing else.
pub open spec fn carries_envelope(line: Seq<char>, x: ContainerEnvelope) -> bool {
    &&& is_one_line(line)
    &&& reads_as_envelope(line, x)
    &&& reads_as_envelope(line.drop_last(), x)
    &&& forall|y: ContainerEnvelope| #[trigger]
        reads_as_envelope(line, y) ==> faithful::same_envelope(x, y)
    &&& forall|y: ContainerEnvelope| #[trigger]
        reads_as_envelope(line.drop_last(), y) ==> faithful::same_envelope(x, y)
}

/// A reader gets the request `y` to attach to a stream out of the line.
pub open spec fn reads_as_attach(line: Seq<char>, y: IoStreamAttach) -> bool {
    line_value(line, |j: Js| protocol::canon_attach(j)) == Ok::<Js, Option<Seq<char>>>(y.json())
}

/// The line carries the request `x` to attach to a stream: it is one line, and with or
/// without its line feed a reader gets `x` out of it, and nothing else.
pub open spec fn carries_attach(line: Seq<char>, x: IoStreamAttach) -> bool {
    &&& is_one_line(line)
    &&& reads_as_attach(line, x)
    &&& reads_as_attach(line.drop_last(), x)
    &&& forall|y: IoStreamAttach| #[trigger]
        reads_as_attach(line, y) ==> faithful::same_attach(x, y)
    &&& forall|y: IoStreamAttach| #[trigger]
        reads_as_attach(line.drop_last(), y) ==> faithful::same_attach(x, y)
}

/// A reader gets the reply `y` to an attach request out of the line.
pub open spec fn reads_as_ack(line: Seq<char>, y: IoStreamAck) -> bool {
    line_value(line, |j: Js| protocol::canon_ack(j)) == Ok::<Js, Option<Seq<char>>>(y.json())
}

/// The line carries the reply `x` to an attach request: it is one line, and with or
/// without its line feed a reader gets `x` out of it, and nothing else.
pub open spec fn carries_ack(line: Seq<char>, x: IoStreamAck) -> bool {
    &&& is_one_line(line)
    &&& reads_as_ack(line, x)
    &&& reads_as_ack(line.drop_last(), x)
    &&& forall|y: IoStreamAck| #[trigger] reads_as_ack(line, y) ==> faithful::same_ack(x, y)
    &&& forall|y: IoStreamAck| #[trigger]
        reads_as_ack(line.drop_last(), y) ==> faithful::same_ack(x, y)
}

/// Frames a response; the line reads as the same response.
pub fn encode_response(x: &ContainerResponse) -> (r: String)
    ensures
        r@ == line_of(x.form()),
        is_one_line(r@),
        carries_response(r@, *x),
{
    let r = encode_line(&x.to_json());
    proof {
        reveal(json::plain);
        lemma_response_plain(*x, 127);
        protocol::law_response_round_trip(*x);
        assert forall|y: ContainerResponse| y.json() == x.json() implies faithful::same_response(
            *x,
            y,
        ) by {
            faithful::law_response_is_told_whole(*x, y);
        }
    }
    r
}

/// Frames a request; the line reads as the same request.
pub fn encode_envelope(x: &ContainerEnvelope) -> (r: String)
    ensures
        r@ == line_of(x.form()),
        is_one_line(r@),
        carries_envelope(r@, *x),
{
    let r = encode_line(&x.to_json());
    proof {
        reveal(json::plain);
        lemma_envelope_plain(*x, 127);
        law_envelope_round_trip(*x);
        assert forall|y: ContainerEnvelope| y.json() == x.json() implies faithful::same_envelope(
            *x,
            y,
        ) by {
            faithful::law_envelope_is_told_whole(*x, y);
        }
    }
    r
}

/// Frames a request to attach to a stream; the line reads as the same
/// request.
pub fn encode_attach(x: &IoStreamAttach) -> (r: String)
    ensures
        r@ == line_of(x.form()),
        is_one_line(r@),
        carries_attach(r@, *x),
{
    let r = encode_line(&x.to_json());
    proof {
        reveal(json::plain);
        lemma_attach_plain(*x, 127);
        protocol::law_attach_round_trip(*x);
        assert forall|y: IoStreamAttach| y.json() == x.json() implies faithful::same_attach(
            *x,
            y,
        ) by {
            faithful::law_attach_is_told_whole(*x, y);
        }
    }
    r
}

/// Frames a reply to an attach request; the line reads as the same reply.
pub fn encode_ack(x: &IoStreamAck) -> (r: String)
    ensures
        r@ == line_of(x.form()),
        is_one_line(r@),
        carries_ack(r@, *x),
{
    let r = encode_line(&x.to_json());
    proof {
        reveal(json::plain);
        lemma_ack_plain(*x, 127);
        protocol::law_ack_round_trip(*x);
        assert forall|y: IoStreamAck| y.json() == x.json() implies faithful::same_ack(
            *x,
            y,
        ) by {
            faithful::law_ack_is_told_whole(*x, y);
        }
    }
    r
}

} // verus!
