//! The messages between the host and the agent in a guest: one JSON object per
//! line.

use vstd::prelude::*;

use crate::container::address;
use crate::container::address::{read_addresses, send_addresses, Address};
use crate::container::wire;
use crate::container::wire::{
    read_bool, read_flag, read_i32, read_i64, read_map, read_opt_i32, read_opt_i64, read_opt_str,
    read_opt_u64, read_str, read_u32, read_u32_or_zero, read_u32s, read_u64, send_map,
    send_opt_i32, send_opt_i64, send_opt_str, send_opt_u64, send_strings, send_u32s, unit,
};
use crate::json;
use crate::json::{Form, Js, Json};
use crate::text;
use crate::text::same;

verus! {

/// The port at which the agent takes requests.
pub const DEFAULT_CONTAINER_AGENT_PORT: u32 = 17778;

/// The port at which the agent streams standard input and output.
pub const DEFAULT_CONTAINER_STREAM_PORT: u32 = 17779;

/// How long a call may take, in seconds.
pub const DEFAULT_CALL_TIMEOUT_SECS: u64 = 30;

/// The longest request that the agent takes.
pub const MAX_MESSAGE_BYTES: usize = 16_777_216;

/// The state of a process.
#[derive(Debug, Clone, Copy, PartialEq, Eq, Structural)]
pub enum ContainerStatus {
    Created,
    Running,
    Paused,
    Stopped,
}

impl ContainerStatus {
    /// The name in messages.
    pub open spec fn text(self) -> Seq<char> {
        match self {
            ContainerStatus::Created => "created"@,
            ContainerStatus::Running => "running"@,
            ContainerStatus::Paused => "paused"@,
            ContainerStatus::Stopped => "stopped"@,
        }
    }

    /// The name in messages.
    pub fn name(&self) -> (r: &'static str)
        ensures
            r@ == self.text(),
    {
        match self {
            ContainerStatus::Created => "created",
            ContainerStatus::Running => "running",
            ContainerStatus::Paused => "paused",
            ContainerStatus::Stopped => "stopped",
        }
    }

    /// The `ContainerStatus` of a name.
    pub fn from_name(s: &str) -> (r: Option<ContainerStatus>)
        ensures
            r == status_of(s@),
    {
        if same(s, "created") {
            Some(ContainerStatus::Created)
        } else if same(s, "running") {
            Some(ContainerStatus::Running)
        } else if same(s, "paused") {
            Some(ContainerStatus::Paused)
        } else if same(s, "stopped") {
            Some(ContainerStatus::Stopped)
        } else {
            None
        }
    }
}

/// The `ContainerStatus` of a name.
pub open spec fn status_of(s: Seq<char>) -> Option<ContainerStatus> {
    if s == "created"@ {
        Some(ContainerStatus::Created)
    } else if s == "running"@ {
        Some(ContainerStatus::Running)
    } else if s == "paused"@ {
        Some(ContainerStatus::Paused)
    } else if s == "stopped"@ {
        Some(ContainerStatus::Stopped)
    } else {
        None
    }
}

/// A field that holds a `ContainerStatus`.
pub open spec fn pick_status(v: Option<Js>) -> Option<Js> {
    match v {
        Some(Js::Str(s)) => if status_of(s) is Some {
            Some(Js::Str(s))
        } else {
            None
        },
        Some(Js::Obj(m)) => if wire::is_unit(m, "created"@, true) {
            Some(Js::Str("created"@))
        } else if wire::is_unit(m, "running"@, true) {
            Some(Js::Str("running"@))
        } else if wire::is_unit(m, "paused"@, true) {
            Some(Js::Str("paused"@))
        } else if wire::is_unit(m, "stopped"@, true) {
            Some(Js::Str("stopped"@))
        } else {
            None
        },
        _ => None,
    }
}

/// Reads a field that holds a `ContainerStatus`.
fn read_status(j: &Json, key: &str) -> (r: Option<ContainerStatus>)
    ensures
        match r {
            Some(x) => pick_status(wire::field(j.view(), key@)) == Some(Js::Str(x.text())),
            None => pick_status(wire::field(j.view(), key@)) is None,
        },
{
    match j.get(key) {
        Some(Json::Text(s)) => ContainerStatus::from_name(s.as_str()),
        Some(Json::Object(m)) => if unit(m, "created", true) {
            Some(ContainerStatus::Created)
        } else if unit(m, "running", true) {
            Some(ContainerStatus::Running)
        } else if unit(m, "paused", true) {
            Some(ContainerStatus::Paused)
        } else if unit(m, "stopped", true) {
            Some(ContainerStatus::Stopped)
        } else {
            None
        },
        _ => None,
    }
}

/// The name of a `ContainerStatus` names it.
pub proof fn lemma_status_names(x: ContainerStatus)
    ensures
        status_of(x.text()) == Some(x),
{
    reveal_strlit("created");
    reveal_strlit("running");
    reveal_strlit("paused");
    reveal_strlit("stopped");
    assert("created"@.len() == 7);
    assert("running"@.len() == 7);
    assert("paused"@.len() == 6);
    assert("stopped"@.len() == 7);
    assert("created"@[0] != "running"@[0]);
    assert("created"@[0] != "stopped"@[0]);
    assert("running"@[0] != "stopped"@[0]);
}

/// One of the streams of a process.
#[derive(Debug, Clone, Copy, PartialEq, Eq, Structural)]
pub enum IoStreamKind {
    Stdin,
    Stdout,
    Stderr,
}

impl IoStreamKind {
    /// The name in messages.
    pub open spec fn text(self) -> Seq<char> {
        match self {
            IoStreamKind::Stdin => "stdin"@,
            IoStreamKind::Stdout => "stdout"@,
            IoStreamKind::Stderr => "stderr"@,
        }
    }

    /// The name in messages.
    pub fn name(&self) -> (r: &'static str)
        ensures
            r@ == self.text(),
    {
        match self {
            IoStreamKind::Stdin => "stdin",
            IoStreamKind::Stdout => "stdout",
            IoStreamKind::Stderr => "stderr",
        }
    }

    /// The `IoStreamKind` of a name.
    pub fn from_name(s: &str) -> (r: Option<IoStreamKind>)
        ensures
            r == kind_of(s@),
    {
        if same(s, "stdin") {
            Some(IoStreamKind::Stdin)
        } else if same(s, "stdout") {
            Some(IoStreamKind::Stdout)
        } else if same(s, "stderr") {
            Some(IoStreamKind::Stderr)
        } else {
            None
        }
    }
}

/// The `IoStreamKind` of a name.
pub open spec fn kind_of(s: Seq<char>) -> Option<IoStreamKind> {
    if s == "stdin"@ {
        Some(IoStreamKind::Stdin)
    } else if s == "stdout"@ {
        Some(IoStreamKind::Stdout)
    } else if s == "stderr"@ {
        Some(IoStreamKind::Stderr)
    } else {
        None
    }
}

/// A field that holds a `IoStreamKind`.
pub open spec fn pick_kind(v: Option<Js>) -> Option<Js> {
    match v {
        Some(Js::Str(s)) => if kind_of(s) is Some {
            Some(Js::Str(s))
        } else {
            None
        },
        Some(Js::Obj(m)) => if wire::is_unit(m, "stdin"@, false) {
            Some(Js::Str("stdin"@))
        } else if wire::is_unit(m, "stdout"@, false) {
            Some(Js::Str("stdout"@))
        } else if wire::is_unit(m, "stderr"@, false) {
            Some(Js::Str("stderr"@))
        } else {
            None
        },
        _ => None,
    }
}

/// Reads a field that holds a `IoStreamKind`.
fn read_kind(j: &Json, key: &str) -> (r: Option<IoStreamKind>)
    ensures
        match r {
            Some(x) => pick_kind(wire::field(j.view(), key@)) == Some(Js::Str(x.text())),
            None => pick_kind(wire::field(j.view(), key@)) is None,
        },
{
    match j.get(key) {
        Some(Json::Text(s)) => IoStreamKind::from_name(s.as_str()),
        Some(Json::Object(m)) => if unit(m, "stdin", false) {
            Some(IoStreamKind::Stdin)
        } else if unit(m, "stdout", false) {
            Some(IoStreamKind::Stdout)
        } else if unit(m, "stderr", false) {
            Some(IoStreamKind::Stderr)
        } else {
            None
        },
        _ => None,
    }
}

/// The name of a `IoStreamKind` names it.
pub proof fn lemma_kind_names(x: IoStreamKind)
    ensures
        kind_of(x.text()) == Some(x),
{
    reveal_strlit("stdin");
    reveal_strlit("stdout");
    reveal_strlit("stderr");
    assert("stdin"@.len() == 5);
    assert("stdout"@.len() == 6);
    assert("stderr"@.len() == 6);
    assert("stdout"@[3] != "stderr"@[3]);
}

/// How a process is connected.
#[derive(Debug)]
pub struct ContainerIo {
    pub stdin: Option<String>,
    pub stdout: Option<String>,
    pub stderr: Option<String>,
    pub terminal: bool,
    /// The streams go over the stream port; the paths only tell which there are.
    pub streaming: bool,
}

/// The form in which the fields of a `ContainerIo` are sent.
pub open spec fn canon_io_fields(j: Js) -> Option<Js> {
    let o = Some(json::no_members());
    let o = wire::put(o, "stdin"@, wire::pick_opt_str(wire::field(j, "stdin"@)));
    let o = wire::put(o, "stdout"@, wire::pick_opt_str(wire::field(j, "stdout"@)));
    let o = wire::put(o, "stderr"@, wire::pick_opt_str(wire::field(j, "stderr"@)));
    let o = wire::put(o, "terminal"@, wire::pick_flag(wire::field(j, "terminal"@)));
    let o = wire::put(o, "streaming"@, wire::pick_flag(wire::field(j, "streaming"@)));
    o
}

/// The fields of a `ContainerIo`, in their order.
pub open spec fn io_fields() -> Seq<Seq<char>> {
    seq!["stdin"@, "stdout"@, "stderr"@, "terminal"@, "streaming"@]
}

/// The form in which a `ContainerIo` is sent, where `j` describes one, by the names of its
/// fields or by their order.
pub open spec fn canon_io(j: Js) -> Option<Js> {
    match json::named(j, io_fields(), 0) {
        Some(o) => canon_io_fields(o),
        None => None,
    }
}

/// A field that holds a `ContainerIo`.
pub open spec fn pick_io(v: Option<Js>) -> Option<Js> {
    match v {
        Some(j) => canon_io(j),
        None => None,
    }
}

impl Default for ContainerIo {
    fn default() -> (r: Self)
        ensures
            r.stdin is None,
            r.stdout is None,
            r.stderr is None,
            !r.terminal,
            !r.streaming,
    {
        ContainerIo {
            stdin: None,
            stdout: None,
            stderr: None,
            terminal: false,
            streaming: false,
        }
    }
}

impl ContainerIo {
    /// The value as it is sent.
    pub open spec fn json(self) -> Js {
        json::no_members()
            .with("stdin"@, wire::opt_str_js(self.stdin))
            .with("stdout"@, wire::opt_str_js(self.stdout))
            .with("stderr"@, wire::opt_str_js(self.stderr))
            .with("terminal"@, Js::Bool(self.terminal))
            .with("streaming"@, Js::Bool(self.streaming))
    }

    /// The value as it is written: its fields in their order.
    pub open spec fn form(self) -> Form {
        json::no_members_form()
            .put("stdin"@, json::flat(wire::opt_str_js(self.stdin)))
            .put("stdout"@, json::flat(wire::opt_str_js(self.stdout)))
            .put("stderr"@, json::flat(wire::opt_str_js(self.stderr)))
            .put("terminal"@, json::flat(Js::Bool(self.terminal)))
            .put("streaming"@, json::flat(Js::Bool(self.streaming)))
    }

    /// The value to send.
    pub fn to_json(&self) -> (r: Json)
        ensures
            r.view() == self.json(),
            r.form() == self.form(),
    {
        Json::object()
            .put("stdin", send_opt_str(&self.stdin))
            .put("stdout", send_opt_str(&self.stdout))
            .put("stderr", send_opt_str(&self.stderr))
            .put("terminal", Json::Bool(self.terminal))
            .put("streaming", Json::Bool(self.streaming))
    }

    /// Reads a value.
    pub fn from_json(j: &Json) -> (r: Option<ContainerIo>)
        ensures
            match r {
                Some(x) => canon_io(j.view()) == Some(x.json()),
                None => canon_io(j.view()) is None,
            },
    {
        match j {
            Json::Object(_) => read_io_fields(j),
            Json::Array(v) => {
                let names: [&'static str; 5] = [
                    "stdin",
                    "stdout",
                    "stderr",
                    "terminal",
                    "streaming",
                ];
                proof {
                    assert(text::names_of(names@) =~= io_fields());
                    assert(json::items_view(v@).skip(0) =~= json::items_view(v@));
                }
                let o = json::name_items(v, 0, &names, 0)?;
                read_io_fields(&o)
            },
            _ => None,
        }
    }
}

/// Reads the fields of a `ContainerIo`.
fn read_io_fields(j: &Json) -> (r: Option<ContainerIo>)
    ensures
        match r {
            Some(x) => canon_io_fields(j.view()) == Some(x.json()),
            None => canon_io_fields(j.view()) is None,
        },
{
    let stdin = read_opt_str(j, "stdin")?;
    let stdout = read_opt_str(j, "stdout")?;
    let stderr = read_opt_str(j, "stderr")?;
    let terminal = read_flag(j, "terminal")?;
    let streaming = read_flag(j, "streaming")?;
    Some(ContainerIo { stdin, stdout, stderr, terminal, streaming })
}

/// Reads a field that holds a `ContainerIo`.
fn read_io(j: &Json, key: &str) -> (r: Option<ContainerIo>)
    ensures
        match r {
            Some(x) => pick_io(wire::field(j.view(), key@)) == Some(x.json()),
            None => pick_io(wire::field(j.view(), key@)) is None,
        },
{
    match j.get(key) {
        Some(v) => ContainerIo::from_json(v),
        None => None,
    }
}

/// A `ContainerIo` that is sent is read as the same value.
pub proof fn law_io_round_trip(x: ContainerIo)
    ensures
        canon_io(x.json()) == Some(x.json()),
{
    reveal_strlit("stdin");
    reveal_strlit("stdout");
    reveal_strlit("stderr");
    reveal_strlit("terminal");
    reveal_strlit("streaming");
    assert("stdin"@.len() == 5);
    assert("stdout"@.len() == 6);
    assert("stderr"@.len() == 6);
    assert("terminal"@.len() == 8);
    assert("streaming"@.len() == 9);
    assert("stdout"@[3] != "stderr"@[3]);
    wire::lemma_sent_fields(x.stdin, Seq::empty(), Seq::empty());
    wire::lemma_sent_fields(x.stdout, Seq::empty(), Seq::empty());
    wire::lemma_sent_fields(x.stderr, Seq::empty(), Seq::empty());
}

/// A request to attach to a stream.
#[derive(Debug)]
pub struct IoStreamAttach {
    pub token: Option<String>,
    pub id: String,
    pub exec_id: Option<String>,
    pub stream: IoStreamKind,
}

/// The form in which the fields of a `IoStreamAttach` are sent.
pub open spec fn canon_attach_fields(j: Js) -> Option<Js> {
    let o = Some(json::no_members());
    let o = wire::put(o, "token"@, wire::pick_opt_str(wire::field(j, "token"@)));
    let o = wire::put(o, "id"@, wire::pick_str(wire::field(j, "id"@)));
    let o = wire::put(o, "exec_id"@, wire::pick_opt_str(wire::field(j, "exec_id"@)));
    let o = wire::put(o, "stream"@, pick_kind(wire::field(j, "stream"@)));
    o
}

/// The fields of a `IoStreamAttach`, in their order.
pub open spec fn attach_fields() -> Seq<Seq<char>> {
    seq!["token"@, "id"@, "exec_id"@, "stream"@]
}

/// The form in which a `IoStreamAttach` is sent, where `j` describes one, by the names of its
/// fields or by their order.
pub open spec fn canon_attach(j: Js) -> Option<Js> {
    match json::named(j, attach_fields(), 4) {
        Some(o) => canon_attach_fields(o),
        None => None,
    }
}

impl IoStreamAttach {
    /// The value as it is sent.
    pub open spec fn json(self) -> Js {
        json::no_members()
            .with("token"@, wire::opt_str_js(self.token))
            .with("id"@, Js::Str(self.id@))
            .with("exec_id"@, wire::opt_str_js(self.exec_id))
            .with("stream"@, Js::Str(self.stream.text()))
    }

    /// The value as it is written: its fields in their order.
    pub open spec fn form(self) -> Form {
        json::no_members_form()
            .put("token"@, json::flat(wire::opt_str_js(self.token)))
            .put("id"@, json::flat(Js::Str(self.id@)))
            .put("exec_id"@, json::flat(wire::opt_str_js(self.exec_id)))
            .put("stream"@, json::flat(Js::Str(self.stream.text())))
    }

    /// The value to send.
    pub fn to_json(&self) -> (r: Json)
        ensures
            r.view() == self.json(),
            r.form() == self.form(),
    {
        Json::object()
            .put("token", send_opt_str(&self.token))
            .put("id", Json::text(self.id.as_str()))
            .put("exec_id", send_opt_str(&self.exec_id))
            .put("stream", Json::text(self.stream.name()))
    }

    /// Reads a value.
    pub fn from_json(j: &Json) -> (r: Option<IoStreamAttach>)
        ensures
            match r {
                Some(x) => canon_attach(j.view()) == Some(x.json()),
                None => canon_attach(j.view()) is None,
            },
    {
        match j {
            Json::Object(_) => read_attach_fields(j),
            Json::Array(v) => {
                let names: [&'static str; 4] = ["token", "id", "exec_id", "stream"];
                proof {
                    assert(text::names_of(names@) =~= attach_fields());
                    assert(json::items_view(v@).skip(0) =~= json::items_view(v@));
                }
                let o = json::name_items(v, 0, &names, 4)?;
                read_attach_fields(&o)
            },
            _ => None,
        }
    }
}

/// Reads the fields of a `IoStreamAttach`.
fn read_attach_fields(j: &Json) -> (r: Option<IoStreamAttach>)
    ensures
        match r {
            Some(x) => canon_attach_fields(j.view()) == Some(x.json()),
            None => canon_attach_fields(j.view()) is None,
        },
{
    let token = read_opt_str(j, "token")?;
    let id = read_str(j, "id")?;
    let exec_id = read_opt_str(j, "exec_id")?;
    let stream = read_kind(j, "stream")?;
    Some(IoStreamAttach { token, id, exec_id, stream })
}

/// A `IoStreamAttach` that is sent is read as the same value.
pub proof fn law_attach_round_trip(x: IoStreamAttach)
    ensures
        canon_attach(x.json()) == Some(x.json()),
{
    reveal_strlit("token");
    reveal_strlit("id");
    reveal_strlit("exec_id");
    reveal_strlit("stream");
    assert("token"@.len() == 5);
    assert("id"@.len() == 2);
    assert("exec_id"@.len() == 7);
    assert("stream"@.len() == 6);
    wire::lemma_sent_fields(x.token, Seq::empty(), Seq::empty());
    wire::lemma_sent_fields(x.exec_id, Seq::empty(), Seq::empty());
    lemma_kind_names(x.stream);
}

/// The reply to an attach request.
#[derive(Debug)]
pub struct IoStreamAck {
    pub ok: bool,
    pub message: Option<String>,
}

/// The form in which the fields of a `IoStreamAck` are sent.
pub open spec fn canon_ack_fields(j: Js) -> Option<Js> {
    let o = Some(json::no_members());
    let o = wire::put(o, "ok"@, wire::pick_bool(wire::field(j, "ok"@)));
    let o = wire::put(o, "message"@, wire::pick_opt_str(wire::field(j, "message"@)));
    o
}

/// The fields of a `IoStreamAck`, in their order.
pub open spec fn ack_fields() -> Seq<Seq<char>> {
    seq!["ok"@, "message"@]
}

/// The form in which a `IoStreamAck` is sent, where `j` describes one, by the names of its
/// fields or by their order.
pub open spec fn canon_ack(j: Js) -> Option<Js> {
    match json::named(j, ack_fields(), 1) {
        Some(o) => canon_ack_fields(o),
        None => None,
    }
}

impl IoStreamAck {
    /// The value as it is sent.
    pub open spec fn json(self) -> Js {
        json::no_members()
            .with("ok"@, Js::Bool(self.ok))
            .with("message"@, wire::opt_str_js(self.message))
    }

    /// The value as it is written: its fields in their order.
    pub open spec fn form(self) -> Form {
        json::no_members_form()
            .put("ok"@, json::flat(Js::Bool(self.ok)))
            .put("message"@, json::flat(wire::opt_str_js(self.message)))
    }

    /// The value to send.
    pub fn to_json(&self) -> (r: Json)
        ensures
            r.view() == self.json(),
            r.form() == self.form(),
    {
        Json::object()
            .put("ok", Json::Bool(self.ok))
            .put("message", send_opt_str(&self.message))
    }

    /// Reads a value.
    pub fn from_json(j: &Json) -> (r: Option<IoStreamAck>)
        ensures
            match r {
                Some(x) => canon_ack(j.view()) == Some(x.json()),
                None => canon_ack(j.view()) is None,
            },
    {
        match j {
            Json::Object(_) => read_ack_fields(j),
            Json::Array(v) => {
                let names: [&'static str; 2] = ["ok", "message"];
                proof {
                    assert(text::names_of(names@) =~= ack_fields());
                    assert(json::items_view(v@).skip(0) =~= json::items_view(v@));
                }
                let o = json::name_items(v, 0, &names, 1)?;
                read_ack_fields(&o)
            },
            _ => None,
        }
    }
}

/// Reads the fields of a `IoStreamAck`.
fn read_ack_fields(j: &Json) -> (r: Option<IoStreamAck>)
    ensures
        match r {
            Some(x) => canon_ack_fields(j.view()) == Some(x.json()),
            None => canon_ack_fields(j.view()) is None,
        },
{
    let ok = read_bool(j, "ok")?;
    let message = read_opt_str(j, "message")?;
    Some(IoStreamAck { ok, message })
}

/// A `IoStreamAck` that is sent is read as the same value.
pub proof fn law_ack_round_trip(x: IoStreamAck)
    ensures
        canon_ack(x.json()) == Some(x.json()),
{
    reveal_strlit("ok");
    reveal_strlit("message");
    assert("ok"@.len() == 2);
    assert("message"@.len() == 7);
    wire::lemma_sent_fields(x.message, Seq::empty(), Seq::empty());
}

/// Which peers a container may reach.
#[derive(Debug)]
pub struct ContainerNetworkPolicy {
    /// A peer that is not listed is allowed.
    pub default_allow: bool,
    /// What would be dropped is logged and let through.
    pub audit_mode: bool,
    pub allow_addresses: Vec<Address>,
    pub deny_addresses: Vec<Address>,
}

/// The form in which the fields of a `ContainerNetworkPolicy` are sent.
pub open spec fn canon_policy_fields(j: Js) -> Option<Js> {
    let o = Some(json::no_members());
    let o = wire::put(o, "default_allow"@, wire::pick_flag(wire::field(j, "default_allow"@)));
    let o = wire::put(o, "audit_mode"@, wire::pick_flag(wire::field(j, "audit_mode"@)));
    let o = wire::put(
        o,
        "allow_addresses"@,
        address::pick_addresses(wire::field(j, "allow_addresses"@)),
    );
    let o = wire::put(
        o,
        "deny_addresses"@,
        address::pick_addresses(wire::field(j, "deny_addresses"@)),
    );
    o
}

/// The fields of a `ContainerNetworkPolicy`, in their order.
pub open spec fn policy_fields() -> Seq<Seq<char>> {
    seq!["default_allow"@, "audit_mode"@, "allow_addresses"@, "deny_addresses"@]
}

/// The form in which a `ContainerNetworkPolicy` is sent, where `j` describes one, by the names of its
/// fields or by their order.
pub open spec fn canon_policy(j: Js) -> Option<Js> {
    match json::named(j, policy_fields(), 0) {
        Some(o) => canon_policy_fields(o),
        None => None,
    }
}

impl Default for ContainerNetworkPolicy {
    fn default() -> (r: Self)
        ensures
            !r.default_allow,
            !r.audit_mode,
            r.allow_addresses@.len() == 0,
            r.deny_addresses@.len() == 0,
    {
        ContainerNetworkPolicy {
            default_allow: false,
            audit_mode: false,
            allow_addresses: Vec::new(),
            deny_addresses: Vec::new(),
        }
    }
}

impl ContainerNetworkPolicy {
    /// The value as it is sent.
    pub open spec fn json(self) -> Js {
        json::no_members()
            .with("default_allow"@, Js::Bool(self.default_allow))
            .with("audit_mode"@, Js::Bool(self.audit_mode))
            .with("allow_addresses"@, address::addresses_js(self.allow_addresses@))
            .with("deny_addresses"@, address::addresses_js(self.deny_addresses@))
    }

    /// The value as it is written: its fields in their order.
    pub open spec fn form(self) -> Form {
        json::no_members_form()
            .put("default_allow"@, json::flat(Js::Bool(self.default_allow)))
            .put("audit_mode"@, json::flat(Js::Bool(self.audit_mode)))
            .put("allow_addresses"@, json::flat(address::addresses_js(self.allow_addresses@)))
            .put("deny_addresses"@, json::flat(address::addresses_js(self.deny_addresses@)))
    }

    /// The value to send.
    pub fn to_json(&self) -> (r: Json)
        ensures
            r.view() == self.json(),
            r.form() == self.form(),
    {
        Json::object()
            .put("default_allow", Json::Bool(self.default_allow))
            .put("audit_mode", Json::Bool(self.audit_mode))
            .put("allow_addresses", send_addresses(&self.allow_addresses))
            .put("deny_addresses", send_addresses(&self.deny_addresses))
    }

    /// Reads a value.
    pub fn from_json(j: &Json) -> (r: Option<ContainerNetworkPolicy>)
        ensures
            match r {
                Some(x) => canon_policy(j.view()) == Some(x.json()),
                None => canon_policy(j.view()) is None,
            },
    {
        match j {
            Json::Object(_) => read_policy_fields(j),
            Json::Array(v) => {
                let names: [&'static str; 4] = [
                    "default_allow",
                    "audit_mode",
                    "allow_addresses",
                    "deny_addresses",
                ];
                proof {
                    assert(text::names_of(names@) =~= policy_fields());
                    assert(json::items_view(v@).skip(0) =~= json::items_view(v@));
                }
                let o = json::name_items(v, 0, &names, 0)?;
                read_policy_fields(&o)
            },
            _ => None,
        }
    }
}

/// Reads the fields of a `ContainerNetworkPolicy`.
fn read_policy_fields(j: &Json) -> (r: Option<ContainerNetworkPolicy>)
    ensures
        match r {
            Some(x) => canon_policy_fields(j.view()) == Some(x.json()),
            None => canon_policy_fields(j.view()) is None,
        },
{
    let default_allow = read_flag(j, "default_allow")?;
    let audit_mode = read_flag(j, "audit_mode")?;
    let allow_addresses = read_addresses(j, "allow_addresses")?;
    let deny_addresses = read_addresses(j, "deny_addresses")?;
    Some(ContainerNetworkPolicy { default_allow, audit_mode, allow_addresses, deny_addresses })
}

/// A `ContainerNetworkPolicy` that is sent is read as the same value.
pub proof fn law_policy_round_trip(x: ContainerNetworkPolicy)
    ensures
        canon_policy(x.json()) == Some(x.json()),
{
    reveal_strlit("default_allow");
    reveal_strlit("audit_mode");
    reveal_strlit("allow_addresses");
    reveal_strlit("deny_addresses");
    assert("default_allow"@.len() == 13);
    assert("audit_mode"@.len() == 10);
    assert("allow_addresses"@.len() == 15);
    assert("deny_addresses"@.len() == 14);
    address::lemma_addresses_sent(x.allow_addresses@);
    address::lemma_addresses_sent(x.deny_addresses@);
}

/// An optional policy as it is sent.
pub open spec fn opt_policy_json(p: Option<ContainerNetworkPolicy>) -> Js {
    match p {
        Some(x) => x.json(),
        None => Js::Null,
    }
}

/// An optional policy as it is written.
pub open spec fn opt_policy_form(p: Option<ContainerNetworkPolicy>) -> Form {
    match p {
        Some(x) => x.form(),
        None => Form::Null,
    }
}

/// A field that may hold a policy.
pub open spec fn pick_opt_policy(v: Option<Js>) -> Option<Js> {
    match v {
        None => Some(Js::Null),
        Some(Js::Null) => Some(Js::Null),
        Some(j) => canon_policy(j),
    }
}

/// Reads a field that may hold a policy.
fn read_opt_policy(j: &Json, key: &str) -> (r: Option<Option<ContainerNetworkPolicy>>)
    ensures
        match r {
            Some(x) => pick_opt_policy(wire::field(j.view(), key@)) == Some(opt_policy_json(x)),
            None => pick_opt_policy(wire::field(j.view(), key@)) is None,
        },
{
    match j.get(key) {
        None => Some(None),
        Some(Json::Null) => Some(None),
        Some(v) => match ContainerNetworkPolicy::from_json(v) {
            Some(p) => Some(Some(p)),
            None => None,
        },
    }
}

/// An optional policy to send.
fn send_opt_policy(p: &Option<ContainerNetworkPolicy>) -> (r: Json)
    ensures
        r.view() == opt_policy_json(*p),
        r.form() == opt_policy_form(*p),
{
    match p {
        Some(x) => x.to_json(),
        None => Json::Null,
    }
}

/// Limits of a container, in the units of OCI. What is left out stays as it is.
#[derive(Debug)]
pub struct ResourceLimits {
    pub cpu_quota: Option<i64>,
    pub cpu_period: Option<u64>,
    pub cpu_shares: Option<u64>,
    pub cpuset_cpus: Option<String>,
    pub cpuset_mems: Option<String>,
    pub memory_limit_bytes: Option<i64>,
    pub memory_reservation_bytes: Option<i64>,
    /// Memory and swap together: 0 means unset, -1 unlimited.
    pub memory_swap_bytes: Option<i64>,
    pub pids_limit: Option<i64>,
    /// Files of the cgroup to write as they are.
    pub unified: Vec<(String, String)>,
}

/// The form in which the fields of a `ResourceLimits` are sent.
pub open spec fn canon_limits_fields(j: Js) -> Option<Js> {
    let o = Some(json::no_members());
    let o = wire::put(
        o,
        "cpu_quota"@,
        wire::pick_opt_int(wire::field(j, "cpu_quota"@), i64::MIN as int, i64::MAX as int),
    );
    let o = wire::put(
        o,
        "cpu_period"@,
        wire::pick_opt_int(wire::field(j, "cpu_period"@), 0, u64::MAX as int),
    );
    let o = wire::put(
        o,
        "cpu_shares"@,
        wire::pick_opt_int(wire::field(j, "cpu_shares"@), 0, u64::MAX as int),
    );
    let o = wire::put(o, "cpuset_cpus"@, wire::pick_opt_str(wire::field(j, "cpuset_cpus"@)));
    let o = wire::put(o, "cpuset_mems"@, wire::pick_opt_str(wire::field(j, "cpuset_mems"@)));
    let o = wire::put(
        o,
        "memory_limit_bytes"@,
        wire::pick_opt_int(wire::field(j, "memory_limit_bytes"@), i64::MIN as int, i64::MAX as int),
    );
    let o = wire::put(
        o,
        "memory_reservation_bytes"@,
        wire::pick_opt_int(
            wire::field(j, "memory_reservation_bytes"@),
            i64::MIN as int,
            i64::MAX as int,
        ),
    );
    let o = wire::put(
        o,
        "memory_swap_bytes"@,
        wire::pick_opt_int(wire::field(j, "memory_swap_bytes"@), i64::MIN as int, i64::MAX as int),
    );
    let o = wire::put(
        o,
        "pids_limit"@,
        wire::pick_opt_int(wire::field(j, "pids_limit"@), i64::MIN as int, i64::MAX as int),
    );
    let o = wire::put(o, "unified"@, wire::pick_map(wire::field(j, "unified"@)));
    o
}

/// The fields of a `ResourceLimits`, in their order.
pub open spec fn limits_fields() -> Seq<Seq<char>> {
    seq![
        "cpu_quota"@,
        "cpu_period"@,
        "cpu_shares"@,
        "cpuset_cpus"@,
        "cpuset_mems"@,
        "memory_limit_bytes"@,
        "memory_reservation_bytes"@,
        "memory_swap_bytes"@,
        "pids_limit"@,
        "unified"@,
    ]
}

/// The form in which a `ResourceLimits` is sent, where `j` describes one, by the names of its
/// fields or by their order.
pub open spec fn canon_limits(j: Js) -> Option<Js> {
    match json::named(j, limits_fields(), 0) {
        Some(o) => canon_limits_fields(o),
        None => None,
    }
}

/// A field that holds a `ResourceLimits`.
pub open spec fn pick_limits(v: Option<Js>) -> Option<Js> {
    match v {
        Some(j) => canon_limits(j),
        None => None,
    }
}

impl Default for ResourceLimits {
    fn default() -> (r: Self)
        ensures
            r.cpu_quota is None,
            r.cpu_period is None,
            r.cpu_shares is None,
            r.cpuset_cpus is None,
            r.cpuset_mems is None,
            r.memory_limit_bytes is None,
            r.memory_reservation_bytes is None,
            r.memory_swap_bytes is None,
            r.pids_limit is None,
            r.unified@.len() == 0,
    {
        ResourceLimits {
            cpu_quota: None,
            cpu_period: None,
            cpu_shares: None,
            cpuset_cpus: None,
            cpuset_mems: None,
            memory_limit_bytes: None,
            memory_reservation_bytes: None,
            memory_swap_bytes: None,
            pids_limit: None,
            unified: Vec::new(),
        }
    }
}

impl ResourceLimits {
    /// The value as it is sent.
    pub open spec fn json(self) -> Js {
        json::no_members()
            .with("cpu_quota"@, wire::opt_int_js(wire::wide_i64(self.cpu_quota)))
            .with("cpu_period"@, wire::opt_int_js(wire::wide_u64(self.cpu_period)))
            .with("cpu_shares"@, wire::opt_int_js(wire::wide_u64(self.cpu_shares)))
            .with("cpuset_cpus"@, wire::opt_str_js(self.cpuset_cpus))
            .with("cpuset_mems"@, wire::opt_str_js(self.cpuset_mems))
            .with("memory_limit_bytes"@, wire::opt_int_js(wire::wide_i64(self.memory_limit_bytes)))
            .with(
                "memory_reservation_bytes"@,
                wire::opt_int_js(wire::wide_i64(self.memory_reservation_bytes)),
            )
            .with("memory_swap_bytes"@, wire::opt_int_js(wire::wide_i64(self.memory_swap_bytes)))
            .with("pids_limit"@, wire::opt_int_js(wire::wide_i64(self.pids_limit)))
            .with("unified"@, wire::map_js(self.unified@))
    }

    /// The value as it is written: its fields in their order.
    pub open spec fn form(self) -> Form {
        json::no_members_form()
            .put("cpu_quota"@, json::flat(wire::opt_int_js(wire::wide_i64(self.cpu_quota))))
            .put("cpu_period"@, json::flat(wire::opt_int_js(wire::wide_u64(self.cpu_period))))
            .put("cpu_shares"@, json::flat(wire::opt_int_js(wire::wide_u64(self.cpu_shares))))
            .put("cpuset_cpus"@, json::flat(wire::opt_str_js(self.cpuset_cpus)))
            .put("cpuset_mems"@, json::flat(wire::opt_str_js(self.cpuset_mems)))
            .put(
                "memory_limit_bytes"@,
                json::flat(wire::opt_int_js(wire::wide_i64(self.memory_limit_bytes))),
            )
            .put(
                "memory_reservation_bytes"@,
                json::flat(wire::opt_int_js(wire::wide_i64(self.memory_reservation_bytes))),
            )
            .put(
                "memory_swap_bytes"@,
                json::flat(wire::opt_int_js(wire::wide_i64(self.memory_swap_bytes))),
            )
            .put("pids_limit"@, json::flat(wire::opt_int_js(wire::wide_i64(self.pids_limit))))
            .put("unified"@, json::flat(wire::map_js(self.unified@)))
    }

    /// The value to send.
    pub fn to_json(&self) -> (r: Json)
        ensures
            r.view() == self.json(),
            r.form() == self.form(),
    {
        Json::object()
            .put("cpu_quota", send_opt_i64(self.cpu_quota))
            .put("cpu_period", send_opt_u64(self.cpu_period))
            .put("cpu_shares", send_opt_u64(self.cpu_shares))
            .put("cpuset_cpus", send_opt_str(&self.cpuset_cpus))
            .put("cpuset_mems", send_opt_str(&self.cpuset_mems))
            .put("memory_limit_bytes", send_opt_i64(self.memory_limit_bytes))
            .put("memory_reservation_bytes", send_opt_i64(self.memory_reservation_bytes))
            .put("memory_swap_bytes", send_opt_i64(self.memory_swap_bytes))
            .put("pids_limit", send_opt_i64(self.pids_limit))
            .put("unified", send_map(&self.unified))
    }

    /// Reads a value.
    pub fn from_json(j: &Json) -> (r: Option<ResourceLimits>)
        ensures
            match r {
                Some(x) => canon_limits(j.view()) == Some(x.json()),
                None => canon_limits(j.view()) is None,
            },
    {
        match j {
            Json::Object(_) => read_limits_fields(j),
            Json::Array(v) => {
                let names: [&'static str; 10] = [
                    "cpu_quota",
                    "cpu_period",
                    "cpu_shares",
                    "cpuset_cpus",
                    "cpuset_mems",
                    "memory_limit_bytes",
                    "memory_reservation_bytes",
                    "memory_swap_bytes",
                    "pids_limit",
                    "unified",
                ];
                proof {
                    assert(text::names_of(names@) =~= limits_fields());
                    assert(json::items_view(v@).skip(0) =~= json::items_view(v@));
                }
                let o = json::name_items(v, 0, &names, 0)?;
                read_limits_fields(&o)
            },
            _ => None,
        }
    }
}

/// Reads the fields of a `ResourceLimits`.
fn read_limits_fields(j: &Json) -> (r: Option<ResourceLimits>)
    ensures
        match r {
            Some(x) => canon_limits_fields(j.view()) == Some(x.json()),
            None => canon_limits_fields(j.view()) is None,
        },
{
    let cpu_quota = read_opt_i64(j, "cpu_quota")?;
    let cpu_period = read_opt_u64(j, "cpu_period")?;
    let cpu_shares = read_opt_u64(j, "cpu_shares")?;
    let cpuset_cpus = read_opt_str(j, "cpuset_cpus")?;
    let cpuset_mems = read_opt_str(j, "cpuset_mems")?;
    let memory_limit_bytes = read_opt_i64(j, "memory_limit_bytes")?;
    let memory_reservation_bytes = read_opt_i64(j, "memory_reservation_bytes")?;
    let memory_swap_bytes = read_opt_i64(j, "memory_swap_bytes")?;
    let pids_limit = read_opt_i64(j, "pids_limit")?;
    let unified = read_map(j, "unified")?;
    Some(
        ResourceLimits {
            cpu_quota,
            cpu_period,
            cpu_shares,
            cpuset_cpus,
            cpuset_mems,
            memory_limit_bytes,
            memory_reservation_bytes,
            memory_swap_bytes,
            pids_limit,
            unified,
        },
    )
}

/// Reads a field that holds a `ResourceLimits`.
fn read_limits(j: &Json, key: &str) -> (r: Option<ResourceLimits>)
    ensures
        match r {
            Some(x) => pick_limits(wire::field(j.view(), key@)) == Some(x.json()),
            None => pick_limits(wire::field(j.view(), key@)) is None,
        },
{
    match j.get(key) {
        Some(v) => ResourceLimits::from_json(v),
        None => None,
    }
}

/// A `ResourceLimits` that is sent is read as the same value.
pub proof fn law_limits_round_trip(x: ResourceLimits)
    ensures
        canon_limits(x.json()) == Some(x.json()),
{
    reveal_strlit("cpu_quota");
    reveal_strlit("cpu_period");
    reveal_strlit("cpu_shares");
    reveal_strlit("cpuset_cpus");
    reveal_strlit("cpuset_mems");
    reveal_strlit("memory_limit_bytes");
    reveal_strlit("memory_reservation_bytes");
    reveal_strlit("memory_swap_bytes");
    reveal_strlit("pids_limit");
    reveal_strlit("unified");
    assert("cpu_quota"@.len() == 9);
    assert("cpu_period"@.len() == 10);
    assert("cpu_shares"@.len() == 10);
    assert("cpuset_cpus"@.len() == 11);
    assert("cpuset_mems"@.len() == 11);
    assert("memory_limit_bytes"@.len() == 18);
    assert("memory_reservation_bytes"@.len() == 24);
    assert("memory_swap_bytes"@.len() == 17);
    assert("pids_limit"@.len() == 10);
    assert("unified"@.len() == 7);
    assert("cpu_period"@[4] != "cpu_shares"@[4]);
    assert("cpu_period"@[0] != "pids_limit"@[0]);
    assert("cpu_shares"@[0] != "pids_limit"@[0]);
    assert("cpuset_cpus"@[7] != "cpuset_mems"@[7]);
    wire::lemma_sent_fields(x.cpuset_cpus, Seq::empty(), Seq::empty());
    wire::lemma_sent_fields(x.cpuset_mems, Seq::empty(), Seq::empty());
    wire::lemma_sent_fields(None, Seq::empty(), x.unified@);
}

/// What a container uses.
#[derive(Debug)]
pub struct ContainerStats {
    pub cpu_usage_usec: u64,
    pub cpu_user_usec: u64,
    pub cpu_system_usec: u64,
    pub cpu_nr_periods: u64,
    pub cpu_nr_throttled: u64,
    pub cpu_throttled_usec: u64,
    pub memory_usage_bytes: u64,
    pub memory_limit_bytes: u64,
    pub memory_peak_bytes: u64,
    pub memory_swap_usage_bytes: u64,
    pub memory_swap_limit_bytes: u64,
    pub memory_anon_bytes: u64,
    pub memory_file_bytes: u64,
    pub memory_anon_thp_bytes: u64,
    pub memory_file_mapped_bytes: u64,
    pub memory_dirty_bytes: u64,
    pub memory_writeback_bytes: u64,
    pub memory_pgfault: u64,
    pub memory_pgmajfault: u64,
    pub memory_inactive_anon_bytes: u64,
    pub memory_active_anon_bytes: u64,
    pub memory_total_inactive_file_bytes: u64,
    pub memory_active_file_bytes: u64,
    pub memory_unevictable_bytes: u64,
    pub memory_events_max: u64,
    pub memory_events_oom: u64,
    pub memory_events_oom_kill: u64,
    pub pids_current: u64,
    /// 0 means unlimited.
    pub pids_limit: u64,
}

/// The form in which the fields of a `ContainerStats` are sent.
pub open spec fn canon_stats_fields(j: Js) -> Option<Js> {
    let o = Some(json::no_members());
    let o = wire::put(
        o,
        "cpu_usage_usec"@,
        wire::pick_int(wire::field(j, "cpu_usage_usec"@), 0, u64::MAX as int),
    );
    let o = wire::put(
        o,
        "cpu_user_usec"@,
        wire::pick_int(wire::field(j, "cpu_user_usec"@), 0, u64::MAX as int),
    );
    let o = wire::put(
        o,
        "cpu_system_usec"@,
        wire::pick_int(wire::field(j, "cpu_system_usec"@), 0, u64::MAX as int),
    );
    let o = wire::put(
        o,
        "cpu_nr_periods"@,
        wire::pick_int(wire::field(j, "cpu_nr_periods"@), 0, u64::MAX as int),
    );
    let o = wire::put(
        o,
        "cpu_nr_throttled"@,
        wire::pick_int(wire::field(j, "cpu_nr_throttled"@), 0, u64::MAX as int),
    );
    let o = wire::put(
        o,
        "cpu_throttled_usec"@,
        wire::pick_int(wire::field(j, "cpu_throttled_usec"@), 0, u64::MAX as int),
    );
    let o = wire::put(
        o,
        "memory_usage_bytes"@,
        wire::pick_int(wire::field(j, "memory_usage_bytes"@), 0, u64::MAX as int),
    );
    let o = wire::put(
        o,
        "memory_limit_bytes"@,
        wire::pick_int(wire::field(j, "memory_limit_bytes"@), 0, u64::MAX as int),
    );
    let o = wire::put(
        o,
        "memory_peak_bytes"@,
        wire::pick_int(wire::field(j, "memory_peak_bytes"@), 0, u64::MAX as int),
    );
    let o = wire::put(
        o,
        "memory_swap_usage_bytes"@,
        wire::pick_int(wire::field(j, "memory_swap_usage_bytes"@), 0, u64::MAX as int),
    );
    let o = wire::put(
        o,
        "memory_swap_limit_bytes"@,
        wire::pick_int(wire::field(j, "memory_swap_limit_bytes"@), 0, u64::MAX as int),
    );
    let o = wire::put(
        o,
        "memory_anon_bytes"@,
        wire::pick_int(wire::field(j, "memory_anon_bytes"@), 0, u64::MAX as int),
    );
    let o = wire::put(
        o,
        "memory_file_bytes"@,
        wire::pick_int(wire::field(j, "memory_file_bytes"@), 0, u64::MAX as int),
    );
    let o = wire::put(
        o,
        "memory_anon_thp_bytes"@,
        wire::pick_int(wire::field(j, "memory_anon_thp_bytes"@), 0, u64::MAX as int),
    );
    let o = wire::put(
        o,
        "memory_file_mapped_bytes"@,
        wire::pick_int(wire::field(j, "memory_file_mapped_bytes"@), 0, u64::MAX as int),
    );
    let o = wire::put(
        o,
        "memory_dirty_bytes"@,
        wire::pick_int(wire::field(j, "memory_dirty_bytes"@), 0, u64::MAX as int),
    );
    let o = wire::put(
        o,
        "memory_writeback_bytes"@,
        wire::pick_int(wire::field(j, "memory_writeback_bytes"@), 0, u64::MAX as int),
    );
    let o = wire::put(
        o,
        "memory_pgfault"@,
        wire::pick_int(wire::field(j, "memory_pgfault"@), 0, u64::MAX as int),
    );
    let o = wire::put(
        o,
        "memory_pgmajfault"@,
        wire::pick_int(wire::field(j, "memory_pgmajfault"@), 0, u64::MAX as int),
    );
    let o = wire::put(
        o,
        "memory_inactive_anon_bytes"@,
        wire::pick_int(wire::field(j, "memory_inactive_anon_bytes"@), 0, u64::MAX as int),
    );
    let o = wire::put(
        o,
        "memory_active_anon_bytes"@,
        wire::pick_int(wire::field(j, "memory_active_anon_bytes"@), 0, u64::MAX as int),
    );
    let o = wire::put(
        o,
        "memory_total_inactive_file_bytes"@,
        wire::pick_int(wire::field(j, "memory_total_inactive_file_bytes"@), 0, u64::MAX as int),
    );
    let o = wire::put(
        o,
        "memory_active_file_bytes"@,
        wire::pick_int(wire::field(j, "memory_active_file_bytes"@), 0, u64::MAX as int),
    );
    let o = wire::put(
        o,
        "memory_unevictable_bytes"@,
        wire::pick_int(wire::field(j, "memory_unevictable_bytes"@), 0, u64::MAX as int),
    );
    let o = wire::put(
        o,
        "memory_events_max"@,
        wire::pick_int(wire::field(j, "memory_events_max"@), 0, u64::MAX as int),
    );
    let o = wire::put(
        o,
        "memory_events_oom"@,
        wire::pick_int(wire::field(j, "memory_events_oom"@), 0, u64::MAX as int),
    );
    let o = wire::put(
        o,
        "memory_events_oom_kill"@,
        wire::pick_int(wire::field(j, "memory_events_oom_kill"@), 0, u64::MAX as int),
    );
    let o = wire::put(
        o,
        "pids_current"@,
        wire::pick_int(wire::field(j, "pids_current"@), 0, u64::MAX as int),
    );
    let o = wire::put(
        o,
        "pids_limit"@,
        wire::pick_int(wire::field(j, "pids_limit"@), 0, u64::MAX as int),
    );
    o
}

/// The fields of a `ContainerStats`, in their order.
pub open spec fn stats_fields() -> Seq<Seq<char>> {
    seq![
        "cpu_usage_usec"@,
        "cpu_user_usec"@,
        "cpu_system_usec"@,
        "cpu_nr_periods"@,
        "cpu_nr_throttled"@,
        "cpu_throttled_usec"@,
        "memory_usage_bytes"@,
        "memory_limit_bytes"@,
        "memory_peak_bytes"@,
        "memory_swap_usage_bytes"@,
        "memory_swap_limit_bytes"@,
        "memory_anon_bytes"@,
        "memory_file_bytes"@,
        "memory_anon_thp_bytes"@,
        "memory_file_mapped_bytes"@,
        "memory_dirty_bytes"@,
        "memory_writeback_bytes"@,
        "memory_pgfault"@,
        "memory_pgmajfault"@,
        "memory_inactive_anon_bytes"@,
        "memory_active_anon_bytes"@,
        "memory_total_inactive_file_bytes"@,
        "memory_active_file_bytes"@,
        "memory_unevictable_bytes"@,
        "memory_events_max"@,
        "memory_events_oom"@,
        "memory_events_oom_kill"@,
        "pids_current"@,
        "pids_limit"@,
    ]
}

/// The form in which a `ContainerStats` is sent, where `j` describes one, by the names of its
/// fields or by their order.
pub open spec fn canon_stats(j: Js) -> Option<Js> {
    match json::named(j, stats_fields(), 29) {
        Some(o) => canon_stats_fields(o),
        None => None,
    }
}

/// A field that holds a `ContainerStats`.
pub open spec fn pick_stats(v: Option<Js>) -> Option<Js> {
    match v {
        Some(j) => canon_stats(j),
        None => None,
    }
}

impl Default for ContainerStats {
    fn default() -> (r: Self)
        ensures
            r.cpu_usage_usec == 0,
            r.cpu_user_usec == 0,
            r.cpu_system_usec == 0,
            r.cpu_nr_periods == 0,
            r.cpu_nr_throttled == 0,
            r.cpu_throttled_usec == 0,
            r.memory_usage_bytes == 0,
            r.memory_limit_bytes == 0,
            r.memory_peak_bytes == 0,
            r.memory_swap_usage_bytes == 0,
            r.memory_swap_limit_bytes == 0,
            r.memory_anon_bytes == 0,
            r.memory_file_bytes == 0,
            r.memory_anon_thp_bytes == 0,
            r.memory_file_mapped_bytes == 0,
            r.memory_dirty_bytes == 0,
            r.memory_writeback_bytes == 0,
            r.memory_pgfault == 0,
            r.memory_pgmajfault == 0,
            r.memory_inactive_anon_bytes == 0,
            r.memory_active_anon_bytes == 0,
            r.memory_total_inactive_file_bytes == 0,
            r.memory_active_file_bytes == 0,
            r.memory_unevictable_bytes == 0,
            r.memory_events_max == 0,
            r.memory_events_oom == 0,
            r.memory_events_oom_kill == 0,
            r.pids_current == 0,
            r.pids_limit == 0,
    {
        ContainerStats {
            cpu_usage_usec: 0,
            cpu_user_usec: 0,
            cpu_system_usec: 0,
            cpu_nr_periods: 0,
            cpu_nr_throttled: 0,
            cpu_throttled_usec: 0,
            memory_usage_bytes: 0,
            memory_limit_bytes: 0,
            memory_peak_bytes: 0,
            memory_swap_usage_bytes: 0,
            memory_swap_limit_bytes: 0,
            memory_anon_bytes: 0,
            memory_file_bytes: 0,
            memory_anon_thp_bytes: 0,
            memory_file_mapped_bytes: 0,
            memory_dirty_bytes: 0,
            memory_writeback_bytes: 0,
            memory_pgfault: 0,
            memory_pgmajfault: 0,
            memory_inactive_anon_bytes: 0,
            memory_active_anon_bytes: 0,
            memory_total_inactive_file_bytes: 0,
            memory_active_file_bytes: 0,
            memory_unevictable_bytes: 0,
            memory_events_max: 0,
            memory_events_oom: 0,
            memory_events_oom_kill: 0,
            pids_current: 0,
            pids_limit: 0,
        }
    }
}

impl ContainerStats {
    /// The value as it is sent.
    pub open spec fn json(self) -> Js {
        json::no_members()
            .with("cpu_usage_usec"@, Js::Int(self.cpu_usage_usec as int))
            .with("cpu_user_usec"@, Js::Int(self.cpu_user_usec as int))
            .with("cpu_system_usec"@, Js::Int(self.cpu_system_usec as int))
            .with("cpu_nr_periods"@, Js::Int(self.cpu_nr_periods as int))
            .with("cpu_nr_throttled"@, Js::Int(self.cpu_nr_throttled as int))
            .with("cpu_throttled_usec"@, Js::Int(self.cpu_throttled_usec as int))
            .with("memory_usage_bytes"@, Js::Int(self.memory_usage_bytes as int))
            .with("memory_limit_bytes"@, Js::Int(self.memory_limit_bytes as int))
            .with("memory_peak_bytes"@, Js::Int(self.memory_peak_bytes as int))
            .with("memory_swap_usage_bytes"@, Js::Int(self.memory_swap_usage_bytes as int))
            .with("memory_swap_limit_bytes"@, Js::Int(self.memory_swap_limit_bytes as int))
            .with("memory_anon_bytes"@, Js::Int(self.memory_anon_bytes as int))
            .with("memory_file_bytes"@, Js::Int(self.memory_file_bytes as int))
            .with("memory_anon_thp_bytes"@, Js::Int(self.memory_anon_thp_bytes as int))
            .with("memory_file_mapped_bytes"@, Js::Int(self.memory_file_mapped_bytes as int))
            .with("memory_dirty_bytes"@, Js::Int(self.memory_dirty_bytes as int))
            .with("memory_writeback_bytes"@, Js::Int(self.memory_writeback_bytes as int))
            .with("memory_pgfault"@, Js::Int(self.memory_pgfault as int))
            .with("memory_pgmajfault"@, Js::Int(self.memory_pgmajfault as int))
            .with("memory_inactive_anon_bytes"@, Js::Int(self.memory_inactive_anon_bytes as int))
            .with("memory_active_anon_bytes"@, Js::Int(self.memory_active_anon_bytes as int))
            .with(
                "memory_total_inactive_file_bytes"@,
                Js::Int(self.memory_total_inactive_file_bytes as int),
            )
            .with("memory_active_file_bytes"@, Js::Int(self.memory_active_file_bytes as int))
            .with("memory_unevictable_bytes"@, Js::Int(self.memory_unevictable_bytes as int))
            .with("memory_events_max"@, Js::Int(self.memory_events_max as int))
            .with("memory_events_oom"@, Js::Int(self.memory_events_oom as int))
            .with("memory_events_oom_kill"@, Js::Int(self.memory_events_oom_kill as int))
            .with("pids_current"@, Js::Int(self.pids_current as int))
            .with("pids_limit"@, Js::Int(self.pids_limit as int))
    }

    /// The value as it is written: its fields in their order.
    pub open spec fn form(self) -> Form {
        json::no_members_form()
            .put("cpu_usage_usec"@, json::flat(Js::Int(self.cpu_usage_usec as int)))
            .put("cpu_user_usec"@, json::flat(Js::Int(self.cpu_user_usec as int)))
            .put("cpu_system_usec"@, json::flat(Js::Int(self.cpu_system_usec as int)))
            .put("cpu_nr_periods"@, json::flat(Js::Int(self.cpu_nr_periods as int)))
            .put("cpu_nr_throttled"@, json::flat(Js::Int(self.cpu_nr_throttled as int)))
            .put("cpu_throttled_usec"@, json::flat(Js::Int(self.cpu_throttled_usec as int)))
            .put("memory_usage_bytes"@, json::flat(Js::Int(self.memory_usage_bytes as int)))
            .put("memory_limit_bytes"@, json::flat(Js::Int(self.memory_limit_bytes as int)))
            .put("memory_peak_bytes"@, json::flat(Js::Int(self.memory_peak_bytes as int)))
            .put(
                "memory_swap_usage_bytes"@,
                json::flat(Js::Int(self.memory_swap_usage_bytes as int)),
            )
            .put(
                "memory_swap_limit_bytes"@,
                json::flat(Js::Int(self.memory_swap_limit_bytes as int)),
            )
            .put("memory_anon_bytes"@, json::flat(Js::Int(self.memory_anon_bytes as int)))
            .put("memory_file_bytes"@, json::flat(Js::Int(self.memory_file_bytes as int)))
            .put("memory_anon_thp_bytes"@, json::flat(Js::Int(self.memory_anon_thp_bytes as int)))
            .put(
                "memory_file_mapped_bytes"@,
                json::flat(Js::Int(self.memory_file_mapped_bytes as int)),
            )
            .put("memory_dirty_bytes"@, json::flat(Js::Int(self.memory_dirty_bytes as int)))
            .put("memory_writeback_bytes"@, json::flat(Js::Int(self.memory_writeback_bytes as int)))
            .put("memory_pgfault"@, json::flat(Js::Int(self.memory_pgfault as int)))
            .put("memory_pgmajfault"@, json::flat(Js::Int(self.memory_pgmajfault as int)))
            .put(
                "memory_inactive_anon_bytes"@,
                json::flat(Js::Int(self.memory_inactive_anon_bytes as int)),
            )
            .put(
                "memory_active_anon_bytes"@,
                json::flat(Js::Int(self.memory_active_anon_bytes as int)),
            )
            .put(
                "memory_total_inactive_file_bytes"@,
                json::flat(Js::Int(self.memory_total_inactive_file_bytes as int)),
            )
            .put(
                "memory_active_file_bytes"@,
                json::flat(Js::Int(self.memory_active_file_bytes as int)),
            )
            .put(
                "memory_unevictable_bytes"@,
                json::flat(Js::Int(self.memory_unevictable_bytes as int)),
            )
            .put("memory_events_max"@, json::flat(Js::Int(self.memory_events_max as int)))
            .put("memory_events_oom"@, json::flat(Js::Int(self.memory_events_oom as int)))
            .put("memory_events_oom_kill"@, json::flat(Js::Int(self.memory_events_oom_kill as int)))
            .put("pids_current"@, json::flat(Js::Int(self.pids_current as int)))
            .put("pids_limit"@, json::flat(Js::Int(self.pids_limit as int)))
    }

    /// The value to send.
    pub fn to_json(&self) -> (r: Json)
        ensures
            r.view() == self.json(),
            r.form() == self.form(),
    {
        Json::object()
            .put("cpu_usage_usec", Json::Unsigned(self.cpu_usage_usec))
            .put("cpu_user_usec", Json::Unsigned(self.cpu_user_usec))
            .put("cpu_system_usec", Json::Unsigned(self.cpu_system_usec))
            .put("cpu_nr_periods", Json::Unsigned(self.cpu_nr_periods))
            .put("cpu_nr_throttled", Json::Unsigned(self.cpu_nr_throttled))
            .put("cpu_throttled_usec", Json::Unsigned(self.cpu_throttled_usec))
            .put("memory_usage_bytes", Json::Unsigned(self.memory_usage_bytes))
            .put("memory_limit_bytes", Json::Unsigned(self.memory_limit_bytes))
            .put("memory_peak_bytes", Json::Unsigned(self.memory_peak_bytes))
            .put("memory_swap_usage_bytes", Json::Unsigned(self.memory_swap_usage_bytes))
            .put("memory_swap_limit_bytes", Json::Unsigned(self.memory_swap_limit_bytes))
            .put("memory_anon_bytes", Json::Unsigned(self.memory_anon_bytes))
            .put("memory_file_bytes", Json::Unsigned(self.memory_file_bytes))
            .put("memory_anon_thp_bytes", Json::Unsigned(self.memory_anon_thp_bytes))
            .put("memory_file_mapped_bytes", Json::Unsigned(self.memory_file_mapped_bytes))
            .put("memory_dirty_bytes", Json::Unsigned(self.memory_dirty_bytes))
            .put("memory_writeback_bytes", Json::Unsigned(self.memory_writeback_bytes))
            .put("memory_pgfault", Json::Unsigned(self.memory_pgfault))
            .put("memory_pgmajfault", Json::Unsigned(self.memory_pgmajfault))
            .put("memory_inactive_anon_bytes", Json::Unsigned(self.memory_inactive_anon_bytes))
            .put("memory_active_anon_bytes", Json::Unsigned(self.memory_active_anon_bytes))
            .put(
                "memory_total_inactive_file_bytes",
                Json::Unsigned(self.memory_total_inactive_file_bytes),
            )
            .put("memory_active_file_bytes", Json::Unsigned(self.memory_active_file_bytes))
            .put("memory_unevictable_bytes", Json::Unsigned(self.memory_unevictable_bytes))
            .put("memory_events_max", Json::Unsigned(self.memory_events_max))
            .put("memory_events_oom", Json::Unsigned(self.memory_events_oom))
            .put("memory_events_oom_kill", Json::Unsigned(self.memory_events_oom_kill))
            .put("pids_current", Json::Unsigned(self.pids_current))
            .put("pids_limit", Json::Unsigned(self.pids_limit))
    }

    /// Reads a value.
    pub fn from_json(j: &Json) -> (r: Option<ContainerStats>)
        ensures
            match r {
                Some(x) => canon_stats(j.view()) == Some(x.json()),
                None => canon_stats(j.view()) is None,
            },
    {
        match j {
            Json::Object(_) => read_stats_fields(j),
            Json::Array(v) => {
                let names: [&'static str; 29] = [
                    "cpu_usage_usec",
                    "cpu_user_usec",
                    "cpu_system_usec",
                    "cpu_nr_periods",
                    "cpu_nr_throttled",
                    "cpu_throttled_usec",
                    "memory_usage_bytes",
                    "memory_limit_bytes",
                    "memory_peak_bytes",
                    "memory_swap_usage_bytes",
                    "memory_swap_limit_bytes",
                    "memory_anon_bytes",
                    "memory_file_bytes",
                    "memory_anon_thp_bytes",
                    "memory_file_mapped_bytes",
                    "memory_dirty_bytes",
                    "memory_writeback_bytes",
                    "memory_pgfault",
                    "memory_pgmajfault",
                    "memory_inactive_anon_bytes",
                    "memory_active_anon_bytes",
                    "memory_total_inactive_file_bytes",
                    "memory_active_file_bytes",
                    "memory_unevictable_bytes",
                    "memory_events_max",
                    "memory_events_oom",
                    "memory_events_oom_kill",
                    "pids_current",
                    "pids_limit",
                ];
                proof {
                    assert(text::names_of(names@) =~= stats_fields());
                    assert(json::items_view(v@).skip(0) =~= json::items_view(v@));
                }
                let o = json::name_items(v, 0, &names, 29)?;
                read_stats_fields(&o)
            },
            _ => None,
        }
    }
}

/// Reads the fields of a `ContainerStats`.
fn read_stats_fields(j: &Json) -> (r: Option<ContainerStats>)
    ensures
        match r {
            Some(x) => canon_stats_fields(j.view()) == Some(x.json()),
            None => canon_stats_fields(j.view()) is None,
        },
{
    let cpu_usage_usec: u64 = read_u64(j, "cpu_usage_usec")?;
    let cpu_user_usec: u64 = read_u64(j, "cpu_user_usec")?;
    let cpu_system_usec: u64 = read_u64(j, "cpu_system_usec")?;
    let cpu_nr_periods: u64 = read_u64(j, "cpu_nr_periods")?;
    let cpu_nr_throttled: u64 = read_u64(j, "cpu_nr_throttled")?;
    let cpu_throttled_usec: u64 = read_u64(j, "cpu_throttled_usec")?;
    let memory_usage_bytes: u64 = read_u64(j, "memory_usage_bytes")?;
    let memory_limit_bytes: u64 = read_u64(j, "memory_limit_bytes")?;
    let memory_peak_bytes: u64 = read_u64(j, "memory_peak_bytes")?;
    let memory_swap_usage_bytes: u64 = read_u64(j, "memory_swap_usage_bytes")?;
    let memory_swap_limit_bytes: u64 = read_u64(j, "memory_swap_limit_bytes")?;
    let memory_anon_bytes: u64 = read_u64(j, "memory_anon_bytes")?;
    let memory_file_bytes: u64 = read_u64(j, "memory_file_bytes")?;
    let memory_anon_thp_bytes: u64 = read_u64(j, "memory_anon_thp_bytes")?;
    let memory_file_mapped_bytes: u64 = read_u64(j, "memory_file_mapped_bytes")?;
    let memory_dirty_bytes: u64 = read_u64(j, "memory_dirty_bytes")?;
    let memory_writeback_bytes: u64 = read_u64(j, "memory_writeback_bytes")?;
    let memory_pgfault: u64 = read_u64(j, "memory_pgfault")?;
    let memory_pgmajfault: u64 = read_u64(j, "memory_pgmajfault")?;
    let memory_inactive_anon_bytes: u64 = read_u64(j, "memory_inactive_anon_bytes")?;
    let memory_active_anon_bytes: u64 = read_u64(j, "memory_active_anon_bytes")?;
    let memory_total_inactive_file_bytes: u64 = read_u64(j, "memory_total_inactive_file_bytes")?;
    let memory_active_file_bytes: u64 = read_u64(j, "memory_active_file_bytes")?;
    let memory_unevictable_bytes: u64 = read_u64(j, "memory_unevictable_bytes")?;
    let memory_events_max: u64 = read_u64(j, "memory_events_max")?;
    let memory_events_oom: u64 = read_u64(j, "memory_events_oom")?;
    let memory_events_oom_kill: u64 = read_u64(j, "memory_events_oom_kill")?;
    let pids_current: u64 = read_u64(j, "pids_current")?;
    let pids_limit: u64 = read_u64(j, "pids_limit")?;
    Some(
        ContainerStats {
            cpu_usage_usec,
            cpu_user_usec,
            cpu_system_usec,
            cpu_nr_periods,
            cpu_nr_throttled,
            cpu_throttled_usec,
            memory_usage_bytes,
            memory_limit_bytes,
            memory_peak_bytes,
            memory_swap_usage_bytes,
            memory_swap_limit_bytes,
            memory_anon_bytes,
            memory_file_bytes,
            memory_anon_thp_bytes,
            memory_file_mapped_bytes,
            memory_dirty_bytes,
            memory_writeback_bytes,
            memory_pgfault,
            memory_pgmajfault,
            memory_inactive_anon_bytes,
            memory_active_anon_bytes,
            memory_total_inactive_file_bytes,
            memory_active_file_bytes,
            memory_unevictable_bytes,
            memory_events_max,
            memory_events_oom,
            memory_events_oom_kill,
            pids_current,
            pids_limit,
        },
    )
}

/// Reads a field that holds a `ContainerStats`.
fn read_stats(j: &Json, key: &str) -> (r: Option<ContainerStats>)
    ensures
        match r {
            Some(x) => pick_stats(wire::field(j.view(), key@)) == Some(x.json()),
            None => pick_stats(wire::field(j.view(), key@)) is None,
        },
{
    match j.get(key) {
        Some(v) => ContainerStats::from_json(v),
        None => None,
    }
}

/// A `ContainerStats` that is sent is read as the same value.
pub proof fn law_stats_round_trip(x: ContainerStats)
    ensures
        canon_stats(x.json()) == Some(x.json()),
{
    reveal_strlit("cpu_usage_usec");
    reveal_strlit("cpu_user_usec");
    reveal_strlit("cpu_system_usec");
    reveal_strlit("cpu_nr_periods");
    reveal_strlit("cpu_nr_throttled");
    reveal_strlit("cpu_throttled_usec");
    reveal_strlit("memory_usage_bytes");
    reveal_strlit("memory_limit_bytes");
    reveal_strlit("memory_peak_bytes");
    reveal_strlit("memory_swap_usage_bytes");
    reveal_strlit("memory_swap_limit_bytes");
    reveal_strlit("memory_anon_bytes");
    reveal_strlit("memory_file_bytes");
    reveal_strlit("memory_anon_thp_bytes");
    reveal_strlit("memory_file_mapped_bytes");
    reveal_strlit("memory_dirty_bytes");
    reveal_strlit("memory_writeback_bytes");
    reveal_strlit("memory_pgfault");
    reveal_strlit("memory_pgmajfault");
    reveal_strlit("memory_inactive_anon_bytes");
    reveal_strlit("memory_active_anon_bytes");
    reveal_strlit("memory_total_inactive_file_bytes");
    reveal_strlit("memory_active_file_bytes");
    reveal_strlit("memory_unevictable_bytes");
    reveal_strlit("memory_events_max");
    reveal_strlit("memory_events_oom");
    reveal_strlit("memory_events_oom_kill");
    reveal_strlit("pids_current");
    reveal_strlit("pids_limit");
    assert("cpu_usage_usec"@.len() == 14);
    assert("cpu_user_usec"@.len() == 13);
    assert("cpu_system_usec"@.len() == 15);
    assert("cpu_nr_periods"@.len() == 14);
    assert("cpu_nr_throttled"@.len() == 16);
    assert("cpu_throttled_usec"@.len() == 18);
    assert("memory_usage_bytes"@.len() == 18);
    assert("memory_limit_bytes"@.len() == 18);
    assert("memory_peak_bytes"@.len() == 17);
    assert("memory_swap_usage_bytes"@.len() == 23);
    assert("memory_swap_limit_bytes"@.len() == 23);
    assert("memory_anon_bytes"@.len() == 17);
    assert("memory_file_bytes"@.len() == 17);
    assert("memory_anon_thp_bytes"@.len() == 21);
    assert("memory_file_mapped_bytes"@.len() == 24);
    assert("memory_dirty_bytes"@.len() == 18);
    assert("memory_writeback_bytes"@.len() == 22);
    assert("memory_pgfault"@.len() == 14);
    assert("memory_pgmajfault"@.len() == 17);
    assert("memory_inactive_anon_bytes"@.len() == 26);
    assert("memory_active_anon_bytes"@.len() == 24);
    assert("memory_total_inactive_file_bytes"@.len() == 32);
    assert("memory_active_file_bytes"@.len() == 24);
    assert("memory_unevictable_bytes"@.len() == 24);
    assert("memory_events_max"@.len() == 17);
    assert("memory_events_oom"@.len() == 17);
    assert("memory_events_oom_kill"@.len() == 22);
    assert("pids_current"@.len() == 12);
    assert("pids_limit"@.len() == 10);
    assert("cpu_usage_usec"@[4] != "cpu_nr_periods"@[4]);
    assert("cpu_usage_usec"@[0] != "memory_pgfault"@[0]);
    assert("cpu_nr_periods"@[0] != "memory_pgfault"@[0]);
    assert("cpu_throttled_usec"@[0] != "memory_usage_bytes"@[0]);
    assert("cpu_throttled_usec"@[0] != "memory_limit_bytes"@[0]);
    assert("cpu_throttled_usec"@[0] != "memory_dirty_bytes"@[0]);
    assert("memory_usage_bytes"@[7] != "memory_limit_bytes"@[7]);
    assert("memory_usage_bytes"@[7] != "memory_dirty_bytes"@[7]);
    assert("memory_limit_bytes"@[7] != "memory_dirty_bytes"@[7]);
    assert("memory_peak_bytes"@[7] != "memory_anon_bytes"@[7]);
    assert("memory_peak_bytes"@[7] != "memory_file_bytes"@[7]);
    assert("memory_peak_bytes"@[8] != "memory_pgmajfault"@[8]);
    assert("memory_peak_bytes"@[7] != "memory_events_max"@[7]);
    assert("memory_peak_bytes"@[7] != "memory_events_oom"@[7]);
    assert("memory_swap_usage_bytes"@[12] != "memory_swap_limit_bytes"@[12]);
    assert("memory_anon_bytes"@[7] != "memory_file_bytes"@[7]);
    assert("memory_anon_bytes"@[7] != "memory_pgmajfault"@[7]);
    assert("memory_anon_bytes"@[7] != "memory_events_max"@[7]);
    assert("memory_anon_bytes"@[7] != "memory_events_oom"@[7]);
    assert("memory_file_bytes"@[7] != "memory_pgmajfault"@[7]);
    assert("memory_file_bytes"@[7] != "memory_events_max"@[7]);
    assert("memory_file_bytes"@[7] != "memory_events_oom"@[7]);
    assert("memory_file_mapped_bytes"@[7] != "memory_active_anon_bytes"@[7]);
    assert("memory_file_mapped_bytes"@[7] != "memory_active_file_bytes"@[7]);
    assert("memory_file_mapped_bytes"@[7] != "memory_unevictable_bytes"@[7]);
    assert("memory_writeback_bytes"@[7] != "memory_events_oom_kill"@[7]);
    assert("memory_pgmajfault"@[7] != "memory_events_max"@[7]);
    assert("memory_pgmajfault"@[7] != "memory_events_oom"@[7]);
    assert("memory_active_anon_bytes"@[14] != "memory_active_file_bytes"@[14]);
    assert("memory_active_anon_bytes"@[7] != "memory_unevictable_bytes"@[7]);
    assert("memory_active_file_bytes"@[7] != "memory_unevictable_bytes"@[7]);
    assert("memory_events_max"@[14] != "memory_events_oom"@[14]);
}

/// How often the memory limits of a container were hit.
#[derive(Debug)]
pub struct CgroupEvents {
    pub low: u64,
    pub high: u64,
    pub max: u64,
    pub oom: u64,
    pub oom_kill: u64,
    pub oom_group_kill: u64,
}

/// The form in which the fields of a `CgroupEvents` are sent.
pub open spec fn canon_events_fields(j: Js) -> Option<Js> {
    let o = Some(json::no_members());
    let o = wire::put(o, "low"@, wire::pick_int(wire::field(j, "low"@), 0, u64::MAX as int));
    let o = wire::put(o, "high"@, wire::pick_int(wire::field(j, "high"@), 0, u64::MAX as int));
    let o = wire::put(o, "max"@, wire::pick_int(wire::field(j, "max"@), 0, u64::MAX as int));
    let o = wire::put(o, "oom"@, wire::pick_int(wire::field(j, "oom"@), 0, u64::MAX as int));
    let o = wire::put(
        o,
        "oom_kill"@,
        wire::pick_int(wire::field(j, "oom_kill"@), 0, u64::MAX as int),
    );
    let o = wire::put(
        o,
        "oom_group_kill"@,
        wire::pick_int(wire::field(j, "oom_group_kill"@), 0, u64::MAX as int),
    );
    o
}

/// The fields of a `CgroupEvents`, in their order.
pub open spec fn events_fields() -> Seq<Seq<char>> {
    seq!["low"@, "high"@, "max"@, "oom"@, "oom_kill"@, "oom_group_kill"@]
}

/// The form in which a `CgroupEvents` is sent, where `j` describes one, by the names of its
/// fields or by their order.
pub open spec fn canon_events(j: Js) -> Option<Js> {
    match json::named(j, events_fields(), 6) {
        Some(o) => canon_events_fields(o),
        None => None,
    }
}

/// A field that holds a `CgroupEvents`.
pub open spec fn pick_events(v: Option<Js>) -> Option<Js> {
    match v {
        Some(j) => canon_events(j),
        None => None,
    }
}

impl Default for CgroupEvents {
    fn default() -> (r: Self)
        ensures
            r.low == 0,
            r.high == 0,
            r.max == 0,
            r.oom == 0,
            r.oom_kill == 0,
            r.oom_group_kill == 0,
    {
        CgroupEvents {
            low: 0,
            high: 0,
            max: 0,
            oom: 0,
            oom_kill: 0,
            oom_group_kill: 0,
        }
    }
}

impl CgroupEvents {
    /// The value as it is sent.
    pub open spec fn json(self) -> Js {
        json::no_members()
            .with("low"@, Js::Int(self.low as int))
            .with("high"@, Js::Int(self.high as int))
            .with("max"@, Js::Int(self.max as int))
            .with("oom"@, Js::Int(self.oom as int))
            .with("oom_kill"@, Js::Int(self.oom_kill as int))
            .with("oom_group_kill"@, Js::Int(self.oom_group_kill as int))
    }

    /// The value as it is written: its fields in their order.
    pub open spec fn form(self) -> Form {
        json::no_members_form()
            .put("low"@, json::flat(Js::Int(self.low as int)))
            .put("high"@, json::flat(Js::Int(self.high as int)))
            .put("max"@, json::flat(Js::Int(self.max as int)))
            .put("oom"@, json::flat(Js::Int(self.oom as int)))
            .put("oom_kill"@, json::flat(Js::Int(self.oom_kill as int)))
            .put("oom_group_kill"@, json::flat(Js::Int(self.oom_group_kill as int)))
    }

    /// The value to send.
    pub fn to_json(&self) -> (r: Json)
        ensures
            r.view() == self.json(),
            r.form() == self.form(),
    {
        Json::object()
            .put("low", Json::Unsigned(self.low))
            .put("high", Json::Unsigned(self.high))
            .put("max", Json::Unsigned(self.max))
            .put("oom", Json::Unsigned(self.oom))
            .put("oom_kill", Json::Unsigned(self.oom_kill))
            .put("oom_group_kill", Json::Unsigned(self.oom_group_kill))
    }

    /// Reads a value.
    pub fn from_json(j: &Json) -> (r: Option<CgroupEvents>)
        ensures
            match r {
                Some(x) => canon_events(j.view()) == Some(x.json()),
                None => canon_events(j.view()) is None,
            },
    {
        match j {
            Json::Object(_) => read_events_fields(j),
            Json::Array(v) => {
                let names: [&'static str; 6] = [
                    "low",
                    "high",
                    "max",
                    "oom",
                    "oom_kill",
                    "oom_group_kill",
                ];
                proof {
                    assert(text::names_of(names@) =~= events_fields());
                    assert(json::items_view(v@).skip(0) =~= json::items_view(v@));
                }
                let o = json::name_items(v, 0, &names, 6)?;
                read_events_fields(&o)
            },
            _ => None,
        }
    }
}

/// Reads the fields of a `CgroupEvents`.
fn read_events_fields(j: &Json) -> (r: Option<CgroupEvents>)
    ensures
        match r {
            Some(x) => canon_events_fields(j.view()) == Some(x.json()),
            None => canon_events_fields(j.view()) is None,
        },
{
    let low: u64 = read_u64(j, "low")?;
    let high: u64 = read_u64(j, "high")?;
    let max: u64 = read_u64(j, "max")?;
    let oom: u64 = read_u64(j, "oom")?;
    let oom_kill: u64 = read_u64(j, "oom_kill")?;
    let oom_group_kill: u64 = read_u64(j, "oom_group_kill")?;
    Some(CgroupEvents { low, high, max, oom, oom_kill, oom_group_kill })
}

/// Reads a field that holds a `CgroupEvents`.
fn read_events(j: &Json, key: &str) -> (r: Option<CgroupEvents>)
    ensures
        match r {
            Some(x) => pick_events(wire::field(j.view(), key@)) == Some(x.json()),
            None => pick_events(wire::field(j.view(), key@)) is None,
        },
{
    match j.get(key) {
        Some(v) => CgroupEvents::from_json(v),
        None => None,
    }
}

/// A `CgroupEvents` that is sent is read as the same value.
pub proof fn law_events_round_trip(x: CgroupEvents)
    ensures
        canon_events(x.json()) == Some(x.json()),
{
    reveal_strlit("low");
    reveal_strlit("high");
    reveal_strlit("max");
    reveal_strlit("oom");
    reveal_strlit("oom_kill");
    reveal_strlit("oom_group_kill");
    assert("low"@.len() == 3);
    assert("high"@.len() == 4);
    assert("max"@.len() == 3);
    assert("oom"@.len() == 3);
    assert("oom_kill"@.len() == 8);
    assert("oom_group_kill"@.len() == 14);
    assert("low"@[0] != "max"@[0]);
    assert("low"@[0] != "oom"@[0]);
    assert("max"@[0] != "oom"@[0]);
}

/// How often the guest enforced its security rules.
#[derive(Debug)]
pub struct SecurityStats {
    pub seccomp_notify_received: u64,
    pub seccomp_notify_denied: u64,
    pub seccomp_notify_continued: u64,
    pub seccomp_notify_errors: u64,
    pub selinux_mounts_labeled: u64,
    pub lsm_apply_failures: u64,
}

/// The form in which the fields of a `SecurityStats` are sent.
pub open spec fn canon_security_fields(j: Js) -> Option<Js> {
    let o = Some(json::no_members());
    let o = wire::put(
        o,
        "seccomp_notify_received"@,
        wire::pick_int(wire::field(j, "seccomp_notify_received"@), 0, u64::MAX as int),
    );
    let o = wire::put(
        o,
        "seccomp_notify_denied"@,
        wire::pick_int(wire::field(j, "seccomp_notify_denied"@), 0, u64::MAX as int),
    );
    let o = wire::put(
        o,
        "seccomp_notify_continued"@,
        wire::pick_int(wire::field(j, "seccomp_notify_continued"@), 0, u64::MAX as int),
    );
    let o = wire::put(
        o,
        "seccomp_notify_errors"@,
        wire::pick_int(wire::field(j, "seccomp_notify_errors"@), 0, u64::MAX as int),
    );
    let o = wire::put(
        o,
        "selinux_mounts_labeled"@,
        wire::pick_int(wire::field(j, "selinux_mounts_labeled"@), 0, u64::MAX as int),
    );
    let o = wire::put(
        o,
        "lsm_apply_failures"@,
        wire::pick_int(wire::field(j, "lsm_apply_failures"@), 0, u64::MAX as int),
    );
    o
}

/// The fields of a `SecurityStats`, in their order.
pub open spec fn security_fields() -> Seq<Seq<char>> {
    seq![
        "seccomp_notify_received"@,
        "seccomp_notify_denied"@,
        "seccomp_notify_continued"@,
        "seccomp_notify_errors"@,
        "selinux_mounts_labeled"@,
        "lsm_apply_failures"@,
    ]
}

/// The form in which a `SecurityStats` is sent, where `j` describes one, by the names of its
/// fields or by their order.
pub open spec fn canon_security(j: Js) -> Option<Js> {
    match json::named(j, security_fields(), 6) {
        Some(o) => canon_security_fields(o),
        None => None,
    }
}

/// A field that holds a `SecurityStats`.
pub open spec fn pick_security(v: Option<Js>) -> Option<Js> {
    match v {
        Some(j) => canon_security(j),
        None => None,
    }
}

impl Default for SecurityStats {
    fn default() -> (r: Self)
        ensures
            r.seccomp_notify_received == 0,
            r.seccomp_notify_denied == 0,
            r.seccomp_notify_continued == 0,
            r.seccomp_notify_errors == 0,
            r.selinux_mounts_labeled == 0,
            r.lsm_apply_failures == 0,
    {
        SecurityStats {
            seccomp_notify_received: 0,
            seccomp_notify_denied: 0,
            seccomp_notify_continued: 0,
            seccomp_notify_errors: 0,
            selinux_mounts_labeled: 0,
            lsm_apply_failures: 0,
        }
    }
}

impl SecurityStats {
    /// The value as it is sent.
    pub open spec fn json(self) -> Js {
        json::no_members()
            .with("seccomp_notify_received"@, Js::Int(self.seccomp_notify_received as int))
            .with("seccomp_notify_denied"@, Js::Int(self.seccomp_notify_denied as int))
            .with("seccomp_notify_continued"@, Js::Int(self.seccomp_notify_continued as int))
            .with("seccomp_notify_errors"@, Js::Int(self.seccomp_notify_errors as int))
            .with("selinux_mounts_labeled"@, Js::Int(self.selinux_mounts_labeled as int))
            .with("lsm_apply_failures"@, Js::Int(self.lsm_apply_failures as int))
    }

    /// The value as it is written: its fields in their order.
    pub open spec fn form(self) -> Form {
        json::no_members_form()
            .put(
                "seccomp_notify_received"@,
                json::flat(Js::Int(self.seccomp_notify_received as int)),
            )
            .put("seccomp_notify_denied"@, json::flat(Js::Int(self.seccomp_notify_denied as int)))
            .put(
                "seccomp_notify_continued"@,
                json::flat(Js::Int(self.seccomp_notify_continued as int)),
            )
            .put("seccomp_notify_errors"@, json::flat(Js::Int(self.seccomp_notify_errors as int)))
            .put("selinux_mounts_labeled"@, json::flat(Js::Int(self.selinux_mounts_labeled as int)))
            .put("lsm_apply_failures"@, json::flat(Js::Int(self.lsm_apply_failures as int)))
    }

    /// The value to send.
    pub fn to_json(&self) -> (r: Json)
        ensures
            r.view() == self.json(),
            r.form() == self.form(),
    {
        Json::object()
            .put("seccomp_notify_received", Json::Unsigned(self.seccomp_notify_received))
            .put("seccomp_notify_denied", Json::Unsigned(self.seccomp_notify_denied))
            .put("seccomp_notify_continued", Json::Unsigned(self.seccomp_notify_continued))
            .put("seccomp_notify_errors", Json::Unsigned(self.seccomp_notify_errors))
            .put("selinux_mounts_labeled", Json::Unsigned(self.selinux_mounts_labeled))
            .put("lsm_apply_failures", Json::Unsigned(self.lsm_apply_failures))
    }

    /// Reads a value.
    pub fn from_json(j: &Json) -> (r: Option<SecurityStats>)
        ensures
            match r {
                Some(x) => canon_security(j.view()) == Some(x.json()),
                None => canon_security(j.view()) is None,
            },
    {
        match j {
            Json::Object(_) => read_security_fields(j),
            Json::Array(v) => {
                let names: [&'static str; 6] = [
                    "seccomp_notify_received",
                    "seccomp_notify_denied",
                    "seccomp_notify_continued",
                    "seccomp_notify_errors",
                    "selinux_mounts_labeled",
                    "lsm_apply_failures",
                ];
                proof {
                    assert(text::names_of(names@) =~= security_fields());
                    assert(json::items_view(v@).skip(0) =~= json::items_view(v@));
                }
                let o = json::name_items(v, 0, &names, 6)?;
                read_security_fields(&o)
            },
            _ => None,
        }
    }
}

/// Reads the fields of a `SecurityStats`.
fn read_security_fields(j: &Json) -> (r: Option<SecurityStats>)
    ensures
        match r {
            Some(x) => canon_security_fields(j.view()) == Some(x.json()),
            None => canon_security_fields(j.view()) is None,
        },
{
    let seccomp_notify_received: u64 = read_u64(j, "seccomp_notify_received")?;
    let seccomp_notify_denied: u64 = read_u64(j, "seccomp_notify_denied")?;
    let seccomp_notify_continued: u64 = read_u64(j, "seccomp_notify_continued")?;
    let seccomp_notify_errors: u64 = read_u64(j, "seccomp_notify_errors")?;
    let selinux_mounts_labeled: u64 = read_u64(j, "selinux_mounts_labeled")?;
    let lsm_apply_failures: u64 = read_u64(j, "lsm_apply_failures")?;
    Some(
        SecurityStats {
            seccomp_notify_received,
            seccomp_notify_denied,
            seccomp_notify_continued,
            seccomp_notify_errors,
            selinux_mounts_labeled,
            lsm_apply_failures,
        },
    )
}

/// Reads a field that holds a `SecurityStats`.
fn read_security(j: &Json, key: &str) -> (r: Option<SecurityStats>)
    ensures
        match r {
            Some(x) => pick_security(wire::field(j.view(), key@)) == Some(x.json()),
            None => pick_security(wire::field(j.view(), key@)) is None,
        },
{
    match j.get(key) {
        Some(v) => SecurityStats::from_json(v),
        None => None,
    }
}

/// A `SecurityStats` that is sent is read as the same value.
pub proof fn law_security_round_trip(x: SecurityStats)
    ensures
        canon_security(x.json()) == Some(x.json()),
{
    reveal_strlit("seccomp_notify_received");
    reveal_strlit("seccomp_notify_denied");
    reveal_strlit("seccomp_notify_continued");
    reveal_strlit("seccomp_notify_errors");
    reveal_strlit("selinux_mounts_labeled");
    reveal_strlit("lsm_apply_failures");
    assert("seccomp_notify_received"@.len() == 23);
    assert("seccomp_notify_denied"@.len() == 21);
    assert("seccomp_notify_continued"@.len() == 24);
    assert("seccomp_notify_errors"@.len() == 21);
    assert("selinux_mounts_labeled"@.len() == 22);
    assert("lsm_apply_failures"@.len() == 18);
    assert("seccomp_notify_denied"@[15] != "seccomp_notify_errors"@[15]);
}

/// A request to the agent.
#[derive(Debug)]
pub enum ContainerRequest {
    Ping,
    /// Limits the Pod as a whole.
    ConfigureSandboxResources { resources: ResourceLimits },
    Create {
        id: String,
        config_json: String,
        io: ContainerIo,
        is_sandbox: bool,
        share_process_namespace: bool,
        network_policy: Option<ContainerNetworkPolicy>,
    },
    Start { id: String, exec_id: Option<String> },
    State { id: String, exec_id: Option<String> },
    Exec { id: String, exec_id: String, process_json: String, io: ContainerIo },
    Kill { id: String, exec_id: Option<String>, signal: i32, all: bool },
    Pause { id: String },
    Resume { id: String },
    Wait { id: String, exec_id: Option<String> },
    Pids { id: String },
    Stats { id: String },
    CgroupEvents { id: String },
    SecurityStats,
    UpdateResources { id: String, resources: ResourceLimits },
    ResizePty { id: String, exec_id: Option<String>, width: u32, height: u32 },
    CloseIo { id: String, exec_id: Option<String> },
    Delete { id: String, exec_id: Option<String>, force: bool },
}

/// Which `ContainerRequest` a message is.
#[derive(Debug, Clone, Copy, PartialEq, Eq, Structural)]
pub enum RequestKind {
    Ping,
    ConfigureSandboxResources,
    Create,
    Start,
    State,
    Exec,
    Kill,
    Pause,
    Resume,
    Wait,
    Pids,
    Stats,
    CgroupEvents,
    SecurityStats,
    UpdateResources,
    ResizePty,
    CloseIo,
    Delete,
}

impl RequestKind {
    /// The tag of the message.
    pub open spec fn text(self) -> Seq<char> {
        match self {
            RequestKind::Ping => "ping"@,
            RequestKind::ConfigureSandboxResources => "configure-sandbox-resources"@,
            RequestKind::Create => "create"@,
            RequestKind::Start => "start"@,
            RequestKind::State => "state"@,
            RequestKind::Exec => "exec"@,
            RequestKind::Kill => "kill"@,
            RequestKind::Pause => "pause"@,
            RequestKind::Resume => "resume"@,
            RequestKind::Wait => "wait"@,
            RequestKind::Pids => "pids"@,
            RequestKind::Stats => "stats"@,
            RequestKind::CgroupEvents => "cgroup-events"@,
            RequestKind::SecurityStats => "security-stats"@,
            RequestKind::UpdateResources => "update-resources"@,
            RequestKind::ResizePty => "resize-pty"@,
            RequestKind::CloseIo => "close-io"@,
            RequestKind::Delete => "delete"@,
        }
    }

    /// The `RequestKind` of a name.
    pub fn from_name(s: &str) -> (r: Option<RequestKind>)
        ensures
            r == request_kind_of(s@),
    {
        if same(s, "ping") {
            Some(RequestKind::Ping)
        } else if same(s, "configure-sandbox-resources") {
            Some(RequestKind::ConfigureSandboxResources)
        } else if same(s, "create") {
            Some(RequestKind::Create)
        } else if same(s, "start") {
            Some(RequestKind::Start)
        } else if same(s, "state") {
            Some(RequestKind::State)
        } else if same(s, "exec") {
            Some(RequestKind::Exec)
        } else if same(s, "kill") {
            Some(RequestKind::Kill)
        } else if same(s, "pause") {
            Some(RequestKind::Pause)
        } else if same(s, "resume") {
            Some(RequestKind::Resume)
        } else if same(s, "wait") {
            Some(RequestKind::Wait)
        } else if same(s, "pids") {
            Some(RequestKind::Pids)
        } else if same(s, "stats") {
            Some(RequestKind::Stats)
        } else if same(s, "cgroup-events") {
            Some(RequestKind::CgroupEvents)
        } else if same(s, "security-stats") {
            Some(RequestKind::SecurityStats)
        } else if same(s, "update-resources") {
            Some(RequestKind::UpdateResources)
        } else if same(s, "resize-pty") {
            Some(RequestKind::ResizePty)
        } else if same(s, "close-io") {
            Some(RequestKind::CloseIo)
        } else if same(s, "delete") {
            Some(RequestKind::Delete)
        } else {
            None
        }
    }
}

/// The `RequestKind` of a name.
pub open spec fn request_kind_of(s: Seq<char>) -> Option<RequestKind> {
    if s == "ping"@ {
        Some(RequestKind::Ping)
    } else if s == "configure-sandbox-resources"@ {
        Some(RequestKind::ConfigureSandboxResources)
    } else if s == "create"@ {
        Some(RequestKind::Create)
    } else if s == "start"@ {
        Some(RequestKind::Start)
    } else if s == "state"@ {
        Some(RequestKind::State)
    } else if s == "exec"@ {
        Some(RequestKind::Exec)
    } else if s == "kill"@ {
        Some(RequestKind::Kill)
    } else if s == "pause"@ {
        Some(RequestKind::Pause)
    } else if s == "resume"@ {
        Some(RequestKind::Resume)
    } else if s == "wait"@ {
        Some(RequestKind::Wait)
    } else if s == "pids"@ {
        Some(RequestKind::Pids)
    } else if s == "stats"@ {
        Some(RequestKind::Stats)
    } else if s == "cgroup-events"@ {
        Some(RequestKind::CgroupEvents)
    } else if s == "security-stats"@ {
        Some(RequestKind::SecurityStats)
    } else if s == "update-resources"@ {
        Some(RequestKind::UpdateResources)
    } else if s == "resize-pty"@ {
        Some(RequestKind::ResizePty)
    } else if s == "close-io"@ {
        Some(RequestKind::CloseIo)
    } else if s == "delete"@ {
        Some(RequestKind::Delete)
    } else {
        None
    }
}

/// The name of a `RequestKind` names it.
pub proof fn lemma_request_kind_names(x: RequestKind)
    ensures
        request_kind_of(x.text()) == Some(x),
{
    reveal_strlit("ping");
    reveal_strlit("configure-sandbox-resources");
    reveal_strlit("create");
    reveal_strlit("start");
    reveal_strlit("state");
    reveal_strlit("exec");
    reveal_strlit("kill");
    reveal_strlit("pause");
    reveal_strlit("resume");
    reveal_strlit("wait");
    reveal_strlit("pids");
    reveal_strlit("stats");
    reveal_strlit("cgroup-events");
    reveal_strlit("security-stats");
    reveal_strlit("update-resources");
    reveal_strlit("resize-pty");
    reveal_strlit("close-io");
    reveal_strlit("delete");
    assert("ping"@.len() == 4);
    assert("configure-sandbox-resources"@.len() == 27);
    assert("create"@.len() == 6);
    assert("start"@.len() == 5);
    assert("state"@.len() == 5);
    assert("exec"@.len() == 4);
    assert("kill"@.len() == 4);
    assert("pause"@.len() == 5);
    assert("resume"@.len() == 6);
    assert("wait"@.len() == 4);
    assert("pids"@.len() == 4);
    assert("stats"@.len() == 5);
    assert("cgroup-events"@.len() == 13);
    assert("security-stats"@.len() == 14);
    assert("update-resources"@.len() == 16);
    assert("resize-pty"@.len() == 10);
    assert("close-io"@.len() == 8);
    assert("delete"@.len() == 6);
    assert("ping"@[0] != "exec"@[0]);
    assert("ping"@[0] != "kill"@[0]);
    assert("ping"@[0] != "wait"@[0]);
    assert("ping"@[2] != "pids"@[2]);
    assert("create"@[0] != "resume"@[0]);
    assert("create"@[0] != "delete"@[0]);
    assert("start"@[3] != "state"@[3]);
    assert("start"@[0] != "pause"@[0]);
    assert("start"@[3] != "stats"@[3]);
    assert("state"@[0] != "pause"@[0]);
    assert("state"@[4] != "stats"@[4]);
    assert("exec"@[0] != "kill"@[0]);
    assert("exec"@[0] != "wait"@[0]);
    assert("exec"@[0] != "pids"@[0]);
    assert("kill"@[0] != "wait"@[0]);
    assert("kill"@[0] != "pids"@[0]);
    assert("pause"@[0] != "stats"@[0]);
    assert("resume"@[0] != "delete"@[0]);
    assert("wait"@[0] != "pids"@[0]);
}

/// The form in which `ContainerRequest::ConfigureSandboxResources` is sent.
pub open spec fn canon_request_configure_sandbox_resources(j: Js) -> Option<Js> {
    let o = Some(json::no_members());
    let o = wire::put(o, "op"@, Some(Js::Str("configure-sandbox-resources"@)));
    let o = wire::put(o, "resources"@, pick_limits(wire::field(j, "resources"@)));
    o
}

/// The form in which `ContainerRequest::Create` is sent.
pub open spec fn canon_request_create(j: Js) -> Option<Js> {
    let o = Some(json::no_members());
    let o = wire::put(o, "op"@, Some(Js::Str("create"@)));
    let o = wire::put(o, "id"@, wire::pick_str(wire::field(j, "id"@)));
    let o = wire::put(o, "config_json"@, wire::pick_str(wire::field(j, "config_json"@)));
    let o = wire::put(o, "io"@, pick_io(wire::field(j, "io"@)));
    let o = wire::put(o, "is_sandbox"@, wire::pick_flag(wire::field(j, "is_sandbox"@)));
    let o = wire::put(
        o,
        "share_process_namespace"@,
        wire::pick_flag(wire::field(j, "share_process_namespace"@)),
    );
    let o = wire::put(o, "network_policy"@, pick_opt_policy(wire::field(j, "network_policy"@)));
    o
}

/// The form in which `ContainerRequest::Start` is sent.
pub open spec fn canon_request_start(j: Js) -> Option<Js> {
    let o = Some(json::no_members());
    let o = wire::put(o, "op"@, Some(Js::Str("start"@)));
    let o = wire::put(o, "id"@, wire::pick_str(wire::field(j, "id"@)));
    let o = wire::put(o, "exec_id"@, wire::pick_opt_str(wire::field(j, "exec_id"@)));
    o
}

/// The form in which `ContainerRequest::State` is sent.
pub open spec fn canon_request_state(j: Js) -> Option<Js> {
    let o = Some(json::no_members());
    let o = wire::put(o, "op"@, Some(Js::Str("state"@)));
    let o = wire::put(o, "id"@, wire::pick_str(wire::field(j, "id"@)));
    let o = wire::put(o, "exec_id"@, wire::pick_opt_str(wire::field(j, "exec_id"@)));
    o
}

/// The form in which `ContainerRequest::Exec` is sent.
pub open spec fn canon_request_exec(j: Js) -> Option<Js> {
    let o = Some(json::no_members());
    let o = wire::put(o, "op"@, Some(Js::Str("exec"@)));
    let o = wire::put(o, "id"@, wire::pick_str(wire::field(j, "id"@)));
    let o = wire::put(o, "exec_id"@, wire::pick_str(wire::field(j, "exec_id"@)));
    let o = wire::put(o, "process_json"@, wire::pick_str(wire::field(j, "process_json"@)));
    let o = wire::put(o, "io"@, pick_io(wire::field(j, "io"@)));
    o
}

/// The form in which `ContainerRequest::Kill` is sent.
pub open spec fn canon_request_kill(j: Js) -> Option<Js> {
    let o = Some(json::no_members());
    let o = wire::put(o, "op"@, Some(Js::Str("kill"@)));
    let o = wire::put(o, "id"@, wire::pick_str(wire::field(j, "id"@)));
    let o = wire::put(o, "exec_id"@, wire::pick_opt_str(wire::field(j, "exec_id"@)));
    let o = wire::put(
        o,
        "signal"@,
        wire::pick_int(wire::field(j, "signal"@), i32::MIN as int, i32::MAX as int),
    );
    let o = wire::put(o, "all"@, wire::pick_flag(wire::field(j, "all"@)));
    o
}

/// The form in which `ContainerRequest::Pause` is sent.
pub open spec fn canon_request_pause(j: Js) -> Option<Js> {
    let o = Some(json::no_members());
    let o = wire::put(o, "op"@, Some(Js::Str("pause"@)));
    let o = wire::put(o, "id"@, wire::pick_str(wire::field(j, "id"@)));
    o
}

/// The form in which `ContainerRequest::Resume` is sent.
pub open spec fn canon_request_resume(j: Js) -> Option<Js> {
    let o = Some(json::no_members());
    let o = wire::put(o, "op"@, Some(Js::Str("resume"@)));
    let o = wire::put(o, "id"@, wire::pick_str(wire::field(j, "id"@)));
    o
}

/// The form in which `ContainerRequest::Wait` is sent.
pub open spec fn canon_request_wait(j: Js) -> Option<Js> {
    let o = Some(json::no_members());
    let o = wire::put(o, "op"@, Some(Js::Str("wait"@)));
    let o = wire::put(o, "id"@, wire::pick_str(wire::field(j, "id"@)));
    let o = wire::put(o, "exec_id"@, wire::pick_opt_str(wire::field(j, "exec_id"@)));
    o
}

/// The form in which `ContainerRequest::Pids` is sent.
pub open spec fn canon_request_pids(j: Js) -> Option<Js> {
    let o = Some(json::no_members());
    let o = wire::put(o, "op"@, Some(Js::Str("pids"@)));
    let o = wire::put(o, "id"@, wire::pick_str(wire::field(j, "id"@)));
    o
}

/// The form in which `ContainerRequest::Stats` is sent.
pub open spec fn canon_request_stats(j: Js) -> Option<Js> {
    let o = Some(json::no_members());
    let o = wire::put(o, "op"@, Some(Js::Str("stats"@)));
    let o = wire::put(o, "id"@, wire::pick_str(wire::field(j, "id"@)));
    o
}

/// The form in which `ContainerRequest::CgroupEvents` is sent.
pub open spec fn canon_request_cgroup_events(j: Js) -> Option<Js> {
    let o = Some(json::no_members());
    let o = wire::put(o, "op"@, Some(Js::Str("cgroup-events"@)));
    let o = wire::put(o, "id"@, wire::pick_str(wire::field(j, "id"@)));
    o
}

/// The form in which `ContainerRequest::UpdateResources` is sent.
pub open spec fn canon_request_update_resources(j: Js) -> Option<Js> {
    let o = Some(json::no_members());
    let o = wire::put(o, "op"@, Some(Js::Str("update-resources"@)));
    let o = wire::put(o, "id"@, wire::pick_str(wire::field(j, "id"@)));
    let o = wire::put(o, "resources"@, pick_limits(wire::field(j, "resources"@)));
    o
}

/// The form in which `ContainerRequest::ResizePty` is sent.
pub open spec fn canon_request_resize_pty(j: Js) -> Option<Js> {
    let o = Some(json::no_members());
    let o = wire::put(o, "op"@, Some(Js::Str("resize-pty"@)));
    let o = wire::put(o, "id"@, wire::pick_str(wire::field(j, "id"@)));
    let o = wire::put(o, "exec_id"@, wire::pick_opt_str(wire::field(j, "exec_id"@)));
    let o = wire::put(o, "width"@, wire::pick_int(wire::field(j, "width"@), 0, u32::MAX as int));
    let o = wire::put(o, "height"@, wire::pick_int(wire::field(j, "height"@), 0, u32::MAX as int));
    o
}

/// The form in which `ContainerRequest::CloseIo` is sent.
pub open spec fn canon_request_close_io(j: Js) -> Option<Js> {
    let o = Some(json::no_members());
    let o = wire::put(o, "op"@, Some(Js::Str("close-io"@)));
    let o = wire::put(o, "id"@, wire::pick_str(wire::field(j, "id"@)));
    let o = wire::put(o, "exec_id"@, wire::pick_opt_str(wire::field(j, "exec_id"@)));
    o
}

/// The form in which `ContainerRequest::Delete` is sent.
pub open spec fn canon_request_delete(j: Js) -> Option<Js> {
    let o = Some(json::no_members());
    let o = wire::put(o, "op"@, Some(Js::Str("delete"@)));
    let o = wire::put(o, "id"@, wire::pick_str(wire::field(j, "id"@)));
    let o = wire::put(o, "exec_id"@, wire::pick_opt_str(wire::field(j, "exec_id"@)));
    let o = wire::put(o, "force"@, wire::pick_flag(wire::field(j, "force"@)));
    o
}

/// The form in which a `ContainerRequest` is sent, where `j` describes one.
pub open spec fn canon_request(j: Js) -> Option<Js> {
    match j.str_at("op"@) {
        None => None,
        Some(t) => match request_kind_of(t) {
            None => None,
            Some(RequestKind::Ping) => Some(json::no_members().with("op"@, Js::Str("ping"@))),
            Some(
                RequestKind::ConfigureSandboxResources,
            ) => canon_request_configure_sandbox_resources(j),
            Some(RequestKind::Create) => canon_request_create(j),
            Some(RequestKind::Start) => canon_request_start(j),
            Some(RequestKind::State) => canon_request_state(j),
            Some(RequestKind::Exec) => canon_request_exec(j),
            Some(RequestKind::Kill) => canon_request_kill(j),
            Some(RequestKind::Pause) => canon_request_pause(j),
            Some(RequestKind::Resume) => canon_request_resume(j),
            Some(RequestKind::Wait) => canon_request_wait(j),
            Some(RequestKind::Pids) => canon_request_pids(j),
            Some(RequestKind::Stats) => canon_request_stats(j),
            Some(RequestKind::CgroupEvents) => canon_request_cgroup_events(j),
            Some(RequestKind::SecurityStats) => Some(
                json::no_members().with("op"@, Js::Str("security-stats"@)),
            ),
            Some(RequestKind::UpdateResources) => canon_request_update_resources(j),
            Some(RequestKind::ResizePty) => canon_request_resize_pty(j),
            Some(RequestKind::CloseIo) => canon_request_close_io(j),
            Some(RequestKind::Delete) => canon_request_delete(j),
        },
    }
}

impl ContainerRequest {
    /// The message as it is sent.
    pub open spec fn json(self) -> Js {
        match self {
            ContainerRequest::Ping => json::no_members().with("op"@, Js::Str("ping"@)),
            ContainerRequest::ConfigureSandboxResources { resources } => json::no_members()
                .with("op"@, Js::Str("configure-sandbox-resources"@))
                .with("resources"@, resources.json()),
            ContainerRequest::Create {
                id,
                config_json,
                io,
                is_sandbox,
                share_process_namespace,
                network_policy,
            } => json::no_members()
                .with("op"@, Js::Str("create"@))
                .with("id"@, Js::Str(id@))
                .with("config_json"@, Js::Str(config_json@))
                .with("io"@, io.json())
                .with("is_sandbox"@, Js::Bool(is_sandbox))
                .with("share_process_namespace"@, Js::Bool(share_process_namespace))
                .with("network_policy"@, opt_policy_json(network_policy)),
            ContainerRequest::Start { id, exec_id } => json::no_members()
                .with("op"@, Js::Str("start"@))
                .with("id"@, Js::Str(id@))
                .with("exec_id"@, wire::opt_str_js(exec_id)),
            ContainerRequest::State { id, exec_id } => json::no_members()
                .with("op"@, Js::Str("state"@))
                .with("id"@, Js::Str(id@))
                .with("exec_id"@, wire::opt_str_js(exec_id)),
            ContainerRequest::Exec { id, exec_id, process_json, io } => json::no_members()
                .with("op"@, Js::Str("exec"@))
                .with("id"@, Js::Str(id@))
                .with("exec_id"@, Js::Str(exec_id@))
                .with("process_json"@, Js::Str(process_json@))
                .with("io"@, io.json()),
            ContainerRequest::Kill { id, exec_id, signal, all } => json::no_members()
                .with("op"@, Js::Str("kill"@))
                .with("id"@, Js::Str(id@))
                .with("exec_id"@, wire::opt_str_js(exec_id))
                .with("signal"@, Js::Int(signal as int))
                .with("all"@, Js::Bool(all)),
            ContainerRequest::Pause { id } => json::no_members()
                .with("op"@, Js::Str("pause"@))
                .with("id"@, Js::Str(id@)),
            ContainerRequest::Resume { id } => json::no_members()
                .with("op"@, Js::Str("resume"@))
                .with("id"@, Js::Str(id@)),
            ContainerRequest::Wait { id, exec_id } => json::no_members()
                .with("op"@, Js::Str("wait"@))
                .with("id"@, Js::Str(id@))
                .with("exec_id"@, wire::opt_str_js(exec_id)),
            ContainerRequest::Pids { id } => json::no_members()
                .with("op"@, Js::Str("pids"@))
                .with("id"@, Js::Str(id@)),
            ContainerRequest::Stats { id } => json::no_members()
                .with("op"@, Js::Str("stats"@))
                .with("id"@, Js::Str(id@)),
            ContainerRequest::CgroupEvents { id } => json::no_members()
                .with("op"@, Js::Str("cgroup-events"@))
                .with("id"@, Js::Str(id@)),
            ContainerRequest::SecurityStats => json::no_members().with(
                "op"@,
                Js::Str("security-stats"@),
            ),
            ContainerRequest::UpdateResources { id, resources } => json::no_members()
                .with("op"@, Js::Str("update-resources"@))
                .with("id"@, Js::Str(id@))
                .with("resources"@, resources.json()),
            ContainerRequest::ResizePty { id, exec_id, width, height } => json::no_members()
                .with("op"@, Js::Str("resize-pty"@))
                .with("id"@, Js::Str(id@))
                .with("exec_id"@, wire::opt_str_js(exec_id))
                .with("width"@, Js::Int(width as int))
                .with("height"@, Js::Int(height as int)),
            ContainerRequest::CloseIo { id, exec_id } => json::no_members()
                .with("op"@, Js::Str("close-io"@))
                .with("id"@, Js::Str(id@))
                .with("exec_id"@, wire::opt_str_js(exec_id)),
            ContainerRequest::Delete { id, exec_id, force } => json::no_members()
                .with("op"@, Js::Str("delete"@))
                .with("id"@, Js::Str(id@))
                .with("exec_id"@, wire::opt_str_js(exec_id))
                .with("force"@, Js::Bool(force)),
        }
    }

    /// The message as it is written: its tag, then its fields in their order.
    pub open spec fn form(self) -> Form {
        match self {
            ContainerRequest::Ping => json::no_members_form().put("op"@, Form::Str("ping"@)),
            ContainerRequest::ConfigureSandboxResources { resources } => json::no_members_form()
                .put("op"@, Form::Str("configure-sandbox-resources"@))
                .put("resources"@, resources.form()),
            ContainerRequest::Create {
                id,
                config_json,
                io,
                is_sandbox,
                share_process_namespace,
                network_policy,
            } => json::no_members_form()
                .put("op"@, Form::Str("create"@))
                .put("id"@, json::flat(Js::Str(id@)))
                .put("config_json"@, json::flat(Js::Str(config_json@)))
                .put("io"@, io.form())
                .put("is_sandbox"@, json::flat(Js::Bool(is_sandbox)))
                .put("share_process_namespace"@, json::flat(Js::Bool(share_process_namespace)))
                .put("network_policy"@, opt_policy_form(network_policy)),
            ContainerRequest::Start { id, exec_id } => json::no_members_form()
                .put("op"@, Form::Str("start"@))
                .put("id"@, json::flat(Js::Str(id@)))
                .put("exec_id"@, json::flat(wire::opt_str_js(exec_id))),
            ContainerRequest::State { id, exec_id } => json::no_members_form()
                .put("op"@, Form::Str("state"@))
                .put("id"@, json::flat(Js::Str(id@)))
                .put("exec_id"@, json::flat(wire::opt_str_js(exec_id))),
            ContainerRequest::Exec { id, exec_id, process_json, io } => json::no_members_form()
                .put("op"@, Form::Str("exec"@))
                .put("id"@, json::flat(Js::Str(id@)))
                .put("exec_id"@, json::flat(Js::Str(exec_id@)))
                .put("process_json"@, json::flat(Js::Str(process_json@)))
                .put("io"@, io.form()),
            ContainerRequest::Kill { id, exec_id, signal, all } => json::no_members_form()
                .put("op"@, Form::Str("kill"@))
                .put("id"@, json::flat(Js::Str(id@)))
                .put("exec_id"@, json::flat(wire::opt_str_js(exec_id)))
                .put("signal"@, json::flat(Js::Int(signal as int)))
                .put("all"@, json::flat(Js::Bool(all))),
            ContainerRequest::Pause { id } => json::no_members_form()
                .put("op"@, Form::Str("pause"@))
                .put("id"@, json::flat(Js::Str(id@))),
            ContainerRequest::Resume { id } => json::no_members_form()
                .put("op"@, Form::Str("resume"@))
                .put("id"@, json::flat(Js::Str(id@))),
            ContainerRequest::Wait { id, exec_id } => json::no_members_form()
                .put("op"@, Form::Str("wait"@))
                .put("id"@, json::flat(Js::Str(id@)))
                .put("exec_id"@, json::flat(wire::opt_str_js(exec_id))),
            ContainerRequest::Pids { id } => json::no_members_form()
                .put("op"@, Form::Str("pids"@))
                .put("id"@, json::flat(Js::Str(id@))),
            ContainerRequest::Stats { id } => json::no_members_form()
                .put("op"@, Form::Str("stats"@))
                .put("id"@, json::flat(Js::Str(id@))),
            ContainerRequest::CgroupEvents { id } => json::no_members_form()
                .put("op"@, Form::Str("cgroup-events"@))
                .put("id"@, json::flat(Js::Str(id@))),
            ContainerRequest::SecurityStats => json::no_members_form().put(
                "op"@,
                Form::Str("security-stats"@),
            ),
            ContainerRequest::UpdateResources { id, resources } => json::no_members_form()
                .put("op"@, Form::Str("update-resources"@))
                .put("id"@, json::flat(Js::Str(id@)))
                .put("resources"@, resources.form()),
            ContainerRequest::ResizePty { id, exec_id, width, height } => json::no_members_form()
                .put("op"@, Form::Str("resize-pty"@))
                .put("id"@, json::flat(Js::Str(id@)))
                .put("exec_id"@, json::flat(wire::opt_str_js(exec_id)))
                .put("width"@, json::flat(Js::Int(width as int)))
                .put("height"@, json::flat(Js::Int(height as int))),
            ContainerRequest::CloseIo { id, exec_id } => json::no_members_form()
                .put("op"@, Form::Str("close-io"@))
                .put("id"@, json::flat(Js::Str(id@)))
                .put("exec_id"@, json::flat(wire::opt_str_js(exec_id))),
            ContainerRequest::Delete { id, exec_id, force } => json::no_members_form()
                .put("op"@, Form::Str("delete"@))
                .put("id"@, json::flat(Js::Str(id@)))
                .put("exec_id"@, json::flat(wire::opt_str_js(exec_id)))
                .put("force"@, json::flat(Js::Bool(force))),
        }
    }

    /// The message to send.
    pub fn to_json(&self) -> (r: Json)
        ensures
            r.view() == self.json(),
            r.form() == self.form(),
    {
        let o = Json::object();
        match self {
            ContainerRequest::Ping => o.put("op", Json::text("ping")),
            ContainerRequest::ConfigureSandboxResources { resources } => o.put(
                "op",
                Json::text("configure-sandbox-resources"),
            )
                .put("resources", resources.to_json()),
            ContainerRequest::Create {
                id,
                config_json,
                io,
                is_sandbox,
                share_process_namespace,
                network_policy,
            } => o.put("op", Json::text("create"))
                .put("id", Json::text(id.as_str()))
                .put("config_json", Json::text(config_json.as_str()))
                .put("io", io.to_json())
                .put("is_sandbox", Json::Bool(*is_sandbox))
                .put("share_process_namespace", Json::Bool(*share_process_namespace))
                .put("network_policy", send_opt_policy(network_policy)),
            ContainerRequest::Start { id, exec_id } => o.put("op", Json::text("start"))
                .put("id", Json::text(id.as_str()))
                .put("exec_id", send_opt_str(exec_id)),
            ContainerRequest::State { id, exec_id } => o.put("op", Json::text("state"))
                .put("id", Json::text(id.as_str()))
                .put("exec_id", send_opt_str(exec_id)),
            ContainerRequest::Exec {
                id,
                exec_id,
                process_json,
                io,
            } => o.put("op", Json::text("exec"))
                .put("id", Json::text(id.as_str()))
                .put("exec_id", Json::text(exec_id.as_str()))
                .put("process_json", Json::text(process_json.as_str()))
                .put("io", io.to_json()),
            ContainerRequest::Kill { id, exec_id, signal, all } => o.put("op", Json::text("kill"))
                .put("id", Json::text(id.as_str()))
                .put("exec_id", send_opt_str(exec_id))
                .put("signal", Json::Signed(*signal as i64))
                .put("all", Json::Bool(*all)),
            ContainerRequest::Pause { id } => o.put("op", Json::text("pause"))
                .put("id", Json::text(id.as_str())),
            ContainerRequest::Resume { id } => o.put("op", Json::text("resume"))
                .put("id", Json::text(id.as_str())),
            ContainerRequest::Wait { id, exec_id } => o.put("op", Json::text("wait"))
                .put("id", Json::text(id.as_str()))
                .put("exec_id", send_opt_str(exec_id)),
            ContainerRequest::Pids { id } => o.put("op", Json::text("pids"))
                .put("id", Json::text(id.as_str())),
            ContainerRequest::Stats { id } => o.put("op", Json::text("stats"))
                .put("id", Json::text(id.as_str())),
            ContainerRequest::CgroupEvents { id } => o.put("op", Json::text("cgroup-events"))
                .put("id", Json::text(id.as_str())),
            ContainerRequest::SecurityStats => o.put("op", Json::text("security-stats")),
            ContainerRequest::UpdateResources { id, resources } => o.put(
                "op",
                Json::text("update-resources"),
            )
                .put("id", Json::text(id.as_str()))
                .put("resources", resources.to_json()),
            ContainerRequest::ResizePty { id, exec_id, width, height } => o.put(
                "op",
                Json::text("resize-pty"),
            )
                .put("id", Json::text(id.as_str()))
                .put("exec_id", send_opt_str(exec_id))
                .put("width", Json::Unsigned(*width as u64))
                .put("height", Json::Unsigned(*height as u64)),
            ContainerRequest::CloseIo { id, exec_id } => o.put("op", Json::text("close-io"))
                .put("id", Json::text(id.as_str()))
                .put("exec_id", send_opt_str(exec_id)),
            ContainerRequest::Delete { id, exec_id, force } => o.put("op", Json::text("delete"))
                .put("id", Json::text(id.as_str()))
                .put("exec_id", send_opt_str(exec_id))
                .put("force", Json::Bool(*force)),
        }
    }

    /// Reads a message.
    pub fn from_json(j: &Json) -> (r: Option<ContainerRequest>)
        ensures
            match r {
                Some(x) => canon_request(j.view()) == Some(x.json()),
                None => canon_request(j.view()) is None,
            },
    {
        let tag = j.str_at("op")?;
        match RequestKind::from_name(tag)? {
            RequestKind::Ping => Some(ContainerRequest::Ping),
            RequestKind::ConfigureSandboxResources => read_request_configure_sandbox_resources(j),
            RequestKind::Create => read_request_create(j),
            RequestKind::Start => read_request_start(j),
            RequestKind::State => read_request_state(j),
            RequestKind::Exec => read_request_exec(j),
            RequestKind::Kill => read_request_kill(j),
            RequestKind::Pause => read_request_pause(j),
            RequestKind::Resume => read_request_resume(j),
            RequestKind::Wait => read_request_wait(j),
            RequestKind::Pids => read_request_pids(j),
            RequestKind::Stats => read_request_stats(j),
            RequestKind::CgroupEvents => read_request_cgroup_events(j),
            RequestKind::SecurityStats => Some(ContainerRequest::SecurityStats),
            RequestKind::UpdateResources => read_request_update_resources(j),
            RequestKind::ResizePty => read_request_resize_pty(j),
            RequestKind::CloseIo => read_request_close_io(j),
            RequestKind::Delete => read_request_delete(j),
        }
    }
}

/// Reads the fields of `ContainerRequest::ConfigureSandboxResources`.
fn read_request_configure_sandbox_resources(j: &Json) -> (r: Option<ContainerRequest>)
    ensures
        match r {
            Some(x) => canon_request_configure_sandbox_resources(j.view()) == Some(x.json()),
            None => canon_request_configure_sandbox_resources(j.view()) is None,
        },
{
    let resources = read_limits(j, "resources")?;
    Some(ContainerRequest::ConfigureSandboxResources { resources })
}

/// Reads the fields of `ContainerRequest::Create`.
fn read_request_create(j: &Json) -> (r: Option<ContainerRequest>)
    ensures
        match r {
            Some(x) => canon_request_create(j.view()) == Some(x.json()),
            None => canon_request_create(j.view()) is None,
        },
{
    let id = read_str(j, "id")?;
    let config_json = read_str(j, "config_json")?;
    let io = read_io(j, "io")?;
    let is_sandbox = read_flag(j, "is_sandbox")?;
    let share_process_namespace = read_flag(j, "share_process_namespace")?;
    let network_policy = read_opt_policy(j, "network_policy")?;
    Some(
        ContainerRequest::Create {
            id,
            config_json,
            io,
            is_sandbox,
            share_process_namespace,
            network_policy,
        },
    )
}

/// Reads the fields of `ContainerRequest::Start`.
fn read_request_start(j: &Json) -> (r: Option<ContainerRequest>)
    ensures
        match r {
            Some(x) => canon_request_start(j.view()) == Some(x.json()),
            None => canon_request_start(j.view()) is None,
        },
{
    let id = read_str(j, "id")?;
    let exec_id = read_opt_str(j, "exec_id")?;
    Some(ContainerRequest::Start { id, exec_id })
}

/// Reads the fields of `ContainerRequest::State`.
fn read_request_state(j: &Json) -> (r: Option<ContainerRequest>)
    ensures
        match r {
            Some(x) => canon_request_state(j.view()) == Some(x.json()),
            None => canon_request_state(j.view()) is None,
        },
{
    let id = read_str(j, "id")?;
    let exec_id = read_opt_str(j, "exec_id")?;
    Some(ContainerRequest::State { id, exec_id })
}

/// Reads the fields of `ContainerRequest::Exec`.
fn read_request_exec(j: &Json) -> (r: Option<ContainerRequest>)
    ensures
        match r {
            Some(x) => canon_request_exec(j.view()) == Some(x.json()),
            None => canon_request_exec(j.view()) is None,
        },
{
    let id = read_str(j, "id")?;
    let exec_id = read_str(j, "exec_id")?;
    let process_json = read_str(j, "process_json")?;
    let io = read_io(j, "io")?;
    Some(ContainerRequest::Exec { id, exec_id, process_json, io })
}

/// Reads the fields of `ContainerRequest::Kill`.
fn read_request_kill(j: &Json) -> (r: Option<ContainerRequest>)
    ensures
        match r {
            Some(x) => canon_request_kill(j.view()) == Some(x.json()),
            None => canon_request_kill(j.view()) is None,
        },
{
    let id = read_str(j, "id")?;
    let exec_id = read_opt_str(j, "exec_id")?;
    let signal: i32 = read_i32(j, "signal")?;
    let all = read_flag(j, "all")?;
    Some(ContainerRequest::Kill { id, exec_id, signal, all })
}

/// Reads the fields of `ContainerRequest::Pause`.
fn read_request_pause(j: &Json) -> (r: Option<ContainerRequest>)
    ensures
        match r {
            Some(x) => canon_request_pause(j.view()) == Some(x.json()),
            None => canon_request_pause(j.view()) is None,
        },
{
    let id = read_str(j, "id")?;
    Some(ContainerRequest::Pause { id })
}

/// Reads the fields of `ContainerRequest::Resume`.
fn read_request_resume(j: &Json) -> (r: Option<ContainerRequest>)
    ensures
        match r {
            Some(x) => canon_request_resume(j.view()) == Some(x.json()),
            None => canon_request_resume(j.view()) is None,
        },
{
    let id = read_str(j, "id")?;
    Some(ContainerRequest::Resume { id })
}

/// Reads the fields of `ContainerRequest::Wait`.
fn read_request_wait(j: &Json) -> (r: Option<ContainerRequest>)
    ensures
        match r {
            Some(x) => canon_request_wait(j.view()) == Some(x.json()),
            None => canon_request_wait(j.view()) is None,
        },
{
    let id = read_str(j, "id")?;
    let exec_id = read_opt_str(j, "exec_id")?;
    Some(ContainerRequest::Wait { id, exec_id })
}

/// Reads the fields of `ContainerRequest::Pids`.
fn read_request_pids(j: &Json) -> (r: Option<ContainerRequest>)
    ensures
        match r {
            Some(x) => canon_request_pids(j.view()) == Some(x.json()),
            None => canon_request_pids(j.view()) is None,
        },
{
    let id = read_str(j, "id")?;
    Some(ContainerRequest::Pids { id })
}

/// Reads the fields of `ContainerRequest::Stats`.
fn read_request_stats(j: &Json) -> (r: Option<ContainerRequest>)
    ensures
        match r {
            Some(x) => canon_request_stats(j.view()) == Some(x.json()),
            None => canon_request_stats(j.view()) is None,
        },
{
    let id = read_str(j, "id")?;
    Some(ContainerRequest::Stats { id })
}

/// Reads the fields of `ContainerRequest::CgroupEvents`.
fn read_request_cgroup_events(j: &Json) -> (r: Option<ContainerRequest>)
    ensures
        match r {
            Some(x) => canon_request_cgroup_events(j.view()) == Some(x.json()),
            None => canon_request_cgroup_events(j.view()) is None,
        },
{
    let id = read_str(j, "id")?;
    Some(ContainerRequest::CgroupEvents { id })
}

/// Reads the fields of `ContainerRequest::UpdateResources`.
fn read_request_update_resources(j: &Json) -> (r: Option<ContainerRequest>)
    ensures
        match r {
            Some(x) => canon_request_update_resources(j.view()) == Some(x.json()),
            None => canon_request_update_resources(j.view()) is None,
        },
{
    let id = read_str(j, "id")?;
    let resources = read_limits(j, "resources")?;
    Some(ContainerRequest::UpdateResources { id, resources })
}

/// Reads the fields of `ContainerRequest::ResizePty`.
fn read_request_resize_pty(j: &Json) -> (r: Option<ContainerRequest>)
    ensures
        match r {
            Some(x) => canon_request_resize_pty(j.view()) == Some(x.json()),
            None => canon_request_resize_pty(j.view()) is None,
        },
{
    let id = read_str(j, "id")?;
    let exec_id = read_opt_str(j, "exec_id")?;
    let width: u32 = read_u32(j, "width")?;
    let height: u32 = read_u32(j, "height")?;
    Some(ContainerRequest::ResizePty { id, exec_id, width, height })
}

/// Reads the fields of `ContainerRequest::CloseIo`.
fn read_request_close_io(j: &Json) -> (r: Option<ContainerRequest>)
    ensures
        match r {
            Some(x) => canon_request_close_io(j.view()) == Some(x.json()),
            None => canon_request_close_io(j.view()) is None,
        },
{
    let id = read_str(j, "id")?;
    let exec_id = read_opt_str(j, "exec_id")?;
    Some(ContainerRequest::CloseIo { id, exec_id })
}

/// Reads the fields of `ContainerRequest::Delete`.
fn read_request_delete(j: &Json) -> (r: Option<ContainerRequest>)
    ensures
        match r {
            Some(x) => canon_request_delete(j.view()) == Some(x.json()),
            None => canon_request_delete(j.view()) is None,
        },
{
    let id = read_str(j, "id")?;
    let exec_id = read_opt_str(j, "exec_id")?;
    let force = read_flag(j, "force")?;
    Some(ContainerRequest::Delete { id, exec_id, force })
}

/// `ContainerRequest::Ping` is read as it is sent.
proof fn lemma_request_ping(x: ContainerRequest)
    requires
        x is Ping,
    ensures
        canon_request(x.json()) == Some(x.json()),
{
    lemma_request_kind_names(RequestKind::Ping);
    assert(x.json().str_at("op"@) == Some("ping"@));
}

/// `ContainerRequest::ConfigureSandboxResources` is read as it is sent.
proof fn lemma_request_configure_sandbox_resources(x: ContainerRequest)
    requires
        x is ConfigureSandboxResources,
    ensures
        canon_request(x.json()) == Some(x.json()),
{
    lemma_request_kind_names(RequestKind::ConfigureSandboxResources);
    reveal_strlit("op");
    reveal_strlit("resources");
    assert("op"@.len() == 2);
    assert("resources"@.len() == 9);
    if let ContainerRequest::ConfigureSandboxResources { resources } = x {
        law_limits_round_trip(resources);
    }
    assert(x.json().str_at("op"@) == Some("configure-sandbox-resources"@));
}

/// `ContainerRequest::Create` is read as it is sent.
proof fn lemma_request_create(x: ContainerRequest)
    requires
        x is Create,
    ensures
        canon_request(x.json()) == Some(x.json()),
{
    lemma_request_kind_names(RequestKind::Create);
    reveal_strlit("op");
    reveal_strlit("id");
    reveal_strlit("config_json");
    reveal_strlit("io");
    reveal_strlit("is_sandbox");
    reveal_strlit("share_process_namespace");
    reveal_strlit("network_policy");
    assert("op"@.len() == 2);
    assert("id"@.len() == 2);
    assert("config_json"@.len() == 11);
    assert("io"@.len() == 2);
    assert("is_sandbox"@.len() == 10);
    assert("share_process_namespace"@.len() == 23);
    assert("network_policy"@.len() == 14);
    assert("op"@[0] != "id"@[0]);
    assert("op"@[0] != "io"@[0]);
    assert("id"@[1] != "io"@[1]);
    if let ContainerRequest::Create { id, config_json, io, is_sandbox, share_process_namespace, network_policy } = x {
        law_io_round_trip(io);
        if let Some(p) = network_policy {
            law_policy_round_trip(p);
        }
    }
    assert(x.json().str_at("op"@) == Some("create"@));
}

/// `ContainerRequest::Start` is read as it is sent.
proof fn lemma_request_start(x: ContainerRequest)
    requires
        x is Start,
    ensures
        canon_request(x.json()) == Some(x.json()),
{
    lemma_request_kind_names(RequestKind::Start);
    reveal_strlit("op");
    reveal_strlit("id");
    reveal_strlit("exec_id");
    assert("op"@.len() == 2);
    assert("id"@.len() == 2);
    assert("exec_id"@.len() == 7);
    assert("op"@[0] != "id"@[0]);
    if let ContainerRequest::Start { id, exec_id } = x {
        wire::lemma_sent_fields(exec_id, Seq::empty(), Seq::empty());
    }
    assert(x.json().str_at("op"@) == Some("start"@));
}

/// `ContainerRequest::State` is read as it is sent.
proof fn lemma_request_state(x: ContainerRequest)
    requires
        x is State,
    ensures
        canon_request(x.json()) == Some(x.json()),
{
    lemma_request_kind_names(RequestKind::State);
    reveal_strlit("op");
    reveal_strlit("id");
    reveal_strlit("exec_id");
    assert("op"@.len() == 2);
    assert("id"@.len() == 2);
    assert("exec_id"@.len() == 7);
    assert("op"@[0] != "id"@[0]);
    if let ContainerRequest::State { id, exec_id } = x {
        wire::lemma_sent_fields(exec_id, Seq::empty(), Seq::empty());
    }
    assert(x.json().str_at("op"@) == Some("state"@));
}

/// `ContainerRequest::Exec` is read as it is sent.
proof fn lemma_request_exec(x: ContainerRequest)
    requires
        x is Exec,
    ensures
        canon_request(x.json()) == Some(x.json()),
{
    lemma_request_kind_names(RequestKind::Exec);
    reveal_strlit("op");
    reveal_strlit("id");
    reveal_strlit("exec_id");
    reveal_strlit("process_json");
    reveal_strlit("io");
    assert("op"@.len() == 2);
    assert("id"@.len() == 2);
    assert("exec_id"@.len() == 7);
    assert("process_json"@.len() == 12);
    assert("io"@.len() == 2);
    assert("op"@[0] != "id"@[0]);
    assert("op"@[0] != "io"@[0]);
    assert("id"@[1] != "io"@[1]);
    if let ContainerRequest::Exec { id, exec_id, process_json, io } = x {
        law_io_round_trip(io);
    }
    assert(x.json().str_at("op"@) == Some("exec"@));
}

/// `ContainerRequest::Kill` is read as it is sent.
proof fn lemma_request_kill(x: ContainerRequest)
    requires
        x is Kill,
    ensures
        canon_request(x.json()) == Some(x.json()),
{
    lemma_request_kind_names(RequestKind::Kill);
    reveal_strlit("op");
    reveal_strlit("id");
    reveal_strlit("exec_id");
    reveal_strlit("signal");
    reveal_strlit("all");
    assert("op"@.len() == 2);
    assert("id"@.len() == 2);
    assert("exec_id"@.len() == 7);
    assert("signal"@.len() == 6);
    assert("all"@.len() == 3);
    assert("op"@[0] != "id"@[0]);
    if let ContainerRequest::Kill { id, exec_id, signal, all } = x {
        wire::lemma_sent_fields(exec_id, Seq::empty(), Seq::empty());
    }
    assert(x.json().str_at("op"@) == Some("kill"@));
}

/// `ContainerRequest::Pause` is read as it is sent.
proof fn lemma_request_pause(x: ContainerRequest)
    requires
        x is Pause,
    ensures
        canon_request(x.json()) == Some(x.json()),
{
    lemma_request_kind_names(RequestKind::Pause);
    reveal_strlit("op");
    reveal_strlit("id");
    assert("op"@[0] != "id"@[0]);
    assert(x.json().str_at("op"@) == Some("pause"@));
}

/// `ContainerRequest::Resume` is read as it is sent.
proof fn lemma_request_resume(x: ContainerRequest)
    requires
        x is Resume,
    ensures
        canon_request(x.json()) == Some(x.json()),
{
    lemma_request_kind_names(RequestKind::Resume);
    reveal_strlit("op");
    reveal_strlit("id");
    assert("op"@[0] != "id"@[0]);
    assert(x.json().str_at("op"@) == Some("resume"@));
}

/// `ContainerRequest::Wait` is read as it is sent.
proof fn lemma_request_wait(x: ContainerRequest)
    requires
        x is Wait,
    ensures
        canon_request(x.json()) == Some(x.json()),
{
    lemma_request_kind_names(RequestKind::Wait);
    reveal_strlit("op");
    reveal_strlit("id");
    reveal_strlit("exec_id");
    assert("op"@.len() == 2);
    assert("id"@.len() == 2);
    assert("exec_id"@.len() == 7);
    assert("op"@[0] != "id"@[0]);
    if let ContainerRequest::Wait { id, exec_id } = x {
        wire::lemma_sent_fields(exec_id, Seq::empty(), Seq::empty());
    }
    assert(x.json().str_at("op"@) == Some("wait"@));
}

/// `ContainerRequest::Pids` is read as it is sent.
proof fn lemma_request_pids(x: ContainerRequest)
    requires
        x is Pids,
    ensures
        canon_request(x.json()) == Some(x.json()),
{
    lemma_request_kind_names(RequestKind::Pids);
    reveal_strlit("op");
    reveal_strlit("id");
    assert("op"@[0] != "id"@[0]);
    assert(x.json().str_at("op"@) == Some("pids"@));
}

/// `ContainerRequest::Stats` is read as it is sent.
proof fn lemma_request_stats(x: ContainerRequest)
    requires
        x is Stats,
    ensures
        canon_request(x.json()) == Some(x.json()),
{
    lemma_request_kind_names(RequestKind::Stats);
    reveal_strlit("op");
    reveal_strlit("id");
    assert("op"@[0] != "id"@[0]);
    assert(x.json().str_at("op"@) == Some("stats"@));
}

/// `ContainerRequest::CgroupEvents` is read as it is sent.
proof fn lemma_request_cgroup_events(x: ContainerRequest)
    requires
        x is CgroupEvents,
    ensures
        canon_request(x.json()) == Some(x.json()),
{
    lemma_request_kind_names(RequestKind::CgroupEvents);
    reveal_strlit("op");
    reveal_strlit("id");
    assert("op"@[0] != "id"@[0]);
    assert(x.json().str_at("op"@) == Some("cgroup-events"@));
}

/// `ContainerRequest::SecurityStats` is read as it is sent.
proof fn lemma_request_security_stats(x: ContainerRequest)
    requires
        x is SecurityStats,
    ensures
        canon_request(x.json()) == Some(x.json()),
{
    lemma_request_kind_names(RequestKind::SecurityStats);
    assert(x.json().str_at("op"@) == Some("security-stats"@));
}

/// `ContainerRequest::UpdateResources` is read as it is sent.
proof fn lemma_request_update_resources(x: ContainerRequest)
    requires
        x is UpdateResources,
    ensures
        canon_request(x.json()) == Some(x.json()),
{
    lemma_request_kind_names(RequestKind::UpdateResources);
    reveal_strlit("op");
    reveal_strlit("id");
    reveal_strlit("resources");
    assert("op"@.len() == 2);
    assert("id"@.len() == 2);
    assert("resources"@.len() == 9);
    assert("op"@[0] != "id"@[0]);
    if let ContainerRequest::UpdateResources { id, resources } = x {
        law_limits_round_trip(resources);
    }
    assert(x.json().str_at("op"@) == Some("update-resources"@));
}

/// `ContainerRequest::ResizePty` is read as it is sent.
proof fn lemma_request_resize_pty(x: ContainerRequest)
    requires
        x is ResizePty,
    ensures
        canon_request(x.json()) == Some(x.json()),
{
    lemma_request_kind_names(RequestKind::ResizePty);
    reveal_strlit("op");
    reveal_strlit("id");
    reveal_strlit("exec_id");
    reveal_strlit("width");
    reveal_strlit("height");
    assert("op"@.len() == 2);
    assert("id"@.len() == 2);
    assert("exec_id"@.len() == 7);
    assert("width"@.len() == 5);
    assert("height"@.len() == 6);
    assert("op"@[0] != "id"@[0]);
    if let ContainerRequest::ResizePty { id, exec_id, width, height } = x {
        wire::lemma_sent_fields(exec_id, Seq::empty(), Seq::empty());
    }
    assert(x.json().str_at("op"@) == Some("resize-pty"@));
}

/// `ContainerRequest::CloseIo` is read as it is sent.
proof fn lemma_request_close_io(x: ContainerRequest)
    requires
        x is CloseIo,
    ensures
        canon_request(x.json()) == Some(x.json()),
{
    lemma_request_kind_names(RequestKind::CloseIo);
    reveal_strlit("op");
    reveal_strlit("id");
    reveal_strlit("exec_id");
    assert("op"@.len() == 2);
    assert("id"@.len() == 2);
    assert("exec_id"@.len() == 7);
    assert("op"@[0] != "id"@[0]);
    if let ContainerRequest::CloseIo { id, exec_id } = x {
        wire::lemma_sent_fields(exec_id, Seq::empty(), Seq::empty());
    }
    assert(x.json().str_at("op"@) == Some("close-io"@));
}

/// `ContainerRequest::Delete` is read as it is sent.
proof fn lemma_request_delete(x: ContainerRequest)
    requires
        x is Delete,
    ensures
        canon_request(x.json()) == Some(x.json()),
{
    lemma_request_kind_names(RequestKind::Delete);
    reveal_strlit("op");
    reveal_strlit("id");
    reveal_strlit("exec_id");
    reveal_strlit("force");
    assert("op"@.len() == 2);
    assert("id"@.len() == 2);
    assert("exec_id"@.len() == 7);
    assert("force"@.len() == 5);
    assert("op"@[0] != "id"@[0]);
    if let ContainerRequest::Delete { id, exec_id, force } = x {
        wire::lemma_sent_fields(exec_id, Seq::empty(), Seq::empty());
    }
    assert(x.json().str_at("op"@) == Some("delete"@));
}

/// A `ContainerRequest` that is sent is read as the same message.
pub proof fn law_request_round_trip(x: ContainerRequest)
    ensures
        canon_request(x.json()) == Some(x.json()),
{
    match x {
        ContainerRequest::Ping => {
            lemma_request_ping(x);
        },
        ContainerRequest::ConfigureSandboxResources { .. } => {
            lemma_request_configure_sandbox_resources(x);
        },
        ContainerRequest::Create { .. } => {
            lemma_request_create(x);
        },
        ContainerRequest::Start { .. } => {
            lemma_request_start(x);
        },
        ContainerRequest::State { .. } => {
            lemma_request_state(x);
        },
        ContainerRequest::Exec { .. } => {
            lemma_request_exec(x);
        },
        ContainerRequest::Kill { .. } => {
            lemma_request_kill(x);
        },
        ContainerRequest::Pause { .. } => {
            lemma_request_pause(x);
        },
        ContainerRequest::Resume { .. } => {
            lemma_request_resume(x);
        },
        ContainerRequest::Wait { .. } => {
            lemma_request_wait(x);
        },
        ContainerRequest::Pids { .. } => {
            lemma_request_pids(x);
        },
        ContainerRequest::Stats { .. } => {
            lemma_request_stats(x);
        },
        ContainerRequest::CgroupEvents { .. } => {
            lemma_request_cgroup_events(x);
        },
        ContainerRequest::SecurityStats => {
            lemma_request_security_stats(x);
        },
        ContainerRequest::UpdateResources { .. } => {
            lemma_request_update_resources(x);
        },
        ContainerRequest::ResizePty { .. } => {
            lemma_request_resize_pty(x);
        },
        ContainerRequest::CloseIo { .. } => {
            lemma_request_close_io(x);
        },
        ContainerRequest::Delete { .. } => {
            lemma_request_delete(x);
        },
    }
}

/// A response of the agent.
#[derive(Debug)]
pub enum ContainerResponse {
    Pong,
    SandboxResourcesConfigured,
    Created { pid: u32, container_identity: u32 },
    Started { pid: u32 },
    ExecStarted { pid: u32 },
    State {
        id: String,
        exec_id: Option<String>,
        status: ContainerStatus,
        pid: u32,
        exit_code: Option<i32>,
        exited_at_unix_nano: Option<i64>,
    },
    Exited { exit_code: i32, exited_at_unix_nano: i64 },
    Pids { pids: Vec<u32> },
    Stats { stats: ContainerStats },
    CgroupEvents { events: CgroupEvents },
    SecurityStats { stats: SecurityStats },
    ResourcesUpdated,
    PtyResized,
    IoClosed,
    Killed,
    Paused,
    Resumed,
    Deleted { pid: u32, exit_code: i32, exited_at_unix_nano: i64 },
    Error { message: String },
}

/// Which `ContainerResponse` a message is.
#[derive(Debug, Clone, Copy, PartialEq, Eq, Structural)]
pub enum ResponseKind {
    Pong,
    SandboxResourcesConfigured,
    Created,
    Started,
    ExecStarted,
    State,
    Exited,
    Pids,
    Stats,
    CgroupEvents,
    SecurityStats,
    ResourcesUpdated,
    PtyResized,
    IoClosed,
    Killed,
    Paused,
    Resumed,
    Deleted,
    Error,
}

impl ResponseKind {
    /// The tag of the message.
    pub open spec fn text(self) -> Seq<char> {
        match self {
            ResponseKind::Pong => "pong"@,
            ResponseKind::SandboxResourcesConfigured => "sandbox-resources-configured"@,
            ResponseKind::Created => "created"@,
            ResponseKind::Started => "started"@,
            ResponseKind::ExecStarted => "exec-started"@,
            ResponseKind::State => "state"@,
            ResponseKind::Exited => "exited"@,
            ResponseKind::Pids => "pids"@,
            ResponseKind::Stats => "stats"@,
            ResponseKind::CgroupEvents => "cgroup-events"@,
            ResponseKind::SecurityStats => "security-stats"@,
            ResponseKind::ResourcesUpdated => "resources-updated"@,
            ResponseKind::PtyResized => "pty-resized"@,
            ResponseKind::IoClosed => "io-closed"@,
            ResponseKind::Killed => "killed"@,
            ResponseKind::Paused => "paused"@,
            ResponseKind::Resumed => "resumed"@,
            ResponseKind::Deleted => "deleted"@,
            ResponseKind::Error => "error"@,
        }
    }

    /// The `ResponseKind` of a name.
    pub fn from_name(s: &str) -> (r: Option<ResponseKind>)
        ensures
            r == response_kind_of(s@),
    {
        if same(s, "pong") {
            Some(ResponseKind::Pong)
        } else if same(s, "sandbox-resources-configured") {
            Some(ResponseKind::SandboxResourcesConfigured)
        } else if same(s, "created") {
            Some(ResponseKind::Created)
        } else if same(s, "started") {
            Some(ResponseKind::Started)
        } else if same(s, "exec-started") {
            Some(ResponseKind::ExecStarted)
        } else if same(s, "state") {
            Some(ResponseKind::State)
        } else if same(s, "exited") {
            Some(ResponseKind::Exited)
        } else if same(s, "pids") {
            Some(ResponseKind::Pids)
        } else if same(s, "stats") {
            Some(ResponseKind::Stats)
        } else if same(s, "cgroup-events") {
            Some(ResponseKind::CgroupEvents)
        } else if same(s, "security-stats") {
            Some(ResponseKind::SecurityStats)
        } else if same(s, "resources-updated") {
            Some(ResponseKind::ResourcesUpdated)
        } else if same(s, "pty-resized") {
            Some(ResponseKind::PtyResized)
        } else if same(s, "io-closed") {
            Some(ResponseKind::IoClosed)
        } else if same(s, "killed") {
            Some(ResponseKind::Killed)
        } else if same(s, "paused") {
            Some(ResponseKind::Paused)
        } else if same(s, "resumed") {
            Some(ResponseKind::Resumed)
        } else if same(s, "deleted") {
            Some(ResponseKind::Deleted)
        } else if same(s, "error") {
            Some(ResponseKind::Error)
        } else {
            None
        }
    }
}

/// The `ResponseKind` of a name.
pub open spec fn response_kind_of(s: Seq<char>) -> Option<ResponseKind> {
    if s == "pong"@ {
        Some(ResponseKind::Pong)
    } else if s == "sandbox-resources-configured"@ {
        Some(ResponseKind::SandboxResourcesConfigured)
    } else if s == "created"@ {
        Some(ResponseKind::Created)
    } else if s == "started"@ {
        Some(ResponseKind::Started)
    } else if s == "exec-started"@ {
        Some(ResponseKind::ExecStarted)
    } else if s == "state"@ {
        Some(ResponseKind::State)
    } else if s == "exited"@ {
        Some(ResponseKind::Exited)
    } else if s == "pids"@ {
        Some(ResponseKind::Pids)
    } else if s == "stats"@ {
        Some(ResponseKind::Stats)
    } else if s == "cgroup-events"@ {
        Some(ResponseKind::CgroupEvents)
    } else if s == "security-stats"@ {
        Some(ResponseKind::SecurityStats)
    } else if s == "resources-updated"@ {
        Some(ResponseKind::ResourcesUpdated)
    } else if s == "pty-resized"@ {
        Some(ResponseKind::PtyResized)
    } else if s == "io-closed"@ {
        Some(ResponseKind::IoClosed)
    } else if s == "killed"@ {
        Some(ResponseKind::Killed)
    } else if s == "paused"@ {
        Some(ResponseKind::Paused)
    } else if s == "resumed"@ {
        Some(ResponseKind::Resumed)
    } else if s == "deleted"@ {
        Some(ResponseKind::Deleted)
    } else if s == "error"@ {
        Some(ResponseKind::Error)
    } else {
        None
    }
}

/// The name of a `ResponseKind` names it.
pub proof fn lemma_response_kind_names(x: ResponseKind)
    ensures
        response_kind_of(x.text()) == Some(x),
{
    reveal_strlit("pong");
    reveal_strlit("sandbox-resources-configured");
    reveal_strlit("created");
    reveal_strlit("started");
    reveal_strlit("exec-started");
    reveal_strlit("state");
    reveal_strlit("exited");
    reveal_strlit("pids");
    reveal_strlit("stats");
    reveal_strlit("cgroup-events");
    reveal_strlit("security-stats");
    reveal_strlit("resources-updated");
    reveal_strlit("pty-resized");
    reveal_strlit("io-closed");
    reveal_strlit("killed");
    reveal_strlit("paused");
    reveal_strlit("resumed");
    reveal_strlit("deleted");
    reveal_strlit("error");
    assert("pong"@.len() == 4);
    assert("sandbox-resources-configured"@.len() == 28);
    assert("created"@.len() == 7);
    assert("started"@.len() == 7);
    assert("exec-started"@.len() == 12);
    assert("state"@.len() == 5);
    assert("exited"@.len() == 6);
    assert("pids"@.len() == 4);
    assert("stats"@.len() == 5);
    assert("cgroup-events"@.len() == 13);
    assert("security-stats"@.len() == 14);
    assert("resources-updated"@.len() == 17);
    assert("pty-resized"@.len() == 11);
    assert("io-closed"@.len() == 9);
    assert("killed"@.len() == 6);
    assert("paused"@.len() == 6);
    assert("resumed"@.len() == 7);
    assert("deleted"@.len() == 7);
    assert("error"@.len() == 5);
    assert("pong"@[1] != "pids"@[1]);
    assert("created"@[0] != "started"@[0]);
    assert("created"@[0] != "resumed"@[0]);
    assert("created"@[0] != "deleted"@[0]);
    assert("started"@[0] != "resumed"@[0]);
    assert("started"@[0] != "deleted"@[0]);
    assert("state"@[4] != "stats"@[4]);
    assert("state"@[0] != "error"@[0]);
    assert("exited"@[0] != "killed"@[0]);
    assert("exited"@[0] != "paused"@[0]);
    assert("stats"@[0] != "error"@[0]);
    assert("killed"@[0] != "paused"@[0]);
    assert("resumed"@[0] != "deleted"@[0]);
}

/// The form in which `ContainerResponse::Created` is sent.
pub open spec fn canon_response_created(j: Js) -> Option<Js> {
    let o = Some(json::no_members());
    let o = wire::put(o, "result"@, Some(Js::Str("created"@)));
    let o = wire::put(o, "pid"@, wire::pick_int(wire::field(j, "pid"@), 0, u32::MAX as int));
    let o = wire::put(
        o,
        "container_identity"@,
        wire::pick_int_or_zero(wire::field(j, "container_identity"@), 0, u32::MAX as int),
    );
    o
}

/// The form in which `ContainerResponse::Started` is sent.
pub open spec fn canon_response_started(j: Js) -> Option<Js> {
    let o = Some(json::no_members());
    let o = wire::put(o, "result"@, Some(Js::Str("started"@)));
    let o = wire::put(o, "pid"@, wire::pick_int(wire::field(j, "pid"@), 0, u32::MAX as int));
    o
}

/// The form in which `ContainerResponse::ExecStarted` is sent.
pub open spec fn canon_response_exec_started(j: Js) -> Option<Js> {
    let o = Some(json::no_members());
    let o = wire::put(o, "result"@, Some(Js::Str("exec-started"@)));
    let o = wire::put(o, "pid"@, wire::pick_int(wire::field(j, "pid"@), 0, u32::MAX as int));
    o
}

/// The form in which `ContainerResponse::State` is sent.
pub open spec fn canon_response_state(j: Js) -> Option<Js> {
    let o = Some(json::no_members());
    let o = wire::put(o, "result"@, Some(Js::Str("state"@)));
    let o = wire::put(o, "id"@, wire::pick_str(wire::field(j, "id"@)));
    let o = wire::put(o, "exec_id"@, wire::pick_opt_str(wire::field(j, "exec_id"@)));
    let o = wire::put(o, "status"@, pick_status(wire::field(j, "status"@)));
    let o = wire::put(o, "pid"@, wire::pick_int(wire::field(j, "pid"@), 0, u32::MAX as int));
    let o = wire::put(
        o,
        "exit_code"@,
        wire::pick_opt_int(wire::field(j, "exit_code"@), i32::MIN as int, i32::MAX as int),
    );
    let o = wire::put(
        o,
        "exited_at_unix_nano"@,
        wire::pick_opt_int(
            wire::field(j, "exited_at_unix_nano"@),
            i64::MIN as int,
            i64::MAX as int,
        ),
    );
    o
}

/// The form in which `ContainerResponse::Exited` is sent.
pub open spec fn canon_response_exited(j: Js) -> Option<Js> {
    let o = Some(json::no_members());
    let o = wire::put(o, "result"@, Some(Js::Str("exited"@)));
    let o = wire::put(
        o,
        "exit_code"@,
        wire::pick_int(wire::field(j, "exit_code"@), i32::MIN as int, i32::MAX as int),
    );
    let o = wire::put(
        o,
        "exited_at_unix_nano"@,
        wire::pick_int(wire::field(j, "exited_at_unix_nano"@), i64::MIN as int, i64::MAX as int),
    );
    o
}

/// The form in which `ContainerResponse::Pids` is sent.
pub open spec fn canon_response_pids(j: Js) -> Option<Js> {
    let o = Some(json::no_members());
    let o = wire::put(o, "result"@, Some(Js::Str("pids"@)));
    let o = wire::put(o, "pids"@, wire::pick_u32s(wire::field(j, "pids"@)));
    o
}

/// The form in which `ContainerResponse::Stats` is sent.
pub open spec fn canon_response_stats(j: Js) -> Option<Js> {
    let o = Some(json::no_members());
    let o = wire::put(o, "result"@, Some(Js::Str("stats"@)));
    let o = wire::put(o, "stats"@, pick_stats(wire::field(j, "stats"@)));
    o
}

/// The form in which `ContainerResponse::CgroupEvents` is sent.
pub open spec fn canon_response_cgroup_events(j: Js) -> Option<Js> {
    let o = Some(json::no_members());
    let o = wire::put(o, "result"@, Some(Js::Str("cgroup-events"@)));
    let o = wire::put(o, "events"@, pick_events(wire::field(j, "events"@)));
    o
}

/// The form in which `ContainerResponse::SecurityStats` is sent.
pub open spec fn canon_response_security_stats(j: Js) -> Option<Js> {
    let o = Some(json::no_members());
    let o = wire::put(o, "result"@, Some(Js::Str("security-stats"@)));
    let o = wire::put(o, "stats"@, pick_security(wire::field(j, "stats"@)));
    o
}

/// The form in which `ContainerResponse::Deleted` is sent.
pub open spec fn canon_response_deleted(j: Js) -> Option<Js> {
    let o = Some(json::no_members());
    let o = wire::put(o, "result"@, Some(Js::Str("deleted"@)));
    let o = wire::put(o, "pid"@, wire::pick_int(wire::field(j, "pid"@), 0, u32::MAX as int));
    let o = wire::put(
        o,
        "exit_code"@,
        wire::pick_int(wire::field(j, "exit_code"@), i32::MIN as int, i32::MAX as int),
    );
    let o = wire::put(
        o,
        "exited_at_unix_nano"@,
        wire::pick_int(wire::field(j, "exited_at_unix_nano"@), i64::MIN as int, i64::MAX as int),
    );
    o
}

/// The form in which `ContainerResponse::Error` is sent.
pub open spec fn canon_response_error(j: Js) -> Option<Js> {
    let o = Some(json::no_members());
    let o = wire::put(o, "result"@, Some(Js::Str("error"@)));
    let o = wire::put(o, "message"@, wire::pick_str(wire::field(j, "message"@)));
    o
}

/// The fields of a `ContainerResponse`, in their order.
pub open spec fn response_fields(kind: ResponseKind) -> Seq<Seq<char>> {
    match kind {
        ResponseKind::Created => seq!["pid"@, "container_identity"@],
        ResponseKind::Started => seq!["pid"@],
        ResponseKind::ExecStarted => seq!["pid"@],
        ResponseKind::State => seq![
            "id"@,
            "exec_id"@,
            "status"@,
            "pid"@,
            "exit_code"@,
            "exited_at_unix_nano"@,
        ],
        ResponseKind::Exited => seq!["exit_code"@, "exited_at_unix_nano"@],
        ResponseKind::Pids => seq!["pids"@],
        ResponseKind::Stats => seq!["stats"@],
        ResponseKind::CgroupEvents => seq!["events"@],
        ResponseKind::SecurityStats => seq!["stats"@],
        ResponseKind::Deleted => seq!["pid"@, "exit_code"@, "exited_at_unix_nano"@],
        ResponseKind::Error => seq!["message"@],
        _ => Seq::empty(),
    }
}

/// How many fields of a `ContainerResponse` cannot be left out at the end of a list.
pub open spec fn response_least(kind: ResponseKind) -> nat {
    match kind {
        ResponseKind::Created => 1,
        ResponseKind::Started => 1,
        ResponseKind::ExecStarted => 1,
        ResponseKind::State => 4,
        ResponseKind::Exited => 2,
        ResponseKind::Pids => 1,
        ResponseKind::Stats => 1,
        ResponseKind::CgroupEvents => 1,
        ResponseKind::SecurityStats => 1,
        ResponseKind::Deleted => 3,
        ResponseKind::Error => 1,
        _ => 0,
    }
}

/// Gives the fields of a `ContainerResponse`, and how many cannot be left out.
fn response_names(kind: ResponseKind) -> (r: (Vec<&'static str>, usize))
    ensures
        text::names_of(r.0@) == response_fields(kind),
        r.1 == response_least(kind),
{
    let r: (Vec<&'static str>, usize) = match kind {
        ResponseKind::Created => (vec!["pid", "container_identity"], 1),
        ResponseKind::Started => (vec!["pid"], 1),
        ResponseKind::ExecStarted => (vec!["pid"], 1),
        ResponseKind::State => (
            vec!["id", "exec_id", "status", "pid", "exit_code", "exited_at_unix_nano"],
            4
        ),
        ResponseKind::Exited => (vec!["exit_code", "exited_at_unix_nano"], 2),
        ResponseKind::Pids => (vec!["pids"], 1),
        ResponseKind::Stats => (vec!["stats"], 1),
        ResponseKind::CgroupEvents => (vec!["events"], 1),
        ResponseKind::SecurityStats => (vec!["stats"], 1),
        ResponseKind::Deleted => (vec!["pid", "exit_code", "exited_at_unix_nano"], 3),
        ResponseKind::Error => (vec!["message"], 1),
        _ => (Vec::new(), 0),
    };
    assert(text::names_of(r.0@) =~= response_fields(kind));
    r
}

/// The form in which a `ContainerResponse` is sent, where `j` describes one, by the names of its
/// fields or by their order behind its own name.
pub open spec fn canon_response(j: Js) -> Option<Js> {
    match j {
        Js::Arr(v) => if v.len() == 0 {
            None
        } else {
            match v[0] {
                Js::Str(t) => match response_kind_of(t) {
                    None => None,
                    Some(kind) => match json::named(
                        Js::Arr(v.skip(1)),
                        response_fields(kind),
                        response_least(kind),
                    ) {
                        None => None,
                        Some(o) => canon_response_object(o.with("result"@, Js::Str(t))),
                    },
                },
                _ => None,
            }
        },
        _ => canon_response_object(j),
    }
}

/// The form in which a `ContainerResponse` is sent, where the object `j` describes one.
pub open spec fn canon_response_object(j: Js) -> Option<Js> {
    match j.str_at("result"@) {
        None => None,
        Some(t) => match response_kind_of(t) {
            None => None,
            Some(ResponseKind::Pong) => Some(json::no_members().with("result"@, Js::Str("pong"@))),
            Some(ResponseKind::SandboxResourcesConfigured) => Some(
                json::no_members().with("result"@, Js::Str("sandbox-resources-configured"@)),
            ),
            Some(ResponseKind::Created) => canon_response_created(j),
            Some(ResponseKind::Started) => canon_response_started(j),
            Some(ResponseKind::ExecStarted) => canon_response_exec_started(j),
            Some(ResponseKind::State) => canon_response_state(j),
            Some(ResponseKind::Exited) => canon_response_exited(j),
            Some(ResponseKind::Pids) => canon_response_pids(j),
            Some(ResponseKind::Stats) => canon_response_stats(j),
            Some(ResponseKind::CgroupEvents) => canon_response_cgroup_events(j),
            Some(ResponseKind::SecurityStats) => canon_response_security_stats(j),
            Some(ResponseKind::ResourcesUpdated) => Some(
                json::no_members().with("result"@, Js::Str("resources-updated"@)),
            ),
            Some(ResponseKind::PtyResized) => Some(
                json::no_members().with("result"@, Js::Str("pty-resized"@)),
            ),
            Some(ResponseKind::IoClosed) => Some(
                json::no_members().with("result"@, Js::Str("io-closed"@)),
            ),
            Some(ResponseKind::Killed) => Some(
                json::no_members().with("result"@, Js::Str("killed"@)),
            ),
            Some(ResponseKind::Paused) => Some(
                json::no_members().with("result"@, Js::Str("paused"@)),
            ),
            Some(ResponseKind::Resumed) => Some(
                json::no_members().with("result"@, Js::Str("resumed"@)),
            ),
            Some(ResponseKind::Deleted) => canon_response_deleted(j),
            Some(ResponseKind::Error) => canon_response_error(j),
        },
    }
}

impl ContainerResponse {
    /// The message as it is sent.
    pub open spec fn json(self) -> Js {
        match self {
            ContainerResponse::Pong => json::no_members().with("result"@, Js::Str("pong"@)),
            ContainerResponse::SandboxResourcesConfigured => json::no_members().with(
                "result"@,
                Js::Str("sandbox-resources-configured"@),
            ),
            ContainerResponse::Created { pid, container_identity } => json::no_members()
                .with("result"@, Js::Str("created"@))
                .with("pid"@, Js::Int(pid as int))
                .with("container_identity"@, Js::Int(container_identity as int)),
            ContainerResponse::Started { pid } => json::no_members()
                .with("result"@, Js::Str("started"@))
                .with("pid"@, Js::Int(pid as int)),
            ContainerResponse::ExecStarted { pid } => json::no_members()
                .with("result"@, Js::Str("exec-started"@))
                .with("pid"@, Js::Int(pid as int)),
            ContainerResponse::State {
                id,
                exec_id,
                status,
                pid,
                exit_code,
                exited_at_unix_nano,
            } => json::no_members()
                .with("result"@, Js::Str("state"@))
                .with("id"@, Js::Str(id@))
                .with("exec_id"@, wire::opt_str_js(exec_id))
                .with("status"@, Js::Str(status.text()))
                .with("pid"@, Js::Int(pid as int))
                .with("exit_code"@, wire::opt_int_js(wire::wide_i32(exit_code)))
                .with(
                    "exited_at_unix_nano"@,
                    wire::opt_int_js(wire::wide_i64(exited_at_unix_nano)),
                ),
            ContainerResponse::Exited { exit_code, exited_at_unix_nano } => json::no_members()
                .with("result"@, Js::Str("exited"@))
                .with("exit_code"@, Js::Int(exit_code as int))
                .with("exited_at_unix_nano"@, Js::Int(exited_at_unix_nano as int)),
            ContainerResponse::Pids { pids } => json::no_members()
                .with("result"@, Js::Str("pids"@))
                .with("pids"@, wire::u32s_js(pids@)),
            ContainerResponse::Stats { stats } => json::no_members()
                .with("result"@, Js::Str("stats"@))
                .with("stats"@, stats.json()),
            ContainerResponse::CgroupEvents { events } => json::no_members()
                .with("result"@, Js::Str("cgroup-events"@))
                .with("events"@, events.json()),
            ContainerResponse::SecurityStats { stats } => json::no_members()
                .with("result"@, Js::Str("security-stats"@))
                .with("stats"@, stats.json()),
            ContainerResponse::ResourcesUpdated => json::no_members().with(
                "result"@,
                Js::Str("resources-updated"@),
            ),
            ContainerResponse::PtyResized => json::no_members().with(
                "result"@,
                Js::Str("pty-resized"@),
            ),
            ContainerResponse::IoClosed => json::no_members().with(
                "result"@,
                Js::Str("io-closed"@),
            ),
            ContainerResponse::Killed => json::no_members().with("result"@, Js::Str("killed"@)),
            ContainerResponse::Paused => json::no_members().with("result"@, Js::Str("paused"@)),
            ContainerResponse::Resumed => json::no_members().with("result"@, Js::Str("resumed"@)),
            ContainerResponse::Deleted { pid, exit_code, exited_at_unix_nano } => json::no_members()
                .with("result"@, Js::Str("deleted"@))
                .with("pid"@, Js::Int(pid as int))
                .with("exit_code"@, Js::Int(exit_code as int))
                .with("exited_at_unix_nano"@, Js::Int(exited_at_unix_nano as int)),
            ContainerResponse::Error { message } => json::no_members()
                .with("result"@, Js::Str("error"@))
                .with("message"@, Js::Str(message@)),
        }
    }

    /// The message as it is written: its tag, then its fields in their order.
    pub open spec fn form(self) -> Form {
        match self {
            ContainerResponse::Pong => json::no_members_form().put("result"@, Form::Str("pong"@)),
            ContainerResponse::SandboxResourcesConfigured => json::no_members_form().put(
                "result"@,
                Form::Str("sandbox-resources-configured"@),
            ),
            ContainerResponse::Created { pid, container_identity } => json::no_members_form()
                .put("result"@, Form::Str("created"@))
                .put("pid"@, json::flat(Js::Int(pid as int)))
                .put("container_identity"@, json::flat(Js::Int(container_identity as int))),
            ContainerResponse::Started { pid } => json::no_members_form()
                .put("result"@, Form::Str("started"@))
                .put("pid"@, json::flat(Js::Int(pid as int))),
            ContainerResponse::ExecStarted { pid } => json::no_members_form()
                .put("result"@, Form::Str("exec-started"@))
                .put("pid"@, json::flat(Js::Int(pid as int))),
            ContainerResponse::State {
                id,
                exec_id,
                status,
                pid,
                exit_code,
                exited_at_unix_nano,
            } => json::no_members_form()
                .put("result"@, Form::Str("state"@))
                .put("id"@, json::flat(Js::Str(id@)))
                .put("exec_id"@, json::flat(wire::opt_str_js(exec_id)))
                .put("status"@, json::flat(Js::Str(status.text())))
                .put("pid"@, json::flat(Js::Int(pid as int)))
                .put("exit_code"@, json::flat(wire::opt_int_js(wire::wide_i32(exit_code))))
                .put(
                    "exited_at_unix_nano"@,
                    json::flat(wire::opt_int_js(wire::wide_i64(exited_at_unix_nano))),
                ),
            ContainerResponse::Exited { exit_code, exited_at_unix_nano } => json::no_members_form()
                .put("result"@, Form::Str("exited"@))
                .put("exit_code"@, json::flat(Js::Int(exit_code as int)))
                .put("exited_at_unix_nano"@, json::flat(Js::Int(exited_at_unix_nano as int))),
            ContainerResponse::Pids { pids } => json::no_members_form()
                .put("result"@, Form::Str("pids"@))
                .put("pids"@, json::flat(wire::u32s_js(pids@))),
            ContainerResponse::Stats { stats } => json::no_members_form()
                .put("result"@, Form::Str("stats"@))
                .put("stats"@, stats.form()),
            ContainerResponse::CgroupEvents { events } => json::no_members_form()
                .put("result"@, Form::Str("cgroup-events"@))
                .put("events"@, events.form()),
            ContainerResponse::SecurityStats { stats } => json::no_members_form()
                .put("result"@, Form::Str("security-stats"@))
                .put("stats"@, stats.form()),
            ContainerResponse::ResourcesUpdated => json::no_members_form().put(
                "result"@,
                Form::Str("resources-updated"@),
            ),
            ContainerResponse::PtyResized => json::no_members_form().put(
                "result"@,
                Form::Str("pty-resized"@),
            ),
            ContainerResponse::IoClosed => json::no_members_form().put(
                "result"@,
                Form::Str("io-closed"@),
            ),
            ContainerResponse::Killed => json::no_members_form().put(
                "result"@,
                Form::Str("killed"@),
            ),
            ContainerResponse::Paused => json::no_members_form().put(
                "result"@,
                Form::Str("paused"@),
            ),
            ContainerResponse::Resumed => json::no_members_form().put(
                "result"@,
                Form::Str("resumed"@),
            ),
            ContainerResponse::Deleted {
                pid,
                exit_code,
                exited_at_unix_nano,
            } => json::no_members_form()
                .put("result"@, Form::Str("deleted"@))
                .put("pid"@, json::flat(Js::Int(pid as int)))
                .put("exit_code"@, json::flat(Js::Int(exit_code as int)))
                .put("exited_at_unix_nano"@, json::flat(Js::Int(exited_at_unix_nano as int))),
            ContainerResponse::Error { message } => json::no_members_form()
                .put("result"@, Form::Str("error"@))
                .put("message"@, json::flat(Js::Str(message@))),
        }
    }

    /// The message to send.
    pub fn to_json(&self) -> (r: Json)
        ensures
            r.view() == self.json(),
            r.form() == self.form(),
    {
        let o = Json::object();
        match self {
            ContainerResponse::Pong => o.put("result", Json::text("pong")),
            ContainerResponse::SandboxResourcesConfigured => o.put(
                "result",
                Json::text("sandbox-resources-configured"),
            ),
            ContainerResponse::Created { pid, container_identity } => o.put(
                "result",
                Json::text("created"),
            )
                .put("pid", Json::Unsigned(*pid as u64))
                .put("container_identity", Json::Unsigned(*container_identity as u64)),
            ContainerResponse::Started { pid } => o.put("result", Json::text("started"))
                .put("pid", Json::Unsigned(*pid as u64)),
            ContainerResponse::ExecStarted { pid } => o.put("result", Json::text("exec-started"))
                .put("pid", Json::Unsigned(*pid as u64)),
            ContainerResponse::State {
                id,
                exec_id,
                status,
                pid,
                exit_code,
                exited_at_unix_nano,
            } => o.put("result", Json::text("state"))
                .put("id", Json::text(id.as_str()))
                .put("exec_id", send_opt_str(exec_id))
                .put("status", Json::text(status.name()))
                .put("pid", Json::Unsigned(*pid as u64))
                .put("exit_code", send_opt_i32(*exit_code))
                .put("exited_at_unix_nano", send_opt_i64(*exited_at_unix_nano)),
            ContainerResponse::Exited {
                exit_code,
                exited_at_unix_nano,
            } => o.put("result", Json::text("exited"))
                .put("exit_code", Json::Signed(*exit_code as i64))
                .put("exited_at_unix_nano", Json::Signed(*exited_at_unix_nano)),
            ContainerResponse::Pids { pids } => o.put("result", Json::text("pids"))
                .put("pids", send_u32s(pids)),
            ContainerResponse::Stats { stats } => o.put("result", Json::text("stats"))
                .put("stats", stats.to_json()),
            ContainerResponse::CgroupEvents { events } => o.put(
                "result",
                Json::text("cgroup-events"),
            )
                .put("events", events.to_json()),
            ContainerResponse::SecurityStats { stats } => o.put(
                "result",
                Json::text("security-stats"),
            )
                .put("stats", stats.to_json()),
            ContainerResponse::ResourcesUpdated => o.put("result", Json::text("resources-updated")),
            ContainerResponse::PtyResized => o.put("result", Json::text("pty-resized")),
            ContainerResponse::IoClosed => o.put("result", Json::text("io-closed")),
            ContainerResponse::Killed => o.put("result", Json::text("killed")),
            ContainerResponse::Paused => o.put("result", Json::text("paused")),
            ContainerResponse::Resumed => o.put("result", Json::text("resumed")),
            ContainerResponse::Deleted {
                pid,
                exit_code,
                exited_at_unix_nano,
            } => o.put("result", Json::text("deleted"))
                .put("pid", Json::Unsigned(*pid as u64))
                .put("exit_code", Json::Signed(*exit_code as i64))
                .put("exited_at_unix_nano", Json::Signed(*exited_at_unix_nano)),
            ContainerResponse::Error { message } => o.put("result", Json::text("error"))
                .put("message", Json::text(message.as_str())),
        }
    }

    /// Reads a message.
    pub fn from_json(j: &Json) -> (r: Option<ContainerResponse>)
        ensures
            match r {
                Some(x) => canon_response(j.view()) == Some(x.json()),
                None => canon_response(j.view()) is None,
            },
    {
        match j {
            Json::Array(v) => {
                proof {
                    json::lemma_items(v@);
                }
                if v.len() == 0 {
                    return None;
                }
                assert(json::items_view(v@)[0] == v@[0].view());
                let t = v[0].as_str()?;
                let (names, least) = response_names(ResponseKind::from_name(t)?);
                let o = json::name_items(v, 1, names.as_slice(), least)?;
                ContainerResponse::from_object(&o.with("result", Json::text(t)))
            },
            _ => ContainerResponse::from_object(j),
        }
    }

    /// Reads a message that is an object.
    fn from_object(j: &Json) -> (r: Option<ContainerResponse>)
        ensures
            match r {
                Some(x) => canon_response_object(j.view()) == Some(x.json()),
                None => canon_response_object(j.view()) is None,
            },
    {
        let tag = j.str_at("result")?;
        match ResponseKind::from_name(tag)? {
            ResponseKind::Pong => Some(ContainerResponse::Pong),
            ResponseKind::SandboxResourcesConfigured => Some(
                ContainerResponse::SandboxResourcesConfigured,
            ),
            ResponseKind::Created => read_response_created(j),
            ResponseKind::Started => read_response_started(j),
            ResponseKind::ExecStarted => read_response_exec_started(j),
            ResponseKind::State => read_response_state(j),
            ResponseKind::Exited => read_response_exited(j),
            ResponseKind::Pids => read_response_pids(j),
            ResponseKind::Stats => read_response_stats(j),
            ResponseKind::CgroupEvents => read_response_cgroup_events(j),
            ResponseKind::SecurityStats => read_response_security_stats(j),
            ResponseKind::ResourcesUpdated => Some(ContainerResponse::ResourcesUpdated),
            ResponseKind::PtyResized => Some(ContainerResponse::PtyResized),
            ResponseKind::IoClosed => Some(ContainerResponse::IoClosed),
            ResponseKind::Killed => Some(ContainerResponse::Killed),
            ResponseKind::Paused => Some(ContainerResponse::Paused),
            ResponseKind::Resumed => Some(ContainerResponse::Resumed),
            ResponseKind::Deleted => read_response_deleted(j),
            ResponseKind::Error => read_response_error(j),
        }
    }
}

/// Reads the fields of `ContainerResponse::Created`.
fn read_response_created(j: &Json) -> (r: Option<ContainerResponse>)
    ensures
        match r {
            Some(x) => canon_response_created(j.view()) == Some(x.json()),
            None => canon_response_created(j.view()) is None,
        },
{
    let pid: u32 = read_u32(j, "pid")?;
    let container_identity: u32 = read_u32_or_zero(j, "container_identity")?;
    Some(ContainerResponse::Created { pid, container_identity })
}

/// Reads the fields of `ContainerResponse::Started`.
fn read_response_started(j: &Json) -> (r: Option<ContainerResponse>)
    ensures
        match r {
            Some(x) => canon_response_started(j.view()) == Some(x.json()),
            None => canon_response_started(j.view()) is None,
        },
{
    let pid: u32 = read_u32(j, "pid")?;
    Some(ContainerResponse::Started { pid })
}

/// Reads the fields of `ContainerResponse::ExecStarted`.
fn read_response_exec_started(j: &Json) -> (r: Option<ContainerResponse>)
    ensures
        match r {
            Some(x) => canon_response_exec_started(j.view()) == Some(x.json()),
            None => canon_response_exec_started(j.view()) is None,
        },
{
    let pid: u32 = read_u32(j, "pid")?;
    Some(ContainerResponse::ExecStarted { pid })
}

/// Reads the fields of `ContainerResponse::State`.
fn read_response_state(j: &Json) -> (r: Option<ContainerResponse>)
    ensures
        match r {
            Some(x) => canon_response_state(j.view()) == Some(x.json()),
            None => canon_response_state(j.view()) is None,
        },
{
    let id = read_str(j, "id")?;
    let exec_id = read_opt_str(j, "exec_id")?;
    let status = read_status(j, "status")?;
    let pid: u32 = read_u32(j, "pid")?;
    let exit_code = read_opt_i32(j, "exit_code")?;
    let exited_at_unix_nano = read_opt_i64(j, "exited_at_unix_nano")?;
    Some(ContainerResponse::State { id, exec_id, status, pid, exit_code, exited_at_unix_nano })
}

/// Reads the fields of `ContainerResponse::Exited`.
fn read_response_exited(j: &Json) -> (r: Option<ContainerResponse>)
    ensures
        match r {
            Some(x) => canon_response_exited(j.view()) == Some(x.json()),
            None => canon_response_exited(j.view()) is None,
        },
{
    let exit_code: i32 = read_i32(j, "exit_code")?;
    let exited_at_unix_nano: i64 = read_i64(j, "exited_at_unix_nano")?;
    Some(ContainerResponse::Exited { exit_code, exited_at_unix_nano })
}

/// Reads the fields of `ContainerResponse::Pids`.
fn read_response_pids(j: &Json) -> (r: Option<ContainerResponse>)
    ensures
        match r {
            Some(x) => canon_response_pids(j.view()) == Some(x.json()),
            None => canon_response_pids(j.view()) is None,
        },
{
    let pids = read_u32s(j, "pids")?;
    Some(ContainerResponse::Pids { pids })
}

/// Reads the fields of `ContainerResponse::Stats`.
fn read_response_stats(j: &Json) -> (r: Option<ContainerResponse>)
    ensures
        match r {
            Some(x) => canon_response_stats(j.view()) == Some(x.json()),
            None => canon_response_stats(j.view()) is None,
        },
{
    let stats = read_stats(j, "stats")?;
    Some(ContainerResponse::Stats { stats })
}

/// Reads the fields of `ContainerResponse::CgroupEvents`.
fn read_response_cgroup_events(j: &Json) -> (r: Option<ContainerResponse>)
    ensures
        match r {
            Some(x) => canon_response_cgroup_events(j.view()) == Some(x.json()),
            None => canon_response_cgroup_events(j.view()) is None,
        },
{
    let events = read_events(j, "events")?;
    Some(ContainerResponse::CgroupEvents { events })
}

/// Reads the fields of `ContainerResponse::SecurityStats`.
fn read_response_security_stats(j: &Json) -> (r: Option<ContainerResponse>)
    ensures
        match r {
            Some(x) => canon_response_security_stats(j.view()) == Some(x.json()),
            None => canon_response_security_stats(j.view()) is None,
        },
{
    let stats = read_security(j, "stats")?;
    Some(ContainerResponse::SecurityStats { stats })
}

/// Reads the fields of `ContainerResponse::Deleted`.
fn read_response_deleted(j: &Json) -> (r: Option<ContainerResponse>)
    ensures
        match r {
            Some(x) => canon_response_deleted(j.view()) == Some(x.json()),
            None => canon_response_deleted(j.view()) is None,
        },
{
    let pid: u32 = read_u32(j, "pid")?;
    let exit_code: i32 = read_i32(j, "exit_code")?;
    let exited_at_unix_nano: i64 = read_i64(j, "exited_at_unix_nano")?;
    Some(ContainerResponse::Deleted { pid, exit_code, exited_at_unix_nano })
}

/// Reads the fields of `ContainerResponse::Error`.
fn read_response_error(j: &Json) -> (r: Option<ContainerResponse>)
    ensures
        match r {
            Some(x) => canon_response_error(j.view()) == Some(x.json()),
            None => canon_response_error(j.view()) is None,
        },
{
    let message = read_str(j, "message")?;
    Some(ContainerResponse::Error { message })
}

/// `ContainerResponse::Pong` is read as it is sent.
proof fn lemma_response_pong(x: ContainerResponse)
    requires
        x is Pong,
    ensures
        canon_response(x.json()) == Some(x.json()),
{
    lemma_response_kind_names(ResponseKind::Pong);
    assert(x.json().str_at("result"@) == Some("pong"@));
    assert(x.json() is Obj);
}

/// `ContainerResponse::SandboxResourcesConfigured` is read as it is sent.
proof fn lemma_response_sandbox_resources_configured(x: ContainerResponse)
    requires
        x is SandboxResourcesConfigured,
    ensures
        canon_response(x.json()) == Some(x.json()),
{
    lemma_response_kind_names(ResponseKind::SandboxResourcesConfigured);
    assert(x.json().str_at("result"@) == Some("sandbox-resources-configured"@));
    assert(x.json() is Obj);
}

/// `ContainerResponse::Created` is read as it is sent.
proof fn lemma_response_created(x: ContainerResponse)
    requires
        x is Created,
    ensures
        canon_response(x.json()) == Some(x.json()),
{
    lemma_response_kind_names(ResponseKind::Created);
    reveal_strlit("result");
    reveal_strlit("pid");
    reveal_strlit("container_identity");
    assert("result"@.len() == 6);
    assert("pid"@.len() == 3);
    assert("container_identity"@.len() == 18);
    assert(x.json().str_at("result"@) == Some("created"@));
    assert(x.json() is Obj);
}

/// `ContainerResponse::Started` is read as it is sent.
proof fn lemma_response_started(x: ContainerResponse)
    requires
        x is Started,
    ensures
        canon_response(x.json()) == Some(x.json()),
{
    lemma_response_kind_names(ResponseKind::Started);
    reveal_strlit("result");
    reveal_strlit("pid");
    assert("result"@.len() == 6);
    assert("pid"@.len() == 3);
    assert(x.json().str_at("result"@) == Some("started"@));
    assert(x.json() is Obj);
}

/// `ContainerResponse::ExecStarted` is read as it is sent.
proof fn lemma_response_exec_started(x: ContainerResponse)
    requires
        x is ExecStarted,
    ensures
        canon_response(x.json()) == Some(x.json()),
{
    lemma_response_kind_names(ResponseKind::ExecStarted);
    reveal_strlit("result");
    reveal_strlit("pid");
    assert("result"@.len() == 6);
    assert("pid"@.len() == 3);
    assert(x.json().str_at("result"@) == Some("exec-started"@));
    assert(x.json() is Obj);
}

/// `ContainerResponse::State` is read as it is sent.
proof fn lemma_response_state(x: ContainerResponse)
    requires
        x is State,
    ensures
        canon_response(x.json()) == Some(x.json()),
{
    lemma_response_kind_names(ResponseKind::State);
    reveal_strlit("result");
    reveal_strlit("id");
    reveal_strlit("exec_id");
    reveal_strlit("status");
    reveal_strlit("pid");
    reveal_strlit("exit_code");
    reveal_strlit("exited_at_unix_nano");
    assert("result"@.len() == 6);
    assert("id"@.len() == 2);
    assert("exec_id"@.len() == 7);
    assert("status"@.len() == 6);
    assert("pid"@.len() == 3);
    assert("exit_code"@.len() == 9);
    assert("exited_at_unix_nano"@.len() == 19);
    assert("result"@[0] != "status"@[0]);
    if let ContainerResponse::State { id, exec_id, status, pid, exit_code, exited_at_unix_nano } = x {
        wire::lemma_sent_fields(exec_id, Seq::empty(), Seq::empty());
        lemma_status_names(status);
    }
    assert(x.json().str_at("result"@) == Some("state"@));
    assert(x.json() is Obj);
}

/// `ContainerResponse::Exited` is read as it is sent.
proof fn lemma_response_exited(x: ContainerResponse)
    requires
        x is Exited,
    ensures
        canon_response(x.json()) == Some(x.json()),
{
    lemma_response_kind_names(ResponseKind::Exited);
    reveal_strlit("result");
    reveal_strlit("exit_code");
    reveal_strlit("exited_at_unix_nano");
    assert("result"@.len() == 6);
    assert("exit_code"@.len() == 9);
    assert("exited_at_unix_nano"@.len() == 19);
    assert(x.json().str_at("result"@) == Some("exited"@));
    assert(x.json() is Obj);
}

/// `ContainerResponse::Pids` is read as it is sent.
proof fn lemma_response_pids(x: ContainerResponse)
    requires
        x is Pids,
    ensures
        canon_response(x.json()) == Some(x.json()),
{
    lemma_response_kind_names(ResponseKind::Pids);
    reveal_strlit("result");
    reveal_strlit("pids");
    assert("result"@.len() == 6);
    assert("pids"@.len() == 4);
    if let ContainerResponse::Pids { pids } = x {
        wire::lemma_sent_fields(None, pids@, Seq::empty());
    }
    assert(x.json().str_at("result"@) == Some("pids"@));
    assert(x.json() is Obj);
}

/// `ContainerResponse::Stats` is read as it is sent.
proof fn lemma_response_stats(x: ContainerResponse)
    requires
        x is Stats,
    ensures
        canon_response(x.json()) == Some(x.json()),
{
    lemma_response_kind_names(ResponseKind::Stats);
    reveal_strlit("result");
    reveal_strlit("stats");
    assert("result"@.len() == 6);
    assert("stats"@.len() == 5);
    if let ContainerResponse::Stats { stats } = x {
        law_stats_round_trip(stats);
    }
    assert(x.json().str_at("result"@) == Some("stats"@));
    assert(x.json() is Obj);
}

/// `ContainerResponse::CgroupEvents` is read as it is sent.
proof fn lemma_response_cgroup_events(x: ContainerResponse)
    requires
        x is CgroupEvents,
    ensures
        canon_response(x.json()) == Some(x.json()),
{
    lemma_response_kind_names(ResponseKind::CgroupEvents);
    reveal_strlit("result");
    reveal_strlit("events");
    assert("result"@[0] != "events"@[0]);
    if let ContainerResponse::CgroupEvents { events } = x {
        law_events_round_trip(events);
    }
    assert(x.json().str_at("result"@) == Some("cgroup-events"@));
    assert(x.json() is Obj);
}

/// `ContainerResponse::SecurityStats` is read as it is sent.
proof fn lemma_response_security_stats(x: ContainerResponse)
    requires
        x is SecurityStats,
    ensures
        canon_response(x.json()) == Some(x.json()),
{
    lemma_response_kind_names(ResponseKind::SecurityStats);
    reveal_strlit("result");
    reveal_strlit("stats");
    assert("result"@.len() == 6);
    assert("stats"@.len() == 5);
    if let ContainerResponse::SecurityStats { stats } = x {
        law_security_round_trip(stats);
    }
    assert(x.json().str_at("result"@) == Some("security-stats"@));
    assert(x.json() is Obj);
}

/// `ContainerResponse::ResourcesUpdated` is read as it is sent.
proof fn lemma_response_resources_updated(x: ContainerResponse)
    requires
        x is ResourcesUpdated,
    ensures
        canon_response(x.json()) == Some(x.json()),
{
    lemma_response_kind_names(ResponseKind::ResourcesUpdated);
    assert(x.json().str_at("result"@) == Some("resources-updated"@));
    assert(x.json() is Obj);
}

/// `ContainerResponse::PtyResized` is read as it is sent.
proof fn lemma_response_pty_resized(x: ContainerResponse)
    requires
        x is PtyResized,
    ensures
        canon_response(x.json()) == Some(x.json()),
{
    lemma_response_kind_names(ResponseKind::PtyResized);
    assert(x.json().str_at("result"@) == Some("pty-resized"@));
    assert(x.json() is Obj);
}

/// `ContainerResponse::IoClosed` is read as it is sent.
proof fn lemma_response_io_closed(x: ContainerResponse)
    requires
        x is IoClosed,
    ensures
        canon_response(x.json()) == Some(x.json()),
{
    lemma_response_kind_names(ResponseKind::IoClosed);
    assert(x.json().str_at("result"@) == Some("io-closed"@));
    assert(x.json() is Obj);
}

/// `ContainerResponse::Killed` is read as it is sent.
proof fn lemma_response_killed(x: ContainerResponse)
    requires
        x is Killed,
    ensures
        canon_response(x.json()) == Some(x.json()),
{
    lemma_response_kind_names(ResponseKind::Killed);
    assert(x.json().str_at("result"@) == Some("killed"@));
    assert(x.json() is Obj);
}

/// `ContainerResponse::Paused` is read as it is sent.
proof fn lemma_response_paused(x: ContainerResponse)
    requires
        x is Paused,
    ensures
        canon_response(x.json()) == Some(x.json()),
{
    lemma_response_kind_names(ResponseKind::Paused);
    assert(x.json().str_at("result"@) == Some("paused"@));
    assert(x.json() is Obj);
}

/// `ContainerResponse::Resumed` is read as it is sent.
proof fn lemma_response_resumed(x: ContainerResponse)
    requires
        x is Resumed,
    ensures
        canon_response(x.json()) == Some(x.json()),
{
    lemma_response_kind_names(ResponseKind::Resumed);
    assert(x.json().str_at("result"@) == Some("resumed"@));
    assert(x.json() is Obj);
}

/// `ContainerResponse::Deleted` is read as it is sent.
proof fn lemma_response_deleted(x: ContainerResponse)
    requires
        x is Deleted,
    ensures
        canon_response(x.json()) == Some(x.json()),
{
    lemma_response_kind_names(ResponseKind::Deleted);
    reveal_strlit("result");
    reveal_strlit("pid");
    reveal_strlit("exit_code");
    reveal_strlit("exited_at_unix_nano");
    assert("result"@.len() == 6);
    assert("pid"@.len() == 3);
    assert("exit_code"@.len() == 9);
    assert("exited_at_unix_nano"@.len() == 19);
    assert(x.json().str_at("result"@) == Some("deleted"@));
    assert(x.json() is Obj);
}

/// `ContainerResponse::Error` is read as it is sent.
proof fn lemma_response_error(x: ContainerResponse)
    requires
        x is Error,
    ensures
        canon_response(x.json()) == Some(x.json()),
{
    lemma_response_kind_names(ResponseKind::Error);
    reveal_strlit("result");
    reveal_strlit("message");
    assert("result"@.len() == 6);
    assert("message"@.len() == 7);
    assert(x.json().str_at("result"@) == Some("error"@));
    assert(x.json() is Obj);
}

/// A `ContainerResponse` that is sent is read as the same message.
pub proof fn law_response_round_trip(x: ContainerResponse)
    ensures
        canon_response(x.json()) == Some(x.json()),
{
    match x {
        ContainerResponse::Pong => {
            lemma_response_pong(x);
        },
        ContainerResponse::SandboxResourcesConfigured => {
            lemma_response_sandbox_resources_configured(x);
        },
        ContainerResponse::Created { .. } => {
            lemma_response_created(x);
        },
        ContainerResponse::Started { .. } => {
            lemma_response_started(x);
        },
        ContainerResponse::ExecStarted { .. } => {
            lemma_response_exec_started(x);
        },
        ContainerResponse::State { .. } => {
            lemma_response_state(x);
        },
        ContainerResponse::Exited { .. } => {
            lemma_response_exited(x);
        },
        ContainerResponse::Pids { .. } => {
            lemma_response_pids(x);
        },
        ContainerResponse::Stats { .. } => {
            lemma_response_stats(x);
        },
        ContainerResponse::CgroupEvents { .. } => {
            lemma_response_cgroup_events(x);
        },
        ContainerResponse::SecurityStats { .. } => {
            lemma_response_security_stats(x);
        },
        ContainerResponse::ResourcesUpdated => {
            lemma_response_resources_updated(x);
        },
        ContainerResponse::PtyResized => {
            lemma_response_pty_resized(x);
        },
        ContainerResponse::IoClosed => {
            lemma_response_io_closed(x);
        },
        ContainerResponse::Killed => {
            lemma_response_killed(x);
        },
        ContainerResponse::Paused => {
            lemma_response_paused(x);
        },
        ContainerResponse::Resumed => {
            lemma_response_resumed(x);
        },
        ContainerResponse::Deleted { .. } => {
            lemma_response_deleted(x);
        },
        ContainerResponse::Error { .. } => {
            lemma_response_error(x);
        },
    }
}

} // verus!
