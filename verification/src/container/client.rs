//! The host's side: where the agent of a virtual machine is reached, and how the
//! conversation with it goes.

use vstd::prelude::*;

use crate::container::line;
use crate::container::line::{
    decode_ack, decode_response, encode_attach, encode_envelope, ContainerEnvelope, DecodeError,
};
use crate::container::protocol;
use crate::container::protocol::{
    ContainerRequest, ContainerResponse, IoStreamAck, IoStreamAttach,
    DEFAULT_CONTAINER_AGENT_PORT, DEFAULT_CONTAINER_STREAM_PORT,
};
use crate::json::Js;
use crate::text;
use crate::text::{cat, chars_of, debug_quoted, starts_with, to_upper, trim, u64_text};
use crate::vm::BackendKind;

verus! {

/// The settings of the agent in a virtual machine.
#[derive(Debug)]
pub struct AgentSettings {
    pub enabled: bool,
    pub token: Option<String>,
}

/// What is known of a virtual machine that its agent is reached by.
#[derive(Debug)]
pub struct VmEndpoint {
    pub agent: Option<AgentSettings>,
    pub guest_cid: Option<u32>,
    pub backend: BackendKind,
    /// The socket of the program that relays connections.
    pub vsock_socket: Option<String>,
}

/// Where to connect.
#[derive(Debug)]
pub enum Endpoint {
    /// To the virtual machine.
    Native { cid: u32, port: u32 },
    /// To the relaying program.
    Proxy { socket: String, port: u32 },
}

/// The reading of a place to connect to.
pub ghost enum Place {
    Native(u32, u32),
    Proxy(Seq<char>, u32),
}

impl Endpoint {
    pub open spec fn view(self) -> Place {
        match self {
            Endpoint::Native { cid, port } => Place::Native(cid, port),
            Endpoint::Proxy { socket, port } => Place::Proxy(socket@, port),
        }
    }
}

/// The settings of an agent that is enabled.
pub open spec fn enabled_agent(vm: VmEndpoint) -> Option<AgentSettings> {
    match vm.agent {
        Some(a) => if a.enabled {
            Some(a)
        } else {
            None
        },
        None => None,
    }
}

/// Where the agent of a virtual machine listens on `port`.
pub open spec fn place_of(vm: VmEndpoint, port: u32) -> Result<Place, Seq<char>> {
    match enabled_agent(vm) {
        None => Err("FluxVM guest agent must be enabled for secure containers"@),
        Some(_) => match vm.guest_cid {
            None => Err("VM has no vsock CID assigned"@),
            Some(cid) => match vm.backend {
                BackendKind::Qemu => Ok(Place::Native(cid, port)),
                BackendKind::Auto => Err("unresolved FluxVM backend"@),
                _ => match vm.vsock_socket {
                    Some(socket) => Ok(Place::Proxy(socket@, port)),
                    None => Err("VM has no vsock proxy socket recorded"@),
                },
            },
        },
    }
}

/// The secret of a virtual machine.
pub open spec fn secret_of(vm: VmEndpoint) -> Option<Seq<char>> {
    match enabled_agent(vm) {
        Some(a) => text::optional_string(a.token),
        None => None,
    }
}

/// A connection to make, and the line to send first.
#[derive(Debug)]
pub struct Opening {
    pub endpoint: Endpoint,
    pub line: String,
}

impl VmEndpoint {
    /// Tells whether the virtual machine has an agent. Where it has none there is no use in
    /// trying again.
    pub fn has_agent(&self) -> (r: bool)
        ensures
            r == (enabled_agent(*self) is Some),
    {
        match &self.agent {
            Some(a) => a.enabled,
            None => false,
        }
    }

    /// Where the agent listens on `port`, and the secret to send.
    fn locate(&self, port: u32) -> (r: Result<(Endpoint, Option<String>), String>)
        ensures
            match (r, place_of(*self, port)) {
                (Ok((e, t)), Ok(p)) => e.view() == p && text::optional_string(t) == secret_of(*self),
                (Err(m), Err(e)) => m@ == e,
                _ => false,
            },
    {
        let agent = match &self.agent {
            Some(a) => if a.enabled {
                a
            } else {
                return Err(
                    "FluxVM guest agent must be enabled for secure containers".to_owned(),
                );
            },
            None => {
                return Err(
                    "FluxVM guest agent must be enabled for secure containers".to_owned(),
                );
            },
        };
        let token = match &agent.token {
            Some(t) => Some(t.clone()),
            None => None,
        };
        let cid: u32 = match self.guest_cid {
            None => {
                return Err("VM has no vsock CID assigned".to_owned());
            },
            Some(cid) => cid,
        };
        match self.backend {
            BackendKind::Qemu => Ok((Endpoint::Native { cid, port }, token)),
            BackendKind::Auto => Err("unresolved FluxVM backend".to_owned()),
            _ => match &self.vsock_socket {
                Some(socket) => Ok((Endpoint::Proxy { socket: socket.clone(), port }, token)),
                None => Err("VM has no vsock proxy socket recorded".to_owned()),
            },
        }
    }

    /// The connection for a request, which carries the secret of the virtual machine.
    /// The agent reads the line as that request.
    pub fn call(&self, request: ContainerRequest) -> (r: Result<Opening, String>)
        ensures
            match (r, place_of(*self, DEFAULT_CONTAINER_AGENT_PORT)) {
                (Ok(o), Ok(p)) => o.endpoint.view() == p && exists|x: ContainerEnvelope|
                    #![trigger x.json()]
                    x.request == request && text::optional_string(x.token) == secret_of(*self)
                        && o.line@ == line::line_of(x.form()) && line::carries_envelope(
                        o.line@,
                        x,
                    ),
                (Err(m), Err(e)) => m@ == e,
                _ => false,
            },
    {
        match self.locate(DEFAULT_CONTAINER_AGENT_PORT) {
            Err(e) => Err(e),
            Ok((endpoint, token)) => {
                let x = ContainerEnvelope { token, request };
                let line = encode_envelope(&x);
                assert(line@ == line::line_of(x.form()));
                Ok(Opening { endpoint, line })
            },
        }
    }

    /// The connection for a stream; the request to attach gets the secret of the
    /// virtual machine. The agent reads the line as that request.
    pub fn open_stream(&self, attach: IoStreamAttach) -> (r: Result<Opening, String>)
        ensures
            match (r, place_of(*self, DEFAULT_CONTAINER_STREAM_PORT)) {
                (Ok(o), Ok(p)) => o.endpoint.view() == p && exists|x: IoStreamAttach|
                    #![trigger x.json()]
                    x.id == attach.id && x.exec_id == attach.exec_id && x.stream == attach.stream
                        && text::optional_string(x.token) == secret_of(*self) && o.line@
                        == line::line_of(x.form()) && line::carries_attach(o.line@, x),
                (Err(m), Err(e)) => m@ == e,
                _ => false,
            },
    {
        match self.locate(DEFAULT_CONTAINER_STREAM_PORT) {
            Err(e) => Err(e),
            Ok((endpoint, token)) => {
                let x = IoStreamAttach {
                    token,
                    id: attach.id,
                    exec_id: attach.exec_id,
                    stream: attach.stream,
                };
                let line = encode_attach(&x);
                assert(line@ == line::line_of(x.form()));
                Ok(Opening { endpoint, line })
            },
        }
    }
}

/// The line that asks the relaying program for a port.
pub fn connect_line(port: u32) -> (r: String)
    ensures
        r@ == "CONNECT "@ + text::decimal_text(port as nat) + "\n"@,
{
    cat(cat("CONNECT ", u64_text(port as u64).as_str()).as_str(), "\n")
}

/// The relaying program has opened the port.
pub open spec fn proxy_accepts(line: Seq<char>) -> bool {
    text::has_prefix(text::upper(text::trim_of(line)), "OK"@)
}

/// Judges the answer of the relaying program.
pub fn check_proxy(port: u32, line: &str) -> (r: Result<(), String>)
    ensures
        match r {
            Ok(_) => proxy_accepts(line@),
            Err(m) => !proxy_accepts(line@) && m@ == "vsock proxy refused port "@
                + text::decimal_text(port as nat) + ": "@ + text::debug_text(text::trim_of(line@)),
        },
{
    let answer = trim(line);
    if starts_with(to_upper(answer.as_str()).as_str(), "OK") {
        Ok(())
    } else {
        let head = cat("vsock proxy refused port ", u64_text(port as u64).as_str());
        Err(cat(cat(head.as_str(), ": ").as_str(), debug_quoted(answer.as_str()).as_str()))
    }
}

/// The longest line of a handshake, in bytes.
pub const MAX_HANDSHAKE_BYTES: usize = 65_536;

/// The line of a handshake as it is received byte by byte.
#[derive(Debug)]
pub struct HandshakeLine {
    pub bytes: Vec<u8>,
}

/// What follows a byte of a handshake.
#[derive(Debug, Clone, Copy, PartialEq, Eq, Structural)]
pub enum HandshakeStep {
    /// The line goes on.
    More,
    /// The line is complete.
    Complete,
    /// The line is too long.
    TooLarge,
}

impl HandshakeLine {
    /// A line of which nothing was received.
    pub fn new() -> (r: HandshakeLine)
        ensures
            r.bytes@.len() == 0,
    {
        HandshakeLine { bytes: Vec::new() }
    }

    /// Takes the next byte, or the end of what is received.
    pub fn feed(&mut self, byte: Option<u8>) -> (r: HandshakeStep)
        requires
            old(self).bytes.len() <= MAX_HANDSHAKE_BYTES,
        ensures
            match byte {
                None => r is Complete && *final(self) == *old(self),
                Some(b) => if b == 10 {
                    r is Complete && *final(self) == *old(self)
                } else {
                    &&& final(self).bytes@ == old(self).bytes@.push(b)
                    &&& r == if final(self).bytes@.len() > MAX_HANDSHAKE_BYTES {
                        HandshakeStep::TooLarge
                    } else {
                        HandshakeStep::More
                    }
                },
            },
    {
        match byte {
            None => HandshakeStep::Complete,
            Some(b) => if b == 10 {
                HandshakeStep::Complete
            } else {
                self.bytes.push(b);
                if self.bytes.len() > MAX_HANDSHAKE_BYTES {
                    HandshakeStep::TooLarge
                } else {
                    HandshakeStep::More
                }
            },
        }
    }
}

/// What an attempt to read from the agent gives.
#[derive(Debug, Clone, Copy, PartialEq, Eq, Structural)]
pub enum Received {
    Byte(u8),
    /// The agent has closed the connection.
    End,
    /// Nothing came in time.
    Nothing,
    /// The connection is broken.
    Failure,
}

/// What follows an attempt to read from the agent.
#[derive(Debug, Clone, Copy, PartialEq, Eq, Structural)]
pub enum ReplyStep {
    /// The line goes on.
    More,
    /// The line is complete.
    Complete,
    /// There will be no line.
    Failed,
}

/// The agent's answer as it is received byte by byte.
#[derive(Debug)]
pub struct ReplyLine {
    pub bytes: Vec<u8>,
}

/// What is received so far, after an attempt to read.
pub open spec fn reply_bytes(bytes: Seq<u8>, read: Received) -> Seq<u8> {
    match read {
        Received::Byte(b) => if b == 10 {
            bytes
        } else {
            bytes.push(b)
        },
        _ => bytes,
    }
}

/// What follows an attempt to read: a line feed or the end of the connection completes the
/// line, and silence ends the wait for it when no time remains.
pub open spec fn reply_step(read: Received, remaining: u64) -> ReplyStep {
    match read {
        Received::Byte(b) => if b == 10 {
            ReplyStep::Complete
        } else {
            ReplyStep::More
        },
        Received::End => ReplyStep::Complete,
        Received::Nothing => if remaining > 0 {
            ReplyStep::More
        } else {
            ReplyStep::Failed
        },
        Received::Failure => ReplyStep::Failed,
    }
}

impl ReplyLine {
    /// A line of which nothing was received.
    pub fn new() -> (r: ReplyLine)
        ensures
            r.bytes@.len() == 0,
    {
        ReplyLine { bytes: Vec::new() }
    }

    /// Takes what an attempt to read gives. `remaining` is the time to the deadline.
    pub fn feed(&mut self, read: Received, remaining: u64) -> (r: ReplyStep)
        ensures
            final(self).bytes@ == reply_bytes(old(self).bytes@, read),
            r == reply_step(read, remaining),
    {
        match read {
            Received::Byte(b) => if b == 10 {
                ReplyStep::Complete
            } else {
                self.bytes.push(b);
                ReplyStep::More
            },
            Received::End => ReplyStep::Complete,
            Received::Nothing => if remaining > 0 {
                ReplyStep::More
            } else {
                ReplyStep::Failed
            },
            Received::Failure => ReplyStep::Failed,
        }
    }
}

/// Why a stream was not attached.
#[derive(Debug)]
pub enum AttachError {
    /// The answer is none.
    Unreadable(DecodeError),
    /// The agent refuses.
    Refused(String),
}

/// The words for a refusal.
pub open spec fn refusal_text(message: Option<Seq<char>>) -> Seq<char> {
    "container stream attach failed: "@ + match message {
        Some(m) => m,
        None => "unknown error"@,
    }
}

/// Judges the agent's answer to a request to attach. `fault` is what the typed reader of
/// messages has against the line.
pub fn validate_stream_ack(line: &str, fault: Option<String>) -> (r: Result<(), AttachError>)
    ensures
        if fault is Some {
            r matches Err(AttachError::Unreadable(x)) && line::is_refused(x, fault->0@)
        } else {
            match line::line_value(line@, |j: Js| protocol::canon_ack(j)) {
                Err(e) => r matches Err(AttachError::Unreadable(x)) && line::agrees_error(x, e),
                Ok(j) => exists|x: IoStreamAck|
                    #![trigger x.json()]
                    x.json() == j && if x.ok {
                        r is Ok
                    } else {
                        r matches Err(AttachError::Refused(m)) && m@ == refusal_text(
                            text::optional_string(x.message),
                        )
                    },
            }
        },
{
    if let Some(fault) = fault {
        return Err(AttachError::Unreadable(DecodeError::Refused(fault)));
    }
    match decode_ack(line) {
        Err(e) => Err(AttachError::Unreadable(e)),
        Ok(x) => {
            assert(x.json() == x.json());
            if x.ok {
                Ok(())
            } else {
                let head = "container stream attach failed: ";
                match &x.message {
                    Some(m) => Err(AttachError::Refused(cat(head, m.as_str()))),
                    None => Err(AttachError::Refused(cat(head, "unknown error"))),
                }
            }
        },
    }
}

/// What the agent's line says.
#[derive(Debug)]
pub enum ReplyError {
    /// There is no line.
    Closed,
    /// The line is no response.
    Unreadable(DecodeError),
}

/// The words for an agent that says nothing.
pub fn closed_text() -> (r: String)
    ensures
        r@ == "container agent closed without a response"@,
{
    "container agent closed without a response".to_owned()
}

/// Reads the agent's answer to a request. `fault` is what the typed reader of messages has
/// against the line.
pub fn read_reply(line: &str, fault: Option<String>) -> (r: Result<ContainerResponse, ReplyError>)
    ensures
        if line@.len() == 0 {
            r matches Err(ReplyError::Closed)
        } else if fault is Some {
            r matches Err(ReplyError::Unreadable(x)) && line::is_refused(x, fault->0@)
        } else {
            match (r, line::line_value(line@, |j: Js| protocol::canon_response(j))) {
                (Ok(x), Ok(j)) => x.json() == j,
                (Err(ReplyError::Unreadable(x)), Err(e)) => line::agrees_error(x, e),
                _ => false,
            }
        },
{
    if chars_of(line).len() == 0 {
        return Err(ReplyError::Closed);
    }
    if let Some(fault) = fault {
        return Err(ReplyError::Unreadable(DecodeError::Refused(fault)));
    }
    match decode_response(line) {
        Ok(x) => Ok(x),
        Err(e) => Err(ReplyError::Unreadable(e)),
    }
}

/// Why a ping failed.
#[derive(Debug)]
pub enum PingError {
    /// The agent reports an error.
    Agent(String),
    /// The answer is another one.
    Unexpected(ContainerResponse),
}

/// Judges the answer to a ping.
pub fn ping(response: ContainerResponse) -> (r: Result<(), PingError>)
    ensures
        match response {
            ContainerResponse::Pong => r is Ok,
            ContainerResponse::Error { message } => r matches Err(PingError::Agent(m)) && m@
                == "container agent: "@ + message@,
            other => r == Err::<(), PingError>(PingError::Unexpected(other)),
        },
{
    match response {
        ContainerResponse::Pong => Ok(()),
        ContainerResponse::Error { message } => Err(
            PingError::Agent(cat("container agent: ", message.as_str())),
        ),
        other => Err(PingError::Unexpected(other)),
    }
}

pub const EAGAIN: i32 = 11;

pub const ECONNRESET: i32 = 104;

pub const ECONNREFUSED: i32 = 111;

/// The errors after which a connection is tried again.
pub open spec fn is_transient(errno: i32) -> bool {
    errno == EAGAIN || errno == ECONNRESET || errno == ECONNREFUSED
}

/// How long to wait, in milliseconds, before the next attempt to connect: longer after
/// each attempt, but not past the deadline. `remaining` is the time to the deadline.
pub open spec fn backoff_of(errno: i32, attempt: nat, remaining: nat) -> Option<nat> {
    if !is_transient(errno) || remaining == 0 {
        None
    } else if 50 * (attempt + 1) < remaining {
        Some(50 * (attempt + 1))
    } else {
        Some(remaining)
    }
}

/// How long to wait before the next attempt to connect.
pub fn connect_backoff(errno: i32, attempt: u32, remaining: u64) -> (r: Option<u64>)
    ensures
        match r {
            Some(n) => backoff_of(errno, attempt as nat, remaining as nat) == Some(n as nat),
            None => backoff_of(errno, attempt as nat, remaining as nat) is None,
        },
{
    let transient = errno == EAGAIN || errno == ECONNRESET || errno == ECONNREFUSED;
    if !transient || remaining == 0 {
        None
    } else {
        let wait: u64 = 50 * (attempt as u64 + 1);
        if wait < remaining {
            Some(wait)
        } else {
            Some(remaining)
        }
    }
}

/// The pause between two attempts to attach to a stream, in milliseconds.
pub const ATTACH_PAUSE_MILLIS: u64 = 25;

/// Attempts to connect never outlast the deadline, and end after it.
pub proof fn law_backoff_meets_the_deadline(errno: i32, attempt: nat, remaining: nat)
    ensures
        match backoff_of(errno, attempt, remaining) {
            Some(n) => 0 < n <= remaining && is_transient(errno),
            None => remaining == 0 || !is_transient(errno),
        },
{
}

} // verus!
