//! How single requests are carried out.

use std::collections::VecDeque;

use vstd::prelude::*;

use crate::api::auth;
use crate::api::auth::ApiError;
use crate::json;
use crate::json::{Js, Json};
use crate::text;
use crate::text::{cat, same, u64_text};
use crate::vm::BackendKind;

verus! {

// ---------------------------------------------------------------------------
// Requests to a program in a sandbox
// ---------------------------------------------------------------------------

/// The longest body that is passed on, in bytes.
pub const MAX_PROXY_BODY: usize = 16_777_216;

/// What a request to a sandbox can fail at.
#[derive(Debug, Clone, Copy)]
pub enum ProxyStage {
    /// The sandbox could not be woken.
    Wake,
    /// The body of the request could not be read.
    Body,
    /// The program in the sandbox could not be reached.
    Upstream,
}

impl ProxyStage {
    /// The status of the answer.
    pub open spec fn status(self) -> u16 {
        match self {
            ProxyStage::Wake => 502,
            ProxyStage::Body => 400,
            ProxyStage::Upstream => 502,
        }
    }

    /// What stands in front of the cause.
    pub open spec fn prefix(self) -> Seq<char> {
        match self {
            ProxyStage::Wake => "resume/get sandbox: "@,
            ProxyStage::Body => "body: "@,
            ProxyStage::Upstream => "guest upstream: "@,
        }
    }

    /// Answers a request that failed here.
    pub fn fault(&self, cause: &str) -> (r: ApiError)
        ensures
            auth::answers(r, self.status(), self.prefix() + cause@),
    {
        match self {
            ProxyStage::Wake => ApiError {
                status: 502,
                message: cat("resume/get sandbox: ", cause),
            },
            ProxyStage::Body => ApiError { status: 400, message: cat("body: ", cause) },
            ProxyStage::Upstream => ApiError {
                status: 502,
                message: cat("guest upstream: ", cause),
            },
        }
    }
}

/// The query of an address, with its mark.
pub open spec fn query_part(query: Option<Seq<char>>) -> Seq<char> {
    match query {
        Some(q) => "?"@ + q,
        None => ""@,
    }
}

/// Where a request to a sandbox goes.
pub open spec fn proxy_address(
    guest_ip: Seq<char>,
    port: u16,
    path: Seq<char>,
    query: Option<Seq<char>>,
) -> Seq<char> {
    "http://"@ + guest_ip + ":"@ + text::decimal_text(port as nat) + "/"@ + path + query_part(
        query,
    )
}

/// Why a sandbox without an address cannot be asked.
pub open spec fn no_address() -> Seq<char> {
    "sandbox has no guest_ip (use network.mode=tap with netns for HTTP proxy)"@
}

/// Settles where a request to a sandbox goes, or how it is answered where it goes nowhere.
/// `woken` is the sandbox's address, if it has one, or why it could not be woken.
pub fn plan_proxy(
    woken: &Result<Option<String>, String>,
    port: u16,
    path: &str,
    query: Option<&str>,
) -> (r: Result<String, ApiError>)
    ensures
        match *woken {
            Err(cause) => r matches Err(e) && auth::answers(
                e,
                502,
                "resume/get sandbox: "@ + cause@,
            ),
            Ok(None) => r matches Err(e) && auth::answers(e, 400, no_address()),
            Ok(Some(ip)) => r matches Ok(url) && url@ == proxy_address(
                ip@,
                port,
                path@,
                text::optional(query),
            ),
        },
{
    match woken {
        Err(cause) => Err(ProxyStage::Wake.fault(cause.as_str())),
        Ok(None) => Err(
            ApiError::bad_request(
                "sandbox has no guest_ip (use network.mode=tap with netns for HTTP proxy)",
            ),
        ),
        Ok(Some(ip)) => {
            let mut url = String::new();
            url.append("http://");
            url.append(ip.as_str());
            url.append(":");
            url.append(u64_text(port as u64).as_str());
            url.append("/");
            url.append(path);
            match query {
                Some(q) => {
                    url.append("?");
                    url.append(q);
                },
                None => {
                    url.append("");
                },
            }
            assert(url@ =~= proxy_address(ip@, port, path@, text::optional(query)));
            Ok(url)
        },
    }
}

/// Tells whether a header is passed on to the sandbox. Its name is in lower case.
pub fn passes_header(name: &str) -> (r: bool)
    ensures
        r == (name@ != "host"@),
{
    !same(name, "host")
}

/// Gives the port at which a sandbox is asked: its own, or the usual one where the sandbox
/// is not known.
pub fn proxy_port(own: Option<u16>, usual: u16) -> (r: u16)
    ensures
        r == (match own {
            Some(p) => p,
            None => usual,
        }),
{
    match own {
        Some(p) => p,
        None => usual,
    }
}

// ---------------------------------------------------------------------------
// Readiness
// ---------------------------------------------------------------------------

/// The report of a node that could not be asked.
pub open spec fn unready_report(cause: Seq<char>) -> Js {
    json::no_members().with("ok"@, Js::Bool(false)).with("error"@, Js::Str(cause))
}

/// A report says that the node is ready.
pub open spec fn says_ready(report: Js) -> bool {
    report.bool_at("ok"@) == Some(true)
}

/// Answers whether the node is ready, by what it reports of itself or by why it could not
/// be asked.
pub fn readyz(report: Result<Json, String>) -> (r: (u16, Json))
    ensures
        r.1.view() == (match report {
            Ok(j) => j.view(),
            Err(cause) => unready_report(cause@),
        }),
        r.0 == (if says_ready(r.1.view()) {
            200u16
        } else {
            503u16
        }),
{
    let body = match report {
        Ok(j) => j,
        Err(cause) => Json::object().with("ok", Json::Bool(false)).with(
            "error",
            Json::text(cause.as_str()),
        ),
    };
    let status: u16 = match body.bool_at("ok") {
        Some(b) => if b {
            200
        } else {
            503
        },
        None => 503,
    };
    (status, body)
}

/// A node that could not be asked is never ready.
pub proof fn law_silence_is_not_readiness(cause: Seq<char>)
    ensures
        !says_ready(unready_report(cause)),
{
    let bare = Map::<Seq<char>, Js>::empty().insert("ok"@, Js::Bool(false));
    reveal_strlit("ok");
    reveal_strlit("error");
    assert("ok"@.len() != "error"@.len());
    assert(unready_report(cause) == Js::Obj(bare.insert("error"@, Js::Str(cause))));
}

// ---------------------------------------------------------------------------
// Commands in the guest
// ---------------------------------------------------------------------------

/// What is run in the guest.
#[derive(Debug)]
pub enum GuestCommand {
    /// A line for the guest's shell.
    Powershell(String),
    /// A program with its arguments.
    Program { path: String, args: Vec<String> },
}

/// Settles what is run in the guest. A line for the shell goes before a program.
pub fn guest_command(path: Option<String>, args: Vec<String>, powershell: Option<String>) -> (r:
    Result<GuestCommand, ApiError>)
    ensures
        match (powershell, path) {
            (Some(line), _) => r == Ok::<GuestCommand, ApiError>(GuestCommand::Powershell(line)),
            (None, Some(p)) => r == Ok::<GuestCommand, ApiError>(
                GuestCommand::Program { path: p, args },
            ),
            (None, None) => r matches Err(e) && auth::answers(
                e,
                400,
                "qga exec requires `path` or `powershell`"@,
            ),
        },
{
    match powershell {
        Some(line) => Ok(GuestCommand::Powershell(line)),
        None => match path {
            Some(p) => Ok(GuestCommand::Program { path: p, args }),
            None => Err(ApiError::bad_request("qga exec requires `path` or `powershell`")),
        },
    }
}

// ---------------------------------------------------------------------------
// The console
// ---------------------------------------------------------------------------

/// What comes in over the connection of a console.
#[derive(Debug, Clone, Copy, PartialEq, Eq, Structural)]
pub enum FrameKind {
    Binary,
    Text,
    Close,
    /// Anything else.
    Other,
}

/// What becomes of it.
#[derive(Debug, Clone, Copy, PartialEq, Eq, Structural)]
pub enum RelayStep {
    /// Its bytes go to the guest.
    Forward,
    /// Nothing.
    Skip,
    /// The console ends.
    End,
}

/// Decides what becomes of what comes in: texts and bytes go to the guest alike.
pub fn relay_step(kind: FrameKind) -> (r: RelayStep)
    ensures
        r == (match kind {
            FrameKind::Binary => RelayStep::Forward,
            FrameKind::Text => RelayStep::Forward,
            FrameKind::Close => RelayStep::End,
            FrameKind::Other => RelayStep::Skip,
        }),
{
    match kind {
        FrameKind::Binary => RelayStep::Forward,
        FrameKind::Text => RelayStep::Forward,
        FrameKind::Close => RelayStep::End,
        FrameKind::Other => RelayStep::Skip,
    }
}

// ---------------------------------------------------------------------------
// The end of a log
// ---------------------------------------------------------------------------

/// The last lines.
pub open spec fn last_of<T>(lines: Seq<T>, limit: nat) -> Seq<T> {
    if lines.len() <= limit {
        lines
    } else {
        lines.skip(lines.len() - limit)
    }
}

/// The end of a log, gathered line by line.
#[derive(Debug)]
pub struct LogTail {
    limit: usize,
    lines: VecDeque<String>,
}

impl LogTail {
    /// How many lines are kept.
    pub closed spec fn limit(self) -> nat {
        self.limit as nat
    }

    /// The lines that are kept.
    pub closed spec fn kept(self) -> Seq<String> {
        self.lines@
    }

    /// No more lines are kept than are asked for.
    pub open spec fn wf(self) -> bool {
        self.limit() > 0 && self.kept().len() <= self.limit()
    }

    /// An empty end, for so many lines, but for one at least.
    pub fn new(lines: usize) -> (r: LogTail)
        ensures
            r.wf(),
            r.limit() == (if lines == 0 {
                1
            } else {
                lines as nat
            }),
            r.kept() == Seq::<String>::empty(),
    {
        LogTail {
            limit: if lines == 0 {
                1
            } else {
                lines
            },
            lines: VecDeque::new(),
        }
    }

    /// Takes the next line of the log, and lets go of the oldest one where there are too
    /// many.
    pub fn push(&mut self, line: String)
        requires
            old(self).wf(),
        ensures
            final(self).wf(),
            final(self).limit() == old(self).limit(),
            final(self).kept() == last_of(old(self).kept().push(line), old(self).limit()),
    {
        if self.lines.len() == self.limit {
            let _ = self.lines.pop_front();
        }
        self.lines.push_back(line);
        assert(self.kept() =~= last_of(old(self).kept().push(line), old(self).limit()));
    }

    /// Hands out the lines, the oldest first.
    pub fn finish(self) -> (r: VecDeque<String>)
        ensures
            r@ == self.kept(),
    {
        self.lines
    }
}

/// What is kept of a log is its end: a further line leaves the end of the longer log.
pub proof fn law_tail_is_the_end<T>(log: Seq<T>, line: T, limit: nat)
    requires
        limit > 0,
    ensures
        last_of(last_of(log, limit).push(line), limit) == last_of(log.push(line), limit),
{
    assert(last_of(last_of(log, limit).push(line), limit) =~= last_of(log.push(line), limit));
}

/// What is kept of a log are its last lines, as many as may be kept, in their order.
pub proof fn law_the_last_lines_are_kept<T>(log: Seq<T>, limit: nat, i: int)
    ensures
        last_of(log, limit).len() <= limit,
        last_of(log, limit).len() == limit || last_of(log, limit).len() == log.len(),
        0 <= i < last_of(log, limit).len() ==> last_of(log, limit)[i] == log[log.len() - last_of(
            log,
            limit,
        ).len() + i],
{
}

// ---------------------------------------------------------------------------
// Services
// ---------------------------------------------------------------------------

/// Answers a request for a service that is not there.
pub fn service_not_found(name: &str) -> (r: ApiError)
    ensures
        auth::answers(r, 404, "service '"@ + name@ + "' not found"@),
{
    ApiError {
        status: 404,
        message: cat(cat("service '", name).as_str(), "' not found"),
    }
}

/// Answers a request for the policy of a service that has none.
pub fn policy_not_found(name: &str) -> (r: ApiError)
    ensures
        auth::answers(r, 404, "service policy '"@ + name@ + "' not found"@),
{
    ApiError {
        status: 404,
        message: cat(cat("service policy '", name).as_str(), "' not found"),
    }
}

/// Answers a request for connections that could not be observed.
pub fn flows_unreadable(cause: &str) -> (r: ApiError)
    ensures
        auth::answers(r, 500, "error: "@ + cause@ + "\n"@),
{
    ApiError { status: 500, message: cat(cat("error: ", cause).as_str(), "\n") }
}

/// From where connections are handed over, and how many at a time.
pub fn delta_window(after_seq: Option<u64>, max_entries: Option<usize>) -> (r: (u64, usize))
    ensures
        r.0 == (match after_seq {
            Some(n) => n,
            None => 0,
        }),
        r.1 == (match max_entries {
            Some(n) => n,
            None => 1024,
        }),
{
    (
        match after_seq {
            Some(n) => n,
            None => 0,
        },
        match max_entries {
            Some(n) => n,
            None => 1024,
        },
    )
}

// ---------------------------------------------------------------------------
// What is taken where a request does not say
// ---------------------------------------------------------------------------

/// How many connections of a virtual machine are shown.
pub fn default_network_flow_limit() -> (r: usize)
    ensures
        r == 100,
{
    100
}

/// How many connections of the services are shown.
pub fn default_service_flow_limit() -> (r: usize)
    ensures
        r == 256,
{
    256
}

/// How many connections are observed.
pub fn default_hubble_limit() -> (r: usize)
    ensures
        r == 64,
{
    64
}

/// Which connections are observed.
pub fn default_all() -> (r: String)
    ensures
        r@ == "all"@,
{
    "all".to_owned()
}

/// How observed connections are written.
pub fn default_hubble_output() -> (r: String)
    ensures
        r@ == "json"@,
{
    "json".to_owned()
}

/// How many lines of a log are shown.
pub fn default_log_lines() -> (r: usize)
    ensures
        r == 100,
{
    100
}

/// The protocol for which a guest's firewall is opened.
pub fn default_fw_proto() -> (r: String)
    ensures
        r@ == "tcp"@,
{
    "tcp".to_owned()
}

/// The width of a console.
pub fn default_console_cols() -> (r: u16)
    ensures
        r == 80,
{
    80
}

/// The height of a console.
pub fn default_console_rows() -> (r: u16)
    ensures
        r == 24,
{
    24
}

/// The format of an image.
pub fn default_catalog_format() -> (r: String)
    ensures
        r@ == "qcow2"@,
{
    "qcow2".to_owned()
}

// ---------------------------------------------------------------------------
// Limits on the rate of requests
// ---------------------------------------------------------------------------

/// What the settings say of a limit on the rate of requests.
#[derive(Debug, Clone, Copy, PartialEq, Eq, Structural)]
pub enum RateSetting {
    /// There is a limit.
    On,
    /// Only one of the two settings is there, so that there is no limit.
    HalfSet,
    /// There is no limit.
    Off,
}

/// Reads the settings of a limit on the rate of requests: it takes both of them.
pub fn rate_setting(has_rate: bool, has_burst: bool) -> (r: RateSetting)
    ensures
        r == (if has_rate && has_burst {
            RateSetting::On
        } else if has_rate != has_burst {
            RateSetting::HalfSet
        } else {
            RateSetting::Off
        }),
{
    if has_rate && has_burst {
        RateSetting::On
    } else if has_rate != has_burst {
        RateSetting::HalfSet
    } else {
        RateSetting::Off
    }
}

// ---------------------------------------------------------------------------
// What a node can do
// ---------------------------------------------------------------------------

/// How virtual machines are moved while they run.
#[derive(Debug)]
pub struct MigrationCapability {
    pub backend: BackendKind,
    pub live: bool,
    pub pre_copy: bool,
    pub post_copy: bool,
    pub multifd: bool,
    pub requires_shared_storage: bool,
    pub transports: Vec<String>,
}

/// What a snapshot holds.
#[derive(Debug, Clone, Copy, PartialEq, Eq, Structural)]
pub struct SnapshotCapability {
    pub backend: BackendKind,
    pub memory: bool,
    pub disk: bool,
    pub portable: bool,
}

/// What a node can do.
#[derive(Debug)]
pub struct RuntimeCapabilities {
    pub api_version: String,
    pub scope: String,
    pub orchestration_owner: String,
    pub migration: Vec<MigrationCapability>,
    pub snapshot: Vec<SnapshotCapability>,
}

/// The snapshots of a program hold memory and disk, or nothing at all. None of them can be
/// carried to another program.
pub open spec fn snapshot_of(backend: BackendKind) -> SnapshotCapability {
    SnapshotCapability {
        backend,
        memory: !(backend is Firecracker),
        disk: !(backend is Firecracker),
        portable: false,
    }
}

/// Tells what a node can do.
pub fn runtime_capabilities() -> (r: RuntimeCapabilities)
    ensures
        r.api_version@ == "runtime.fluxvm.zyvor.io/v1"@,
        r.scope@ == "node-local"@,
        r.orchestration_owner@ == "zyvor-fabric"@,
        r.migration@.len() == 1,
        ({
            let m = r.migration@[0];
            &&& m.backend is Qemu
            &&& m.live && m.pre_copy && m.post_copy && m.multifd && m.requires_shared_storage
            &&& text::views(m.transports@) == seq!["tcp"@, "unix"@]
        }),
        r.snapshot@ == seq![
            snapshot_of(BackendKind::Qemu),
            snapshot_of(BackendKind::CloudHypervisor),
            snapshot_of(BackendKind::Firecracker),
            snapshot_of(BackendKind::FluxVm),
        ],
{
    let mut transports: Vec<String> = Vec::new();
    transports.push("tcp".to_owned());
    transports.push("unix".to_owned());
    assert(text::views(transports@) =~= seq!["tcp"@, "unix"@]);
    let mut migration: Vec<MigrationCapability> = Vec::new();
    migration.push(
        MigrationCapability {
            backend: BackendKind::Qemu,
            live: true,
            pre_copy: true,
            post_copy: true,
            multifd: true,
            requires_shared_storage: true,
            transports,
        },
    );
    let mut snapshot: Vec<SnapshotCapability> = Vec::new();
    snapshot.push(
        SnapshotCapability {
            backend: BackendKind::Qemu,
            memory: true,
            disk: true,
            portable: false,
        },
    );
    snapshot.push(
        SnapshotCapability {
            backend: BackendKind::CloudHypervisor,
            memory: true,
            disk: true,
            portable: false,
        },
    );
    snapshot.push(
        SnapshotCapability {
            backend: BackendKind::Firecracker,
            memory: false,
            disk: false,
            portable: false,
        },
    );
    snapshot.push(
        SnapshotCapability {
            backend: BackendKind::FluxVm,
            memory: true,
            disk: true,
            portable: false,
        },
    );
    RuntimeCapabilities {
        api_version: "runtime.fluxvm.zyvor.io/v1".to_owned(),
        scope: "node-local".to_owned(),
        orchestration_owner: "zyvor-fabric".to_owned(),
        migration,
        snapshot,
    }
}

} // verus!
