//! Virtual machines that Cloud Hypervisor runs: how they are started, resized, saved
//! and sent elsewhere.

use vstd::prelude::*;

use crate::cgroup::util;
use crate::cgroup::util::join;

use crate::json;
use crate::json::{Js, Json};
use crate::text;
use crate::text::{cat, i64_text, starts_with, u64_text};

verus! {

/// The most virtual CPUs that a virtual machine may grow to.
pub const MAX_VCPUS_CEILING: u8 = 254;

/// Memory is added in multiples of so many MiB.
pub const MEMORY_HOTPLUG_ALIGNMENT_MIB: u64 = 128;

/// The time that a command may take, in seconds.
pub const CH_REMOTE_TIMEOUT_SECS: u64 = 10;

/// The time that a request to send a virtual machine may take, in seconds.
pub const CH_SEND_MIGRATION_TIMEOUT_SECS: u64 = 30;

/// The virtual machine that is asked for.
#[derive(Debug)]
pub struct CreateVmRequest {
    pub vcpus: u8,
    pub memory_mib: u64,
    pub max_vcpus: Option<u8>,
    pub max_memory_mib: Option<u64>,
    /// The saved state to start from.
    pub loadvm_tag: Option<String>,
    pub kernel: Option<String>,
    pub initrd: Option<String>,
    pub firmware: Option<String>,
    pub kernel_args: Option<String>,
    pub extra_args: Vec<String>,
    pub hyperv: bool,
    pub qga_enabled: bool,
    pub agent_enabled: bool,
    pub tpm: Option<bool>,
}

/// How a virtual machine is connected.
#[derive(Debug)]
pub enum NetworkSpec {
    /// Not at all.
    Off,
    Tap { tap_name: Option<String>, mac: Option<String> },
    Macvtap { mac: Option<String> },
    User,
}

/// What has been prepared for a virtual machine.
#[derive(Debug)]
pub struct LaunchContext {
    pub workspace: String,
    pub disk: String,
    pub seed_disk: Option<String>,
    pub log_path: String,
    pub network: NetworkSpec,
    pub macvtap_fd: Option<i32>,
    pub guest_cid: Option<u32>,
    pub vsock_socket: Option<String>,
}

// ---------------------------------------------------------------------------
// Arguments
// ---------------------------------------------------------------------------

/// Arguments of a program.
#[derive(Debug)]
pub struct Args {
    pub items: Vec<String>,
}

impl Args {
    pub open spec fn view(self) -> Seq<Seq<char>> {
        text::views(self.items@)
    }

    /// No arguments.
    pub fn new() -> (r: Args)
        ensures
            r.view() == Seq::<Seq<char>>::empty(),
    {
        let r = Args { items: Vec::new() };
        assert(r.view() =~= Seq::<Seq<char>>::empty());
        r
    }

    /// Adds an argument.
    pub fn add_one(&mut self, a: &str)
        ensures
            final(self).view() == old(self).view().push(a@),
    {
        self.items.push(a.to_owned());
        assert(self.view() =~= old(self).view().push(a@));
    }

    /// Adds an option and its value.
    pub fn add_pair(&mut self, name: &str, value: &str)
        ensures
            final(self).view() == old(self).view() + pair(name@, value@),
    {
        self.add_one(name);
        self.add_one(value);
        assert(self.view() =~= old(self).view() + pair(name@, value@));
    }

    /// Adds all of `more`.
    pub fn add_all(&mut self, more: &Vec<String>)
        ensures
            final(self).view() == old(self).view() + text::views(more@),
    {
        let mut i: usize = 0;
        assert(self.view() =~= old(self).view() + text::views(more@.take(0)));
        while i < more.len()
            invariant
                i <= more.len(),
                self.view() == old(self).view() + text::views(more@.take(i as int)),
            decreases more.len() - i,
        {
            self.add_one(more[i].as_str());
            assert(self.view() =~= old(self).view() + text::views(more@.take(i + 1)));
            i += 1;
        }
        assert(more@.take(more.len() as int) =~= more@);
    }
}

/// An option and its value.
pub open spec fn pair(name: Seq<char>, value: Seq<char>) -> Seq<Seq<char>> {
    seq![name, value]
}

/// No arguments.
pub open spec fn nothing() -> Seq<Seq<char>> {
    Seq::empty()
}

/// The socket on which the program takes commands.
pub open spec fn api_socket(workspace: Seq<char>) -> Seq<char> {
    util::path_join(workspace, "ch-api.sock"@)
}

fn api_path(workspace: &str) -> (r: String)
    ensures
        r@ == api_socket(workspace@),
{
    join(workspace, "ch-api.sock")
}

// ---------------------------------------------------------------------------
// Room to grow
// ---------------------------------------------------------------------------

/// The most virtual CPUs that the virtual machine can grow to: twice as many as it
/// starts with where it is not said, but no fewer, and no more than the ceiling.
pub open spec fn vcpu_ceiling(req: CreateVmRequest) -> nat {
    let asked: nat = match req.max_vcpus {
        Some(n) => n as nat,
        None => if req.vcpus as nat * 2 > 255 {
            255
        } else {
            req.vcpus as nat * 2
        },
    };
    let enough = if asked < req.vcpus {
        req.vcpus as nat
    } else {
        asked
    };
    if enough > MAX_VCPUS_CEILING {
        MAX_VCPUS_CEILING as nat
    } else {
        enough
    }
}

/// The most virtual CPUs that the virtual machine can grow to.
pub fn max_vcpus(req: &CreateVmRequest) -> (r: u8)
    ensures
        r == vcpu_ceiling(*req),
{
    let asked: u8 = match req.max_vcpus {
        Some(n) => n,
        None => if req.vcpus > 127 {
            255
        } else {
            req.vcpus * 2
        },
    };
    let enough: u8 = if asked < req.vcpus {
        req.vcpus
    } else {
        asked
    };
    if enough > MAX_VCPUS_CEILING {
        MAX_VCPUS_CEILING
    } else {
        enough
    }
}

/// A number, or the largest one that fits.
pub open spec fn capped(n: nat) -> nat {
    if n > u64::MAX {
        u64::MAX as nat
    } else {
        n
    }
}

/// The most memory that the virtual machine can grow to, in MiB: where it is not said,
/// twice as much as it starts with, and at least 2 GiB more.
pub open spec fn memory_ceiling(req: CreateVmRequest) -> nat {
    match req.max_memory_mib {
        Some(n) => n as nat,
        None => {
            let twice = capped(req.memory_mib as nat * 2);
            let more = capped(req.memory_mib as nat + 2048);
            if twice < more {
                more
            } else {
                twice
            }
        },
    }
}

/// The most memory that the virtual machine can grow to, in MiB.
pub fn max_memory_mib(req: &CreateVmRequest) -> (r: u64)
    ensures
        r == memory_ceiling(*req),
{
    match req.max_memory_mib {
        Some(n) => n,
        None => {
            let twice: u64 = if req.memory_mib > u64::MAX / 2 {
                u64::MAX
            } else {
                req.memory_mib * 2
            };
            let more: u64 = if req.memory_mib > u64::MAX - 2048 {
                u64::MAX
            } else {
                req.memory_mib + 2048
            };
            if twice < more {
                more
            } else {
                twice
            }
        },
    }
}

/// The memory that can be added to a running virtual machine, in MiB.
pub open spec fn hotplug_room(req: CreateVmRequest) -> nat {
    if memory_ceiling(req) > req.memory_mib {
        (memory_ceiling(req) - req.memory_mib) as nat
    } else {
        0
    }
}

/// A virtual machine never has less room than it starts with, and by default can at
/// least double, as far as the ceiling and the numbers reach. (With 255 virtual CPUs it
/// starts with one more than the ceiling.)
pub proof fn law_room_to_grow(req: CreateVmRequest)
    ensures
        vcpu_ceiling(req) <= MAX_VCPUS_CEILING,
        req.vcpus <= MAX_VCPUS_CEILING ==> req.vcpus <= vcpu_ceiling(req),
        req.max_vcpus is None && req.vcpus <= 127 ==> vcpu_ceiling(req) == req.vcpus * 2,
        req.max_memory_mib is None ==> memory_ceiling(req) >= capped(req.memory_mib as nat * 2),
        req.memory_mib + hotplug_room(req) == if memory_ceiling(req) < req.memory_mib {
            req.memory_mib as nat
        } else {
            memory_ceiling(req)
        },
{
}

// ---------------------------------------------------------------------------
// Start
// ---------------------------------------------------------------------------

/// The arguments for a saved state.
pub open spec fn restore_args(ctx: LaunchContext, tag: Seq<char>) -> Seq<Seq<char>> {
    pair("--api-socket"@, api_socket(ctx.workspace@)) + pair(
        "--restore"@,
        "source_url=file://"@ + util::path_join(
            util::path_join(ctx.workspace@, "snapshots"@),
            tag,
        ),
    )
}

/// The virtual CPUs.
pub open spec fn cpus_text(req: CreateVmRequest) -> Seq<char> {
    let base = "boot="@ + text::decimal_text(req.vcpus as nat) + ",max="@ + text::decimal_text(
        vcpu_ceiling(req),
    );
    if req.hyperv {
        base + ",kvm_hyperv=on"@
    } else {
        base
    }
}

/// The memory.
pub open spec fn memory_text(req: CreateVmRequest) -> Seq<char> {
    "size="@ + text::decimal_text(req.memory_mib as nat) + "M,hotplug_size="@
        + text::decimal_text(hotplug_room(req)) + "M"@
}

/// The serial line and the console: a guest agent gets the serial line.
pub open spec fn serial_args(req: CreateVmRequest, ctx: LaunchContext) -> Seq<Seq<char>> {
    if req.qga_enabled {
        pair("--serial"@, "socket="@ + util::path_join(ctx.workspace@, "qga.sock"@)) + pair(
            "--console"@,
            "file="@ + ctx.log_path@,
        )
    } else {
        pair("--serial"@, "file="@ + ctx.log_path@) + pair("--console"@, "off"@)
    }
}

/// The disk with the first settings.
pub open spec fn seed_args(ctx: LaunchContext) -> Seq<Seq<char>> {
    match ctx.seed_disk {
        Some(seed) => pair("--disk"@, "path="@ + seed@ + ",readonly=on"@),
        None => nothing(),
    }
}

/// A network device with its address.
pub open spec fn with_mac(device: Seq<char>, mac: Option<String>) -> Seq<char> {
    match mac {
        Some(m) => device + ",mac="@ + m@,
        None => device,
    }
}

/// The network.
pub open spec fn net_args(ctx: LaunchContext) -> Result<Seq<Seq<char>>, Seq<char>> {
    match ctx.network {
        NetworkSpec::Off => Ok(nothing()),
        NetworkSpec::Tap { tap_name, mac } => match tap_name {
            Some(tap) => Ok(pair("--net"@, with_mac("tap="@ + tap@, mac))),
            None => Err("tap network was not prepared"@),
        },
        NetworkSpec::Macvtap { mac } => match ctx.macvtap_fd {
            Some(fd) => Ok(
                pair("--net"@, with_mac("fd="@ + text::signed_text(fd as int), mac)),
            ),
            None => Err("macvtap network was not prepared"@),
        },
        NetworkSpec::User => Err(
            "Cloud Hypervisor backend requires network.mode=none, tap, or macvtap in this MVP"@,
        ),
    }
}

/// The connection to the agent.
pub open spec fn vsock_args(req: CreateVmRequest, ctx: LaunchContext) -> Result<
    Seq<Seq<char>>,
    Seq<char>,
> {
    if !req.agent_enabled {
        Ok(nothing())
    } else {
        match (ctx.guest_cid, ctx.vsock_socket) {
            (None, _) => Err("agent enabled but no vsock CID was assigned"@),
            (Some(_), None) => Err("agent enabled but no vsock socket path was assigned"@),
            (Some(cid), Some(socket)) => Ok(
                pair(
                    "--vsock"@,
                    "cid="@ + text::decimal_text(cid as nat) + ",socket="@ + socket@,
                ),
            ),
        }
    }
}

/// The security module.
pub open spec fn tpm_args(req: CreateVmRequest, ctx: LaunchContext) -> Seq<Seq<char>> {
    if req.tpm == Some(true) {
        pair("--tpm"@, "socket="@ + util::path_join(ctx.workspace@, "swtpm.sock"@))
    } else {
        nothing()
    }
}

/// An option with an optional value.
pub open spec fn optional_args(name: Seq<char>, value: Option<String>) -> Seq<Seq<char>> {
    match value {
        Some(v) => pair(name, v@),
        None => nothing(),
    }
}

/// What is started: a kernel, or a firmware. The request goes before the settings.
pub open spec fn boot_args(req: CreateVmRequest, default_firmware: Option<String>) -> Result<
    Seq<Seq<char>>,
    Seq<char>,
> {
    match req.kernel {
        Some(kernel) => Ok(
            pair("--kernel"@, kernel@) + optional_args("--initramfs"@, req.initrd) + optional_args(
                "--cmdline"@,
                req.kernel_args,
            ),
        ),
        None => match (req.firmware, default_firmware) {
            (Some(fw), _) => Ok(pair("--firmware"@, fw@)),
            (None, Some(fw)) => Ok(pair("--firmware"@, fw@)),
            (None, None) => Err(
                "Cloud Hypervisor needs req.kernel for direct boot or firmware/config cloud_hypervisor_firmware"@,
            ),
        },
    }
}

/// The arguments of the program, or the first error.
pub open spec fn launch_args(
    default_firmware: Option<String>,
    req: CreateVmRequest,
    ctx: LaunchContext,
) -> Result<Seq<Seq<char>>, Seq<char>> {
    match req.loadvm_tag {
        Some(tag) => Ok(restore_args(ctx, tag@)),
        None => match net_args(ctx) {
            Err(e) => Err(e),
            Ok(net) => match vsock_args(req, ctx) {
                Err(e) => Err(e),
                Ok(vsock) => match boot_args(req, default_firmware) {
                    Err(e) => Err(e),
                    Ok(boot) => Ok(
                        pair("--api-socket"@, api_socket(ctx.workspace@)) + pair(
                            "--cpus"@,
                            cpus_text(req),
                        ) + pair("--memory"@, memory_text(req)) + pair(
                            "--disk"@,
                            "path="@ + ctx.disk@,
                        ) + serial_args(req, ctx) + seed_args(ctx) + net + vsock + tpm_args(
                            req,
                            ctx,
                        ) + boot + text::views(req.extra_args@),
                    ),
                },
            },
        },
    }
}

fn write_cpus(req: &CreateVmRequest) -> (r: String)
    ensures
        r@ == cpus_text(*req),
{
    let head = cat("boot=", u64_text(req.vcpus as u64).as_str());
    let base = cat(cat(head.as_str(), ",max=").as_str(), u64_text(max_vcpus(req) as u64).as_str());
    if req.hyperv {
        cat(base.as_str(), ",kvm_hyperv=on")
    } else {
        base
    }
}

fn write_memory(req: &CreateVmRequest) -> (r: String)
    ensures
        r@ == memory_text(*req),
{
    let top: u64 = max_memory_mib(req);
    let room: u64 = if top > req.memory_mib {
        top - req.memory_mib
    } else {
        0
    };
    let head = cat("size=", u64_text(req.memory_mib).as_str());
    let body = cat(cat(head.as_str(), "M,hotplug_size=").as_str(), u64_text(room).as_str());
    cat(body.as_str(), "M")
}

fn add_serial(a: &mut Args, req: &CreateVmRequest, ctx: &LaunchContext)
    ensures
        final(a).view() == old(a).view() + serial_args(*req, *ctx),
{
    if req.qga_enabled {
        let socket = join(ctx.workspace.as_str(), "qga.sock");
        a.add_pair("--serial", cat("socket=", socket.as_str()).as_str());
        a.add_pair("--console", cat("file=", ctx.log_path.as_str()).as_str());
    } else {
        a.add_pair("--serial", cat("file=", ctx.log_path.as_str()).as_str());
        a.add_pair("--console", "off");
    }
    assert(a.view() =~= old(a).view() + serial_args(*req, *ctx));
}

fn add_seed(a: &mut Args, ctx: &LaunchContext)
    ensures
        final(a).view() == old(a).view() + seed_args(*ctx),
{
    if let Some(seed) = &ctx.seed_disk {
        let path = cat("path=", seed.as_str());
        a.add_pair("--disk", cat(path.as_str(), ",readonly=on").as_str());
    }
    assert(a.view() =~= old(a).view() + seed_args(*ctx));
}

fn device(name: String, mac: &Option<String>) -> (r: String)
    ensures
        r@ == with_mac(name@, *mac),
{
    match mac {
        Some(m) => cat(cat(name.as_str(), ",mac=").as_str(), m.as_str()),
        None => name,
    }
}

/// Adds the network, or returns the error.
fn add_net(a: &mut Args, ctx: &LaunchContext) -> (r: Option<String>)
    ensures
        match net_args(*ctx) {
            Ok(more) => r is None && final(a).view() == old(a).view() + more,
            Err(e) => r matches Some(m) && m@ == e,
        },
{
    match &ctx.network {
        NetworkSpec::Off => {
            assert(a.view() =~= old(a).view() + nothing());
            None
        },
        NetworkSpec::Tap { tap_name, mac } => match tap_name {
            Some(tap) => {
                a.add_pair("--net", device(cat("tap=", tap.as_str()), mac).as_str());
                None
            },
            None => Some("tap network was not prepared".to_owned()),
        },
        NetworkSpec::Macvtap { mac } => match ctx.macvtap_fd {
            Some(fd) => {
                let name = cat("fd=", i64_text(fd as i64).as_str());
                a.add_pair("--net", device(name, mac).as_str());
                None
            },
            None => Some("macvtap network was not prepared".to_owned()),
        },
        NetworkSpec::User => Some(
            "Cloud Hypervisor backend requires network.mode=none, tap, or macvtap in this MVP".to_owned(),
        ),
    }
}

/// Adds the connection to the agent, or returns the error.
fn add_vsock(a: &mut Args, req: &CreateVmRequest, ctx: &LaunchContext) -> (r: Option<String>)
    ensures
        match vsock_args(*req, *ctx) {
            Ok(more) => r is None && final(a).view() == old(a).view() + more,
            Err(e) => r matches Some(m) && m@ == e,
        },
{
    if !req.agent_enabled {
        assert(a.view() =~= old(a).view() + nothing());
        return None;
    }
    let cid: u32 = match ctx.guest_cid {
        None => {
            return Some("agent enabled but no vsock CID was assigned".to_owned());
        },
        Some(cid) => cid,
    };
    match &ctx.vsock_socket {
        None => Some("agent enabled but no vsock socket path was assigned".to_owned()),
        Some(socket) => {
            let head = cat("cid=", u64_text(cid as u64).as_str());
            let value = cat(cat(head.as_str(), ",socket=").as_str(), socket.as_str());
            a.add_pair("--vsock", value.as_str());
            None
        },
    }
}

fn add_tpm(a: &mut Args, req: &CreateVmRequest, ctx: &LaunchContext)
    ensures
        final(a).view() == old(a).view() + tpm_args(*req, *ctx),
{
    if let Some(true) = req.tpm {
        let socket = join(ctx.workspace.as_str(), "swtpm.sock");
        a.add_pair("--tpm", cat("socket=", socket.as_str()).as_str());
    }
    assert(a.view() =~= old(a).view() + tpm_args(*req, *ctx));
}

fn add_optional(a: &mut Args, name: &str, value: &Option<String>)
    ensures
        final(a).view() == old(a).view() + optional_args(name@, *value),
{
    if let Some(v) = value {
        a.add_pair(name, v.as_str());
    }
    assert(a.view() =~= old(a).view() + optional_args(name@, *value));
}

/// Adds what is started, or returns the error.
fn add_boot(a: &mut Args, req: &CreateVmRequest, default_firmware: &Option<String>) -> (r: Option<
    String,
>)
    ensures
        match boot_args(*req, *default_firmware) {
            Ok(more) => r is None && final(a).view() == old(a).view() + more,
            Err(e) => r matches Some(m) && m@ == e,
        },
{
    match &req.kernel {
        Some(kernel) => {
            a.add_pair("--kernel", kernel.as_str());
            add_optional(a, "--initramfs", &req.initrd);
            add_optional(a, "--cmdline", &req.kernel_args);
            proof {
                let more = boot_args(*req, *default_firmware)->Ok_0;
                assert(a.view() =~= old(a).view() + more);
            }
            None
        },
        None => {
            let firmware = match &req.firmware {
                Some(fw) => Some(fw),
                None => match default_firmware {
                    Some(fw) => Some(fw),
                    None => None,
                },
            };
            match firmware {
                Some(fw) => {
                    a.add_pair("--firmware", fw.as_str());
                    None
                },
                None => Some(
                    "Cloud Hypervisor needs req.kernel for direct boot or firmware/config cloud_hypervisor_firmware".to_owned(),
                ),
            }
        },
    }
}

/// The arguments of the program that runs a virtual machine. `default_firmware` is
/// started where the request names nothing.
pub fn build_args(
    default_firmware: &Option<String>,
    req: &CreateVmRequest,
    ctx: &LaunchContext,
) -> (r: Result<Vec<String>, String>)
    ensures
        match (r, launch_args(*default_firmware, *req, *ctx)) {
            (Ok(v), Ok(s)) => text::views(v@) == s,
            (Err(m), Err(e)) => m@ == e,
            _ => false,
        },
{
    let mut a = Args::new();
    let api = api_path(ctx.workspace.as_str());
    a.add_pair("--api-socket", api.as_str());
    if let Some(tag) = &req.loadvm_tag {
        let all = join(ctx.workspace.as_str(), "snapshots");
        let path = join(all.as_str(), tag.as_str());
        a.add_pair("--restore", cat("source_url=file://", path.as_str()).as_str());
        assert(a.view() =~= restore_args(*ctx, tag@));
        return Ok(a.items);
    }
    a.add_pair("--cpus", write_cpus(req).as_str());
    a.add_pair("--memory", write_memory(req).as_str());
    a.add_pair("--disk", cat("path=", ctx.disk.as_str()).as_str());
    let ghost head = a.view();
    assert(head =~= pair("--api-socket"@, api_socket(ctx.workspace@)) + pair(
        "--cpus"@,
        cpus_text(*req),
    ) + pair("--memory"@, memory_text(*req)) + pair("--disk"@, "path="@ + ctx.disk@));
    add_serial(&mut a, req, ctx);
    add_seed(&mut a, ctx);
    if let Some(e) = add_net(&mut a, ctx) {
        return Err(e);
    }
    if let Some(e) = add_vsock(&mut a, req, ctx) {
        return Err(e);
    }
    add_tpm(&mut a, req, ctx);
    if let Some(e) = add_boot(&mut a, req, default_firmware) {
        return Err(e);
    }
    a.add_all(&req.extra_args);
    Ok(a.items)
}

// ---------------------------------------------------------------------------
// What the arguments of the program say
// ---------------------------------------------------------------------------

/// The option stands among the arguments, with the value right behind it.
#[verifier::opaque]
pub open spec fn has_option(args: Seq<Seq<char>>, name: Seq<char>, value: Seq<char>) -> bool {
    exists|i: int| 0 <= i < args.len() - 1 && #[trigger] args[i] == name && args[i + 1] == value
}

/// An option in one of two lists stays in the joined list.
proof fn lemma_option_kept(a: Seq<Seq<char>>, b: Seq<Seq<char>>)
    ensures
        forall|n: Seq<char>, v: Seq<char>| #[trigger] has_option(a, n, v) ==> has_option(a + b, n, v),
        forall|n: Seq<char>, v: Seq<char>| #[trigger] has_option(b, n, v) ==> has_option(a + b, n, v),
{
    reveal(has_option);
    let all = a + b;
    assert forall|n: Seq<char>, v: Seq<char>| #[trigger] has_option(a, n, v) implies has_option(
        all,
        n,
        v,
    ) by {
        let i = choose|i: int| 0 <= i < a.len() - 1 && #[trigger] a[i] == n && a[i + 1] == v;
        assert(all[i] == n && all[i + 1] == v);
    }
    assert forall|n: Seq<char>, v: Seq<char>| #[trigger] has_option(b, n, v) implies has_option(
        all,
        n,
        v,
    ) by {
        let i = choose|i: int| 0 <= i < b.len() - 1 && #[trigger] b[i] == n && b[i + 1] == v;
        assert(all[a.len() + i] == b[i] && all[a.len() + i + 1] == b[i + 1]);
    }
}

/// A pair is an option.
broadcast proof fn lemma_pair(n: Seq<char>, v: Seq<char>)
    ensures
        has_option(#[trigger] pair(n, v), n, v),
{
    reveal(has_option);
    assert(pair(n, v)[0] == n);
}

/// Whether something is given, as a number.
pub open spec fn one_if(given: bool) -> int {
    if given {
        1
    } else {
        0
    }
}

/// The options of a part of the arguments are options of the arguments.
pub open spec fn options_kept(part: Seq<Seq<char>>, args: Seq<Seq<char>>) -> bool {
    forall|n: Seq<char>, v: Seq<char>| #[trigger]
        has_option(part, n, v) ==> has_option(args, n, v)
}

/// The parts that the arguments are put together from keep their options.
proof fn lemma_parts(
    default_firmware: Option<String>,
    req: CreateVmRequest,
    ctx: LaunchContext,
    args: Seq<Seq<char>>,
)
    requires
        req.loadvm_tag is None,
        launch_args(default_firmware, req, ctx) == Ok::<Seq<Seq<char>>, Seq<char>>(args),
    ensures
        has_option(args, "--api-socket"@, api_socket(ctx.workspace@)),
        has_option(args, "--cpus"@, cpus_text(req)),
        has_option(args, "--memory"@, memory_text(req)),
        has_option(args, "--disk"@, "path="@ + ctx.disk@),
        options_kept(serial_args(req, ctx), args),
        options_kept(seed_args(ctx), args),
        options_kept(net_args(ctx)->Ok_0, args),
        options_kept(vsock_args(req, ctx)->Ok_0, args),
        options_kept(tpm_args(req, ctx), args),
        options_kept(boot_args(req, default_firmware)->Ok_0, args),
{
    broadcast use lemma_pair;

    let api = pair("--api-socket"@, api_socket(ctx.workspace@));
    let cpus = pair("--cpus"@, cpus_text(req));
    let memory = pair("--memory"@, memory_text(req));
    let disk = pair("--disk"@, "path="@ + ctx.disk@);
    lemma_option_kept(api, cpus);
    lemma_option_kept(api + cpus, memory);
    lemma_option_kept(api + cpus + memory, disk);
    let a = api + cpus + memory + disk;
    lemma_option_kept(a, serial_args(req, ctx));
    let b = a + serial_args(req, ctx);
    lemma_option_kept(b, seed_args(ctx));
    let c = b + seed_args(ctx);
    lemma_option_kept(c, net_args(ctx)->Ok_0);
    let d = c + net_args(ctx)->Ok_0;
    lemma_option_kept(d, vsock_args(req, ctx)->Ok_0);
    let e = d + vsock_args(req, ctx)->Ok_0;
    lemma_option_kept(e, tpm_args(req, ctx));
    let f = e + tpm_args(req, ctx);
    lemma_option_kept(f, boot_args(req, default_firmware)->Ok_0);
    lemma_option_kept(f + boot_args(req, default_firmware)->Ok_0, text::views(req.extra_args@));
}

/// Every boot input of the request stands in the arguments behind its option: the kernel
/// with its first file system and its command line, or else a firmware.
pub proof fn law_boot_inputs_are_started(
    default_firmware: Option<String>,
    req: CreateVmRequest,
    ctx: LaunchContext,
    args: Seq<Seq<char>>,
)
    requires
        req.loadvm_tag is None,
        launch_args(default_firmware, req, ctx) == Ok::<Seq<Seq<char>>, Seq<char>>(args),
    ensures
        req.kernel matches Some(k) ==> has_option(args, "--kernel"@, k@),
        req.kernel is Some ==> (req.initrd matches Some(i) ==> has_option(
            args,
            "--initramfs"@,
            i@,
        )),
        req.kernel is Some ==> (req.kernel_args matches Some(c) ==> has_option(
            args,
            "--cmdline"@,
            c@,
        )),
        req.kernel is None ==> (req.firmware matches Some(f) ==> has_option(
            args,
            "--firmware"@,
            f@,
        )),
        req.kernel is None && req.firmware is None ==> (default_firmware matches Some(f)
            && has_option(args, "--firmware"@, f@)),
{
    broadcast use lemma_pair;

    lemma_parts(default_firmware, req, ctx, args);
    if let Some(k) = req.kernel {
        let x = pair("--kernel"@, k@);
        let y = optional_args("--initramfs"@, req.initrd);
        lemma_option_kept(x, y);
        lemma_option_kept(x + y, optional_args("--cmdline"@, req.kernel_args));
    }
}

/// A virtual machine starts with the virtual CPUs and the memory that were asked for, and
/// with the room to grow that was.
pub proof fn law_machines_have_their_size(
    default_firmware: Option<String>,
    req: CreateVmRequest,
    ctx: LaunchContext,
    args: Seq<Seq<char>>,
)
    requires
        req.loadvm_tag is None,
        launch_args(default_firmware, req, ctx) == Ok::<Seq<Seq<char>>, Seq<char>>(args),
    ensures
        exists|top: nat|
            #![trigger text::decimal_text(top)]
            has_option(
                args,
                "--cpus"@,
                "boot="@ + text::decimal_text(req.vcpus as nat) + ",max="@ + text::decimal_text(top)
                    + if req.hyperv {
                    ",kvm_hyperv=on"@
                } else {
                    Seq::empty()
                },
            ) && top <= 254 && (req.vcpus <= 254 ==> req.vcpus <= top) && (
            req.max_vcpus matches Some(m) ==> (req.vcpus <= m <= 254 ==> top == m)) && (
            req.max_vcpus is None && req.vcpus <= 127 ==> top == 2 * req.vcpus),
        exists|room: nat|
            #![trigger text::decimal_text(room)]
            has_option(
                args,
                "--memory"@,
                "size="@ + text::decimal_text(req.memory_mib as nat) + "M,hotplug_size="@
                    + text::decimal_text(room) + "M"@,
            ) && (req.max_memory_mib matches Some(m) ==> (if m >= req.memory_mib {
                req.memory_mib + room == m
            } else {
                room == 0
            })) && (req.max_memory_mib is None && req.memory_mib < 0x1_0000_0000 ==> room
                >= req.memory_mib && room >= 2048 && (room == req.memory_mib || room == 2048)),
{
    lemma_parts(default_firmware, req, ctx, args);
    let top = vcpu_ceiling(req);
    let flag = if req.hyperv {
        ",kvm_hyperv=on"@
    } else {
        Seq::empty()
    };
    assert(cpus_text(req) =~= "boot="@ + text::decimal_text(req.vcpus as nat) + ",max="@
        + text::decimal_text(top) + flag);
    let room = hotplug_room(req);
    assert(memory_text(req) == "size="@ + text::decimal_text(req.memory_mib as nat)
        + "M,hotplug_size="@ + text::decimal_text(room) + "M"@);
}

/// Everything that was prepared is connected: the disks, the network, the serial line, the
/// agent and the security module.
pub proof fn law_devices_are_connected(
    default_firmware: Option<String>,
    req: CreateVmRequest,
    ctx: LaunchContext,
    args: Seq<Seq<char>>,
)
    requires
        req.loadvm_tag is None,
        launch_args(default_firmware, req, ctx) == Ok::<Seq<Seq<char>>, Seq<char>>(args),
    ensures
        has_option(args, "--api-socket"@, util::path_join(ctx.workspace@, "ch-api.sock"@)),
        has_option(args, "--disk"@, "path="@ + ctx.disk@),
        ctx.seed_disk matches Some(s) ==> has_option(
            args,
            "--disk"@,
            "path="@ + s@ + ",readonly=on"@,
        ),
        req.qga_enabled ==> has_option(
            args,
            "--serial"@,
            "socket="@ + util::path_join(ctx.workspace@, "qga.sock"@),
        ) && has_option(args, "--console"@, "file="@ + ctx.log_path@),
        !req.qga_enabled ==> has_option(args, "--serial"@, "file="@ + ctx.log_path@) && has_option(
            args,
            "--console"@,
            "off"@,
        ),
        ctx.network matches NetworkSpec::Tap { tap_name: Some(t), mac: None } ==> has_option(
            args,
            "--net"@,
            "tap="@ + t@,
        ),
        ctx.network matches NetworkSpec::Tap { tap_name: Some(t), mac: Some(m) } ==> has_option(
            args,
            "--net"@,
            "tap="@ + t@ + ",mac="@ + m@,
        ),
        ctx.network matches NetworkSpec::Macvtap { mac: None } ==> (ctx.macvtap_fd matches Some(fd)
            && has_option(args, "--net"@, "fd="@ + text::signed_text(fd as int))),
        ctx.network matches NetworkSpec::Macvtap { mac: Some(m) } ==> (ctx.macvtap_fd matches Some(
            fd,
        ) && has_option(args, "--net"@, "fd="@ + text::signed_text(fd as int) + ",mac="@ + m@)),
        req.agent_enabled ==> (ctx.guest_cid matches Some(cid) && (
        ctx.vsock_socket matches Some(s) && has_option(
            args,
            "--vsock"@,
            "cid="@ + text::decimal_text(cid as nat) + ",socket="@ + s@,
        ))),
        req.tpm == Some(true) ==> has_option(
            args,
            "--tpm"@,
            "socket="@ + util::path_join(ctx.workspace@, "swtpm.sock"@),
        ),
{
    broadcast use lemma_pair;

    lemma_parts(default_firmware, req, ctx, args);
    if req.qga_enabled {
        let socket = "socket="@ + util::path_join(ctx.workspace@, "qga.sock"@);
        lemma_option_kept(pair("--serial"@, socket), pair("--console"@, "file="@ + ctx.log_path@));
    } else {
        lemma_option_kept(
            pair("--serial"@, "file="@ + ctx.log_path@),
            pair("--console"@, "off"@),
        );
    }
}

/// There are no options but those for what was given, and what the request adds itself
/// comes last and unchanged.
pub proof fn law_nothing_else_is_started(
    default_firmware: Option<String>,
    req: CreateVmRequest,
    ctx: LaunchContext,
    args: Seq<Seq<char>>,
)
    requires
        req.loadvm_tag is None,
        launch_args(default_firmware, req, ctx) == Ok::<Seq<Seq<char>>, Seq<char>>(args),
    ensures
        args.len() == 2 * (7 + one_if(ctx.seed_disk is Some) + one_if(!(ctx.network is Off))
            + one_if(req.agent_enabled) + one_if(req.tpm == Some(true)) + one_if(
            req.kernel is Some && req.initrd is Some,
        ) + one_if(req.kernel is Some && req.kernel_args is Some)) + req.extra_args@.len(),
        args.skip(args.len() - req.extra_args@.len()) == text::views(req.extra_args@),
{
    assert(args.skip(args.len() - req.extra_args@.len()) =~= text::views(req.extra_args@));
}

/// A virtual machine is refused just where something is missing: a network that was not
/// prepared or is of an unknown kind, a connection to its agent, or something to start.
pub proof fn law_what_is_prepared_is_started(
    default_firmware: Option<String>,
    req: CreateVmRequest,
    ctx: LaunchContext,
)
    ensures
        launch_args(default_firmware, req, ctx) is Err <==> req.loadvm_tag is None && (
        ctx.network is User || (ctx.network matches NetworkSpec::Tap { tap_name: None, .. }) || (
        ctx.network is Macvtap && ctx.macvtap_fd is None) || (req.agent_enabled && (
        ctx.guest_cid is None || ctx.vsock_socket is None)) || (req.kernel is None
            && req.firmware is None && default_firmware is None)),
{
}

/// A saved virtual machine starts from its own state, below its own directory, and from
/// nothing else.
pub proof fn law_saved_machines_start_from_their_state(
    default_firmware: Option<String>,
    req: CreateVmRequest,
    ctx: LaunchContext,
)
    requires
        req.loadvm_tag is Some,
    ensures
        launch_args(default_firmware, req, ctx) matches Ok(args) && args.len() == 4 && has_option(
            args,
            "--api-socket"@,
            util::path_join(ctx.workspace@, "ch-api.sock"@),
        ) && has_option(
            args,
            "--restore"@,
            "source_url=file://"@ + util::path_join(
                util::path_join(ctx.workspace@, "snapshots"@),
                req.loadvm_tag->0@,
            ),
        ),
{
    reveal(has_option);
    let args = restore_args(ctx, req.loadvm_tag->0@);
    assert(args[0] == "--api-socket"@);
    assert(args[2] == "--restore"@);
}

// ---------------------------------------------------------------------------
// Launching
// ---------------------------------------------------------------------------

/// How far the launch of a virtual machine came.
#[derive(Debug)]
pub enum LaunchStage {
    /// The security chip could not be started.
    ChipFailed(String),
    /// There are no arguments to start the program with.
    ArgsFailed(String),
    /// The program could not be started.
    SpawnFailed(String),
    /// The program was gone before its number was known.
    Vanished,
    /// The program runs under this number.
    Running(u32),
}

/// A virtual machine that was launched.
#[derive(Debug)]
pub struct LaunchResult {
    pub pid: u32,
    pub control_socket: String,
    pub vsock_socket: Option<String>,
    pub swtpm_pid: Option<u32>,
}

/// How a launch ends: the descriptor to close, the program to end, and the outcome.
#[derive(Debug)]
pub struct LaunchEnd {
    pub close: Option<i32>,
    pub terminate: Option<u32>,
    pub outcome: Result<LaunchResult, String>,
}

/// The program was started, or it was tried.
pub open spec fn tried(stage: LaunchStage) -> bool {
    stage is SpawnFailed || stage is Vanished || stage is Running
}

/// Why a launch failed.
pub open spec fn launch_fault(stage: LaunchStage) -> Option<Seq<char>> {
    match stage {
        LaunchStage::ChipFailed(e) => Some(e@),
        LaunchStage::ArgsFailed(e) => Some(e@),
        LaunchStage::SpawnFailed(e) => Some(e@),
        LaunchStage::Vanished => Some("Cloud Hypervisor exited before PID was available"@),
        LaunchStage::Running(_) => None,
    }
}

/// The end of a launch is the one for the stage. The descriptor of the network is closed
/// once the program has been started or cannot be, and the security chip is ended where the
/// program does not run.
pub open spec fn ends_launch(
    end: LaunchEnd,
    ctx: LaunchContext,
    swtpm_pid: Option<u32>,
    stage: LaunchStage,
) -> bool {
    &&& end.close == if tried(stage) || stage is ChipFailed {
        ctx.macvtap_fd
    } else {
        None
    }
    &&& end.terminate == if stage is SpawnFailed || stage is Vanished {
        swtpm_pid
    } else {
        None
    }
    &&& match (end.outcome, launch_fault(stage)) {
        (Err(e), Some(m)) => e@ == m,
        (Ok(r), None) => {
            &&& stage == LaunchStage::Running(r.pid)
            &&& r.control_socket@ == api_socket(ctx.workspace@)
            &&& match (r.vsock_socket, ctx.vsock_socket) {
                (Some(a), Some(b)) => a@ == b@,
                (None, None) => true,
                _ => false,
            }
            &&& r.swtpm_pid == swtpm_pid
        },
        _ => false,
    }
}

/// Ends a launch.
pub fn end_launch(ctx: &LaunchContext, swtpm_pid: Option<u32>, stage: LaunchStage) -> (r: LaunchEnd)
    ensures
        ends_launch(r, *ctx, swtpm_pid, stage),
{
    match stage {
        LaunchStage::ChipFailed(e) => LaunchEnd {
            close: ctx.macvtap_fd,
            terminate: None,
            outcome: Err(e),
        },
        LaunchStage::ArgsFailed(e) => LaunchEnd { close: None, terminate: None, outcome: Err(e) },
        LaunchStage::SpawnFailed(e) => LaunchEnd {
            close: ctx.macvtap_fd,
            terminate: swtpm_pid,
            outcome: Err(e),
        },
        LaunchStage::Vanished => LaunchEnd {
            close: ctx.macvtap_fd,
            terminate: swtpm_pid,
            outcome: Err("Cloud Hypervisor exited before PID was available".to_owned()),
        },
        LaunchStage::Running(pid) => LaunchEnd {
            close: ctx.macvtap_fd,
            terminate: None,
            outcome: Ok(
                LaunchResult {
                    pid,
                    control_socket: api_path(ctx.workspace.as_str()),
                    vsock_socket: match &ctx.vsock_socket {
                        Some(s) => Some(s.clone()),
                        None => None,
                    },
                    swtpm_pid,
                },
            ),
        },
    }
}

/// A launch succeeds just where the program runs, and tells where to find it; the
/// descriptor of the network is never closed twice, and a program that runs keeps its
/// security chip.
pub proof fn law_running_machines_are_told(
    end: LaunchEnd,
    ctx: LaunchContext,
    swtpm_pid: Option<u32>,
    stage: LaunchStage,
)
    requires
        ends_launch(end, ctx, swtpm_pid, stage),
    ensures
        end.outcome is Ok <==> stage is Running,
        stage matches LaunchStage::Running(pid) ==> (end.outcome matches Ok(r) && r.pid == pid
            && r.swtpm_pid == swtpm_pid && r.control_socket@ == util::path_join(
            ctx.workspace@,
            "ch-api.sock"@,
        ) && text::optional_string(r.vsock_socket) == text::optional_string(ctx.vsock_socket)
            && end.terminate is None && end.close == ctx.macvtap_fd),
        stage matches LaunchStage::ChipFailed(e) ==> (end.outcome matches Err(m) && m@ == e@
            && end.close == ctx.macvtap_fd && end.terminate is None),
        stage matches LaunchStage::ArgsFailed(e) ==> (end.outcome matches Err(m) && m@ == e@
            && end.close is None && end.terminate is None),
        stage matches LaunchStage::SpawnFailed(e) ==> (end.outcome matches Err(m) && m@ == e@),
{
}

/// A program that was started in vain leaves nothing behind.
pub proof fn law_failed_starts_leave_nothing(
    end: LaunchEnd,
    ctx: LaunchContext,
    swtpm_pid: Option<u32>,
    stage: LaunchStage,
)
    requires
        ends_launch(end, ctx, swtpm_pid, stage),
        tried(stage),
        end.outcome is Err,
    ensures
        end.close == ctx.macvtap_fd,
        end.terminate == swtpm_pid,
{
}

// ---------------------------------------------------------------------------
// Commands to a running virtual machine
// ---------------------------------------------------------------------------

/// A command without values.
pub open spec fn remote_args(workspace: Seq<char>, subcommand: Seq<char>) -> Seq<Seq<char>> {
    pair("--api-socket"@, api_socket(workspace)).push(subcommand)
}

/// A command goes to the socket of its own virtual machine, and says nothing else.
pub proof fn law_commands_reach_their_machine(workspace: Seq<char>, subcommand: Seq<char>)
    ensures
        has_option(
            remote_args(workspace, subcommand),
            "--api-socket"@,
            util::path_join(workspace, "ch-api.sock"@),
        ),
        remote_args(workspace, subcommand).len() == 3,
        remote_args(workspace, subcommand).last() == subcommand,
{
    reveal(has_option);
    assert(remote_args(workspace, subcommand)[0] == "--api-socket"@);
}

/// A command: to pause, to resume, to shut down, or to report.
pub fn ch_remote(workspace: &str, subcommand: &str) -> (r: Vec<String>)
    ensures
        text::views(r@) == remote_args(workspace@, subcommand@),
{
    let mut a = Args::new();
    a.add_pair("--api-socket", api_path(workspace).as_str());
    a.add_one(subcommand);
    assert(a.view() =~= remote_args(workspace@, subcommand@));
    a.items
}

/// The command that saves the state of a virtual machine.
pub fn snapshot_command(workspace: &str, dest: &str) -> (r: Vec<String>)
    ensures
        text::views(r@) == remote_args(workspace@, "snapshot"@).push("file://"@ + dest@),
{
    let mut a = Args { items: ch_remote(workspace, "snapshot") };
    a.add_one(cat("file://", dest).as_str());
    a.items
}

/// What is reported after a save: a virtual machine that did not resume is never passed
/// over.
pub open spec fn save_report(snapshot: Result<(), String>, resume: Result<(), String>) -> Option<
    Seq<char>,
> {
    match (snapshot, resume) {
        (Ok(_), Ok(_)) => None,
        (Err(s), Ok(_)) => Some(s@),
        (Ok(_), Err(r)) => Some(
            "snapshot saved, but the VM failed to resume afterward and is now paused, not running: "@
                + r@,
        ),
        (Err(s), Err(r)) => Some(
            "snapshot failed, and the VM also failed to resume afterward: "@ + r@ + ": "@ + s@,
        ),
    }
}

/// Judges a save. It fails if the virtual machine could not be saved or does not run
/// afterwards.
pub fn snapshot_save(snapshot: Result<(), String>, resume: Result<(), String>) -> (r: Result<
    (),
    String,
>)
    ensures
        match (r, save_report(snapshot, resume)) {
            (Ok(_), None) => true,
            (Err(m), Some(e)) => m@ == e,
            _ => false,
        },
{
    match resume {
        Ok(_) => snapshot,
        Err(r) => match snapshot {
            Ok(_) => Err(
                cat(
                    "snapshot saved, but the VM failed to resume afterward and is now paused, not running: ",
                    r.as_str(),
                ),
            ),
            Err(s) => {
                let head = cat(
                    "snapshot failed, and the VM also failed to resume afterward: ",
                    r.as_str(),
                );
                Err(cat(cat(head.as_str(), ": ").as_str(), s.as_str()))
            },
        },
    }
}

/// A save succeeds only if the virtual machine was saved and runs again.
pub proof fn law_save_leaves_the_machine_running(
    snapshot: Result<(), String>,
    resume: Result<(), String>,
)
    ensures
        save_report(snapshot, resume) is None <==> snapshot is Ok && resume is Ok,
{
}

// ---------------------------------------------------------------------------
// Growth
// ---------------------------------------------------------------------------

/// A number of the report, by three keys.
pub open spec fn report_number(
    info: Js,
    a: Seq<char>,
    b: Seq<char>,
    c: Seq<char>,
) -> Result<u64, Seq<char>> {
    let path = a + "."@ + b + "."@ + c;
    match info.get3(a, b, c) {
        None => Err("`ch-remote info` output has no "@ + path),
        Some(j) => match j.as_u64() {
            None => Err("`ch-remote info`'s "@ + path + " is not an integer"@),
            Some(n) => Ok(n),
        },
    }
}

/// A small number of the report.
pub open spec fn report_small(
    info: Js,
    a: Seq<char>,
    b: Seq<char>,
    c: Seq<char>,
) -> Result<u8, Seq<char>> {
    match report_number(info, a, b, c) {
        Err(e) => Err(e),
        Ok(n) => if n <= 255 {
            Ok(n as u8)
        } else {
            Err(
                "`ch-remote info`'s "@ + (a + "."@ + b + "."@ + c)
                    + " does not fit in a u8: out of range integral type conversion attempted"@,
            )
        },
    }
}

fn dotted(a: &str, b: &str, c: &str) -> (r: String)
    ensures
        r@ == a@ + "."@ + b@ + "."@ + c@,
{
    cat(cat(cat(cat(a, ".").as_str(), b).as_str(), ".").as_str(), c)
}

/// Reads a number of the report.
fn json_u64(info: &Json, a: &str, b: &str, c: &str) -> (r: Result<u64, String>)
    ensures
        match (r, report_number(info.view(), a@, b@, c@)) {
            (Ok(n), Ok(s)) => n == s,
            (Err(m), Err(e)) => m@ == e,
            _ => false,
        },
{
    match info.get3(a, b, c) {
        None => Err(cat("`ch-remote info` output has no ", dotted(a, b, c).as_str())),
        Some(j) => match j.as_u64() {
            None => {
                let head = cat("`ch-remote info`'s ", dotted(a, b, c).as_str());
                Err(cat(head.as_str(), " is not an integer"))
            },
            Some(n) => Ok(n),
        },
    }
}

/// Reads a small number of the report.
fn json_u8(info: &Json, a: &str, b: &str, c: &str) -> (r: Result<u8, String>)
    ensures
        match (r, report_small(info.view(), a@, b@, c@)) {
            (Ok(n), Ok(s)) => n == s,
            (Err(m), Err(e)) => m@ == e,
            _ => false,
        },
{
    match json_u64(info, a, b, c) {
        Err(e) => Err(e),
        Ok(n) => if n <= 255 {
            Ok(n as u8)
        } else {
            let head = cat("`ch-remote info`'s ", dotted(a, b, c).as_str());
            Err(
                cat(
                    head.as_str(),
                    " does not fit in a u8: out of range integral type conversion attempted",
                ),
            )
        },
    }
}

/// The report, or the error.
pub open spec fn report_in(info: Result<String, String>) -> Result<Js, Seq<char>> {
    match info {
        Err(e) => Err("querying Cloud Hypervisor VM info: "@ + e@),
        Ok(t) => match json::json_read(t@) {
            Err(e) => Err("parsing `ch-remote info` output: "@ + e),
            Ok(j) => Ok(j),
        },
    }
}

/// Reads the report.
fn read_report(info: &Result<String, String>) -> (r: Result<Json, String>)
    ensures
        match (r, report_in(*info)) {
            (Ok(j), Ok(s)) => j.view() == s,
            (Err(m), Err(e)) => m@ == e,
            _ => false,
        },
{
    match info {
        Err(e) => Err(cat("querying Cloud Hypervisor VM info: ", e.as_str())),
        Ok(t) => match Json::parse(t.as_str()) {
            Err(e) => Err(cat("parsing `ch-remote info` output: ", e.as_str())),
            Ok(j) => Ok(j),
        },
    }
}

/// How the growth of a virtual machine goes on.
#[derive(Debug)]
pub enum GrowthStep {
    /// Ask for a report and call again with it.
    Report,
    /// Resize from the present size to the target.
    Resize { command: Vec<String>, current: u64, target: u64 },
    Fail(String),
}

/// How the growth of a virtual machine goes on, in the specification.
pub ghost enum Growth {
    Report,
    Resize(nat, nat),
    Fail(Seq<char>),
}

/// The growth by virtual CPUs. It stays within the room that was reserved.
pub open spec fn cpu_growth(add_vcpus: u8, info: Option<Result<String, String>>) -> Growth {
    if add_vcpus == 0 {
        Growth::Fail("add_vcpus must be greater than zero"@)
    } else {
        match info {
            None => Growth::Report,
            Some(i) => match report_in(i) {
                Err(e) => Growth::Fail(e),
                Ok(j) => match report_small(j, "config"@, "cpus"@, "boot_vcpus"@) {
                    Err(e) => Growth::Fail(e),
                    Ok(current) => match report_small(j, "config"@, "cpus"@, "max_vcpus"@) {
                        Err(e) => Growth::Fail(e),
                        Ok(ceiling) => if current + add_vcpus <= ceiling {
                            Growth::Resize(current as nat, (current + add_vcpus) as nat)
                        } else {
                            Growth::Fail(
                                "adding "@ + text::decimal_text(add_vcpus as nat)
                                    + " vCPU(s) to the current "@ + text::decimal_text(
                                    current as nat,
                                ) + " would exceed the "@ + text::decimal_text(ceiling as nat)
                                    + "-vCPU headroom reserved at creation"@,
                            )
                        },
                    },
                },
            },
        }
    }
}

/// A step agrees with the specification; a resize is the command for it.
pub open spec fn growth_fits(
    r: GrowthStep,
    g: Growth,
    workspace: Seq<char>,
    what: Seq<char>,
) -> bool {
    match (r, g) {
        (GrowthStep::Report, Growth::Report) => true,
        (GrowthStep::Fail(m), Growth::Fail(e)) => m@ == e,
        (GrowthStep::Resize { command, current, target }, Growth::Resize(c, t)) => current == c
            && target == t && text::views(command@) == remote_args(workspace, "resize"@) + pair(
            what,
            text::decimal_text(t),
        ),
        _ => false,
    }
}

/// The command that resizes a virtual machine.
fn resize_command(workspace: &str, what: &str, target: u64) -> (r: Vec<String>)
    ensures
        text::views(r@) == remote_args(workspace@, "resize"@) + pair(
            what@,
            text::decimal_text(target as nat),
        ),
{
    let mut a = Args { items: ch_remote(workspace, "resize") };
    a.add_pair(what, u64_text(target).as_str());
    a.items
}

/// Adds virtual CPUs to a running virtual machine. `info` is the report on it.
pub fn hotplug_cpu(workspace: &str, add_vcpus: u8, info: &Option<Result<String, String>>) -> (r:
    GrowthStep)
    ensures
        growth_fits(r, cpu_growth(add_vcpus, *info), workspace@, "--cpus"@),
{
    if add_vcpus == 0 {
        return GrowthStep::Fail("add_vcpus must be greater than zero".to_owned());
    }
    let report = match info {
        None => {
            return GrowthStep::Report;
        },
        Some(i) => match read_report(i) {
            Err(e) => {
                return GrowthStep::Fail(e);
            },
            Ok(j) => j,
        },
    };
    let current: u8 = match json_u8(&report, "config", "cpus", "boot_vcpus") {
        Err(e) => {
            return GrowthStep::Fail(e);
        },
        Ok(n) => n,
    };
    let ceiling: u8 = match json_u8(&report, "config", "cpus", "max_vcpus") {
        Err(e) => {
            return GrowthStep::Fail(e);
        },
        Ok(n) => n,
    };
    let target: u64 = current as u64 + add_vcpus as u64;
    if target <= ceiling as u64 {
        GrowthStep::Resize {
            command: resize_command(workspace, "--cpus", target),
            current: current as u64,
            target,
        }
    } else {
        let head = cat("adding ", u64_text(add_vcpus as u64).as_str());
        let body = cat(
            cat(head.as_str(), " vCPU(s) to the current ").as_str(),
            u64_text(current as u64).as_str(),
        );
        let more = cat(
            cat(body.as_str(), " would exceed the ").as_str(),
            u64_text(ceiling as u64).as_str(),
        );
        GrowthStep::Fail(cat(more.as_str(), "-vCPU headroom reserved at creation"))
    }
}

/// The growth by memory, in bytes. Only whole steps can be added.
pub open spec fn memory_growth(
    add_memory_mib: u64,
    info: Option<Result<String, String>>,
) -> Growth {
    if add_memory_mib == 0 {
        Growth::Fail("add_memory_mib must be greater than zero"@)
    } else if add_memory_mib % MEMORY_HOTPLUG_ALIGNMENT_MIB != 0 {
        Growth::Fail(
            "add_memory_mib ("@ + text::decimal_text(add_memory_mib as nat)
                + ") must be a multiple of 128MiB -- Cloud Hypervisor's own ACPI memory hotplug requires it"@,
        )
    } else {
        match info {
            None => Growth::Report,
            Some(i) => match report_in(i) {
                Err(e) => Growth::Fail(e),
                Ok(j) => match report_number(j, "config"@, "memory"@, "size"@) {
                    Err(e) => Growth::Fail(e),
                    Ok(current) => Growth::Resize(
                        current as nat,
                        capped(current as nat + capped(add_memory_mib as nat * 0x10_0000)),
                    ),
                },
            },
        }
    }
}

/// Adds memory to a running virtual machine. `info` is the report on it.
pub fn hotplug_memory(
    workspace: &str,
    add_memory_mib: u64,
    info: &Option<Result<String, String>>,
) -> (r: GrowthStep)
    ensures
        growth_fits(r, memory_growth(add_memory_mib, *info), workspace@, "--memory"@),
{
    if add_memory_mib == 0 {
        return GrowthStep::Fail("add_memory_mib must be greater than zero".to_owned());
    }
    if add_memory_mib % MEMORY_HOTPLUG_ALIGNMENT_MIB != 0 {
        let head = cat("add_memory_mib (", u64_text(add_memory_mib).as_str());
        return GrowthStep::Fail(
            cat(
                head.as_str(),
                ") must be a multiple of 128MiB -- Cloud Hypervisor's own ACPI memory hotplug requires it",
            ),
        );
    }
    let report = match info {
        None => {
            return GrowthStep::Report;
        },
        Some(i) => match read_report(i) {
            Err(e) => {
                return GrowthStep::Fail(e);
            },
            Ok(j) => j,
        },
    };
    let current: u64 = match json_u64(&report, "config", "memory", "size") {
        Err(e) => {
            return GrowthStep::Fail(e);
        },
        Ok(n) => n,
    };
    let added: u64 = if add_memory_mib > u64::MAX / 0x10_0000 {
        u64::MAX
    } else {
        add_memory_mib * 0x10_0000
    };
    let target: u64 = if current > u64::MAX - added {
        u64::MAX
    } else {
        current + added
    };
    GrowthStep::Resize {
        command: resize_command(workspace, "--memory", target),
        current,
        target,
    }
}

/// Judges a resize by virtual CPUs: the new number, or the error.
pub fn resized_cpu(target: u64, outcome: Result<(), String>) -> (r: Result<u64, String>)
    ensures
        match outcome {
            Ok(_) => r == Ok::<u64, String>(target),
            Err(e) => r matches Err(m) && m@ == "resizing vCPU count: "@ + e@,
        },
{
    match outcome {
        Ok(_) => Ok(target),
        Err(e) => Err(cat("resizing vCPU count: ", e.as_str())),
    }
}

/// Judges a resize by memory: the new size in MiB, or the error.
pub fn resized_memory(current: u64, target: u64, outcome: Result<(), String>) -> (r: Result<
    u64,
    String,
>)
    ensures
        match outcome {
            Ok(_) => r == Ok::<u64, String>((target / 0x10_0000) as u64),
            Err(e) => r matches Err(m) && m@ == "resizing memory from "@ + text::decimal_text(
                current as nat,
            ) + " to "@ + text::decimal_text(target as nat)
                + " bytes (may exceed the hotplug headroom reserved at creation): "@ + e@,
        },
{
    match outcome {
        Ok(_) => Ok(target / 0x10_0000),
        Err(e) => {
            let head = cat("resizing memory from ", u64_text(current).as_str());
            let body = cat(cat(head.as_str(), " to ").as_str(), u64_text(target).as_str());
            let more = cat(
                body.as_str(),
                " bytes (may exceed the hotplug headroom reserved at creation): ",
            );
            Err(cat(more.as_str(), e.as_str()))
        },
    }
}

/// What a report says under three names.
pub open spec fn reported(info: Result<String, String>, names: (Seq<char>, Seq<char>, Seq<char>)) -> Option<
    u64,
> {
    match info {
        Err(_) => None,
        Ok(t) => match json::json_read(t@) {
            Err(_) => None,
            Ok(j) => match j.get3(names.0, names.1, names.2) {
                Some(v) => v.as_u64(),
                None => None,
            },
        },
    }
}

/// Memory is added to what the report names, in whole steps, and just where a report names
/// it.
pub proof fn law_memory_grows_by_what_is_asked(add_memory_mib: u64, info: Result<String, String>)
    ensures
        memory_growth(add_memory_mib, Some(info)) is Resize <==> add_memory_mib > 0
            && add_memory_mib % 128 == 0 && reported(info, ("config"@, "memory"@, "size"@)) is Some,
        memory_growth(add_memory_mib, Some(info)) matches Growth::Resize(current, target) ==> Some(
            current as u64,
        ) == reported(info, ("config"@, "memory"@, "size"@)) && current <= u64::MAX && (current
            + add_memory_mib * 1024 * 1024 <= u64::MAX ==> target == current + add_memory_mib * 1024
            * 1024) && (current + add_memory_mib * 1024 * 1024 > u64::MAX ==> target == u64::MAX),
        memory_growth(add_memory_mib, None) is Report <==> add_memory_mib > 0 && add_memory_mib % 128
            == 0,
{
}

/// Virtual CPUs are added to those that the report names, just where its ceiling has room
/// for them.
pub proof fn law_cpus_grow_by_what_is_asked(add_vcpus: u8, info: Result<String, String>)
    ensures
        cpu_growth(add_vcpus, Some(info)) is Resize <==> add_vcpus > 0 && (reported(
            info,
            ("config"@, "cpus"@, "boot_vcpus"@),
        ) matches Some(now) && reported(
            info,
            ("config"@, "cpus"@, "max_vcpus"@),
        ) matches Some(top) && now <= 255 && top <= 255 && now + add_vcpus <= top),
        cpu_growth(add_vcpus, Some(info)) matches Growth::Resize(current, target) ==> reported(
            info,
            ("config"@, "cpus"@, "boot_vcpus"@),
        ) == Some(current as u64) && target == current + add_vcpus,
        cpu_growth(add_vcpus, None) is Report <==> add_vcpus > 0,
{
}

/// A virtual machine only grows, by what was asked for, and never past the virtual CPUs
/// that its report allows.
pub proof fn law_growth_stays_in_room(add_vcpus: u8, info: Result<String, String>)
    requires
        cpu_growth(add_vcpus, Some(info)) is Resize,
    ensures
        cpu_growth(
            add_vcpus,
            Some(info),
        ) matches Growth::Resize(current, target) && current < target
            && target == current + add_vcpus && (report_small(
            report_in(info)->Ok_0,
            "config"@,
            "cpus"@,
            "max_vcpus"@,
        ) matches Ok(ceiling) && target <= ceiling),
{
}

// ---------------------------------------------------------------------------
// Migration
// ---------------------------------------------------------------------------

/// When memory is copied.
#[derive(Debug, Clone, Copy, PartialEq, Eq, Structural)]
pub enum MigrationMode {
    PreCopy,
    PostCopy,
}

/// How a virtual machine is sent elsewhere.
#[derive(Debug)]
pub struct MigrationStartRequest {
    pub destination: String,
    pub mode: MigrationMode,
    pub bandwidth_mbps: Option<u64>,
    pub max_downtime_ms: Option<u64>,
    pub multifd_channels: Option<u32>,
}

/// The destination is one that a virtual machine can be sent to.
pub open spec fn is_transport(destination: Seq<char>) -> bool {
    text::has_prefix(destination, "tcp:"@) || text::has_prefix(destination, "unix:"@)
}

/// Judges a destination.
pub fn validate_migration_transport(destination: &str) -> (r: Result<(), String>)
    ensures
        match r {
            Ok(_) => is_transport(destination@),
            Err(m) => !is_transport(destination@) && m@
                == "migration destination must start with tcp: or unix:"@,
        },
{
    if starts_with(destination, "tcp:") || starts_with(destination, "unix:") {
        Ok(())
    } else {
        Err("migration destination must start with tcp: or unix:".to_owned())
    }
}

/// More than one connection is asked for.
pub open spec fn wants_many(req: MigrationStartRequest) -> bool {
    req.multifd_channels matches Some(n) && n > 1
}

/// Why a virtual machine cannot be sent as asked.
pub open spec fn migration_fault(req: MigrationStartRequest) -> Option<Seq<char>> {
    if !is_transport(req.destination@) {
        Some("migration destination must start with tcp: or unix:"@)
    } else if req.bandwidth_mbps is Some {
        Some(
            "Cloud Hypervisor's migration API has no bandwidth throttle -- leave bandwidth_mbps unset for this backend"@,
        )
    } else if req.multifd_channels == Some(0u32) {
        Some("multifd_channels must be >= 1 when set"@)
    } else if wants_many(req) && text::has_prefix(req.destination@, "unix:"@) {
        Some(
            "Cloud Hypervisor rejects multifd_channels > 1 over a unix: destination -- use tcp: instead, or drop multifd_channels"@,
        )
    } else if wants_many(req) && req.mode is PostCopy {
        Some(
            "Cloud Hypervisor's post-copy mode requires a single connection -- leave multifd_channels unset (or 1) when mode is post-copy"@,
        )
    } else {
        None
    }
}

/// A number with its name before it, where it is there.
pub open spec fn named_number(name: Seq<char>, n: Option<nat>) -> Seq<char> {
    match n {
        Some(v) => name + text::decimal_text(v),
        None => Seq::empty(),
    }
}

/// The settings of the transfer.
pub open spec fn send_config(req: MigrationStartRequest) -> Seq<char> {
    "destination_url="@ + req.destination@ + named_number(
        ",downtime_ms="@,
        match req.max_downtime_ms {
            Some(n) => Some(n as nat),
            None => None,
        },
    ) + (if req.mode is PostCopy {
        ",memory_mode=postcopy"@
    } else {
        Seq::empty()
    }) + named_number(
        ",connections="@,
        if wants_many(req) {
            Some(req.multifd_channels->Some_0 as nat)
        } else {
            None
        },
    )
}

/// A transfer says where it goes and every setting that was asked for, and nothing else.
pub proof fn law_transfers_say_what_was_asked(req: MigrationStartRequest)
    ensures
        text::has_prefix(send_config(req), "destination_url="@ + req.destination@),
        req.max_downtime_ms matches Some(n) ==> text::holds(
            send_config(req),
            ",downtime_ms="@ + text::decimal_text(n as nat),
        ),
        req.mode is PostCopy ==> text::holds(send_config(req), ",memory_mode=postcopy"@),
        req.multifd_channels matches Some(n) ==> (n > 1 ==> text::holds(
            send_config(req),
            ",connections="@ + text::decimal_text(n as nat),
        )),
        req.max_downtime_ms is None && req.mode is PreCopy && (req.multifd_channels matches Some(n)
            ==> n <= 1) ==> send_config(req) == "destination_url="@ + req.destination@,
{
    let head = "destination_url="@ + req.destination@;
    let downtime = named_number(
        ",downtime_ms="@,
        match req.max_downtime_ms {
            Some(n) => Some(n as nat),
            None => None,
        },
    );
    let mode = if req.mode is PostCopy {
        ",memory_mode=postcopy"@
    } else {
        Seq::empty()
    };
    let many = named_number(
        ",connections="@,
        if wants_many(req) {
            Some(req.multifd_channels->Some_0 as nat)
        } else {
            None
        },
    );
    let s = send_config(req);
    assert(s == head + downtime + mode + many);
    assert(s.take(head.len() as int) =~= head);
    text::lemma_holds(head, downtime, mode + many);
    assert(head + downtime + (mode + many) =~= s);
    text::lemma_holds(head + downtime, mode, many);
    text::lemma_holds(head + downtime + mode, many, Seq::empty());
    assert(head + downtime + mode + many + Seq::<char>::empty() =~= s);
    if downtime.len() == 0 && mode.len() == 0 && many.len() == 0 {
        assert(s =~= head);
    }
}

/// A virtual machine is sent just where Cloud Hypervisor can do it: over the network or a
/// local socket, without a limit on the bandwidth, and over several connections only in the
/// network and with memory that is copied before.
pub proof fn law_transfers_are_sent_where_they_can_be(req: MigrationStartRequest)
    ensures
        migration_fault(req) is None <==> (text::has_prefix(req.destination@, "tcp:"@)
            || text::has_prefix(req.destination@, "unix:"@)) && req.bandwidth_mbps is None && (
        req.multifd_channels matches Some(n) ==> n >= 1 && (n > 1 ==> !text::has_prefix(
            req.destination@,
            "unix:"@,
        ) && req.mode is PreCopy)),
{
}

/// Nothing else is said of a transfer than what was asked.
pub proof fn law_transfers_say_nothing_else(req: MigrationStartRequest)
    ensures
        send_config(req).len() == "destination_url="@.len() + req.destination@.len() + (
        match req.max_downtime_ms {
            Some(n) => ",downtime_ms="@.len() + text::decimal_text(n as nat).len(),
            None => 0,
        }) + (if req.mode is PostCopy {
            ",memory_mode=postcopy"@.len()
        } else {
            0
        }) + (match req.multifd_channels {
            Some(n) => if n > 1 {
                ",connections="@.len() + text::decimal_text(n as nat).len()
            } else {
                0
            },
            None => 0,
        }),
{
}

/// The command that sends a virtual machine elsewhere, or why it cannot be sent so.
pub fn migration_start(workspace: &str, request: &MigrationStartRequest) -> (r: Result<
    Vec<String>,
    String,
>)
    ensures
        match (r, migration_fault(*request)) {
            (Ok(v), None) => text::views(v@) == remote_args(workspace@, "send-migration"@).push(
                send_config(*request),
            ),
            (Err(m), Some(e)) => m@ == e,
            _ => false,
        },
{
    if let Err(e) = validate_migration_transport(request.destination.as_str()) {
        return Err(e);
    }
    if request.bandwidth_mbps.is_some() {
        return Err(
            "Cloud Hypervisor's migration API has no bandwidth throttle -- leave bandwidth_mbps unset for this backend".to_owned(),
        );
    }
    let mut many: Option<u32> = None;
    if let Some(n) = request.multifd_channels {
        if n == 0 {
            return Err("multifd_channels must be >= 1 when set".to_owned());
        }
        if n > 1 {
            many = Some(n);
        }
    }
    if many.is_some() && starts_with(request.destination.as_str(), "unix:") {
        return Err(
            "Cloud Hypervisor rejects multifd_channels > 1 over a unix: destination -- use tcp: instead, or drop multifd_channels".to_owned(),
        );
    }
    let post_copy = match request.mode {
        MigrationMode::PostCopy => true,
        MigrationMode::PreCopy => false,
    };
    if many.is_some() && post_copy {
        return Err(
            "Cloud Hypervisor's post-copy mode requires a single connection -- leave multifd_channels unset (or 1) when mode is post-copy".to_owned(),
        );
    }
    let mut config = cat("destination_url=", request.destination.as_str());
    if let Some(ms) = request.max_downtime_ms {
        config.append(",downtime_ms=");
        config.append(u64_text(ms).as_str());
    }
    if post_copy {
        config.append(",memory_mode=postcopy");
    }
    if let Some(n) = many {
        config.append(",connections=");
        config.append(u64_text(n as u64).as_str());
    }
    assert(config@ =~= send_config(*request));
    let mut a = Args { items: ch_remote(workspace, "send-migration") };
    a.add_one(config.as_str());
    Ok(a.items)
}

/// The status of a request that was accepted. Cloud Hypervisor does not report how the
/// transfer goes on.
pub fn migration_accepted() -> (r: &'static str)
    ensures
        r@
            == "accepted by Cloud Hypervisor -- this backend's migration API is fire-and-forget, success or failure is only observable by this VM disappearing from GET /v1/vms on this node (see RuntimeMigrationCapability::status_pollable)"@,
{
    "accepted by Cloud Hypervisor -- this backend's migration API is fire-and-forget, success or failure is only observable by this VM disappearing from GET /v1/vms on this node (see RuntimeMigrationCapability::status_pollable)"
}

/// Judges the request to send a virtual machine elsewhere.
pub fn migration_outcome(outcome: Result<(), String>) -> (r: Result<(), String>)
    ensures
        match outcome {
            Ok(_) => r is Ok,
            Err(e) => r matches Err(m) && m@
                == "Cloud Hypervisor rejected the send-migration request: "@ + e@,
        },
{
    match outcome {
        Ok(u) => Ok(u),
        Err(e) => Err(
            cat("Cloud Hypervisor rejected the send-migration request: ", e.as_str()),
        ),
    }
}

/// What Cloud Hypervisor would reject is never sent: several connections go over the
/// network only, and never with memory that is copied afterwards.
pub proof fn law_connections_fit_the_transport(req: MigrationStartRequest)
    requires
        migration_fault(req) is None,
    ensures
        wants_many(req) ==> text::has_prefix(req.destination@, "tcp:"@) && req.mode is PreCopy,
        req.bandwidth_mbps is None,
{
}

/// A machine that is to grow is told by how much, in a command to its own socket.
pub proof fn law_growth_is_commanded(
    r: GrowthStep,
    g: Growth,
    workspace: Seq<char>,
    what: Seq<char>,
)
    requires
        growth_fits(r, g, workspace, what),
    ensures
        r is Report <==> g is Report,
        r is Fail <==> g is Fail,
        g matches Growth::Fail(m) ==> (r matches GrowthStep::Fail(t) && t@ == m),
        g matches Growth::Resize(c, t) ==> (r matches GrowthStep::Resize { command, current, target }
            && current == c && target == t && has_option(
            text::views(command@),
            "--api-socket"@,
            util::path_join(workspace, "ch-api.sock"@),
        ) && text::views(command@).contains("resize"@) && has_option(
            text::views(command@),
            what,
            text::decimal_text(t),
        ) && command@.len() == 5),
{
    reveal(has_option);
    if let Growth::Resize(c, t) = g {
        if let GrowthStep::Resize { command, current, target } = r {
            let v = text::views(command@);
            assert(v[0] == "--api-socket"@);
            assert(v[1] == util::path_join(workspace, "ch-api.sock"@));
            assert(v[2] == "resize"@);
            assert(v[3] == what);
            assert(v[4] == text::decimal_text(t));
            assert(v.len() == command@.len());
        }
    }
}

} // verus!
