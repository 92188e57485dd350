//! Nothing of a message is lost when it is sent: messages that are sent alike are the same.

use vstd::prelude::*;

use crate::container::address;
use crate::container::line::ContainerEnvelope;
use crate::container::protocol;
use crate::container::protocol::{
    CgroupEvents, ContainerIo, ContainerNetworkPolicy, ContainerRequest, ContainerResponse,
    ContainerStats, IoStreamAck, IoStreamAttach, RequestKind, ResourceLimits, ResponseKind,
    SecurityStats,
};
use crate::container::wire;
use crate::json::Js;
use crate::labels;
use crate::text;

verus! {

/// Lists of numbers that are sent alike hold the same numbers.
proof fn lemma_numbers_told(a: Seq<u32>, b: Seq<u32>)
    requires
        wire::u32s_js(a) == wire::u32s_js(b),
    ensures
        a == b,
{
    let x = a.map_values(|n: u32| Js::Int(n as int));
    let y = b.map_values(|n: u32| Js::Int(n as int));
    assert(x == y);
    assert forall|i: int| 0 <= i < a.len() implies a[i] == b[i] by {
        assert(x[i] == y[i]);
    }
    assert(a =~= b);
}

/// Maps of texts that are sent alike hold the same texts under the same keys.
proof fn lemma_map_told(a: Seq<(String, String)>, b: Seq<(String, String)>)
    requires
        wire::map_js(a) == wire::map_js(b),
    ensures
        labels::labels_view(a) == labels::labels_view(b),
{
    let m = labels::labels_view(a);
    let n = labels::labels_view(b);
    let x = m.map_values(|s: Seq<char>| Js::Str(s));
    let y = n.map_values(|s: Seq<char>| Js::Str(s));
    assert(x == y);
    assert(m.dom() =~= x.dom());
    assert(n.dom() =~= y.dom());
    assert forall|k: Seq<char>| #[trigger] m.contains_key(k) implies m[k] == n[k] by {
        assert(x[k] == y[k]);
    }
    assert(m =~= n);
}

/// The two say the same.
pub open spec fn same_io(a: ContainerIo, b: ContainerIo) -> bool {
    &&& text::optional_string(a.stdin) == text::optional_string(b.stdin)
    &&& text::optional_string(a.stdout) == text::optional_string(b.stdout)
    &&& text::optional_string(a.stderr) == text::optional_string(b.stderr)
    &&& a.terminal == b.terminal
    &&& a.streaming == b.streaming
}

/// Settings of the streams that are sent alike are the same.
pub proof fn law_io_is_told_whole(a: ContainerIo, b: ContainerIo)
    requires
        a.json() == b.json(),
    ensures
        same_io(a, b),
{
    reveal_strlit("stdin");
    reveal_strlit("stdout");
    reveal_strlit("stderr");
    reveal_strlit("terminal");
    reveal_strlit("streaming");
    assert("stdin"@.len() == 5);
    assert("stdout"@.len() == 6);
    assert("stderr"@.len() == 6);
    assert("terminal"@.len() == 8);
    assert("streaming"@.len() == 9);
    assert("stdout"@[3] != "stderr"@[3]);
    assert(a.json().get("stdin"@) == b.json().get("stdin"@));
    assert(a.json().get("stdout"@) == b.json().get("stdout"@));
    assert(a.json().get("stderr"@) == b.json().get("stderr"@));
    assert(a.json().get("terminal"@) == b.json().get("terminal"@));
    assert(a.json().get("streaming"@) == b.json().get("streaming"@));
}

/// The two say the same.
pub open spec fn same_attach(a: IoStreamAttach, b: IoStreamAttach) -> bool {
    &&& text::optional_string(a.token) == text::optional_string(b.token)
    &&& a.id@ == b.id@
    &&& text::optional_string(a.exec_id) == text::optional_string(b.exec_id)
    &&& a.stream == b.stream
}

/// Requests to attach to a stream that are sent alike are the same.
pub proof fn law_attach_is_told_whole(a: IoStreamAttach, b: IoStreamAttach)
    requires
        a.json() == b.json(),
    ensures
        same_attach(a, b),
{
    reveal_strlit("token");
    reveal_strlit("id");
    reveal_strlit("exec_id");
    reveal_strlit("stream");
    assert("token"@.len() == 5);
    assert("id"@.len() == 2);
    assert("exec_id"@.len() == 7);
    assert("stream"@.len() == 6);
    assert(a.json().get("token"@) == b.json().get("token"@));
    assert(a.json().get("id"@) == b.json().get("id"@));
    assert(a.json().get("exec_id"@) == b.json().get("exec_id"@));
    assert(a.json().get("stream"@) == b.json().get("stream"@));
    protocol::lemma_kind_names(a.stream);
    protocol::lemma_kind_names(b.stream);
}

/// The two say the same.
pub open spec fn same_ack(a: IoStreamAck, b: IoStreamAck) -> bool {
    &&& a.ok == b.ok
    &&& text::optional_string(a.message) == text::optional_string(b.message)
}

/// Replies to attach requests that are sent alike are the same.
pub proof fn law_ack_is_told_whole(a: IoStreamAck, b: IoStreamAck)
    requires
        a.json() == b.json(),
    ensures
        same_ack(a, b),
{
    reveal_strlit("ok");
    reveal_strlit("message");
    assert("ok"@.len() == 2);
    assert("message"@.len() == 7);
    assert(a.json().get("ok"@) == b.json().get("ok"@));
    assert(a.json().get("message"@) == b.json().get("message"@));
}

/// The two say the same.
pub open spec fn same_policy(a: ContainerNetworkPolicy, b: ContainerNetworkPolicy) -> bool {
    &&& a.default_allow == b.default_allow
    &&& a.audit_mode == b.audit_mode
    &&& address::address_views(a.allow_addresses@) == address::address_views(b.allow_addresses@)
    &&& address::address_views(a.deny_addresses@) == address::address_views(b.deny_addresses@)
}

/// Policies that are sent alike are the same.
pub proof fn law_policy_is_told_whole(a: ContainerNetworkPolicy, b: ContainerNetworkPolicy)
    requires
        a.json() == b.json(),
    ensures
        same_policy(a, b),
{
    reveal_strlit("default_allow");
    reveal_strlit("audit_mode");
    reveal_strlit("allow_addresses");
    reveal_strlit("deny_addresses");
    assert("default_allow"@.len() == 13);
    assert("audit_mode"@.len() == 10);
    assert("allow_addresses"@.len() == 15);
    assert("deny_addresses"@.len() == 14);
    assert(a.json().get("default_allow"@) == b.json().get("default_allow"@));
    assert(a.json().get("audit_mode"@) == b.json().get("audit_mode"@));
    assert(a.json().get("allow_addresses"@) == b.json().get("allow_addresses"@));
    address::lemma_addresses_told(a.allow_addresses@, b.allow_addresses@);
    assert(a.json().get("deny_addresses"@) == b.json().get("deny_addresses"@));
    address::lemma_addresses_told(a.deny_addresses@, b.deny_addresses@);
}

/// The two say the same, or nothing.
pub open spec fn same_opt_policy(
    a: Option<ContainerNetworkPolicy>,
    b: Option<ContainerNetworkPolicy>,
) -> bool {
    match (a, b) {
        (Some(x), Some(y)) => same_policy(x, y),
        (None, None) => true,
        _ => false,
    }
}

/// Optional policies that are sent alike are the same.
proof fn lemma_opt_policy_told(
    a: Option<ContainerNetworkPolicy>,
    b: Option<ContainerNetworkPolicy>,
)
    requires
        protocol::opt_policy_json(a) == protocol::opt_policy_json(b),
    ensures
        same_opt_policy(a, b),
{
    if let (Some(x), Some(y)) = (a, b) {
        law_policy_is_told_whole(x, y);
    }
}

/// The two say the same.
pub open spec fn same_limits(a: ResourceLimits, b: ResourceLimits) -> bool {
    &&& a.cpu_quota == b.cpu_quota
    &&& a.cpu_period == b.cpu_period
    &&& a.cpu_shares == b.cpu_shares
    &&& text::optional_string(a.cpuset_cpus) == text::optional_string(b.cpuset_cpus)
    &&& text::optional_string(a.cpuset_mems) == text::optional_string(b.cpuset_mems)
    &&& a.memory_limit_bytes == b.memory_limit_bytes
    &&& a.memory_reservation_bytes == b.memory_reservation_bytes
    &&& a.memory_swap_bytes == b.memory_swap_bytes
    &&& a.pids_limit == b.pids_limit
    &&& labels::labels_view(a.unified@) == labels::labels_view(b.unified@)
}

/// Limits that are sent alike are the same.
#[verifier::spinoff_prover]
#[verifier::rlimit(40)]
pub proof fn law_limits_is_told_whole(a: ResourceLimits, b: ResourceLimits)
    requires
        a.json() == b.json(),
    ensures
        same_limits(a, b),
{
    reveal_strlit("cpu_quota");
    reveal_strlit("cpu_period");
    reveal_strlit("cpu_shares");
    reveal_strlit("cpuset_cpus");
    reveal_strlit("cpuset_mems");
    reveal_strlit("memory_limit_bytes");
    reveal_strlit("memory_reservation_bytes");
    reveal_strlit("memory_swap_bytes");
    reveal_strlit("pids_limit");
    reveal_strlit("unified");
    assert("cpu_quota"@.len() == 9);
    assert("cpu_period"@.len() == 10);
    assert("cpu_shares"@.len() == 10);
    assert("cpuset_cpus"@.len() == 11);
    assert("cpuset_mems"@.len() == 11);
    assert("memory_limit_bytes"@.len() == 18);
    assert("memory_reservation_bytes"@.len() == 24);
    assert("memory_swap_bytes"@.len() == 17);
    assert("pids_limit"@.len() == 10);
    assert("unified"@.len() == 7);
    assert("cpu_period"@[4] != "cpu_shares"@[4]);
    assert("cpu_period"@[0] != "pids_limit"@[0]);
    assert("cpu_shares"@[0] != "pids_limit"@[0]);
    assert("cpuset_cpus"@[7] != "cpuset_mems"@[7]);
    assert(a.json().get("cpu_quota"@) == b.json().get("cpu_quota"@));
    assert(a.json().get("cpu_period"@) == b.json().get("cpu_period"@));
    assert(a.json().get("cpu_shares"@) == b.json().get("cpu_shares"@));
    assert(a.json().get("cpuset_cpus"@) == b.json().get("cpuset_cpus"@));
    assert(a.json().get("cpuset_mems"@) == b.json().get("cpuset_mems"@));
    assert(a.json().get("memory_limit_bytes"@) == b.json().get("memory_limit_bytes"@));
    assert(a.json().get("memory_reservation_bytes"@) == b.json().get("memory_reservation_bytes"@));
    assert(a.json().get("memory_swap_bytes"@) == b.json().get("memory_swap_bytes"@));
    assert(a.json().get("pids_limit"@) == b.json().get("pids_limit"@));
    assert(a.json().get("unified"@) == b.json().get("unified"@));
    lemma_map_told(a.unified@, b.unified@);
}

/// The two say the same.
pub open spec fn same_stats(a: ContainerStats, b: ContainerStats) -> bool {
    &&& a.cpu_usage_usec == b.cpu_usage_usec
    &&& a.cpu_user_usec == b.cpu_user_usec
    &&& a.cpu_system_usec == b.cpu_system_usec
    &&& a.cpu_nr_periods == b.cpu_nr_periods
    &&& a.cpu_nr_throttled == b.cpu_nr_throttled
    &&& a.cpu_throttled_usec == b.cpu_throttled_usec
    &&& a.memory_usage_bytes == b.memory_usage_bytes
    &&& a.memory_limit_bytes == b.memory_limit_bytes
    &&& a.memory_peak_bytes == b.memory_peak_bytes
    &&& a.memory_swap_usage_bytes == b.memory_swap_usage_bytes
    &&& a.memory_swap_limit_bytes == b.memory_swap_limit_bytes
    &&& a.memory_anon_bytes == b.memory_anon_bytes
    &&& a.memory_file_bytes == b.memory_file_bytes
    &&& a.memory_anon_thp_bytes == b.memory_anon_thp_bytes
    &&& a.memory_file_mapped_bytes == b.memory_file_mapped_bytes
    &&& a.memory_dirty_bytes == b.memory_dirty_bytes
    &&& a.memory_writeback_bytes == b.memory_writeback_bytes
    &&& a.memory_pgfault == b.memory_pgfault
    &&& a.memory_pgmajfault == b.memory_pgmajfault
    &&& a.memory_inactive_anon_bytes == b.memory_inactive_anon_bytes
    &&& a.memory_active_anon_bytes == b.memory_active_anon_bytes
    &&& a.memory_total_inactive_file_bytes == b.memory_total_inactive_file_bytes
    &&& a.memory_active_file_bytes == b.memory_active_file_bytes
    &&& a.memory_unevictable_bytes == b.memory_unevictable_bytes
    &&& a.memory_events_max == b.memory_events_max
    &&& a.memory_events_oom == b.memory_events_oom
    &&& a.memory_events_oom_kill == b.memory_events_oom_kill
    &&& a.pids_current == b.pids_current
    &&& a.pids_limit == b.pids_limit
}

/// Counters that are sent alike are the same.
pub proof fn law_stats_is_told_whole(a: ContainerStats, b: ContainerStats)
    requires
        a.json() == b.json(),
    ensures
        same_stats(a, b),
{
    reveal_strlit("cpu_usage_usec");
    reveal_strlit("cpu_user_usec");
    reveal_strlit("cpu_system_usec");
    reveal_strlit("cpu_nr_periods");
    reveal_strlit("cpu_nr_throttled");
    reveal_strlit("cpu_throttled_usec");
    reveal_strlit("memory_usage_bytes");
    reveal_strlit("memory_limit_bytes");
    reveal_strlit("memory_peak_bytes");
    reveal_strlit("memory_swap_usage_bytes");
    reveal_strlit("memory_swap_limit_bytes");
    reveal_strlit("memory_anon_bytes");
    reveal_strlit("memory_file_bytes");
    reveal_strlit("memory_anon_thp_bytes");
    reveal_strlit("memory_file_mapped_bytes");
    reveal_strlit("memory_dirty_bytes");
    reveal_strlit("memory_writeback_bytes");
    reveal_strlit("memory_pgfault");
    reveal_strlit("memory_pgmajfault");
    reveal_strlit("memory_inactive_anon_bytes");
    reveal_strlit("memory_active_anon_bytes");
    reveal_strlit("memory_total_inactive_file_bytes");
    reveal_strlit("memory_active_file_bytes");
    reveal_strlit("memory_unevictable_bytes");
    reveal_strlit("memory_events_max");
    reveal_strlit("memory_events_oom");
    reveal_strlit("memory_events_oom_kill");
    reveal_strlit("pids_current");
    reveal_strlit("pids_limit");
    assert("cpu_usage_usec"@.len() == 14);
    assert("cpu_user_usec"@.len() == 13);
    assert("cpu_system_usec"@.len() == 15);
    assert("cpu_nr_periods"@.len() == 14);
    assert("cpu_nr_throttled"@.len() == 16);
    assert("cpu_throttled_usec"@.len() == 18);
    assert("memory_usage_bytes"@.len() == 18);
    assert("memory_limit_bytes"@.len() == 18);
    assert("memory_peak_bytes"@.len() == 17);
    assert("memory_swap_usage_bytes"@.len() == 23);
    assert("memory_swap_limit_bytes"@.len() == 23);
    assert("memory_anon_bytes"@.len() == 17);
    assert("memory_file_bytes"@.len() == 17);
    assert("memory_anon_thp_bytes"@.len() == 21);
    assert("memory_file_mapped_bytes"@.len() == 24);
    assert("memory_dirty_bytes"@.len() == 18);
    assert("memory_writeback_bytes"@.len() == 22);
    assert("memory_pgfault"@.len() == 14);
    assert("memory_pgmajfault"@.len() == 17);
    assert("memory_inactive_anon_bytes"@.len() == 26);
    assert("memory_active_anon_bytes"@.len() == 24);
    assert("memory_total_inactive_file_bytes"@.len() == 32);
    assert("memory_active_file_bytes"@.len() == 24);
    assert("memory_unevictable_bytes"@.len() == 24);
    assert("memory_events_max"@.len() == 17);
    assert("memory_events_oom"@.len() == 17);
    assert("memory_events_oom_kill"@.len() == 22);
    assert("pids_current"@.len() == 12);
    assert("pids_limit"@.len() == 10);
    assert("cpu_usage_usec"@[4] != "cpu_nr_periods"@[4]);
    assert("cpu_usage_usec"@[0] != "memory_pgfault"@[0]);
    assert("cpu_nr_periods"@[0] != "memory_pgfault"@[0]);
    assert("cpu_throttled_usec"@[0] != "memory_usage_bytes"@[0]);
    assert("cpu_throttled_usec"@[0] != "memory_limit_bytes"@[0]);
    assert("cpu_throttled_usec"@[0] != "memory_dirty_bytes"@[0]);
    assert("memory_usage_bytes"@[7] != "memory_limit_bytes"@[7]);
    assert("memory_usage_bytes"@[7] != "memory_dirty_bytes"@[7]);
    assert("memory_limit_bytes"@[7] != "memory_dirty_bytes"@[7]);
    assert("memory_peak_bytes"@[7] != "memory_anon_bytes"@[7]);
    assert("memory_peak_bytes"@[7] != "memory_file_bytes"@[7]);
    assert("memory_peak_bytes"@[8] != "memory_pgmajfault"@[8]);
    assert("memory_peak_bytes"@[7] != "memory_events_max"@[7]);
    assert("memory_peak_bytes"@[7] != "memory_events_oom"@[7]);
    assert("memory_swap_usage_bytes"@[12] != "memory_swap_limit_bytes"@[12]);
    assert("memory_anon_bytes"@[7] != "memory_file_bytes"@[7]);
    assert("memory_anon_bytes"@[7] != "memory_pgmajfault"@[7]);
    assert("memory_anon_bytes"@[7] != "memory_events_max"@[7]);
    assert("memory_anon_bytes"@[7] != "memory_events_oom"@[7]);
    assert("memory_file_bytes"@[7] != "memory_pgmajfault"@[7]);
    assert("memory_file_bytes"@[7] != "memory_events_max"@[7]);
    assert("memory_file_bytes"@[7] != "memory_events_oom"@[7]);
    assert("memory_file_mapped_bytes"@[7] != "memory_active_anon_bytes"@[7]);
    assert("memory_file_mapped_bytes"@[7] != "memory_active_file_bytes"@[7]);
    assert("memory_file_mapped_bytes"@[7] != "memory_unevictable_bytes"@[7]);
    assert("memory_writeback_bytes"@[7] != "memory_events_oom_kill"@[7]);
    assert("memory_pgmajfault"@[7] != "memory_events_max"@[7]);
    assert("memory_pgmajfault"@[7] != "memory_events_oom"@[7]);
    assert("memory_active_anon_bytes"@[14] != "memory_active_file_bytes"@[14]);
    assert("memory_active_anon_bytes"@[7] != "memory_unevictable_bytes"@[7]);
    assert("memory_active_file_bytes"@[7] != "memory_unevictable_bytes"@[7]);
    assert("memory_events_max"@[14] != "memory_events_oom"@[14]);
    assert(a.json().get("cpu_usage_usec"@) == b.json().get("cpu_usage_usec"@));
    assert(a.json().get("cpu_user_usec"@) == b.json().get("cpu_user_usec"@));
    assert(a.json().get("cpu_system_usec"@) == b.json().get("cpu_system_usec"@));
    assert(a.json().get("cpu_nr_periods"@) == b.json().get("cpu_nr_periods"@));
    assert(a.json().get("cpu_nr_throttled"@) == b.json().get("cpu_nr_throttled"@));
    assert(a.json().get("cpu_throttled_usec"@) == b.json().get("cpu_throttled_usec"@));
    assert(a.json().get("memory_usage_bytes"@) == b.json().get("memory_usage_bytes"@));
    assert(a.json().get("memory_limit_bytes"@) == b.json().get("memory_limit_bytes"@));
    assert(a.json().get("memory_peak_bytes"@) == b.json().get("memory_peak_bytes"@));
    assert(a.json().get("memory_swap_usage_bytes"@) == b.json().get("memory_swap_usage_bytes"@));
    assert(a.json().get("memory_swap_limit_bytes"@) == b.json().get("memory_swap_limit_bytes"@));
    assert(a.json().get("memory_anon_bytes"@) == b.json().get("memory_anon_bytes"@));
    assert(a.json().get("memory_file_bytes"@) == b.json().get("memory_file_bytes"@));
    assert(a.json().get("memory_anon_thp_bytes"@) == b.json().get("memory_anon_thp_bytes"@));
    assert(a.json().get("memory_file_mapped_bytes"@) == b.json().get("memory_file_mapped_bytes"@));
    assert(a.json().get("memory_dirty_bytes"@) == b.json().get("memory_dirty_bytes"@));
    assert(a.json().get("memory_writeback_bytes"@) == b.json().get("memory_writeback_bytes"@));
    assert(a.json().get("memory_pgfault"@) == b.json().get("memory_pgfault"@));
    assert(a.json().get("memory_pgmajfault"@) == b.json().get("memory_pgmajfault"@));
    assert(
        a.json().get("memory_inactive_anon_bytes"@) == b.json().get("memory_inactive_anon_bytes"@)
    );
    assert(a.json().get("memory_active_anon_bytes"@) == b.json().get("memory_active_anon_bytes"@));
    assert(
        a.json().get(
            "memory_total_inactive_file_bytes"@,
        ) == b.json().get("memory_total_inactive_file_bytes"@)
    );
    assert(a.json().get("memory_active_file_bytes"@) == b.json().get("memory_active_file_bytes"@));
    assert(a.json().get("memory_unevictable_bytes"@) == b.json().get("memory_unevictable_bytes"@));
    assert(a.json().get("memory_events_max"@) == b.json().get("memory_events_max"@));
    assert(a.json().get("memory_events_oom"@) == b.json().get("memory_events_oom"@));
    assert(a.json().get("memory_events_oom_kill"@) == b.json().get("memory_events_oom_kill"@));
    assert(a.json().get("pids_current"@) == b.json().get("pids_current"@));
    assert(a.json().get("pids_limit"@) == b.json().get("pids_limit"@));
}

/// The two say the same.
pub open spec fn same_events(a: CgroupEvents, b: CgroupEvents) -> bool {
    &&& a.low == b.low
    &&& a.high == b.high
    &&& a.max == b.max
    &&& a.oom == b.oom
    &&& a.oom_kill == b.oom_kill
    &&& a.oom_group_kill == b.oom_group_kill
}

/// Event counters that are sent alike are the same.
pub proof fn law_events_is_told_whole(a: CgroupEvents, b: CgroupEvents)
    requires
        a.json() == b.json(),
    ensures
        same_events(a, b),
{
    reveal_strlit("low");
    reveal_strlit("high");
    reveal_strlit("max");
    reveal_strlit("oom");
    reveal_strlit("oom_kill");
    reveal_strlit("oom_group_kill");
    assert("low"@.len() == 3);
    assert("high"@.len() == 4);
    assert("max"@.len() == 3);
    assert("oom"@.len() == 3);
    assert("oom_kill"@.len() == 8);
    assert("oom_group_kill"@.len() == 14);
    assert("low"@[0] != "max"@[0]);
    assert("low"@[0] != "oom"@[0]);
    assert("max"@[0] != "oom"@[0]);
    assert(a.json().get("low"@) == b.json().get("low"@));
    assert(a.json().get("high"@) == b.json().get("high"@));
    assert(a.json().get("max"@) == b.json().get("max"@));
    assert(a.json().get("oom"@) == b.json().get("oom"@));
    assert(a.json().get("oom_kill"@) == b.json().get("oom_kill"@));
    assert(a.json().get("oom_group_kill"@) == b.json().get("oom_group_kill"@));
}

/// The two say the same.
pub open spec fn same_security(a: SecurityStats, b: SecurityStats) -> bool {
    &&& a.seccomp_notify_received == b.seccomp_notify_received
    &&& a.seccomp_notify_denied == b.seccomp_notify_denied
    &&& a.seccomp_notify_continued == b.seccomp_notify_continued
    &&& a.seccomp_notify_errors == b.seccomp_notify_errors
    &&& a.selinux_mounts_labeled == b.selinux_mounts_labeled
    &&& a.lsm_apply_failures == b.lsm_apply_failures
}

/// Security counters that are sent alike are the same.
pub proof fn law_security_is_told_whole(a: SecurityStats, b: SecurityStats)
    requires
        a.json() == b.json(),
    ensures
        same_security(a, b),
{
    reveal_strlit("seccomp_notify_received");
    reveal_strlit("seccomp_notify_denied");
    reveal_strlit("seccomp_notify_continued");
    reveal_strlit("seccomp_notify_errors");
    reveal_strlit("selinux_mounts_labeled");
    reveal_strlit("lsm_apply_failures");
    assert("seccomp_notify_received"@.len() == 23);
    assert("seccomp_notify_denied"@.len() == 21);
    assert("seccomp_notify_continued"@.len() == 24);
    assert("seccomp_notify_errors"@.len() == 21);
    assert("selinux_mounts_labeled"@.len() == 22);
    assert("lsm_apply_failures"@.len() == 18);
    assert("seccomp_notify_denied"@[15] != "seccomp_notify_errors"@[15]);
    assert(a.json().get("seccomp_notify_received"@) == b.json().get("seccomp_notify_received"@));
    assert(a.json().get("seccomp_notify_denied"@) == b.json().get("seccomp_notify_denied"@));
    assert(a.json().get("seccomp_notify_continued"@) == b.json().get("seccomp_notify_continued"@));
    assert(a.json().get("seccomp_notify_errors"@) == b.json().get("seccomp_notify_errors"@));
    assert(a.json().get("selinux_mounts_labeled"@) == b.json().get("selinux_mounts_labeled"@));
    assert(a.json().get("lsm_apply_failures"@) == b.json().get("lsm_apply_failures"@));
}

/// Which message it is.
pub open spec fn kind_of_request(x: ContainerRequest) -> RequestKind {
    match x {
        ContainerRequest::Ping => RequestKind::Ping,
        ContainerRequest::ConfigureSandboxResources { .. } => RequestKind::ConfigureSandboxResources,
        ContainerRequest::Create { .. } => RequestKind::Create,
        ContainerRequest::Start { .. } => RequestKind::Start,
        ContainerRequest::State { .. } => RequestKind::State,
        ContainerRequest::Exec { .. } => RequestKind::Exec,
        ContainerRequest::Kill { .. } => RequestKind::Kill,
        ContainerRequest::Pause { .. } => RequestKind::Pause,
        ContainerRequest::Resume { .. } => RequestKind::Resume,
        ContainerRequest::Wait { .. } => RequestKind::Wait,
        ContainerRequest::Pids { .. } => RequestKind::Pids,
        ContainerRequest::Stats { .. } => RequestKind::Stats,
        ContainerRequest::CgroupEvents { .. } => RequestKind::CgroupEvents,
        ContainerRequest::SecurityStats => RequestKind::SecurityStats,
        ContainerRequest::UpdateResources { .. } => RequestKind::UpdateResources,
        ContainerRequest::ResizePty { .. } => RequestKind::ResizePty,
        ContainerRequest::CloseIo { .. } => RequestKind::CloseIo,
        ContainerRequest::Delete { .. } => RequestKind::Delete,
    }
}

/// The two say the same.
pub open spec fn same_request(a: ContainerRequest, b: ContainerRequest) -> bool {
    match (a, b) {
        (ContainerRequest::Ping, ContainerRequest::Ping) => true,
        (
            ContainerRequest::ConfigureSandboxResources { resources: resources_a },
            ContainerRequest::ConfigureSandboxResources { resources: resources_b },
        ) => same_limits(resources_a, resources_b),
        (
            ContainerRequest::Create {
                id: id_a,
                config_json: config_json_a,
                io: io_a,
                is_sandbox: is_sandbox_a,
                share_process_namespace: share_process_namespace_a,
                network_policy: network_policy_a,
            },
            ContainerRequest::Create {
                id: id_b,
                config_json: config_json_b,
                io: io_b,
                is_sandbox: is_sandbox_b,
                share_process_namespace: share_process_namespace_b,
                network_policy: network_policy_b,
            },
        ) => {
            &&& id_a@ == id_b@
            &&& config_json_a@ == config_json_b@
            &&& same_io(io_a, io_b)
            &&& is_sandbox_a == is_sandbox_b
            &&& share_process_namespace_a == share_process_namespace_b
            &&& same_opt_policy(network_policy_a, network_policy_b)
        },
        (
            ContainerRequest::Start { id: id_a, exec_id: exec_id_a },
            ContainerRequest::Start { id: id_b, exec_id: exec_id_b },
        ) => {
            &&& id_a@ == id_b@
            &&& text::optional_string(exec_id_a) == text::optional_string(exec_id_b)
        },
        (
            ContainerRequest::State { id: id_a, exec_id: exec_id_a },
            ContainerRequest::State { id: id_b, exec_id: exec_id_b },
        ) => {
            &&& id_a@ == id_b@
            &&& text::optional_string(exec_id_a) == text::optional_string(exec_id_b)
        },
        (
            ContainerRequest::Exec {
                id: id_a,
                exec_id: exec_id_a,
                process_json: process_json_a,
                io: io_a,
            },
            ContainerRequest::Exec {
                id: id_b,
                exec_id: exec_id_b,
                process_json: process_json_b,
                io: io_b,
            },
        ) => {
            &&& id_a@ == id_b@
            &&& exec_id_a@ == exec_id_b@
            &&& process_json_a@ == process_json_b@
            &&& same_io(io_a, io_b)
        },
        (
            ContainerRequest::Kill { id: id_a, exec_id: exec_id_a, signal: signal_a, all: all_a },
            ContainerRequest::Kill { id: id_b, exec_id: exec_id_b, signal: signal_b, all: all_b },
        ) => {
            &&& id_a@ == id_b@
            &&& text::optional_string(exec_id_a) == text::optional_string(exec_id_b)
            &&& signal_a == signal_b
            &&& all_a == all_b
        },
        (
            ContainerRequest::Pause { id: id_a },
            ContainerRequest::Pause { id: id_b },
        ) => id_a@ == id_b@,
        (
            ContainerRequest::Resume { id: id_a },
            ContainerRequest::Resume { id: id_b },
        ) => id_a@ == id_b@,
        (
            ContainerRequest::Wait { id: id_a, exec_id: exec_id_a },
            ContainerRequest::Wait { id: id_b, exec_id: exec_id_b },
        ) => {
            &&& id_a@ == id_b@
            &&& text::optional_string(exec_id_a) == text::optional_string(exec_id_b)
        },
        (
            ContainerRequest::Pids { id: id_a },
            ContainerRequest::Pids { id: id_b },
        ) => id_a@ == id_b@,
        (
            ContainerRequest::Stats { id: id_a },
            ContainerRequest::Stats { id: id_b },
        ) => id_a@ == id_b@,
        (
            ContainerRequest::CgroupEvents { id: id_a },
            ContainerRequest::CgroupEvents { id: id_b },
        ) => id_a@ == id_b@,
        (ContainerRequest::SecurityStats, ContainerRequest::SecurityStats) => true,
        (
            ContainerRequest::UpdateResources { id: id_a, resources: resources_a },
            ContainerRequest::UpdateResources { id: id_b, resources: resources_b },
        ) => {
            &&& id_a@ == id_b@
            &&& same_limits(resources_a, resources_b)
        },
        (
            ContainerRequest::ResizePty {
                id: id_a,
                exec_id: exec_id_a,
                width: width_a,
                height: height_a,
            },
            ContainerRequest::ResizePty {
                id: id_b,
                exec_id: exec_id_b,
                width: width_b,
                height: height_b,
            },
        ) => {
            &&& id_a@ == id_b@
            &&& text::optional_string(exec_id_a) == text::optional_string(exec_id_b)
            &&& width_a == width_b
            &&& height_a == height_b
        },
        (
            ContainerRequest::CloseIo { id: id_a, exec_id: exec_id_a },
            ContainerRequest::CloseIo { id: id_b, exec_id: exec_id_b },
        ) => {
            &&& id_a@ == id_b@
            &&& text::optional_string(exec_id_a) == text::optional_string(exec_id_b)
        },
        (
            ContainerRequest::Delete { id: id_a, exec_id: exec_id_a, force: force_a },
            ContainerRequest::Delete { id: id_b, exec_id: exec_id_b, force: force_b },
        ) => {
            &&& id_a@ == id_b@
            &&& text::optional_string(exec_id_a) == text::optional_string(exec_id_b)
            &&& force_a == force_b
        },
        _ => false,
    }
}

/// A message tells which one it is.
proof fn lemma_request_tag(x: ContainerRequest)
    ensures
        x.json().get("op"@) == Some(Js::Str(kind_of_request(x).text())),
{
    reveal_strlit("op");
    reveal_strlit("resources");
    reveal_strlit("id");
    reveal_strlit("config_json");
    reveal_strlit("io");
    reveal_strlit("is_sandbox");
    reveal_strlit("share_process_namespace");
    reveal_strlit("network_policy");
    reveal_strlit("exec_id");
    reveal_strlit("process_json");
    reveal_strlit("signal");
    reveal_strlit("all");
    reveal_strlit("width");
    reveal_strlit("height");
    reveal_strlit("force");
    assert("op"@.len() == 2);
    assert("resources"@.len() == 9);
    assert("id"@.len() == 2);
    assert("op"@[0] != "id"@[0]);
    assert("config_json"@.len() == 11);
    assert("io"@.len() == 2);
    assert("op"@[0] != "io"@[0]);
    assert("is_sandbox"@.len() == 10);
    assert("share_process_namespace"@.len() == 23);
    assert("network_policy"@.len() == 14);
    assert("exec_id"@.len() == 7);
    assert("process_json"@.len() == 12);
    assert("signal"@.len() == 6);
    assert("all"@.len() == 3);
    assert("width"@.len() == 5);
    assert("height"@.len() == 6);
    assert("force"@.len() == 5);
}

/// `ContainerRequest::ConfigureSandboxResources` is told whole.
proof fn lemma_request_configure_sandbox_resources_told(a: ContainerRequest, b: ContainerRequest)
    requires
        a is ConfigureSandboxResources,
        b is ConfigureSandboxResources,
        a.json() == b.json(),
    ensures
        same_request(a, b),
{
    reveal_strlit("op");
    reveal_strlit("resources");
    assert("op"@.len() == 2);
    assert("resources"@.len() == 9);
    if let (
        ContainerRequest::ConfigureSandboxResources { resources: resources_a },
        ContainerRequest::ConfigureSandboxResources { resources: resources_b },
    ) = (a, b) {
        assert(a.json().get("resources"@) == b.json().get("resources"@));
        law_limits_is_told_whole(resources_a, resources_b);
    }
}

/// `ContainerRequest::Create` is told whole.
proof fn lemma_request_create_told(a: ContainerRequest, b: ContainerRequest)
    requires
        a is Create,
        b is Create,
        a.json() == b.json(),
    ensures
        same_request(a, b),
{
    reveal_strlit("op");
    reveal_strlit("id");
    reveal_strlit("config_json");
    reveal_strlit("io");
    reveal_strlit("is_sandbox");
    reveal_strlit("share_process_namespace");
    reveal_strlit("network_policy");
    assert("op"@.len() == 2);
    assert("id"@.len() == 2);
    assert("config_json"@.len() == 11);
    assert("io"@.len() == 2);
    assert("is_sandbox"@.len() == 10);
    assert("share_process_namespace"@.len() == 23);
    assert("network_policy"@.len() == 14);
    assert("op"@[0] != "id"@[0]);
    assert("op"@[0] != "io"@[0]);
    assert("id"@[1] != "io"@[1]);
    if let (
        ContainerRequest::Create {
            id: id_a,
            config_json: config_json_a,
            io: io_a,
            is_sandbox: is_sandbox_a,
            share_process_namespace: share_process_namespace_a,
            network_policy: network_policy_a,
        },
        ContainerRequest::Create {
            id: id_b,
            config_json: config_json_b,
            io: io_b,
            is_sandbox: is_sandbox_b,
            share_process_namespace: share_process_namespace_b,
            network_policy: network_policy_b,
        },
    ) = (a, b) {
        assert(a.json().get("id"@) == b.json().get("id"@));
        assert(a.json().get("config_json"@) == b.json().get("config_json"@));
        assert(a.json().get("io"@) == b.json().get("io"@));
        law_io_is_told_whole(io_a, io_b);
        assert(a.json().get("is_sandbox"@) == b.json().get("is_sandbox"@));
        assert(
            a.json().get("share_process_namespace"@) == b.json().get("share_process_namespace"@)
        );
        assert(a.json().get("network_policy"@) == b.json().get("network_policy"@));
        lemma_opt_policy_told(network_policy_a, network_policy_b);
    }
}

/// `ContainerRequest::Start` is told whole.
proof fn lemma_request_start_told(a: ContainerRequest, b: ContainerRequest)
    requires
        a is Start,
        b is Start,
        a.json() == b.json(),
    ensures
        same_request(a, b),
{
    reveal_strlit("op");
    reveal_strlit("id");
    reveal_strlit("exec_id");
    assert("op"@.len() == 2);
    assert("id"@.len() == 2);
    assert("exec_id"@.len() == 7);
    assert("op"@[0] != "id"@[0]);
    if let (
        ContainerRequest::Start { id: id_a, exec_id: exec_id_a },
        ContainerRequest::Start { id: id_b, exec_id: exec_id_b },
    ) = (a, b) {
        assert(a.json().get("id"@) == b.json().get("id"@));
        assert(a.json().get("exec_id"@) == b.json().get("exec_id"@));
    }
}

/// `ContainerRequest::State` is told whole.
proof fn lemma_request_state_told(a: ContainerRequest, b: ContainerRequest)
    requires
        a is State,
        b is State,
        a.json() == b.json(),
    ensures
        same_request(a, b),
{
    reveal_strlit("op");
    reveal_strlit("id");
    reveal_strlit("exec_id");
    assert("op"@.len() == 2);
    assert("id"@.len() == 2);
    assert("exec_id"@.len() == 7);
    assert("op"@[0] != "id"@[0]);
    if let (
        ContainerRequest::State { id: id_a, exec_id: exec_id_a },
        ContainerRequest::State { id: id_b, exec_id: exec_id_b },
    ) = (a, b) {
        assert(a.json().get("id"@) == b.json().get("id"@));
        assert(a.json().get("exec_id"@) == b.json().get("exec_id"@));
    }
}

/// `ContainerRequest::Exec` is told whole.
proof fn lemma_request_exec_told(a: ContainerRequest, b: ContainerRequest)
    requires
        a is Exec,
        b is Exec,
        a.json() == b.json(),
    ensures
        same_request(a, b),
{
    reveal_strlit("op");
    reveal_strlit("id");
    reveal_strlit("exec_id");
    reveal_strlit("process_json");
    reveal_strlit("io");
    assert("op"@.len() == 2);
    assert("id"@.len() == 2);
    assert("exec_id"@.len() == 7);
    assert("process_json"@.len() == 12);
    assert("io"@.len() == 2);
    assert("op"@[0] != "id"@[0]);
    assert("op"@[0] != "io"@[0]);
    assert("id"@[1] != "io"@[1]);
    if let (
        ContainerRequest::Exec {
            id: id_a,
            exec_id: exec_id_a,
            process_json: process_json_a,
            io: io_a,
        },
        ContainerRequest::Exec {
            id: id_b,
            exec_id: exec_id_b,
            process_json: process_json_b,
            io: io_b,
        },
    ) = (a, b) {
        assert(a.json().get("id"@) == b.json().get("id"@));
        assert(a.json().get("exec_id"@) == b.json().get("exec_id"@));
        assert(a.json().get("process_json"@) == b.json().get("process_json"@));
        assert(a.json().get("io"@) == b.json().get("io"@));
        law_io_is_told_whole(io_a, io_b);
    }
}

/// `ContainerRequest::Kill` is told whole.
proof fn lemma_request_kill_told(a: ContainerRequest, b: ContainerRequest)
    requires
        a is Kill,
        b is Kill,
        a.json() == b.json(),
    ensures
        same_request(a, b),
{
    reveal_strlit("op");
    reveal_strlit("id");
    reveal_strlit("exec_id");
    reveal_strlit("signal");
    reveal_strlit("all");
    assert("op"@.len() == 2);
    assert("id"@.len() == 2);
    assert("exec_id"@.len() == 7);
    assert("signal"@.len() == 6);
    assert("all"@.len() == 3);
    assert("op"@[0] != "id"@[0]);
    if let (
        ContainerRequest::Kill { id: id_a, exec_id: exec_id_a, signal: signal_a, all: all_a },
        ContainerRequest::Kill { id: id_b, exec_id: exec_id_b, signal: signal_b, all: all_b },
    ) = (a, b) {
        assert(a.json().get("id"@) == b.json().get("id"@));
        assert(a.json().get("exec_id"@) == b.json().get("exec_id"@));
        assert(a.json().get("signal"@) == b.json().get("signal"@));
        assert(a.json().get("all"@) == b.json().get("all"@));
    }
}

/// `ContainerRequest::Pause` is told whole.
proof fn lemma_request_pause_told(a: ContainerRequest, b: ContainerRequest)
    requires
        a is Pause,
        b is Pause,
        a.json() == b.json(),
    ensures
        same_request(a, b),
{
    reveal_strlit("op");
    reveal_strlit("id");
    assert("op"@[0] != "id"@[0]);
    if let (
        ContainerRequest::Pause { id: id_a },
        ContainerRequest::Pause { id: id_b },
    ) = (a, b) {
        assert(a.json().get("id"@) == b.json().get("id"@));
    }
}

/// `ContainerRequest::Resume` is told whole.
proof fn lemma_request_resume_told(a: ContainerRequest, b: ContainerRequest)
    requires
        a is Resume,
        b is Resume,
        a.json() == b.json(),
    ensures
        same_request(a, b),
{
    reveal_strlit("op");
    reveal_strlit("id");
    assert("op"@[0] != "id"@[0]);
    if let (
        ContainerRequest::Resume { id: id_a },
        ContainerRequest::Resume { id: id_b },
    ) = (a, b) {
        assert(a.json().get("id"@) == b.json().get("id"@));
    }
}

/// `ContainerRequest::Wait` is told whole.
proof fn lemma_request_wait_told(a: ContainerRequest, b: ContainerRequest)
    requires
        a is Wait,
        b is Wait,
        a.json() == b.json(),
    ensures
        same_request(a, b),
{
    reveal_strlit("op");
    reveal_strlit("id");
    reveal_strlit("exec_id");
    assert("op"@.len() == 2);
    assert("id"@.len() == 2);
    assert("exec_id"@.len() == 7);
    assert("op"@[0] != "id"@[0]);
    if let (
        ContainerRequest::Wait { id: id_a, exec_id: exec_id_a },
        ContainerRequest::Wait { id: id_b, exec_id: exec_id_b },
    ) = (a, b) {
        assert(a.json().get("id"@) == b.json().get("id"@));
        assert(a.json().get("exec_id"@) == b.json().get("exec_id"@));
    }
}

/// `ContainerRequest::Pids` is told whole.
proof fn lemma_request_pids_told(a: ContainerRequest, b: ContainerRequest)
    requires
        a is Pids,
        b is Pids,
        a.json() == b.json(),
    ensures
        same_request(a, b),
{
    reveal_strlit("op");
    reveal_strlit("id");
    assert("op"@[0] != "id"@[0]);
    if let (
        ContainerRequest::Pids { id: id_a },
        ContainerRequest::Pids { id: id_b },
    ) = (a, b) {
        assert(a.json().get("id"@) == b.json().get("id"@));
    }
}

/// `ContainerRequest::Stats` is told whole.
proof fn lemma_request_stats_told(a: ContainerRequest, b: ContainerRequest)
    requires
        a is Stats,
        b is Stats,
        a.json() == b.json(),
    ensures
        same_request(a, b),
{
    reveal_strlit("op");
    reveal_strlit("id");
    assert("op"@[0] != "id"@[0]);
    if let (
        ContainerRequest::Stats { id: id_a },
        ContainerRequest::Stats { id: id_b },
    ) = (a, b) {
        assert(a.json().get("id"@) == b.json().get("id"@));
    }
}

/// `ContainerRequest::CgroupEvents` is told whole.
proof fn lemma_request_cgroup_events_told(a: ContainerRequest, b: ContainerRequest)
    requires
        a is CgroupEvents,
        b is CgroupEvents,
        a.json() == b.json(),
    ensures
        same_request(a, b),
{
    reveal_strlit("op");
    reveal_strlit("id");
    assert("op"@[0] != "id"@[0]);
    if let (
        ContainerRequest::CgroupEvents { id: id_a },
        ContainerRequest::CgroupEvents { id: id_b },
    ) = (a, b) {
        assert(a.json().get("id"@) == b.json().get("id"@));
    }
}

/// `ContainerRequest::UpdateResources` is told whole.
proof fn lemma_request_update_resources_told(a: ContainerRequest, b: ContainerRequest)
    requires
        a is UpdateResources,
        b is UpdateResources,
        a.json() == b.json(),
    ensures
        same_request(a, b),
{
    reveal_strlit("op");
    reveal_strlit("id");
    reveal_strlit("resources");
    assert("op"@.len() == 2);
    assert("id"@.len() == 2);
    assert("resources"@.len() == 9);
    assert("op"@[0] != "id"@[0]);
    if let (
        ContainerRequest::UpdateResources { id: id_a, resources: resources_a },
        ContainerRequest::UpdateResources { id: id_b, resources: resources_b },
    ) = (a, b) {
        assert(a.json().get("id"@) == b.json().get("id"@));
        assert(a.json().get("resources"@) == b.json().get("resources"@));
        law_limits_is_told_whole(resources_a, resources_b);
    }
}

/// `ContainerRequest::ResizePty` is told whole.
proof fn lemma_request_resize_pty_told(a: ContainerRequest, b: ContainerRequest)
    requires
        a is ResizePty,
        b is ResizePty,
        a.json() == b.json(),
    ensures
        same_request(a, b),
{
    reveal_strlit("op");
    reveal_strlit("id");
    reveal_strlit("exec_id");
    reveal_strlit("width");
    reveal_strlit("height");
    assert("op"@.len() == 2);
    assert("id"@.len() == 2);
    assert("exec_id"@.len() == 7);
    assert("width"@.len() == 5);
    assert("height"@.len() == 6);
    assert("op"@[0] != "id"@[0]);
    if let (
        ContainerRequest::ResizePty {
            id: id_a,
            exec_id: exec_id_a,
            width: width_a,
            height: height_a,
        },
        ContainerRequest::ResizePty {
            id: id_b,
            exec_id: exec_id_b,
            width: width_b,
            height: height_b,
        },
    ) = (a, b) {
        assert(a.json().get("id"@) == b.json().get("id"@));
        assert(a.json().get("exec_id"@) == b.json().get("exec_id"@));
        assert(a.json().get("width"@) == b.json().get("width"@));
        assert(a.json().get("height"@) == b.json().get("height"@));
    }
}

/// `ContainerRequest::CloseIo` is told whole.
proof fn lemma_request_close_io_told(a: ContainerRequest, b: ContainerRequest)
    requires
        a is CloseIo,
        b is CloseIo,
        a.json() == b.json(),
    ensures
        same_request(a, b),
{
    reveal_strlit("op");
    reveal_strlit("id");
    reveal_strlit("exec_id");
    assert("op"@.len() == 2);
    assert("id"@.len() == 2);
    assert("exec_id"@.len() == 7);
    assert("op"@[0] != "id"@[0]);
    if let (
        ContainerRequest::CloseIo { id: id_a, exec_id: exec_id_a },
        ContainerRequest::CloseIo { id: id_b, exec_id: exec_id_b },
    ) = (a, b) {
        assert(a.json().get("id"@) == b.json().get("id"@));
        assert(a.json().get("exec_id"@) == b.json().get("exec_id"@));
    }
}

/// `ContainerRequest::Delete` is told whole.
proof fn lemma_request_delete_told(a: ContainerRequest, b: ContainerRequest)
    requires
        a is Delete,
        b is Delete,
        a.json() == b.json(),
    ensures
        same_request(a, b),
{
    reveal_strlit("op");
    reveal_strlit("id");
    reveal_strlit("exec_id");
    reveal_strlit("force");
    assert("op"@.len() == 2);
    assert("id"@.len() == 2);
    assert("exec_id"@.len() == 7);
    assert("force"@.len() == 5);
    assert("op"@[0] != "id"@[0]);
    if let (
        ContainerRequest::Delete { id: id_a, exec_id: exec_id_a, force: force_a },
        ContainerRequest::Delete { id: id_b, exec_id: exec_id_b, force: force_b },
    ) = (a, b) {
        assert(a.json().get("id"@) == b.json().get("id"@));
        assert(a.json().get("exec_id"@) == b.json().get("exec_id"@));
        assert(a.json().get("force"@) == b.json().get("force"@));
    }
}

/// Requests that are sent alike are the same.
pub proof fn law_request_is_told_whole(a: ContainerRequest, b: ContainerRequest)
    requires
        a.json() == b.json(),
    ensures
        same_request(a, b),
{
    lemma_request_tag(a);
    lemma_request_tag(b);
    protocol::lemma_request_kind_names(kind_of_request(a));
    protocol::lemma_request_kind_names(kind_of_request(b));
    assert(kind_of_request(a) == kind_of_request(b));
    match a {
        ContainerRequest::ConfigureSandboxResources { .. } => {
            lemma_request_configure_sandbox_resources_told(a, b);
        },
        ContainerRequest::Create { .. } => {
            lemma_request_create_told(a, b);
        },
        ContainerRequest::Start { .. } => {
            lemma_request_start_told(a, b);
        },
        ContainerRequest::State { .. } => {
            lemma_request_state_told(a, b);
        },
        ContainerRequest::Exec { .. } => {
            lemma_request_exec_told(a, b);
        },
        ContainerRequest::Kill { .. } => {
            lemma_request_kill_told(a, b);
        },
        ContainerRequest::Pause { .. } => {
            lemma_request_pause_told(a, b);
        },
        ContainerRequest::Resume { .. } => {
            lemma_request_resume_told(a, b);
        },
        ContainerRequest::Wait { .. } => {
            lemma_request_wait_told(a, b);
        },
        ContainerRequest::Pids { .. } => {
            lemma_request_pids_told(a, b);
        },
        ContainerRequest::Stats { .. } => {
            lemma_request_stats_told(a, b);
        },
        ContainerRequest::CgroupEvents { .. } => {
            lemma_request_cgroup_events_told(a, b);
        },
        ContainerRequest::UpdateResources { .. } => {
            lemma_request_update_resources_told(a, b);
        },
        ContainerRequest::ResizePty { .. } => {
            lemma_request_resize_pty_told(a, b);
        },
        ContainerRequest::CloseIo { .. } => {
            lemma_request_close_io_told(a, b);
        },
        ContainerRequest::Delete { .. } => {
            lemma_request_delete_told(a, b);
        },
        _ => {},
    }
}

/// Which message it is.
pub open spec fn kind_of_response(x: ContainerResponse) -> ResponseKind {
    match x {
        ContainerResponse::Pong => ResponseKind::Pong,
        ContainerResponse::SandboxResourcesConfigured => ResponseKind::SandboxResourcesConfigured,
        ContainerResponse::Created { .. } => ResponseKind::Created,
        ContainerResponse::Started { .. } => ResponseKind::Started,
        ContainerResponse::ExecStarted { .. } => ResponseKind::ExecStarted,
        ContainerResponse::State { .. } => ResponseKind::State,
        ContainerResponse::Exited { .. } => ResponseKind::Exited,
        ContainerResponse::Pids { .. } => ResponseKind::Pids,
        ContainerResponse::Stats { .. } => ResponseKind::Stats,
        ContainerResponse::CgroupEvents { .. } => ResponseKind::CgroupEvents,
        ContainerResponse::SecurityStats { .. } => ResponseKind::SecurityStats,
        ContainerResponse::ResourcesUpdated => ResponseKind::ResourcesUpdated,
        ContainerResponse::PtyResized => ResponseKind::PtyResized,
        ContainerResponse::IoClosed => ResponseKind::IoClosed,
        ContainerResponse::Killed => ResponseKind::Killed,
        ContainerResponse::Paused => ResponseKind::Paused,
        ContainerResponse::Resumed => ResponseKind::Resumed,
        ContainerResponse::Deleted { .. } => ResponseKind::Deleted,
        ContainerResponse::Error { .. } => ResponseKind::Error,
    }
}

/// The two say the same.
pub open spec fn same_response(a: ContainerResponse, b: ContainerResponse) -> bool {
    match (a, b) {
        (ContainerResponse::Pong, ContainerResponse::Pong) => true,
        (
            ContainerResponse::SandboxResourcesConfigured,
            ContainerResponse::SandboxResourcesConfigured
        ) => true,
        (
            ContainerResponse::Created { pid: pid_a, container_identity: container_identity_a },
            ContainerResponse::Created { pid: pid_b, container_identity: container_identity_b },
        ) => {
            &&& pid_a == pid_b
            &&& container_identity_a == container_identity_b
        },
        (
            ContainerResponse::Started { pid: pid_a },
            ContainerResponse::Started { pid: pid_b },
        ) => pid_a == pid_b,
        (
            ContainerResponse::ExecStarted { pid: pid_a },
            ContainerResponse::ExecStarted { pid: pid_b },
        ) => pid_a == pid_b,
        (
            ContainerResponse::State {
                id: id_a,
                exec_id: exec_id_a,
                status: status_a,
                pid: pid_a,
                exit_code: exit_code_a,
                exited_at_unix_nano: exited_at_unix_nano_a,
            },
            ContainerResponse::State {
                id: id_b,
                exec_id: exec_id_b,
                status: status_b,
                pid: pid_b,
                exit_code: exit_code_b,
                exited_at_unix_nano: exited_at_unix_nano_b,
            },
        ) => {
            &&& id_a@ == id_b@
            &&& text::optional_string(exec_id_a) == text::optional_string(exec_id_b)
            &&& status_a == status_b
            &&& pid_a == pid_b
            &&& exit_code_a == exit_code_b
            &&& exited_at_unix_nano_a == exited_at_unix_nano_b
        },
        (
            ContainerResponse::Exited {
                exit_code: exit_code_a,
                exited_at_unix_nano: exited_at_unix_nano_a,
            },
            ContainerResponse::Exited {
                exit_code: exit_code_b,
                exited_at_unix_nano: exited_at_unix_nano_b,
            },
        ) => {
            &&& exit_code_a == exit_code_b
            &&& exited_at_unix_nano_a == exited_at_unix_nano_b
        },
        (
            ContainerResponse::Pids { pids: pids_a },
            ContainerResponse::Pids { pids: pids_b },
        ) => pids_a@ == pids_b@,
        (
            ContainerResponse::Stats { stats: stats_a },
            ContainerResponse::Stats { stats: stats_b },
        ) => same_stats(stats_a, stats_b),
        (
            ContainerResponse::CgroupEvents { events: events_a },
            ContainerResponse::CgroupEvents { events: events_b },
        ) => same_events(events_a, events_b),
        (
            ContainerResponse::SecurityStats { stats: stats_a },
            ContainerResponse::SecurityStats { stats: stats_b },
        ) => same_security(stats_a, stats_b),
        (ContainerResponse::ResourcesUpdated, ContainerResponse::ResourcesUpdated) => true,
        (ContainerResponse::PtyResized, ContainerResponse::PtyResized) => true,
        (ContainerResponse::IoClosed, ContainerResponse::IoClosed) => true,
        (ContainerResponse::Killed, ContainerResponse::Killed) => true,
        (ContainerResponse::Paused, ContainerResponse::Paused) => true,
        (ContainerResponse::Resumed, ContainerResponse::Resumed) => true,
        (
            ContainerResponse::Deleted {
                pid: pid_a,
                exit_code: exit_code_a,
                exited_at_unix_nano: exited_at_unix_nano_a,
            },
            ContainerResponse::Deleted {
                pid: pid_b,
                exit_code: exit_code_b,
                exited_at_unix_nano: exited_at_unix_nano_b,
            },
        ) => {
            &&& pid_a == pid_b
            &&& exit_code_a == exit_code_b
            &&& exited_at_unix_nano_a == exited_at_unix_nano_b
        },
        (
            ContainerResponse::Error { message: message_a },
            ContainerResponse::Error { message: message_b },
        ) => message_a@ == message_b@,
        _ => false,
    }
}

/// A message tells which one it is.
proof fn lemma_response_tag(x: ContainerResponse)
    ensures
        x.json().get("result"@) == Some(Js::Str(kind_of_response(x).text())),
{
    reveal_strlit("result");
    reveal_strlit("pid");
    reveal_strlit("container_identity");
    reveal_strlit("id");
    reveal_strlit("exec_id");
    reveal_strlit("status");
    reveal_strlit("exit_code");
    reveal_strlit("exited_at_unix_nano");
    reveal_strlit("pids");
    reveal_strlit("stats");
    reveal_strlit("events");
    reveal_strlit("message");
    assert("result"@.len() == 6);
    assert("pid"@.len() == 3);
    assert("container_identity"@.len() == 18);
    assert("id"@.len() == 2);
    assert("exec_id"@.len() == 7);
    assert("status"@.len() == 6);
    assert("result"@[0] != "status"@[0]);
    assert("exit_code"@.len() == 9);
    assert("exited_at_unix_nano"@.len() == 19);
    assert("pids"@.len() == 4);
    assert("stats"@.len() == 5);
    assert("events"@.len() == 6);
    assert("result"@[0] != "events"@[0]);
    assert("message"@.len() == 7);
}

/// `ContainerResponse::Created` is told whole.
proof fn lemma_response_created_told(a: ContainerResponse, b: ContainerResponse)
    requires
        a is Created,
        b is Created,
        a.json() == b.json(),
    ensures
        same_response(a, b),
{
    reveal_strlit("result");
    reveal_strlit("pid");
    reveal_strlit("container_identity");
    assert("result"@.len() == 6);
    assert("pid"@.len() == 3);
    assert("container_identity"@.len() == 18);
    if let (
        ContainerResponse::Created { pid: pid_a, container_identity: container_identity_a },
        ContainerResponse::Created { pid: pid_b, container_identity: container_identity_b },
    ) = (a, b) {
        assert(a.json().get("pid"@) == b.json().get("pid"@));
        assert(a.json().get("container_identity"@) == b.json().get("container_identity"@));
    }
}

/// `ContainerResponse::Started` is told whole.
proof fn lemma_response_started_told(a: ContainerResponse, b: ContainerResponse)
    requires
        a is Started,
        b is Started,
        a.json() == b.json(),
    ensures
        same_response(a, b),
{
    reveal_strlit("result");
    reveal_strlit("pid");
    assert("result"@.len() == 6);
    assert("pid"@.len() == 3);
    if let (
        ContainerResponse::Started { pid: pid_a },
        ContainerResponse::Started { pid: pid_b },
    ) = (a, b) {
        assert(a.json().get("pid"@) == b.json().get("pid"@));
    }
}

/// `ContainerResponse::ExecStarted` is told whole.
proof fn lemma_response_exec_started_told(a: ContainerResponse, b: ContainerResponse)
    requires
        a is ExecStarted,
        b is ExecStarted,
        a.json() == b.json(),
    ensures
        same_response(a, b),
{
    reveal_strlit("result");
    reveal_strlit("pid");
    assert("result"@.len() == 6);
    assert("pid"@.len() == 3);
    if let (
        ContainerResponse::ExecStarted { pid: pid_a },
        ContainerResponse::ExecStarted { pid: pid_b },
    ) = (a, b) {
        assert(a.json().get("pid"@) == b.json().get("pid"@));
    }
}

/// `ContainerResponse::State` is told whole.
proof fn lemma_response_state_told(a: ContainerResponse, b: ContainerResponse)
    requires
        a is State,
        b is State,
        a.json() == b.json(),
    ensures
        same_response(a, b),
{
    reveal_strlit("result");
    reveal_strlit("id");
    reveal_strlit("exec_id");
    reveal_strlit("status");
    reveal_strlit("pid");
    reveal_strlit("exit_code");
    reveal_strlit("exited_at_unix_nano");
    assert("result"@.len() == 6);
    assert("id"@.len() == 2);
    assert("exec_id"@.len() == 7);
    assert("status"@.len() == 6);
    assert("pid"@.len() == 3);
    assert("exit_code"@.len() == 9);
    assert("exited_at_unix_nano"@.len() == 19);
    assert("result"@[0] != "status"@[0]);
    if let (
        ContainerResponse::State {
            id: id_a,
            exec_id: exec_id_a,
            status: status_a,
            pid: pid_a,
            exit_code: exit_code_a,
            exited_at_unix_nano: exited_at_unix_nano_a,
        },
        ContainerResponse::State {
            id: id_b,
            exec_id: exec_id_b,
            status: status_b,
            pid: pid_b,
            exit_code: exit_code_b,
            exited_at_unix_nano: exited_at_unix_nano_b,
        },
    ) = (a, b) {
        assert(a.json().get("id"@) == b.json().get("id"@));
        assert(a.json().get("exec_id"@) == b.json().get("exec_id"@));
        assert(a.json().get("status"@) == b.json().get("status"@));
        protocol::lemma_status_names(status_a);
        protocol::lemma_status_names(status_b);
        assert(a.json().get("pid"@) == b.json().get("pid"@));
        assert(a.json().get("exit_code"@) == b.json().get("exit_code"@));
        assert(a.json().get("exited_at_unix_nano"@) == b.json().get("exited_at_unix_nano"@));
    }
}

/// `ContainerResponse::Exited` is told whole.
proof fn lemma_response_exited_told(a: ContainerResponse, b: ContainerResponse)
    requires
        a is Exited,
        b is Exited,
        a.json() == b.json(),
    ensures
        same_response(a, b),
{
    reveal_strlit("result");
    reveal_strlit("exit_code");
    reveal_strlit("exited_at_unix_nano");
    assert("result"@.len() == 6);
    assert("exit_code"@.len() == 9);
    assert("exited_at_unix_nano"@.len() == 19);
    if let (
        ContainerResponse::Exited {
            exit_code: exit_code_a,
            exited_at_unix_nano: exited_at_unix_nano_a,
        },
        ContainerResponse::Exited {
            exit_code: exit_code_b,
            exited_at_unix_nano: exited_at_unix_nano_b,
        },
    ) = (a, b) {
        assert(a.json().get("exit_code"@) == b.json().get("exit_code"@));
        assert(a.json().get("exited_at_unix_nano"@) == b.json().get("exited_at_unix_nano"@));
    }
}

/// `ContainerResponse::Pids` is told whole.
proof fn lemma_response_pids_told(a: ContainerResponse, b: ContainerResponse)
    requires
        a is Pids,
        b is Pids,
        a.json() == b.json(),
    ensures
        same_response(a, b),
{
    reveal_strlit("result");
    reveal_strlit("pids");
    assert("result"@.len() == 6);
    assert("pids"@.len() == 4);
    if let (
        ContainerResponse::Pids { pids: pids_a },
        ContainerResponse::Pids { pids: pids_b },
    ) = (a, b) {
        assert(a.json().get("pids"@) == b.json().get("pids"@));
        lemma_numbers_told(pids_a@, pids_b@);
    }
}

/// `ContainerResponse::Stats` is told whole.
proof fn lemma_response_stats_told(a: ContainerResponse, b: ContainerResponse)
    requires
        a is Stats,
        b is Stats,
        a.json() == b.json(),
    ensures
        same_response(a, b),
{
    reveal_strlit("result");
    reveal_strlit("stats");
    assert("result"@.len() == 6);
    assert("stats"@.len() == 5);
    if let (
        ContainerResponse::Stats { stats: stats_a },
        ContainerResponse::Stats { stats: stats_b },
    ) = (a, b) {
        assert(a.json().get("stats"@) == b.json().get("stats"@));
        law_stats_is_told_whole(stats_a, stats_b);
    }
}

/// `ContainerResponse::CgroupEvents` is told whole.
proof fn lemma_response_cgroup_events_told(a: ContainerResponse, b: ContainerResponse)
    requires
        a is CgroupEvents,
        b is CgroupEvents,
        a.json() == b.json(),
    ensures
        same_response(a, b),
{
    reveal_strlit("result");
    reveal_strlit("events");
    assert("result"@[0] != "events"@[0]);
    if let (
        ContainerResponse::CgroupEvents { events: events_a },
        ContainerResponse::CgroupEvents { events: events_b },
    ) = (a, b) {
        assert(a.json().get("events"@) == b.json().get("events"@));
        law_events_is_told_whole(events_a, events_b);
    }
}

/// `ContainerResponse::SecurityStats` is told whole.
proof fn lemma_response_security_stats_told(a: ContainerResponse, b: ContainerResponse)
    requires
        a is SecurityStats,
        b is SecurityStats,
        a.json() == b.json(),
    ensures
        same_response(a, b),
{
    reveal_strlit("result");
    reveal_strlit("stats");
    assert("result"@.len() == 6);
    assert("stats"@.len() == 5);
    if let (
        ContainerResponse::SecurityStats { stats: stats_a },
        ContainerResponse::SecurityStats { stats: stats_b },
    ) = (a, b) {
        assert(a.json().get("stats"@) == b.json().get("stats"@));
        law_security_is_told_whole(stats_a, stats_b);
    }
}

/// `ContainerResponse::Deleted` is told whole.
proof fn lemma_response_deleted_told(a: ContainerResponse, b: ContainerResponse)
    requires
        a is Deleted,
        b is Deleted,
        a.json() == b.json(),
    ensures
        same_response(a, b),
{
    reveal_strlit("result");
    reveal_strlit("pid");
    reveal_strlit("exit_code");
    reveal_strlit("exited_at_unix_nano");
    assert("result"@.len() == 6);
    assert("pid"@.len() == 3);
    assert("exit_code"@.len() == 9);
    assert("exited_at_unix_nano"@.len() == 19);
    if let (
        ContainerResponse::Deleted {
            pid: pid_a,
            exit_code: exit_code_a,
            exited_at_unix_nano: exited_at_unix_nano_a,
        },
        ContainerResponse::Deleted {
            pid: pid_b,
            exit_code: exit_code_b,
            exited_at_unix_nano: exited_at_unix_nano_b,
        },
    ) = (a, b) {
        assert(a.json().get("pid"@) == b.json().get("pid"@));
        assert(a.json().get("exit_code"@) == b.json().get("exit_code"@));
        assert(a.json().get("exited_at_unix_nano"@) == b.json().get("exited_at_unix_nano"@));
    }
}

/// `ContainerResponse::Error` is told whole.
proof fn lemma_response_error_told(a: ContainerResponse, b: ContainerResponse)
    requires
        a is Error,
        b is Error,
        a.json() == b.json(),
    ensures
        same_response(a, b),
{
    reveal_strlit("result");
    reveal_strlit("message");
    assert("result"@.len() == 6);
    assert("message"@.len() == 7);
    if let (
        ContainerResponse::Error { message: message_a },
        ContainerResponse::Error { message: message_b },
    ) = (a, b) {
        assert(a.json().get("message"@) == b.json().get("message"@));
    }
}

/// Responses that are sent alike are the same.
pub proof fn law_response_is_told_whole(a: ContainerResponse, b: ContainerResponse)
    requires
        a.json() == b.json(),
    ensures
        same_response(a, b),
{
    lemma_response_tag(a);
    lemma_response_tag(b);
    protocol::lemma_response_kind_names(kind_of_response(a));
    protocol::lemma_response_kind_names(kind_of_response(b));
    assert(kind_of_response(a) == kind_of_response(b));
    match a {
        ContainerResponse::Created { .. } => {
            lemma_response_created_told(a, b);
        },
        ContainerResponse::Started { .. } => {
            lemma_response_started_told(a, b);
        },
        ContainerResponse::ExecStarted { .. } => {
            lemma_response_exec_started_told(a, b);
        },
        ContainerResponse::State { .. } => {
            lemma_response_state_told(a, b);
        },
        ContainerResponse::Exited { .. } => {
            lemma_response_exited_told(a, b);
        },
        ContainerResponse::Pids { .. } => {
            lemma_response_pids_told(a, b);
        },
        ContainerResponse::Stats { .. } => {
            lemma_response_stats_told(a, b);
        },
        ContainerResponse::CgroupEvents { .. } => {
            lemma_response_cgroup_events_told(a, b);
        },
        ContainerResponse::SecurityStats { .. } => {
            lemma_response_security_stats_told(a, b);
        },
        ContainerResponse::Deleted { .. } => {
            lemma_response_deleted_told(a, b);
        },
        ContainerResponse::Error { .. } => {
            lemma_response_error_told(a, b);
        },
        _ => {},
    }
}

/// The two say the same, with the same secret.
pub open spec fn same_envelope(a: ContainerEnvelope, b: ContainerEnvelope) -> bool {
    &&& text::optional_string(a.token) == text::optional_string(b.token)
    &&& same_request(a.request, b.request)
}

/// A request is sent without a secret of its own.
proof fn lemma_request_has_no_token(x: ContainerRequest)
    ensures
        x.json() matches Js::Obj(m) && !m.contains_key("token"@),
{
    reveal_strlit("token");
    reveal_strlit("op");
    reveal_strlit("resources");
    reveal_strlit("id");
    reveal_strlit("config_json");
    reveal_strlit("io");
    reveal_strlit("is_sandbox");
    reveal_strlit("share_process_namespace");
    reveal_strlit("network_policy");
    reveal_strlit("exec_id");
    reveal_strlit("process_json");
    reveal_strlit("signal");
    reveal_strlit("all");
    reveal_strlit("width");
    reveal_strlit("height");
    reveal_strlit("force");
    assert("token"@.len() == 5);
    assert("op"@.len() == 2);
    assert("resources"@.len() == 9);
    assert("id"@.len() == 2);
    assert("config_json"@.len() == 11);
    assert("io"@.len() == 2);
    assert("is_sandbox"@.len() == 10);
    assert("share_process_namespace"@.len() == 23);
    assert("network_policy"@.len() == 14);
    assert("exec_id"@.len() == 7);
    assert("process_json"@.len() == 12);
    assert("signal"@.len() == 6);
    assert("all"@.len() == 3);
    assert("width"@.len() == 5);
    assert("token"@[0] != "width"@[0]);
    assert("height"@.len() == 6);
    assert("force"@.len() == 5);
    assert("token"@[0] != "force"@[0]);
}

/// Requests that are sent alike, each with its secret, are the same and have the same
/// secret.
pub proof fn law_envelope_is_told_whole(a: ContainerEnvelope, b: ContainerEnvelope)
    requires
        a.json() == b.json(),
    ensures
        same_envelope(a, b),
{
    lemma_request_has_no_token(a.request);
    lemma_request_has_no_token(b.request);
    let m = a.request.json()->Obj_0;
    let n = b.request.json()->Obj_0;
    assert(a.json().get("token"@) == Some(wire::opt_str_js(a.token)));
    assert(b.json().get("token"@) == Some(wire::opt_str_js(b.token)));
    let x = m.insert("token"@, wire::opt_str_js(a.token));
    let y = n.insert("token"@, wire::opt_str_js(b.token));
    assert(x == y);
    assert(m =~= x.remove("token"@));
    assert(n =~= y.remove("token"@));
    law_request_is_told_whole(a.request, b.request);
}

} // verus!
