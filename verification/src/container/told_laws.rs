//! The messages as they are sent: each thing stands under its own name.

use vstd::prelude::*;

use crate::container::address;
use crate::container::protocol::{
    CgroupEvents, ContainerIo, ContainerNetworkPolicy, ContainerRequest, ContainerResponse,
    ContainerStats, ContainerStatus, IoStreamAck, IoStreamAttach, IoStreamKind, ResourceLimits,
    SecurityStats,
};
use crate::container::wire;
use crate::json::Js;
use crate::labels;

verus! {

/// The value stands under the name.
pub open spec fn tells(j: Js, key: Seq<char>, value: Js) -> bool {
    j matches Js::Obj(m) && m.contains_key(key) && m[key] == value
}

/// A text, or null where there is none.
pub open spec fn text_or_null(s: Option<String>) -> Js {
    match s {
        Some(t) => Js::Str(t@),
        None => Js::Null,
    }
}

/// A number, or null where there is none.
pub open spec fn number_or_null(n: Option<int>) -> Js {
    match n {
        Some(i) => Js::Int(i),
        None => Js::Null,
    }
}

/// The settings of the streams are told by their names.
pub proof fn law_io_is_told_by_name(x: ContainerIo)
    ensures
        tells(x.json(), "stdin"@, text_or_null(x.stdin)),
        tells(x.json(), "stdout"@, text_or_null(x.stdout)),
        tells(x.json(), "stderr"@, text_or_null(x.stderr)),
        tells(x.json(), "terminal"@, Js::Bool(x.terminal)),
        tells(x.json(), "streaming"@, Js::Bool(x.streaming)),
{
    reveal_strlit("stdin");
    reveal_strlit("stdout");
    reveal_strlit("stderr");
    reveal_strlit("terminal");
    reveal_strlit("streaming");
    assert("stdin"@.len() == 5);
    assert("stdout"@.len() == 6);
    assert("stderr"@.len() == 6);
    assert("terminal"@.len() == 8);
    assert("streaming"@.len() == 9);
    assert("stdout"@[3] != "stderr"@[3]);
}

/// A request to attach is told by its names.
pub proof fn law_attach_is_told_by_name(x: IoStreamAttach)
    ensures
        tells(x.json(), "token"@, text_or_null(x.token)),
        tells(x.json(), "id"@, Js::Str(x.id@)),
        tells(x.json(), "exec_id"@, text_or_null(x.exec_id)),
        tells(x.json(), "stream"@, Js::Str(x.stream.text())),
{
    reveal_strlit("token");
    reveal_strlit("id");
    reveal_strlit("exec_id");
    reveal_strlit("stream");
    assert("token"@.len() == 5);
    assert("id"@.len() == 2);
    assert("exec_id"@.len() == 7);
    assert("stream"@.len() == 6);
}

/// The answer to a request to attach is told by its names.
pub proof fn law_ack_is_told_by_name(x: IoStreamAck)
    ensures
        tells(x.json(), "ok"@, Js::Bool(x.ok)),
        tells(x.json(), "message"@, text_or_null(x.message)),
{
    reveal_strlit("ok");
    reveal_strlit("message");
    assert("ok"@.len() == 2);
    assert("message"@.len() == 7);
}

/// The limits are told by their names.
pub proof fn law_limits_is_told_by_name(x: ResourceLimits)
    ensures
        tells(x.json(), "cpu_quota"@, number_or_null(match x.cpu_quota {
                Some(n) => Some(n as int),
                None => None,
            })),
        tells(x.json(), "cpu_period"@, number_or_null(match x.cpu_period {
                Some(n) => Some(n as int),
                None => None,
            })),
        tells(x.json(), "cpu_shares"@, number_or_null(match x.cpu_shares {
                Some(n) => Some(n as int),
                None => None,
            })),
        tells(x.json(), "cpuset_cpus"@, text_or_null(x.cpuset_cpus)),
        tells(x.json(), "cpuset_mems"@, text_or_null(x.cpuset_mems)),
        tells(x.json(), "memory_limit_bytes"@, number_or_null(match x.memory_limit_bytes {
                Some(n) => Some(n as int),
                None => None,
            })),
        tells(x.json(), "memory_reservation_bytes"@, number_or_null(match x.memory_reservation_bytes {
                Some(n) => Some(n as int),
                None => None,
            })),
        tells(x.json(), "memory_swap_bytes"@, number_or_null(match x.memory_swap_bytes {
                Some(n) => Some(n as int),
                None => None,
            })),
        tells(x.json(), "pids_limit"@, number_or_null(match x.pids_limit {
                Some(n) => Some(n as int),
                None => None,
            })),
        tells(x.json(), "unified"@, wire::map_js(x.unified@)),
        forall|k: Seq<char>| #[trigger]
            labels::labels_view(x.unified@).contains_key(k) ==> tells(
                wire::map_js(x.unified@),
                k,
                Js::Str(labels::labels_view(x.unified@)[k]),
            ),
{
    reveal_strlit("cpu_quota");
    reveal_strlit("cpu_period");
    reveal_strlit("cpu_shares");
    reveal_strlit("cpuset_cpus");
    reveal_strlit("cpuset_mems");
    reveal_strlit("memory_limit_bytes");
    reveal_strlit("memory_reservation_bytes");
    reveal_strlit("memory_swap_bytes");
    reveal_strlit("pids_limit");
    reveal_strlit("unified");
    assert("cpu_quota"@.len() == 9);
    assert("cpu_period"@.len() == 10);
    assert("cpu_shares"@.len() == 10);
    assert("cpuset_cpus"@.len() == 11);
    assert("cpuset_mems"@.len() == 11);
    assert("memory_limit_bytes"@.len() == 18);
    assert("memory_reservation_bytes"@.len() == 24);
    assert("memory_swap_bytes"@.len() == 17);
    assert("pids_limit"@.len() == 10);
    assert("unified"@.len() == 7);
    assert("cpu_period"@[4] != "cpu_shares"@[4]);
    assert("cpuset_cpus"@[7] != "cpuset_mems"@[7]);
    assert("cpu_period"@[0] != "pids_limit"@[0]);
    assert("cpu_shares"@[0] != "pids_limit"@[0]);
}

/// The counters of a container are told by their names.
#[verifier::rlimit(40)]
pub proof fn law_stats_is_told_by_name(x: ContainerStats)
    ensures
        tells(x.json(), "cpu_usage_usec"@, Js::Int(x.cpu_usage_usec as int)),
        tells(x.json(), "cpu_user_usec"@, Js::Int(x.cpu_user_usec as int)),
        tells(x.json(), "cpu_system_usec"@, Js::Int(x.cpu_system_usec as int)),
        tells(x.json(), "cpu_nr_periods"@, Js::Int(x.cpu_nr_periods as int)),
        tells(x.json(), "cpu_nr_throttled"@, Js::Int(x.cpu_nr_throttled as int)),
        tells(x.json(), "cpu_throttled_usec"@, Js::Int(x.cpu_throttled_usec as int)),
        tells(x.json(), "memory_usage_bytes"@, Js::Int(x.memory_usage_bytes as int)),
        tells(x.json(), "memory_limit_bytes"@, Js::Int(x.memory_limit_bytes as int)),
        tells(x.json(), "memory_peak_bytes"@, Js::Int(x.memory_peak_bytes as int)),
        tells(x.json(), "memory_swap_usage_bytes"@, Js::Int(x.memory_swap_usage_bytes as int)),
        tells(x.json(), "memory_swap_limit_bytes"@, Js::Int(x.memory_swap_limit_bytes as int)),
        tells(x.json(), "memory_anon_bytes"@, Js::Int(x.memory_anon_bytes as int)),
        tells(x.json(), "memory_file_bytes"@, Js::Int(x.memory_file_bytes as int)),
        tells(x.json(), "memory_anon_thp_bytes"@, Js::Int(x.memory_anon_thp_bytes as int)),
        tells(x.json(), "memory_file_mapped_bytes"@, Js::Int(x.memory_file_mapped_bytes as int)),
        tells(x.json(), "memory_dirty_bytes"@, Js::Int(x.memory_dirty_bytes as int)),
        tells(x.json(), "memory_writeback_bytes"@, Js::Int(x.memory_writeback_bytes as int)),
        tells(x.json(), "memory_pgfault"@, Js::Int(x.memory_pgfault as int)),
        tells(x.json(), "memory_pgmajfault"@, Js::Int(x.memory_pgmajfault as int)),
        tells(x.json(), "memory_inactive_anon_bytes"@, Js::Int(x.memory_inactive_anon_bytes as int)),
        tells(x.json(), "memory_active_anon_bytes"@, Js::Int(x.memory_active_anon_bytes as int)),
        tells(x.json(), "memory_total_inactive_file_bytes"@, Js::Int(x.memory_total_inactive_file_bytes as int)),
        tells(x.json(), "memory_active_file_bytes"@, Js::Int(x.memory_active_file_bytes as int)),
        tells(x.json(), "memory_unevictable_bytes"@, Js::Int(x.memory_unevictable_bytes as int)),
        tells(x.json(), "memory_events_max"@, Js::Int(x.memory_events_max as int)),
        tells(x.json(), "memory_events_oom"@, Js::Int(x.memory_events_oom as int)),
        tells(x.json(), "memory_events_oom_kill"@, Js::Int(x.memory_events_oom_kill as int)),
        tells(x.json(), "pids_current"@, Js::Int(x.pids_current as int)),
        tells(x.json(), "pids_limit"@, Js::Int(x.pids_limit as int)),
{
    reveal_strlit("cpu_usage_usec");
    reveal_strlit("cpu_user_usec");
    reveal_strlit("cpu_system_usec");
    reveal_strlit("cpu_nr_periods");
    reveal_strlit("cpu_nr_throttled");
    reveal_strlit("cpu_throttled_usec");
    reveal_strlit("memory_usage_bytes");
    reveal_strlit("memory_limit_bytes");
    reveal_strlit("memory_peak_bytes");
    reveal_strlit("memory_swap_usage_bytes");
    reveal_strlit("memory_swap_limit_bytes");
    reveal_strlit("memory_anon_bytes");
    reveal_strlit("memory_file_bytes");
    reveal_strlit("memory_anon_thp_bytes");
    reveal_strlit("memory_file_mapped_bytes");
    reveal_strlit("memory_dirty_bytes");
    reveal_strlit("memory_writeback_bytes");
    reveal_strlit("memory_pgfault");
    reveal_strlit("memory_pgmajfault");
    reveal_strlit("memory_inactive_anon_bytes");
    reveal_strlit("memory_active_anon_bytes");
    reveal_strlit("memory_total_inactive_file_bytes");
    reveal_strlit("memory_active_file_bytes");
    reveal_strlit("memory_unevictable_bytes");
    reveal_strlit("memory_events_max");
    reveal_strlit("memory_events_oom");
    reveal_strlit("memory_events_oom_kill");
    reveal_strlit("pids_current");
    reveal_strlit("pids_limit");
    assert("cpu_usage_usec"@.len() == 14);
    assert("cpu_user_usec"@.len() == 13);
    assert("cpu_system_usec"@.len() == 15);
    assert("cpu_nr_periods"@.len() == 14);
    assert("cpu_nr_throttled"@.len() == 16);
    assert("cpu_throttled_usec"@.len() == 18);
    assert("memory_usage_bytes"@.len() == 18);
    assert("memory_limit_bytes"@.len() == 18);
    assert("memory_peak_bytes"@.len() == 17);
    assert("memory_swap_usage_bytes"@.len() == 23);
    assert("memory_swap_limit_bytes"@.len() == 23);
    assert("memory_anon_bytes"@.len() == 17);
    assert("memory_file_bytes"@.len() == 17);
    assert("memory_anon_thp_bytes"@.len() == 21);
    assert("memory_file_mapped_bytes"@.len() == 24);
    assert("memory_dirty_bytes"@.len() == 18);
    assert("memory_writeback_bytes"@.len() == 22);
    assert("memory_pgfault"@.len() == 14);
    assert("memory_pgmajfault"@.len() == 17);
    assert("memory_inactive_anon_bytes"@.len() == 26);
    assert("memory_active_anon_bytes"@.len() == 24);
    assert("memory_total_inactive_file_bytes"@.len() == 32);
    assert("memory_active_file_bytes"@.len() == 24);
    assert("memory_unevictable_bytes"@.len() == 24);
    assert("memory_events_max"@.len() == 17);
    assert("memory_events_oom"@.len() == 17);
    assert("memory_events_oom_kill"@.len() == 22);
    assert("pids_current"@.len() == 12);
    assert("pids_limit"@.len() == 10);
    assert("cpu_usage_usec"@[4] != "cpu_nr_periods"@[4]);
    assert("cpu_throttled_usec"@[0] != "memory_usage_bytes"@[0]);
    assert("cpu_throttled_usec"@[0] != "memory_limit_bytes"@[0]);
    assert("memory_usage_bytes"@[7] != "memory_limit_bytes"@[7]);
    assert("memory_swap_usage_bytes"@[12] != "memory_swap_limit_bytes"@[12]);
    assert("memory_peak_bytes"@[7] != "memory_anon_bytes"@[7]);
    assert("memory_peak_bytes"@[7] != "memory_file_bytes"@[7]);
    assert("memory_anon_bytes"@[7] != "memory_file_bytes"@[7]);
    assert("cpu_throttled_usec"@[0] != "memory_dirty_bytes"@[0]);
    assert("memory_usage_bytes"@[7] != "memory_dirty_bytes"@[7]);
    assert("memory_limit_bytes"@[7] != "memory_dirty_bytes"@[7]);
    assert("cpu_usage_usec"@[0] != "memory_pgfault"@[0]);
    assert("cpu_nr_periods"@[0] != "memory_pgfault"@[0]);
    assert("memory_peak_bytes"@[8] != "memory_pgmajfault"@[8]);
    assert("memory_anon_bytes"@[7] != "memory_pgmajfault"@[7]);
    assert("memory_file_bytes"@[7] != "memory_pgmajfault"@[7]);
    assert("memory_file_mapped_bytes"@[7] != "memory_active_anon_bytes"@[7]);
    assert("memory_file_mapped_bytes"@[7] != "memory_active_file_bytes"@[7]);
    assert("memory_active_anon_bytes"@[14] != "memory_active_file_bytes"@[14]);
    assert("memory_file_mapped_bytes"@[7] != "memory_unevictable_bytes"@[7]);
    assert("memory_active_anon_bytes"@[7] != "memory_unevictable_bytes"@[7]);
    assert("memory_active_file_bytes"@[7] != "memory_unevictable_bytes"@[7]);
    assert("memory_peak_bytes"@[7] != "memory_events_max"@[7]);
    assert("memory_anon_bytes"@[7] != "memory_events_max"@[7]);
    assert("memory_file_bytes"@[7] != "memory_events_max"@[7]);
    assert("memory_pgmajfault"@[7] != "memory_events_max"@[7]);
    assert("memory_peak_bytes"@[7] != "memory_events_oom"@[7]);
    assert("memory_anon_bytes"@[7] != "memory_events_oom"@[7]);
    assert("memory_file_bytes"@[7] != "memory_events_oom"@[7]);
    assert("memory_pgmajfault"@[7] != "memory_events_oom"@[7]);
    assert("memory_events_max"@[14] != "memory_events_oom"@[14]);
    assert("memory_writeback_bytes"@[7] != "memory_events_oom_kill"@[7]);
}

/// The memory events are told by their names.
pub proof fn law_events_is_told_by_name(x: CgroupEvents)
    ensures
        tells(x.json(), "low"@, Js::Int(x.low as int)),
        tells(x.json(), "high"@, Js::Int(x.high as int)),
        tells(x.json(), "max"@, Js::Int(x.max as int)),
        tells(x.json(), "oom"@, Js::Int(x.oom as int)),
        tells(x.json(), "oom_kill"@, Js::Int(x.oom_kill as int)),
        tells(x.json(), "oom_group_kill"@, Js::Int(x.oom_group_kill as int)),
{
    reveal_strlit("low");
    reveal_strlit("high");
    reveal_strlit("max");
    reveal_strlit("oom");
    reveal_strlit("oom_kill");
    reveal_strlit("oom_group_kill");
    assert("low"@.len() == 3);
    assert("high"@.len() == 4);
    assert("max"@.len() == 3);
    assert("oom"@.len() == 3);
    assert("oom_kill"@.len() == 8);
    assert("oom_group_kill"@.len() == 14);
    assert("low"@[0] != "max"@[0]);
    assert("low"@[0] != "oom"@[0]);
    assert("max"@[0] != "oom"@[0]);
}

/// The counters of security are told by their names.
pub proof fn law_security_is_told_by_name(x: SecurityStats)
    ensures
        tells(x.json(), "seccomp_notify_received"@, Js::Int(x.seccomp_notify_received as int)),
        tells(x.json(), "seccomp_notify_denied"@, Js::Int(x.seccomp_notify_denied as int)),
        tells(x.json(), "seccomp_notify_continued"@, Js::Int(x.seccomp_notify_continued as int)),
        tells(x.json(), "seccomp_notify_errors"@, Js::Int(x.seccomp_notify_errors as int)),
        tells(x.json(), "selinux_mounts_labeled"@, Js::Int(x.selinux_mounts_labeled as int)),
        tells(x.json(), "lsm_apply_failures"@, Js::Int(x.lsm_apply_failures as int)),
{
    reveal_strlit("seccomp_notify_received");
    reveal_strlit("seccomp_notify_denied");
    reveal_strlit("seccomp_notify_continued");
    reveal_strlit("seccomp_notify_errors");
    reveal_strlit("selinux_mounts_labeled");
    reveal_strlit("lsm_apply_failures");
    assert("seccomp_notify_received"@.len() == 23);
    assert("seccomp_notify_denied"@.len() == 21);
    assert("seccomp_notify_continued"@.len() == 24);
    assert("seccomp_notify_errors"@.len() == 21);
    assert("selinux_mounts_labeled"@.len() == 22);
    assert("lsm_apply_failures"@.len() == 18);
    assert("seccomp_notify_denied"@[15] != "seccomp_notify_errors"@[15]);
}

/// A network policy is told by its names, with all of its addresses in their order.
pub proof fn law_policy_is_told_by_name(x: ContainerNetworkPolicy, i: int)
    ensures
        tells(x.json(), "default_allow"@, Js::Bool(x.default_allow)),
        tells(x.json(), "audit_mode"@, Js::Bool(x.audit_mode)),
        tells(x.json(), "allow_addresses"@, address::addresses_js(x.allow_addresses@)),
        tells(x.json(), "deny_addresses"@, address::addresses_js(x.deny_addresses@)),
        address::addresses_js(x.allow_addresses@) matches Js::Arr(v) && v.len()
            == x.allow_addresses@.len() && (0 <= i < v.len() ==> v[i] == Js::Str(
            address::address_text(x.allow_addresses@[i].view()),
        )),
        address::addresses_js(x.deny_addresses@) matches Js::Arr(v) && v.len()
            == x.deny_addresses@.len() && (0 <= i < v.len() ==> v[i] == Js::Str(
            address::address_text(x.deny_addresses@[i].view()),
        )),
{
    reveal_strlit("default_allow");
    reveal_strlit("audit_mode");
    reveal_strlit("allow_addresses");
    reveal_strlit("deny_addresses");
    assert("default_allow"@.len() == 13);
    assert("audit_mode"@.len() == 10);
    assert("allow_addresses"@.len() == 15);
    assert("deny_addresses"@.len() == 14);
}

/// The request `Ping` is told by its names.
pub proof fn law_request_ping_is_told_by_name(x: ContainerRequest)
    ensures
        x is Ping ==> tells(x.json(), "op"@, Js::Str("ping"@)),
{
    reveal_strlit("op");
    assert("op"@.len() == 2);
}

/// The request `ConfigureSandboxResources` is told by its names.
pub proof fn law_request_configure_sandbox_resources_is_told_by_name(x: ContainerRequest)
    ensures
        x matches ContainerRequest::ConfigureSandboxResources { resources } ==> {
            &&& tells(x.json(), "op"@, Js::Str("configure-sandbox-resources"@))
            &&& tells(x.json(), "resources"@, resources.json())
        },
{
    reveal_strlit("op");
    reveal_strlit("resources");
    assert("op"@.len() == 2);
    assert("resources"@.len() == 9);
}

/// The request `Create` is told by its names.
pub proof fn law_request_create_is_told_by_name(x: ContainerRequest)
    ensures
        x matches ContainerRequest::Create { id, config_json, io, is_sandbox, share_process_namespace, network_policy } ==> {
            &&& tells(x.json(), "op"@, Js::Str("create"@))
            &&& tells(x.json(), "id"@, Js::Str(id@))
            &&& tells(x.json(), "config_json"@, Js::Str(config_json@))
            &&& tells(x.json(), "io"@, io.json())
            &&& tells(x.json(), "is_sandbox"@, Js::Bool(is_sandbox))
            &&& tells(x.json(), "share_process_namespace"@, Js::Bool(share_process_namespace))
            &&& tells(
                x.json(),
                "network_policy"@,
                match network_policy {
                    Some(p) => p.json(),
                    None => Js::Null,
                },
            )
        },
{
    reveal_strlit("op");
    reveal_strlit("id");
    reveal_strlit("config_json");
    reveal_strlit("io");
    reveal_strlit("is_sandbox");
    reveal_strlit("share_process_namespace");
    reveal_strlit("network_policy");
    assert("op"@.len() == 2);
    assert("id"@.len() == 2);
    assert("config_json"@.len() == 11);
    assert("io"@.len() == 2);
    assert("is_sandbox"@.len() == 10);
    assert("share_process_namespace"@.len() == 23);
    assert("network_policy"@.len() == 14);
    assert("op"@[0] != "id"@[0]);
    assert("op"@[0] != "io"@[0]);
    assert("id"@[1] != "io"@[1]);
}

/// The request `Start` is told by its names.
pub proof fn law_request_start_is_told_by_name(x: ContainerRequest)
    ensures
        x matches ContainerRequest::Start { id, exec_id } ==> {
            &&& tells(x.json(), "op"@, Js::Str("start"@))
            &&& tells(x.json(), "id"@, Js::Str(id@))
            &&& tells(x.json(), "exec_id"@, text_or_null(exec_id))
        },
{
    reveal_strlit("op");
    reveal_strlit("id");
    reveal_strlit("exec_id");
    assert("op"@.len() == 2);
    assert("id"@.len() == 2);
    assert("exec_id"@.len() == 7);
    assert("op"@[0] != "id"@[0]);
}

/// The request `State` is told by its names.
pub proof fn law_request_state_is_told_by_name(x: ContainerRequest)
    ensures
        x matches ContainerRequest::State { id, exec_id } ==> {
            &&& tells(x.json(), "op"@, Js::Str("state"@))
            &&& tells(x.json(), "id"@, Js::Str(id@))
            &&& tells(x.json(), "exec_id"@, text_or_null(exec_id))
        },
{
    reveal_strlit("op");
    reveal_strlit("id");
    reveal_strlit("exec_id");
    assert("op"@.len() == 2);
    assert("id"@.len() == 2);
    assert("exec_id"@.len() == 7);
    assert("op"@[0] != "id"@[0]);
}

/// The request `Exec` is told by its names.
pub proof fn law_request_exec_is_told_by_name(x: ContainerRequest)
    ensures
        x matches ContainerRequest::Exec { id, exec_id, process_json, io } ==> {
            &&& tells(x.json(), "op"@, Js::Str("exec"@))
            &&& tells(x.json(), "id"@, Js::Str(id@))
            &&& tells(x.json(), "exec_id"@, Js::Str(exec_id@))
            &&& tells(x.json(), "process_json"@, Js::Str(process_json@))
            &&& tells(x.json(), "io"@, io.json())
        },
{
    reveal_strlit("op");
    reveal_strlit("id");
    reveal_strlit("exec_id");
    reveal_strlit("process_json");
    reveal_strlit("io");
    assert("op"@.len() == 2);
    assert("id"@.len() == 2);
    assert("exec_id"@.len() == 7);
    assert("process_json"@.len() == 12);
    assert("io"@.len() == 2);
    assert("op"@[0] != "id"@[0]);
    assert("op"@[0] != "io"@[0]);
    assert("id"@[1] != "io"@[1]);
}

/// The request `Kill` is told by its names.
pub proof fn law_request_kill_is_told_by_name(x: ContainerRequest)
    ensures
        x matches ContainerRequest::Kill { id, exec_id, signal, all } ==> {
            &&& tells(x.json(), "op"@, Js::Str("kill"@))
            &&& tells(x.json(), "id"@, Js::Str(id@))
            &&& tells(x.json(), "exec_id"@, text_or_null(exec_id))
            &&& tells(x.json(), "signal"@, Js::Int(signal as int))
            &&& tells(x.json(), "all"@, Js::Bool(all))
        },
{
    reveal_strlit("op");
    reveal_strlit("id");
    reveal_strlit("exec_id");
    reveal_strlit("signal");
    reveal_strlit("all");
    assert("op"@.len() == 2);
    assert("id"@.len() == 2);
    assert("exec_id"@.len() == 7);
    assert("signal"@.len() == 6);
    assert("all"@.len() == 3);
    assert("op"@[0] != "id"@[0]);
}

/// The request `Pause` is told by its names.
pub proof fn law_request_pause_is_told_by_name(x: ContainerRequest)
    ensures
        x matches ContainerRequest::Pause { id } ==> {
            &&& tells(x.json(), "op"@, Js::Str("pause"@))
            &&& tells(x.json(), "id"@, Js::Str(id@))
        },
{
    reveal_strlit("op");
    reveal_strlit("id");
    assert("op"@.len() == 2);
    assert("id"@.len() == 2);
    assert("op"@[0] != "id"@[0]);
}

/// The request `Resume` is told by its names.
pub proof fn law_request_resume_is_told_by_name(x: ContainerRequest)
    ensures
        x matches ContainerRequest::Resume { id } ==> {
            &&& tells(x.json(), "op"@, Js::Str("resume"@))
            &&& tells(x.json(), "id"@, Js::Str(id@))
        },
{
    reveal_strlit("op");
    reveal_strlit("id");
    assert("op"@.len() == 2);
    assert("id"@.len() == 2);
    assert("op"@[0] != "id"@[0]);
}

/// The request `Wait` is told by its names.
pub proof fn law_request_wait_is_told_by_name(x: ContainerRequest)
    ensures
        x matches ContainerRequest::Wait { id, exec_id } ==> {
            &&& tells(x.json(), "op"@, Js::Str("wait"@))
            &&& tells(x.json(), "id"@, Js::Str(id@))
            &&& tells(x.json(), "exec_id"@, text_or_null(exec_id))
        },
{
    reveal_strlit("op");
    reveal_strlit("id");
    reveal_strlit("exec_id");
    assert("op"@.len() == 2);
    assert("id"@.len() == 2);
    assert("exec_id"@.len() == 7);
    assert("op"@[0] != "id"@[0]);
}

/// The request `Pids` is told by its names.
pub proof fn law_request_pids_is_told_by_name(x: ContainerRequest)
    ensures
        x matches ContainerRequest::Pids { id } ==> {
            &&& tells(x.json(), "op"@, Js::Str("pids"@))
            &&& tells(x.json(), "id"@, Js::Str(id@))
        },
{
    reveal_strlit("op");
    reveal_strlit("id");
    assert("op"@.len() == 2);
    assert("id"@.len() == 2);
    assert("op"@[0] != "id"@[0]);
}

/// The request `Stats` is told by its names.
pub proof fn law_request_stats_is_told_by_name(x: ContainerRequest)
    ensures
        x matches ContainerRequest::Stats { id } ==> {
            &&& tells(x.json(), "op"@, Js::Str("stats"@))
            &&& tells(x.json(), "id"@, Js::Str(id@))
        },
{
    reveal_strlit("op");
    reveal_strlit("id");
    assert("op"@.len() == 2);
    assert("id"@.len() == 2);
    assert("op"@[0] != "id"@[0]);
}

/// The request `CgroupEvents` is told by its names.
pub proof fn law_request_cgroup_events_is_told_by_name(x: ContainerRequest)
    ensures
        x matches ContainerRequest::CgroupEvents { id } ==> {
            &&& tells(x.json(), "op"@, Js::Str("cgroup-events"@))
            &&& tells(x.json(), "id"@, Js::Str(id@))
        },
{
    reveal_strlit("op");
    reveal_strlit("id");
    assert("op"@.len() == 2);
    assert("id"@.len() == 2);
    assert("op"@[0] != "id"@[0]);
}

/// The request `SecurityStats` is told by its names.
pub proof fn law_request_security_stats_is_told_by_name(x: ContainerRequest)
    ensures
        x is SecurityStats ==> tells(x.json(), "op"@, Js::Str("security-stats"@)),
{
    reveal_strlit("op");
    assert("op"@.len() == 2);
}

/// The request `UpdateResources` is told by its names.
pub proof fn law_request_update_resources_is_told_by_name(x: ContainerRequest)
    ensures
        x matches ContainerRequest::UpdateResources { id, resources } ==> {
            &&& tells(x.json(), "op"@, Js::Str("update-resources"@))
            &&& tells(x.json(), "id"@, Js::Str(id@))
            &&& tells(x.json(), "resources"@, resources.json())
        },
{
    reveal_strlit("op");
    reveal_strlit("id");
    reveal_strlit("resources");
    assert("op"@.len() == 2);
    assert("id"@.len() == 2);
    assert("resources"@.len() == 9);
    assert("op"@[0] != "id"@[0]);
}

/// The request `ResizePty` is told by its names.
pub proof fn law_request_resize_pty_is_told_by_name(x: ContainerRequest)
    ensures
        x matches ContainerRequest::ResizePty { id, exec_id, width, height } ==> {
            &&& tells(x.json(), "op"@, Js::Str("resize-pty"@))
            &&& tells(x.json(), "id"@, Js::Str(id@))
            &&& tells(x.json(), "exec_id"@, text_or_null(exec_id))
            &&& tells(x.json(), "width"@, Js::Int(width as int))
            &&& tells(x.json(), "height"@, Js::Int(height as int))
        },
{
    reveal_strlit("op");
    reveal_strlit("id");
    reveal_strlit("exec_id");
    reveal_strlit("width");
    reveal_strlit("height");
    assert("op"@.len() == 2);
    assert("id"@.len() == 2);
    assert("exec_id"@.len() == 7);
    assert("width"@.len() == 5);
    assert("height"@.len() == 6);
    assert("op"@[0] != "id"@[0]);
}

/// The request `CloseIo` is told by its names.
pub proof fn law_request_close_io_is_told_by_name(x: ContainerRequest)
    ensures
        x matches ContainerRequest::CloseIo { id, exec_id } ==> {
            &&& tells(x.json(), "op"@, Js::Str("close-io"@))
            &&& tells(x.json(), "id"@, Js::Str(id@))
            &&& tells(x.json(), "exec_id"@, text_or_null(exec_id))
        },
{
    reveal_strlit("op");
    reveal_strlit("id");
    reveal_strlit("exec_id");
    assert("op"@.len() == 2);
    assert("id"@.len() == 2);
    assert("exec_id"@.len() == 7);
    assert("op"@[0] != "id"@[0]);
}

/// The request `Delete` is told by its names.
pub proof fn law_request_delete_is_told_by_name(x: ContainerRequest)
    ensures
        x matches ContainerRequest::Delete { id, exec_id, force } ==> {
            &&& tells(x.json(), "op"@, Js::Str("delete"@))
            &&& tells(x.json(), "id"@, Js::Str(id@))
            &&& tells(x.json(), "exec_id"@, text_or_null(exec_id))
            &&& tells(x.json(), "force"@, Js::Bool(force))
        },
{
    reveal_strlit("op");
    reveal_strlit("id");
    reveal_strlit("exec_id");
    reveal_strlit("force");
    assert("op"@.len() == 2);
    assert("id"@.len() == 2);
    assert("exec_id"@.len() == 7);
    assert("force"@.len() == 5);
    assert("op"@[0] != "id"@[0]);
}

/// The response `Pong` is told by its names.
pub proof fn law_response_pong_is_told_by_name(x: ContainerResponse)
    ensures
        x is Pong ==> tells(x.json(), "result"@, Js::Str("pong"@)),
{
    reveal_strlit("result");
    assert("result"@.len() == 6);
}

/// The response `SandboxResourcesConfigured` is told by its names.
pub proof fn law_response_sandbox_resources_configured_is_told_by_name(x: ContainerResponse)
    ensures
        x is SandboxResourcesConfigured ==> tells(x.json(), "result"@, Js::Str("sandbox-resources-configured"@)),
{
    reveal_strlit("result");
    assert("result"@.len() == 6);
}

/// The response `Created` is told by its names.
pub proof fn law_response_created_is_told_by_name(x: ContainerResponse)
    ensures
        x matches ContainerResponse::Created { pid, container_identity } ==> {
            &&& tells(x.json(), "result"@, Js::Str("created"@))
            &&& tells(x.json(), "pid"@, Js::Int(pid as int))
            &&& tells(x.json(), "container_identity"@, Js::Int(container_identity as int))
        },
{
    reveal_strlit("result");
    reveal_strlit("pid");
    reveal_strlit("container_identity");
    assert("result"@.len() == 6);
    assert("pid"@.len() == 3);
    assert("container_identity"@.len() == 18);
}

/// The response `Started` is told by its names.
pub proof fn law_response_started_is_told_by_name(x: ContainerResponse)
    ensures
        x matches ContainerResponse::Started { pid } ==> {
            &&& tells(x.json(), "result"@, Js::Str("started"@))
            &&& tells(x.json(), "pid"@, Js::Int(pid as int))
        },
{
    reveal_strlit("result");
    reveal_strlit("pid");
    assert("result"@.len() == 6);
    assert("pid"@.len() == 3);
}

/// The response `ExecStarted` is told by its names.
pub proof fn law_response_exec_started_is_told_by_name(x: ContainerResponse)
    ensures
        x matches ContainerResponse::ExecStarted { pid } ==> {
            &&& tells(x.json(), "result"@, Js::Str("exec-started"@))
            &&& tells(x.json(), "pid"@, Js::Int(pid as int))
        },
{
    reveal_strlit("result");
    reveal_strlit("pid");
    assert("result"@.len() == 6);
    assert("pid"@.len() == 3);
}

/// The response `State` is told by its names.
pub proof fn law_response_state_is_told_by_name(x: ContainerResponse)
    ensures
        x matches ContainerResponse::State { id, exec_id, status, pid, exit_code, exited_at_unix_nano } ==> {
            &&& tells(x.json(), "result"@, Js::Str("state"@))
            &&& tells(x.json(), "id"@, Js::Str(id@))
            &&& tells(x.json(), "exec_id"@, text_or_null(exec_id))
            &&& tells(x.json(), "status"@, Js::Str(status.text()))
            &&& tells(x.json(), "pid"@, Js::Int(pid as int))
            &&& tells(x.json(), "exit_code"@, number_or_null(match exit_code {
                Some(n) => Some(n as int),
                None => None,
            }))
            &&& tells(x.json(), "exited_at_unix_nano"@, number_or_null(match exited_at_unix_nano {
                Some(n) => Some(n as int),
                None => None,
            }))
        },
{
    reveal_strlit("result");
    reveal_strlit("id");
    reveal_strlit("exec_id");
    reveal_strlit("status");
    reveal_strlit("pid");
    reveal_strlit("exit_code");
    reveal_strlit("exited_at_unix_nano");
    assert("result"@.len() == 6);
    assert("id"@.len() == 2);
    assert("exec_id"@.len() == 7);
    assert("status"@.len() == 6);
    assert("pid"@.len() == 3);
    assert("exit_code"@.len() == 9);
    assert("exited_at_unix_nano"@.len() == 19);
    assert("result"@[0] != "status"@[0]);
}

/// The response `Exited` is told by its names.
pub proof fn law_response_exited_is_told_by_name(x: ContainerResponse)
    ensures
        x matches ContainerResponse::Exited { exit_code, exited_at_unix_nano } ==> {
            &&& tells(x.json(), "result"@, Js::Str("exited"@))
            &&& tells(x.json(), "exit_code"@, Js::Int(exit_code as int))
            &&& tells(x.json(), "exited_at_unix_nano"@, Js::Int(exited_at_unix_nano as int))
        },
{
    reveal_strlit("result");
    reveal_strlit("exit_code");
    reveal_strlit("exited_at_unix_nano");
    assert("result"@.len() == 6);
    assert("exit_code"@.len() == 9);
    assert("exited_at_unix_nano"@.len() == 19);
}

/// The response `Pids` is told by its names.
pub proof fn law_response_pids_is_told_by_name(x: ContainerResponse)
    ensures
        x matches ContainerResponse::Pids { pids } ==> {
            &&& tells(x.json(), "result"@, Js::Str("pids"@))
            &&& exists|v: Seq<Js>| #[trigger] tells(x.json(), "pids"@, Js::Arr(v)) && v.len() == pids@.len() && forall|i: int| 0 <= i < v.len() ==> #[trigger] v[i] == Js::Int(pids@[i] as int)
        },
{
    reveal_strlit("result");
    reveal_strlit("pids");
    assert("result"@.len() == 6);
    assert("pids"@.len() == 4);
    if let ContainerResponse::Pids { pids } = x {
        let v = pids@.map_values(|n: u32| Js::Int(n as int));
        assert(tells(x.json(), "pids"@, Js::Arr(v)));
    }
}

/// The response `Stats` is told by its names.
pub proof fn law_response_stats_is_told_by_name(x: ContainerResponse)
    ensures
        x matches ContainerResponse::Stats { stats } ==> {
            &&& tells(x.json(), "result"@, Js::Str("stats"@))
            &&& tells(x.json(), "stats"@, stats.json())
        },
{
    reveal_strlit("result");
    reveal_strlit("stats");
    assert("result"@.len() == 6);
    assert("stats"@.len() == 5);
}

/// The response `CgroupEvents` is told by its names.
pub proof fn law_response_cgroup_events_is_told_by_name(x: ContainerResponse)
    ensures
        x matches ContainerResponse::CgroupEvents { events } ==> {
            &&& tells(x.json(), "result"@, Js::Str("cgroup-events"@))
            &&& tells(x.json(), "events"@, events.json())
        },
{
    reveal_strlit("result");
    reveal_strlit("events");
    assert("result"@.len() == 6);
    assert("events"@.len() == 6);
    assert("result"@[0] != "events"@[0]);
}

/// The response `SecurityStats` is told by its names.
pub proof fn law_response_security_stats_is_told_by_name(x: ContainerResponse)
    ensures
        x matches ContainerResponse::SecurityStats { stats } ==> {
            &&& tells(x.json(), "result"@, Js::Str("security-stats"@))
            &&& tells(x.json(), "stats"@, stats.json())
        },
{
    reveal_strlit("result");
    reveal_strlit("stats");
    assert("result"@.len() == 6);
    assert("stats"@.len() == 5);
}

/// The response `ResourcesUpdated` is told by its names.
pub proof fn law_response_resources_updated_is_told_by_name(x: ContainerResponse)
    ensures
        x is ResourcesUpdated ==> tells(x.json(), "result"@, Js::Str("resources-updated"@)),
{
    reveal_strlit("result");
    assert("result"@.len() == 6);
}

/// The response `PtyResized` is told by its names.
pub proof fn law_response_pty_resized_is_told_by_name(x: ContainerResponse)
    ensures
        x is PtyResized ==> tells(x.json(), "result"@, Js::Str("pty-resized"@)),
{
    reveal_strlit("result");
    assert("result"@.len() == 6);
}

/// The response `IoClosed` is told by its names.
pub proof fn law_response_io_closed_is_told_by_name(x: ContainerResponse)
    ensures
        x is IoClosed ==> tells(x.json(), "result"@, Js::Str("io-closed"@)),
{
    reveal_strlit("result");
    assert("result"@.len() == 6);
}

/// The response `Killed` is told by its names.
pub proof fn law_response_killed_is_told_by_name(x: ContainerResponse)
    ensures
        x is Killed ==> tells(x.json(), "result"@, Js::Str("killed"@)),
{
    reveal_strlit("result");
    assert("result"@.len() == 6);
}

/// The response `Paused` is told by its names.
pub proof fn law_response_paused_is_told_by_name(x: ContainerResponse)
    ensures
        x is Paused ==> tells(x.json(), "result"@, Js::Str("paused"@)),
{
    reveal_strlit("result");
    assert("result"@.len() == 6);
}

/// The response `Resumed` is told by its names.
pub proof fn law_response_resumed_is_told_by_name(x: ContainerResponse)
    ensures
        x is Resumed ==> tells(x.json(), "result"@, Js::Str("resumed"@)),
{
    reveal_strlit("result");
    assert("result"@.len() == 6);
}

/// The response `Deleted` is told by its names.
pub proof fn law_response_deleted_is_told_by_name(x: ContainerResponse)
    ensures
        x matches ContainerResponse::Deleted { pid, exit_code, exited_at_unix_nano } ==> {
            &&& tells(x.json(), "result"@, Js::Str("deleted"@))
            &&& tells(x.json(), "pid"@, Js::Int(pid as int))
            &&& tells(x.json(), "exit_code"@, Js::Int(exit_code as int))
            &&& tells(x.json(), "exited_at_unix_nano"@, Js::Int(exited_at_unix_nano as int))
        },
{
    reveal_strlit("result");
    reveal_strlit("pid");
    reveal_strlit("exit_code");
    reveal_strlit("exited_at_unix_nano");
    assert("result"@.len() == 6);
    assert("pid"@.len() == 3);
    assert("exit_code"@.len() == 9);
    assert("exited_at_unix_nano"@.len() == 19);
}

/// The response `Error` is told by its names.
pub proof fn law_response_error_is_told_by_name(x: ContainerResponse)
    ensures
        x matches ContainerResponse::Error { message } ==> {
            &&& tells(x.json(), "result"@, Js::Str("error"@))
            &&& tells(x.json(), "message"@, Js::Str(message@))
        },
{
    reveal_strlit("result");
    reveal_strlit("message");
    assert("result"@.len() == 6);
    assert("message"@.len() == 7);
}

/// Each state of a container has a name of its own, and so has each stream.
pub proof fn law_states_and_streams_have_names(x: ContainerStatus, y: IoStreamKind)
    ensures
        x is Created <==> x.text() == "created"@,
        x is Running <==> x.text() == "running"@,
        x is Paused <==> x.text() == "paused"@,
        x is Stopped <==> x.text() == "stopped"@,
        y is Stdin <==> y.text() == "stdin"@,
        y is Stdout <==> y.text() == "stdout"@,
        y is Stderr <==> y.text() == "stderr"@,
{
    reveal_strlit("created");
    reveal_strlit("running");
    reveal_strlit("paused");
    reveal_strlit("stopped");
    reveal_strlit("stdin");
    reveal_strlit("stdout");
    reveal_strlit("stderr");
    assert("created"@.len() == 7);
    assert("running"@.len() == 7);
    assert("paused"@.len() == 6);
    assert("stopped"@.len() == 7);
    assert("stdin"@.len() == 5);
    assert("stdout"@.len() == 6);
    assert("stderr"@.len() == 6);
    assert("created"@[0] != "running"@[0]);
    assert("created"@[0] != "stopped"@[0]);
    assert("running"@[0] != "stopped"@[0]);
    assert("paused"@[0] != "stdout"@[0]);
    assert("paused"@[0] != "stderr"@[0]);
    assert("stdout"@[3] != "stderr"@[3]);
}

} // verus!
