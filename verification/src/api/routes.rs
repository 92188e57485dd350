//! The requests that a node answers.

use vstd::prelude::*;

use crate::api::auth;
use crate::api::auth::{require_admin, ApiError, Role};

verus! {

/// The methods under which a path is served.
#[derive(Debug, Clone, Copy, PartialEq, Eq, Structural)]
pub enum Verb {
    Get,
    Post,
    Delete,
    /// Whatever the method.
    Any,
}

/// What a request asks for.
#[derive(Debug, Clone, Copy, PartialEq, Eq, Structural)]
pub enum Endpoint {
    Healthz,
    Readyz,
    Metrics,
    RuntimeCapabilities,
    CreateVm,
    ListVms,
    GetVm,
    DeleteVm,
    StartVm,
    StartVmFromSnapshot,
    SnapshotVm,
    StartMigration,
    MigrationStatus,
    CancelMigration,
    StopVm,
    PauseVm,
    ResumeVm,
    SetVmResources,
    HotplugVmCpu,
    HotplugVmMemory,
    VmCpuset,
    FreezeVm,
    ThawVm,
    VmFrozen,
    VmStats,
    VmNetworkStats,
    VmNetworkFlows,
    VmNetworkDropReasons,
    VmNetworkStatus,
    VmNetworkMigrationState,
    VmNetworkMigrationQuiesce,
    VmNetworkMigrationExport,
    VmNetworkMigrationRestore,
    VmNetworkMigrationResume,
    VmNetworkServiceStats,
    GetVmNetworkPolicy,
    SetVmNetworkPolicy,
    GetVmPodNetworkPolicy,
    SetVmPodNetworkPolicy,
    ClearVmPodNetworkPolicy,
    GetVmNetworkEffective,
    ListNetworkGroups,
    UpsertNetworkGroup,
    ListNetworkServices,
    UpsertNetworkService,
    NetworkServiceStatus,
    NetworkServiceStats,
    NetworkServiceHealth,
    ReconcileNetworkServiceHealth,
    GcNetworkServiceConntrack,
    ReconcileNetworkServicePressure,
    NetworkServiceAdvertisements,
    NetworkServiceFlows,
    ExportNetworkServiceTelemetry,
    ListNetworkServicePolicies,
    UpsertNetworkServicePolicy,
    ReconcileNetworkServicePolicies,
    GetNetworkServicePolicy,
    DeleteNetworkServicePolicy,
    NetworkServiceEnvoyContract,
    ExportNetworkServiceConntrack,
    ImportNetworkServiceConntrack,
    ExportNetworkServiceConntrackDelta,
    ImportNetworkServiceConntrackDelta,
    AckNetworkServiceConntrackDelta,
    GetNetworkService,
    DeleteNetworkService,
    GetNetworkGroup,
    DeleteNetworkGroup,
    ListCnp,
    ApplyCnp,
    GetCnp,
    DeleteCnp,
    ListIdentities,
    NetworkObserve,
    NetworkHealth,
    NetworkIpcache,
    UpsertRemoteIpcache,
    DeleteRemoteIpcache,
    NetworkRefreshDns,
    ListEndpoints,
    HubbleFlows,
    HubbleFlowsText,
    HubbleUi,
    VmPressure,
    VmLogs,
    AgentExec,
    AgentPutFile,
    AgentGetFile,
    AgentConsole,
    QgaPing,
    QgaNetworkInterfaces,
    QgaExec,
    QgaFsfreezeFreeze,
    QgaFsfreezeThaw,
    QgaFsfreezeStatus,
    QgaFirewallOpen,
    QgaFirewallClose,
    CreateSandbox,
    ListSandboxes,
    SnapshotSandbox,
    SandboxFsRead,
    SandboxFsWrite,
    SandboxProcess,
    SandboxHttpProxy,
    SandboxHttpProxyDefaultPort,
    ListTemplates,
    BuildTemplate,
    EgressCheck,
    EgressNftables,
    ConsoleUi,
    ConsoleUiIndex,
    BuildImage,
    AddCatalogEntry,
    RemoveCatalogEntry,
    RenameCatalogEntry,
    CloneCatalogEntry,
    ExportCatalogEntry,
    SetCatalogReadOnly,
    CleanCatalog,
    ListCatalog,
    CreatePool,
    ListPools,
    GetPool,
    DeletePool,
    ClaimPool,
    ResizePool,
}

/// One row of the table.
#[derive(Debug, Clone, Copy)]
pub struct Route {
    pub verb: Verb,
    /// The path, with a name in braces for each part that varies.
    pub pattern: &'static str,
    pub endpoint: Endpoint,
}

/// How many rows the table has.
pub const ROUTES: usize = 127;

impl Endpoint {
    /// The method under which it is served.
    pub open spec fn served_by(self) -> Verb {
        match self {
            Endpoint::CreateVm
            | Endpoint::StartVm
            | Endpoint::StartVmFromSnapshot
            | Endpoint::SnapshotVm
            | Endpoint::StartMigration
            | Endpoint::CancelMigration
            | Endpoint::StopVm
            | Endpoint::PauseVm
            | Endpoint::ResumeVm
            | Endpoint::SetVmResources
            | Endpoint::HotplugVmCpu
            | Endpoint::HotplugVmMemory
            | Endpoint::FreezeVm
            | Endpoint::ThawVm
            | Endpoint::VmNetworkMigrationQuiesce
            | Endpoint::VmNetworkMigrationRestore
            | Endpoint::VmNetworkMigrationResume
            | Endpoint::SetVmNetworkPolicy
            | Endpoint::SetVmPodNetworkPolicy
            | Endpoint::UpsertNetworkGroup
            | Endpoint::UpsertNetworkService
            | Endpoint::ReconcileNetworkServiceHealth
            | Endpoint::GcNetworkServiceConntrack
            | Endpoint::ReconcileNetworkServicePressure
            | Endpoint::ExportNetworkServiceTelemetry
            | Endpoint::UpsertNetworkServicePolicy
            | Endpoint::ReconcileNetworkServicePolicies
            | Endpoint::ImportNetworkServiceConntrack
            | Endpoint::ImportNetworkServiceConntrackDelta
            | Endpoint::AckNetworkServiceConntrackDelta
            | Endpoint::ApplyCnp
            | Endpoint::UpsertRemoteIpcache
            | Endpoint::NetworkRefreshDns
            | Endpoint::AgentExec
            | Endpoint::AgentPutFile
            | Endpoint::AgentGetFile
            | Endpoint::QgaPing
            | Endpoint::QgaExec
            | Endpoint::QgaFsfreezeFreeze
            | Endpoint::QgaFsfreezeThaw
            | Endpoint::QgaFirewallOpen
            | Endpoint::QgaFirewallClose
            | Endpoint::CreateSandbox
            | Endpoint::SnapshotSandbox
            | Endpoint::SandboxFsRead
            | Endpoint::SandboxFsWrite
            | Endpoint::SandboxProcess
            | Endpoint::BuildTemplate
            | Endpoint::EgressCheck
            | Endpoint::BuildImage
            | Endpoint::AddCatalogEntry
            | Endpoint::RenameCatalogEntry
            | Endpoint::CloneCatalogEntry
            | Endpoint::ExportCatalogEntry
            | Endpoint::SetCatalogReadOnly
            | Endpoint::CleanCatalog
            | Endpoint::CreatePool
            | Endpoint::ClaimPool
            | Endpoint::ResizePool => Verb::Post,
            Endpoint::DeleteVm
            | Endpoint::ClearVmPodNetworkPolicy
            | Endpoint::DeleteNetworkServicePolicy
            | Endpoint::DeleteNetworkService
            | Endpoint::DeleteNetworkGroup
            | Endpoint::DeleteCnp
            | Endpoint::DeleteRemoteIpcache
            | Endpoint::RemoveCatalogEntry
            | Endpoint::DeletePool => Verb::Delete,
            Endpoint::SandboxHttpProxy
            | Endpoint::SandboxHttpProxyDefaultPort => Verb::Any,
            _ => Verb::Get,
        }
    }

    /// The path at which it is served.
    pub open spec fn served_at(self) -> Seq<char> {
        match self {
            Endpoint::Healthz => "/healthz"@,
            Endpoint::Readyz => "/readyz"@,
            Endpoint::Metrics => "/metrics"@,
            Endpoint::RuntimeCapabilities => "/v1/runtime/capabilities"@,
            Endpoint::CreateVm => "/v1/vms"@,
            Endpoint::ListVms => "/v1/vms"@,
            Endpoint::GetVm => "/v1/vms/{id}"@,
            Endpoint::DeleteVm => "/v1/vms/{id}"@,
            Endpoint::StartVm => "/v1/vms/{id}/start"@,
            Endpoint::StartVmFromSnapshot => "/v1/vms/{id}/start-from-snapshot"@,
            Endpoint::SnapshotVm => "/v1/vms/{id}/snapshot"@,
            Endpoint::StartMigration => "/v1/vms/{id}/migration/start"@,
            Endpoint::MigrationStatus => "/v1/vms/{id}/migration/status"@,
            Endpoint::CancelMigration => "/v1/vms/{id}/migration/cancel"@,
            Endpoint::StopVm => "/v1/vms/{id}/stop"@,
            Endpoint::PauseVm => "/v1/vms/{id}/pause"@,
            Endpoint::ResumeVm => "/v1/vms/{id}/resume"@,
            Endpoint::SetVmResources => "/v1/vms/{id}/resources"@,
            Endpoint::HotplugVmCpu => "/v1/vms/{id}/hotplug/cpu"@,
            Endpoint::HotplugVmMemory => "/v1/vms/{id}/hotplug/memory"@,
            Endpoint::VmCpuset => "/v1/vms/{id}/cpuset"@,
            Endpoint::FreezeVm => "/v1/vms/{id}/freeze"@,
            Endpoint::ThawVm => "/v1/vms/{id}/thaw"@,
            Endpoint::VmFrozen => "/v1/vms/{id}/frozen"@,
            Endpoint::VmStats => "/v1/vms/{id}/stats"@,
            Endpoint::VmNetworkStats => "/v1/vms/{id}/network/stats"@,
            Endpoint::VmNetworkFlows => "/v1/vms/{id}/network/flows"@,
            Endpoint::VmNetworkDropReasons => "/v1/vms/{id}/network/drop-reasons"@,
            Endpoint::VmNetworkStatus => "/v1/vms/{id}/network/status"@,
            Endpoint::VmNetworkMigrationState => "/v1/vms/{id}/network/migration/state"@,
            Endpoint::VmNetworkMigrationQuiesce => "/v1/vms/{id}/network/migration/quiesce"@,
            Endpoint::VmNetworkMigrationExport => "/v1/vms/{id}/network/migration/export"@,
            Endpoint::VmNetworkMigrationRestore => "/v1/vms/{id}/network/migration/restore"@,
            Endpoint::VmNetworkMigrationResume => "/v1/vms/{id}/network/migration/resume"@,
            Endpoint::VmNetworkServiceStats => "/v1/vms/{id}/network/services/stats"@,
            Endpoint::GetVmNetworkPolicy => "/v1/vms/{id}/network/policy"@,
            Endpoint::SetVmNetworkPolicy => "/v1/vms/{id}/network/policy"@,
            Endpoint::GetVmPodNetworkPolicy => "/v1/vms/{id}/network/pod-policy"@,
            Endpoint::SetVmPodNetworkPolicy => "/v1/vms/{id}/network/pod-policy"@,
            Endpoint::ClearVmPodNetworkPolicy => "/v1/vms/{id}/network/pod-policy"@,
            Endpoint::GetVmNetworkEffective => "/v1/vms/{id}/network/effective"@,
            Endpoint::ListNetworkGroups => "/v1/network/groups"@,
            Endpoint::UpsertNetworkGroup => "/v1/network/groups"@,
            Endpoint::ListNetworkServices => "/v1/network/services"@,
            Endpoint::UpsertNetworkService => "/v1/network/services"@,
            Endpoint::NetworkServiceStatus => "/v1/network/services/status"@,
            Endpoint::NetworkServiceStats => "/v1/network/services/stats"@,
            Endpoint::NetworkServiceHealth => "/v1/network/services/health"@,
            Endpoint::ReconcileNetworkServiceHealth => "/v1/network/services/health/reconcile"@,
            Endpoint::GcNetworkServiceConntrack => "/v1/network/services/conntrack/gc"@,
            Endpoint::ReconcileNetworkServicePressure => "/v1/network/services/pressure/reconcile"@,
            Endpoint::NetworkServiceAdvertisements => "/v1/network/services/advertisements"@,
            Endpoint::NetworkServiceFlows => "/v1/network/services/flows"@,
            Endpoint::ExportNetworkServiceTelemetry => "/v1/network/services/telemetry/export"@,
            Endpoint::ListNetworkServicePolicies => "/v1/network/services/policies"@,
            Endpoint::UpsertNetworkServicePolicy => "/v1/network/services/policies"@,
            Endpoint::ReconcileNetworkServicePolicies => "/v1/network/services/policies/reconcile"@,
            Endpoint::GetNetworkServicePolicy => "/v1/network/services/{name}/policy"@,
            Endpoint::DeleteNetworkServicePolicy => "/v1/network/services/{name}/policy"@,
            Endpoint::NetworkServiceEnvoyContract => "/v1/network/services/{name}/l7/envoy"@,
            Endpoint::ExportNetworkServiceConntrack => "/v1/network/services/{name}/conntrack/export"@,
            Endpoint::ImportNetworkServiceConntrack => "/v1/network/services/{name}/conntrack/import"@,
            Endpoint::ExportNetworkServiceConntrackDelta => "/v1/network/services/{name}/conntrack/delta"@,
            Endpoint::ImportNetworkServiceConntrackDelta => "/v1/network/services/{name}/conntrack/delta/import"@,
            Endpoint::AckNetworkServiceConntrackDelta => "/v1/network/services/{name}/conntrack/delta/ack"@,
            Endpoint::GetNetworkService => "/v1/network/services/{name}"@,
            Endpoint::DeleteNetworkService => "/v1/network/services/{name}"@,
            Endpoint::GetNetworkGroup => "/v1/network/groups/{name}"@,
            Endpoint::DeleteNetworkGroup => "/v1/network/groups/{name}"@,
            Endpoint::ListCnp => "/v1/network/cnp"@,
            Endpoint::ApplyCnp => "/v1/network/cnp"@,
            Endpoint::GetCnp => "/v1/network/cnp/{name}"@,
            Endpoint::DeleteCnp => "/v1/network/cnp/{name}"@,
            Endpoint::ListIdentities => "/v1/network/identities"@,
            Endpoint::NetworkObserve => "/v1/network/observe"@,
            Endpoint::NetworkHealth => "/v1/network/health"@,
            Endpoint::NetworkIpcache => "/v1/network/ipcache"@,
            Endpoint::UpsertRemoteIpcache => "/v1/network/ipcache/remote"@,
            Endpoint::DeleteRemoteIpcache => "/v1/network/ipcache/remote/{identity}"@,
            Endpoint::NetworkRefreshDns => "/v1/network/refresh-dns"@,
            Endpoint::ListEndpoints => "/v1/network/endpoints"@,
            Endpoint::HubbleFlows => "/v1/network/hubble/flows"@,
            Endpoint::HubbleFlowsText => "/v1/network/hubble/flows/text"@,
            Endpoint::HubbleUi => "/v1/network/hubble/ui"@,
            Endpoint::VmPressure => "/v1/vms/{id}/pressure"@,
            Endpoint::VmLogs => "/v1/vms/{id}/logs"@,
            Endpoint::AgentExec => "/v1/vms/{id}/agent"@,
            Endpoint::AgentPutFile => "/v1/vms/{id}/agent/put-file"@,
            Endpoint::AgentGetFile => "/v1/vms/{id}/agent/get-file"@,
            Endpoint::AgentConsole => "/v1/vms/{id}/console"@,
            Endpoint::QgaPing => "/v1/vms/{id}/qga/ping"@,
            Endpoint::QgaNetworkInterfaces => "/v1/vms/{id}/qga/network-interfaces"@,
            Endpoint::QgaExec => "/v1/vms/{id}/qga/exec"@,
            Endpoint::QgaFsfreezeFreeze => "/v1/vms/{id}/qga/fsfreeze"@,
            Endpoint::QgaFsfreezeThaw => "/v1/vms/{id}/qga/fsthaw"@,
            Endpoint::QgaFsfreezeStatus => "/v1/vms/{id}/qga/fsfreeze-status"@,
            Endpoint::QgaFirewallOpen => "/v1/vms/{id}/qga/firewall/open"@,
            Endpoint::QgaFirewallClose => "/v1/vms/{id}/qga/firewall/close"@,
            Endpoint::CreateSandbox => "/v1/sandboxes"@,
            Endpoint::ListSandboxes => "/v1/sandboxes"@,
            Endpoint::SnapshotSandbox => "/v1/sandboxes/{id}/snapshot"@,
            Endpoint::SandboxFsRead => "/v1/sandboxes/{id}/fs/read"@,
            Endpoint::SandboxFsWrite => "/v1/sandboxes/{id}/fs/write"@,
            Endpoint::SandboxProcess => "/v1/sandboxes/{id}/process"@,
            Endpoint::SandboxHttpProxy => "/v1/sandboxes/{id}/http/{port}/{*path}"@,
            Endpoint::SandboxHttpProxyDefaultPort => "/sandbox/{id}/{*path}"@,
            Endpoint::ListTemplates => "/v1/templates"@,
            Endpoint::BuildTemplate => "/v1/templates"@,
            Endpoint::EgressCheck => "/v1/egress/check"@,
            Endpoint::EgressNftables => "/v1/egress/nftables"@,
            Endpoint::ConsoleUi => "/console"@,
            Endpoint::ConsoleUiIndex => "/console/"@,
            Endpoint::BuildImage => "/v1/images/build"@,
            Endpoint::AddCatalogEntry => "/v1/images/catalog"@,
            Endpoint::RemoveCatalogEntry => "/v1/images/catalog/{name}"@,
            Endpoint::RenameCatalogEntry => "/v1/images/catalog/{name}/rename"@,
            Endpoint::CloneCatalogEntry => "/v1/images/catalog/{name}/clone"@,
            Endpoint::ExportCatalogEntry => "/v1/images/catalog/{name}/export"@,
            Endpoint::SetCatalogReadOnly => "/v1/images/catalog/{name}/read-only"@,
            Endpoint::CleanCatalog => "/v1/images/catalog/clean"@,
            Endpoint::ListCatalog => "/v1/images/catalog"@,
            Endpoint::CreatePool => "/v1/pools"@,
            Endpoint::ListPools => "/v1/pools"@,
            Endpoint::GetPool => "/v1/pools/{name}"@,
            Endpoint::DeletePool => "/v1/pools/{name}"@,
            Endpoint::ClaimPool => "/v1/pools/{name}/claim"@,
            Endpoint::ResizePool => "/v1/pools/{name}/resize"@,
        }
    }

    /// The status of an answer that grants the request.
    pub open spec fn success(self) -> u16 {
        match self {
            Endpoint::CreateVm
            | Endpoint::CreateSandbox
            | Endpoint::BuildTemplate
            | Endpoint::AddCatalogEntry
            | Endpoint::CloneCatalogEntry
            | Endpoint::CreatePool => 201,
            Endpoint::SetVmResources
            | Endpoint::FreezeVm
            | Endpoint::ThawVm
            | Endpoint::DeleteVm
            | Endpoint::RemoveCatalogEntry
            | Endpoint::ExportCatalogEntry
            | Endpoint::DeletePool => 204,
            _ => 200,
        }
    }

    /// Whether only an administrator may ask for it.
    pub open spec fn for_admins(self) -> bool {
        match self {
            Endpoint::Healthz
            | Endpoint::Readyz
            | Endpoint::Metrics
            | Endpoint::RuntimeCapabilities
            | Endpoint::ListVms
            | Endpoint::GetVm
            | Endpoint::MigrationStatus
            | Endpoint::VmCpuset
            | Endpoint::VmFrozen
            | Endpoint::VmStats
            | Endpoint::VmNetworkStats
            | Endpoint::VmNetworkFlows
            | Endpoint::VmNetworkDropReasons
            | Endpoint::VmNetworkStatus
            | Endpoint::VmNetworkMigrationState
            | Endpoint::VmNetworkServiceStats
            | Endpoint::GetVmNetworkPolicy
            | Endpoint::GetVmPodNetworkPolicy
            | Endpoint::GetVmNetworkEffective
            | Endpoint::ListNetworkGroups
            | Endpoint::ListNetworkServices
            | Endpoint::NetworkServiceStatus
            | Endpoint::NetworkServiceStats
            | Endpoint::NetworkServiceHealth
            | Endpoint::NetworkServiceAdvertisements
            | Endpoint::NetworkServiceFlows
            | Endpoint::ListNetworkServicePolicies
            | Endpoint::GetNetworkServicePolicy
            | Endpoint::NetworkServiceEnvoyContract
            | Endpoint::ExportNetworkServiceConntrack
            | Endpoint::GetNetworkService
            | Endpoint::GetNetworkGroup
            | Endpoint::ListCnp
            | Endpoint::GetCnp
            | Endpoint::ListIdentities
            | Endpoint::NetworkObserve
            | Endpoint::NetworkHealth
            | Endpoint::NetworkIpcache
            | Endpoint::ListEndpoints
            | Endpoint::HubbleFlows
            | Endpoint::HubbleFlowsText
            | Endpoint::HubbleUi
            | Endpoint::VmPressure
            | Endpoint::VmLogs
            | Endpoint::QgaNetworkInterfaces
            | Endpoint::QgaFsfreezeStatus
            | Endpoint::ListSandboxes
            | Endpoint::SandboxHttpProxy
            | Endpoint::SandboxHttpProxyDefaultPort
            | Endpoint::ListTemplates
            | Endpoint::EgressNftables
            | Endpoint::ConsoleUi
            | Endpoint::ConsoleUiIndex
            | Endpoint::ListCatalog
            | Endpoint::ListPools
            | Endpoint::GetPool => false,
            _ => true,
        }
    }

    /// The row in which it stands.
    pub open spec fn row(self) -> usize {
        match self {
            Endpoint::Healthz => 0,
            Endpoint::Readyz => 1,
            Endpoint::Metrics => 2,
            Endpoint::RuntimeCapabilities => 3,
            Endpoint::CreateVm => 4,
            Endpoint::ListVms => 5,
            Endpoint::GetVm => 6,
            Endpoint::DeleteVm => 7,
            Endpoint::StartVm => 8,
            Endpoint::StartVmFromSnapshot => 9,
            Endpoint::SnapshotVm => 10,
            Endpoint::StartMigration => 11,
            Endpoint::MigrationStatus => 12,
            Endpoint::CancelMigration => 13,
            Endpoint::StopVm => 14,
            Endpoint::PauseVm => 15,
            Endpoint::ResumeVm => 16,
            Endpoint::SetVmResources => 17,
            Endpoint::HotplugVmCpu => 18,
            Endpoint::HotplugVmMemory => 19,
            Endpoint::VmCpuset => 20,
            Endpoint::FreezeVm => 21,
            Endpoint::ThawVm => 22,
            Endpoint::VmFrozen => 23,
            Endpoint::VmStats => 24,
            Endpoint::VmNetworkStats => 25,
            Endpoint::VmNetworkFlows => 26,
            Endpoint::VmNetworkDropReasons => 27,
            Endpoint::VmNetworkStatus => 28,
            Endpoint::VmNetworkMigrationState => 29,
            Endpoint::VmNetworkMigrationQuiesce => 30,
            Endpoint::VmNetworkMigrationExport => 31,
            Endpoint::VmNetworkMigrationRestore => 32,
            Endpoint::VmNetworkMigrationResume => 33,
            Endpoint::VmNetworkServiceStats => 34,
            Endpoint::GetVmNetworkPolicy => 35,
            Endpoint::SetVmNetworkPolicy => 36,
            Endpoint::GetVmPodNetworkPolicy => 37,
            Endpoint::SetVmPodNetworkPolicy => 38,
            Endpoint::ClearVmPodNetworkPolicy => 39,
            Endpoint::GetVmNetworkEffective => 40,
            Endpoint::ListNetworkGroups => 41,
            Endpoint::UpsertNetworkGroup => 42,
            Endpoint::ListNetworkServices => 43,
            Endpoint::UpsertNetworkService => 44,
            Endpoint::NetworkServiceStatus => 45,
            Endpoint::NetworkServiceStats => 46,
            Endpoint::NetworkServiceHealth => 47,
            Endpoint::ReconcileNetworkServiceHealth => 48,
            Endpoint::GcNetworkServiceConntrack => 49,
            Endpoint::ReconcileNetworkServicePressure => 50,
            Endpoint::NetworkServiceAdvertisements => 51,
            Endpoint::NetworkServiceFlows => 52,
            Endpoint::ExportNetworkServiceTelemetry => 53,
            Endpoint::ListNetworkServicePolicies => 54,
            Endpoint::UpsertNetworkServicePolicy => 55,
            Endpoint::ReconcileNetworkServicePolicies => 56,
            Endpoint::GetNetworkServicePolicy => 57,
            Endpoint::DeleteNetworkServicePolicy => 58,
            Endpoint::NetworkServiceEnvoyContract => 59,
            Endpoint::ExportNetworkServiceConntrack => 60,
            Endpoint::ImportNetworkServiceConntrack => 61,
            Endpoint::ExportNetworkServiceConntrackDelta => 62,
            Endpoint::ImportNetworkServiceConntrackDelta => 63,
            Endpoint::AckNetworkServiceConntrackDelta => 64,
            Endpoint::GetNetworkService => 65,
            Endpoint::DeleteNetworkService => 66,
            Endpoint::GetNetworkGroup => 67,
            Endpoint::DeleteNetworkGroup => 68,
            Endpoint::ListCnp => 69,
            Endpoint::ApplyCnp => 70,
            Endpoint::GetCnp => 71,
            Endpoint::DeleteCnp => 72,
            Endpoint::ListIdentities => 73,
            Endpoint::NetworkObserve => 74,
            Endpoint::NetworkHealth => 75,
            Endpoint::NetworkIpcache => 76,
            Endpoint::UpsertRemoteIpcache => 77,
            Endpoint::DeleteRemoteIpcache => 78,
            Endpoint::NetworkRefreshDns => 79,
            Endpoint::ListEndpoints => 80,
            Endpoint::HubbleFlows => 81,
            Endpoint::HubbleFlowsText => 82,
            Endpoint::HubbleUi => 83,
            Endpoint::VmPressure => 84,
            Endpoint::VmLogs => 85,
            Endpoint::AgentExec => 86,
            Endpoint::AgentPutFile => 87,
            Endpoint::AgentGetFile => 88,
            Endpoint::AgentConsole => 89,
            Endpoint::QgaPing => 90,
            Endpoint::QgaNetworkInterfaces => 91,
            Endpoint::QgaExec => 92,
            Endpoint::QgaFsfreezeFreeze => 93,
            Endpoint::QgaFsfreezeThaw => 94,
            Endpoint::QgaFsfreezeStatus => 95,
            Endpoint::QgaFirewallOpen => 96,
            Endpoint::QgaFirewallClose => 97,
            Endpoint::CreateSandbox => 98,
            Endpoint::ListSandboxes => 99,
            Endpoint::SnapshotSandbox => 100,
            Endpoint::SandboxFsRead => 101,
            Endpoint::SandboxFsWrite => 102,
            Endpoint::SandboxProcess => 103,
            Endpoint::SandboxHttpProxy => 104,
            Endpoint::SandboxHttpProxyDefaultPort => 105,
            Endpoint::ListTemplates => 106,
            Endpoint::BuildTemplate => 107,
            Endpoint::EgressCheck => 108,
            Endpoint::EgressNftables => 109,
            Endpoint::ConsoleUi => 110,
            Endpoint::ConsoleUiIndex => 111,
            Endpoint::BuildImage => 112,
            Endpoint::AddCatalogEntry => 113,
            Endpoint::RemoveCatalogEntry => 114,
            Endpoint::RenameCatalogEntry => 115,
            Endpoint::CloneCatalogEntry => 116,
            Endpoint::ExportCatalogEntry => 117,
            Endpoint::SetCatalogReadOnly => 118,
            Endpoint::CleanCatalog => 119,
            Endpoint::ListCatalog => 120,
            Endpoint::CreatePool => 121,
            Endpoint::ListPools => 122,
            Endpoint::GetPool => 123,
            Endpoint::DeletePool => 124,
            Endpoint::ClaimPool => 125,
            Endpoint::ResizePool => 126,
        }
    }

    /// Gives the method under which it is served.
    pub fn verb(&self) -> (r: Verb)
        ensures
            r == self.served_by(),
    {
        match self {
            Endpoint::CreateVm
            | Endpoint::StartVm
            | Endpoint::StartVmFromSnapshot
            | Endpoint::SnapshotVm
            | Endpoint::StartMigration
            | Endpoint::CancelMigration
            | Endpoint::StopVm
            | Endpoint::PauseVm
            | Endpoint::ResumeVm
            | Endpoint::SetVmResources
            | Endpoint::HotplugVmCpu
            | Endpoint::HotplugVmMemory
            | Endpoint::FreezeVm
            | Endpoint::ThawVm
            | Endpoint::VmNetworkMigrationQuiesce
            | Endpoint::VmNetworkMigrationRestore
            | Endpoint::VmNetworkMigrationResume
            | Endpoint::SetVmNetworkPolicy
            | Endpoint::SetVmPodNetworkPolicy
            | Endpoint::UpsertNetworkGroup
            | Endpoint::UpsertNetworkService
            | Endpoint::ReconcileNetworkServiceHealth
            | Endpoint::GcNetworkServiceConntrack
            | Endpoint::ReconcileNetworkServicePressure
            | Endpoint::ExportNetworkServiceTelemetry
            | Endpoint::UpsertNetworkServicePolicy
            | Endpoint::ReconcileNetworkServicePolicies
            | Endpoint::ImportNetworkServiceConntrack
            | Endpoint::ImportNetworkServiceConntrackDelta
            | Endpoint::AckNetworkServiceConntrackDelta
            | Endpoint::ApplyCnp
            | Endpoint::UpsertRemoteIpcache
            | Endpoint::NetworkRefreshDns
            | Endpoint::AgentExec
            | Endpoint::AgentPutFile
            | Endpoint::AgentGetFile
            | Endpoint::QgaPing
            | Endpoint::QgaExec
            | Endpoint::QgaFsfreezeFreeze
            | Endpoint::QgaFsfreezeThaw
            | Endpoint::QgaFirewallOpen
            | Endpoint::QgaFirewallClose
            | Endpoint::CreateSandbox
            | Endpoint::SnapshotSandbox
            | Endpoint::SandboxFsRead
            | Endpoint::SandboxFsWrite
            | Endpoint::SandboxProcess
            | Endpoint::BuildTemplate
            | Endpoint::EgressCheck
            | Endpoint::BuildImage
            | Endpoint::AddCatalogEntry
            | Endpoint::RenameCatalogEntry
            | Endpoint::CloneCatalogEntry
            | Endpoint::ExportCatalogEntry
            | Endpoint::SetCatalogReadOnly
            | Endpoint::CleanCatalog
            | Endpoint::CreatePool
            | Endpoint::ClaimPool
            | Endpoint::ResizePool => Verb::Post,
            Endpoint::DeleteVm
            | Endpoint::ClearVmPodNetworkPolicy
            | Endpoint::DeleteNetworkServicePolicy
            | Endpoint::DeleteNetworkService
            | Endpoint::DeleteNetworkGroup
            | Endpoint::DeleteCnp
            | Endpoint::DeleteRemoteIpcache
            | Endpoint::RemoveCatalogEntry
            | Endpoint::DeletePool => Verb::Delete,
            Endpoint::SandboxHttpProxy
            | Endpoint::SandboxHttpProxyDefaultPort => Verb::Any,
            _ => Verb::Get,
        }
    }

    /// Gives the path at which it is served.
    pub fn pattern(&self) -> (r: &'static str)
        ensures
            r@ == self.served_at(),
    {
        match self {
            Endpoint::Healthz => "/healthz",
            Endpoint::Readyz => "/readyz",
            Endpoint::Metrics => "/metrics",
            Endpoint::RuntimeCapabilities => "/v1/runtime/capabilities",
            Endpoint::CreateVm => "/v1/vms",
            Endpoint::ListVms => "/v1/vms",
            Endpoint::GetVm => "/v1/vms/{id}",
            Endpoint::DeleteVm => "/v1/vms/{id}",
            Endpoint::StartVm => "/v1/vms/{id}/start",
            Endpoint::StartVmFromSnapshot => "/v1/vms/{id}/start-from-snapshot",
            Endpoint::SnapshotVm => "/v1/vms/{id}/snapshot",
            Endpoint::StartMigration => "/v1/vms/{id}/migration/start",
            Endpoint::MigrationStatus => "/v1/vms/{id}/migration/status",
            Endpoint::CancelMigration => "/v1/vms/{id}/migration/cancel",
            Endpoint::StopVm => "/v1/vms/{id}/stop",
            Endpoint::PauseVm => "/v1/vms/{id}/pause",
            Endpoint::ResumeVm => "/v1/vms/{id}/resume",
            Endpoint::SetVmResources => "/v1/vms/{id}/resources",
            Endpoint::HotplugVmCpu => "/v1/vms/{id}/hotplug/cpu",
            Endpoint::HotplugVmMemory => "/v1/vms/{id}/hotplug/memory",
            Endpoint::VmCpuset => "/v1/vms/{id}/cpuset",
            Endpoint::FreezeVm => "/v1/vms/{id}/freeze",
            Endpoint::ThawVm => "/v1/vms/{id}/thaw",
            Endpoint::VmFrozen => "/v1/vms/{id}/frozen",
            Endpoint::VmStats => "/v1/vms/{id}/stats",
            Endpoint::VmNetworkStats => "/v1/vms/{id}/network/stats",
            Endpoint::VmNetworkFlows => "/v1/vms/{id}/network/flows",
            Endpoint::VmNetworkDropReasons => "/v1/vms/{id}/network/drop-reasons",
            Endpoint::VmNetworkStatus => "/v1/vms/{id}/network/status",
            Endpoint::VmNetworkMigrationState => "/v1/vms/{id}/network/migration/state",
            Endpoint::VmNetworkMigrationQuiesce => "/v1/vms/{id}/network/migration/quiesce",
            Endpoint::VmNetworkMigrationExport => "/v1/vms/{id}/network/migration/export",
            Endpoint::VmNetworkMigrationRestore => "/v1/vms/{id}/network/migration/restore",
            Endpoint::VmNetworkMigrationResume => "/v1/vms/{id}/network/migration/resume",
            Endpoint::VmNetworkServiceStats => "/v1/vms/{id}/network/services/stats",
            Endpoint::GetVmNetworkPolicy => "/v1/vms/{id}/network/policy",
            Endpoint::SetVmNetworkPolicy => "/v1/vms/{id}/network/policy",
            Endpoint::GetVmPodNetworkPolicy => "/v1/vms/{id}/network/pod-policy",
            Endpoint::SetVmPodNetworkPolicy => "/v1/vms/{id}/network/pod-policy",
            Endpoint::ClearVmPodNetworkPolicy => "/v1/vms/{id}/network/pod-policy",
            Endpoint::GetVmNetworkEffective => "/v1/vms/{id}/network/effective",
            Endpoint::ListNetworkGroups => "/v1/network/groups",
            Endpoint::UpsertNetworkGroup => "/v1/network/groups",
            Endpoint::ListNetworkServices => "/v1/network/services",
            Endpoint::UpsertNetworkService => "/v1/network/services",
            Endpoint::NetworkServiceStatus => "/v1/network/services/status",
            Endpoint::NetworkServiceStats => "/v1/network/services/stats",
            Endpoint::NetworkServiceHealth => "/v1/network/services/health",
            Endpoint::ReconcileNetworkServiceHealth => "/v1/network/services/health/reconcile",
            Endpoint::GcNetworkServiceConntrack => "/v1/network/services/conntrack/gc",
            Endpoint::ReconcileNetworkServicePressure => "/v1/network/services/pressure/reconcile",
            Endpoint::NetworkServiceAdvertisements => "/v1/network/services/advertisements",
            Endpoint::NetworkServiceFlows => "/v1/network/services/flows",
            Endpoint::ExportNetworkServiceTelemetry => "/v1/network/services/telemetry/export",
            Endpoint::ListNetworkServicePolicies => "/v1/network/services/policies",
            Endpoint::UpsertNetworkServicePolicy => "/v1/network/services/policies",
            Endpoint::ReconcileNetworkServicePolicies => "/v1/network/services/policies/reconcile",
            Endpoint::GetNetworkServicePolicy => "/v1/network/services/{name}/policy",
            Endpoint::DeleteNetworkServicePolicy => "/v1/network/services/{name}/policy",
            Endpoint::NetworkServiceEnvoyContract => "/v1/network/services/{name}/l7/envoy",
            Endpoint::ExportNetworkServiceConntrack => "/v1/network/services/{name}/conntrack/export",
            Endpoint::ImportNetworkServiceConntrack => "/v1/network/services/{name}/conntrack/import",
            Endpoint::ExportNetworkServiceConntrackDelta => "/v1/network/services/{name}/conntrack/delta",
            Endpoint::ImportNetworkServiceConntrackDelta => "/v1/network/services/{name}/conntrack/delta/import",
            Endpoint::AckNetworkServiceConntrackDelta => "/v1/network/services/{name}/conntrack/delta/ack",
            Endpoint::GetNetworkService => "/v1/network/services/{name}",
            Endpoint::DeleteNetworkService => "/v1/network/services/{name}",
            Endpoint::GetNetworkGroup => "/v1/network/groups/{name}",
            Endpoint::DeleteNetworkGroup => "/v1/network/groups/{name}",
            Endpoint::ListCnp => "/v1/network/cnp",
            Endpoint::ApplyCnp => "/v1/network/cnp",
            Endpoint::GetCnp => "/v1/network/cnp/{name}",
            Endpoint::DeleteCnp => "/v1/network/cnp/{name}",
            Endpoint::ListIdentities => "/v1/network/identities",
            Endpoint::NetworkObserve => "/v1/network/observe",
            Endpoint::NetworkHealth => "/v1/network/health",
            Endpoint::NetworkIpcache => "/v1/network/ipcache",
            Endpoint::UpsertRemoteIpcache => "/v1/network/ipcache/remote",
            Endpoint::DeleteRemoteIpcache => "/v1/network/ipcache/remote/{identity}",
            Endpoint::NetworkRefreshDns => "/v1/network/refresh-dns",
            Endpoint::ListEndpoints => "/v1/network/endpoints",
            Endpoint::HubbleFlows => "/v1/network/hubble/flows",
            Endpoint::HubbleFlowsText => "/v1/network/hubble/flows/text",
            Endpoint::HubbleUi => "/v1/network/hubble/ui",
            Endpoint::VmPressure => "/v1/vms/{id}/pressure",
            Endpoint::VmLogs => "/v1/vms/{id}/logs",
            Endpoint::AgentExec => "/v1/vms/{id}/agent",
            Endpoint::AgentPutFile => "/v1/vms/{id}/agent/put-file",
            Endpoint::AgentGetFile => "/v1/vms/{id}/agent/get-file",
            Endpoint::AgentConsole => "/v1/vms/{id}/console",
            Endpoint::QgaPing => "/v1/vms/{id}/qga/ping",
            Endpoint::QgaNetworkInterfaces => "/v1/vms/{id}/qga/network-interfaces",
            Endpoint::QgaExec => "/v1/vms/{id}/qga/exec",
            Endpoint::QgaFsfreezeFreeze => "/v1/vms/{id}/qga/fsfreeze",
            Endpoint::QgaFsfreezeThaw => "/v1/vms/{id}/qga/fsthaw",
            Endpoint::QgaFsfreezeStatus => "/v1/vms/{id}/qga/fsfreeze-status",
            Endpoint::QgaFirewallOpen => "/v1/vms/{id}/qga/firewall/open",
            Endpoint::QgaFirewallClose => "/v1/vms/{id}/qga/firewall/close",
            Endpoint::CreateSandbox => "/v1/sandboxes",
            Endpoint::ListSandboxes => "/v1/sandboxes",
            Endpoint::SnapshotSandbox => "/v1/sandboxes/{id}/snapshot",
            Endpoint::SandboxFsRead => "/v1/sandboxes/{id}/fs/read",
            Endpoint::SandboxFsWrite => "/v1/sandboxes/{id}/fs/write",
            Endpoint::SandboxProcess => "/v1/sandboxes/{id}/process",
            Endpoint::SandboxHttpProxy => "/v1/sandboxes/{id}/http/{port}/{*path}",
            Endpoint::SandboxHttpProxyDefaultPort => "/sandbox/{id}/{*path}",
            Endpoint::ListTemplates => "/v1/templates",
            Endpoint::BuildTemplate => "/v1/templates",
            Endpoint::EgressCheck => "/v1/egress/check",
            Endpoint::EgressNftables => "/v1/egress/nftables",
            Endpoint::ConsoleUi => "/console",
            Endpoint::ConsoleUiIndex => "/console/",
            Endpoint::BuildImage => "/v1/images/build",
            Endpoint::AddCatalogEntry => "/v1/images/catalog",
            Endpoint::RemoveCatalogEntry => "/v1/images/catalog/{name}",
            Endpoint::RenameCatalogEntry => "/v1/images/catalog/{name}/rename",
            Endpoint::CloneCatalogEntry => "/v1/images/catalog/{name}/clone",
            Endpoint::ExportCatalogEntry => "/v1/images/catalog/{name}/export",
            Endpoint::SetCatalogReadOnly => "/v1/images/catalog/{name}/read-only",
            Endpoint::CleanCatalog => "/v1/images/catalog/clean",
            Endpoint::ListCatalog => "/v1/images/catalog",
            Endpoint::CreatePool => "/v1/pools",
            Endpoint::ListPools => "/v1/pools",
            Endpoint::GetPool => "/v1/pools/{name}",
            Endpoint::DeletePool => "/v1/pools/{name}",
            Endpoint::ClaimPool => "/v1/pools/{name}/claim",
            Endpoint::ResizePool => "/v1/pools/{name}/resize",
        }
    }

    /// The status of an answer that grants the request: 201 where something was made,
    /// 204 where there is nothing to say.
    pub fn success_status(&self) -> (r: u16)
        ensures
            r == self.success(),
    {
        match self {
            Endpoint::CreateVm
            | Endpoint::CreateSandbox
            | Endpoint::BuildTemplate
            | Endpoint::AddCatalogEntry
            | Endpoint::CloneCatalogEntry
            | Endpoint::CreatePool => 201,
            Endpoint::SetVmResources
            | Endpoint::FreezeVm
            | Endpoint::ThawVm
            | Endpoint::DeleteVm
            | Endpoint::RemoveCatalogEntry
            | Endpoint::ExportCatalogEntry
            | Endpoint::DeletePool => 204,
            _ => 200,
        }
    }

    /// Tells whether only an administrator may ask for it.
    pub fn needs_admin(&self) -> (r: bool)
        ensures
            r == self.for_admins(),
    {
        match self {
            Endpoint::Healthz
            | Endpoint::Readyz
            | Endpoint::Metrics
            | Endpoint::RuntimeCapabilities
            | Endpoint::ListVms
            | Endpoint::GetVm
            | Endpoint::MigrationStatus
            | Endpoint::VmCpuset
            | Endpoint::VmFrozen
            | Endpoint::VmStats
            | Endpoint::VmNetworkStats
            | Endpoint::VmNetworkFlows
            | Endpoint::VmNetworkDropReasons
            | Endpoint::VmNetworkStatus
            | Endpoint::VmNetworkMigrationState
            | Endpoint::VmNetworkServiceStats
            | Endpoint::GetVmNetworkPolicy
            | Endpoint::GetVmPodNetworkPolicy
            | Endpoint::GetVmNetworkEffective
            | Endpoint::ListNetworkGroups
            | Endpoint::ListNetworkServices
            | Endpoint::NetworkServiceStatus
            | Endpoint::NetworkServiceStats
            | Endpoint::NetworkServiceHealth
            | Endpoint::NetworkServiceAdvertisements
            | Endpoint::NetworkServiceFlows
            | Endpoint::ListNetworkServicePolicies
            | Endpoint::GetNetworkServicePolicy
            | Endpoint::NetworkServiceEnvoyContract
            | Endpoint::ExportNetworkServiceConntrack
            | Endpoint::GetNetworkService
            | Endpoint::GetNetworkGroup
            | Endpoint::ListCnp
            | Endpoint::GetCnp
            | Endpoint::ListIdentities
            | Endpoint::NetworkObserve
            | Endpoint::NetworkHealth
            | Endpoint::NetworkIpcache
            | Endpoint::ListEndpoints
            | Endpoint::HubbleFlows
            | Endpoint::HubbleFlowsText
            | Endpoint::HubbleUi
            | Endpoint::VmPressure
            | Endpoint::VmLogs
            | Endpoint::QgaNetworkInterfaces
            | Endpoint::QgaFsfreezeStatus
            | Endpoint::ListSandboxes
            | Endpoint::SandboxHttpProxy
            | Endpoint::SandboxHttpProxyDefaultPort
            | Endpoint::ListTemplates
            | Endpoint::EgressNftables
            | Endpoint::ConsoleUi
            | Endpoint::ConsoleUiIndex
            | Endpoint::ListCatalog
            | Endpoint::ListPools
            | Endpoint::GetPool => false,
            _ => true,
        }
    }

    /// Decides whether the sender may ask for it.
    pub fn permit(&self, role: Role) -> (r: Result<(), ApiError>)
        ensures
            match r {
                Ok(_) => !self.for_admins() || role is Admin,
                Err(e) => self.for_admins() && !(role is Admin) && auth::answers(
                    e,
                    403,
                    "admin role required"@,
                ),
            },
    {
        if self.needs_admin() {
            require_admin(role)
        } else {
            Ok(())
        }
    }
}

/// What stands in a row.
pub open spec fn in_row(i: usize) -> Endpoint {
    match i {
        0 => Endpoint::Healthz,
        1 => Endpoint::Readyz,
        2 => Endpoint::Metrics,
        3 => Endpoint::RuntimeCapabilities,
        4 => Endpoint::CreateVm,
        5 => Endpoint::ListVms,
        6 => Endpoint::GetVm,
        7 => Endpoint::DeleteVm,
        8 => Endpoint::StartVm,
        9 => Endpoint::StartVmFromSnapshot,
        10 => Endpoint::SnapshotVm,
        11 => Endpoint::StartMigration,
        12 => Endpoint::MigrationStatus,
        13 => Endpoint::CancelMigration,
        14 => Endpoint::StopVm,
        15 => Endpoint::PauseVm,
        16 => Endpoint::ResumeVm,
        17 => Endpoint::SetVmResources,
        18 => Endpoint::HotplugVmCpu,
        19 => Endpoint::HotplugVmMemory,
        20 => Endpoint::VmCpuset,
        21 => Endpoint::FreezeVm,
        22 => Endpoint::ThawVm,
        23 => Endpoint::VmFrozen,
        24 => Endpoint::VmStats,
        25 => Endpoint::VmNetworkStats,
        26 => Endpoint::VmNetworkFlows,
        27 => Endpoint::VmNetworkDropReasons,
        28 => Endpoint::VmNetworkStatus,
        29 => Endpoint::VmNetworkMigrationState,
        30 => Endpoint::VmNetworkMigrationQuiesce,
        31 => Endpoint::VmNetworkMigrationExport,
        32 => Endpoint::VmNetworkMigrationRestore,
        33 => Endpoint::VmNetworkMigrationResume,
        34 => Endpoint::VmNetworkServiceStats,
        35 => Endpoint::GetVmNetworkPolicy,
        36 => Endpoint::SetVmNetworkPolicy,
        37 => Endpoint::GetVmPodNetworkPolicy,
        38 => Endpoint::SetVmPodNetworkPolicy,
        39 => Endpoint::ClearVmPodNetworkPolicy,
        40 => Endpoint::GetVmNetworkEffective,
        41 => Endpoint::ListNetworkGroups,
        42 => Endpoint::UpsertNetworkGroup,
        43 => Endpoint::ListNetworkServices,
        44 => Endpoint::UpsertNetworkService,
        45 => Endpoint::NetworkServiceStatus,
        46 => Endpoint::NetworkServiceStats,
        47 => Endpoint::NetworkServiceHealth,
        48 => Endpoint::ReconcileNetworkServiceHealth,
        49 => Endpoint::GcNetworkServiceConntrack,
        50 => Endpoint::ReconcileNetworkServicePressure,
        51 => Endpoint::NetworkServiceAdvertisements,
        52 => Endpoint::NetworkServiceFlows,
        53 => Endpoint::ExportNetworkServiceTelemetry,
        54 => Endpoint::ListNetworkServicePolicies,
        55 => Endpoint::UpsertNetworkServicePolicy,
        56 => Endpoint::ReconcileNetworkServicePolicies,
        57 => Endpoint::GetNetworkServicePolicy,
        58 => Endpoint::DeleteNetworkServicePolicy,
        59 => Endpoint::NetworkServiceEnvoyContract,
        60 => Endpoint::ExportNetworkServiceConntrack,
        61 => Endpoint::ImportNetworkServiceConntrack,
        62 => Endpoint::ExportNetworkServiceConntrackDelta,
        63 => Endpoint::ImportNetworkServiceConntrackDelta,
        64 => Endpoint::AckNetworkServiceConntrackDelta,
        65 => Endpoint::GetNetworkService,
        66 => Endpoint::DeleteNetworkService,
        67 => Endpoint::GetNetworkGroup,
        68 => Endpoint::DeleteNetworkGroup,
        69 => Endpoint::ListCnp,
        70 => Endpoint::ApplyCnp,
        71 => Endpoint::GetCnp,
        72 => Endpoint::DeleteCnp,
        73 => Endpoint::ListIdentities,
        74 => Endpoint::NetworkObserve,
        75 => Endpoint::NetworkHealth,
        76 => Endpoint::NetworkIpcache,
        77 => Endpoint::UpsertRemoteIpcache,
        78 => Endpoint::DeleteRemoteIpcache,
        79 => Endpoint::NetworkRefreshDns,
        80 => Endpoint::ListEndpoints,
        81 => Endpoint::HubbleFlows,
        82 => Endpoint::HubbleFlowsText,
        83 => Endpoint::HubbleUi,
        84 => Endpoint::VmPressure,
        85 => Endpoint::VmLogs,
        86 => Endpoint::AgentExec,
        87 => Endpoint::AgentPutFile,
        88 => Endpoint::AgentGetFile,
        89 => Endpoint::AgentConsole,
        90 => Endpoint::QgaPing,
        91 => Endpoint::QgaNetworkInterfaces,
        92 => Endpoint::QgaExec,
        93 => Endpoint::QgaFsfreezeFreeze,
        94 => Endpoint::QgaFsfreezeThaw,
        95 => Endpoint::QgaFsfreezeStatus,
        96 => Endpoint::QgaFirewallOpen,
        97 => Endpoint::QgaFirewallClose,
        98 => Endpoint::CreateSandbox,
        99 => Endpoint::ListSandboxes,
        100 => Endpoint::SnapshotSandbox,
        101 => Endpoint::SandboxFsRead,
        102 => Endpoint::SandboxFsWrite,
        103 => Endpoint::SandboxProcess,
        104 => Endpoint::SandboxHttpProxy,
        105 => Endpoint::SandboxHttpProxyDefaultPort,
        106 => Endpoint::ListTemplates,
        107 => Endpoint::BuildTemplate,
        108 => Endpoint::EgressCheck,
        109 => Endpoint::EgressNftables,
        110 => Endpoint::ConsoleUi,
        111 => Endpoint::ConsoleUiIndex,
        112 => Endpoint::BuildImage,
        113 => Endpoint::AddCatalogEntry,
        114 => Endpoint::RemoveCatalogEntry,
        115 => Endpoint::RenameCatalogEntry,
        116 => Endpoint::CloneCatalogEntry,
        117 => Endpoint::ExportCatalogEntry,
        118 => Endpoint::SetCatalogReadOnly,
        119 => Endpoint::CleanCatalog,
        120 => Endpoint::ListCatalog,
        121 => Endpoint::CreatePool,
        122 => Endpoint::ListPools,
        123 => Endpoint::GetPool,
        124 => Endpoint::DeletePool,
        125 => Endpoint::ClaimPool,
        _ => Endpoint::ResizePool,
    }
}

/// Gives what stands in a row.
fn endpoint_in(i: usize) -> (r: Endpoint)
    ensures
        r == in_row(i),
{
    match i {
        0 => Endpoint::Healthz,
        1 => Endpoint::Readyz,
        2 => Endpoint::Metrics,
        3 => Endpoint::RuntimeCapabilities,
        4 => Endpoint::CreateVm,
        5 => Endpoint::ListVms,
        6 => Endpoint::GetVm,
        7 => Endpoint::DeleteVm,
        8 => Endpoint::StartVm,
        9 => Endpoint::StartVmFromSnapshot,
        10 => Endpoint::SnapshotVm,
        11 => Endpoint::StartMigration,
        12 => Endpoint::MigrationStatus,
        13 => Endpoint::CancelMigration,
        14 => Endpoint::StopVm,
        15 => Endpoint::PauseVm,
        16 => Endpoint::ResumeVm,
        17 => Endpoint::SetVmResources,
        18 => Endpoint::HotplugVmCpu,
        19 => Endpoint::HotplugVmMemory,
        20 => Endpoint::VmCpuset,
        21 => Endpoint::FreezeVm,
        22 => Endpoint::ThawVm,
        23 => Endpoint::VmFrozen,
        24 => Endpoint::VmStats,
        25 => Endpoint::VmNetworkStats,
        26 => Endpoint::VmNetworkFlows,
        27 => Endpoint::VmNetworkDropReasons,
        28 => Endpoint::VmNetworkStatus,
        29 => Endpoint::VmNetworkMigrationState,
        30 => Endpoint::VmNetworkMigrationQuiesce,
        31 => Endpoint::VmNetworkMigrationExport,
        32 => Endpoint::VmNetworkMigrationRestore,
        33 => Endpoint::VmNetworkMigrationResume,
        34 => Endpoint::VmNetworkServiceStats,
        35 => Endpoint::GetVmNetworkPolicy,
        36 => Endpoint::SetVmNetworkPolicy,
        37 => Endpoint::GetVmPodNetworkPolicy,
        38 => Endpoint::SetVmPodNetworkPolicy,
        39 => Endpoint::ClearVmPodNetworkPolicy,
        40 => Endpoint::GetVmNetworkEffective,
        41 => Endpoint::ListNetworkGroups,
        42 => Endpoint::UpsertNetworkGroup,
        43 => Endpoint::ListNetworkServices,
        44 => Endpoint::UpsertNetworkService,
        45 => Endpoint::NetworkServiceStatus,
        46 => Endpoint::NetworkServiceStats,
        47 => Endpoint::NetworkServiceHealth,
        48 => Endpoint::ReconcileNetworkServiceHealth,
        49 => Endpoint::GcNetworkServiceConntrack,
        50 => Endpoint::ReconcileNetworkServicePressure,
        51 => Endpoint::NetworkServiceAdvertisements,
        52 => Endpoint::NetworkServiceFlows,
        53 => Endpoint::ExportNetworkServiceTelemetry,
        54 => Endpoint::ListNetworkServicePolicies,
        55 => Endpoint::UpsertNetworkServicePolicy,
        56 => Endpoint::ReconcileNetworkServicePolicies,
        57 => Endpoint::GetNetworkServicePolicy,
        58 => Endpoint::DeleteNetworkServicePolicy,
        59 => Endpoint::NetworkServiceEnvoyContract,
        60 => Endpoint::ExportNetworkServiceConntrack,
        61 => Endpoint::ImportNetworkServiceConntrack,
        62 => Endpoint::ExportNetworkServiceConntrackDelta,
        63 => Endpoint::ImportNetworkServiceConntrackDelta,
        64 => Endpoint::AckNetworkServiceConntrackDelta,
        65 => Endpoint::GetNetworkService,
        66 => Endpoint::DeleteNetworkService,
        67 => Endpoint::GetNetworkGroup,
        68 => Endpoint::DeleteNetworkGroup,
        69 => Endpoint::ListCnp,
        70 => Endpoint::ApplyCnp,
        71 => Endpoint::GetCnp,
        72 => Endpoint::DeleteCnp,
        73 => Endpoint::ListIdentities,
        74 => Endpoint::NetworkObserve,
        75 => Endpoint::NetworkHealth,
        76 => Endpoint::NetworkIpcache,
        77 => Endpoint::UpsertRemoteIpcache,
        78 => Endpoint::DeleteRemoteIpcache,
        79 => Endpoint::NetworkRefreshDns,
        80 => Endpoint::ListEndpoints,
        81 => Endpoint::HubbleFlows,
        82 => Endpoint::HubbleFlowsText,
        83 => Endpoint::HubbleUi,
        84 => Endpoint::VmPressure,
        85 => Endpoint::VmLogs,
        86 => Endpoint::AgentExec,
        87 => Endpoint::AgentPutFile,
        88 => Endpoint::AgentGetFile,
        89 => Endpoint::AgentConsole,
        90 => Endpoint::QgaPing,
        91 => Endpoint::QgaNetworkInterfaces,
        92 => Endpoint::QgaExec,
        93 => Endpoint::QgaFsfreezeFreeze,
        94 => Endpoint::QgaFsfreezeThaw,
        95 => Endpoint::QgaFsfreezeStatus,
        96 => Endpoint::QgaFirewallOpen,
        97 => Endpoint::QgaFirewallClose,
        98 => Endpoint::CreateSandbox,
        99 => Endpoint::ListSandboxes,
        100 => Endpoint::SnapshotSandbox,
        101 => Endpoint::SandboxFsRead,
        102 => Endpoint::SandboxFsWrite,
        103 => Endpoint::SandboxProcess,
        104 => Endpoint::SandboxHttpProxy,
        105 => Endpoint::SandboxHttpProxyDefaultPort,
        106 => Endpoint::ListTemplates,
        107 => Endpoint::BuildTemplate,
        108 => Endpoint::EgressCheck,
        109 => Endpoint::EgressNftables,
        110 => Endpoint::ConsoleUi,
        111 => Endpoint::ConsoleUiIndex,
        112 => Endpoint::BuildImage,
        113 => Endpoint::AddCatalogEntry,
        114 => Endpoint::RemoveCatalogEntry,
        115 => Endpoint::RenameCatalogEntry,
        116 => Endpoint::CloneCatalogEntry,
        117 => Endpoint::ExportCatalogEntry,
        118 => Endpoint::SetCatalogReadOnly,
        119 => Endpoint::CleanCatalog,
        120 => Endpoint::ListCatalog,
        121 => Endpoint::CreatePool,
        122 => Endpoint::ListPools,
        123 => Endpoint::GetPool,
        124 => Endpoint::DeletePool,
        125 => Endpoint::ClaimPool,
        _ => Endpoint::ResizePool,
    }
}

/// A row says where its request is served.
pub open spec fn is_route(r: Route, e: Endpoint) -> bool {
    r.endpoint == e && r.verb == e.served_by() && r.pattern@ == e.served_at()
}

/// Gives the table of all requests.
pub fn routes() -> (r: Vec<Route>)
    ensures
        r@.len() == ROUTES,
        forall|i: usize| i < ROUTES ==> is_route(#[trigger] r@[i as int], in_row(i)),
{
    let mut out: Vec<Route> = Vec::new();
    let mut i: usize = 0;
    while i < ROUTES
        invariant
            i <= ROUTES,
            out@.len() == i,
            forall|k: usize| k < i ==> is_route(#[trigger] out@[k as int], in_row(k)),
        decreases ROUTES - i,
    {
        let e = endpoint_in(i);
        out.push(Route { verb: e.verb(), pattern: e.pattern(), endpoint: e });
        i += 1;
    }
    out
}

/// Every request stands in the table exactly once.
pub proof fn law_every_request_is_routed(e: Endpoint, i: usize)
    ensures
        e.row() < ROUTES,
        in_row(e.row()) == e,
        i < ROUTES ==> in_row(i).row() == i,
{
}

/// Whatever changes something takes an administrator.
pub proof fn law_changes_need_an_administrator(e: Endpoint)
    ensures
        e.served_by() is Post || e.served_by() is Delete ==> e.for_admins(),
{
}

/// Whatever only reads is open to every sender, but for a state that is handed over whole
/// and for a shell.
pub proof fn law_reads_are_open(e: Endpoint)
    requires
        !(e is VmNetworkMigrationExport),
        !(e is ExportNetworkServiceConntrackDelta),
        !(e is AgentConsole),
    ensures
        e.served_by() is Get ==> !e.for_admins(),
{
}

} // verus!
