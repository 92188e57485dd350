//! Virtual machines: their state and the program that runs them.

use vstd::prelude::*;

verus! {

/// The program that runs a virtual machine.
#[derive(Debug, Clone, Copy, PartialEq, Eq, Structural)]
pub enum BackendKind {
    Qemu,
    CloudHypervisor,
    Firecracker,
    FluxVm,
    /// Not chosen yet.
    Auto,
}

/// The state of a virtual machine.
#[derive(Debug, Clone, Copy, PartialEq, Eq, Structural)]
pub enum VmStatus {
    Creating,
    Running,
    Paused,
    Stopped,
    Failed,
}

impl BackendKind {
    /// The name in metrics.
    pub open spec fn text(self) -> Seq<char> {
        match self {
            BackendKind::Qemu => "qemu"@,
            BackendKind::CloudHypervisor => "cloud-hypervisor"@,
            BackendKind::Firecracker => "firecracker"@,
            BackendKind::FluxVm => "fluxvm"@,
            BackendKind::Auto => "auto"@,
        }
    }

    /// The name in metrics.
    pub fn label(&self) -> (r: &'static str)
        ensures
            r@ == self.text(),
    {
        match self {
            BackendKind::Qemu => "qemu",
            BackendKind::CloudHypervisor => "cloud-hypervisor",
            BackendKind::Firecracker => "firecracker",
            BackendKind::FluxVm => "fluxvm",
            BackendKind::Auto => "auto",
        }
    }
}

impl VmStatus {
    /// The name in metrics.
    pub open spec fn text(self) -> Seq<char> {
        match self {
            VmStatus::Creating => "creating"@,
            VmStatus::Running => "running"@,
            VmStatus::Paused => "paused"@,
            VmStatus::Stopped => "stopped"@,
            VmStatus::Failed => "failed"@,
        }
    }

    /// The name in metrics.
    pub fn label(&self) -> (r: &'static str)
        ensures
            r@ == self.text(),
    {
        match self {
            VmStatus::Creating => "creating",
            VmStatus::Running => "running",
            VmStatus::Paused => "paused",
            VmStatus::Stopped => "stopped",
            VmStatus::Failed => "failed",
        }
    }
}

} // verus!
