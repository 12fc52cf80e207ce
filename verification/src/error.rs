//! The errors of the monitor.
use vstd::prelude::*;

verus! {

/// Why bringing up a virtual processor failed.
#[derive(Clone, Copy, Debug, PartialEq, Eq)]
pub enum HypervisorError {
    /// A region's virtual address has no physical address.
    VirtualToPhysicalAddressFailed,
    /// No virtual processor could be made.
    VcpuCreationFailed,
    /// VMXON reported a failure.
    VmxonFailed,
    /// VMCLEAR reported a failure.
    VmclearFailed,
    /// VMPTRLD reported a failure.
    VmptrldFailed,
    /// VMWRITE reported a failure.
    VmwriteFailed,
}

} // verus!
