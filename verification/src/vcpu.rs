//! The state that the monitor keeps of one virtual processor.
use vstd::prelude::*;

verus! {

/// The size of a VMXON or VMCS region, and what its address is a multiple of.
pub const REGION_SIZE: u64 = 4096;

/// Whether an address is that of a naturally aligned region.
pub open spec fn region_aligned(physical_address: u64) -> bool {
    physical_address % REGION_SIZE == 0
}

/// The stack and instruction pointer at which the guest goes on.
#[derive(Clone, Copy, Debug, PartialEq, Eq)]
pub struct Context {
    pub rsp: u64,
    pub rip: u64,
}

/// The header of a VMXON region, which is 4 KBytes and naturally aligned
/// (Intel Manual: 25.11.5 VMXON Region).
#[derive(Clone, Copy, Debug, PartialEq, Eq)]
pub struct VmxonRegion {
    pub revision_id: u32,
}

/// The header of a VMCS region, which is 4 KBytes and naturally aligned
/// (Intel Manual: 25.2 Format of The VMCS Region).
#[derive(Clone, Copy, Debug, PartialEq, Eq)]
pub struct VmcsRegion {
    pub revision_id: u32,
}

/// A virtual processor: its two regions, where they lie in physical memory,
/// and the context that the guest starts from.
#[derive(Clone, Copy, Debug, PartialEq, Eq)]
pub struct Vcpu {
    pub vmxon_region: VmxonRegion,
    pub vmxon_region_physical_address: u64,
    pub vmcs_region: VmcsRegion,
    pub vmcs_region_physical_address: u64,
    pub context: Context,
}

impl Vcpu {
    /// Whether both regions lie at aligned addresses. One whose address is not
    /// known yet has 0 there.
    pub open spec fn aligned(self) -> bool {
        &&& region_aligned(self.vmxon_region_physical_address)
        &&& region_aligned(self.vmcs_region_physical_address)
    }
}

} // verus!
