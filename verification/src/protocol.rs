//! What the library asks of the processor, and how it is answered.
use crate::error::HypervisorError;
use crate::vcpu;
use vstd::prelude::*;

verus! {

/// A segment register, or one of the two system segments.
#[derive(Clone, Copy, Debug, PartialEq, Eq)]
pub enum Segment {
    Cs,
    Ss,
    Ds,
    Es,
    Fs,
    Gs,
    Ldtr,
    Tr,
}

/// A control, debug or flags register.
#[derive(Clone, Copy, Debug, PartialEq, Eq)]
pub enum Register {
    Cr0,
    Cr3,
    Cr4,
    Dr7,
    Rflags,
}

/// The contents of GDTR or IDTR.
#[derive(Clone, Copy, Debug, PartialEq, Eq)]
pub struct TableRegister {
    pub base: u64,
    pub limit: u16,
}

/// One thing to be done next.
#[derive(Clone, Copy, Debug, PartialEq, Eq)]
pub enum Request {
    /// Find the physical address of the VMXON region, 0 where there is none. The
    /// region is 4 KBytes and naturally aligned, so the address is a multiple
    /// of 4096.
    TranslateVmxonRegion,
    /// Find the physical address of the VMCS region, 0 where there is none. The
    /// region is 4 KBytes and naturally aligned, so the address is a multiple
    /// of 4096.
    TranslateVmcsRegion,
    /// Read the revision identifier that the processor wants in its regions.
    ReadRevisionId,
    /// Put the identifier into the VMXON region's header and execute VMXON.
    Vmxon { physical_address: u64, revision_id: u32 },
    /// Execute VMCLEAR.
    Vmclear { physical_address: u64 },
    /// Put the identifier into the VMCS region's header and execute VMPTRLD.
    Vmptrld { physical_address: u64, revision_id: u32 },
    /// Read a register.
    ReadRegister(Register),
    /// Read a segment's selector.
    ReadSelector(Segment),
    /// Read a model-specific register.
    ReadMsr(u32),
    /// Fit control bits to what a capability register allows.
    AdjustControls { msr: u32, controls: u32 },
    /// Execute SGDT.
    StoreGdtr,
    /// Execute SIDT.
    StoreIdtr,
    /// Find the limit of the segment that a selector names.
    SegmentLimit(u16),
    /// Find the access rights of the segment that a selector names.
    AccessRights(u16),
    /// Find the base of the segment that a selector names.
    SegmentBase { gdt_base: u64, selector: u16 },
    /// Execute VMWRITE.
    Vmwrite { field: u32, value: u64 },
    /// Nothing is left to do, and this came of it.
    Finished(Result<(), HypervisorError>),
}

/// What came of a request.
#[derive(Clone, Copy, Debug, PartialEq, Eq)]
pub enum Event {
    /// Nothing was asked yet.
    Begin,
    /// A region's physical address.
    PhysicalAddress(u64),
    /// The processor's revision identifier.
    RevisionId(u32),
    /// A selector.
    Selector(u16),
    /// A value of 32 bits.
    Dword(u32),
    /// A value of 64 bits.
    Qword(u64),
    /// The contents of a descriptor-table register.
    Table(TableRegister),
    /// How an instruction ended.
    Completed(Result<(), HypervisorError>),
}

/// Whether `event` is the kind of answer that `request` asks for.
pub open spec fn answers(request: Request, event: Event) -> bool {
    match request {
        Request::TranslateVmxonRegion | Request::TranslateVmcsRegion => event is PhysicalAddress,
        Request::ReadRevisionId => event is RevisionId,
        Request::Vmxon { .. } | Request::Vmclear { .. } | Request::Vmptrld { .. }
        | Request::Vmwrite { .. } => event is Completed,
        Request::ReadSelector(_) => event is Selector,
        Request::AdjustControls { .. } | Request::SegmentLimit(_) => event is Dword,
        Request::ReadRegister(_) | Request::ReadMsr(_) | Request::AccessRights(_)
        | Request::SegmentBase { .. } => event is Qword,
        Request::StoreGdtr | Request::StoreIdtr => event is Table,
        Request::Finished(_) => false,
    }
}

/// Whether an address in `event` is that of a naturally aligned region.
pub open spec fn aligned_event(event: Event) -> bool {
    event matches Event::PhysicalAddress(address) ==> vcpu::region_aligned(address)
}

/// Whether the operand of a VMX instruction in `request` is the address of a
/// naturally aligned region.
pub open spec fn aligned_operand(request: Request) -> bool {
    match request {
        Request::Vmxon { physical_address, .. } | Request::Vmclear { physical_address }
        | Request::Vmptrld { physical_address, .. } => vcpu::region_aligned(physical_address),
        _ => true,
    }
}

} // verus!
