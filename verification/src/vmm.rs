//! The monitor: its table of virtual processors, and what brings one up.
use crate::error::HypervisorError;
use crate::processor;
use crate::program;
use crate::protocol::{self, Event, Request};
use crate::run::{Run, RunState};
use crate::vcpu::{Vcpu, VmcsRegion, VmxonRegion};
use vstd::prelude::*;

verus! {

/// The bits of a region's header that hold the revision identifier. Bit 31
/// is clear in a VMXON region and in an ordinary VMCS region.
pub const REVISION_ID_BITS: u32 = 0x7fff_ffff;

/// Whether an event occurs while a region is handed to VMXON or VMPTRLD.
pub open spec fn region_event(event: Event) -> bool {
    event is Begin || event is PhysicalAddress || event is RevisionId || event is Completed
}

/// What one event does to a virtual processor that enters VMX operation, and
/// what is to be done next.
pub open spec fn vmxon_step(vcpu: Vcpu, event: Event) -> (Vcpu, Request)
    recommends
        region_event(event),
{
    match event {
        Event::PhysicalAddress(address) => (
            Vcpu { vmxon_region_physical_address: address, ..vcpu },
            if address == 0 {
                Request::Finished(Err(HypervisorError::VirtualToPhysicalAddressFailed))
            } else {
                Request::ReadRevisionId
            },
        ),
        Event::RevisionId(id) => {
            let revision_id = id & REVISION_ID_BITS;
            (
                Vcpu { vmxon_region: VmxonRegion { revision_id }, ..vcpu },
                Request::Vmxon {
                    physical_address: vcpu.vmxon_region_physical_address,
                    revision_id,
                },
            )
        },
        Event::Completed(result) => (vcpu, Request::Finished(result)),
        _ => (vcpu, Request::TranslateVmxonRegion),
    }
}

/// What one event does to a virtual processor whose VMCS is made current, and
/// what is to be done next.
pub open spec fn vmptrld_step(vcpu: Vcpu, event: Event) -> (Vcpu, Request)
    recommends
        region_event(event),
{
    match event {
        Event::PhysicalAddress(address) => (
            Vcpu { vmcs_region_physical_address: address, ..vcpu },
            if address == 0 {
                Request::Finished(Err(HypervisorError::VirtualToPhysicalAddressFailed))
            } else {
                Request::ReadRevisionId
            },
        ),
        Event::RevisionId(id) => {
            let revision_id = id & REVISION_ID_BITS;
            (
                Vcpu { vmcs_region: VmcsRegion { revision_id }, ..vcpu },
                Request::Vmptrld {
                    physical_address: vcpu.vmcs_region_physical_address,
                    revision_id,
                },
            )
        },
        Event::Completed(result) => (vcpu, Request::Finished(result)),
        _ => (vcpu, Request::TranslateVmcsRegion),
    }
}

/// What is to be done next while a virtual processor's VMCS is cleared.
pub open spec fn vmclear_step(vcpu: Vcpu, event: Event) -> Request
    recommends
        event is Begin || event is Completed,
{
    match event {
        Event::Completed(result) => Request::Finished(result),
        _ => Request::Vmclear { physical_address: vcpu.vmcs_region_physical_address },
    }
}

/// Clears the bit that is no part of a revision identifier.
fn clear_shadow_indicator(revision_id: &mut u32)
    ensures
        *final(revision_id) == *old(revision_id) & REVISION_ID_BITS,
{
    assert(!(1u32 << 31usize) == 0x7fff_ffffu32) by (bit_vector);
    processor::set_bit(revision_id, 31, false);
}

/// A virtual machine monitor.
pub struct Vmm {
    /// The number of logical processors.
    pub processor_count: u32,
    /// The virtual processors, by index.
    pub vcpu_table: Vec<Vcpu>,
}

impl Vmm {
    /// Whether this is `before`, with another virtual processor at `index`.
    pub open spec fn is_update(self, before: Vmm, index: int, vcpu: Vcpu) -> bool {
        &&& self.processor_count == before.processor_count
        &&& self.vcpu_table@ =~= before.vcpu_table@.update(index, vcpu)
    }

    /// Whether the regions of every virtual processor lie at aligned addresses.
    pub open spec fn aligned(self) -> bool {
        forall|index: int|
            0 <= index < self.vcpu_table@.len() ==> (#[trigger] self.vcpu_table@[index]).aligned()
    }

    /// A monitor for a machine with that many processors, and no virtual
    /// processor yet.
    pub fn new(processor_count: u32) -> (vmm: Result<Self, HypervisorError>)
        ensures
            vmm matches Ok(vmm) && vmm.processor_count == processor_count && vmm.vcpu_table@
                == Seq::<Vcpu>::empty() && vmm.aligned(),
    {
        Ok(Self { processor_count, vcpu_table: Vec::new() })
    }

    /// Adds a virtual processor to the end of the table, or returns why none
    /// could be made and leaves the table alone.
    pub fn init_vcpu(&mut self, vcpu: Result<Vcpu, HypervisorError>) -> (result: Result<
        (),
        HypervisorError,
    >)
        ensures
            final(self).processor_count == old(self).processor_count,
            match vcpu {
                Ok(vcpu) => {
                    &&& result == Ok::<(), HypervisorError>(())
                    &&& final(self).vcpu_table@ == old(self).vcpu_table@.push(vcpu)
                },
                Err(error) => {
                    &&& result == Err::<(), HypervisorError>(error)
                    &&& final(self).vcpu_table@ == old(self).vcpu_table@
                },
            },
            old(self).aligned() && (vcpu matches Ok(vcpu) ==> vcpu.aligned())
                ==> final(self).aligned(),
    {
        match vcpu {
            Ok(vcpu) => {
                self.vcpu_table.push(vcpu);
                Ok(())
            },
            Err(error) => Err(error),
        }
    }

    /// Hands a virtual processor's VMXON region, naturally aligned 4 KBytes of
    /// memory, to the processor, to enable VMX operation (Intel Manual: 25.11.5
    /// VMXON Region).
    ///
    /// The first event is [`Event::Begin`]; each later one answers the request
    /// that was returned before, until that is [`Request::Finished`].
    ///
    /// The region's physical address and its revision identifier are kept as
    /// they become known, whether or not VMXON then succeeds.
    pub fn init_vmxon(&mut self, index: usize, event: Event) -> (request: Request)
        requires
            index < old(self).vcpu_table@.len(),
            region_event(event),
        ensures
            ({
                let (vcpu, next) = vmxon_step(old(self).vcpu_table@[index as int], event);
                final(self).is_update(*old(self), index as int, vcpu) && request == next
            }),
            old(self).aligned() && protocol::aligned_event(event) ==> final(self).aligned()
                && protocol::aligned_operand(request),
    {
        match event {
            Event::PhysicalAddress(address) => {
                self.vcpu_table[index].vmxon_region_physical_address = address;
                if self.vcpu_table[index].vmxon_region_physical_address == 0 {
                    return Request::Finished(Err(HypervisorError::VirtualToPhysicalAddressFailed));
                }
                Request::ReadRevisionId
            },
            Event::RevisionId(id) => {
                self.vcpu_table[index].vmxon_region.revision_id = id;
                clear_shadow_indicator(&mut self.vcpu_table[index].vmxon_region.revision_id);
                Request::Vmxon {
                    physical_address: self.vcpu_table[index].vmxon_region_physical_address,
                    revision_id: self.vcpu_table[index].vmxon_region.revision_id,
                }
            },
            Event::Completed(result) => Request::Finished(result),
            _ => Request::TranslateVmxonRegion,
        }
    }

    /// Has the VMCS data that the processor keeps copied to the VMCS region at
    /// its 4KB-aligned physical address, and some parts of the region
    /// initialized (Intel Manual: 25.11.3 Initializing a VMCS).
    ///
    /// The first event is [`Event::Begin`]; the later one answers the request
    /// that was returned before.
    pub fn init_vmclear(&mut self, index: usize, event: Event) -> (request: Request)
        requires
            index < old(self).vcpu_table@.len(),
            event is Begin || event is Completed,
        ensures
            *final(self) == *old(self),
            request == vmclear_step(old(self).vcpu_table@[index as int], event),
            old(self).aligned() ==> protocol::aligned_operand(request),
    {
        match event {
            Event::Completed(result) => Request::Finished(result),
            _ => Request::Vmclear {
                physical_address: self.vcpu_table[index].vmcs_region_physical_address,
            },
        }
    }

    /// Makes a virtual processor's VMCS region, naturally aligned 4 KBytes of
    /// memory, the current one (Intel Manual: 25.2 Format of The VMCS Region).
    ///
    /// The first event is [`Event::Begin`]; each later one answers the request
    /// that was returned before, until that is [`Request::Finished`].
    ///
    /// The region's physical address and its revision identifier are kept as
    /// they become known, whether or not VMPTRLD then succeeds.
    pub fn init_vmptrld(&mut self, index: usize, event: Event) -> (request: Request)
        requires
            index < old(self).vcpu_table@.len(),
            region_event(event),
        ensures
            ({
                let (vcpu, next) = vmptrld_step(old(self).vcpu_table@[index as int], event);
                final(self).is_update(*old(self), index as int, vcpu) && request == next
            }),
            old(self).aligned() && protocol::aligned_event(event) ==> final(self).aligned()
                && protocol::aligned_operand(request),
    {
        match event {
            Event::PhysicalAddress(address) => {
                self.vcpu_table[index].vmcs_region_physical_address = address;
                if self.vcpu_table[index].vmcs_region_physical_address == 0 {
                    return Request::Finished(Err(HypervisorError::VirtualToPhysicalAddressFailed));
                }
                Request::ReadRevisionId
            },
            Event::RevisionId(id) => {
                self.vcpu_table[index].vmcs_region.revision_id = id;
                clear_shadow_indicator(&mut self.vcpu_table[index].vmcs_region.revision_id);
                Request::Vmptrld {
                    physical_address: self.vcpu_table[index].vmcs_region_physical_address,
                    revision_id: self.vcpu_table[index].vmcs_region.revision_id,
                }
            },
            Event::Completed(result) => Request::Finished(result),
            _ => Request::TranslateVmcsRegion,
        }
    }

    /// Begins to set the control values of the current VMCS.
    ///
    /// They are the same for every virtual processor.
    pub fn init_vmcs_control_values(&mut self, _index: usize) -> (run: Run)
        ensures
            *final(self) == *old(self),
            run@ == RunState::begin(program::control_program()),
            run@.wf(),
    {
        Run::begin(program::build_control_program())
    }

    /// Begins to set the host state of the current VMCS.
    ///
    /// An exit from the guest goes on at `vmexit_stub`, on the stack of the
    /// virtual processor's context.
    pub fn init_host_register_state(&mut self, index: usize, vmexit_stub: u64) -> (run: Run)
        requires
            index < old(self).vcpu_table@.len(),
        ensures
            *final(self) == *old(self),
            run@ == RunState::begin(
                program::host_program(old(self).vcpu_table@[index as int].context, vmexit_stub),
            ),
            run@.wf(),
    {
        Run::begin(program::build_host_program(self.vcpu_table[index].context, vmexit_stub))
    }

    /// Begins to set the guest state of the current VMCS, which goes on from the
    /// virtual processor's context.
    pub fn init_guest_register_state(&self, index: usize) -> (run: Run)
        requires
            index < self.vcpu_table@.len(),
        ensures
            run@ == RunState::begin(
                program::guest_program(self.vcpu_table@[index as int].context),
            ),
            run@.wf(),
    {
        Run::begin(program::build_guest_program(self.vcpu_table[index].context))
    }
}

} // verus!
