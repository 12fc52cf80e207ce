use hypervisor::error::HypervisorError;
use hypervisor::protocol::{Event, Request};
use hypervisor::vcpu::{Context, Vcpu, VmcsRegion, VmxonRegion};
use hypervisor::vmm::Vmm;

fn vcpu(rsp: u64) -> Vcpu {
    Vcpu {
        vmxon_region: VmxonRegion { revision_id: 0 },
        vmxon_region_physical_address: 0,
        vmcs_region: VmcsRegion { revision_id: 0 },
        vmcs_region_physical_address: 0,
        context: Context { rsp, rip: rsp + 1 },
    }
}

fn monitor() -> Vmm {
    let mut vmm = Vmm::new(8).unwrap();
    vmm.init_vcpu(Ok(vcpu(0x10))).unwrap();
    vmm.init_vcpu(Ok(vcpu(0x20))).unwrap();
    vmm
}

#[test]
fn new_monitor_is_empty() {
    let vmm = Vmm::new(12).unwrap();
    assert_eq!(vmm.processor_count, 12);
    assert!(vmm.vcpu_table.is_empty());
}

#[test]
fn vcpus_are_kept_in_order() {
    let vmm = monitor();
    assert_eq!(vmm.processor_count, 8);
    assert_eq!(vmm.vcpu_table, vec![vcpu(0x10), vcpu(0x20)]);
}

#[test]
fn failed_vcpu_is_not_added() {
    let mut vmm = monitor();
    assert_eq!(
        vmm.init_vcpu(Err(HypervisorError::VcpuCreationFailed)),
        Err(HypervisorError::VcpuCreationFailed)
    );
    assert_eq!(vmm.vcpu_table.len(), 2);
}

#[test]
fn vmxon_runs_on_the_translated_region() {
    let mut vmm = monitor();
    assert_eq!(vmm.init_vmxon(1, Event::Begin), Request::TranslateVmxonRegion);
    assert_eq!(vmm.init_vmxon(1, Event::PhysicalAddress(0x7000)), Request::ReadRevisionId);
    assert_eq!(vmm.vcpu_table[1].vmxon_region_physical_address, 0x7000);
    assert_eq!(
        vmm.init_vmxon(1, Event::RevisionId(0x8000_0012)),
        Request::Vmxon { physical_address: 0x7000, revision_id: 0x12 }
    );
    assert_eq!(vmm.vcpu_table[1].vmxon_region.revision_id, 0x12);
    assert_eq!(vmm.init_vmxon(1, Event::Completed(Ok(()))), Request::Finished(Ok(())));
    assert_eq!(vmm.vcpu_table[0], vcpu(0x10));
    assert_eq!(vmm.vcpu_table[1].vmcs_region_physical_address, 0);
    assert_eq!(vmm.vcpu_table[1].context, vcpu(0x20).context);
}

#[test]
fn vmxon_without_physical_address_is_an_error() {
    let mut vmm = monitor();
    vmm.init_vmxon(0, Event::PhysicalAddress(0x7000));
    assert_eq!(
        vmm.init_vmxon(0, Event::PhysicalAddress(0)),
        Request::Finished(Err(HypervisorError::VirtualToPhysicalAddressFailed))
    );
    assert_eq!(vmm.vcpu_table[0].vmxon_region_physical_address, 0);
}

#[test]
fn vmxon_failure_is_reported_and_keeps_the_region() {
    let mut vmm = monitor();
    vmm.init_vmxon(0, Event::Begin);
    vmm.init_vmxon(0, Event::PhysicalAddress(0x1000));
    vmm.init_vmxon(0, Event::RevisionId(4));
    assert_eq!(
        vmm.init_vmxon(0, Event::Completed(Err(HypervisorError::VmxonFailed))),
        Request::Finished(Err(HypervisorError::VmxonFailed))
    );
    assert_eq!(vmm.vcpu_table[0].vmxon_region_physical_address, 0x1000);
    assert_eq!(vmm.vcpu_table[0].vmxon_region.revision_id, 4);
}

#[test]
fn vmptrld_runs_on_the_translated_region() {
    let mut vmm = monitor();
    assert_eq!(vmm.init_vmptrld(0, Event::Begin), Request::TranslateVmcsRegion);
    assert_eq!(vmm.init_vmptrld(0, Event::PhysicalAddress(0x9000)), Request::ReadRevisionId);
    assert_eq!(
        vmm.init_vmptrld(0, Event::RevisionId(u32::MAX)),
        Request::Vmptrld { physical_address: 0x9000, revision_id: 0x7fff_ffff }
    );
    assert_eq!(
        vmm.init_vmptrld(0, Event::Completed(Err(HypervisorError::VmptrldFailed))),
        Request::Finished(Err(HypervisorError::VmptrldFailed))
    );
    assert_eq!(vmm.vcpu_table[0].vmcs_region.revision_id, 0x7fff_ffff);
    assert_eq!(vmm.vcpu_table[0].vmxon_region.revision_id, 0);
    assert_eq!(vmm.vcpu_table[1], vcpu(0x20));
}

#[test]
fn vmptrld_without_physical_address_is_an_error() {
    let mut vmm = monitor();
    assert_eq!(
        vmm.init_vmptrld(1, Event::PhysicalAddress(0)),
        Request::Finished(Err(HypervisorError::VirtualToPhysicalAddressFailed))
    );
}

#[test]
fn vmclear_takes_the_current_vmcs_region() {
    let mut vmm = monitor();
    assert_eq!(vmm.init_vmclear(1, Event::Begin), Request::Vmclear { physical_address: 0 });
    vmm.init_vmptrld(1, Event::PhysicalAddress(0x5000));
    assert_eq!(vmm.init_vmclear(1, Event::Begin), Request::Vmclear { physical_address: 0x5000 });
    assert_eq!(vmm.init_vmclear(1, Event::Completed(Ok(()))), Request::Finished(Ok(())));
    assert_eq!(
        vmm.init_vmclear(1, Event::Completed(Err(HypervisorError::VmclearFailed))),
        Request::Finished(Err(HypervisorError::VmclearFailed))
    );
}

#[test]
fn regions_are_independent() {
    let mut one = monitor();
    one.init_vmxon(0, Event::PhysicalAddress(0x1000));
    one.init_vmptrld(0, Event::RevisionId(3));
    let mut other = monitor();
    other.init_vmptrld(0, Event::RevisionId(3));
    other.init_vmxon(0, Event::PhysicalAddress(0x1000));
    assert_eq!(one.vcpu_table, other.vcpu_table);
}

#[test]
fn revision_id_below_bit_31_is_kept() {
    let mut vmm = monitor();
    vmm.init_vmxon(0, Event::RevisionId(0x7fff_fffe));
    assert_eq!(vmm.vcpu_table[0].vmxon_region.revision_id, 0x7fff_fffe);
}

#[test]
fn aligned_addresses_stay_aligned() {
    let mut vmm = monitor();
    vmm.init_vmxon(0, Event::PhysicalAddress(0x1234_5000));
    vmm.init_vmptrld(0, Event::PhysicalAddress(0x1234_6000));
    let operands = vec![
        vmm.init_vmxon(0, Event::RevisionId(0xffff_ffff)),
        vmm.init_vmptrld(0, Event::RevisionId(0xffff_ffff)),
        vmm.init_vmclear(0, Event::Begin),
    ];
    for operand in operands {
        match operand {
            Request::Vmxon { physical_address, .. }
            | Request::Vmptrld { physical_address, .. }
            | Request::Vmclear { physical_address } => {
                assert_ne!(physical_address, 0);
                assert_eq!(physical_address % 4096, 0);
            }
            other => panic!("unexpected {:?}", other),
        }
    }
}

#[test]
fn vmclear_address_is_kept_until_translated_anew() {
    let mut vmm = monitor();
    vmm.init_vmptrld(0, Event::PhysicalAddress(0x3000));
    vmm.init_vmptrld(0, Event::RevisionId(1));
    vmm.init_vmptrld(0, Event::Completed(Ok(())));
    vmm.init_vmptrld(0, Event::Begin);
    vmm.init_vmxon(0, Event::PhysicalAddress(0x4000));
    assert_eq!(vmm.init_vmclear(0, Event::Begin), Request::Vmclear { physical_address: 0x3000 });
    vmm.init_vmptrld(0, Event::PhysicalAddress(0));
    assert_eq!(vmm.init_vmclear(0, Event::Begin), Request::Vmclear { physical_address: 0 });
}
