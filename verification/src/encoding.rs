//! The numbers by which the processor knows VMCS fields, model-specific
//! registers and control bits (Intel Manual: Appendix B, and 25.6 to 25.8).
//!
//! At run time each of them comes from the `x86` crate; the specification
//! functions say which numbers they are.
use vstd::prelude::*;
use x86::msr;
use x86::vmx::vmcs::control;
use x86::vmx::vmcs::control::{EntryControls, ExitControls, PrimaryControls, SecondaryControls};
use x86::vmx::vmcs::guest;
use x86::vmx::vmcs::host;

verus! {

/// The fields of the control registers.
#[derive(Clone, Copy, Debug, PartialEq, Eq)]
pub struct ControlRegisterFields {
    pub cr0: u32,
    pub cr3: u32,
    pub cr4: u32,
}

/// The numbers of the guest control registers.
pub open spec fn guest_control_registers() -> ControlRegisterFields {
    ControlRegisterFields {
        cr0: 0x6800,
        cr3: 0x6802,
        cr4: 0x6804,
    }
}

/// Takes the guest control registers from the constants of
/// `x86::vmx::vmcs::guest`, and claims that they are those of
/// [`guest_control_registers`].
#[verifier::external_body]
pub(crate) fn x86_guest_control_registers() -> (numbers: ControlRegisterFields)
    ensures
        numbers == guest_control_registers(),
{
    ControlRegisterFields {
        cr0: guest::CR0,
        cr3: guest::CR3,
        cr4: guest::CR4,
    }
}

/// The numbers of the host control registers.
pub open spec fn host_control_registers() -> ControlRegisterFields {
    ControlRegisterFields {
        cr0: 0x6c00,
        cr3: 0x6c02,
        cr4: 0x6c04,
    }
}

/// Takes the host control registers from the constants of
/// `x86::vmx::vmcs::host`, and claims that they are those of
/// [`host_control_registers`].
#[verifier::external_body]
pub(crate) fn x86_host_control_registers() -> (numbers: ControlRegisterFields)
    ensures
        numbers == host_control_registers(),
{
    ControlRegisterFields {
        cr0: host::CR0,
        cr3: host::CR3,
        cr4: host::CR4,
    }
}

/// The fields of the other guest registers.
#[derive(Clone, Copy, Debug, PartialEq, Eq)]
pub struct GuestRegisterFields {
    pub dr7: u32,
    pub rsp: u32,
    pub rip: u32,
    pub rflags: u32,
}

/// The numbers of the guest debug, stack, instruction and flags registers.
pub open spec fn guest_registers() -> GuestRegisterFields {
    GuestRegisterFields {
        dr7: 0x681a,
        rsp: 0x681c,
        rip: 0x681e,
        rflags: 0x6820,
    }
}

/// Takes the guest debug, stack, instruction and flags registers from the
/// constants of `x86::vmx::vmcs::guest`, and claims that they are those of
/// [`guest_registers`].
#[verifier::external_body]
pub(crate) fn x86_guest_registers() -> (numbers: GuestRegisterFields)
    ensures
        numbers == guest_registers(),
{
    GuestRegisterFields {
        dr7: guest::DR7,
        rsp: guest::RSP,
        rip: guest::RIP,
        rflags: guest::RFLAGS,
    }
}

/// The fields of the host stack and instruction pointer.
#[derive(Clone, Copy, Debug, PartialEq, Eq)]
pub struct HostRegisterFields {
    pub rsp: u32,
    pub rip: u32,
}

/// The numbers of the host stack and instruction pointer.
pub open spec fn host_registers() -> HostRegisterFields {
    HostRegisterFields {
        rsp: 0x6c14,
        rip: 0x6c16,
    }
}

/// Takes the host stack and instruction pointer from the constants of
/// `x86::vmx::vmcs::host`, and claims that they are those of
/// [`host_registers`].
#[verifier::external_body]
pub(crate) fn x86_host_registers() -> (numbers: HostRegisterFields)
    ensures
        numbers == host_registers(),
{
    HostRegisterFields {
        rsp: host::RSP,
        rip: host::RIP,
    }
}

/// One field for each guest segment.
#[derive(Clone, Copy, Debug, PartialEq, Eq)]
pub struct SegmentFields {
    pub cs: u32,
    pub ss: u32,
    pub ds: u32,
    pub es: u32,
    pub fs: u32,
    pub gs: u32,
    pub ldtr: u32,
    pub tr: u32,
}

/// The numbers of the guest selectors.
pub open spec fn guest_selectors() -> SegmentFields {
    SegmentFields {
        cs: 0x802,
        ss: 0x804,
        ds: 0x806,
        es: 0x800,
        fs: 0x808,
        gs: 0x80a,
        ldtr: 0x80c,
        tr: 0x80e,
    }
}

/// Takes the guest selectors from the constants of `x86::vmx::vmcs::guest`,
/// and claims that they are those of [`guest_selectors`].
#[verifier::external_body]
pub(crate) fn x86_guest_selectors() -> (numbers: SegmentFields)
    ensures
        numbers == guest_selectors(),
{
    SegmentFields {
        cs: guest::CS_SELECTOR,
        ss: guest::SS_SELECTOR,
        ds: guest::DS_SELECTOR,
        es: guest::ES_SELECTOR,
        fs: guest::FS_SELECTOR,
        gs: guest::GS_SELECTOR,
        ldtr: guest::LDTR_SELECTOR,
        tr: guest::TR_SELECTOR,
    }
}

/// The numbers of the guest segment limits.
pub open spec fn guest_limits() -> SegmentFields {
    SegmentFields {
        cs: 0x4802,
        ss: 0x4804,
        ds: 0x4806,
        es: 0x4800,
        fs: 0x4808,
        gs: 0x480a,
        ldtr: 0x480c,
        tr: 0x480e,
    }
}

/// Takes the guest segment limits from the constants of
/// `x86::vmx::vmcs::guest`, and claims that they are those of
/// [`guest_limits`].
#[verifier::external_body]
pub(crate) fn x86_guest_limits() -> (numbers: SegmentFields)
    ensures
        numbers == guest_limits(),
{
    SegmentFields {
        cs: guest::CS_LIMIT,
        ss: guest::SS_LIMIT,
        ds: guest::DS_LIMIT,
        es: guest::ES_LIMIT,
        fs: guest::FS_LIMIT,
        gs: guest::GS_LIMIT,
        ldtr: guest::LDTR_LIMIT,
        tr: guest::TR_LIMIT,
    }
}

/// The numbers of the guest access rights.
pub open spec fn guest_access_rights() -> SegmentFields {
    SegmentFields {
        cs: 0x4816,
        ss: 0x4818,
        ds: 0x481a,
        es: 0x4814,
        fs: 0x481c,
        gs: 0x481e,
        ldtr: 0x4820,
        tr: 0x4822,
    }
}

/// Takes the guest access rights from the constants of
/// `x86::vmx::vmcs::guest`, and claims that they are those of
/// [`guest_access_rights`].
#[verifier::external_body]
pub(crate) fn x86_guest_access_rights() -> (numbers: SegmentFields)
    ensures
        numbers == guest_access_rights(),
{
    SegmentFields {
        cs: guest::CS_ACCESS_RIGHTS,
        ss: guest::SS_ACCESS_RIGHTS,
        ds: guest::DS_ACCESS_RIGHTS,
        es: guest::ES_ACCESS_RIGHTS,
        fs: guest::FS_ACCESS_RIGHTS,
        gs: guest::GS_ACCESS_RIGHTS,
        ldtr: guest::LDTR_ACCESS_RIGHTS,
        tr: guest::TR_ACCESS_RIGHTS,
    }
}

/// The numbers of the guest segment bases.
pub open spec fn guest_bases() -> SegmentFields {
    SegmentFields {
        cs: 0x6808,
        ss: 0x680a,
        ds: 0x680c,
        es: 0x6806,
        fs: 0x680e,
        gs: 0x6810,
        ldtr: 0x6812,
        tr: 0x6814,
    }
}

/// Takes the guest segment bases from the constants of
/// `x86::vmx::vmcs::guest`, and claims that they are those of
/// [`guest_bases`].
#[verifier::external_body]
pub(crate) fn x86_guest_bases() -> (numbers: SegmentFields)
    ensures
        numbers == guest_bases(),
{
    SegmentFields {
        cs: guest::CS_BASE,
        ss: guest::SS_BASE,
        ds: guest::DS_BASE,
        es: guest::ES_BASE,
        fs: guest::FS_BASE,
        gs: guest::GS_BASE,
        ldtr: guest::LDTR_BASE,
        tr: guest::TR_BASE,
    }
}

/// One selector field for each host segment.
#[derive(Clone, Copy, Debug, PartialEq, Eq)]
pub struct HostSelectorFields {
    pub cs: u32,
    pub ss: u32,
    pub ds: u32,
    pub es: u32,
    pub fs: u32,
    pub gs: u32,
    pub tr: u32,
}

/// The numbers of the host selectors.
pub open spec fn host_selectors() -> HostSelectorFields {
    HostSelectorFields {
        cs: 0xc02,
        ss: 0xc04,
        ds: 0xc06,
        es: 0xc00,
        fs: 0xc08,
        gs: 0xc0a,
        tr: 0xc0c,
    }
}

/// Takes the host selectors from the constants of `x86::vmx::vmcs::host`, and
/// claims that they are those of [`host_selectors`].
#[verifier::external_body]
pub(crate) fn x86_host_selectors() -> (numbers: HostSelectorFields)
    ensures
        numbers == host_selectors(),
{
    HostSelectorFields {
        cs: host::CS_SELECTOR,
        ss: host::SS_SELECTOR,
        ds: host::DS_SELECTOR,
        es: host::ES_SELECTOR,
        fs: host::FS_SELECTOR,
        gs: host::GS_SELECTOR,
        tr: host::TR_SELECTOR,
    }
}

/// The fields of the guest descriptor-table registers.
#[derive(Clone, Copy, Debug, PartialEq, Eq)]
pub struct GuestTableFields {
    pub gdtr_limit: u32,
    pub idtr_limit: u32,
    pub gdtr_base: u32,
    pub idtr_base: u32,
}

/// The numbers of the guest descriptor-table registers.
pub open spec fn guest_tables() -> GuestTableFields {
    GuestTableFields {
        gdtr_limit: 0x4810,
        idtr_limit: 0x4812,
        gdtr_base: 0x6816,
        idtr_base: 0x6818,
    }
}

/// Takes the guest descriptor-table registers from the constants of
/// `x86::vmx::vmcs::guest`, and claims that they are those of
/// [`guest_tables`].
#[verifier::external_body]
pub(crate) fn x86_guest_tables() -> (numbers: GuestTableFields)
    ensures
        numbers == guest_tables(),
{
    GuestTableFields {
        gdtr_limit: guest::GDTR_LIMIT,
        idtr_limit: guest::IDTR_LIMIT,
        gdtr_base: guest::GDTR_BASE,
        idtr_base: guest::IDTR_BASE,
    }
}

/// The base fields of the host.
#[derive(Clone, Copy, Debug, PartialEq, Eq)]
pub struct HostBaseFields {
    pub tr: u32,
    pub gdtr: u32,
    pub idtr: u32,
    pub fs: u32,
    pub gs: u32,
}

/// The numbers of the host bases.
pub open spec fn host_bases() -> HostBaseFields {
    HostBaseFields {
        tr: 0x6c0a,
        gdtr: 0x6c0c,
        idtr: 0x6c0e,
        fs: 0x6c06,
        gs: 0x6c08,
    }
}

/// Takes the host bases from the constants of `x86::vmx::vmcs::host`, and
/// claims that they are those of [`host_bases`].
#[verifier::external_body]
pub(crate) fn x86_host_bases() -> (numbers: HostBaseFields)
    ensures
        numbers == host_bases(),
{
    HostBaseFields {
        tr: host::TR_BASE,
        gdtr: host::GDTR_BASE,
        idtr: host::IDTR_BASE,
        fs: host::FS_BASE,
        gs: host::GS_BASE,
    }
}

/// The fields of the SYSENTER registers.
#[derive(Clone, Copy, Debug, PartialEq, Eq)]
pub struct SysenterFields {
    pub cs: u32,
    pub esp: u32,
    pub eip: u32,
}

/// The numbers of the guest SYSENTER registers.
pub open spec fn guest_sysenter() -> SysenterFields {
    SysenterFields {
        cs: 0x482a,
        esp: 0x6824,
        eip: 0x6826,
    }
}

/// Takes the guest SYSENTER registers from the constants of
/// `x86::vmx::vmcs::guest`, and claims that they are those of
/// [`guest_sysenter`].
#[verifier::external_body]
pub(crate) fn x86_guest_sysenter() -> (numbers: SysenterFields)
    ensures
        numbers == guest_sysenter(),
{
    SysenterFields {
        cs: guest::IA32_SYSENTER_CS,
        esp: guest::IA32_SYSENTER_ESP,
        eip: guest::IA32_SYSENTER_EIP,
    }
}

/// The numbers of the host SYSENTER registers.
pub open spec fn host_sysenter() -> SysenterFields {
    SysenterFields {
        cs: 0x4c00,
        esp: 0x6c10,
        eip: 0x6c12,
    }
}

/// Takes the host SYSENTER registers from the constants of
/// `x86::vmx::vmcs::host`, and claims that they are those of
/// [`host_sysenter`].
#[verifier::external_body]
pub(crate) fn x86_host_sysenter() -> (numbers: SysenterFields)
    ensures
        numbers == host_sysenter(),
{
    SysenterFields {
        cs: host::IA32_SYSENTER_CS,
        esp: host::IA32_SYSENTER_ESP,
        eip: host::IA32_SYSENTER_EIP,
    }
}

/// The guest fields that come as a full and a high half.
#[derive(Clone, Copy, Debug, PartialEq, Eq)]
pub struct GuestPairFields {
    pub debugctl_full: u32,
    pub debugctl_high: u32,
    pub link_ptr_full: u32,
    pub link_ptr_high: u32,
}

/// The numbers of the guest debug control and the VMCS link pointer.
pub open spec fn guest_pairs() -> GuestPairFields {
    GuestPairFields {
        debugctl_full: 0x2802,
        debugctl_high: 0x2803,
        link_ptr_full: 0x2800,
        link_ptr_high: 0x2801,
    }
}

/// Takes the guest debug control and the VMCS link pointer from the constants
/// of `x86::vmx::vmcs::guest`, and claims that they are those of
/// [`guest_pairs`].
#[verifier::external_body]
pub(crate) fn x86_guest_pairs() -> (numbers: GuestPairFields)
    ensures
        numbers == guest_pairs(),
{
    GuestPairFields {
        debugctl_full: guest::IA32_DEBUGCTL_FULL,
        debugctl_high: guest::IA32_DEBUGCTL_HIGH,
        link_ptr_full: guest::LINK_PTR_FULL,
        link_ptr_high: guest::LINK_PTR_HIGH,
    }
}

/// The control fields that are set up, and the read shadows.
#[derive(Clone, Copy, Debug, PartialEq, Eq)]
pub struct ControlFields {
    pub primary: u32,
    pub secondary: u32,
    pub entry: u32,
    pub exit: u32,
    pub pinbased: u32,
    pub cr0_shadow: u32,
    pub cr4_shadow: u32,
}

/// The numbers of the controls.
pub open spec fn controls() -> ControlFields {
    ControlFields {
        primary: 0x4002,
        secondary: 0x401e,
        entry: 0x4012,
        exit: 0x400c,
        pinbased: 0x4000,
        cr0_shadow: 0x6004,
        cr4_shadow: 0x6006,
    }
}

/// Takes the controls from the constants of `x86::vmx::vmcs::control`, and
/// claims that they are those of [`controls`].
#[verifier::external_body]
pub(crate) fn x86_controls() -> (numbers: ControlFields)
    ensures
        numbers == controls(),
{
    ControlFields {
        primary: control::PRIMARY_PROCBASED_EXEC_CONTROLS,
        secondary: control::SECONDARY_PROCBASED_EXEC_CONTROLS,
        entry: control::VMENTRY_CONTROLS,
        exit: control::VMEXIT_CONTROLS,
        pinbased: control::PINBASED_EXEC_CONTROLS,
        cr0_shadow: control::CR0_READ_SHADOW,
        cr4_shadow: control::CR4_READ_SHADOW,
    }
}

/// The model-specific registers that say which control bits a processor
/// allows.
#[derive(Clone, Copy, Debug, PartialEq, Eq)]
pub struct CapabilityMsrs {
    pub primary: u32,
    pub secondary: u32,
    pub entry: u32,
    pub exit: u32,
    pub pinbased: u32,
}

/// The numbers of the capability registers.
pub open spec fn capability_msrs() -> CapabilityMsrs {
    CapabilityMsrs {
        primary: 0x482,
        secondary: 0x48b,
        entry: 0x484,
        exit: 0x483,
        pinbased: 0x481,
    }
}

/// Takes the capability registers from the constants of `x86::msr`, and
/// claims that they are those of [`capability_msrs`].
#[verifier::external_body]
pub(crate) fn x86_capability_msrs() -> (numbers: CapabilityMsrs)
    ensures
        numbers == capability_msrs(),
{
    CapabilityMsrs {
        primary: msr::IA32_VMX_PROCBASED_CTLS,
        secondary: msr::IA32_VMX_PROCBASED_CTLS2,
        entry: msr::IA32_VMX_ENTRY_CTLS,
        exit: msr::IA32_VMX_EXIT_CTLS,
        pinbased: msr::IA32_VMX_PINBASED_CTLS,
    }
}

/// The model-specific registers that are copied into the VMCS.
#[derive(Clone, Copy, Debug, PartialEq, Eq)]
pub struct StateMsrs {
    pub debugctl: u32,
    pub sysenter_cs: u32,
    pub sysenter_esp: u32,
    pub sysenter_eip: u32,
    pub fs_base: u32,
    pub gs_base: u32,
}

/// The numbers of the copied registers.
pub open spec fn state_msrs() -> StateMsrs {
    StateMsrs {
        debugctl: 0x1d9,
        sysenter_cs: 0x174,
        sysenter_esp: 0x175,
        sysenter_eip: 0x176,
        fs_base: 0xc0000100,
        gs_base: 0xc0000101,
    }
}

/// Takes the copied registers from the constants of `x86::msr`, and claims
/// that they are those of [`state_msrs`].
#[verifier::external_body]
pub(crate) fn x86_state_msrs() -> (numbers: StateMsrs)
    ensures
        numbers == state_msrs(),
{
    StateMsrs {
        debugctl: msr::IA32_DEBUGCTL,
        sysenter_cs: msr::IA32_SYSENTER_CS,
        sysenter_esp: msr::IA32_SYSENTER_ESP,
        sysenter_eip: msr::IA32_SYSENTER_EIP,
        fs_base: msr::IA32_FS_BASE,
        gs_base: msr::IA32_GS_BASE,
    }
}

/// Bits of the primary processor-based controls.
#[derive(Clone, Copy, Debug, PartialEq, Eq)]
pub struct PrimaryFlags {
    pub hlt_exiting: u32,
    pub secondary_controls: u32,
}

/// The values of [`PrimaryFlags`].
pub open spec fn primary_flags() -> PrimaryFlags {
    PrimaryFlags {
        hlt_exiting: 0x80,
        secondary_controls: 0x80000000,
    }
}

/// Calls `bits` on flags of `x86::vmx::vmcs::control::PrimaryControls`, and
/// claims that the bits are those of [`primary_flags`].
#[verifier::external_body]
pub(crate) fn x86_primary_flags() -> (flags: PrimaryFlags)
    ensures
        flags == primary_flags(),
{
    PrimaryFlags {
        hlt_exiting: PrimaryControls::HLT_EXITING.bits(),
        secondary_controls: PrimaryControls::SECONDARY_CONTROLS.bits(),
    }
}

/// Bits of the secondary processor-based controls.
#[derive(Clone, Copy, Debug, PartialEq, Eq)]
pub struct SecondaryFlags {
    pub enable_rdtscp: u32,
    pub enable_xsaves_xrstors: u32,
    pub enable_invpcid: u32,
}

/// The values of [`SecondaryFlags`].
pub open spec fn secondary_flags() -> SecondaryFlags {
    SecondaryFlags {
        enable_rdtscp: 0x8,
        enable_xsaves_xrstors: 0x100000,
        enable_invpcid: 0x1000,
    }
}

/// Calls `bits` on flags of `x86::vmx::vmcs::control::SecondaryControls`, and
/// claims that the bits are those of [`secondary_flags`].
#[verifier::external_body]
pub(crate) fn x86_secondary_flags() -> (flags: SecondaryFlags)
    ensures
        flags == secondary_flags(),
{
    SecondaryFlags {
        enable_rdtscp: SecondaryControls::ENABLE_RDTSCP.bits(),
        enable_xsaves_xrstors: SecondaryControls::ENABLE_XSAVES_XRSTORS.bits(),
        enable_invpcid: SecondaryControls::ENABLE_INVPCID.bits(),
    }
}

/// Bits of the VM-entry controls.
#[derive(Clone, Copy, Debug, PartialEq, Eq)]
pub struct EntryFlags {
    pub ia32e_mode_guest: u32,
}

/// The values of [`EntryFlags`].
pub open spec fn entry_flags() -> EntryFlags {
    EntryFlags {
        ia32e_mode_guest: 0x200,
    }
}

/// Calls `bits` on flags of `x86::vmx::vmcs::control::EntryControls`, and
/// claims that the bits are those of [`entry_flags`].
#[verifier::external_body]
pub(crate) fn x86_entry_flags() -> (flags: EntryFlags)
    ensures
        flags == entry_flags(),
{
    EntryFlags {
        ia32e_mode_guest: EntryControls::IA32E_MODE_GUEST.bits(),
    }
}

/// Bits of the VM-exit controls.
#[derive(Clone, Copy, Debug, PartialEq, Eq)]
pub struct ExitFlags {
    pub host_address_space_size: u32,
    pub ack_interrupt_on_exit: u32,
}

/// The values of [`ExitFlags`].
pub open spec fn exit_flags() -> ExitFlags {
    ExitFlags {
        host_address_space_size: 0x200,
        ack_interrupt_on_exit: 0x8000,
    }
}

/// Calls `bits` on flags of `x86::vmx::vmcs::control::ExitControls`, and
/// claims that the bits are those of [`exit_flags`].
#[verifier::external_body]
pub(crate) fn x86_exit_flags() -> (flags: ExitFlags)
    ensures
        flags == exit_flags(),
{
    ExitFlags {
        host_address_space_size: ExitControls::HOST_ADDRESS_SPACE_SIZE.bits(),
        ack_interrupt_on_exit: ExitControls::ACK_INTERRUPT_ON_EXIT.bits(),
    }
}

} // verus!
