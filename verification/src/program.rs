//! The three programs that fill a VMCS: its controls, its host-state area and
//! its guest-state area.
use crate::encoding;
use crate::protocol::{Register, Segment};
use crate::vcpu::Context;
use vstd::prelude::*;

verus! {

/// Where the value of a field comes from.
#[derive(Clone, Copy, Debug, PartialEq, Eq)]
pub enum Operand {
    /// A value that is known beforehand.
    Value(u64),
    /// A register.
    Register(Register),
    /// A model-specific register.
    Msr(u32),
    /// Control bits, fitted to what the capability register `msr` allows.
    Controls { msr: u32, wanted: u32 },
    /// A segment's selector.
    Selector(Segment),
    /// A segment's selector, with what the host-state area must not hold
    /// masked out.
    HostSelector(Segment),
    /// The limit of the segment that is selected in a segment register.
    Limit(Segment),
    /// The access rights of the segment that is selected in a segment register.
    AccessRights(Segment),
    /// The base of the segment that is selected in a segment register.
    Base(Segment),
    /// The base in GDTR, as it was last stored.
    GdtrBase,
    /// The limit in GDTR, as it was last stored.
    GdtrLimit,
    /// The base in IDTR, as it was last stored.
    IdtrBase,
    /// The limit in IDTR, as it was last stored.
    IdtrLimit,
}

/// One step of a program.
#[derive(Clone, Copy, Debug, PartialEq, Eq)]
pub enum Step {
    /// Store GDTR for later steps.
    StoreGdtr,
    /// Store IDTR for later steps.
    StoreIdtr,
    /// Write an operand into a field of the current VMCS.
    Write(u32, Operand),
}

/// The controls, then the read shadows. Each set of controls is fitted to its
/// capability register first.
pub open spec fn control_steps() -> Seq<Step> {
    let fields = encoding::controls();
    let msrs = encoding::capability_msrs();
    let primary = encoding::primary_flags();
    let secondary = encoding::secondary_flags();
    let entry = encoding::entry_flags();
    let exit = encoding::exit_flags();
    seq![
        Step::Write(
            fields.primary,
            Operand::Controls {
                msr: msrs.primary,
                wanted: primary.hlt_exiting | primary.secondary_controls,
            },
        ),
        Step::Write(
            fields.secondary,
            Operand::Controls {
                msr: msrs.secondary,
                wanted: secondary.enable_rdtscp
                    | secondary.enable_xsaves_xrstors
                    | secondary.enable_invpcid,
            },
        ),
        Step::Write(
            fields.entry,
            Operand::Controls {
                msr: msrs.entry,
                wanted: entry.ia32e_mode_guest,
            },
        ),
        Step::Write(
            fields.exit,
            Operand::Controls {
                msr: msrs.exit,
                wanted: exit.host_address_space_size | exit.ack_interrupt_on_exit,
            },
        ),
        Step::Write(
            fields.pinbased,
            Operand::Controls {
                msr: msrs.pinbased,
                wanted: 0,
            },
        ),
        Step::Write(fields.cr0_shadow, Operand::Register(Register::Cr0)),
        Step::Write(fields.cr4_shadow, Operand::Register(Register::Cr4)),
    ]
}

/// The control registers of the host.
pub open spec fn host_control_register_steps() -> Seq<Step> {
    let fields = encoding::host_control_registers();
    seq![
        Step::Write(fields.cr0, Operand::Register(Register::Cr0)),
        Step::Write(fields.cr3, Operand::Register(Register::Cr3)),
        Step::Write(fields.cr4, Operand::Register(Register::Cr4)),
    ]
}

/// Where the host goes on after an exit from the guest.
pub open spec fn host_entry_steps(context: Context, vmexit_stub: u64) -> Seq<Step> {
    let fields = encoding::host_registers();
    seq![
        Step::Write(fields.rsp, Operand::Value(context.rsp)),
        Step::Write(fields.rip, Operand::Value(vmexit_stub)),
    ]
}

/// The selectors of the host.
pub open spec fn host_selector_steps() -> Seq<Step> {
    let fields = encoding::host_selectors();
    seq![
        Step::Write(fields.cs, Operand::HostSelector(Segment::Cs)),
        Step::Write(fields.ss, Operand::HostSelector(Segment::Ss)),
        Step::Write(fields.ds, Operand::HostSelector(Segment::Ds)),
        Step::Write(fields.es, Operand::HostSelector(Segment::Es)),
        Step::Write(fields.fs, Operand::HostSelector(Segment::Fs)),
        Step::Write(fields.gs, Operand::HostSelector(Segment::Gs)),
        Step::Write(fields.tr, Operand::HostSelector(Segment::Tr)),
    ]
}

/// The task segment and the descriptor tables of the host.
pub open spec fn host_base_steps() -> Seq<Step> {
    let fields = encoding::host_bases();
    seq![
        Step::StoreGdtr,
        Step::StoreIdtr,
        Step::Write(fields.tr, Operand::Base(Segment::Tr)),
        Step::Write(fields.gdtr, Operand::GdtrBase),
        Step::Write(fields.idtr, Operand::IdtrBase),
    ]
}

/// The model-specific registers of the host.
pub open spec fn host_msr_steps() -> Seq<Step> {
    let sysenter = encoding::host_sysenter();
    let bases = encoding::host_bases();
    let msrs = encoding::state_msrs();
    seq![
        Step::Write(sysenter.cs, Operand::Msr(msrs.sysenter_cs)),
        Step::Write(sysenter.esp, Operand::Msr(msrs.sysenter_esp)),
        Step::Write(sysenter.eip, Operand::Msr(msrs.sysenter_eip)),
        Step::Write(bases.fs, Operand::Msr(msrs.fs_base)),
        Step::Write(bases.gs, Operand::Msr(msrs.gs_base)),
    ]
}

/// The control registers of the guest.
pub open spec fn guest_control_register_steps() -> Seq<Step> {
    let fields = encoding::guest_control_registers();
    seq![
        Step::Write(fields.cr0, Operand::Register(Register::Cr0)),
        Step::Write(fields.cr3, Operand::Register(Register::Cr3)),
        Step::Write(fields.cr4, Operand::Register(Register::Cr4)),
    ]
}

/// The debug register, the context and the flags of the guest.
pub open spec fn guest_register_steps(context: Context) -> Seq<Step> {
    let fields = encoding::guest_registers();
    seq![
        Step::Write(fields.dr7, Operand::Register(Register::Dr7)),
        Step::Write(fields.rsp, Operand::Value(context.rsp)),
        Step::Write(fields.rip, Operand::Value(context.rip)),
        Step::Write(fields.rflags, Operand::Register(Register::Rflags)),
    ]
}

/// The selectors of the guest.
pub open spec fn guest_selector_steps() -> Seq<Step> {
    let fields = encoding::guest_selectors();
    seq![
        Step::Write(fields.cs, Operand::Selector(Segment::Cs)),
        Step::Write(fields.ss, Operand::Selector(Segment::Ss)),
        Step::Write(fields.ds, Operand::Selector(Segment::Ds)),
        Step::Write(fields.es, Operand::Selector(Segment::Es)),
        Step::Write(fields.fs, Operand::Selector(Segment::Fs)),
        Step::Write(fields.gs, Operand::Selector(Segment::Gs)),
        Step::Write(fields.ldtr, Operand::Selector(Segment::Ldtr)),
        Step::Write(fields.tr, Operand::Selector(Segment::Tr)),
    ]
}

/// The segment limits of the guest. That of GS is the limit of the segment
/// which FS selects.
pub open spec fn guest_limit_steps() -> Seq<Step> {
    let fields = encoding::guest_limits();
    seq![
        Step::Write(fields.cs, Operand::Limit(Segment::Cs)),
        Step::Write(fields.ss, Operand::Limit(Segment::Ss)),
        Step::Write(fields.ds, Operand::Limit(Segment::Ds)),
        Step::Write(fields.es, Operand::Limit(Segment::Es)),
        Step::Write(fields.fs, Operand::Limit(Segment::Fs)),
        Step::Write(fields.gs, Operand::Limit(Segment::Fs)),
        Step::Write(fields.ldtr, Operand::Limit(Segment::Ldtr)),
        Step::Write(fields.tr, Operand::Limit(Segment::Tr)),
    ]
}

/// The access rights of the guest.
pub open spec fn guest_access_rights_steps() -> Seq<Step> {
    let fields = encoding::guest_access_rights();
    seq![
        Step::Write(fields.cs, Operand::AccessRights(Segment::Cs)),
        Step::Write(fields.ss, Operand::AccessRights(Segment::Ss)),
        Step::Write(fields.ds, Operand::AccessRights(Segment::Ds)),
        Step::Write(fields.es, Operand::AccessRights(Segment::Es)),
        Step::Write(fields.fs, Operand::AccessRights(Segment::Fs)),
        Step::Write(fields.gs, Operand::AccessRights(Segment::Gs)),
        Step::Write(fields.ldtr, Operand::AccessRights(Segment::Ldtr)),
        Step::Write(fields.tr, Operand::AccessRights(Segment::Tr)),
    ]
}

/// The descriptor tables of the guest.
pub open spec fn guest_table_steps() -> Seq<Step> {
    let fields = encoding::guest_tables();
    seq![
        Step::StoreGdtr,
        Step::StoreIdtr,
        Step::Write(fields.gdtr_limit, Operand::GdtrLimit),
        Step::Write(fields.idtr_limit, Operand::IdtrLimit),
        Step::Write(fields.gdtr_base, Operand::GdtrBase),
        Step::Write(fields.idtr_base, Operand::IdtrBase),
    ]
}

/// The segment bases of the guest that come from its descriptor table.
pub open spec fn guest_base_steps() -> Seq<Step> {
    let fields = encoding::guest_bases();
    seq![
        Step::Write(fields.cs, Operand::Base(Segment::Cs)),
        Step::Write(fields.ss, Operand::Base(Segment::Ss)),
        Step::Write(fields.ds, Operand::Base(Segment::Ds)),
        Step::Write(fields.es, Operand::Base(Segment::Es)),
        Step::Write(fields.ldtr, Operand::Base(Segment::Ldtr)),
        Step::Write(fields.tr, Operand::Base(Segment::Tr)),
    ]
}

/// The model-specific registers of the guest, and a VMCS link pointer that
/// links to nothing.
pub open spec fn guest_msr_steps() -> Seq<Step> {
    let pairs = encoding::guest_pairs();
    let sysenter = encoding::guest_sysenter();
    let bases = encoding::guest_bases();
    let msrs = encoding::state_msrs();
    seq![
        Step::Write(pairs.debugctl_full, Operand::Msr(msrs.debugctl)),
        Step::Write(pairs.debugctl_high, Operand::Msr(msrs.debugctl)),
        Step::Write(sysenter.cs, Operand::Msr(msrs.sysenter_cs)),
        Step::Write(sysenter.esp, Operand::Msr(msrs.sysenter_esp)),
        Step::Write(sysenter.eip, Operand::Msr(msrs.sysenter_eip)),
        Step::Write(pairs.link_ptr_full, Operand::Value(u64::MAX)),
        Step::Write(pairs.link_ptr_high, Operand::Value(u64::MAX)),
        Step::Write(bases.fs, Operand::Msr(msrs.fs_base)),
        Step::Write(bases.gs, Operand::Msr(msrs.gs_base)),
    ]
}

/// The program that sets up the controls.
pub open spec fn control_program() -> Seq<Step> {
    control_steps()
}

/// The program that fills the host-state area.
pub open spec fn host_program(context: Context, vmexit_stub: u64) -> Seq<Step> {
    host_control_register_steps()
        + host_entry_steps(context, vmexit_stub)
        + host_selector_steps()
        + host_base_steps()
        + host_msr_steps()
}

/// The program that fills the guest-state area.
pub open spec fn guest_program(context: Context) -> Seq<Step> {
    guest_control_register_steps()
        + guest_register_steps(context)
        + guest_selector_steps()
        + guest_limit_steps()
        + guest_access_rights_steps()
        + guest_table_steps()
        + guest_base_steps()
        + guest_msr_steps()
}

/// Builds [`control_steps`].
fn build_control_steps() -> (steps: Vec<Step>)
    ensures
        steps@ == control_steps(),
{
    let fields = encoding::x86_controls();
    let msrs = encoding::x86_capability_msrs();
    let primary = encoding::x86_primary_flags();
    let secondary = encoding::x86_secondary_flags();
    let entry = encoding::x86_entry_flags();
    let exit = encoding::x86_exit_flags();
    vec![
        Step::Write(
            fields.primary,
            Operand::Controls {
                msr: msrs.primary,
                wanted: primary.hlt_exiting | primary.secondary_controls,
            },
        ),
        Step::Write(
            fields.secondary,
            Operand::Controls {
                msr: msrs.secondary,
                wanted: secondary.enable_rdtscp
                    | secondary.enable_xsaves_xrstors
                    | secondary.enable_invpcid,
            },
        ),
        Step::Write(
            fields.entry,
            Operand::Controls {
                msr: msrs.entry,
                wanted: entry.ia32e_mode_guest,
            },
        ),
        Step::Write(
            fields.exit,
            Operand::Controls {
                msr: msrs.exit,
                wanted: exit.host_address_space_size | exit.ack_interrupt_on_exit,
            },
        ),
        Step::Write(
            fields.pinbased,
            Operand::Controls {
                msr: msrs.pinbased,
                wanted: 0,
            },
        ),
        Step::Write(fields.cr0_shadow, Operand::Register(Register::Cr0)),
        Step::Write(fields.cr4_shadow, Operand::Register(Register::Cr4)),
    ]
}

/// Builds [`host_control_register_steps`].
fn build_host_control_register_steps() -> (steps: Vec<Step>)
    ensures
        steps@ == host_control_register_steps(),
{
    let fields = encoding::x86_host_control_registers();
    vec![
        Step::Write(fields.cr0, Operand::Register(Register::Cr0)),
        Step::Write(fields.cr3, Operand::Register(Register::Cr3)),
        Step::Write(fields.cr4, Operand::Register(Register::Cr4)),
    ]
}

/// Builds [`host_entry_steps`].
fn build_host_entry_steps(context: Context, vmexit_stub: u64) -> (steps: Vec<Step>)
    ensures
        steps@ == host_entry_steps(context, vmexit_stub),
{
    let fields = encoding::x86_host_registers();
    vec![
        Step::Write(fields.rsp, Operand::Value(context.rsp)),
        Step::Write(fields.rip, Operand::Value(vmexit_stub)),
    ]
}

/// Builds [`host_selector_steps`].
fn build_host_selector_steps() -> (steps: Vec<Step>)
    ensures
        steps@ == host_selector_steps(),
{
    let fields = encoding::x86_host_selectors();
    vec![
        Step::Write(fields.cs, Operand::HostSelector(Segment::Cs)),
        Step::Write(fields.ss, Operand::HostSelector(Segment::Ss)),
        Step::Write(fields.ds, Operand::HostSelector(Segment::Ds)),
        Step::Write(fields.es, Operand::HostSelector(Segment::Es)),
        Step::Write(fields.fs, Operand::HostSelector(Segment::Fs)),
        Step::Write(fields.gs, Operand::HostSelector(Segment::Gs)),
        Step::Write(fields.tr, Operand::HostSelector(Segment::Tr)),
    ]
}

/// Builds [`host_base_steps`].
fn build_host_base_steps() -> (steps: Vec<Step>)
    ensures
        steps@ == host_base_steps(),
{
    let fields = encoding::x86_host_bases();
    vec![
        Step::StoreGdtr,
        Step::StoreIdtr,
        Step::Write(fields.tr, Operand::Base(Segment::Tr)),
        Step::Write(fields.gdtr, Operand::GdtrBase),
        Step::Write(fields.idtr, Operand::IdtrBase),
    ]
}

/// Builds [`host_msr_steps`].
fn build_host_msr_steps() -> (steps: Vec<Step>)
    ensures
        steps@ == host_msr_steps(),
{
    let sysenter = encoding::x86_host_sysenter();
    let bases = encoding::x86_host_bases();
    let msrs = encoding::x86_state_msrs();
    vec![
        Step::Write(sysenter.cs, Operand::Msr(msrs.sysenter_cs)),
        Step::Write(sysenter.esp, Operand::Msr(msrs.sysenter_esp)),
        Step::Write(sysenter.eip, Operand::Msr(msrs.sysenter_eip)),
        Step::Write(bases.fs, Operand::Msr(msrs.fs_base)),
        Step::Write(bases.gs, Operand::Msr(msrs.gs_base)),
    ]
}

/// Builds [`guest_control_register_steps`].
fn build_guest_control_register_steps() -> (steps: Vec<Step>)
    ensures
        steps@ == guest_control_register_steps(),
{
    let fields = encoding::x86_guest_control_registers();
    vec![
        Step::Write(fields.cr0, Operand::Register(Register::Cr0)),
        Step::Write(fields.cr3, Operand::Register(Register::Cr3)),
        Step::Write(fields.cr4, Operand::Register(Register::Cr4)),
    ]
}

/// Builds [`guest_register_steps`].
fn build_guest_register_steps(context: Context) -> (steps: Vec<Step>)
    ensures
        steps@ == guest_register_steps(context),
{
    let fields = encoding::x86_guest_registers();
    vec![
        Step::Write(fields.dr7, Operand::Register(Register::Dr7)),
        Step::Write(fields.rsp, Operand::Value(context.rsp)),
        Step::Write(fields.rip, Operand::Value(context.rip)),
        Step::Write(fields.rflags, Operand::Register(Register::Rflags)),
    ]
}

/// Builds [`guest_selector_steps`].
fn build_guest_selector_steps() -> (steps: Vec<Step>)
    ensures
        steps@ == guest_selector_steps(),
{
    let fields = encoding::x86_guest_selectors();
    vec![
        Step::Write(fields.cs, Operand::Selector(Segment::Cs)),
        Step::Write(fields.ss, Operand::Selector(Segment::Ss)),
        Step::Write(fields.ds, Operand::Selector(Segment::Ds)),
        Step::Write(fields.es, Operand::Selector(Segment::Es)),
        Step::Write(fields.fs, Operand::Selector(Segment::Fs)),
        Step::Write(fields.gs, Operand::Selector(Segment::Gs)),
        Step::Write(fields.ldtr, Operand::Selector(Segment::Ldtr)),
        Step::Write(fields.tr, Operand::Selector(Segment::Tr)),
    ]
}

/// Builds [`guest_limit_steps`].
fn build_guest_limit_steps() -> (steps: Vec<Step>)
    ensures
        steps@ == guest_limit_steps(),
{
    let fields = encoding::x86_guest_limits();
    vec![
        Step::Write(fields.cs, Operand::Limit(Segment::Cs)),
        Step::Write(fields.ss, Operand::Limit(Segment::Ss)),
        Step::Write(fields.ds, Operand::Limit(Segment::Ds)),
        Step::Write(fields.es, Operand::Limit(Segment::Es)),
        Step::Write(fields.fs, Operand::Limit(Segment::Fs)),
        Step::Write(fields.gs, Operand::Limit(Segment::Fs)),
        Step::Write(fields.ldtr, Operand::Limit(Segment::Ldtr)),
        Step::Write(fields.tr, Operand::Limit(Segment::Tr)),
    ]
}

/// Builds [`guest_access_rights_steps`].
fn build_guest_access_rights_steps() -> (steps: Vec<Step>)
    ensures
        steps@ == guest_access_rights_steps(),
{
    let fields = encoding::x86_guest_access_rights();
    vec![
        Step::Write(fields.cs, Operand::AccessRights(Segment::Cs)),
        Step::Write(fields.ss, Operand::AccessRights(Segment::Ss)),
        Step::Write(fields.ds, Operand::AccessRights(Segment::Ds)),
        Step::Write(fields.es, Operand::AccessRights(Segment::Es)),
        Step::Write(fields.fs, Operand::AccessRights(Segment::Fs)),
        Step::Write(fields.gs, Operand::AccessRights(Segment::Gs)),
        Step::Write(fields.ldtr, Operand::AccessRights(Segment::Ldtr)),
        Step::Write(fields.tr, Operand::AccessRights(Segment::Tr)),
    ]
}

/// Builds [`guest_table_steps`].
fn build_guest_table_steps() -> (steps: Vec<Step>)
    ensures
        steps@ == guest_table_steps(),
{
    let fields = encoding::x86_guest_tables();
    vec![
        Step::StoreGdtr,
        Step::StoreIdtr,
        Step::Write(fields.gdtr_limit, Operand::GdtrLimit),
        Step::Write(fields.idtr_limit, Operand::IdtrLimit),
        Step::Write(fields.gdtr_base, Operand::GdtrBase),
        Step::Write(fields.idtr_base, Operand::IdtrBase),
    ]
}

/// Builds [`guest_base_steps`].
fn build_guest_base_steps() -> (steps: Vec<Step>)
    ensures
        steps@ == guest_base_steps(),
{
    let fields = encoding::x86_guest_bases();
    vec![
        Step::Write(fields.cs, Operand::Base(Segment::Cs)),
        Step::Write(fields.ss, Operand::Base(Segment::Ss)),
        Step::Write(fields.ds, Operand::Base(Segment::Ds)),
        Step::Write(fields.es, Operand::Base(Segment::Es)),
        Step::Write(fields.ldtr, Operand::Base(Segment::Ldtr)),
        Step::Write(fields.tr, Operand::Base(Segment::Tr)),
    ]
}

/// Builds [`guest_msr_steps`].
fn build_guest_msr_steps() -> (steps: Vec<Step>)
    ensures
        steps@ == guest_msr_steps(),
{
    let pairs = encoding::x86_guest_pairs();
    let sysenter = encoding::x86_guest_sysenter();
    let bases = encoding::x86_guest_bases();
    let msrs = encoding::x86_state_msrs();
    vec![
        Step::Write(pairs.debugctl_full, Operand::Msr(msrs.debugctl)),
        Step::Write(pairs.debugctl_high, Operand::Msr(msrs.debugctl)),
        Step::Write(sysenter.cs, Operand::Msr(msrs.sysenter_cs)),
        Step::Write(sysenter.esp, Operand::Msr(msrs.sysenter_esp)),
        Step::Write(sysenter.eip, Operand::Msr(msrs.sysenter_eip)),
        Step::Write(pairs.link_ptr_full, Operand::Value(u64::MAX)),
        Step::Write(pairs.link_ptr_high, Operand::Value(u64::MAX)),
        Step::Write(bases.fs, Operand::Msr(msrs.fs_base)),
        Step::Write(bases.gs, Operand::Msr(msrs.gs_base)),
    ]
}

/// Builds [`control_program`].
pub(crate) fn build_control_program() -> (steps: Vec<Step>)
    ensures
        steps@ == control_program(),
{
    build_control_steps()
}

/// Builds [`host_program`].
pub(crate) fn build_host_program(context: Context, vmexit_stub: u64) -> (steps: Vec<Step>)
    ensures
        steps@ == host_program(context, vmexit_stub),
{
    let mut steps = build_host_control_register_steps();
    steps.append(&mut build_host_entry_steps(context, vmexit_stub));
    steps.append(&mut build_host_selector_steps());
    steps.append(&mut build_host_base_steps());
    steps.append(&mut build_host_msr_steps());
    steps
}

/// Builds [`guest_program`].
pub(crate) fn build_guest_program(context: Context) -> (steps: Vec<Step>)
    ensures
        steps@ == guest_program(context),
{
    let mut steps = build_guest_control_register_steps();
    steps.append(&mut build_guest_register_steps(context));
    steps.append(&mut build_guest_selector_steps());
    steps.append(&mut build_guest_limit_steps());
    steps.append(&mut build_guest_access_rights_steps());
    steps.append(&mut build_guest_table_steps());
    steps.append(&mut build_guest_base_steps());
    steps.append(&mut build_guest_msr_steps());
    steps
}

} // verus!
