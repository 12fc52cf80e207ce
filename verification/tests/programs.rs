use hypervisor::error::HypervisorError;
use hypervisor::program::{Operand, Step};
use hypervisor::protocol::{Event, Register, Request, Segment, TableRegister};
use hypervisor::run::Run;
use hypervisor::vcpu::{Context, Vcpu, VmcsRegion, VmxonRegion};
use hypervisor::vmm::Vmm;
use x86::msr;
use x86::segmentation;
use x86::vmx::vmcs::{control, guest, host};

const STUB: u64 = 0xffff_8000_0000_1234;

fn monitor() -> Vmm {
    let mut vmm = Vmm::new(1).unwrap();
    vmm.init_vcpu(Ok(Vcpu {
        vmxon_region: VmxonRegion { revision_id: 1 },
        vmxon_region_physical_address: 0x1000,
        vmcs_region: VmcsRegion { revision_id: 1 },
        vmcs_region_physical_address: 0x2000,
        context: Context { rsp: 0xaaaa_0000, rip: 0xbbbb_0000 },
    }))
    .unwrap();
    vmm
}

fn selector(segment: Segment) -> u16 {
    match segment {
        Segment::Cs => 0x0010,
        Segment::Ss => 0x0018,
        Segment::Ds => 0x002b,
        Segment::Es => 0x0033,
        Segment::Fs => 0x0053,
        Segment::Gs => 0x005f,
        Segment::Ldtr => 0x0060,
        Segment::Tr => 0x1044,
    }
}

fn register(register: Register) -> u64 {
    match register {
        Register::Cr0 => 0x8005_0033,
        Register::Cr3 => 0x1ad_000,
        Register::Cr4 => 0x37_0678,
        Register::Dr7 => 0x400,
        Register::Rflags => 0x246,
    }
}

fn answer(request: Request) -> Event {
    match request {
        Request::ReadRegister(r) => Event::Qword(register(r)),
        Request::ReadSelector(s) => Event::Selector(selector(s)),
        Request::ReadMsr(m) => Event::Qword(0x5_0000_0000 + m as u64),
        Request::AdjustControls { msr, controls } => Event::Dword(controls | (msr << 16)),
        Request::StoreGdtr => Event::Table(TableRegister { base: 0xfff0_1000, limit: 0x57 }),
        Request::StoreIdtr => Event::Table(TableRegister { base: 0xfff0_2000, limit: 0xfff }),
        Request::SegmentLimit(s) => Event::Dword(0xf000_0000 + s as u32),
        Request::AccessRights(s) => Event::Qword(0xa000 + s as u64),
        Request::SegmentBase { gdt_base, selector } => Event::Qword(gdt_base + selector as u64),
        Request::Vmwrite { .. } => Event::Completed(Ok(())),
        other => panic!("not a request of a run: {:?}", other),
    }
}

/// Runs to the end; a write to `failing` fails.
fn drive(
    mut run: Run,
    failing: Option<u32>,
) -> (Result<(), HypervisorError>, Vec<(u32, u64)>, Vec<Request>) {
    let mut writes = Vec::new();
    let mut requests = Vec::new();
    loop {
        let request = run.request();
        requests.push(request);
        match request {
            Request::Finished(result) => return (result, writes, requests),
            Request::Vmwrite { field, .. } if failing == Some(field) => {
                run.resume(Event::Completed(Err(HypervisorError::VmwriteFailed)));
            }
            Request::Vmwrite { field, value } => {
                writes.push((field, value));
                run.resume(Event::Completed(Ok(())));
            }
            other => run.resume(answer(other)),
        }
    }
}

fn msr_value(m: u32) -> u64 {
    0x5_0000_0000 + m as u64
}

#[test]
fn control_values() {
    let (result, writes, requests) = drive(monitor().init_vmcs_control_values(99), None);
    assert_eq!(result, Ok(()));
    assert_eq!(
        writes,
        vec![
            (control::PRIMARY_PROCBASED_EXEC_CONTROLS, 0x8482_0080 | 0x8000_0000),
            (control::SECONDARY_PROCBASED_EXEC_CONTROLS, 0x048b_0000 | 0x0010_1008),
            (control::VMENTRY_CONTROLS, 0x0484_0200),
            (control::VMEXIT_CONTROLS, 0x0483_8200),
            (control::PINBASED_EXEC_CONTROLS, 0x0481_0000),
            (control::CR0_READ_SHADOW, 0x8005_0033),
            (control::CR4_READ_SHADOW, 0x37_0678),
        ]
    );
    assert_eq!(
        requests[0],
        Request::AdjustControls { msr: msr::IA32_VMX_PROCBASED_CTLS, controls: 0x8000_0080 }
    );
    assert_eq!(
        requests[2],
        Request::AdjustControls { msr: msr::IA32_VMX_PROCBASED_CTLS2, controls: 0x10_1008 }
    );
    assert_eq!(
        requests[8],
        Request::AdjustControls { msr: msr::IA32_VMX_PINBASED_CTLS, controls: 0 }
    );
}

#[test]
fn host_state() {
    let (result, writes, requests) = drive(monitor().init_host_register_state(0, STUB), None);
    assert_eq!(result, Ok(()));
    assert_eq!(
        writes,
        vec![
            (host::CR0, 0x8005_0033),
            (host::CR3, 0x1ad_000),
            (host::CR4, 0x37_0678),
            (host::RSP, 0xaaaa_0000),
            (host::RIP, STUB),
            (host::CS_SELECTOR, 0x10),
            (host::SS_SELECTOR, 0x18),
            (host::DS_SELECTOR, 0x28),
            (host::ES_SELECTOR, 0x30),
            (host::FS_SELECTOR, 0x50),
            (host::GS_SELECTOR, 0x58),
            (host::TR_SELECTOR, 0x40),
            (host::TR_BASE, 0xfff0_1000 + 0x1044),
            (host::GDTR_BASE, 0xfff0_1000),
            (host::IDTR_BASE, 0xfff0_2000),
            (host::IA32_SYSENTER_CS, msr_value(msr::IA32_SYSENTER_CS)),
            (host::IA32_SYSENTER_ESP, msr_value(msr::IA32_SYSENTER_ESP)),
            (host::IA32_SYSENTER_EIP, msr_value(msr::IA32_SYSENTER_EIP)),
            (host::FS_BASE, msr_value(msr::IA32_FS_BASE)),
            (host::GS_BASE, msr_value(msr::IA32_GS_BASE)),
        ]
    );
    let stores = requests.iter().position(|r| *r == Request::StoreGdtr).unwrap();
    assert_eq!(requests[stores + 1], Request::StoreIdtr);
    assert_eq!(requests[stores + 2], Request::ReadSelector(Segment::Tr));
    assert_eq!(
        requests[stores + 3],
        Request::SegmentBase { gdt_base: 0xfff0_1000, selector: 0x1044 }
    );
}

fn guest_writes() -> Vec<(u32, u64)> {
    let base = 0xfff0_1000u64;
    vec![
        (guest::CR0, 0x8005_0033),
        (guest::CR3, 0x1ad_000),
        (guest::CR4, 0x37_0678),
        (guest::DR7, 0x400),
        (guest::RSP, 0xaaaa_0000),
        (guest::RIP, 0xbbbb_0000),
        (guest::RFLAGS, 0x246),
        (guest::CS_SELECTOR, 0x10),
        (guest::SS_SELECTOR, 0x18),
        (guest::DS_SELECTOR, 0x2b),
        (guest::ES_SELECTOR, 0x33),
        (guest::FS_SELECTOR, 0x53),
        (guest::GS_SELECTOR, 0x5f),
        (guest::LDTR_SELECTOR, 0x60),
        (guest::TR_SELECTOR, 0x1044),
        (guest::CS_LIMIT, 0xf000_0010),
        (guest::SS_LIMIT, 0xf000_0018),
        (guest::DS_LIMIT, 0xf000_002b),
        (guest::ES_LIMIT, 0xf000_0033),
        (guest::FS_LIMIT, 0xf000_0053),
        (guest::GS_LIMIT, 0xf000_0053),
        (guest::LDTR_LIMIT, 0xf000_0060),
        (guest::TR_LIMIT, 0xf000_1044),
        (guest::CS_ACCESS_RIGHTS, 0xa010),
        (guest::SS_ACCESS_RIGHTS, 0xa018),
        (guest::DS_ACCESS_RIGHTS, 0xa02b),
        (guest::ES_ACCESS_RIGHTS, 0xa033),
        (guest::FS_ACCESS_RIGHTS, 0xa053),
        (guest::GS_ACCESS_RIGHTS, 0xa05f),
        (guest::LDTR_ACCESS_RIGHTS, 0xa060),
        (guest::TR_ACCESS_RIGHTS, 0xb044),
        (guest::GDTR_LIMIT, 0x57),
        (guest::IDTR_LIMIT, 0xfff),
        (guest::GDTR_BASE, base),
        (guest::IDTR_BASE, 0xfff0_2000),
        (guest::CS_BASE, base + 0x10),
        (guest::SS_BASE, base + 0x18),
        (guest::DS_BASE, base + 0x2b),
        (guest::ES_BASE, base + 0x33),
        (guest::LDTR_BASE, base + 0x60),
        (guest::TR_BASE, base + 0x1044),
        (guest::IA32_DEBUGCTL_FULL, msr_value(msr::IA32_DEBUGCTL)),
        (guest::IA32_DEBUGCTL_HIGH, msr_value(msr::IA32_DEBUGCTL)),
        (guest::IA32_SYSENTER_CS, msr_value(msr::IA32_SYSENTER_CS)),
        (guest::IA32_SYSENTER_ESP, msr_value(msr::IA32_SYSENTER_ESP)),
        (guest::IA32_SYSENTER_EIP, msr_value(msr::IA32_SYSENTER_EIP)),
        (guest::LINK_PTR_FULL, u64::MAX),
        (guest::LINK_PTR_HIGH, u64::MAX),
        (guest::FS_BASE, msr_value(msr::IA32_FS_BASE)),
        (guest::GS_BASE, msr_value(msr::IA32_GS_BASE)),
    ]
}

#[test]
fn guest_state() {
    let (result, writes, requests) = drive(monitor().init_guest_register_state(0), None);
    assert_eq!(result, Ok(()));
    assert_eq!(writes, guest_writes());
    assert!(requests.len() <= 3 * 52 + 1);
}

#[test]
fn guest_state_stops_at_the_first_failed_write() {
    let expected = guest_writes();
    for (at, (field, _)) in expected.iter().enumerate() {
        let (result, writes, _) = drive(monitor().init_guest_register_state(0), Some(*field));
        assert_eq!(result, Err(HypervisorError::VmwriteFailed));
        assert_eq!(writes, expected[..at].to_vec());
    }
}

#[test]
fn programs_write_no_field_twice() {
    let mut fields: Vec<u32> = Vec::new();
    for (run, area) in vec![
        (monitor().init_vmcs_control_values(0), 0),
        (monitor().init_host_register_state(0, STUB), 3),
        (monitor().init_guest_register_state(0), 2),
    ] {
        for (field, _) in drive(run, None).1 {
            assert_eq!(field / 1024 % 4, area);
            assert!(!fields.contains(&field));
            fields.push(field);
        }
    }
    assert_eq!(fields.len(), 7 + 20 + 50);
}

#[test]
fn control_fields_are_not_written_after_a_failure() {
    let run = monitor().init_vmcs_control_values(0);
    let (result, writes, _) = drive(run, Some(control::PRIMARY_PROCBASED_EXEC_CONTROLS));
    assert_eq!(result, Err(HypervisorError::VmwriteFailed));
    assert!(writes.is_empty());
}

#[test]
fn empty_program_is_finished() {
    assert_eq!(Run::begin(Vec::new()).request(), Request::Finished(Ok(())));
}

#[test]
fn tables_that_were_not_stored_are_zero() {
    let program = vec![
        Step::Write(1, Operand::GdtrBase),
        Step::Write(2, Operand::IdtrLimit),
        Step::StoreGdtr,
        Step::Write(3, Operand::GdtrLimit),
        Step::Write(4, Operand::IdtrBase),
    ];
    let (result, writes, _) = drive(Run::begin(program), None);
    assert_eq!(result, Ok(()));
    assert_eq!(writes, vec![(1, 0), (2, 0), (3, 0x57), (4, 0)]);
}

#[test]
fn settle_reads_the_selectors() {
    let segments = vec![
        (Segment::Cs, segmentation::cs().bits()),
        (Segment::Ss, segmentation::ss().bits()),
        (Segment::Ds, segmentation::ds().bits()),
        (Segment::Es, segmentation::es().bits()),
        (Segment::Fs, segmentation::fs().bits()),
        (Segment::Gs, segmentation::gs().bits()),
    ];
    for (segment, selector) in segments {
        let mut run = Run::begin(vec![Step::Write(7, Operand::Selector(segment))]);
        run.settle();
        assert_eq!(run.request(), Request::Vmwrite { field: 7, value: selector as u64 });
        let mut run = Run::begin(vec![Step::Write(7, Operand::HostSelector(segment))]);
        run.settle();
        let value = (selector & 0xf8) as u64;
        assert_eq!(run.request(), Request::Vmwrite { field: 7, value });
        let mut run = Run::begin(vec![Step::Write(7, Operand::Limit(segment))]);
        run.settle();
        assert_eq!(run.request(), Request::SegmentLimit(selector));
    }
}

#[test]
fn settle_reads_the_flags() {
    let mut run = Run::begin(vec![Step::Write(7, Operand::Register(Register::Rflags))]);
    run.settle();
    match run.request() {
        Request::Vmwrite { field, value } => {
            assert_eq!(field, 7);
            assert_eq!(value & 0x202, 0x202);
            assert_eq!(value & !0x3f_7fd7, 0);
        }
        other => panic!("unexpected {:?}", other),
    }
}

#[test]
fn settle_leaves_privileged_requests() {
    for operand in vec![
        Operand::Selector(Segment::Tr),
        Operand::Selector(Segment::Ldtr),
        Operand::Register(Register::Cr0),
        Operand::Msr(0x1d9),
        Operand::Value(5),
    ] {
        let mut run = Run::begin(vec![Step::Write(7, operand)]);
        let request = run.request();
        run.settle();
        assert_eq!(run.request(), request);
    }
}

#[test]
fn guest_mirrors_host() {
    let host_writes = drive(monitor().init_host_register_state(0, STUB), None).1;
    let guest_writes = drive(monitor().init_guest_register_state(0), None).1;
    let value = |writes: &Vec<(u32, u64)>, field: u32| {
        writes.iter().find(|w| w.0 == field).unwrap().1
    };
    for (h, g) in vec![
        (host::CR0, guest::CR0),
        (host::CR3, guest::CR3),
        (host::CR4, guest::CR4),
        (host::RSP, guest::RSP),
        (host::TR_BASE, guest::TR_BASE),
        (host::GDTR_BASE, guest::GDTR_BASE),
        (host::IDTR_BASE, guest::IDTR_BASE),
        (host::FS_BASE, guest::FS_BASE),
        (host::GS_BASE, guest::GS_BASE),
        (host::IA32_SYSENTER_EIP, guest::IA32_SYSENTER_EIP),
    ] {
        assert_eq!(value(&host_writes, h), value(&guest_writes, g));
    }
    assert_eq!(
        value(&host_writes, host::TR_SELECTOR),
        value(&guest_writes, guest::TR_SELECTOR) & 0xf8
    );
}
