//! What a program means: on a processor, it leaves certain values in certain
//! fields of the current VMCS.
use crate::error::HypervisorError;
use crate::program::{Operand, Step};
use crate::protocol::{self, Event, Register, Request, Segment, TableRegister};
use crate::run::{RunState, SELECTOR_MASK};
use crate::vcpu::Vcpu;
use crate::vmm;
use vstd::prelude::*;

verus! {

/// A processor as it is while one step is performed.
pub ghost struct Machine {
    /// The registers.
    pub register: spec_fn(Register) -> u64,
    /// The selectors.
    pub selector: spec_fn(Segment) -> u16,
    /// The model-specific registers.
    pub msr: spec_fn(u32) -> u64,
    /// Control bits, fitted to a capability register.
    pub controls: spec_fn(u32, u32) -> u32,
    /// GDTR.
    pub gdtr: TableRegister,
    /// IDTR.
    pub idtr: TableRegister,
    /// The limit of the segment that a selector names.
    pub limit: spec_fn(u16) -> u32,
    /// The access rights of the segment that a selector names.
    pub access_rights: spec_fn(u16) -> u64,
    /// The base of the segment that a selector names in the GDT at an address.
    pub base: spec_fn(u64, u16) -> u64,
    /// How a VMWRITE ends.
    pub vmwrite: Result<(), HypervisorError>,
}

impl Machine {
    /// What the processor answers to a request of a run.
    pub open spec fn answer(self, request: Request) -> Event {
        match request {
            Request::ReadRegister(register) => Event::Qword((self.register)(register)),
            Request::ReadSelector(segment) => Event::Selector((self.selector)(segment)),
            Request::ReadMsr(msr) => Event::Qword((self.msr)(msr)),
            Request::AdjustControls { msr, controls } => Event::Dword(
                (self.controls)(msr, controls),
            ),
            Request::StoreGdtr => Event::Table(self.gdtr),
            Request::StoreIdtr => Event::Table(self.idtr),
            Request::SegmentLimit(selector) => Event::Dword((self.limit)(selector)),
            Request::AccessRights(selector) => Event::Qword((self.access_rights)(selector)),
            Request::SegmentBase { gdt_base, selector } => Event::Qword(
                (self.base)(gdt_base, selector),
            ),
            Request::Vmwrite { .. } => Event::Completed(self.vmwrite),
            _ => Event::Begin,
        }
    }

    /// The value of an operand, where the descriptor-table registers were
    /// stored as `gdtr` and `idtr`.
    pub open spec fn operand(
        self,
        operand: Operand,
        gdtr: TableRegister,
        idtr: TableRegister,
    ) -> u64 {
        match operand {
            Operand::Value(value) => value,
            Operand::Register(register) => (self.register)(register),
            Operand::Msr(msr) => (self.msr)(msr),
            Operand::Controls { msr, wanted } => (self.controls)(msr, wanted) as u64,
            Operand::Selector(segment) => (self.selector)(segment) as u64,
            Operand::HostSelector(segment) => ((self.selector)(segment) & SELECTOR_MASK) as u64,
            Operand::Limit(segment) => (self.limit)((self.selector)(segment)) as u64,
            Operand::AccessRights(segment) => (self.access_rights)((self.selector)(segment)),
            Operand::Base(segment) => (self.base)(gdtr.base, (self.selector)(segment)),
            Operand::GdtrBase => gdtr.base,
            Operand::GdtrLimit => gdtr.limit as u64,
            Operand::IdtrBase => idtr.base,
            Operand::IdtrLimit => idtr.limit as u64,
        }
    }
}

/// A processor over time: what it is while the step at each index of a program
/// is performed. Nothing ties one moment to another.
pub type Processor = spec_fn(nat) -> Machine;

/// A processor that stays as it is.
pub open spec fn steady(machine: Machine) -> Processor {
    |at: nat| machine
}

/// How many requests a run can still make.
pub open spec fn remaining(run: RunState) -> nat {
    let later = 3 * (run.program.len() - run.at - 1);
    match run.request {
        Request::Finished(_) => 0,
        Request::ReadSelector(_) => (later + 3) as nat,
        Request::Vmwrite { .. } | Request::StoreGdtr | Request::StoreIdtr => (later + 1) as nat,
        _ => (later + 2) as nat,
    }
}

/// How a run ends on a processor, and the fields that were written until then
/// with their values.
pub open spec fn perform(run: RunState, processor: Processor) -> (
    Result<(), HypervisorError>,
    Seq<(u32, u64)>,
)
    decreases remaining(run),
    when run.wf()
    via perform_ends
{
    match run.request {
        Request::Finished(result) => (result, Seq::empty()),
        Request::Vmwrite { field, value } => {
            let event = processor(run.at).answer(run.request);
            let (result, writes) = perform(run.resume(event), processor);
            if event matches Event::Completed(Ok(_)) {
                (result, seq![(field, value)] + writes)
            } else {
                (result, writes)
            }
        },
        _ => perform(run.resume(processor(run.at).answer(run.request)), processor),
    }
}

#[via_fn]
proof fn perform_ends(run: RunState, processor: Processor) {
}

/// Whether each of a number of events answers what a run asks by then.
pub open spec fn fits(run: RunState, events: Seq<Event>) -> bool
    decreases events.len(),
{
    events.len() == 0 || {
        &&& protocol::answers(run.request, events[0])
        &&& fits(run.resume(events[0]), events.drop_first())
    }
}

/// A run after a number of events, and what was written by then.
pub open spec fn replay(run: RunState, events: Seq<Event>) -> (RunState, Seq<(u32, u64)>)
    decreases events.len(),
{
    if events.len() == 0 {
        (run, Seq::empty())
    } else {
        let (end, writes) = replay(run.resume(events[0]), events.drop_first());
        match (run.request, events[0]) {
            (Request::Vmwrite { field, value }, Event::Completed(Ok(_))) => (
                end,
                seq![(field, value)] + writes,
            ),
            _ => (end, writes),
        }
    }
}

/// GDTR, as it was last stored before the step at `at`.
pub open spec fn gdtr_before(program: Seq<Step>, processor: Processor, at: nat) -> TableRegister
    decreases at,
{
    if at == 0 {
        TableRegister { base: 0, limit: 0 }
    } else if program[at - 1] is StoreGdtr {
        processor((at - 1) as nat).gdtr
    } else {
        gdtr_before(program, processor, (at - 1) as nat)
    }
}

/// IDTR, as it was last stored before the step at `at`.
pub open spec fn idtr_before(program: Seq<Step>, processor: Processor, at: nat) -> TableRegister
    decreases at,
{
    if at == 0 {
        TableRegister { base: 0, limit: 0 }
    } else if program[at - 1] is StoreIdtr {
        processor((at - 1) as nat).idtr
    } else {
        idtr_before(program, processor, (at - 1) as nat)
    }
}

/// The value that an operand has in the step at `at`.
pub open spec fn value_at(
    program: Seq<Step>,
    processor: Processor,
    at: nat,
    operand: Operand,
) -> u64 {
    processor(at).operand(
        operand,
        gdtr_before(program, processor, at),
        idtr_before(program, processor, at),
    )
}

/// What the steps before `end` write.
pub open spec fn writes_before(program: Seq<Step>, processor: Processor, end: nat) -> Seq<
    (u32, u64),
>
    decreases end,
{
    if end == 0 {
        Seq::empty()
    } else {
        let at = (end - 1) as nat;
        let earlier = writes_before(program, processor, at);
        match program[at as int] {
            Step::Write(field, operand) => earlier.push(
                (field, value_at(program, processor, at, operand)),
            ),
            _ => earlier,
        }
    }
}

/// Whether the step at `at` is a write that fails.
pub open spec fn fails_at(program: Seq<Step>, processor: Processor, at: nat) -> bool {
    program[at as int] is Write && processor(at).vmwrite is Err
}

/// Whether no write before `end` fails.
pub open spec fn succeeds_before(program: Seq<Step>, processor: Processor, end: nat) -> bool {
    forall|at: nat| at < end ==> !#[trigger] fails_at(program, processor, at)
}

/// A VMCS after a number of writes.
pub open spec fn written(vmcs: Map<u32, u64>, writes: Seq<(u32, u64)>) -> Map<u32, u64>
    decreases writes.len(),
{
    if writes.len() == 0 {
        vmcs
    } else {
        written(vmcs, writes.drop_last()).insert(writes.last().0, writes.last().1)
    }
}

/// Whether a field is in one VMCS what it is in another.
pub open spec fn unchanged(before: Map<u32, u64>, after: Map<u32, u64>, field: u32) -> bool {
    &&& after.contains_key(field) == before.contains_key(field)
    &&& before.contains_key(field) ==> after[field] == before[field]
}

/// A VMCS after a program was run on a processor.
pub open spec fn filled(
    vmcs: Map<u32, u64>,
    program: Seq<Step>,
    processor: Processor,
) -> Map<u32, u64> {
    written(vmcs, perform(RunState::begin(program), processor).1)
}

/// Whether a program writes a field.
pub open spec fn writes_field(program: Seq<Step>, field: u32) -> bool {
    exists|at: int|
        0 <= at < program.len() && (#[trigger] program[at] matches Step::Write(written, _)
            && written == field)
}

/// Whether a program writes no field twice.
pub open spec fn distinct_fields(program: Seq<Step>) -> bool {
    forall|i: int, j: int|
        0 <= i < j < program.len() ==> match (#[trigger] program[i], #[trigger] program[j]) {
            (Step::Write(first, _), Step::Write(second, _)) => first != second,
            _ => true,
        }
}

/// Whether each field that a program writes holds in `vmcs` the value that
/// its operand had.
pub open spec fn holds_values(
    vmcs: Map<u32, u64>,
    program: Seq<Step>,
    processor: Processor,
) -> bool {
    forall|at: int|
        0 <= at < program.len() ==> match #[trigger] program[at] {
            Step::Write(field, operand) => {
                &&& vmcs.contains_key(field)
                &&& vmcs[field] == value_at(program, processor, at as nat, operand)
            },
            _ => true,
        }
}

/// What events do to a virtual processor that enters VMX operation, and what
/// is asked after each.
pub open spec fn vmxon_run(vcpu: Vcpu, events: Seq<Event>) -> (Vcpu, Seq<Request>)
    decreases events.len(),
{
    if events.len() == 0 {
        (vcpu, Seq::empty())
    } else {
        let (before, requests) = vmxon_run(vcpu, events.drop_last());
        let (after, request) = vmm::vmxon_step(before, events.last());
        (after, requests.push(request))
    }
}

/// What events do to a virtual processor whose VMCS is made current, and what
/// is asked after each.
pub open spec fn vmptrld_run(vcpu: Vcpu, events: Seq<Event>) -> (Vcpu, Seq<Request>)
    decreases events.len(),
{
    if events.len() == 0 {
        (vcpu, Seq::empty())
    } else {
        let (before, requests) = vmptrld_run(vcpu, events.drop_last());
        let (after, request) = vmm::vmptrld_step(before, events.last());
        (after, requests.push(request))
    }
}

/// The area of the VMCS that a field belongs to, by its number: 0 for the
/// controls, 2 for the guest state, 3 for the host state
/// (Intel Manual: Appendix B).
pub open spec fn area(field: u32) -> int {
    (field as int / 1024) % 4
}

/// Whether a program writes into one area only.
pub open spec fn confined(program: Seq<Step>, to: int) -> bool {
    forall|at: int|
        0 <= at < program.len() ==> match #[trigger] program[at] {
            Step::Write(field, _) => area(field) == to,
            _ => true,
        }
}

} // verus!
