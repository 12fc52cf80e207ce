//! What holds of the library as a whole.
use crate::encoding;
use crate::error::HypervisorError;
use crate::program::{self, Operand, Step};
use crate::protocol::{self, Event, Register, Request, Segment, TableRegister};
use crate::run::{self, RunState};
use crate::semantics::{self, Machine, Processor};
use crate::vcpu::{Context, Vcpu, VmcsRegion, VmxonRegion};
use crate::vmm::{self, Vmm};
use vstd::prelude::*;

verus! {

// ---------------------------------------------------------------------------
// Runs
// ---------------------------------------------------------------------------

/// A run goes on properly and comes to an end: after any fitting answer it is
/// still well-formed, and can make fewer requests than before.
pub proof fn law_run_ends(state: RunState, event: Event)
    requires
        state.wf(),
        protocol::answers(state.request, event),
    ensures
        state.resume(event).wf(),
        state.resume(event).program == state.program,
        semantics::remaining(state.resume(event)) < semantics::remaining(state),
{
}

/// A run makes at most three requests for each step of its program.
pub proof fn law_run_is_short(program: Seq<Step>)
    ensures
        RunState::begin(program).wf(),
        semantics::remaining(RunState::begin(program)) <= 3 * program.len(),
{
}

/// A failed write ends a run at once, with the error that the write reported.
pub proof fn law_failed_write_ends_run(state: RunState, error: HypervisorError)
    requires
        state.wf(),
        state.request is Vmwrite,
    ensures
        state.resume(Event::Completed(Err(error))).request == Request::Finished(Err(error)),
{
}

/// The run of a program on a processor, when the step at `at` begins.
spec fn entered(program: Seq<Step>, processor: Processor, at: nat) -> RunState {
    RunState {
        program,
        at,
        gdtr: semantics::gdtr_before(program, processor, at),
        idtr: semantics::idtr_before(program, processor, at),
        request: Request::Finished(Ok(())),
    }.enter(at)
}

/// A step that does not fail writes the value of its operand and hands over
/// to the next one.
proof fn lemma_step_succeeds(program: Seq<Step>, processor: Processor, at: nat)
    requires
        at < program.len(),
        !semantics::fails_at(program, processor, at),
    ensures
        ({
            let (result, writes) = semantics::perform(
                entered(program, processor, at + 1),
                processor,
            );
            semantics::perform(entered(program, processor, at), processor) == (
                result,
                match program[at as int] {
                    Step::Write(field, operand) => seq![
                        (field, semantics::value_at(program, processor, at, operand)),
                    ] + writes,
                    _ => writes,
                },
            )
        }),
{
    reveal_with_fuel(semantics::perform, 4);
    let state = entered(program, processor, at);
    let machine = processor(at);
    let second = state.resume(machine.answer(state.request));
    let third = second.resume(machine.answer(second.request));
    let fourth = third.resume(machine.answer(third.request));
    let next = entered(program, processor, at + 1);
    assert(state.wf() && next.wf());
    match program[at as int] {
        Step::Write(field, operand) => {
            match operand {
                Operand::Limit(_) | Operand::AccessRights(_) | Operand::Base(_) => {
                    assert(second.wf() && third.wf());
                    assert(fourth == next);
                },
                Operand::Value(_) | Operand::GdtrBase | Operand::GdtrLimit | Operand::IdtrBase
                | Operand::IdtrLimit => {
                    assert(second == next);
                },
                _ => {
                    assert(second.wf());
                    assert(third == next);
                },
            }
        },
        _ => {
            assert(second == next);
        },
    }
}

/// A step whose write fails ends the run.
proof fn lemma_step_fails(program: Seq<Step>, processor: Processor, at: nat)
    requires
        at < program.len(),
        semantics::fails_at(program, processor, at),
    ensures
        semantics::perform(entered(program, processor, at), processor) == (
            processor(at).vmwrite,
            Seq::<(u32, u64)>::empty(),
        ),
{
    reveal_with_fuel(semantics::perform, 4);
    let state = entered(program, processor, at);
    let machine = processor(at);
    let second = state.resume(machine.answer(state.request));
    let third = second.resume(machine.answer(second.request));
    let fourth = third.resume(machine.answer(third.request));
    assert(state.wf());
    assert(second.wf());
    assert(second.request is Finished || third.wf());
    assert(second.request is Finished || third.request is Finished || fourth.request is Finished);
}

/// What a run has written before a step comes first in what it writes in all.
proof fn lemma_run_from(program: Seq<Step>, processor: Processor, at: nat)
    requires
        at <= program.len(),
        semantics::succeeds_before(program, processor, at),
    ensures
        ({
            let (result, writes) = semantics::perform(entered(program, processor, at), processor);
            semantics::perform(RunState::begin(program), processor) == (
                result,
                semantics::writes_before(program, processor, at) + writes,
            )
        }),
    decreases at,
{
    if at == 0 {
        assert(entered(program, processor, 0) == RunState::begin(program));
        let writes = semantics::perform(RunState::begin(program), processor).1;
        assert(Seq::<(u32, u64)>::empty() + writes =~= writes);
    } else {
        let before = (at - 1) as nat;
        lemma_run_from(program, processor, before);
        assert(!semantics::fails_at(program, processor, before));
        lemma_step_succeeds(program, processor, before);
        let earlier = semantics::writes_before(program, processor, before);
        let writes = semantics::perform(entered(program, processor, at), processor).1;
        if let Step::Write(field, operand) = program[before as int] {
            let write = (field, semantics::value_at(program, processor, before, operand));
            assert(earlier.push(write) + writes =~= earlier + (seq![write] + writes));
        }
    }
}

/// Where no write fails, a run succeeds, and it has written every field of
/// its program, in the program's order, with the value that its operand had.
pub proof fn law_run_writes_every_field(program: Seq<Step>, processor: Processor)
    requires
        semantics::succeeds_before(program, processor, program.len()),
    ensures
        semantics::perform(RunState::begin(program), processor) == (
            Ok::<(), HypervisorError>(()),
            semantics::writes_before(program, processor, program.len()),
        ),
{
    let end = program.len();
    lemma_run_from(program, processor, end);
    assert(entered(program, processor, end).wf());
    let writes = semantics::writes_before(program, processor, end);
    assert(writes + Seq::<(u32, u64)>::empty() =~= writes);
}

/// The first write that fails decides a run: its error is the result, and
/// what came before it in the program is all that was written.
pub proof fn law_run_stops_at_first_failure(program: Seq<Step>, processor: Processor, at: nat)
    requires
        at < program.len(),
        semantics::succeeds_before(program, processor, at),
        semantics::fails_at(program, processor, at),
    ensures
        semantics::perform(RunState::begin(program), processor) == (
            processor(at).vmwrite,
            semantics::writes_before(program, processor, at),
        ),
{
    lemma_run_from(program, processor, at);
    lemma_step_fails(program, processor, at);
    let writes = semantics::writes_before(program, processor, at);
    assert(writes + Seq::<(u32, u64)>::empty() =~= writes);
}

/// How early a request comes within its step: the earlier, the higher.
spec fn rank(request: Request) -> nat {
    match request {
        Request::Finished(_) => 0,
        Request::ReadSelector(_) => 3,
        Request::Vmwrite { .. } | Request::StoreGdtr | Request::StoreIdtr => 1,
        _ => 2,
    }
}

/// Whether two processors answer alike all that a run can still ask.
spec fn alike(state: RunState, one: Processor, other: Processor) -> bool {
    &&& forall|at: nat| at > state.at ==> #[trigger] one(at) == other(at)
    &&& forall|request: Request|
        rank(request) <= rank(state.request) ==> #[trigger] one(state.at).answer(request)
            == other(state.at).answer(request)
}

/// A run depends on what it can still ask only.
proof fn lemma_alike(state: RunState, one: Processor, other: Processor)
    requires
        state.wf(),
        alike(state, one, other),
    ensures
        semantics::perform(state, one) == semantics::perform(state, other),
    decreases semantics::remaining(state),
{
    if !(state.request is Finished) {
        let event = one(state.at).answer(state.request);
        let next = state.resume(event);
        assert(event == other(state.at).answer(state.request));
        assert(next.at == state.at ==> rank(next.request) < rank(state.request));
        assert(next.at == state.at || next.at == state.at + 1);
        lemma_alike(next, one, other);
    }
}

/// The processor that answers a request with an event, and is otherwise as
/// `machine` is.
spec fn answering(machine: Machine, request: Request, event: Event) -> Machine {
    match (request, event) {
        (Request::ReadRegister(_), Event::Qword(value)) => Machine {
            register: |r: Register| value,
            ..machine
        },
        (Request::ReadSelector(_), Event::Selector(selector)) => Machine {
            selector: |s: Segment| selector,
            ..machine
        },
        (Request::ReadMsr(_), Event::Qword(value)) => Machine { msr: |m: u32| value, ..machine },
        (Request::AdjustControls { .. }, Event::Dword(value)) => Machine {
            controls: |m: u32, c: u32| value,
            ..machine
        },
        (Request::StoreGdtr, Event::Table(table)) => Machine { gdtr: table, ..machine },
        (Request::StoreIdtr, Event::Table(table)) => Machine { idtr: table, ..machine },
        (Request::SegmentLimit(_), Event::Dword(value)) => Machine {
            limit: |s: u16| value,
            ..machine
        },
        (Request::AccessRights(_), Event::Qword(value)) => Machine {
            access_rights: |s: u16| value,
            ..machine
        },
        (Request::SegmentBase { .. }, Event::Qword(value)) => Machine {
            base: |b: u64, s: u16| value,
            ..machine
        },
        (Request::Vmwrite { .. }, Event::Completed(result)) => Machine {
            vmwrite: result,
            ..machine
        },
        _ => machine,
    }
}

/// The processor that gives a run the answers it got.
spec fn processor_of(state: RunState, events: Seq<Event>) -> Processor
    decreases events.len(),
{
    if events.len() == 0 {
        arbitrary()
    } else {
        let later = processor_of(state.resume(events[0]), events.drop_first());
        |at: nat|
            if at == state.at {
                answering(later(at), state.request, events[0])
            } else {
                later(at)
            }
    }
}

/// The processor that gives a run its answers makes it end as it did.
proof fn lemma_processor_of(state: RunState, events: Seq<Event>)
    requires
        state.wf(),
        semantics::fits(state, events),
        semantics::replay(state, events).0.request is Finished,
    ensures
        ({
            let (end, writes) = semantics::replay(state, events);
            semantics::perform(state, processor_of(state, events)) == (
                end.request->Finished_0,
                writes,
            )
        }),
    decreases events.len(),
{
    if events.len() > 0 {
        let event = events[0];
        let next = state.resume(event);
        let later = processor_of(next, events.drop_first());
        let processor = processor_of(state, events);
        law_run_ends(state, event);
        lemma_processor_of(next, events.drop_first());
        assert(processor(state.at).answer(state.request) == event);
        assert(next.at == state.at ==> rank(next.request) < rank(state.request));
        assert(next.at == state.at || next.at == state.at + 1);
        assert(alike(next, processor, later));
        lemma_alike(next, processor, later);
    }
}

/// Whatever answers a program's run got until it ended, there is a processor
/// on which the program performs in just that way. So what holds of a program
/// on every processor holds of every run of it.
pub proof fn law_every_run_is_on_a_processor(program: Seq<Step>, events: Seq<Event>)
    requires
        semantics::fits(RunState::begin(program), events),
        semantics::replay(RunState::begin(program), events).0.request is Finished,
    ensures
        exists|processor: Processor|
            ({
                let (end, writes) = semantics::replay(RunState::begin(program), events);
                #[trigger] semantics::perform(RunState::begin(program), processor) == (
                    end.request->Finished_0,
                    writes,
                )
            }),
{
    lemma_processor_of(RunState::begin(program), events);
}

// ---------------------------------------------------------------------------
// What is left in the VMCS
// ---------------------------------------------------------------------------

/// After the writes of the steps before `end`, those fields hold their
/// operands' values, and the others what they held.
proof fn lemma_written_before(
    vmcs: Map<u32, u64>,
    program: Seq<Step>,
    processor: Processor,
    end: nat,
)
    requires
        end <= program.len(),
        semantics::distinct_fields(program),
    ensures
        ({
            let after = semantics::written(
                vmcs,
                semantics::writes_before(program, processor, end),
            );
            &&& forall|at: int|
                0 <= at < end ==> match #[trigger] program[at] {
                    Step::Write(field, operand) => {
                        &&& after.contains_key(field)
                        &&& after[field] == semantics::value_at(
                            program,
                            processor,
                            at as nat,
                            operand,
                        )
                    },
                    _ => true,
                }
            &&& forall|field: u32|
                !semantics::writes_field(program.take(end as int), field)
                    ==> #[trigger] semantics::unchanged(vmcs, after, field)
        }),
    decreases end,
{
    if end > 0 {
        let last = (end - 1) as nat;
        lemma_written_before(vmcs, program, processor, last);
        let earlier = semantics::writes_before(program, processor, last);
        let writes = semantics::writes_before(program, processor, end);
        let before = semantics::written(vmcs, earlier);
        let after = semantics::written(vmcs, writes);
        let first = program.take(end as int);
        if let Step::Write(field, _) = program[last as int] {
            assert(writes.drop_last() =~= earlier);
            assert(first[last as int] == program[last as int]);
            assert(semantics::writes_field(first, field));
        }
        assert forall|field: u32| !semantics::writes_field(first, field) implies #[trigger]
        semantics::unchanged(vmcs, after, field) by {
            assert forall|at: int| 0 <= at < last implies #[trigger] program.take(last as int)[at]
                == first[at] by {}
            assert(!semantics::writes_field(program.take(last as int), field));
            assert(semantics::unchanged(vmcs, before, field));
        }
    }
}

/// A program that writes no field twice leaves, where no write fails, each of
/// its fields with the value of its operand, and every other field as it was.
pub proof fn law_fields_hold_their_values(
    vmcs: Map<u32, u64>,
    program: Seq<Step>,
    processor: Processor,
)
    requires
        semantics::distinct_fields(program),
        semantics::succeeds_before(program, processor, program.len()),
    ensures
        ({
            let after = semantics::filled(vmcs, program, processor);
            &&& semantics::holds_values(after, program, processor)
            &&& forall|field: u32|
                !semantics::writes_field(program, field)
                    ==> #[trigger] semantics::unchanged(vmcs, after, field)
        }),
{
    law_run_writes_every_field(program, processor);
    lemma_written_before(vmcs, program, processor, program.len());
    assert(program.take(program.len() as int) =~= program);
}

/// Where a write is the first to fail, the fields before it in the program
/// hold their operands' values, and all others what they held.
pub proof fn law_failure_leaves_the_rest(
    vmcs: Map<u32, u64>,
    program: Seq<Step>,
    processor: Processor,
    at: nat,
)
    requires
        semantics::distinct_fields(program),
        at < program.len(),
        semantics::succeeds_before(program, processor, at),
        semantics::fails_at(program, processor, at),
    ensures
        ({
            let after = semantics::filled(vmcs, program, processor);
            &&& semantics::holds_values(after, program.take(at as int), processor)
            &&& forall|field: u32|
                !semantics::writes_field(program.take(at as int), field)
                    ==> #[trigger] semantics::unchanged(vmcs, after, field)
        }),
{
    let first = program.take(at as int);
    law_run_stops_at_first_failure(program, processor, at);
    lemma_written_before(vmcs, program, processor, at);
    assert forall|i: int| 0 <= i < first.len() implies match #[trigger] first[i] {
        Step::Write(_, operand) => semantics::value_at(first, processor, i as nat, operand)
            == semantics::value_at(program, processor, i as nat, operand),
        _ => true,
    } by {
        lemma_tables_of_prefix(program, processor, at, i as nat);
        assert(first[i] == program[i]);
    }
    assert forall|i: int| 0 <= i < first.len() implies #[trigger] first[i] == program[i] by {}
}

/// What was stored before a step depends on the steps before it only.
proof fn lemma_tables_of_prefix(program: Seq<Step>, processor: Processor, end: nat, at: nat)
    requires
        at <= end <= program.len(),
    ensures
        semantics::gdtr_before(program.take(end as int), processor, at)
            == semantics::gdtr_before(program, processor, at),
        semantics::idtr_before(program.take(end as int), processor, at)
            == semantics::idtr_before(program, processor, at),
    decreases at,
{
    if at > 0 {
        lemma_tables_of_prefix(program, processor, end, (at - 1) as nat);
        assert(program.take(end as int)[at - 1] == program[at - 1]);
    }
}

// ---------------------------------------------------------------------------
// The three programs
// ---------------------------------------------------------------------------

/// The control program writes no field twice, and only controls.
pub proof fn law_control_program_writes_controls()
    ensures
        semantics::distinct_fields(program::control_program()),
        semantics::confined(program::control_program(), 0),
{
}

/// The host program writes no field twice, and only into the host-state area.
#[verifier::spinoff_prover]
#[verifier::rlimit(60)]
pub proof fn law_host_program_writes_host_state(context: Context, vmexit_stub: u64)
    ensures
        semantics::distinct_fields(program::host_program(context, vmexit_stub)),
        semantics::confined(program::host_program(context, vmexit_stub), 3),
{
}

/// The guest program writes no field twice, and only into the guest-state
/// area.
#[verifier::spinoff_prover]
#[verifier::rlimit(60)]
pub proof fn law_guest_program_writes_guest_state(context: Context)
    ensures
        semantics::distinct_fields(program::guest_program(context)),
        semantics::confined(program::guest_program(context), 2),
{
}

/// A program that is confined to one area leaves what another one, confined to
/// a different area, has written.
pub proof fn law_areas_are_independent(
    vmcs: Map<u32, u64>,
    earlier: Seq<Step>,
    earlier_processor: Processor,
    earlier_area: int,
    later: Seq<Step>,
    later_processor: Processor,
    later_area: int,
)
    requires
        semantics::holds_values(vmcs, earlier, earlier_processor),
        semantics::confined(earlier, earlier_area),
        semantics::confined(later, later_area),
        earlier_area != later_area,
        semantics::distinct_fields(later),
        semantics::succeeds_before(later, later_processor, later.len()),
    ensures
        semantics::holds_values(
            semantics::filled(vmcs, later, later_processor),
            earlier,
            earlier_processor,
        ),
{
    law_fields_hold_their_values(vmcs, later, later_processor);
    let after = semantics::filled(vmcs, later, later_processor);
    assert forall|at: int| 0 <= at < earlier.len() implies match #[trigger] earlier[at] {
        Step::Write(field, _) => semantics::unchanged(vmcs, after, field),
        _ => true,
    } by {
        if let Step::Write(field, _) = earlier[at] {
            assert(!semantics::writes_field(later, field));
        }
    }
}

/// Once the controls, the host state and the guest state were set up without
/// a failure, the VMCS holds all three.
pub proof fn law_bring_up(
    vmcs: Map<u32, u64>,
    context: Context,
    vmexit_stub: u64,
    control_processor: Processor,
    host_processor: Processor,
    guest_processor: Processor,
)
    requires
        ({
            let control = program::control_program();
            let host = program::host_program(context, vmexit_stub);
            let guest = program::guest_program(context);
            &&& semantics::succeeds_before(control, control_processor, control.len())
            &&& semantics::succeeds_before(host, host_processor, host.len())
            &&& semantics::succeeds_before(guest, guest_processor, guest.len())
        }),
    ensures
        ({
            let control = program::control_program();
            let host = program::host_program(context, vmexit_stub);
            let guest = program::guest_program(context);
            let after = semantics::filled(
                semantics::filled(
                    semantics::filled(vmcs, control, control_processor),
                    host,
                    host_processor,
                ),
                guest,
                guest_processor,
            );
            &&& semantics::holds_values(after, control, control_processor)
            &&& semantics::holds_values(after, host, host_processor)
            &&& semantics::holds_values(after, guest, guest_processor)
        }),
{
    let control = program::control_program();
    let host = program::host_program(context, vmexit_stub);
    let guest = program::guest_program(context);
    law_control_program_writes_controls();
    law_host_program_writes_host_state(context, vmexit_stub);
    law_guest_program_writes_guest_state(context);
    let first = semantics::filled(vmcs, control, control_processor);
    let second = semantics::filled(first, host, host_processor);
    law_fields_hold_their_values(vmcs, control, control_processor);
    law_fields_hold_their_values(first, host, host_processor);
    law_fields_hold_their_values(second, guest, guest_processor);
    law_areas_are_independent(first, control, control_processor, 0, host, host_processor, 3);
    law_areas_are_independent(second, control, control_processor, 0, guest, guest_processor, 2);
    law_areas_are_independent(second, host, host_processor, 3, guest, guest_processor, 2);
}

// ---------------------------------------------------------------------------
// What each field holds
// ---------------------------------------------------------------------------

/// Steps that write, but for those from `first` to `last`, make as many writes.
proof fn lemma_number_of_writes(
    program: Seq<Step>,
    processor: Processor,
    first: int,
    last: int,
    end: nat,
)
    requires
        0 <= first <= last,
        end <= program.len(),
        forall|at: int|
            0 <= at < end ==> (#[trigger] program[at] is Write <==> !(first <= at <= last)),
    ensures
        semantics::writes_before(program, processor, end).len() == if end <= first {
            end as int
        } else if end <= last {
            first
        } else {
            end - (last - first + 1)
        },
    decreases end,
{
    if end > 0 {
        lemma_number_of_writes(program, processor, first, last, (end - 1) as nat);
    }
}

/// After a program that writes no field twice, and in which no write fails, the
/// field of a step holds the value of its operand.
proof fn lemma_field_holds(vmcs: Map<u32, u64>, program: Seq<Step>, processor: Processor, at: nat)
    requires
        semantics::distinct_fields(program),
        semantics::succeeds_before(program, processor, program.len()),
        at < program.len(),
    ensures
        program[at as int] matches Step::Write(field, operand) ==> semantics::filled(
            vmcs,
            program,
            processor,
        ).contains_pair(field, semantics::value_at(program, processor, at, operand)),
{
    law_fields_hold_their_values(vmcs, program, processor);
}

/// Once the controls were set up without a failure, the field of each set of
/// controls holds what its capability register leaves of the wanted bits, and
/// the read shadows hold CR0 and CR4.
pub proof fn law_control_state(vmcs: Map<u32, u64>, processor: Processor)
    requires
        semantics::succeeds_before(
            program::control_program(),
            processor,
            program::control_program().len(),
        ),
    ensures
        semantics::perform(RunState::begin(program::control_program()), processor).0 is Ok,
        semantics::perform(RunState::begin(program::control_program()), processor).1.len() == 7,
        ({
            let after = semantics::filled(vmcs, program::control_program(), processor);
            &&& after.contains_pair(0x4002, (processor(0).controls)(0x482, 0x80000080) as u64)
            &&& after.contains_pair(0x401e, (processor(1).controls)(0x48b, 0x101008) as u64)
            &&& after.contains_pair(0x4012, (processor(2).controls)(0x484, 0x200) as u64)
            &&& after.contains_pair(0x400c, (processor(3).controls)(0x483, 0x8200) as u64)
            &&& after.contains_pair(0x4000, (processor(4).controls)(0x481, 0x0) as u64)
            &&& after.contains_pair(0x6004, (processor(5).register)(Register::Cr0))
            &&& after.contains_pair(0x6006, (processor(6).register)(Register::Cr4))
            &&& forall|field: u32|
                (field / 1024) % 4 != 0 ==> #[trigger] semantics::unchanged(vmcs, after, field)
        }),
{
    assert(0x80u32 | 0x8000_0000u32 == 0x8000_0080u32) by (bit_vector);
    assert(0x8u32 | 0x10_0000u32 | 0x1000u32 == 0x10_1008u32) by (bit_vector);
    assert(0x200u32 | 0x8000u32 == 0x8200u32) by (bit_vector);
    law_control_program_writes_controls();
    let steps = program::control_program();
    law_run_writes_every_field(steps, processor);
    lemma_number_of_writes(steps, processor, 7, 7, steps.len());
    law_fields_hold_their_values(vmcs, steps, processor);
    lemma_field_holds(vmcs, steps, processor, 0);
    lemma_field_holds(vmcs, steps, processor, 1);
    lemma_field_holds(vmcs, steps, processor, 2);
    lemma_field_holds(vmcs, steps, processor, 3);
    lemma_field_holds(vmcs, steps, processor, 4);
    lemma_field_holds(vmcs, steps, processor, 5);
    lemma_field_holds(vmcs, steps, processor, 6);
}

/// Once the host state was set up without a failure, each field of it holds
/// what the processor had for it at that step: its own control registers,
/// selectors (less their privilege level, table indicator and high byte), task
/// segment, descriptor tables and model-specific registers; and the stack
/// pointer is that of the context, the instruction pointer the stub.
#[verifier::spinoff_prover]
#[verifier::rlimit(60)]
pub proof fn law_host_state(
    vmcs: Map<u32, u64>,
    context: Context,
    vmexit_stub: u64,
    processor: Processor,
)
    requires
        semantics::succeeds_before(
            program::host_program(context, vmexit_stub),
            processor,
            program::host_program(context, vmexit_stub).len(),
        ),
    ensures
        semantics::perform(
            RunState::begin(program::host_program(context, vmexit_stub)),
            processor,
        ).0 is Ok,
        semantics::perform(
            RunState::begin(program::host_program(context, vmexit_stub)),
            processor,
        ).1.len() == 20,
        ({
            let after = semantics::filled(
                vmcs,
                program::host_program(context, vmexit_stub),
                processor,
            );
            &&& after.contains_pair(0x6c00, (processor(0).register)(Register::Cr0))
            &&& after.contains_pair(0x6c02, (processor(1).register)(Register::Cr3))
            &&& after.contains_pair(0x6c04, (processor(2).register)(Register::Cr4))
            &&& after.contains_pair(0x6c14, context.rsp)
            &&& after.contains_pair(0x6c16, vmexit_stub)
            &&& after.contains_pair(0xc02, ((processor(5).selector)(Segment::Cs) & 0xf8) as u64)
            &&& after.contains_pair(0xc04, ((processor(6).selector)(Segment::Ss) & 0xf8) as u64)
            &&& after.contains_pair(0xc06, ((processor(7).selector)(Segment::Ds) & 0xf8) as u64)
            &&& after.contains_pair(0xc00, ((processor(8).selector)(Segment::Es) & 0xf8) as u64)
            &&& after.contains_pair(0xc08, ((processor(9).selector)(Segment::Fs) & 0xf8) as u64)
            &&& after.contains_pair(0xc0a, ((processor(10).selector)(Segment::Gs) & 0xf8) as u64)
            &&& after.contains_pair(0xc0c, ((processor(11).selector)(Segment::Tr) & 0xf8) as u64)
            &&& after.contains_pair(
                0x6c0a,
                (processor(14).base)(
                    processor(12).gdtr.base,
                    (processor(14).selector)(Segment::Tr),
                ),
            )
            &&& after.contains_pair(0x6c0c, processor(12).gdtr.base)
            &&& after.contains_pair(0x6c0e, processor(13).idtr.base)
            &&& after.contains_pair(0x4c00, (processor(17).msr)(0x174))
            &&& after.contains_pair(0x6c10, (processor(18).msr)(0x175))
            &&& after.contains_pair(0x6c12, (processor(19).msr)(0x176))
            &&& after.contains_pair(0x6c06, (processor(20).msr)(0xc0000100))
            &&& after.contains_pair(0x6c08, (processor(21).msr)(0xc0000101))
            &&& forall|field: u32|
                (field / 1024) % 4 != 3 ==> #[trigger] semantics::unchanged(vmcs, after, field)
        }),
{
    law_host_program_writes_host_state(context, vmexit_stub);
    reveal_with_fuel(semantics::gdtr_before, 4);
    reveal_with_fuel(semantics::idtr_before, 4);
    let steps = program::host_program(context, vmexit_stub);
    law_run_writes_every_field(steps, processor);
    lemma_number_of_writes(steps, processor, 12, 13, steps.len());
    law_fields_hold_their_values(vmcs, steps, processor);
    lemma_field_holds(vmcs, steps, processor, 0);
    lemma_field_holds(vmcs, steps, processor, 1);
    lemma_field_holds(vmcs, steps, processor, 2);
    lemma_field_holds(vmcs, steps, processor, 3);
    lemma_field_holds(vmcs, steps, processor, 4);
    lemma_field_holds(vmcs, steps, processor, 5);
    lemma_field_holds(vmcs, steps, processor, 6);
    lemma_field_holds(vmcs, steps, processor, 7);
    lemma_field_holds(vmcs, steps, processor, 8);
    lemma_field_holds(vmcs, steps, processor, 9);
    lemma_field_holds(vmcs, steps, processor, 10);
    lemma_field_holds(vmcs, steps, processor, 11);
    lemma_field_holds(vmcs, steps, processor, 14);
    lemma_field_holds(vmcs, steps, processor, 15);
    lemma_field_holds(vmcs, steps, processor, 16);
    lemma_field_holds(vmcs, steps, processor, 17);
    lemma_field_holds(vmcs, steps, processor, 18);
    lemma_field_holds(vmcs, steps, processor, 19);
    lemma_field_holds(vmcs, steps, processor, 20);
    lemma_field_holds(vmcs, steps, processor, 21);
}

/// The descriptor-table registers that the guest's fields are made from are
/// those that were stored in the two steps before.
proof fn lemma_guest_tables(context: Context, processor: Processor)
    ensures
        forall|at: nat|
            32 <= at < 52 ==> #[trigger] semantics::gdtr_before(
                program::guest_program(context),
                processor,
                at,
            ) == processor(31).gdtr,
        forall|at: nat|
            33 <= at < 52 ==> #[trigger] semantics::idtr_before(
                program::guest_program(context),
                processor,
                at,
            ) == processor(32).idtr,
{
    let steps = program::guest_program(context);
    assert(steps[31] is StoreGdtr && steps[32] is StoreIdtr);
    assert forall|at: int| 33 <= at < 52 implies #[trigger] steps[at] is Write by {}
    assert forall|at: nat| 32 <= at < 52 implies #[trigger] semantics::gdtr_before(
        steps,
        processor,
        at,
    ) == processor(31).gdtr by {
        lemma_table_is_kept(steps, processor, 32, at);
    }
    assert forall|at: nat| 33 <= at < 52 implies #[trigger] semantics::idtr_before(
        steps,
        processor,
        at,
    ) == processor(32).idtr by {
        lemma_table_is_kept(steps, processor, 33, at);
    }
}

/// Where nothing is stored, what was stored before is kept.
proof fn lemma_table_is_kept(program: Seq<Step>, processor: Processor, from: nat, at: nat)
    requires
        from <= at <= program.len(),
    ensures
        (forall|i: int| from <= i < at ==> !(#[trigger] program[i] is StoreGdtr))
            ==> semantics::gdtr_before(program, processor, at) == semantics::gdtr_before(
            program,
            processor,
            from,
        ),
        (forall|i: int| from <= i < at ==> !(#[trigger] program[i] is StoreIdtr))
            ==> semantics::idtr_before(program, processor, at) == semantics::idtr_before(
            program,
            processor,
            from,
        ),
    decreases at - from,
{
    if from < at {
        lemma_table_is_kept(program, processor, from, (at - 1) as nat);
    }
}

/// The guest has the control registers, the debug register and the flags of
/// the processor, and the stack and instruction pointer of the context.
#[verifier::spinoff_prover]
#[verifier::rlimit(60)]
pub proof fn law_guest_registers(vmcs: Map<u32, u64>, context: Context, processor: Processor)
    requires
        semantics::succeeds_before(
            program::guest_program(context),
            processor,
            program::guest_program(context).len(),
        ),
    ensures
        ({
            let after = semantics::filled(vmcs, program::guest_program(context), processor);
            &&& after.contains_pair(0x6800, (processor(0).register)(Register::Cr0))
            &&& after.contains_pair(0x6802, (processor(1).register)(Register::Cr3))
            &&& after.contains_pair(0x6804, (processor(2).register)(Register::Cr4))
            &&& after.contains_pair(0x681a, (processor(3).register)(Register::Dr7))
            &&& after.contains_pair(0x681c, context.rsp)
            &&& after.contains_pair(0x681e, context.rip)
            &&& after.contains_pair(0x6820, (processor(6).register)(Register::Rflags))
        }),
{
    let steps = program::guest_program(context);
    law_guest_program_writes_guest_state(context);
    lemma_field_holds(vmcs, steps, processor, 0);
    lemma_field_holds(vmcs, steps, processor, 1);
    lemma_field_holds(vmcs, steps, processor, 2);
    lemma_field_holds(vmcs, steps, processor, 3);
    lemma_field_holds(vmcs, steps, processor, 4);
    lemma_field_holds(vmcs, steps, processor, 5);
    lemma_field_holds(vmcs, steps, processor, 6);
}

/// The guest has the selectors of the processor.
#[verifier::spinoff_prover]
#[verifier::rlimit(60)]
pub proof fn law_guest_selectors(vmcs: Map<u32, u64>, context: Context, processor: Processor)
    requires
        semantics::succeeds_before(
            program::guest_program(context),
            processor,
            program::guest_program(context).len(),
        ),
    ensures
        ({
            let after = semantics::filled(vmcs, program::guest_program(context), processor);
            &&& after.contains_pair(0x802, (processor(7).selector)(Segment::Cs) as u64)
            &&& after.contains_pair(0x804, (processor(8).selector)(Segment::Ss) as u64)
            &&& after.contains_pair(0x806, (processor(9).selector)(Segment::Ds) as u64)
            &&& after.contains_pair(0x800, (processor(10).selector)(Segment::Es) as u64)
            &&& after.contains_pair(0x808, (processor(11).selector)(Segment::Fs) as u64)
            &&& after.contains_pair(0x80a, (processor(12).selector)(Segment::Gs) as u64)
            &&& after.contains_pair(0x80c, (processor(13).selector)(Segment::Ldtr) as u64)
            &&& after.contains_pair(0x80e, (processor(14).selector)(Segment::Tr) as u64)
        }),
{
    let steps = program::guest_program(context);
    law_guest_program_writes_guest_state(context);
    lemma_field_holds(vmcs, steps, processor, 7);
    lemma_field_holds(vmcs, steps, processor, 8);
    lemma_field_holds(vmcs, steps, processor, 9);
    lemma_field_holds(vmcs, steps, processor, 10);
    lemma_field_holds(vmcs, steps, processor, 11);
    lemma_field_holds(vmcs, steps, processor, 12);
    lemma_field_holds(vmcs, steps, processor, 13);
    lemma_field_holds(vmcs, steps, processor, 14);
}

/// For each segment the guest has the limit of the segment that the processor
/// selects there, but for GS, which has the limit of the segment that FS
/// selects.
#[verifier::spinoff_prover]
#[verifier::rlimit(60)]
pub proof fn law_guest_limits(vmcs: Map<u32, u64>, context: Context, processor: Processor)
    requires
        semantics::succeeds_before(
            program::guest_program(context),
            processor,
            program::guest_program(context).len(),
        ),
    ensures
        ({
            let after = semantics::filled(vmcs, program::guest_program(context), processor);
            &&& after.contains_pair(
                0x4802,
                (processor(15).limit)((processor(15).selector)(Segment::Cs)) as u64,
            )
            &&& after.contains_pair(
                0x4804,
                (processor(16).limit)((processor(16).selector)(Segment::Ss)) as u64,
            )
            &&& after.contains_pair(
                0x4806,
                (processor(17).limit)((processor(17).selector)(Segment::Ds)) as u64,
            )
            &&& after.contains_pair(
                0x4800,
                (processor(18).limit)((processor(18).selector)(Segment::Es)) as u64,
            )
            &&& after.contains_pair(
                0x4808,
                (processor(19).limit)((processor(19).selector)(Segment::Fs)) as u64,
            )
            &&& after.contains_pair(
                0x480a,
                (processor(20).limit)((processor(20).selector)(Segment::Fs)) as u64,
            )
            &&& after.contains_pair(
                0x480c,
                (processor(21).limit)((processor(21).selector)(Segment::Ldtr)) as u64,
            )
            &&& after.contains_pair(
                0x480e,
                (processor(22).limit)((processor(22).selector)(Segment::Tr)) as u64,
            )
        }),
{
    let steps = program::guest_program(context);
    law_guest_program_writes_guest_state(context);
    lemma_field_holds(vmcs, steps, processor, 15);
    lemma_field_holds(vmcs, steps, processor, 16);
    lemma_field_holds(vmcs, steps, processor, 17);
    lemma_field_holds(vmcs, steps, processor, 18);
    lemma_field_holds(vmcs, steps, processor, 19);
    lemma_field_holds(vmcs, steps, processor, 20);
    lemma_field_holds(vmcs, steps, processor, 21);
    lemma_field_holds(vmcs, steps, processor, 22);
}

/// For each segment the guest has the access rights of the segment that the
/// processor selects there.
#[verifier::spinoff_prover]
#[verifier::rlimit(60)]
pub proof fn law_guest_access_rights(vmcs: Map<u32, u64>, context: Context, processor: Processor)
    requires
        semantics::succeeds_before(
            program::guest_program(context),
            processor,
            program::guest_program(context).len(),
        ),
    ensures
        ({
            let after = semantics::filled(vmcs, program::guest_program(context), processor);
            &&& after.contains_pair(
                0x4816,
                (processor(23).access_rights)((processor(23).selector)(Segment::Cs)),
            )
            &&& after.contains_pair(
                0x4818,
                (processor(24).access_rights)((processor(24).selector)(Segment::Ss)),
            )
            &&& after.contains_pair(
                0x481a,
                (processor(25).access_rights)((processor(25).selector)(Segment::Ds)),
            )
            &&& after.contains_pair(
                0x4814,
                (processor(26).access_rights)((processor(26).selector)(Segment::Es)),
            )
            &&& after.contains_pair(
                0x481c,
                (processor(27).access_rights)((processor(27).selector)(Segment::Fs)),
            )
            &&& after.contains_pair(
                0x481e,
                (processor(28).access_rights)((processor(28).selector)(Segment::Gs)),
            )
            &&& after.contains_pair(
                0x4820,
                (processor(29).access_rights)((processor(29).selector)(Segment::Ldtr)),
            )
            &&& after.contains_pair(
                0x4822,
                (processor(30).access_rights)((processor(30).selector)(Segment::Tr)),
            )
        }),
{
    let steps = program::guest_program(context);
    law_guest_program_writes_guest_state(context);
    lemma_field_holds(vmcs, steps, processor, 23);
    lemma_field_holds(vmcs, steps, processor, 24);
    lemma_field_holds(vmcs, steps, processor, 25);
    lemma_field_holds(vmcs, steps, processor, 26);
    lemma_field_holds(vmcs, steps, processor, 27);
    lemma_field_holds(vmcs, steps, processor, 28);
    lemma_field_holds(vmcs, steps, processor, 29);
    lemma_field_holds(vmcs, steps, processor, 30);
}

/// The guest has the descriptor-table registers of the processor.
#[verifier::spinoff_prover]
#[verifier::rlimit(60)]
pub proof fn law_guest_tables(vmcs: Map<u32, u64>, context: Context, processor: Processor)
    requires
        semantics::succeeds_before(
            program::guest_program(context),
            processor,
            program::guest_program(context).len(),
        ),
    ensures
        ({
            let after = semantics::filled(vmcs, program::guest_program(context), processor);
            &&& after.contains_pair(0x4810, processor(31).gdtr.limit as u64)
            &&& after.contains_pair(0x4812, processor(32).idtr.limit as u64)
            &&& after.contains_pair(0x6816, processor(31).gdtr.base)
            &&& after.contains_pair(0x6818, processor(32).idtr.base)
        }),
{
    let steps = program::guest_program(context);
    law_guest_program_writes_guest_state(context);
    lemma_guest_tables(context, processor);
    lemma_field_holds(vmcs, steps, processor, 33);
    lemma_field_holds(vmcs, steps, processor, 34);
    lemma_field_holds(vmcs, steps, processor, 35);
    lemma_field_holds(vmcs, steps, processor, 36);
}

/// For each segment that the descriptor table gives a base, the guest has the
/// base of the segment that the processor selects there.
#[verifier::spinoff_prover]
#[verifier::rlimit(60)]
pub proof fn law_guest_bases(vmcs: Map<u32, u64>, context: Context, processor: Processor)
    requires
        semantics::succeeds_before(
            program::guest_program(context),
            processor,
            program::guest_program(context).len(),
        ),
    ensures
        ({
            let after = semantics::filled(vmcs, program::guest_program(context), processor);
            &&& after.contains_pair(
                0x6808,
                (processor(37).base)(
                    processor(31).gdtr.base,
                    (processor(37).selector)(Segment::Cs),
                ),
            )
            &&& after.contains_pair(
                0x680a,
                (processor(38).base)(
                    processor(31).gdtr.base,
                    (processor(38).selector)(Segment::Ss),
                ),
            )
            &&& after.contains_pair(
                0x680c,
                (processor(39).base)(
                    processor(31).gdtr.base,
                    (processor(39).selector)(Segment::Ds),
                ),
            )
            &&& after.contains_pair(
                0x6806,
                (processor(40).base)(
                    processor(31).gdtr.base,
                    (processor(40).selector)(Segment::Es),
                ),
            )
            &&& after.contains_pair(
                0x6812,
                (processor(41).base)(
                    processor(31).gdtr.base,
                    (processor(41).selector)(Segment::Ldtr),
                ),
            )
            &&& after.contains_pair(
                0x6814,
                (processor(42).base)(
                    processor(31).gdtr.base,
                    (processor(42).selector)(Segment::Tr),
                ),
            )
        }),
{
    let steps = program::guest_program(context);
    law_guest_program_writes_guest_state(context);
    lemma_guest_tables(context, processor);
    lemma_field_holds(vmcs, steps, processor, 37);
    lemma_field_holds(vmcs, steps, processor, 38);
    lemma_field_holds(vmcs, steps, processor, 39);
    lemma_field_holds(vmcs, steps, processor, 40);
    lemma_field_holds(vmcs, steps, processor, 41);
    lemma_field_holds(vmcs, steps, processor, 42);
}

/// The guest has the model-specific registers of the processor, and a link
/// pointer that links to nothing.
#[verifier::spinoff_prover]
#[verifier::rlimit(60)]
pub proof fn law_guest_msrs(vmcs: Map<u32, u64>, context: Context, processor: Processor)
    requires
        semantics::succeeds_before(
            program::guest_program(context),
            processor,
            program::guest_program(context).len(),
        ),
    ensures
        ({
            let after = semantics::filled(vmcs, program::guest_program(context), processor);
            &&& after.contains_pair(0x2802, (processor(43).msr)(0x1d9))
            &&& after.contains_pair(0x2803, (processor(44).msr)(0x1d9))
            &&& after.contains_pair(0x482a, (processor(45).msr)(0x174))
            &&& after.contains_pair(0x6824, (processor(46).msr)(0x175))
            &&& after.contains_pair(0x6826, (processor(47).msr)(0x176))
            &&& after.contains_pair(0x2800, u64::MAX)
            &&& after.contains_pair(0x2801, u64::MAX)
            &&& after.contains_pair(0x680e, (processor(50).msr)(0xc0000100))
            &&& after.contains_pair(0x6810, (processor(51).msr)(0xc0000101))
        }),
{
    let steps = program::guest_program(context);
    law_guest_program_writes_guest_state(context);
    lemma_field_holds(vmcs, steps, processor, 43);
    lemma_field_holds(vmcs, steps, processor, 44);
    lemma_field_holds(vmcs, steps, processor, 45);
    lemma_field_holds(vmcs, steps, processor, 46);
    lemma_field_holds(vmcs, steps, processor, 47);
    lemma_field_holds(vmcs, steps, processor, 48);
    lemma_field_holds(vmcs, steps, processor, 49);
    lemma_field_holds(vmcs, steps, processor, 50);
    lemma_field_holds(vmcs, steps, processor, 51);
}

/// Once the guest state was set up without a failure, the run has succeeded,
/// and has left every field outside of the guest-state area as it was.
#[verifier::spinoff_prover]
#[verifier::rlimit(60)]
pub proof fn law_guest_state(vmcs: Map<u32, u64>, context: Context, processor: Processor)
    requires
        semantics::succeeds_before(
            program::guest_program(context),
            processor,
            program::guest_program(context).len(),
        ),
    ensures
        semantics::perform(RunState::begin(program::guest_program(context)), processor).0 is Ok,
        semantics::perform(RunState::begin(program::guest_program(context)), processor).1.len()
            == 50,
        forall|field: u32|
            (field / 1024) % 4 != 2 ==> #[trigger] semantics::unchanged(
                vmcs,
                semantics::filled(vmcs, program::guest_program(context), processor),
                field,
            ),
{
    let steps = program::guest_program(context);
    law_guest_program_writes_guest_state(context);
    law_run_writes_every_field(steps, processor);
    lemma_number_of_writes(steps, processor, 31, 32, steps.len());
    law_fields_hold_their_values(vmcs, steps, processor);
}

/// What each kind of operand is: the register, model-specific register, fitted
/// controls, selector, limit, access rights or base that it names, or what was
/// stored of a descriptor-table register.
pub proof fn law_operands(
    machine: Machine,
    gdtr: TableRegister,
    idtr: TableRegister,
    register: Register,
    segment: Segment,
    number: u32,
    wanted: u32,
    value: u64,
)
    ensures
        machine.operand(Operand::Value(value), gdtr, idtr) == value,
        machine.operand(Operand::Register(register), gdtr, idtr) == (machine.register)(register),
        machine.operand(Operand::Msr(number), gdtr, idtr) == (machine.msr)(number),
        machine.operand(Operand::Controls { msr: number, wanted }, gdtr, idtr)
            == (machine.controls)(number, wanted),
        machine.operand(Operand::Selector(segment), gdtr, idtr) == (machine.selector)(segment),
        machine.operand(Operand::HostSelector(segment), gdtr, idtr)
            == (machine.selector)(segment) & 0xf8,
        machine.operand(Operand::Limit(segment), gdtr, idtr)
            == (machine.limit)((machine.selector)(segment)),
        machine.operand(Operand::AccessRights(segment), gdtr, idtr)
            == (machine.access_rights)((machine.selector)(segment)),
        machine.operand(Operand::Base(segment), gdtr, idtr)
            == (machine.base)(gdtr.base, (machine.selector)(segment)),
        machine.operand(Operand::GdtrBase, gdtr, idtr) == gdtr.base,
        machine.operand(Operand::GdtrLimit, gdtr, idtr) == gdtr.limit,
        machine.operand(Operand::IdtrBase, gdtr, idtr) == idtr.base,
        machine.operand(Operand::IdtrLimit, gdtr, idtr) == idtr.limit,
{
}

/// A descriptor-table register is used as it was stored last: right after it
/// was stored it is the processor's own, any other step keeps it, and before
/// all steps it is 0.
pub proof fn law_stored_tables(program: Seq<Step>, processor: Processor, at: nat)
    requires
        at < program.len(),
    ensures
        semantics::gdtr_before(program, processor, 0) == (TableRegister { base: 0, limit: 0 }),
        semantics::idtr_before(program, processor, 0) == (TableRegister { base: 0, limit: 0 }),
        semantics::gdtr_before(program, processor, at + 1) == if program[at as int]
            == Step::StoreGdtr {
            processor(at).gdtr
        } else {
            semantics::gdtr_before(program, processor, at)
        },
        semantics::idtr_before(program, processor, at + 1) == if program[at as int]
            == Step::StoreIdtr {
            processor(at).idtr
        } else {
            semantics::idtr_before(program, processor, at)
        },
{
}

/// What a processor answers: the register, selector, model-specific register,
/// fitted controls, table register, limit, access rights or base that it is
/// asked for, and how VMWRITE ended.
pub proof fn law_answers(
    machine: Machine,
    register: Register,
    segment: Segment,
    number: u32,
    wanted: u32,
    selector: u16,
    value: u64,
)
    ensures
        machine.answer(Request::ReadRegister(register)) == Event::Qword(
            (machine.register)(register),
        ),
        machine.answer(Request::ReadSelector(segment)) == Event::Selector(
            (machine.selector)(segment),
        ),
        machine.answer(Request::ReadMsr(number)) == Event::Qword((machine.msr)(number)),
        machine.answer(Request::AdjustControls { msr: number, controls: wanted }) == Event::Dword(
            (machine.controls)(number, wanted),
        ),
        machine.answer(Request::StoreGdtr) == Event::Table(machine.gdtr),
        machine.answer(Request::StoreIdtr) == Event::Table(machine.idtr),
        machine.answer(Request::SegmentLimit(selector)) == Event::Dword((machine.limit)(selector)),
        machine.answer(Request::AccessRights(selector)) == Event::Qword(
            (machine.access_rights)(selector),
        ),
        machine.answer(Request::SegmentBase { gdt_base: value, selector }) == Event::Qword(
            (machine.base)(value, selector),
        ),
        machine.answer(Request::Vmwrite { field: number, value }) == Event::Completed(
            machine.vmwrite,
        ),
{
}

/// Whatever a run asks, a processor's answer fits.
pub proof fn law_every_request_is_answered(state: RunState, machine: Machine)
    requires
        state.wf(),
        !(state.request is Finished),
    ensures
        protocol::answers(state.request, machine.answer(state.request)),
{
}

/// A program of a single write, whatever its operand and wherever it goes,
/// writes just what the processor has for that operand, and reports how the
/// write ended. What needs a descriptor-table register uses 0 for it, as none
/// was stored.
pub proof fn law_single_write(processor: Processor, field: u32, operand: Operand)
    ensures
        ({
            let machine = processor(0);
            let none = TableRegister { base: 0, limit: 0 };
            let (result, writes) = semantics::perform(
                RunState::begin(seq![Step::Write(field, operand)]),
                processor,
            );
            let value = match operand {
                Operand::Value(value) => value,
                Operand::Register(register) => (machine.register)(register),
                Operand::Msr(msr) => (machine.msr)(msr),
                Operand::Controls { msr, wanted } => (machine.controls)(msr, wanted) as u64,
                Operand::Selector(segment) => (machine.selector)(segment) as u64,
                Operand::HostSelector(segment) => ((machine.selector)(segment) & 0xf8) as u64,
                Operand::Limit(segment) => (machine.limit)((machine.selector)(segment)) as u64,
                Operand::AccessRights(segment) => (machine.access_rights)(
                    (machine.selector)(segment),
                ),
                Operand::Base(segment) => (machine.base)(0, (machine.selector)(segment)),
                Operand::GdtrBase | Operand::GdtrLimit | Operand::IdtrBase | Operand::IdtrLimit
                => 0,
            };
            &&& machine.vmwrite is Ok ==> result is Ok && writes == seq![(field, value)]
            &&& machine.vmwrite matches Err(error) ==> result
                == Err::<(), HypervisorError>(error) && writes == Seq::<(u32, u64)>::empty()
        }),
{
    let steps = seq![Step::Write(field, operand)];
    reveal_with_fuel(semantics::writes_before, 2);
    if processor(0).vmwrite is Ok {
        law_run_writes_every_field(steps, processor);
    } else {
        law_run_stops_at_first_failure(steps, processor, 0);
    }
}

/// A host selector has privilege level 0, names a descriptor of the GDT, and is
/// the segment's own selector where that holds of it already.
pub proof fn law_host_selectors_are_valid(machine: Machine, segment: Segment)
    ensures
        ({
            let selector = (machine.selector)(segment);
            let held = machine.operand(Operand::HostSelector(segment), machine.gdtr, machine.idtr);
            &&& held % 8 == 0
            &&& held <= 0xf8
            &&& selector % 8 == 0 && selector <= 0xf8 ==> held == selector
        }),
{
    let selector = (machine.selector)(segment);
    assert((selector & 0xf8u16) % 8 == 0) by (bit_vector);
    assert(selector & 0xf8u16 <= 0xf8) by (bit_vector);
    assert(selector % 8 == 0 && selector <= 0xf8 ==> selector & 0xf8u16 == selector)
        by (bit_vector);
}

/// The controls that are asked for: exits on HLT, the secondary controls with
/// RDTSCP, XSAVES and INVPCID, a guest in IA-32e mode, a 64-bit host that
/// acknowledges interrupts, and nothing pin-based. What a VMCS holds is that
/// much as the capability registers allow, and the read shadows are the
/// processor's own control registers.
pub proof fn law_control_words(vmcs: Map<u32, u64>, processor: Processor)
    requires
        semantics::holds_values(vmcs, program::control_program(), processor),
    ensures
        vmcs[encoding::controls().primary] == (processor(0).controls)(0x482, 0x8000_0080) as u64,
        vmcs[encoding::controls().secondary] == (processor(1).controls)(0x48b, 0x10_1008) as u64,
        vmcs[encoding::controls().entry] == (processor(2).controls)(0x484, 0x200) as u64,
        vmcs[encoding::controls().exit] == (processor(3).controls)(0x483, 0x8200) as u64,
        vmcs[encoding::controls().pinbased] == (processor(4).controls)(0x481, 0) as u64,
        vmcs[encoding::controls().cr0_shadow] == (processor(5).register)(Register::Cr0),
        vmcs[encoding::controls().cr4_shadow] == (processor(6).register)(Register::Cr4),
{
    assert(0x80u32 | 0x8000_0000u32 == 0x8000_0080u32) by (bit_vector);
    assert(0x8u32 | 0x10_0000u32 | 0x1000u32 == 0x10_1008u32) by (bit_vector);
    assert(0x200u32 | 0x8000u32 == 0x8200u32) by (bit_vector);
    let control = program::control_program();
    assert(control[0] is Write && control[1] is Write && control[2] is Write && control[3] is Write
        && control[4] is Write && control[5] is Write && control[6] is Write);
}

/// The guest goes on where its context says, linked to no other VMCS, and an
/// exit leads to the stub, on the context's stack.
pub proof fn law_entry_points(
    vmcs: Map<u32, u64>,
    context: Context,
    vmexit_stub: u64,
    host_processor: Processor,
    guest_processor: Processor,
)
    requires
        semantics::holds_values(
            vmcs,
            program::host_program(context, vmexit_stub),
            host_processor,
        ),
        semantics::holds_values(vmcs, program::guest_program(context), guest_processor),
    ensures
        vmcs[encoding::host_registers().rsp] == context.rsp,
        vmcs[encoding::host_registers().rip] == vmexit_stub,
        vmcs[encoding::guest_registers().rsp] == context.rsp,
        vmcs[encoding::guest_registers().rip] == context.rip,
        vmcs[encoding::guest_pairs().link_ptr_full] == u64::MAX,
        vmcs[encoding::guest_pairs().link_ptr_high] == u64::MAX,
{
    let host = program::host_program(context, vmexit_stub);
    let guest = program::guest_program(context);
    assert(host[3] is Write && host[4] is Write);
    assert(guest[4] is Write && guest[5] is Write && guest[48] is Write && guest[49] is Write);
}

/// On a processor that stays as it is, guest and host are set up alike: they
/// share control registers, stack pointer, descriptor tables, task segment,
/// SYSENTER registers and the bases of FS and GS, and each host selector is
/// the guest's one with the mask applied.
#[verifier::spinoff_prover]
#[verifier::rlimit(60)]
pub proof fn law_guest_mirrors_host(
    vmcs: Map<u32, u64>,
    context: Context,
    vmexit_stub: u64,
    machine: Machine,
)
    requires
        semantics::holds_values(
            vmcs,
            program::host_program(context, vmexit_stub),
            semantics::steady(machine),
        ),
        semantics::holds_values(
            vmcs,
            program::guest_program(context),
            semantics::steady(machine),
        ),
    ensures
        vmcs[encoding::guest_control_registers().cr0]
            == vmcs[encoding::host_control_registers().cr0],
        vmcs[encoding::guest_control_registers().cr3]
            == vmcs[encoding::host_control_registers().cr3],
        vmcs[encoding::guest_control_registers().cr4]
            == vmcs[encoding::host_control_registers().cr4],
        vmcs[encoding::guest_registers().rsp] == vmcs[encoding::host_registers().rsp],
        vmcs[encoding::guest_bases().tr] == vmcs[encoding::host_bases().tr],
        vmcs[encoding::guest_bases().fs] == vmcs[encoding::host_bases().fs],
        vmcs[encoding::guest_bases().gs] == vmcs[encoding::host_bases().gs],
        vmcs[encoding::guest_tables().gdtr_base] == vmcs[encoding::host_bases().gdtr],
        vmcs[encoding::guest_tables().idtr_base] == vmcs[encoding::host_bases().idtr],
        vmcs[encoding::guest_sysenter().cs] == vmcs[encoding::host_sysenter().cs],
        vmcs[encoding::guest_sysenter().esp] == vmcs[encoding::host_sysenter().esp],
        vmcs[encoding::guest_sysenter().eip] == vmcs[encoding::host_sysenter().eip],
        masked(vmcs[encoding::guest_selectors().cs], vmcs[encoding::host_selectors().cs]),
        masked(vmcs[encoding::guest_selectors().ss], vmcs[encoding::host_selectors().ss]),
        masked(vmcs[encoding::guest_selectors().ds], vmcs[encoding::host_selectors().ds]),
        masked(vmcs[encoding::guest_selectors().es], vmcs[encoding::host_selectors().es]),
        masked(vmcs[encoding::guest_selectors().fs], vmcs[encoding::host_selectors().fs]),
        masked(vmcs[encoding::guest_selectors().gs], vmcs[encoding::host_selectors().gs]),
        masked(vmcs[encoding::guest_selectors().tr], vmcs[encoding::host_selectors().tr]),
{
    reveal_with_fuel(semantics::gdtr_before, 12);
    reveal_with_fuel(semantics::idtr_before, 12);
    let host = program::host_program(context, vmexit_stub);
    let guest = program::guest_program(context);
    // Control registers and stack pointer.
    assert(host[0] is Write && host[1] is Write && host[2] is Write && host[3] is Write);
    assert(guest[0] is Write && guest[1] is Write && guest[2] is Write && guest[4] is Write);
    // Selectors.
    assert(host[5] is Write && host[6] is Write && host[7] is Write && host[8] is Write
        && host[9] is Write && host[10] is Write && host[11] is Write);
    assert(guest[7] is Write && guest[8] is Write && guest[9] is Write && guest[10] is Write
        && guest[11] is Write && guest[12] is Write && guest[14] is Write);
    // Descriptor tables and the task segment.
    assert(host[14] is Write && host[15] is Write && host[16] is Write);
    assert(guest[35] is Write && guest[36] is Write && guest[42] is Write);
    // Model-specific registers.
    assert(host[17] is Write && host[18] is Write && host[19] is Write && host[20] is Write
        && host[21] is Write);
    assert(guest[45] is Write && guest[46] is Write && guest[47] is Write && guest[50] is Write
        && guest[51] is Write);
}

/// Whether `host` is the selector `guest` with the mask for host selectors
/// applied.
pub open spec fn masked(guest: u64, host: u64) -> bool {
    guest <= u16::MAX && host == (guest as u16 & run::SELECTOR_MASK) as u64
}

// ---------------------------------------------------------------------------
// The regions
// ---------------------------------------------------------------------------

/// Clearing a VMCS: VMCLEAR is executed on the address of the VMCS region,
/// and its result is the result.
pub proof fn law_vmclear(vcpu: Vcpu, result: Result<(), HypervisorError>)
    ensures
        vmm::vmclear_step(vcpu, Event::Begin) == (Request::Vmclear {
            physical_address: vcpu.vmcs_region_physical_address,
        }),
        vmm::vmclear_step(vcpu, Event::Completed(result)) == Request::Finished(result),
{
}

/// How VMXON or VMPTRLD ended is reported as it is, and changes nothing,
/// whatever the virtual processor.
pub proof fn law_instruction_result_is_reported(
    vcpu: Vcpu,
    result: Result<(), HypervisorError>,
)
    ensures
        vmm::vmxon_step(vcpu, Event::Completed(result)) == (vcpu, Request::Finished(result)),
        vmm::vmptrld_step(vcpu, Event::Completed(result)) == (vcpu, Request::Finished(result)),
{
}

/// VMXON and VMPTRLD are executed on the stored address of their own region,
/// with the processor's revision identifier in that region's header, whatever
/// the virtual processor.
pub proof fn law_instructions_get_their_region(vcpu: Vcpu, id: u32)
    ensures
        vmm::vmxon_step(vcpu, Event::RevisionId(id)) == (
            Vcpu { vmxon_region: VmxonRegion { revision_id: id & 0x7fff_ffff }, ..vcpu },
            Request::Vmxon {
                physical_address: vcpu.vmxon_region_physical_address,
                revision_id: id & 0x7fff_ffff,
            },
        ),
        vmm::vmptrld_step(vcpu, Event::RevisionId(id)) == (
            Vcpu { vmcs_region: VmcsRegion { revision_id: id & 0x7fff_ffff }, ..vcpu },
            Request::Vmptrld {
                physical_address: vcpu.vmcs_region_physical_address,
                revision_id: id & 0x7fff_ffff,
            },
        ),
{
}

/// An update of the table puts one virtual processor at one index, and leaves
/// all others and the number of processors.
pub proof fn law_update_is_local(before: Vmm, after: Vmm, index: int, vcpu: Vcpu)
    requires
        0 <= index < before.vcpu_table@.len(),
        after.is_update(before, index, vcpu),
    ensures
        after.processor_count == before.processor_count,
        after.vcpu_table@.len() == before.vcpu_table@.len(),
        after.vcpu_table@[index] == vcpu,
        forall|other: int|
            0 <= other < before.vcpu_table@.len() && other != index
                ==> #[trigger] after.vcpu_table@[other] == before.vcpu_table@[other],
{
}

/// That a monitor or an operand is aligned means that each address is a
/// multiple of 4096.
pub proof fn law_alignment(vmm: Vmm, index: int, physical_address: u64, revision_id: u32)
    requires
        vmm.aligned(),
        0 <= index < vmm.vcpu_table@.len(),
    ensures
        vmm.vcpu_table@[index].vmxon_region_physical_address % 4096 == 0,
        vmm.vcpu_table@[index].vmcs_region_physical_address % 4096 == 0,
        protocol::aligned_operand(Request::Vmxon { physical_address, revision_id }) <==> (
        physical_address % 4096 == 0),
        protocol::aligned_operand(Request::Vmptrld { physical_address, revision_id }) <==> (
        physical_address % 4096 == 0),
        protocol::aligned_operand(Request::Vmclear { physical_address }) <==> (physical_address
            % 4096 == 0),
{
    assert(vmm.vcpu_table@[index].aligned());
}

/// A revision identifier has bit 31 clear, and is the processor's own one
/// where that has.
pub proof fn law_revision_id_has_bit_31_clear(id: u32)
    ensures
        id & vmm::REVISION_ID_BITS < 0x8000_0000,
        id < 0x8000_0000 ==> id & vmm::REVISION_ID_BITS == id,
        id >= 0x8000_0000 ==> id & vmm::REVISION_ID_BITS == id - 0x8000_0000,
{
    assert(id & 0x7fff_ffffu32 < 0x8000_0000) by (bit_vector);
    assert(id < 0x8000_0000 ==> id & 0x7fff_ffffu32 == id) by (bit_vector);
    assert(id >= 0x8000_0000 ==> id & 0x7fff_ffffu32 == id - 0x8000_0000) by (bit_vector);
}

/// Entering VMX operation: without a physical address nothing is executed;
/// with one, VMXON is executed on it, and its result is the result.
pub proof fn law_vmxon(
    vcpu: Vcpu,
    address: u64,
    id: u32,
    result: Result<(), HypervisorError>,
)
    ensures
        semantics::vmxon_run(vcpu, seq![Event::Begin, Event::PhysicalAddress(0)]) == (
            Vcpu { vmxon_region_physical_address: 0, ..vcpu },
            seq![
                Request::TranslateVmxonRegion,
                Request::Finished(Err(HypervisorError::VirtualToPhysicalAddressFailed)),
            ],
        ),
        address != 0 ==> semantics::vmxon_run(
            vcpu,
            seq![
                Event::Begin,
                Event::PhysicalAddress(address),
                Event::RevisionId(id),
                Event::Completed(result),
            ],
        ) == (
            Vcpu {
                vmxon_region: VmxonRegion { revision_id: id & vmm::REVISION_ID_BITS },
                vmxon_region_physical_address: address,
                ..vcpu
            },
            seq![
                Request::TranslateVmxonRegion,
                Request::ReadRevisionId,
                Request::Vmxon {
                    physical_address: address,
                    revision_id: id & vmm::REVISION_ID_BITS,
                },
                Request::Finished(result),
            ],
        ),
{
    reveal_with_fuel(semantics::vmxon_run, 5);
    let short = seq![Event::Begin, Event::PhysicalAddress(0)];
    assert(short.drop_last() =~= seq![Event::Begin]);
    assert(seq![Event::Begin].drop_last() =~= Seq::<Event>::empty());
    let one = seq![Event::Begin];
    let two = one.push(Event::PhysicalAddress(address));
    let three = two.push(Event::RevisionId(id));
    let four = three.push(Event::Completed(result));
    assert(two.drop_last() =~= one && three.drop_last() =~= two && four.drop_last() =~= three);
    assert(four =~= seq![
        Event::Begin,
        Event::PhysicalAddress(address),
        Event::RevisionId(id),
        Event::Completed(result),
    ]);
}

/// Making a VMCS current: without a physical address nothing is executed; with
/// one, VMPTRLD is executed on it, and its result is the result.
pub proof fn law_vmptrld(
    vcpu: Vcpu,
    address: u64,
    id: u32,
    result: Result<(), HypervisorError>,
)
    ensures
        semantics::vmptrld_run(vcpu, seq![Event::Begin, Event::PhysicalAddress(0)]) == (
            Vcpu { vmcs_region_physical_address: 0, ..vcpu },
            seq![
                Request::TranslateVmcsRegion,
                Request::Finished(Err(HypervisorError::VirtualToPhysicalAddressFailed)),
            ],
        ),
        address != 0 ==> semantics::vmptrld_run(
            vcpu,
            seq![
                Event::Begin,
                Event::PhysicalAddress(address),
                Event::RevisionId(id),
                Event::Completed(result),
            ],
        ) == (
            Vcpu {
                vmcs_region: VmcsRegion { revision_id: id & vmm::REVISION_ID_BITS },
                vmcs_region_physical_address: address,
                ..vcpu
            },
            seq![
                Request::TranslateVmcsRegion,
                Request::ReadRevisionId,
                Request::Vmptrld {
                    physical_address: address,
                    revision_id: id & vmm::REVISION_ID_BITS,
                },
                Request::Finished(result),
            ],
        ),
{
    reveal_with_fuel(semantics::vmptrld_run, 5);
    let short = seq![Event::Begin, Event::PhysicalAddress(0)];
    assert(short.drop_last() =~= seq![Event::Begin]);
    assert(seq![Event::Begin].drop_last() =~= Seq::<Event>::empty());
    let one = seq![Event::Begin];
    let two = one.push(Event::PhysicalAddress(address));
    let three = two.push(Event::RevisionId(id));
    let four = three.push(Event::Completed(result));
    assert(two.drop_last() =~= one && three.drop_last() =~= two && four.drop_last() =~= three);
    assert(four =~= seq![
        Event::Begin,
        Event::PhysicalAddress(address),
        Event::RevisionId(id),
        Event::Completed(result),
    ]);
}

/// Where every address that a translation gives is that of a naturally aligned
/// region, each stored address stays so, and VMXON, VMPTRLD and VMCLEAR are
/// executed on such addresses only.
pub proof fn law_operands_are_aligned(vcpu: Vcpu, event: Event)
    requires
        vmm::region_event(event),
        vcpu.aligned(),
        protocol::aligned_event(event),
    ensures
        vmm::vmxon_step(vcpu, event).0.aligned(),
        protocol::aligned_operand(vmm::vmxon_step(vcpu, event).1),
        vmm::vmptrld_step(vcpu, event).0.aligned(),
        protocol::aligned_operand(vmm::vmptrld_step(vcpu, event).1),
        protocol::aligned_operand(vmm::vmclear_step(vcpu, event)),
{
}

/// VMXON is executed on an aligned address other than 0, wherever the
/// translation gave an aligned one, and that address is kept; and likewise
/// VMPTRLD.
pub proof fn law_operands_are_regions(vcpu: Vcpu, address: u64, id: u32)
    requires
        address % 4096 == 0,
    ensures
        ({
            let (after, request) = vmm::vmxon_step(vcpu, Event::PhysicalAddress(address));
            let (end, execute) = vmm::vmxon_step(after, Event::RevisionId(id));
            request == Request::ReadRevisionId ==> {
                &&& execute matches Request::Vmxon { physical_address, .. }
                &&& end.vmxon_region_physical_address == physical_address
                &&& physical_address == address
                &&& physical_address != 0
                &&& physical_address % 4096 == 0
            }
        }),
        ({
            let (after, request) = vmm::vmptrld_step(vcpu, Event::PhysicalAddress(address));
            let (end, execute) = vmm::vmptrld_step(after, Event::RevisionId(id));
            request == Request::ReadRevisionId ==> {
                &&& execute matches Request::Vmptrld { physical_address, .. }
                &&& end.vmcs_region_physical_address == physical_address
                &&& physical_address == address
                &&& physical_address != 0
                &&& physical_address % 4096 == 0
            }
        }),
{
}

/// Directly after VMPTRLD was asked for, VMCLEAR is executed on the same
/// address.
pub proof fn law_vmclear_follows_vmptrld(vcpu: Vcpu, id: u32)
    ensures
        ({
            let (after, request) = vmm::vmptrld_step(vcpu, Event::RevisionId(id));
            &&& request matches Request::Vmptrld { physical_address, .. }
            &&& vmm::vmclear_step(after, Event::Begin) == Request::Vmclear { physical_address }
        }),
{
}

/// The address that VMCLEAR is executed on changes only when the VMCS region
/// is translated anew: no event for the VMXON region changes it, and of those
/// for the VMCS region only a physical address does.
pub proof fn law_vmclear_address_is_kept(vcpu: Vcpu, event: Event)
    requires
        vmm::region_event(event),
    ensures
        vmm::vmclear_step(vmm::vmxon_step(vcpu, event).0, Event::Begin) == vmm::vmclear_step(
            vcpu,
            Event::Begin,
        ),
        !(event is PhysicalAddress) ==> vmm::vmclear_step(
            vmm::vmptrld_step(vcpu, event).0,
            Event::Begin,
        ) == vmm::vmclear_step(vcpu, Event::Begin),
{
}

/// The two regions of a virtual processor do not depend on each other: events
/// for one and for the other may come in either order, and neither touches the
/// context.
pub proof fn law_regions_are_independent(vcpu: Vcpu, first: Event, second: Event)
    requires
        vmm::region_event(first),
        vmm::region_event(second),
    ensures
        ({
            let (vmxon, vmxon_request) = vmm::vmxon_step(vcpu, first);
            let (vmptrld, vmptrld_request) = vmm::vmptrld_step(vcpu, second);
            &&& vmm::vmptrld_step(vmxon, second) == (
                vmm::vmxon_step(vmptrld, first).0,
                vmptrld_request,
            )
            &&& vmm::vmxon_step(vmptrld, first).1 == vmxon_request
            &&& vmm::vmptrld_step(vmxon, second).0.context == vcpu.context
        }),
{
}

} // verus!
