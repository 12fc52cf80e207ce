//! The run of a program: one request at a time, until every step is done or a
//! write fails.
use crate::processor;
use crate::program::{Operand, Step};
use crate::protocol::{self, Event, Register, Request, Segment, TableRegister};
use vstd::prelude::*;

verus! {

/// What a host selector may hold: the index of one of the first 32
/// descriptors of the GDT, privilege level 0.
pub const SELECTOR_MASK: u16 = 0xf8;

/// Where a run stands.
pub ghost struct RunState {
    /// The program.
    pub program: Seq<Step>,
    /// The step that is being performed.
    pub at: nat,
    /// GDTR, as it was last stored.
    pub gdtr: TableRegister,
    /// IDTR, as it was last stored.
    pub idtr: TableRegister,
    /// What is to be done next.
    pub request: Request,
}

/// The segment whose selector an operand is made from, if it is made from one.
pub open spec fn operand_segment(operand: Operand) -> Option<Segment> {
    match operand {
        Operand::Selector(segment) | Operand::HostSelector(segment) | Operand::Limit(segment)
        | Operand::AccessRights(segment) | Operand::Base(segment) => Some(segment),
        _ => None,
    }
}

/// What a step asks first.
pub open spec fn first_request(step: Step, gdtr: TableRegister, idtr: TableRegister) -> Request {
    match step {
        Step::StoreGdtr => Request::StoreGdtr,
        Step::StoreIdtr => Request::StoreIdtr,
        Step::Write(field, operand) => match operand {
            Operand::Value(value) => Request::Vmwrite { field, value },
            Operand::Register(register) => Request::ReadRegister(register),
            Operand::Msr(msr) => Request::ReadMsr(msr),
            Operand::Controls { msr, wanted } => Request::AdjustControls { msr, controls: wanted },
            Operand::Selector(segment) | Operand::HostSelector(segment) | Operand::Limit(segment)
            | Operand::AccessRights(segment) | Operand::Base(segment) => Request::ReadSelector(
                segment,
            ),
            Operand::GdtrBase => Request::Vmwrite { field, value: gdtr.base },
            Operand::GdtrLimit => Request::Vmwrite { field, value: gdtr.limit as u64 },
            Operand::IdtrBase => Request::Vmwrite { field, value: idtr.base },
            Operand::IdtrLimit => Request::Vmwrite { field, value: idtr.limit as u64 },
        },
    }
}

/// What a step that writes `operand` into `field` asks once it has the
/// selector.
pub open spec fn request_on_selector(
    field: u32,
    operand: Operand,
    gdtr: TableRegister,
    selector: u16,
) -> Request {
    match operand {
        Operand::HostSelector(_) => Request::Vmwrite {
            field,
            value: (selector & SELECTOR_MASK) as u64,
        },
        Operand::Limit(_) => Request::SegmentLimit(selector),
        Operand::AccessRights(_) => Request::AccessRights(selector),
        Operand::Base(_) => Request::SegmentBase { gdt_base: gdtr.base, selector },
        _ => Request::Vmwrite { field, value: selector as u64 },
    }
}

/// Whether `request` can be pending while `step` is performed.
pub open spec fn asked_by(step: Step, request: Request) -> bool {
    match step {
        Step::StoreGdtr => request == Request::StoreGdtr,
        Step::StoreIdtr => request == Request::StoreIdtr,
        Step::Write(field, operand) => match request {
            Request::Vmwrite { field: written, .. } => written == field,
            Request::ReadRegister(register) => operand == Operand::Register(register),
            Request::ReadMsr(msr) => operand == Operand::Msr(msr),
            Request::AdjustControls { msr, controls } => operand == (Operand::Controls {
                msr,
                wanted: controls,
            }),
            Request::ReadSelector(segment) => operand_segment(operand) == Some(segment),
            Request::SegmentLimit(_) => operand is Limit,
            Request::AccessRights(_) => operand is AccessRights,
            Request::SegmentBase { .. } => operand is Base,
            _ => false,
        },
    }
}

/// Whether the processor answers a request without privilege.
pub open spec fn unprivileged(request: Request) -> bool {
    match request {
        Request::ReadRegister(register) => register is Rflags,
        Request::ReadSelector(segment) => !(segment is Ldtr || segment is Tr),
        _ => false,
    }
}

impl RunState {
    /// The run of a program before anything was done.
    pub open spec fn begin(program: Seq<Step>) -> RunState {
        RunState {
            program,
            at: 0,
            gdtr: TableRegister { base: 0, limit: 0 },
            idtr: TableRegister { base: 0, limit: 0 },
            request: Request::Finished(Ok(())),
        }.enter(0)
    }

    /// The run when the step at `at` begins, or when there is no such step any
    /// more.
    pub open spec fn enter(self, at: nat) -> RunState {
        RunState {
            at,
            request: if at < self.program.len() {
                first_request(self.program[at as int], self.gdtr, self.idtr)
            } else {
                Request::Finished(Ok(()))
            },
            ..self
        }
    }

    /// The run with another request pending.
    pub open spec fn asking(self, request: Request) -> RunState {
        RunState { request, ..self }
    }

    /// A pending request is one that the current step can ask.
    pub open spec fn wf(self) -> bool {
        &&& self.at <= self.program.len()
        &&& self.request is Finished || {
            &&& self.at < self.program.len()
            &&& asked_by(self.program[self.at as int], self.request)
        }
    }

    /// The run after the pending request was answered.
    pub open spec fn resume(self, event: Event) -> RunState
        recommends
            self.wf(),
            protocol::answers(self.request, event),
    {
        match event {
            Event::Completed(Ok(_)) => self.enter(self.at + 1),
            Event::Completed(Err(error)) => self.asking(Request::Finished(Err(error))),
            Event::Table(table) => if self.request == Request::StoreGdtr {
                RunState { gdtr: table, ..self }.enter(self.at + 1)
            } else {
                RunState { idtr: table, ..self }.enter(self.at + 1)
            },
            Event::Selector(selector) => match self.program[self.at as int] {
                Step::Write(field, operand) => self.asking(
                    request_on_selector(field, operand, self.gdtr, selector),
                ),
                _ => self,
            },
            Event::Dword(value) => match self.program[self.at as int] {
                Step::Write(field, _) => self.asking(
                    Request::Vmwrite { field, value: value as u64 },
                ),
                _ => self,
            },
            Event::Qword(value) => match self.program[self.at as int] {
                Step::Write(field, _) => self.asking(Request::Vmwrite { field, value }),
                _ => self,
            },
            _ => self,
        }
    }
}

/// How far a run has come.
#[derive(Clone, Copy)]
struct Progress {
    at: usize,
    gdtr: TableRegister,
    idtr: TableRegister,
    request: Request,
}

/// A run of a program.
pub struct Run {
    program: Vec<Step>,
    progress: Progress,
}

impl View for Run {
    type V = RunState;

    closed spec fn view(&self) -> RunState {
        state_of(self.program@, self.progress)
    }
}

/// Where the run of a program stands that has come so far.
spec fn state_of(program: Seq<Step>, progress: Progress) -> RunState {
    RunState {
        program,
        at: progress.at as nat,
        gdtr: progress.gdtr,
        idtr: progress.idtr,
        request: progress.request,
    }
}

impl Run {
    #[verifier::type_invariant]
    spec fn well_formed(self) -> bool {
        self@.wf()
    }

    /// Begins to run a program.
    pub fn begin(program: Vec<Step>) -> (run: Run)
        ensures
            run@ == RunState::begin(program@),
            run@.wf(),
    {
        let table = TableRegister { base: 0, limit: 0 };
        let progress = enter(&program, 0, table, table);
        Run { program, progress }
    }

    /// What is to be done next.
    pub fn request(&self) -> (request: Request)
        ensures
            request == self@.request,
    {
        self.progress.request
    }

    /// Goes on with the answer to the pending request. A failed write ends the
    /// run with its error.
    pub fn resume(&mut self, event: Event)
        requires
            protocol::answers(old(self)@.request, event),
        ensures
            old(self)@.wf(),
            final(self)@ == old(self)@.resume(event),
            final(self)@.wf(),
    {
        proof {
            use_type_invariant(&*self);
        }
        let Progress { at, gdtr, idtr, request } = self.progress;
        assert(at < self.program.len());
        let progress = match event {
            Event::Completed(Ok(_)) => enter(&self.program, at + 1, gdtr, idtr),
            Event::Completed(Err(error)) => Progress {
                at,
                gdtr,
                idtr,
                request: Request::Finished(Err(error)),
            },
            Event::Table(table) => {
                if let Request::StoreGdtr = request {
                    enter(&self.program, at + 1, table, idtr)
                } else {
                    enter(&self.program, at + 1, gdtr, table)
                }
            },
            _ => match self.program[at] {
                Step::Write(field, operand) => Progress {
                    at,
                    gdtr,
                    idtr,
                    request: match event {
                        Event::Selector(selector) => on_selector(field, operand, gdtr, selector),
                        Event::Dword(value) => Request::Vmwrite { field, value: value as u64 },
                        Event::Qword(value) => Request::Vmwrite { field, value },
                        _ => request,
                    },
                },
                _ => Progress { at, gdtr, idtr, request },
            },
        };
        self.progress = progress;
    }

    /// Answers the pending request where the processor does so without
    /// privilege: a segment register's selector, or the flags.
    ///
    /// The run goes on with what the read of that very register returned. What
    /// the register holds is the machine's affair, and the contract does not
    /// tell it.
    pub fn settle(&mut self)
        ensures
            old(self)@.wf(),
            final(self)@.wf(),
            !unprivileged(final(self)@.request),
            final(self)@.request != Request::ReadRegister(Register::Rflags),
            final(self)@.request matches Request::ReadSelector(segment) ==> {
                segment == Segment::Ldtr || segment == Segment::Tr
            },
            !unprivileged(old(self)@.request) ==> final(self)@ == old(self)@,
            old(self)@.request == Request::ReadSelector(Segment::Ldtr) ==> {
                final(self)@ == old(self)@
            },
            old(self)@.request == Request::ReadSelector(Segment::Tr) ==> final(self)@ == old(self)@,
            !(old(self)@.request is ReadSelector) && old(self)@.request != Request::ReadRegister(
                Register::Rflags,
            ) ==> final(self)@ == old(self)@,
            old(self)@.request matches Request::ReadSelector(segment) ==> {
                segment == Segment::Ldtr || segment == Segment::Tr || exists|selector: u16|
                    final(self)@ == #[trigger] old(self)@.resume(Event::Selector(selector))
                        && processor::selector_read(segment, selector)
            },
            old(self)@.request == Request::ReadRegister(Register::Rflags) ==> {
                exists|flags: u64|
                    final(self)@ == #[trigger] old(self)@.resume(Event::Qword(flags))
                        && processor::flags_read(flags)
                        && flags & !processor::RFLAGS_BITS == 0 && flags & 2 == 2
            },
    {
        proof {
            use_type_invariant(&*self);
        }
        match self.progress.request {
            Request::ReadRegister(Register::Rflags) => {
                let flags = processor::read_own_flags();
                self.resume(Event::Qword(flags));
            },
            Request::ReadSelector(segment) => {
                if let Some(selector) = processor::read_own_selector(segment) {
                    self.resume(Event::Selector(selector));
                }
            },
            _ => {},
        }
    }
}

/// Begins the step at `at`, or ends the run where there is none.
fn enter(program: &Vec<Step>, at: usize, gdtr: TableRegister, idtr: TableRegister) -> (progress:
    Progress)
    requires
        at <= program@.len(),
    ensures
        progress.gdtr == gdtr,
        progress.idtr == idtr,
        state_of(program@, progress) == state_of(program@, progress).enter(at as nat),
        state_of(program@, progress).wf(),
{
    let request = if at < program.len() {
        on_entry(program[at], gdtr, idtr)
    } else {
        Request::Finished(Ok(()))
    };
    Progress { at, gdtr, idtr, request }
}

/// What a step asks first.
fn on_entry(step: Step, gdtr: TableRegister, idtr: TableRegister) -> (request: Request)
    ensures
        request == first_request(step, gdtr, idtr),
        asked_by(step, request),
{
    match step {
        Step::StoreGdtr => Request::StoreGdtr,
        Step::StoreIdtr => Request::StoreIdtr,
        Step::Write(field, operand) => match operand {
            Operand::Value(value) => Request::Vmwrite { field, value },
            Operand::Register(register) => Request::ReadRegister(register),
            Operand::Msr(msr) => Request::ReadMsr(msr),
            Operand::Controls { msr, wanted } => Request::AdjustControls {
                msr,
                controls: wanted,
            },
            Operand::Selector(segment)
            | Operand::HostSelector(segment)
            | Operand::Limit(segment)
            | Operand::AccessRights(segment)
            | Operand::Base(segment) => Request::ReadSelector(segment),
            Operand::GdtrBase => Request::Vmwrite { field, value: gdtr.base },
            Operand::GdtrLimit => Request::Vmwrite { field, value: gdtr.limit as u64 },
            Operand::IdtrBase => Request::Vmwrite { field, value: idtr.base },
            Operand::IdtrLimit => Request::Vmwrite { field, value: idtr.limit as u64 },
        },
    }
}

/// What a step asks once it has the selector.
fn on_selector(field: u32, operand: Operand, gdtr: TableRegister, selector: u16) -> (request:
    Request)
    ensures
        request == request_on_selector(field, operand, gdtr, selector),
        asked_by(Step::Write(field, operand), request),
        !unprivileged(request),
{
    match operand {
        Operand::HostSelector(_) => Request::Vmwrite {
            field,
            value: (selector & SELECTOR_MASK) as u64,
        },
        Operand::Limit(_) => Request::SegmentLimit(selector),
        Operand::AccessRights(_) => Request::AccessRights(selector),
        Operand::Base(_) => Request::SegmentBase { gdt_base: gdtr.base, selector },
        _ => Request::Vmwrite { field, value: selector as u64 },
    }
}

} // verus!
