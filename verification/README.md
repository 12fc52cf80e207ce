# hypervisor

The bring-up of an Intel VT-x virtual machine monitor, verified with Verus.

The library decides which region is handed to which VMX instruction, which
VMCS field gets which value, in which order, and what a failure leads to. The
privileged instructions themselves are requests that the surrounding program
carries out and answers.

- `src/vmm.rs`: the monitor and its table of virtual processors.
- `src/program.rs`: the programs that fill the controls, the host-state area
  and the guest-state area of a VMCS.
- `src/run.rs`: the run of a program, one request at a time.
- `src/protocol.rs`: requests and events.
- `src/encoding.rs`: the numbers of fields, registers and control bits, taken
  from the `x86` crate.
- `src/processor.rs`: reads that need no privilege, and single bits.
- `src/semantics.rs`: what a program means on a processor.
- `src/laws.rs`: what holds of the whole.
- `app/`: carries out the requests on a machine.
