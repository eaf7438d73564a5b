//! The machine as a whole: a processor wired to its bus.

use vstd::prelude::*;
use crate::cpu::{Cpu, START_ADDR};
use crate::semantics::{
    initial_machine, machine_fault, machine_loaded, machine_stepped, ExecutionFault,
    MachineState,
};
use crate::system_bus::SystemBus;

verus! {

/// Most bytes a program image can have: what lies between the start of
/// program space and the end of memory.
pub const PROGRAM_CAPACITY: usize = 3584;

/// A CHIP-8 machine.
pub struct Chip8Emulator {
    pub cpu: Cpu,
    pub system_bus: SystemBus,
}

impl View for Chip8Emulator {
    type V = MachineState;

    open spec fn view(&self) -> MachineState {
        MachineState { cpu: self.cpu@, bus: self.system_bus@ }
    }
}

impl Chip8Emulator {
    /// The processor is well formed; the bus has no invariant of its own.
    pub open spec fn wf(&self) -> bool {
        self.cpu.wf()
    }

    /// A machine at power-on.
    pub fn new() -> (emulator: Self)
        ensures
            emulator.wf(),
            emulator@ == initial_machine(),
    {
        Self { cpu: Cpu::new(), system_bus: SystemBus::new() }
    }

    /// Copies a program image into memory, from the start of program space
    /// on. Nothing else changes.
    pub fn load_rom(&mut self, image: &[u8])
        requires
            old(self).wf(),
            image@.len() <= PROGRAM_CAPACITY,
        ensures
            final(self).wf(),
            final(self)@ == machine_loaded(old(self)@, image@, START_ADDR as int),
    {
        self.system_bus.ram.write_bulk(image, START_ADDR as usize);
    }

    /// The fault, if any, that stands in the way of the next cycle.
    pub fn fault(&self) -> (fault: Option<ExecutionFault>)
        requires
            self.wf(),
        ensures
            fault == machine_fault(self@),
    {
        self.cpu.fault(&self.system_bus)
    }

    /// Runs one instruction.
    pub fn run_cycle(&mut self)
        requires
            old(self).wf(),
            machine_fault(old(self)@) is None,
        ensures
            final(self).wf(),
            final(self)@ == machine_stepped(old(self)@),
    {
        self.cpu.execute_operation(&mut self.system_bus);
    }

    /// Runs one instruction if none of the faults stands in its way, and
    /// reports the fault, leaving the machine untouched, if one does.
    pub fn try_run_cycle(&mut self) -> (result: Result<(), ExecutionFault>)
        requires
            old(self).wf(),
        ensures
            final(self).wf(),
            match result {
                Ok(_) => machine_fault(old(self)@) is None && final(self)@ == machine_stepped(
                    old(self)@,
                ),
                Err(fault) => machine_fault(old(self)@) == Some(fault) && final(self)@ == old(
                    self,
                )@,
            },
    {
        match self.fault() {
            Some(fault) => Err(fault),
            None => {
                self.run_cycle();
                Ok(())
            },
        }
    }
}

} // verus!
