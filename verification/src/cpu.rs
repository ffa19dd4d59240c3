//! The processor: its registers, and a step that does not execute anything
//! yet.
use vstd::prelude::*;
use crate::bus::Bus;
use crate::cpu::registers::Registers;

pub mod registers;

verus! {

/// The processor.
pub struct Cpu {
    registers: Registers,
    halted: bool,
    stepping: bool,
}

impl Cpu {
    /// The register file.
    pub closed spec fn registers(&self) -> Registers {
        self.registers
    }

    /// Whether the processor is halted.
    pub closed spec fn halted(&self) -> bool {
        self.halted
    }

    /// Whether the processor runs one instruction at a time.
    pub closed spec fn stepping(&self) -> bool {
        self.stepping
    }

    /// A processor as it is after power-on: the registers at their initial
    /// values, running, one instruction at a time.
    pub fn new() -> (cpu: Self)
        ensures
            cpu.registers() == Registers::initial(),
            !cpu.halted(),
            cpu.stepping(),
    {
        Self { registers: Registers::new(), halted: false, stepping: true }
    }

    /// Executes one instruction. No instruction is implemented: the step
    /// reports that nothing ran, and leaves the processor and the memory as
    /// they were.
    pub fn step(&mut self, bus: &mut Bus) -> (ran: bool)
        ensures
            !ran,
            *final(self) == *old(self),
            *final(bus) == *old(bus),
    {
        false
    }
}

} // verus!
