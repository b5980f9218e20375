//! CLC, CLD, CLI, CLV: clear a status flag. CLD, CLI and CLV spend one
//! internal cycle; CLC spends none and gives back its entry's cycle count.
use vstd::prelude::*;

use crate::nes::cpu::opcode::Opcode;
use crate::nes::cpu::state::{
    with_flag, CpuState, CARRY_FLAG, DECIMAL_FLAG, INTERRUPT_DISABLE_FLAG, OVERFLOW_FLAG,
};
use crate::nes::cpu::CPU;

verus! {

impl CpuState {
    /// CLC: the carry cleared, with no cycle spent.
    pub open spec fn spec_clc(self) -> CpuState {
        self.with_status(with_flag(self.status, CARRY_FLAG, false))
    }

    /// The flags of `mask` cleared, after one internal cycle.
    pub open spec fn spec_clear_flag(self, mask: u8) -> CpuState {
        self.with_status(with_flag(self.status, mask, false)).ticked()
    }
}

impl CPU {
    fn clear_flag(&mut self, mask: u8)
        requires
            old(self)@.wf(),
        ensures
            final(self)@ == old(self)@.spec_clear_flag(mask),
            final(self)@.wf(),
    {
        self.set_flag(mask, false);
        self.tick();
    }

    /// Clears the carry flag, spending no cycle; gives back the entry's
    /// cycle count.
    pub fn instruction_clc(&mut self, opcode: &Opcode) -> (r: u8)
        ensures
            final(self)@ == old(self)@.spec_clc(),
            r == opcode.cycles,
    {
        self.set_flag(CARRY_FLAG, false);
        opcode.cycles
    }

    /// Clears the decimal mode flag.
    pub fn instruction_cld(&mut self, _opcode: &Opcode)
        requires
            old(self)@.wf(),
        ensures
            final(self)@ == old(self)@.spec_clear_flag(DECIMAL_FLAG),
            final(self)@.wf(),
    {
        self.clear_flag(DECIMAL_FLAG);
    }

    /// Clears the interrupt disable flag.
    pub fn instruction_cli(&mut self, _opcode: &Opcode)
        requires
            old(self)@.wf(),
        ensures
            final(self)@ == old(self)@.spec_clear_flag(INTERRUPT_DISABLE_FLAG),
            final(self)@.wf(),
    {
        self.clear_flag(INTERRUPT_DISABLE_FLAG);
    }

    /// Clears the overflow flag.
    pub fn instruction_clv(&mut self, _opcode: &Opcode)
        requires
            old(self)@.wf(),
        ensures
            final(self)@ == old(self)@.spec_clear_flag(OVERFLOW_FLAG),
            final(self)@.wf(),
    {
        self.clear_flag(OVERFLOW_FLAG);
    }
}

} // verus!
