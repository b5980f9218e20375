//! LDA, LDX, LDY (load a register) and LAX (load the accumulator and X).
use vstd::prelude::*;

use crate::nes::cpu::opcode::Opcode;
use crate::nes::cpu::state::CpuState;
use crate::nes::cpu::CPU;

verus! {

impl CpuState {
    pub open spec fn spec_lda(self, op: Opcode) -> Option<CpuState> {
        match self.operand_value(op) {
            Some((v, s)) => Some(CpuState { a: v, ..s }.with_value_flags(v)),
            None => None,
        }
    }

    pub open spec fn spec_ldx(self, op: Opcode) -> Option<CpuState> {
        match self.operand_value(op) {
            Some((v, s)) => Some(CpuState { x: v, ..s }.with_value_flags(v)),
            None => None,
        }
    }

    pub open spec fn spec_ldy(self, op: Opcode) -> Option<CpuState> {
        match self.operand_value(op) {
            Some((v, s)) => Some(CpuState { y: v, ..s }.with_value_flags(v)),
            None => None,
        }
    }

    pub open spec fn spec_lax(self, op: Opcode) -> Option<CpuState> {
        match self.operand_value(op) {
            Some((v, s)) => Some(CpuState { a: v, x: v, ..s }.with_value_flags(v)),
            None => None,
        }
    }
}

impl CPU {
    /// Loads the accumulator.
    pub fn instruction_lda(&mut self, opcode: &Opcode)
        requires
            old(self)@.wf(),
            old(self)@.spec_lda(*opcode) is Some,
        ensures
            final(self)@ == old(self)@.spec_lda(*opcode).unwrap(),
            final(self)@.wf(),
    {
        let mode = &opcode.mode;
        let operand = self.get_operand_value(opcode, mode);
        self.a = operand;
        self.set_value_flags(operand);
    }

    /// Loads X.
    pub fn instruction_ldx(&mut self, opcode: &Opcode)
        requires
            old(self)@.wf(),
            old(self)@.spec_ldx(*opcode) is Some,
        ensures
            final(self)@ == old(self)@.spec_ldx(*opcode).unwrap(),
            final(self)@.wf(),
    {
        let mode = &opcode.mode;
        let operand = self.get_operand_value(opcode, mode);
        self.x = operand;
        self.set_value_flags(operand);
    }

    /// Loads Y.
    pub fn instruction_ldy(&mut self, opcode: &Opcode)
        requires
            old(self)@.wf(),
            old(self)@.spec_ldy(*opcode) is Some,
        ensures
            final(self)@ == old(self)@.spec_ldy(*opcode).unwrap(),
            final(self)@.wf(),
    {
        let mode = &opcode.mode;
        let operand = self.get_operand_value(opcode, mode);
        self.y = operand;
        self.set_value_flags(operand);
    }

    /// Loads the accumulator and X with the same value.
    pub fn instruction_lax(&mut self, opcode: &Opcode)
        requires
            old(self)@.wf(),
            old(self)@.spec_lax(*opcode) is Some,
        ensures
            final(self)@ == old(self)@.spec_lax(*opcode).unwrap(),
            final(self)@.wf(),
    {
        let mode = &opcode.mode;
        let operand = self.get_operand_value(opcode, mode);
        self.a = operand;
        self.x = operand;
        self.set_value_flags(operand);
    }
}

} // verus!
