//! ADC, ISB and DCP (add and subtract with carry, increment or decrement
//! memory and then subtract or compare) and the comparisons CMP, CPX, CPY.
use vstd::prelude::*;

use super::common::{add_u8s, spec_add_u8s};
use crate::nes::cpu::opcode::{AddressingMode, Opcode};
use crate::nes::cpu::state::{with_flag, CpuState, CARRY_FLAG, OVERFLOW_FLAG};
use crate::nes::cpu::CPU;

verus! {

impl CpuState {
    /// The accumulator becomes `a + operand + carry`; carry, overflow, zero
    /// and negative describe the sum.
    pub open spec fn added_to_a(self, operand: u8) -> CpuState {
        let (answer, carry, overflow) = spec_add_u8s(self.a, operand, self.flag(CARRY_FLAG));
        let t = CpuState { a: answer, ..self };
        let t = t.with_status(with_flag(t.status, CARRY_FLAG, carry));
        let t = t.with_status(with_flag(t.status, OVERFLOW_FLAG, overflow));
        t.with_value_flags(answer)
    }

    /// ADC: add the operand and the carry to the accumulator.
    pub open spec fn spec_adc(self, op: Opcode) -> Option<CpuState> {
        match self.operand_value(op) {
            Some((operand, s)) => Some(s.added_to_a(operand)),
            None => None,
        }
    }

    /// ISB: increment memory (read, one internal cycle, write), then subtract
    /// it from the accumulator with borrow, as adding its complement.
    pub open spec fn spec_isb(self, op: Opcode) -> Option<CpuState> {
        match self.operand_address(op.mode, op.extra_cycle) {
            Some((Some(address), s)) => match s.read(address) {
                Some((operand, t)) => {
                    let output = vstd::wrapping::u8_specs::wrapping_add(operand, 1);
                    match t.ticked().write(address, output) {
                        Some(u) => Some(u.added_to_a(!output)),
                        None => None,
                    }
                },
                None => None,
            },
            _ => None,
        }
    }

    /// DCP: decrement memory, then compare the accumulator with it.
    pub open spec fn spec_dcp(self, op: Opcode) -> Option<CpuState> {
        match self.spec_decrement(op) {
            Some((output, s)) => Some(s.compared(s.a, output)),
            None => None,
        }
    }

    /// CMP: compare the accumulator with the operand.
    pub open spec fn spec_cmp(self, op: Opcode) -> Option<CpuState> {
        match self.operand_value(op) {
            Some((operand, s)) => Some(s.compared(s.a, operand)),
            None => None,
        }
    }

    /// CPX: compare X with the operand.
    pub open spec fn spec_cpx(self, op: Opcode) -> Option<CpuState> {
        match self.operand_value(op) {
            Some((operand, s)) => Some(s.compared(s.x, operand)),
            None => None,
        }
    }

    /// CPY: compare Y with the operand.
    pub open spec fn spec_cpy(self, op: Opcode) -> Option<CpuState> {
        match self.operand_value(op) {
            Some((operand, s)) => Some(s.compared(s.y, operand)),
            None => None,
        }
    }
}

impl CPU {
    fn add_to_a(&mut self, operand: u8)
        ensures
            final(self)@ == old(self)@.added_to_a(operand),
    {
        let carry = (self.status & CARRY_FLAG) != 0;
        let (answer, set_carry, set_overflow) = add_u8s(self.a, operand, carry);
        self.a = answer;
        self.set_flag(CARRY_FLAG, set_carry);
        self.set_flag(OVERFLOW_FLAG, set_overflow);
        self.set_value_flags(answer);
    }

    /// ADC: add with carry.
    pub fn instruction_adc(&mut self, opcode: &Opcode)
        requires
            old(self)@.wf(),
            old(self)@.spec_adc(*opcode) is Some,
        ensures
            final(self)@ == old(self)@.spec_adc(*opcode).unwrap(),
            final(self)@.wf(),
    {
        let mode = &opcode.mode;
        let addend = self.get_operand_value(opcode, mode);
        self.add_to_a(addend);
    }

    /// ISB: increment memory, then subtract it from the accumulator.
    pub fn instruction_isb(&mut self, opcode: &Opcode)
        requires
            old(self)@.wf(),
            old(self)@.spec_isb(*opcode) is Some,
        ensures
            final(self)@ == old(self)@.spec_isb(*opcode).unwrap(),
            final(self)@.wf(),
    {
        let mode = &opcode.mode;
        let address = self.get_operand_address(opcode, mode).unwrap();
        let operand = self.read_u8(address);
        let output = operand.wrapping_add(1);
        self.tick();
        self.write_u8(address, output);
        // Subtracting with borrow is adding the one's complement with carry.
        self.add_to_a(!output);
    }

    /// DCP: decrement memory, then compare the accumulator with it.
    pub fn instruction_dcp(&mut self, opcode: &Opcode)
        requires
            old(self)@.wf(),
            old(self)@.spec_dcp(*opcode) is Some,
        ensures
            final(self)@ == old(self)@.spec_dcp(*opcode).unwrap(),
            final(self)@.wf(),
    {
        let output = self.decrement_u8(opcode);
        let a = self.a;
        self.compare(a, output);
    }

    /// CMP: compare the accumulator.
    pub fn instruction_cmp(&mut self, opcode: &Opcode)
        requires
            old(self)@.wf(),
            old(self)@.spec_cmp(*opcode) is Some,
        ensures
            final(self)@ == old(self)@.spec_cmp(*opcode).unwrap(),
            final(self)@.wf(),
    {
        let mode = &opcode.mode;
        let operand = self.get_operand_value(opcode, mode);
        let a = self.a;
        self.compare(a, operand);
    }

    /// CPX: compare X; gives back the entry's cycle count.
    pub fn instruction_cpx(&mut self, opcode: &Opcode) -> (r: u8)
        requires
            old(self)@.wf(),
            old(self)@.spec_cpx(*opcode) is Some,
        ensures
            final(self)@ == old(self)@.spec_cpx(*opcode).unwrap(),
            r == opcode.cycles,
            final(self)@.wf(),
    {
        let mode = &opcode.mode;
        let operand = self.get_operand_value(opcode, mode);
        let x = self.x;
        self.compare(x, operand);
        opcode.cycles
    }

    /// CPY: compare Y.
    pub fn instruction_cpy(&mut self, opcode: &Opcode)
        requires
            old(self)@.wf(),
            old(self)@.spec_cpy(*opcode) is Some,
        ensures
            final(self)@ == old(self)@.spec_cpy(*opcode).unwrap(),
            final(self)@.wf(),
    {
        let mode = &opcode.mode;
        let operand = self.get_operand_value(opcode, mode);
        let y = self.y;
        self.compare(y, operand);
    }
}

} // verus!
