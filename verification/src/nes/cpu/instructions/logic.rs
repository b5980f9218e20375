//! AND, EOR, ORA (bitwise operations on the accumulator), BIT (test bits)
//! and ASL (arithmetic shift left, of memory or of the accumulator).
use vstd::prelude::*;

use crate::nes::cpu::opcode::Opcode;
use crate::nes::cpu::state::{
    with_flag, CpuState, CARRY_FLAG, NEGATIVE_FLAG, OVERFLOW_FLAG, ZERO_FLAG,
};
use crate::nes::cpu::CPU;

verus! {

impl CpuState {
    /// AND: the accumulator becomes its AND with the operand.
    pub open spec fn spec_and(self, op: Opcode) -> Option<CpuState> {
        match self.operand_value(op) {
            Some((operand, s)) => Some(CpuState { a: s.a & operand, ..s }.with_value_flags(s.a & operand)),
            None => None,
        }
    }

    /// EOR: the accumulator becomes its exclusive OR with the operand.
    pub open spec fn spec_eor(self, op: Opcode) -> Option<CpuState> {
        match self.operand_value(op) {
            Some((operand, s)) => Some(CpuState { a: s.a ^ operand, ..s }.with_value_flags(s.a ^ operand)),
            None => None,
        }
    }

    /// ORA: the accumulator becomes its OR with the operand.
    pub open spec fn spec_ora(self, op: Opcode) -> Option<CpuState> {
        match self.operand_value(op) {
            Some((operand, s)) => Some(CpuState { a: s.a | operand, ..s }.with_value_flags(s.a | operand)),
            None => None,
        }
    }

    /// BIT: zero tells whether the accumulator AND the operand is zero;
    /// overflow and negative take bits 6 and 7 of the operand.
    pub open spec fn spec_bit(self, op: Opcode) -> Option<CpuState> {
        match self.operand_value(op) {
            Some((operand, s)) => {
                let st = with_flag(s.status, ZERO_FLAG, s.a & operand == 0);
                let st = with_flag(st, OVERFLOW_FLAG, operand & OVERFLOW_FLAG != 0);
                let st = with_flag(st, NEGATIVE_FLAG, operand & NEGATIVE_FLAG != 0);
                Some(s.with_status(st))
            },
            None => None,
        }
    }

    /// ASL on memory: the operand is read, shifted left (bit 7 into the
    /// carry) during one internal cycle, and written back.
    pub open spec fn spec_asl(self, op: Opcode) -> Option<CpuState> {
        match self.operand_address(op.mode, op.extra_cycle) {
            Some((Some(address), s)) => match s.read(address) {
                Some((operand, t)) => {
                    let output = operand << 1u8;
                    let u = t.with_status(with_flag(t.status, CARRY_FLAG, operand & NEGATIVE_FLAG != 0));
                    u.ticked().with_value_flags(output).write(address, output)
                },
                None => None,
            },
            _ => None,
        }
    }

    /// ASL on the accumulator (opcode $0A), in one internal cycle.
    pub open spec fn spec_asl_0a(self) -> CpuState {
        let output = self.a << 1u8;
        let t = self.with_status(with_flag(self.status, CARRY_FLAG, self.a & NEGATIVE_FLAG != 0));
        CpuState { a: output, ..t.with_value_flags(output) }.ticked()
    }
}

impl CPU {
    /// AND with the accumulator.
    pub fn instruction_and(&mut self, opcode: &Opcode)
        requires
            old(self)@.wf(),
            old(self)@.spec_and(*opcode) is Some,
        ensures
            final(self)@ == old(self)@.spec_and(*opcode).unwrap(),
            final(self)@.wf(),
    {
        let mode = &opcode.mode;
        let second = self.get_operand_value(opcode, mode);
        let answer = self.a & second;
        self.a = answer;
        self.set_value_flags(answer);
    }

    /// Exclusive OR with the accumulator; gives back the entry's cycle count.
    pub fn instruction_eor(&mut self, opcode: &Opcode) -> (r: u8)
        requires
            old(self)@.wf(),
            old(self)@.spec_eor(*opcode) is Some,
        ensures
            final(self)@ == old(self)@.spec_eor(*opcode).unwrap(),
            r == opcode.cycles,
            final(self)@.wf(),
    {
        let mode = &opcode.mode;
        let value = self.get_operand_value(opcode, mode);
        self.a = self.a ^ value;
        let a = self.a;
        self.set_value_flags(a);
        opcode.cycles
    }

    /// OR with the accumulator.
    pub fn instruction_ora(&mut self, opcode: &Opcode)
        requires
            old(self)@.wf(),
            old(self)@.spec_ora(*opcode) is Some,
        ensures
            final(self)@ == old(self)@.spec_ora(*opcode).unwrap(),
            final(self)@.wf(),
    {
        let mode = &opcode.mode;
        let operand = self.get_operand_value(opcode, mode);
        self.a = self.a | operand;
        let a = self.a;
        self.set_value_flags(a);
    }

    /// Tests bits of the operand against the accumulator.
    pub fn instruction_bit(&mut self, opcode: &Opcode)
        requires
            old(self)@.wf(),
            old(self)@.spec_bit(*opcode) is Some,
        ensures
            final(self)@ == old(self)@.spec_bit(*opcode).unwrap(),
            final(self)@.wf(),
    {
        let mode = &opcode.mode;
        let operand = self.get_operand_value(opcode, mode);
        let a = self.a;
        self.set_flag(ZERO_FLAG, a & operand == 0);
        self.set_flag(OVERFLOW_FLAG, operand & OVERFLOW_FLAG != 0);
        self.set_flag(NEGATIVE_FLAG, operand & NEGATIVE_FLAG != 0);
    }

    /// Shifts the operand in memory left.
    pub fn instruction_asl(&mut self, opcode: &Opcode)
        requires
            old(self)@.wf(),
            old(self)@.spec_asl(*opcode) is Some,
        ensures
            final(self)@ == old(self)@.spec_asl(*opcode).unwrap(),
            final(self)@.wf(),
    {
        let mode = &opcode.mode;
        let address = self.get_operand_address(opcode, mode).unwrap();
        let operand = self.read_u8(address);
        let output = operand << 1u8;
        self.set_flag(CARRY_FLAG, operand & NEGATIVE_FLAG != 0);
        self.tick();
        self.set_value_flags(output);
        self.write_u8(address, output);
    }

    /// Shifts the accumulator left (opcode $0A).
    pub fn instruction_asl_0a(&mut self, _opcode: &Opcode)
        requires
            old(self)@.wf(),
        ensures
            final(self)@ == old(self)@.spec_asl_0a(),
            final(self)@.wf(),
    {
        let operand = self.a;
        let output = operand << 1u8;
        self.set_flag(CARRY_FLAG, operand & NEGATIVE_FLAG != 0);
        self.set_value_flags(output);
        self.a = output;
        self.tick();
    }
}

} // verus!
