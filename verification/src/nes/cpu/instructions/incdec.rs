//! INC, DEC (memory), INX, INY, DEX, DEY (index registers).
use vstd::prelude::*;

use crate::nes::cpu::opcode::{AddressingMode, Opcode};
use crate::nes::cpu::state::{with_flag, CpuState, CARRY_FLAG};
use crate::nes::cpu::CPU;

verus! {

impl CpuState {
    /// INC: in absolute,X mode one cycle first; then the operand is read,
    /// incremented during one internal cycle and written back.
    pub open spec fn spec_inc(self, op: Opcode) -> Option<CpuState> {
        let start = if op.mode == AddressingMode::AbsoluteX {
            self.ticked()
        } else {
            self
        };
        match start.operand_address(op.mode, op.extra_cycle) {
            Some((Some(address), s)) => match s.read(address) {
                Some((operand, t)) => {
                    let output = vstd::wrapping::u8_specs::wrapping_add(operand, 1);
                    match t.ticked().write(address, output) {
                        Some(u) => Some(u.with_value_flags(output)),
                        None => None,
                    }
                },
                None => None,
            },
            _ => None,
        }
    }

    /// DEC: decrement memory.
    pub open spec fn spec_dec(self, op: Opcode) -> Option<CpuState> {
        match self.spec_decrement(op) {
            Some((_, s)) => Some(s),
            None => None,
        }
    }

    /// INX: X counts up (wrapping); the carry is cleared.
    pub open spec fn spec_inx(self) -> CpuState {
        let x = vstd::wrapping::u8_specs::wrapping_add(self.x, 1);
        CpuState { x, ..self.with_status(with_flag(self.status, CARRY_FLAG, false)) }.ticked().with_value_flags(x)
    }

    /// INY: Y counts up (wrapping); the carry is cleared.
    pub open spec fn spec_iny(self) -> CpuState {
        let y = vstd::wrapping::u8_specs::wrapping_add(self.y, 1);
        CpuState { y, ..self.with_status(with_flag(self.status, CARRY_FLAG, false)) }.ticked().with_value_flags(y)
    }

    /// DEX: X counts down (wrapping); the carry is cleared.
    pub open spec fn spec_dex(self) -> CpuState {
        let x = vstd::wrapping::u8_specs::wrapping_sub(self.x, 1);
        CpuState { x, ..self.with_status(with_flag(self.status, CARRY_FLAG, false)) }.with_value_flags(x).ticked()
    }

    /// DEY: Y counts down (wrapping).
    pub open spec fn spec_dey(self) -> CpuState {
        let y = vstd::wrapping::u8_specs::wrapping_sub(self.y, 1);
        CpuState { y, ..self }.ticked().with_value_flags(y)
    }
}

impl CPU {
    /// Increments the operand in memory.
    pub fn instruction_inc(&mut self, opcode: &Opcode)
        requires
            old(self)@.wf(),
            old(self)@.spec_inc(*opcode) is Some,
        ensures
            final(self)@ == old(self)@.spec_inc(*opcode).unwrap(),
            final(self)@.wf(),
    {
        let mode = &opcode.mode;
        if *mode == AddressingMode::AbsoluteX {
            self.tick();
        }
        let address = self.get_operand_address(opcode, mode).unwrap();
        let operand = self.read_u8(address);
        let output = operand.wrapping_add(1);
        self.tick();
        self.write_u8(address, output);
        self.set_value_flags(output);
    }

    /// Decrements the operand in memory.
    pub fn instruction_dec(&mut self, opcode: &Opcode)
        requires
            old(self)@.wf(),
            old(self)@.spec_dec(*opcode) is Some,
        ensures
            final(self)@ == old(self)@.spec_dec(*opcode).unwrap(),
            final(self)@.wf(),
    {
        self.decrement_u8(opcode);
    }

    /// Increments X.
    pub fn instruction_inx(&mut self, _opcode: &Opcode)
        requires
            old(self)@.wf(),
        ensures
            final(self)@ == old(self)@.spec_inx(),
            final(self)@.wf(),
    {
        self.set_flag(CARRY_FLAG, false);
        self.x = self.x.wrapping_add(1);
        self.tick();
        let x = self.x;
        self.set_value_flags(x);
    }

    /// Increments Y.
    pub fn instruction_iny(&mut self, _opcode: &Opcode)
        requires
            old(self)@.wf(),
        ensures
            final(self)@ == old(self)@.spec_iny(),
            final(self)@.wf(),
    {
        self.set_flag(CARRY_FLAG, false);
        self.y = self.y.wrapping_add(1);
        self.tick();
        let y = self.y;
        self.set_value_flags(y);
    }

    /// Decrements X; gives back the entry's cycle count.
    pub fn instruction_dex(&mut self, opcode: &Opcode) -> (r: u8)
        requires
            old(self)@.wf(),
        ensures
            final(self)@ == old(self)@.spec_dex(),
            r == opcode.cycles,
            final(self)@.wf(),
    {
        self.set_flag(CARRY_FLAG, false);
        self.x = self.x.wrapping_sub(1);
        let x = self.x;
        self.set_value_flags(x);
        self.tick();
        opcode.cycles
    }

    /// Decrements Y.
    pub fn instruction_dey(&mut self, _opcode: &Opcode)
        requires
            old(self)@.wf(),
        ensures
            final(self)@ == old(self)@.spec_dey(),
            final(self)@.wf(),
    {
        self.y = self.y.wrapping_sub(1);
        self.tick();
        let y = self.y;
        self.set_value_flags(y);
    }
}

} // verus!
