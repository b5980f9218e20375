//! Pieces that several instructions share: binary addition with carry,
//! branching, fetching an operand, and decrementing memory.
use vstd::prelude::*;

use crate::nes::cpu::addressing_mode::{add16, page_crossed};
use crate::nes::cpu::opcode::{AddressingMode, Opcode};
use crate::nes::cpu::state::{CpuState, value_flags, CARRY_FLAG};
use crate::nes::cpu::CPU;

verus! {

/// The 8-bit sum of `augend`, `addend` and the carry, whether it carried
/// out of bit 7, and whether it overflowed as a signed addition (both
/// operands' signs differ from the result's).
pub open spec fn spec_add_u8s(augend: u8, addend: u8, carry: bool) -> (u8, bool, bool) {
    let sum = augend + addend + if carry { 1int } else { 0int };
    let result = (sum % 256) as u8;
    (result, sum > 0xFF, (addend ^ result) & (augend ^ result) & 0x80 != 0)
}

/// Adds two bytes and a carry.
pub fn add_u8s(augend: u8, addend: u8, carry: bool) -> (r: (u8, bool, bool))
    ensures
        r == spec_add_u8s(augend, addend, carry),
{
    let c: u16 = if carry { 1 } else { 0 };
    let sum = (augend as u16) + (addend as u16) + c;
    let result = (sum % 256) as u8;
    let set_carry = sum > 0xFF;
    let set_overflow = (addend ^ result) & (augend ^ result) & 0x80 != 0;
    (result, set_carry, set_overflow)
}

/// The signed value of a byte.
pub open spec fn signed(v: u8) -> int {
    if v < 128 {
        v as int
    } else {
        v - 256
    }
}

/// The overflow flag of an addition is set exactly when the signed sum of
/// the operands and the carry lies outside -128..=127.
pub proof fn lemma_add_u8s_overflow(augend: u8, addend: u8, carry: bool)
    ensures
        spec_add_u8s(augend, addend, carry).2 <==> ({
            let s = signed(augend) + signed(addend) + if carry { 1int } else { 0int };
            s < -128 || s > 127
        }),
{
    let c: u8 = if carry { 1 } else { 0 };
    let result = spec_add_u8s(augend, addend, carry).0;
    assert(result == ((augend as u16 + addend as u16 + c as u16) % 256) as u8);
    assert((((addend ^ result) & (augend ^ result) & 0x80) != 0) <==> (
    (augend < 128 && addend < 128 && result >= 128) || (augend >= 128 && addend >= 128 && result
        < 128))) by (bit_vector)
        requires
            result == ((augend as u16 + addend as u16 + c as u16) % 256) as u8,
            c <= 1,
    ;
}

/// The offset of a relative branch: the operand byte read as a signed
/// number, extended to 16 bits.
pub open spec fn branch_offset(byte: u8) -> u16 {
    if byte >= 0x80 {
        (byte as u16) | 0xFF00
    } else {
        byte as u16
    }
}

impl CpuState {
    /// The operand of an instruction whose mode yields an address.
    pub open spec fn operand_value(self, op: Opcode) -> Option<(u8, CpuState)> {
        match self.operand_address(op.mode, op.extra_cycle) {
            Some((Some(address), s)) => s.read(address),
            _ => None,
        }
    }

    /// A relative branch: the offset byte is read; when `condition` holds,
    /// one more cycle is spent, another if the target lies in a different
    /// page than the address after the offset byte, and the program counter
    /// moves by the signed offset from that address.
    pub open spec fn spec_branch(self, op: Opcode, condition: bool) -> Option<CpuState> {
        self.spec_branch_from(op, condition, false)
    }

    /// A relative branch whose offset counts from the address after the
    /// offset byte or, when `from_offset_byte` holds, from the address of the
    /// offset byte itself (one less). The page test compares the target with
    /// the address after the offset byte in both cases.
    pub open spec fn spec_branch_from(self, op: Opcode, condition: bool, from_offset_byte: bool) -> Option<CpuState> {
        match self.operand_value(op) {
            Some((byte, s)) => if condition {
                let t = s.ticked();
                let base = if from_offset_byte {
                    vstd::wrapping::u16_specs::wrapping_sub(t.program_counter, 1)
                } else {
                    t.program_counter
                };
                let target = add16(base, branch_offset(byte));
                let u = if page_crossed(t.program_counter, target) {
                    t.ticked()
                } else {
                    t
                };
                Some(u.with_pc(target))
            } else {
                Some(s)
            },
            None => None,
        }
    }

    /// Read-modify-write decrement: the operand is read, the flags describe
    /// the decremented value, and the operand as read and then the
    /// decremented value are written back (two write cycles). Gives the decremented value.
    pub open spec fn spec_decrement(self, op: Opcode) -> Option<(u8, CpuState)> {
        match self.operand_address(op.mode, op.extra_cycle) {
            Some((Some(address), s)) => match s.read(address) {
                Some((operand, t)) => {
                    let result = vstd::wrapping::u8_specs::wrapping_sub(operand, 1);
                    match t.with_value_flags(result).write(address, operand) {
                        Some(u) => match u.write(address, result) {
                            Some(w) => Some((result, w)),
                            None => None,
                        },
                        None => None,
                    }
                },
                None => None,
            },
            _ => None,
        }
    }

    /// The state after a comparison of `register` with `operand`: the flags
    /// describe their difference and the carry tells whether no borrow
    /// was needed.
    pub open spec fn compared(self, register: u8, operand: u8) -> CpuState {
        let t = self.with_value_flags(vstd::wrapping::u8_specs::wrapping_sub(register, operand));
        t.with_status(crate::nes::cpu::state::with_flag(t.status, CARRY_FLAG, register >= operand))
    }
}

impl CPU {
    /// Branches by the relative offset at the program counter when
    /// `condition` holds.
    pub fn branch_on_condition(&mut self, opcode: &Opcode, condition: bool)
        requires
            old(self)@.wf(),
            old(self)@.spec_branch(*opcode, condition) is Some,
        ensures
            final(self)@ == old(self)@.spec_branch(*opcode, condition).unwrap(),
            final(self)@.wf(),
    {
        self.branch(opcode, condition, false);
    }

    /// Branches by the relative offset at the program counter when
    /// `condition` holds, counting the offset from the offset byte itself
    /// when `from_offset_byte` holds.
    pub(crate) fn branch(&mut self, opcode: &Opcode, condition: bool, from_offset_byte: bool)
        requires
            old(self)@.wf(),
            old(self)@.spec_branch_from(*opcode, condition, from_offset_byte) is Some,
        ensures
            final(self)@ == old(self)@.spec_branch_from(*opcode, condition, from_offset_byte).unwrap(),
            final(self)@.wf(),
    {
        let mode = &opcode.mode;
        let address = self.get_operand_address(opcode, mode).unwrap();
        let byte = self.read_u8(address);
        let offset = if byte >= 0x80 {
            (byte as u16) | 0xFF00
        } else {
            byte as u16
        };
        if condition {
            self.tick();
            let base = if from_offset_byte {
                self.program_counter.wrapping_sub(1)
            } else {
                self.program_counter
            };
            let new_pc = base.wrapping_add(offset);
            if (self.program_counter & 0xFF00) != (new_pc & 0xFF00) {
                self.tick();
            }
            self.program_counter = new_pc;
        }
    }

    /// Reads the operand of the instruction.
    pub fn get_operand_value(&mut self, opcode: &Opcode, mode: &AddressingMode) -> (r: u8)
        requires
            old(self)@.wf(),
            *mode == opcode.mode,
            old(self)@.operand_value(*opcode) is Some,
        ensures
            (r, final(self)@) == old(self)@.operand_value(*opcode).unwrap(),
            final(self)@.wf(),
    {
        let address = self.get_operand_address(opcode, mode).unwrap();
        self.read_u8(address)
    }

    /// Decrements the operand in memory; gives the decremented value.
    pub fn decrement_u8(&mut self, opcode: &Opcode) -> (r: u8)
        requires
            old(self)@.wf(),
            old(self)@.spec_decrement(*opcode) is Some,
        ensures
            (r, final(self)@) == old(self)@.spec_decrement(*opcode).unwrap(),
            final(self)@.wf(),
    {
        let mode = &opcode.mode;
        let address = self.get_operand_address(opcode, mode).unwrap();
        let operand = self.read_u8(address);
        let result = operand.wrapping_sub(1);
        self.set_value_flags(result);
        // The value as read goes back first, as on the hardware.
        self.write_u8(address, operand);
        self.write_u8(address, result);
        result
    }

    /// Sets the flags for a comparison of `register` with `operand`.
    pub fn compare(&mut self, register: u8, operand: u8)
        ensures
            final(self)@ == old(self)@.compared(register, operand),
    {
        self.set_value_flags(register.wrapping_sub(operand));
        self.set_flag(CARRY_FLAG, register >= operand);
    }
}

} // verus!
