//! Every instruction of the opcode table changes only the status flags that
//! its entry's mask names.
use vstd::prelude::*;

use crate::nes::cpu::opcode::{spec_opcode, AddressingMode, Mnemonic, Opcode};
use crate::nes::cpu::state::{
    value_flags, with_flag, CpuState, BREAK_FLAG, CARRY_FLAG, DECIMAL_FLAG,
    INTERRUPT_DISABLE_FLAG, NEGATIVE_FLAG, OVERFLOW_FLAG, UNUSED_FLAG, ZERO_FLAG,
};

verus! {

/// The flags outside `mask` are the same in `before` and in `after`.
pub open spec fn only_flags_changed(before: u8, after: u8, mask: u8) -> bool {
    (before ^ after) & !mask == 0
}

/// The flags that the instructions of each mnemonic may change.
pub open spec fn mnemonic_status_mask(m: Mnemonic) -> u8 {
    match m {
        Mnemonic::Adc | Mnemonic::Isb => 0xC3,
        Mnemonic::And | Mnemonic::Dec | Mnemonic::Dey | Mnemonic::Eor | Mnemonic::Inc
        | Mnemonic::Lax | Mnemonic::Lda | Mnemonic::Ldx | Mnemonic::Ldy | Mnemonic::Ora => 0x82,
        Mnemonic::Asl | Mnemonic::Cmp | Mnemonic::Cpx | Mnemonic::Cpy | Mnemonic::Dcp
        | Mnemonic::Dex | Mnemonic::Inx | Mnemonic::Iny => 0x83,
        Mnemonic::Bit => 0xC2,
        Mnemonic::Brk | Mnemonic::Cli => 0x04,
        Mnemonic::Clc => 0x01,
        Mnemonic::Cld => 0x08,
        Mnemonic::Clv => 0x40,
        Mnemonic::Plp => 0xFF,
        Mnemonic::Bcs | Mnemonic::Bmi | Mnemonic::Bpl | Mnemonic::Jmp | Mnemonic::Jsr
        | Mnemonic::Nop | Mnemonic::Php => 0x00,
    }
}

/// Each entry's mask is the one of its mnemonic.
proof fn lemma_table_masks(code: u8)
    requires
        spec_opcode(code) is Some,
    ensures
        spec_opcode(code).unwrap().status_mask == mnemonic_status_mask(
            spec_opcode(code).unwrap().mnemonic,
        ),
        spec_opcode(code).unwrap().code == code,
{
}

/// Bus cycles and the program counter leave the status alone.
proof fn lemma_cycles_keep_status(s: CpuState, address: u16, value: u8)
    ensures
        s.ticked().status == s.status,
        s.read(address) matches Some((_, t)) ==> t.status == s.status,
        s.write(address, value) matches Some(t) ==> t.status == s.status,
        s.read_u16(address) matches Some((_, t)) ==> t.status == s.status,
        s.next_u8() matches Some((_, t)) ==> t.status == s.status,
        s.push_u8(value) matches Some(t) ==> t.status == s.status,
        s.pop_u8() matches Some((_, t)) ==> t.status == s.status,
{
}

proof fn lemma_next_u16_keeps_status(s: CpuState)
    ensures
        s.next_u16() matches Some((_, t)) ==> t.status == s.status,
{
    lemma_cycles_keep_status(s, 0, 0);
    if let Some((_, t)) = s.next_u8() {
        lemma_cycles_keep_status(t, 0, 0);
    }
}

proof fn lemma_push_u16_keeps_status(s: CpuState, value: u16)
    ensures
        s.push_u16(value) matches Some(t) ==> t.status == s.status,
{
    lemma_cycles_keep_status(s, 0, (value >> 8u16) as u8);
    if let Some(t) = s.push_u8((value >> 8u16) as u8) {
        lemma_cycles_keep_status(t, 0, (value & 0xFF) as u8);
    }
}

proof fn lemma_indirect_keeps_status(s: CpuState, extra_cycle: bool)
    ensures
        s.operand_address(AddressingMode::Indirect, extra_cycle) matches Some((_, t)) ==> t.status
            == s.status,
{
    lemma_next_u16_keeps_status(s);
    if let Some((pointer, t)) = s.next_u16() {
        lemma_cycles_keep_status(t, pointer, 0);
        if let Some((_, u)) = t.read(pointer) {
            lemma_cycles_keep_status(u, pointer & 0xFF00, 0);
        }
    }
}

proof fn lemma_indirect_x_keeps_status(s: CpuState, extra_cycle: bool)
    ensures
        s.operand_address(AddressingMode::IndirectX, extra_cycle) matches Some((_, t)) ==> t.status
            == s.status,
{
    lemma_cycles_keep_status(s, 0, 0);
    if let Some((base, t)) = s.next_u8() {
        let pointer = crate::nes::cpu::addressing_mode::add8(base, t.x);
        lemma_cycles_keep_status(t, 0, 0);
        lemma_cycles_keep_status(t.ticked(), pointer as u16, 0);
        if let Some((_, u)) = t.ticked().read(pointer as u16) {
            lemma_cycles_keep_status(u, crate::nes::cpu::addressing_mode::add8(pointer, 1) as u16, 0);
        }
    }
}

proof fn lemma_indirect_y_keeps_status(s: CpuState, extra_cycle: bool)
    ensures
        s.operand_address(AddressingMode::IndirectY, extra_cycle) matches Some((_, t)) ==> t.status
            == s.status,
{
    lemma_cycles_keep_status(s, 0, 0);
    if let Some((base, t)) = s.next_u8() {
        lemma_cycles_keep_status(t, base as u16, 0);
        if let Some((_, u)) = t.read(base as u16) {
            let next = crate::nes::cpu::addressing_mode::add8(base, 1) as u16;
            lemma_cycles_keep_status(u, next, 0);
            if let Some((_, w)) = u.read(next) {
                lemma_cycles_keep_status(w, 0, 0);
            }
        }
    }
}

proof fn lemma_direct_modes_keep_status(s: CpuState, mode: AddressingMode, extra_cycle: bool)
    requires
        mode != AddressingMode::Indirect,
        mode != AddressingMode::IndirectX,
        mode != AddressingMode::IndirectY,
    ensures
        s.operand_address(mode, extra_cycle) matches Some((_, t)) ==> t.status == s.status,
{
    lemma_cycles_keep_status(s, 0, 0);
    lemma_next_u16_keeps_status(s);
    if let Some((_, t)) = s.next_u8() {
        lemma_cycles_keep_status(t, 0, 0);
    }
    if let Some((_, t)) = s.next_u16() {
        lemma_cycles_keep_status(t, 0, 0);
    }
}

/// Finding an operand's address leaves the status alone.
proof fn lemma_operand_address_keeps_status(s: CpuState, mode: AddressingMode, extra_cycle: bool)
    ensures
        s.operand_address(mode, extra_cycle) matches Some((_, t)) ==> t.status == s.status,
{
    match mode {
        AddressingMode::Indirect => lemma_indirect_keeps_status(s, extra_cycle),
        AddressingMode::IndirectX => lemma_indirect_x_keeps_status(s, extra_cycle),
        AddressingMode::IndirectY => lemma_indirect_y_keeps_status(s, extra_cycle),
        _ => lemma_direct_modes_keep_status(s, mode, extra_cycle),
    }
}

/// Reading an operand leaves the status alone.
proof fn lemma_operand_value_keeps_status(s: CpuState, op: Opcode)
    ensures
        s.operand_value(op) matches Some((_, t)) ==> t.status == s.status,
{
    lemma_operand_address_keeps_status(s, op.mode, op.extra_cycle);
    if let Some((Some(address), t)) = s.operand_address(op.mode, op.extra_cycle) {
        lemma_cycles_keep_status(t, address, 0);
    }
}

/// Facts on the flags that each kind of status update changes.
proof fn lemma_within_trans(a: u8, b: u8, c: u8, mask: u8)
    by (bit_vector)
    requires
        only_flags_changed(a, b, mask),
        only_flags_changed(b, c, mask),
    ensures
        only_flags_changed(a, c, mask),
{
}

proof fn lemma_within_trivial(a: u8, b: u8, mask: u8)
    by (bit_vector)
    ensures
        only_flags_changed(a, a, mask),
        only_flags_changed(a, b, 0xFF),
{
}

proof fn lemma_value_flags_within(st: u8, value: u8)
    by (bit_vector)
    ensures
        only_flags_changed(st, value_flags(st, value), 0x82),
        only_flags_changed(st, value_flags(st, value), 0x83),
        only_flags_changed(st, value_flags(st, value), 0xC2),
        only_flags_changed(st, value_flags(st, value), 0xC3),
{
}

proof fn lemma_carry_within(st: u8, on: bool)
    by (bit_vector)
    ensures
        only_flags_changed(st, with_flag(st, CARRY_FLAG, on), 0x01),
        only_flags_changed(st, with_flag(st, CARRY_FLAG, on), 0x83),
        only_flags_changed(st, with_flag(st, CARRY_FLAG, on), 0xC3),
{
}

proof fn lemma_overflow_within(st: u8, on: bool)
    by (bit_vector)
    ensures
        only_flags_changed(st, with_flag(st, OVERFLOW_FLAG, on), 0x40),
        only_flags_changed(st, with_flag(st, OVERFLOW_FLAG, on), 0xC2),
        only_flags_changed(st, with_flag(st, OVERFLOW_FLAG, on), 0xC3),
{
}

proof fn lemma_zero_negative_within(st: u8, on: bool)
    by (bit_vector)
    ensures
        only_flags_changed(st, with_flag(st, ZERO_FLAG, on), 0xC2),
        only_flags_changed(st, with_flag(st, NEGATIVE_FLAG, on), 0xC2),
{
}

proof fn lemma_interrupt_decimal_within(st: u8, on: bool)
    by (bit_vector)
    ensures
        only_flags_changed(st, with_flag(st, INTERRUPT_DISABLE_FLAG, on), 0x04),
        only_flags_changed(st, with_flag(st, DECIMAL_FLAG, on), 0x08),
{
}

/// The flags of a comparison: carry, zero and negative.
proof fn lemma_compared_within(s: CpuState, register: u8, operand: u8)
    ensures
        only_flags_changed(s.status, s.compared(register, operand).status, 0x83),
{
    let v = vstd::wrapping::u8_specs::wrapping_sub(register, operand);
    lemma_value_flags_within(s.status, v);
    lemma_carry_within(value_flags(s.status, v), register >= operand);
    lemma_within_trans(
        s.status,
        value_flags(s.status, v),
        s.compared(register, operand).status,
        0x83,
    );
}

/// The flags of an addition to the accumulator: carry, overflow, zero and
/// negative.
proof fn lemma_added_within(s: CpuState, operand: u8)
    ensures
        only_flags_changed(s.status, s.added_to_a(operand).status, 0xC3),
{
    let (answer, carry, overflow) = crate::nes::cpu::instructions::common::spec_add_u8s(
        s.a,
        operand,
        s.flag(CARRY_FLAG),
    );
    let s1 = with_flag(s.status, CARRY_FLAG, carry);
    let s2 = with_flag(s1, OVERFLOW_FLAG, overflow);
    lemma_carry_within(s.status, carry);
    lemma_overflow_within(s1, overflow);
    lemma_value_flags_within(s2, answer);
    lemma_within_trans(s.status, s1, s2, 0xC3);
    lemma_within_trans(s.status, s2, value_flags(s2, answer), 0xC3);
}

/// Every instruction of the opcode table leaves the status flags outside
/// its entry's mask as they were.
pub proof fn lemma_instruction_respects_status_mask(s: CpuState, op: Opcode)
    requires
        spec_opcode(op.code) == Some(op),
        s.spec_execute(op) is Some,
    ensures
        only_flags_changed(s.status, s.spec_execute(op).unwrap().status, op.status_mask),
{
    reveal(CpuState::spec_execute);
    lemma_table_masks(op.code);
    let mask = op.status_mask;
    let t = s.spec_execute(op).unwrap();
    lemma_cycles_keep_status(s, 0, 0);
    lemma_operand_value_keeps_status(s, op);
    lemma_operand_address_keeps_status(s, op.mode, op.extra_cycle);
    match op.mnemonic {
        Mnemonic::Adc => {
            let (operand, u) = s.operand_value(op).unwrap();
            lemma_added_within(u, operand);
        },
        Mnemonic::Isb => {
            let (address, u) = s.operand_address(op.mode, op.extra_cycle).unwrap();
            let address = address.unwrap();
            lemma_cycles_keep_status(u, address, 0);
            let (operand, w) = u.read(address).unwrap();
            let output = vstd::wrapping::u8_specs::wrapping_add(operand, 1);
            lemma_cycles_keep_status(w.ticked(), address, output);
            let x = w.ticked().write(address, output).unwrap();
            lemma_cycles_keep_status(w, address, output);
            lemma_added_within(x, !output);
        },
        Mnemonic::And | Mnemonic::Eor | Mnemonic::Ora | Mnemonic::Lda | Mnemonic::Ldx
        | Mnemonic::Ldy | Mnemonic::Lax => {
            let (operand, u) = s.operand_value(op).unwrap();
            lemma_value_flags_within(u.status, u.a & operand);
            lemma_value_flags_within(u.status, u.a ^ operand);
            lemma_value_flags_within(u.status, u.a | operand);
            lemma_value_flags_within(u.status, operand);
        },
        Mnemonic::Cmp | Mnemonic::Cpx | Mnemonic::Cpy => {
            let (operand, u) = s.operand_value(op).unwrap();
            lemma_compared_within(u, u.a, operand);
            lemma_compared_within(u, u.x, operand);
            lemma_compared_within(u, u.y, operand);
        },
        Mnemonic::Bit => {
            let (operand, u) = s.operand_value(op).unwrap();
            let s1 = with_flag(u.status, ZERO_FLAG, u.a & operand == 0);
            let s2 = with_flag(s1, OVERFLOW_FLAG, operand & OVERFLOW_FLAG != 0);
            lemma_zero_negative_within(u.status, u.a & operand == 0);
            lemma_overflow_within(s1, operand & OVERFLOW_FLAG != 0);
            lemma_zero_negative_within(s2, operand & NEGATIVE_FLAG != 0);
            lemma_within_trans(u.status, s1, s2, mask);
            lemma_within_trans(
                u.status,
                s2,
                with_flag(s2, NEGATIVE_FLAG, operand & NEGATIVE_FLAG != 0),
                mask,
            );
        },
        Mnemonic::Asl => {
            if op.code == 0x0A {
                let s1 = with_flag(s.status, CARRY_FLAG, s.a & NEGATIVE_FLAG != 0);
                lemma_carry_within(s.status, s.a & NEGATIVE_FLAG != 0);
                lemma_value_flags_within(s1, s.a << 1u8);
                lemma_within_trans(s.status, s1, value_flags(s1, s.a << 1u8), mask);
                lemma_cycles_keep_status(
                    CpuState { a: s.a << 1u8, ..s.with_status(s1).with_value_flags(s.a << 1u8) },
                    0,
                    0,
                );
            } else {
                let (address, u) = s.operand_address(op.mode, op.extra_cycle).unwrap();
                let address = address.unwrap();
                lemma_cycles_keep_status(u, address, 0);
                let (operand, w) = u.read(address).unwrap();
                let output = operand << 1u8;
                let s1 = with_flag(w.status, CARRY_FLAG, operand & NEGATIVE_FLAG != 0);
                lemma_carry_within(w.status, operand & NEGATIVE_FLAG != 0);
                let x = w.with_status(s1);
                lemma_cycles_keep_status(x, 0, 0);
                lemma_value_flags_within(s1, output);
                lemma_within_trans(s.status, s1, value_flags(s1, output), mask);
                lemma_cycles_keep_status(x.ticked().with_value_flags(output), address, output);
            }
        },
        Mnemonic::Inc => {
            let start = if op.mode == AddressingMode::AbsoluteX {
                s.ticked()
            } else {
                s
            };
            lemma_operand_address_keeps_status(start, op.mode, op.extra_cycle);
            let (address, u) = start.operand_address(op.mode, op.extra_cycle).unwrap();
            let address = address.unwrap();
            lemma_cycles_keep_status(u, address, 0);
            let (operand, w) = u.read(address).unwrap();
            let output = vstd::wrapping::u8_specs::wrapping_add(operand, 1);
            lemma_cycles_keep_status(w, address, output);
            lemma_cycles_keep_status(w.ticked(), address, output);
            let x = w.ticked().write(address, output).unwrap();
            lemma_value_flags_within(x.status, output);
        },
        Mnemonic::Dec | Mnemonic::Dcp => {
            let (address, u) = s.operand_address(op.mode, op.extra_cycle).unwrap();
            let address = address.unwrap();
            lemma_cycles_keep_status(u, address, 0);
            let (operand, w) = u.read(address).unwrap();
            let result = vstd::wrapping::u8_specs::wrapping_sub(operand, 1);
            lemma_value_flags_within(w.status, result);
            let w1 = w.with_value_flags(result);
            lemma_cycles_keep_status(w1, address, operand);
            let x = w1.write(address, operand).unwrap();
            lemma_cycles_keep_status(x, address, result);
            let y = x.write(address, result).unwrap();
            assert(only_flags_changed(s.status, y.status, mask));
            if op.mnemonic == Mnemonic::Dcp {
                lemma_compared_within(y, y.a, result);
                lemma_within_trans(s.status, y.status, y.compared(y.a, result).status, mask);
            }
        },
        Mnemonic::Inx | Mnemonic::Iny | Mnemonic::Dex => {
            let s1 = with_flag(s.status, CARRY_FLAG, false);
            lemma_carry_within(s.status, false);
            lemma_value_flags_within(s1, vstd::wrapping::u8_specs::wrapping_add(s.x, 1));
            lemma_value_flags_within(s1, vstd::wrapping::u8_specs::wrapping_add(s.y, 1));
            lemma_value_flags_within(s1, vstd::wrapping::u8_specs::wrapping_sub(s.x, 1));
            lemma_within_trans(
                s.status,
                s1,
                value_flags(s1, vstd::wrapping::u8_specs::wrapping_add(s.x, 1)),
                mask,
            );
            lemma_within_trans(
                s.status,
                s1,
                value_flags(s1, vstd::wrapping::u8_specs::wrapping_add(s.y, 1)),
                mask,
            );
            lemma_within_trans(
                s.status,
                s1,
                value_flags(s1, vstd::wrapping::u8_specs::wrapping_sub(s.x, 1)),
                mask,
            );
        },
        Mnemonic::Dey => {
            lemma_value_flags_within(s.status, vstd::wrapping::u8_specs::wrapping_sub(s.y, 1));
        },
        Mnemonic::Clc | Mnemonic::Cld | Mnemonic::Cli | Mnemonic::Clv => {
            lemma_carry_within(s.status, false);
            lemma_interrupt_decimal_within(s.status, false);
            lemma_overflow_within(s.status, false);
        },
        Mnemonic::Bcs | Mnemonic::Bmi | Mnemonic::Bpl => {
            lemma_within_trivial(s.status, s.status, mask);
            if let Some((_, u)) = s.operand_value(op) {
                lemma_cycles_keep_status(u, 0, 0);
                lemma_cycles_keep_status(u.ticked(), 0, 0);
            }
        },
        Mnemonic::Jmp => {
            lemma_within_trivial(s.status, s.status, mask);
        },
        Mnemonic::Jsr => {
            lemma_within_trivial(s.status, s.status, mask);
            let (_, u) = s.operand_address(op.mode, op.extra_cycle).unwrap();
            lemma_cycles_keep_status(u, 0, 0);
            lemma_push_u16_keeps_status(u.ticked(), crate::nes::cpu::state::inc16(u.ticked().program_counter));
        },
        Mnemonic::Nop => {
            lemma_within_trivial(s.status, s.status, mask);
            if let Some((_, u)) = s.operand_address(op.mode, op.extra_cycle) {
                lemma_cycles_keep_status(u, 0, 0);
            }
            lemma_cycles_keep_status(s.with_pc(crate::nes::cpu::state::inc16(s.program_counter)), 0, 0);
        },
        Mnemonic::Php => {
            lemma_within_trivial(s.status, s.status, mask);
            lemma_cycles_keep_status(s.ticked(), 0, s.status | UNUSED_FLAG | BREAK_FLAG);
        },
        Mnemonic::Plp => {
            lemma_within_trivial(s.status, t.status, mask);
        },
        Mnemonic::Brk => {
            let s0 = s.with_pc(crate::nes::cpu::state::inc16(s.program_counter));
            let u = s0.ticked();
            lemma_cycles_keep_status(s0, 0, 0);
            lemma_push_u16_keeps_status(u, u.program_counter);
            let v = u.push_u16(u.program_counter).unwrap();
            lemma_cycles_keep_status(v, 0, v.status | BREAK_FLAG | UNUSED_FLAG);
            let w = v.push_u8(v.status | BREAK_FLAG | UNUSED_FLAG).unwrap();
            let st = with_flag(w.status, INTERRUPT_DISABLE_FLAG, true);
            lemma_interrupt_decimal_within(w.status, true);
            lemma_cycles_keep_status(w.with_status(st), crate::nes::cpu::state::IRQ_VECTOR_ADDRESS, 0);
        },
    }
}

/// One step of the CPU (fetch, decode, execute) changes only the status
/// flags that the mask of the instruction it carried out names.
pub proof fn lemma_step_respects_status_mask(s: CpuState)
    requires
        s.spec_step() is Some,
    ensures
        only_flags_changed(s.status, s.spec_step().unwrap().1.status, s.spec_step().unwrap().0.status_mask),
{
    let (code, u) = s.next_u8().unwrap();
    lemma_cycles_keep_status(s, 0, 0);
    lemma_table_masks(code);
    let op = spec_opcode(code).unwrap();
    lemma_instruction_respects_status_mask(u, op);
}

} // verus!
