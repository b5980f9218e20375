//! What finding an operand reads and leaves as it was, and what the
//! branches, NOP, DEC, the comparisons and DCP change.
use vstd::prelude::*;

use crate::nes::cpu::addressing_mode::{add16, add8, page_crossed};
use crate::nes::cpu::instructions::common::branch_offset;
use crate::nes::cpu::instructions::control::{is_double_nop, is_skip_byte_nop};
use crate::nes::cpu::memory::{
    aliases, is_port, is_ram, lemma_ram_write_reads, lemma_read_keeps_reads,
    lemma_reads_kept_steps, lemma_reads_kept_trans, lemma_tick_keeps_reads, reads_kept,
};
use crate::nes::cpu::opcode::{spec_opcode, AddressingMode, Mnemonic, Opcode};
use crate::nes::cpu::state::{inc16, value_flags, word, CpuState};

verus! {

/// The registers other than the program counter are as they were.
pub open spec fn same_registers(s: CpuState, t: CpuState) -> bool {
    &&& t.a == s.a
    &&& t.x == s.x
    &&& t.y == s.y
    &&& t.status == s.status
    &&& t.stack_pointer == s.stack_pointer
}

/// The bytes that follow an opcode in each mode.
pub open spec fn operand_bytes(mode: AddressingMode) -> u16 {
    match mode {
        AddressingMode::Implied => 0,
        AddressingMode::Absolute | AddressingMode::AbsoluteX | AddressingMode::AbsoluteY
        | AddressingMode::Indirect => 2,
        _ => 1,
    }
}

/// What stays of `s` in `t`: the registers but the program counter, and
/// what every address reads but the controller ports; RAM keeps its size.
spec fn kept(s: CpuState, t: CpuState) -> bool {
    &&& same_registers(s, t)
    &&& reads_kept(s.bus, t.bus)
    &&& (t.bus is Flat) == (s.bus is Flat)
    &&& s.bus.ram_wf() ==> t.bus.ram_wf()
}

proof fn lemma_kept_trans(s: CpuState, t: CpuState, u: CpuState)
    requires
        kept(s, t),
        kept(t, u),
    ensures
        kept(s, u),
{
    lemma_reads_kept_trans(s.bus, t.bus, u.bus);
}

/// A cycle, and a read cycle, keep the registers and what every address
/// reads; the read gives what `s` reads there, the program counter stays.
proof fn lemma_cycle_frame(s: CpuState, a: u16)
    ensures
        kept(s, s.ticked()),
        s.ticked().program_counter == s.program_counter,
        s.read(a) is Some <==> s.bus.can_read(a),
        s.read(a) matches Some((v, t)) ==> v == s.bus.read_value(a) && kept(s, t)
            && t.program_counter == s.program_counter,
{
    lemma_tick_keeps_reads(s.bus, a);
    lemma_reads_kept_steps(s.bus, a);
    let m = s.bus.after_tick();
    lemma_reads_kept_steps(m, a);
    lemma_reads_kept_trans(s.bus, m, m.after_read(a));
    lemma_tick_keeps_reads(s.bus, 0);
}

/// A read cycle of a non-port address, in a state that reads as `s0`
/// reads, gives what `s0` reads there.
proof fn lemma_read_as(s0: CpuState, s: CpuState, a: u16)
    requires
        kept(s0, s),
        !is_port(a),
    ensures
        s.read(a) is Some <==> s0.bus.can_read(a),
        s.read(a) matches Some((v, t)) ==> v == s0.bus.read_value(a) && kept(s0, t)
            && t.program_counter == s.program_counter,
{
    lemma_cycle_frame(s, a);
    if let Some((_, t)) = s.read(a) {
        lemma_kept_trans(s0, s, t);
    }
}

/// A read at the program counter, which then advances.
proof fn lemma_next_frame(s0: CpuState, s: CpuState)
    requires
        kept(s0, s),
    ensures
        s.next_u8() is Some <==> s0.bus.can_read(s.program_counter),
        s.next_u8() matches Some((v, t)) ==> kept(s0, t) && t.program_counter == inc16(
            s.program_counter,
        ) && v == s.bus.read_value(s.program_counter) && (!is_port(s.program_counter)
            ==> v == s0.bus.read_value(s.program_counter)),
{
    lemma_cycle_frame(s, s.program_counter);
    if let Some((_, t)) = s.read(s.program_counter) {
        lemma_kept_trans(s0, s, t);
    }
}

/// Zero-page indexed addressing: one read at the program counter, the sum
/// with the index wrapped within page zero, one more cycle; the program
/// counter moves past the byte and nothing else changes but the clock.
pub proof fn lemma_zero_page_indexed(s: CpuState, mode: AddressingMode, extra_cycle: bool)
    requires
        mode == AddressingMode::ZeroPageX || mode == AddressingMode::ZeroPageY,
        s.clock_counter + 2 <= u64::MAX,
    ensures
        s.operand_address(mode, extra_cycle) is Some <==> s.bus.can_read(s.program_counter),
        s.operand_address(mode, extra_cycle) matches Some((address, t)) ==> {
            let index = if mode == AddressingMode::ZeroPageX {
                s.x
            } else {
                s.y
            };
            &&& address == Some(add8(s.bus.read_value(s.program_counter), index) as u16)
            &&& address.unwrap() <= 0x00FF
            &&& t.program_counter == inc16(s.program_counter)
            &&& t.clock_counter == s.clock_counter + 2
            &&& same_registers(s, t)
            &&& reads_kept(s.bus, t.bus)
        },
{
    lemma_reads_kept_steps(s.bus, 0);
    lemma_next_frame(s, s);
    if let Some((b, t)) = s.next_u8() {
        lemma_cycle_frame(t, 0);
        lemma_kept_trans(s, t, t.ticked());
        let index = if mode == AddressingMode::ZeroPageX {
            s.x
        } else {
            s.y
        };
        assert((add8(b, index) as u16) <= 0x00FF);
    }
}

/// Absolute indexed addressing: the base word at the program counter
/// (little-endian) plus the index, with one more cycle when the opcode
/// always spends it or the sum leaves the base's page; the program counter
/// moves past the two bytes and nothing else changes but the clock.
pub proof fn lemma_absolute_indexed(s: CpuState, mode: AddressingMode, extra_cycle: bool)
    requires
        mode == AddressingMode::AbsoluteX || mode == AddressingMode::AbsoluteY,
        s.clock_counter + 4 <= u64::MAX,
    ensures
        s.operand_address(mode, extra_cycle) is Some <==> s.bus.can_read(s.program_counter)
            && s.bus.can_read(inc16(s.program_counter)),
        s.operand_address(mode, extra_cycle) matches Some((address, t)) ==> {
            let index = if mode == AddressingMode::AbsoluteX {
                s.x
            } else {
                s.y
            };
            let base = word(
                s.bus.read_value(s.program_counter),
                s.bus.read_value(inc16(s.program_counter)),
            );
            let a = add16(base, index as u16);
            &&& address == Some(a)
            &&& t.program_counter == add16(s.program_counter, 2)
            &&& t.clock_counter == s.clock_counter + 2 + if extra_cycle || page_crossed(a, base) {
                1int
            } else {
                0int
            }
            &&& same_registers(s, t)
            &&& reads_kept(s.bus, t.bus)
        },
{
    let pc = s.program_counter;
    lemma_reads_kept_steps(s.bus, 0);
    lemma_next_frame(s, s);
    if let Some((lo, t)) = s.next_u8() {
        // The second byte is read after the first; a read changes only what
        // its own address reads.
        let m = s.bus.after_tick();
        lemma_tick_keeps_reads(s.bus, inc16(pc));
        lemma_read_keeps_reads(m, pc, inc16(pc));
        lemma_tick_keeps_reads(m.after_read(pc), inc16(pc));
        lemma_cycle_frame(t, inc16(pc));
        if let Some((hi, u)) = t.next_u8() {
            lemma_kept_trans(s, t, u);
            lemma_cycle_frame(u, 0);
            lemma_kept_trans(s, u, u.ticked());
        }
    }
}

/// A branch: the offset byte at the program counter is read (one cycle);
/// when `condition` holds one more cycle is spent, another when the target
/// lies in another page than the address after the offset byte, and the
/// program counter moves to the target: the offset from that address, or
/// from the offset byte's own address when `from_offset_byte` holds.
/// Otherwise the program counter moves past the offset byte.
pub proof fn lemma_branch(s: CpuState, op: Opcode, condition: bool, from_offset_byte: bool)
    requires
        op.mode == AddressingMode::Relative,
        s.clock_counter + 4 <= u64::MAX,
    ensures
        s.spec_branch_from(op, condition, from_offset_byte) is Some <==> s.bus.can_read(
            s.program_counter,
        ),
        s.spec_branch_from(op, condition, from_offset_byte) matches Some(t) ==> {
            let next = inc16(s.program_counter);
            let offset = branch_offset(s.bus.read_value(s.program_counter));
            let target = add16(
                if from_offset_byte {
                    s.program_counter
                } else {
                    next
                },
                offset,
            );
            &&& !condition ==> t.program_counter == next && t.clock_counter == s.clock_counter + 1
            &&& condition ==> t.program_counter == target && t.clock_counter == s.clock_counter + 2
                + if page_crossed(next, target) {
                1int
            } else {
                0int
            }
            &&& same_registers(s, t)
            &&& reads_kept(s.bus, t.bus)
        },
{
    let pc = s.program_counter;
    lemma_reads_kept_steps(s.bus, 0);
    let u = s.with_pc(inc16(pc));
    assert(kept(s, u));
    lemma_cycle_frame(u, pc);
    if let Some((_, w)) = u.read(pc) {
        lemma_kept_trans(s, u, w);
        lemma_cycle_frame(w, 0);
        lemma_kept_trans(s, w, w.ticked());
        lemma_cycle_frame(w.ticked(), 0);
        lemma_kept_trans(s, w.ticked(), w.ticked().ticked());
        assert(vstd::wrapping::u16_specs::wrapping_sub(inc16(pc), 1) == pc);
    }
}

proof fn lemma_direct_frame(s: CpuState, mode: AddressingMode, extra_cycle: bool)
    requires
        mode != AddressingMode::Indirect,
        mode != AddressingMode::IndirectX,
        mode != AddressingMode::IndirectY,
    ensures
        s.operand_address(mode, extra_cycle) matches Some((_, t)) ==> kept(s, t)
            && t.program_counter == add16(s.program_counter, operand_bytes(mode)),
{
    lemma_reads_kept_steps(s.bus, 0);
    assert(kept(s, s.with_pc(inc16(s.program_counter))));
    lemma_next_frame(s, s);
    if let Some((_, t)) = s.next_u8() {
        lemma_cycle_frame(t, 0);
        lemma_kept_trans(s, t, t.ticked());
        lemma_next_frame(s, t);
        if let Some((_, u)) = t.next_u8() {
            lemma_cycle_frame(u, 0);
            lemma_kept_trans(s, u, u.ticked());
        }
    }
}

proof fn lemma_indirect_frame(s: CpuState, extra_cycle: bool)
    ensures
        s.operand_address(AddressingMode::Indirect, extra_cycle) matches Some((_, t)) ==> kept(s, t)
            && t.program_counter == add16(s.program_counter, 2),
{
    lemma_reads_kept_steps(s.bus, 0);
    lemma_next_frame(s, s);
    if let Some((_, t)) = s.next_u8() {
        lemma_next_frame(s, t);
        if let Some((pointer, u)) = s.next_u16() {
            lemma_cycle_frame(u, pointer);
            if let Some((_, w)) = u.read(pointer) {
                lemma_kept_trans(s, u, w);
                lemma_cycle_frame(w, pointer & 0xFF00);
                lemma_cycle_frame(w, inc16(pointer));
                if let Some((_, x)) = w.read(pointer & 0xFF00) {
                    lemma_kept_trans(s, w, x);
                }
                if let Some((_, x)) = w.read(inc16(pointer)) {
                    lemma_kept_trans(s, w, x);
                }
            }
        }
    }
}

proof fn lemma_indirect_x_frame(s: CpuState, extra_cycle: bool)
    ensures
        s.operand_address(AddressingMode::IndirectX, extra_cycle) matches Some((_, t)) ==> kept(s, t)
            && t.program_counter == add16(s.program_counter, 1),
{
    lemma_reads_kept_steps(s.bus, 0);
    lemma_next_frame(s, s);
    if let Some((base, t)) = s.next_u8() {
        let pointer = add8(base, t.x);
        lemma_cycle_frame(t, 0);
        lemma_kept_trans(s, t, t.ticked());
        lemma_cycle_frame(t.ticked(), pointer as u16);
        if let Some((_, u)) = t.ticked().read(pointer as u16) {
            lemma_kept_trans(s, t.ticked(), u);
            lemma_cycle_frame(u, add8(pointer, 1) as u16);
            if let Some((_, w)) = u.read(add8(pointer, 1) as u16) {
                lemma_kept_trans(s, u, w);
            }
        }
    }
}

proof fn lemma_indirect_y_frame(s: CpuState, extra_cycle: bool)
    ensures
        s.operand_address(AddressingMode::IndirectY, extra_cycle) matches Some((_, t)) ==> kept(s, t)
            && t.program_counter == add16(s.program_counter, 1),
{
    lemma_reads_kept_steps(s.bus, 0);
    lemma_next_frame(s, s);
    if let Some((base, t)) = s.next_u8() {
        lemma_cycle_frame(t, base as u16);
        if let Some((_, u)) = t.read(base as u16) {
            lemma_kept_trans(s, t, u);
            lemma_cycle_frame(u, add8(base, 1) as u16);
            if let Some((_, w)) = u.read(add8(base, 1) as u16) {
                lemma_kept_trans(s, u, w);
                lemma_cycle_frame(w, 0);
                lemma_kept_trans(s, w, w.ticked());
            }
        }
    }
}

/// Finding an operand's address keeps the registers but the program
/// counter, which moves past the operand bytes, and what every address but
/// the controller ports reads.
pub proof fn lemma_operand_address_frame(s: CpuState, mode: AddressingMode, extra_cycle: bool)
    ensures
        s.operand_address(mode, extra_cycle) matches Some((_, t)) ==> same_registers(s, t)
            && reads_kept(s.bus, t.bus) && (t.bus is Flat) == (s.bus is Flat) && (s.bus.ram_wf()
            ==> t.bus.ram_wf()) && t.program_counter == add16(
            s.program_counter,
            operand_bytes(mode),
        ),
{
    match mode {
        AddressingMode::Indirect => lemma_indirect_frame(s, extra_cycle),
        AddressingMode::IndirectX => lemma_indirect_x_frame(s, extra_cycle),
        AddressingMode::IndirectY => lemma_indirect_y_frame(s, extra_cycle),
        _ => lemma_direct_frame(s, mode, extra_cycle),
    }
}

/// Each entry's length is the opcode and its operand bytes; the NOPs that
/// find no address are the skip-byte ones of one operand byte and the
/// one-byte ones.
proof fn lemma_table_lengths(code: u8)
    requires
        spec_opcode(code) is Some,
    ensures
        ({
            let op = spec_opcode(code).unwrap();
            &&& op.code == code
            &&& op.length == 1 + operand_bytes(op.mode)
            &&& op.mnemonic == Mnemonic::Nop && !is_double_nop(code) ==> if is_skip_byte_nop(code) {
                operand_bytes(op.mode) == 1
            } else {
                operand_bytes(op.mode) == 0
            }
        }),
{
}

/// NOP changes no register but the program counter, which moves past the
/// instruction's operand bytes, and what no address but the controller
/// ports reads.
pub proof fn lemma_nop_frame(s: CpuState, op: Opcode)
    requires
        spec_opcode(op.code) == Some(op),
        op.mnemonic == Mnemonic::Nop,
        s.spec_nop(op) is Some,
    ensures
        same_registers(s, s.spec_nop(op).unwrap()),
        reads_kept(s.bus, s.spec_nop(op).unwrap().bus),
        s.spec_nop(op).unwrap().program_counter == add16(s.program_counter, (op.length - 1) as u16),
{
    lemma_table_lengths(op.code);
    lemma_operand_address_frame(s, op.mode, op.extra_cycle);
    lemma_reads_kept_steps(s.bus, 0);
    if is_double_nop(op.code) {
        let (_, u) = s.operand_address(op.mode, op.extra_cycle).unwrap();
        lemma_cycle_frame(u, 0);
        lemma_kept_trans(s, u, u.ticked());
    } else {
        let u = s.with_pc(inc16(s.program_counter));
        assert(kept(s, u));
        lemma_cycle_frame(u, 0);
        lemma_kept_trans(s, u, u.ticked());
        lemma_cycle_frame(s, 0);
    }
}

/// Reading an operand keeps the registers but the program counter, which
/// moves past the operand bytes, and what every address but the controller
/// ports reads; the value is what the address reads once it is found.
proof fn lemma_operand_value_frame(s: CpuState, op: Opcode)
    ensures
        s.operand_value(op) matches Some((v, t)) ==> {
            let (address, u) = s.operand_address(op.mode, op.extra_cycle).unwrap();
            &&& kept(s, t)
            &&& t.program_counter == add16(s.program_counter, operand_bytes(op.mode))
            &&& v == u.bus.read_value(address.unwrap())
        },
{
    lemma_operand_address_frame(s, op.mode, op.extra_cycle);
    if let Some((Some(address), u)) = s.operand_address(op.mode, op.extra_cycle) {
        lemma_cycle_frame(u, address);
        if let Some((_, t)) = u.read(address) {
            lemma_kept_trans(s, u, t);
        }
    }
}

/// CMP, CPX and CPY change the flags only: A, X, Y, the stack pointer and
/// what every address but the controller ports reads stay as they were.
pub proof fn lemma_compare_frame(s: CpuState, op: Opcode)
    ensures
        s.spec_cmp(op) matches Some(t) ==> t.a == s.a && t.x == s.x && t.y == s.y
            && t.stack_pointer == s.stack_pointer && reads_kept(s.bus, t.bus),
        s.spec_cpx(op) matches Some(t) ==> t.a == s.a && t.x == s.x && t.y == s.y
            && t.stack_pointer == s.stack_pointer && reads_kept(s.bus, t.bus),
        s.spec_cpy(op) matches Some(t) ==> t.a == s.a && t.x == s.x && t.y == s.y
            && t.stack_pointer == s.stack_pointer && reads_kept(s.bus, t.bus),
{
    lemma_operand_value_frame(s, op);
}

/// The state after a decrement of RAM: the registers as in `s` but the
/// flags, which describe `result`; `result` read back wherever `address`
/// aliases it; every other address but the controller ports reads as in
/// `s`.
pub open spec fn ram_decremented(s: CpuState, t: CpuState, address: u16, result: u8) -> bool {
    &&& t.a == s.a
    &&& t.x == s.x
    &&& t.y == s.y
    &&& t.stack_pointer == s.stack_pointer
    &&& t.status == value_flags(s.status, result)
    &&& forall|b: u16|
        #![trigger t.bus.read_value(b)]
        aliases(s.bus, address, b) ==> t.bus.read_value(b) == result
    &&& forall|b: u16|
        #![trigger t.bus.read_value(b)]
        !aliases(s.bus, address, b) && !is_port(b) ==> t.bus.read_value(b) == s.bus.read_value(b)
}

/// The read-modify-write decrement, on an address in RAM: the value read
/// there less one is written back (after the value as read) and is read
/// back wherever the address aliases; the flags describe it; nothing else
/// changes but the program counter and the clock.
pub proof fn lemma_decrement_frame(s: CpuState, op: Opcode)
    requires
        s.bus.ram_wf(),
    ensures
        s.spec_decrement(op) matches Some((r, t)) ==> {
            let (address, u) = s.operand_address(op.mode, op.extra_cycle).unwrap();
            let ea = address.unwrap();
            let v = u.bus.read_value(ea);
            &&& r == vstd::wrapping::u8_specs::wrapping_sub(v, 1)
            &&& !is_port(ea) ==> v == s.bus.read_value(ea)
            &&& is_ram(s.bus, ea) ==> ram_decremented(s, t, ea, r)
        },
{
    lemma_operand_address_frame(s, op.mode, op.extra_cycle);
    if let Some((Some(ea), u)) = s.operand_address(op.mode, op.extra_cycle) {
        lemma_cycle_frame(u, ea);
        if let Some((operand, w)) = u.read(ea) {
            lemma_kept_trans(s, u, w);
            let r = vstd::wrapping::u8_specs::wrapping_sub(operand, 1);
            let w1 = w.with_value_flags(r);
            if is_ram(s.bus, ea) {
                let m1 = w1.bus.after_tick();
                lemma_tick_keeps_reads(w1.bus, 0);
                lemma_ram_write_reads(m1, ea, operand, 0);
                let m2 = m1.after_write(ea, operand).after_tick();
                lemma_tick_keeps_reads(m1.after_write(ea, operand), 0);
                lemma_ram_write_reads(m2, ea, r, 0);
                let (_, t) = s.spec_decrement(op).unwrap();
                assert(t.bus == m2.after_write(ea, r));
                assert forall|b: u16| aliases(s.bus, ea, b) implies #[trigger] t.bus.read_value(b)
                    == r by {
                    lemma_ram_write_reads(m2, ea, r, b);
                }
                assert forall|b: u16| !aliases(s.bus, ea, b) && !is_port(b) implies #[trigger] t.bus.read_value(
                    b,
                ) == s.bus.read_value(b) by {
                    lemma_tick_keeps_reads(w1.bus, b);
                    lemma_ram_write_reads(m1, ea, operand, b);
                    lemma_tick_keeps_reads(m1.after_write(ea, operand), b);
                    lemma_ram_write_reads(m2, ea, r, b);
                    assert(w.bus.read_value(b) == s.bus.read_value(b));
                }
            }
        }
    }
}

/// DEC on an address in RAM: as the read-modify-write decrement above.
pub proof fn lemma_dec_frame(s: CpuState, op: Opcode)
    requires
        s.bus.ram_wf(),
    ensures
        s.spec_dec(op) matches Some(t) ==> {
            let (address, u) = s.operand_address(op.mode, op.extra_cycle).unwrap();
            let ea = address.unwrap();
            let r = vstd::wrapping::u8_specs::wrapping_sub(u.bus.read_value(ea), 1);
            is_ram(s.bus, ea) ==> ram_decremented(s, t, ea, r)
        },
{
    lemma_decrement_frame(s, op);
}

/// DCP on an address in RAM: the decrement above, then the flags of a
/// comparison of A with the decremented value; A, X, Y and the stack
/// pointer stay as they were.
pub proof fn lemma_dcp_frame(s: CpuState, op: Opcode)
    requires
        s.bus.ram_wf(),
    ensures
        s.spec_dcp(op) matches Some(t) ==> {
            let (address, u) = s.operand_address(op.mode, op.extra_cycle).unwrap();
            let ea = address.unwrap();
            let r = vstd::wrapping::u8_specs::wrapping_sub(u.bus.read_value(ea), 1);
            let (_, d) = s.spec_decrement(op).unwrap();
            &&& t == d.compared(d.a, r)
            &&& is_ram(s.bus, ea) ==> ram_decremented(s, d, ea, r) && t.a == s.a && t.x == s.x
                && t.y == s.y && t.stack_pointer == s.stack_pointer && t.bus == d.bus
        },
{
    lemma_decrement_frame(s, op);
}

/// Finding an operand's address without cycles keeps the program counter,
/// the clock and the registers; only the bus can change (a read of a
/// controller port shifts it).
pub proof fn lemma_unclocked_operand_frame(s: CpuState, mode: AddressingMode, address: u16)
    ensures
        s.unclocked_operand_address(mode, address) matches Some((_, t)) ==> same_registers(s, t)
            && t.program_counter == s.program_counter && t.clock_counter == s.clock_counter,
        s.unclocked_operand_value(mode, address) matches Some((_, t)) ==> same_registers(s, t)
            && t.program_counter == s.program_counter && t.clock_counter == s.clock_counter,
{
}

/// Whether none of the bytes that finding the operand's address in `mode`
/// reads, starting at the program counter, is a controller port.
pub open spec fn operand_reads_quiet(s: CpuState, mode: AddressingMode) -> bool {
    let pc = s.program_counter;
    let m = s.bus;
    match mode {
        AddressingMode::Implied | AddressingMode::Immediate | AddressingMode::Relative => true,
        AddressingMode::ZeroPage | AddressingMode::ZeroPageX | AddressingMode::ZeroPageY => !is_port(
            pc,
        ),
        AddressingMode::Absolute | AddressingMode::AbsoluteX | AddressingMode::AbsoluteY => !is_port(
            pc,
        ) && !is_port(inc16(pc)),
        AddressingMode::Indirect => {
            let pointer = word(m.read_value(pc), m.read_value(inc16(pc)));
            &&& !is_port(pc)
            &&& !is_port(inc16(pc))
            &&& !is_port(pointer)
            &&& if pointer & 0x00FF == 0x00FF {
                !is_port(pointer & 0xFF00)
            } else {
                !is_port(inc16(pointer))
            }
        },
        AddressingMode::IndirectX => {
            let pointer = add8(m.read_value(pc), s.x);
            !is_port(pc) && !is_port(pointer as u16) && !is_port(add8(pointer, 1) as u16)
        },
        AddressingMode::IndirectY => {
            let base = m.read_value(pc);
            !is_port(pc) && !is_port(base as u16) && !is_port(add8(base, 1) as u16)
        },
    }
}

/// An unclocked read of an address other than a controller port gives what
/// the address reads and changes nothing.
proof fn lemma_unclocked_quiet(s: CpuState, b: u16)
    requires
        !is_port(b),
    ensures
        s.unclocked_read(b) is Some <==> s.bus.can_read(b),
        s.unclocked_read(b) matches Some((v, t)) ==> v == s.bus.read_value(b) && t == s,
{
    lemma_read_keeps_reads(s.bus, b, b);
}

proof fn lemma_agree_direct(s: CpuState, mode: AddressingMode, extra_cycle: bool)
    requires
        mode != AddressingMode::Indirect,
        mode != AddressingMode::IndirectX,
        mode != AddressingMode::IndirectY,
        operand_reads_quiet(s, mode),
    ensures
        s.unclocked_operand_address(mode, s.program_counter) is Some <==> s.operand_address(
            mode,
            extra_cycle,
        ) is Some,
        s.unclocked_operand_address(mode, s.program_counter) matches Some((a, u)) ==> u == s
            && s.operand_address(mode, extra_cycle).unwrap().0 == a,
{
    let pc = s.program_counter;
    lemma_reads_kept_steps(s.bus, 0);
    if !is_port(pc) {
        lemma_unclocked_quiet(s, pc);
    }
    if !is_port(inc16(pc)) {
        lemma_unclocked_quiet(s, inc16(pc));
    }
    lemma_next_frame(s, s);
    if let Some((_, t)) = s.next_u8() {
        lemma_next_frame(s, t);
    }
}

proof fn lemma_agree_indirect(s: CpuState, extra_cycle: bool)
    requires
        operand_reads_quiet(s, AddressingMode::Indirect),
    ensures
        s.unclocked_operand_address(AddressingMode::Indirect, s.program_counter) is Some
            <==> s.operand_address(AddressingMode::Indirect, extra_cycle) is Some,
        s.unclocked_operand_address(AddressingMode::Indirect, s.program_counter) matches Some(
            (a, u),
        ) ==> u == s && s.operand_address(AddressingMode::Indirect, extra_cycle).unwrap().0 == a,
{
    let pc = s.program_counter;
    let pointer = word(s.bus.read_value(pc), s.bus.read_value(inc16(pc)));
    lemma_reads_kept_steps(s.bus, 0);
    lemma_unclocked_quiet(s, pc);
    lemma_unclocked_quiet(s, inc16(pc));
    lemma_unclocked_quiet(s, pointer);
    if pointer & 0x00FF == 0x00FF {
        lemma_unclocked_quiet(s, pointer & 0xFF00);
    } else {
        lemma_unclocked_quiet(s, inc16(pointer));
    }
    lemma_next_frame(s, s);
    if let Some((_, t)) = s.next_u8() {
        lemma_next_frame(s, t);
        if let Some((p, u)) = s.next_u16() {
            assert(p == pointer);
            lemma_read_as(s, u, pointer);
            if let Some((_, w)) = u.read(pointer) {
                if pointer & 0x00FF == 0x00FF {
                    lemma_read_as(s, w, pointer & 0xFF00);
                } else {
                    lemma_read_as(s, w, inc16(pointer));
                }
            }
        }
    }
}

proof fn lemma_agree_indirect_x(s: CpuState, extra_cycle: bool)
    requires
        operand_reads_quiet(s, AddressingMode::IndirectX),
    ensures
        s.unclocked_operand_address(AddressingMode::IndirectX, s.program_counter) is Some
            <==> s.operand_address(AddressingMode::IndirectX, extra_cycle) is Some,
        s.unclocked_operand_address(AddressingMode::IndirectX, s.program_counter) matches Some(
            (a, u),
        ) ==> u == s && s.operand_address(AddressingMode::IndirectX, extra_cycle).unwrap().0 == a,
{
    let pc = s.program_counter;
    let pointer = add8(s.bus.read_value(pc), s.x);
    lemma_reads_kept_steps(s.bus, 0);
    lemma_unclocked_quiet(s, pc);
    lemma_unclocked_quiet(s, pointer as u16);
    lemma_unclocked_quiet(s, add8(pointer, 1) as u16);
    lemma_next_frame(s, s);
    if let Some((_, t)) = s.next_u8() {
        lemma_cycle_frame(t, 0);
        lemma_kept_trans(s, t, t.ticked());
        lemma_read_as(s, t.ticked(), pointer as u16);
        if let Some((_, u)) = t.ticked().read(pointer as u16) {
            lemma_read_as(s, u, add8(pointer, 1) as u16);
        }
    }
}

proof fn lemma_agree_indirect_y(s: CpuState, extra_cycle: bool)
    requires
        operand_reads_quiet(s, AddressingMode::IndirectY),
    ensures
        s.unclocked_operand_address(AddressingMode::IndirectY, s.program_counter) is Some
            <==> s.operand_address(AddressingMode::IndirectY, extra_cycle) is Some,
        s.unclocked_operand_address(AddressingMode::IndirectY, s.program_counter) matches Some(
            (a, u),
        ) ==> u == s && s.operand_address(AddressingMode::IndirectY, extra_cycle).unwrap().0 == a,
{
    let pc = s.program_counter;
    let base = s.bus.read_value(pc);
    lemma_reads_kept_steps(s.bus, 0);
    lemma_unclocked_quiet(s, pc);
    lemma_unclocked_quiet(s, base as u16);
    lemma_unclocked_quiet(s, add8(base, 1) as u16);
    lemma_next_frame(s, s);
    if let Some((_, t)) = s.next_u8() {
        lemma_read_as(s, t, base as u16);
        if let Some((_, u)) = t.read(base as u16) {
            lemma_read_as(s, u, add8(base, 1) as u16);
        }
    }
}

/// Finding the operand's address with and without cycles agrees: when none
/// of the bytes read on the way is a controller port, the unclocked search
/// from the program counter succeeds exactly when the clocked one does,
/// leaves the CPU as it was, and gives the same address (the zero-page
/// wrap and the same-page indirect fetch included).
pub proof fn lemma_clocked_unclocked_agree(s: CpuState, mode: AddressingMode, extra_cycle: bool)
    requires
        operand_reads_quiet(s, mode),
    ensures
        s.unclocked_operand_address(mode, s.program_counter) is Some <==> s.operand_address(
            mode,
            extra_cycle,
        ) is Some,
        s.unclocked_operand_address(mode, s.program_counter) matches Some((a, u)) ==> u == s
            && s.operand_address(mode, extra_cycle).unwrap().0 == a,
{
    match mode {
        AddressingMode::Indirect => lemma_agree_indirect(s, extra_cycle),
        AddressingMode::IndirectX => lemma_agree_indirect_x(s, extra_cycle),
        AddressingMode::IndirectY => lemma_agree_indirect_y(s, extra_cycle),
        _ => lemma_agree_direct(s, mode, extra_cycle),
    }
}

} // verus!
