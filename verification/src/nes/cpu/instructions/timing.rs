//! Every instruction of the opcode table but CLC takes the cycles that its
//! entry gives, plus at most the page-crossing and branch penalties.
use vstd::prelude::*;

use crate::nes::cpu::addressing_mode::add8;
use crate::nes::cpu::opcode::{spec_opcode, AddressingMode, Mnemonic, Opcode};
use crate::nes::cpu::state::{inc16, CpuState, BREAK_FLAG, IRQ_VECTOR_ADDRESS, UNUSED_FLAG};

verus! {

/// The modes whose indexing may cross a page and cost a cycle more.
pub open spec fn penalty_mode(mode: AddressingMode) -> bool {
    mode == AddressingMode::AbsoluteX || mode == AddressingMode::AbsoluteY || mode
        == AddressingMode::IndirectY
}

/// How many cycles an instruction may take beyond its entry's count: two
/// for a branch (taken, and into another page), one for an indexed read
/// that may cross a page, none otherwise.
pub open spec fn max_extra_cycles(op: Opcode) -> int {
    if op.mode == AddressingMode::Relative {
        2
    } else if penalty_mode(op.mode) && !op.extra_cycle {
        1
    } else {
        0
    }
}

/// The cycles that finding the operand's address takes in each mode,
/// without the page-crossing cycle.
spec fn address_cycles(mode: AddressingMode) -> int {
    match mode {
        AddressingMode::Implied | AddressingMode::Immediate | AddressingMode::Relative => 0,
        AddressingMode::ZeroPage => 1,
        AddressingMode::ZeroPageX | AddressingMode::ZeroPageY | AddressingMode::Absolute
        | AddressingMode::AbsoluteX | AddressingMode::AbsoluteY => 2,
        AddressingMode::IndirectY => 3,
        AddressingMode::Indirect | AddressingMode::IndirectX => 4,
    }
}

/// The cycles an instruction takes once its operand's address is known.
spec fn work_cycles(op: Opcode) -> int {
    match op.mnemonic {
        Mnemonic::Adc | Mnemonic::And | Mnemonic::Bit | Mnemonic::Cmp | Mnemonic::Cpx
        | Mnemonic::Cpy | Mnemonic::Eor | Mnemonic::Lax | Mnemonic::Lda | Mnemonic::Ldx
        | Mnemonic::Ldy | Mnemonic::Ora | Mnemonic::Bcs | Mnemonic::Bmi | Mnemonic::Bpl => 1,
        Mnemonic::Asl => if op.code == 0x0A {
            1
        } else {
            3
        },
        Mnemonic::Dec | Mnemonic::Dcp | Mnemonic::Isb => 3,
        Mnemonic::Inc => if op.mode == AddressingMode::AbsoluteX {
            4
        } else {
            3
        },
        Mnemonic::Clc | Mnemonic::Cld | Mnemonic::Cli | Mnemonic::Clv | Mnemonic::Dex
        | Mnemonic::Dey | Mnemonic::Inx | Mnemonic::Iny | Mnemonic::Nop => 1,
        Mnemonic::Jmp => 0,
        Mnemonic::Jsr => 3,
        Mnemonic::Brk => 6,
        Mnemonic::Php => 2,
        Mnemonic::Plp => 3,
    }
}

/// Each entry's cycle count: the opcode fetch, the address, the cycle that
/// the entry always spends on indexing, and the work.
proof fn lemma_table_cycles(code: u8)
    requires
        spec_opcode(code) is Some,
    ensures
        ({
            let op = spec_opcode(code).unwrap();
            &&& op.code == code
            &&& op.extra_cycle ==> penalty_mode(op.mode)
            &&& op.cycles == 1 + address_cycles(op.mode) + (if op.extra_cycle {
                1int
            } else {
                0int
            }) + work_cycles(op)
        }),
{
}

/// The state `n` cycles later than `s`.
spec fn later(s: CpuState, t: CpuState, n: int) -> bool {
    t.clock_counter == s.clock_counter + n
}

/// Each bus cycle advances the clock by one.
proof fn lemma_cycle_clock(s: CpuState, address: u16, value: u8)
    requires
        s.clock_counter + 2 <= u64::MAX,
    ensures
        later(s, s.ticked(), 1),
        s.read(address) matches Some((_, t)) ==> later(s, t, 1),
        s.write(address, value) matches Some(t) ==> later(s, t, 1),
        s.next_u8() matches Some((_, t)) ==> later(s, t, 1),
        s.push_u8(value) matches Some(t) ==> later(s, t, 1),
        s.pop_u8() matches Some((_, t)) ==> later(s, t, 1),
        s.read_u16(address) matches Some((_, t)) ==> later(s, t, 2),
        s.next_u16() matches Some((_, t)) ==> later(s, t, 2),
{
    if let Some((_, t)) = s.read(address) {
        assert(later(t, t.ticked(), 1));
    }
    if let Some((_, t)) = s.next_u8() {
        assert(later(t, t.ticked(), 1));
    }
}

proof fn lemma_push_u16_clock(s: CpuState, value: u16)
    requires
        s.clock_counter + 4 <= u64::MAX,
    ensures
        s.push_u16(value) matches Some(t) ==> later(s, t, 2),
{
    lemma_cycle_clock(s, 0, (value >> 8u16) as u8);
    if let Some(t) = s.push_u8((value >> 8u16) as u8) {
        lemma_cycle_clock(t, 0, (value & 0xFF) as u8);
    }
}

/// The cycles that finding an address takes, for a state `t` the search
/// ends in.
spec fn address_time_ok(s: CpuState, t: CpuState, mode: AddressingMode, extra_cycle: bool) -> bool {
    let base = address_cycles(mode);
    if penalty_mode(mode) {
        if extra_cycle {
            later(s, t, base + 1)
        } else {
            later(s, t, base) || later(s, t, base + 1)
        }
    } else {
        later(s, t, base)
    }
}

proof fn lemma_indirect_cycles(s: CpuState, extra_cycle: bool)
    requires
        s.clock_counter + 8 <= u64::MAX,
    ensures
        s.operand_address(AddressingMode::Indirect, extra_cycle) matches Some((_, t))
            ==> address_time_ok(s, t, AddressingMode::Indirect, extra_cycle),
{
    lemma_cycle_clock(s, 0, 0);
    if let Some((pointer, t)) = s.next_u16() {
        lemma_cycle_clock(t, pointer, 0);
        if let Some((_, u)) = t.read(pointer) {
            lemma_cycle_clock(u, pointer & 0xFF00, 0);
        }
    }
}

proof fn lemma_indirect_x_cycles(s: CpuState, extra_cycle: bool)
    requires
        s.clock_counter + 8 <= u64::MAX,
    ensures
        s.operand_address(AddressingMode::IndirectX, extra_cycle) matches Some((_, t))
            ==> address_time_ok(s, t, AddressingMode::IndirectX, extra_cycle),
{
    lemma_cycle_clock(s, 0, 0);
    if let Some((base, t)) = s.next_u8() {
        let pointer = add8(base, t.x);
        lemma_cycle_clock(t, 0, 0);
        lemma_cycle_clock(t.ticked(), pointer as u16, 0);
        if let Some((_, u)) = t.ticked().read(pointer as u16) {
            lemma_cycle_clock(u, add8(pointer, 1) as u16, 0);
        }
    }
}

proof fn lemma_indirect_y_cycles(s: CpuState, extra_cycle: bool)
    requires
        s.clock_counter + 8 <= u64::MAX,
    ensures
        s.operand_address(AddressingMode::IndirectY, extra_cycle) matches Some((_, t))
            ==> address_time_ok(s, t, AddressingMode::IndirectY, extra_cycle),
{
    lemma_cycle_clock(s, 0, 0);
    if let Some((base, t)) = s.next_u8() {
        lemma_cycle_clock(t, base as u16, 0);
        if let Some((_, u)) = t.read(base as u16) {
            let next = add8(base, 1) as u16;
            lemma_cycle_clock(u, next, 0);
            if let Some((_, w)) = u.read(next) {
                lemma_cycle_clock(w, 0, 0);
            }
        }
    }
}

proof fn lemma_direct_modes_cycles(s: CpuState, mode: AddressingMode, extra_cycle: bool)
    requires
        s.clock_counter + 8 <= u64::MAX,
        mode != AddressingMode::Indirect,
        mode != AddressingMode::IndirectX,
        mode != AddressingMode::IndirectY,
        extra_cycle ==> penalty_mode(mode),
    ensures
        s.operand_address(mode, extra_cycle) matches Some((_, t)) ==> address_time_ok(
            s,
            t,
            mode,
            extra_cycle,
        ),
{
    lemma_cycle_clock(s, 0, 0);
    if let Some((_, t)) = s.next_u8() {
        lemma_cycle_clock(t, 0, 0);
    }
    if let Some((_, t)) = s.next_u16() {
        lemma_cycle_clock(t, 0, 0);
    }
}

/// The cycles that finding an operand's address takes.
proof fn lemma_operand_address_cycles(s: CpuState, mode: AddressingMode, extra_cycle: bool)
    requires
        s.clock_counter + 8 <= u64::MAX,
        extra_cycle ==> penalty_mode(mode),
    ensures
        s.operand_address(mode, extra_cycle) matches Some((_, t)) ==> address_time_ok(
            s,
            t,
            mode,
            extra_cycle,
        ),
{
    match mode {
        AddressingMode::Indirect => lemma_indirect_cycles(s, extra_cycle),
        AddressingMode::IndirectX => lemma_indirect_x_cycles(s, extra_cycle),
        AddressingMode::IndirectY => lemma_indirect_y_cycles(s, extra_cycle),
        _ => lemma_direct_modes_cycles(s, mode, extra_cycle),
    }
}

/// What an instruction takes, against its entry's count less the fetch.
spec fn time_ok(s: CpuState, t: CpuState, op: Opcode) -> bool {
    op.cycles - 1 <= t.clock_counter - s.clock_counter <= op.cycles - 1 + max_extra_cycles(op)
}

/// The instructions that read one operand and compute.
proof fn lemma_read_cycles(s: CpuState, op: Opcode)
    requires
        s.clock_counter + 16 <= u64::MAX,
        op.extra_cycle ==> penalty_mode(op.mode),
    ensures
        s.operand_value(op) matches Some((_, u)) ==> {
            let base = address_cycles(op.mode);
            if penalty_mode(op.mode) {
                if op.extra_cycle {
                    later(s, u, base + 2)
                } else {
                    later(s, u, base + 1) || later(s, u, base + 2)
                }
            } else {
                later(s, u, base + 1)
            }
        },
{
    lemma_operand_address_cycles(s, op.mode, op.extra_cycle);
    if let Some((Some(address), t)) = s.operand_address(op.mode, op.extra_cycle) {
        lemma_cycle_clock(t, address, 0);
    }
}

/// The read-modify-write instructions: read, then two more cycles.
proof fn lemma_modify_cycles(s: CpuState, op: Opcode)
    requires
        spec_opcode(op.code) == Some(op),
        s.clock_counter + 16 <= u64::MAX,
        s.spec_execute(op) is Some,
        op.mnemonic == Mnemonic::Dec || op.mnemonic == Mnemonic::Dcp || op.mnemonic
            == Mnemonic::Isb || op.mnemonic == Mnemonic::Inc || (op.mnemonic == Mnemonic::Asl
            && op.code != 0x0A),
    ensures
        time_ok(s, s.spec_execute(op).unwrap(), op),
{
    reveal(CpuState::spec_execute);
    lemma_table_cycles(op.code);
    let start = if op.mnemonic == Mnemonic::Inc && op.mode == AddressingMode::AbsoluteX {
        s.ticked()
    } else {
        s
    };
    lemma_cycle_clock(s, 0, 0);
    lemma_operand_address_cycles(start, op.mode, op.extra_cycle);
    let (address, u) = start.operand_address(op.mode, op.extra_cycle).unwrap();
    let address = address.unwrap();
    lemma_cycle_clock(u, address, 0);
    let (operand, w) = u.read(address).unwrap();
    let inc = vstd::wrapping::u8_specs::wrapping_add(operand, 1);
    let dec = vstd::wrapping::u8_specs::wrapping_sub(operand, 1);
    let shifted = operand << 1u8;
    lemma_cycle_clock(w, address, inc);
    lemma_cycle_clock(w.ticked(), address, inc);
    lemma_cycle_clock(w.with_value_flags(dec), address, operand);
    if let Some(x) = w.with_value_flags(dec).write(address, operand) {
        lemma_cycle_clock(x, address, dec);
    }
    let carried = w.with_status(
        crate::nes::cpu::state::with_flag(
            w.status,
            crate::nes::cpu::state::CARRY_FLAG,
            operand & crate::nes::cpu::state::NEGATIVE_FLAG != 0,
        ),
    );
    lemma_cycle_clock(carried, 0, 0);
    lemma_cycle_clock(carried.ticked().with_value_flags(shifted), address, shifted);
}

/// Branches: the offset read, then one cycle if taken and one more if the
/// target lies in another page.
proof fn lemma_branch_cycles(s: CpuState, op: Opcode)
    requires
        spec_opcode(op.code) == Some(op),
        s.clock_counter + 16 <= u64::MAX,
        s.spec_execute(op) is Some,
        op.mnemonic == Mnemonic::Bcs || op.mnemonic == Mnemonic::Bmi || op.mnemonic
            == Mnemonic::Bpl,
    ensures
        time_ok(s, s.spec_execute(op).unwrap(), op),
{
    reveal(CpuState::spec_execute);
    lemma_table_cycles(op.code);
    lemma_read_cycles(s, op);
    let (_, u) = s.operand_value(op).unwrap();
    lemma_cycle_clock(u, 0, 0);
    lemma_cycle_clock(u.ticked(), 0, 0);
}

/// JMP and JSR.
proof fn lemma_jump_cycles(s: CpuState, op: Opcode)
    requires
        spec_opcode(op.code) == Some(op),
        s.clock_counter + 16 <= u64::MAX,
        s.spec_execute(op) is Some,
        op.mnemonic == Mnemonic::Jmp || op.mnemonic == Mnemonic::Jsr,
    ensures
        time_ok(s, s.spec_execute(op).unwrap(), op),
{
    reveal(CpuState::spec_execute);
    lemma_table_cycles(op.code);
    lemma_operand_address_cycles(s, op.mode, op.extra_cycle);
    if op.mnemonic == Mnemonic::Jsr {
        let (_, u) = s.operand_address(op.mode, op.extra_cycle).unwrap();
        lemma_cycle_clock(u, 0, 0);
        lemma_push_u16_clock(u.ticked(), inc16(u.ticked().program_counter));
    }
}

/// BRK: the padding byte, three pushes and the vector.
proof fn lemma_brk_cycles(s: CpuState, op: Opcode)
    requires
        spec_opcode(op.code) == Some(op),
        s.clock_counter + 16 <= u64::MAX,
        s.spec_execute(op) is Some,
        op.mnemonic == Mnemonic::Brk,
    ensures
        time_ok(s, s.spec_execute(op).unwrap(), op),
{
    reveal(CpuState::spec_execute);
    lemma_table_cycles(op.code);
    let s0 = s.with_pc(inc16(s.program_counter));
    let u = s0.ticked();
    lemma_cycle_clock(s0, 0, 0);
    lemma_push_u16_clock(u, u.program_counter);
    let v = u.push_u16(u.program_counter).unwrap();
    lemma_cycle_clock(v, 0, v.status | BREAK_FLAG | UNUSED_FLAG);
    let w = v.push_u8(v.status | BREAK_FLAG | UNUSED_FLAG).unwrap();
    let st = crate::nes::cpu::state::with_flag(
        w.status,
        crate::nes::cpu::state::INTERRUPT_DISABLE_FLAG,
        true,
    );
    lemma_cycle_clock(w.with_status(st), IRQ_VECTOR_ADDRESS, 0);
}

/// PHP and PLP.
proof fn lemma_stack_cycles(s: CpuState, op: Opcode)
    requires
        spec_opcode(op.code) == Some(op),
        s.clock_counter + 16 <= u64::MAX,
        s.spec_execute(op) is Some,
        op.mnemonic == Mnemonic::Php || op.mnemonic == Mnemonic::Plp,
    ensures
        time_ok(s, s.spec_execute(op).unwrap(), op),
{
    reveal(CpuState::spec_execute);
    lemma_table_cycles(op.code);
    lemma_cycle_clock(s, 0, 0);
    lemma_cycle_clock(s.ticked(), 0, s.status | UNUSED_FLAG | BREAK_FLAG);
    lemma_cycle_clock(s.ticked().ticked(), 0, 0);
}

/// The instructions that read an operand and compute.
proof fn lemma_compute_cycles(s: CpuState, op: Opcode)
    requires
        spec_opcode(op.code) == Some(op),
        s.clock_counter + 16 <= u64::MAX,
        s.spec_execute(op) is Some,
        op.mnemonic == Mnemonic::Adc || op.mnemonic == Mnemonic::And || op.mnemonic
            == Mnemonic::Bit || op.mnemonic == Mnemonic::Cmp || op.mnemonic == Mnemonic::Cpx
            || op.mnemonic == Mnemonic::Cpy || op.mnemonic == Mnemonic::Eor || op.mnemonic
            == Mnemonic::Lax || op.mnemonic == Mnemonic::Lda || op.mnemonic == Mnemonic::Ldx
            || op.mnemonic == Mnemonic::Ldy || op.mnemonic == Mnemonic::Ora,
    ensures
        time_ok(s, s.spec_execute(op).unwrap(), op),
{
    reveal(CpuState::spec_execute);
    lemma_table_cycles(op.code);
    lemma_read_cycles(s, op);
}

/// The one-byte instructions that take one internal cycle, and the NOPs.
proof fn lemma_internal_cycles(s: CpuState, op: Opcode)
    requires
        spec_opcode(op.code) == Some(op),
        s.clock_counter + 16 <= u64::MAX,
        s.spec_execute(op) is Some,
        op.mnemonic == Mnemonic::Cld || op.mnemonic == Mnemonic::Cli || op.mnemonic == Mnemonic::Clv || op.mnemonic == Mnemonic::Dex
            || op.mnemonic == Mnemonic::Dey || op.mnemonic == Mnemonic::Inx || op.mnemonic
            == Mnemonic::Iny || op.mnemonic == Mnemonic::Nop || (op.mnemonic == Mnemonic::Asl
            && op.code == 0x0A),
    ensures
        time_ok(s, s.spec_execute(op).unwrap(), op),
{
    reveal(CpuState::spec_execute);
    lemma_table_cycles(op.code);
    lemma_cycle_clock(s, 0, 0);
    if op.mnemonic == Mnemonic::Nop {
        lemma_operand_address_cycles(s, op.mode, op.extra_cycle);
        if let Some((_, u)) = s.operand_address(op.mode, op.extra_cycle) {
            lemma_cycle_clock(u, 0, 0);
        }
        lemma_cycle_clock(s.with_pc(inc16(s.program_counter)), 0, 0);
    }
}

/// CLC spends no cycle once fetched.
proof fn lemma_clc_cycles(s: CpuState, op: Opcode)
    requires
        s.spec_execute(op) is Some,
        op.mnemonic == Mnemonic::Clc,
    ensures
        s.spec_execute(op).unwrap().clock_counter == s.clock_counter,
{
    reveal(CpuState::spec_execute);
}

/// Every instruction of the opcode table, its opcode fetched, takes the
/// cycles of its entry less the fetch, plus at most `max_extra_cycles`;
/// CLC alone takes no cycle once fetched, one less than its entry gives.
pub proof fn lemma_instruction_cycles(s: CpuState, op: Opcode)
    requires
        spec_opcode(op.code) == Some(op),
        s.clock_counter + 16 <= u64::MAX,
        s.spec_execute(op) is Some,
    ensures
        op.mnemonic != Mnemonic::Clc ==> op.cycles - 1 <= s.spec_execute(op).unwrap().clock_counter
            - s.clock_counter <= op.cycles - 1 + max_extra_cycles(op),
        op.mnemonic == Mnemonic::Clc ==> s.spec_execute(op).unwrap().clock_counter
            == s.clock_counter,
{
    match op.mnemonic {
        Mnemonic::Dec | Mnemonic::Dcp | Mnemonic::Isb | Mnemonic::Inc => lemma_modify_cycles(s, op),
        Mnemonic::Asl => if op.code == 0x0A {
            lemma_internal_cycles(s, op)
        } else {
            lemma_modify_cycles(s, op)
        },
        Mnemonic::Bcs | Mnemonic::Bmi | Mnemonic::Bpl => lemma_branch_cycles(s, op),
        Mnemonic::Jmp | Mnemonic::Jsr => lemma_jump_cycles(s, op),
        Mnemonic::Brk => lemma_brk_cycles(s, op),
        Mnemonic::Php | Mnemonic::Plp => lemma_stack_cycles(s, op),
        Mnemonic::Clc => lemma_clc_cycles(s, op),
        Mnemonic::Cld | Mnemonic::Cli | Mnemonic::Clv | Mnemonic::Dex | Mnemonic::Dey
        | Mnemonic::Inx | Mnemonic::Iny | Mnemonic::Nop => lemma_internal_cycles(s, op),
        _ => lemma_compute_cycles(s, op),
    }
}

/// One step of the CPU (fetch, decode, execute) takes the cycles of the
/// instruction's entry, plus at most `max_extra_cycles`; a CLC step takes
/// one cycle, its fetch.
pub proof fn lemma_step_cycles(s: CpuState)
    requires
        s.spec_step() is Some,
        s.clock_counter + 32 <= u64::MAX,
    ensures
        ({
            let (op, t) = s.spec_step().unwrap();
            &&& op.mnemonic != Mnemonic::Clc ==> op.cycles <= t.clock_counter - s.clock_counter
                <= op.cycles + max_extra_cycles(op)
            &&& op.mnemonic == Mnemonic::Clc ==> t.clock_counter - s.clock_counter == 1
        }),
{
    lemma_cycle_clock(s, 0, 0);
    let (code, u) = s.next_u8().unwrap();
    lemma_table_cycles(code);
    lemma_instruction_cycles(u, spec_opcode(code).unwrap());
}

} // verus!
