//! Control flow: BCS, BMI, BPL (branches), JMP, JSR, BRK, and the NOP
//! family.
use vstd::prelude::*;

use crate::nes::cpu::memory::{
    aliases, is_ram, lemma_ram_write_reads, lemma_read_keeps_reads, lemma_tick_keeps_reads,
};
use crate::nes::cpu::opcode::Opcode;
use crate::nes::cpu::state::{
    inc16, with_flag, CpuState, BREAK_FLAG, CARRY_FLAG, INTERRUPT_DISABLE_FLAG,
    IRQ_VECTOR_ADDRESS, NEGATIVE_FLAG, STACK_PAGE, UNUSED_FLAG, word,
};
use crate::nes::cpu::CPU;

verus! {

/// The two- and three-byte NOPs that fetch an operand address.
pub open spec fn is_double_nop(code: u8) -> bool {
    code == 0x04 || code == 0x44 || code == 0x64 || code == 0x14 || code == 0x34 || code == 0x54
        || code == 0x74 || code == 0xD4 || code == 0xF4 || code == 0x0C || code == 0x1C || code
        == 0x3C || code == 0x5C || code == 0x7C || code == 0xDC || code == 0xFC
}

/// The two-byte NOPs that skip their operand byte.
pub open spec fn is_skip_byte_nop(code: u8) -> bool {
    code == 0x80 || code == 0x82 || code == 0x89 || code == 0xC2 || code == 0xE2
}

impl CpuState {
    /// The jump target of a JMP.
    pub open spec fn spec_jmp(self, op: Opcode) -> Option<CpuState> {
        match self.operand_address(op.mode, op.extra_cycle) {
            Some((Some(address), s)) => Some(s.with_pc(address)),
            _ => None,
        }
    }

    /// JSR: after the target address, one internal cycle; the program
    /// counter plus one is pushed and the program counter jumps.
    pub open spec fn spec_jsr(self, op: Opcode) -> Option<CpuState> {
        match self.operand_address(op.mode, op.extra_cycle) {
            Some((Some(address), s)) => {
                let t = s.ticked();
                match t.push_u16(inc16(t.program_counter)) {
                    Some(u) => Some(u.with_pc(address)),
                    None => None,
                }
            },
            _ => None,
        }
    }

    /// The software interrupt: one cycle reading the padding byte, the
    /// program counter and the status (with the break and unused bits set)
    /// pushed, interrupts disabled, and a jump through the vector at $FFFE.
    pub open spec fn spec_handle_break(self) -> Option<CpuState> {
        let t = self.ticked();
        match t.push_u16(t.program_counter) {
            Some(u) => match u.push_u8(u.status | BREAK_FLAG | UNUSED_FLAG) {
                Some(v) => {
                    let w = v.with_status(with_flag(v.status, INTERRUPT_DISABLE_FLAG, true));
                    match w.read_u16(IRQ_VECTOR_ADDRESS) {
                        Some((target, z)) => Some(z.with_pc(target)),
                        None => None,
                    }
                },
                None => None,
            },
            None => None,
        }
    }

    /// BRK: skip the padding byte, then the software interrupt.
    pub open spec fn spec_brk(self) -> Option<CpuState> {
        self.with_pc(inc16(self.program_counter)).spec_handle_break()
    }

    /// NOP: the double NOPs find (but do not read) an operand address, the
    /// skip-byte NOPs step over one byte; then one internal cycle.
    pub open spec fn spec_nop(self, op: Opcode) -> Option<CpuState> {
        if is_double_nop(op.code) {
            match self.operand_address(op.mode, op.extra_cycle) {
                Some((Some(_), s)) => Some(s.ticked()),
                _ => None,
            }
        } else if is_skip_byte_nop(op.code) {
            Some(self.with_pc(inc16(self.program_counter)).ticked())
        } else {
            Some(self.ticked())
        }
    }
}

impl CPU {
    /// Branches if the carry is set; the offset counts from the offset
    /// byte's own address.
    pub fn instruction_bcs(&mut self, opcode: &Opcode)
        requires
            old(self)@.wf(),
            old(self)@.spec_branch_from(*opcode, old(self)@.flag(CARRY_FLAG), true) is Some,
        ensures
            final(self)@ == old(self)@.spec_branch_from(*opcode, old(self)@.flag(CARRY_FLAG), true).unwrap(),
            final(self)@.wf(),
    {
        let condition = (self.status & CARRY_FLAG) != 0;
        self.branch(opcode, condition, true);
    }

    /// Branches if the negative flag is set; the offset counts from the
    /// offset byte's own address.
    pub fn instruction_bmi(&mut self, opcode: &Opcode)
        requires
            old(self)@.wf(),
            old(self)@.spec_branch_from(*opcode, old(self)@.flag(NEGATIVE_FLAG), true) is Some,
        ensures
            final(self)@ == old(self)@.spec_branch_from(*opcode, old(self)@.flag(NEGATIVE_FLAG), true).unwrap(),
            final(self)@.wf(),
    {
        let condition = (self.status & NEGATIVE_FLAG) != 0;
        self.branch(opcode, condition, true);
    }

    /// Branches if the negative flag is clear; the offset counts from the
    /// address after the offset byte.
    pub fn instruction_bpl(&mut self, opcode: &Opcode)
        requires
            old(self)@.wf(),
            old(self)@.spec_branch(*opcode, !old(self)@.flag(NEGATIVE_FLAG)) is Some,
        ensures
            final(self)@ == old(self)@.spec_branch(*opcode, !old(self)@.flag(NEGATIVE_FLAG)).unwrap(),
            final(self)@.wf(),
    {
        let condition = (self.status & NEGATIVE_FLAG) == 0;
        self.branch_on_condition(opcode, condition);
    }

    /// Jumps.
    pub fn instruction_jmp(&mut self, opcode: &Opcode)
        requires
            old(self)@.wf(),
            old(self)@.spec_jmp(*opcode) is Some,
        ensures
            final(self)@ == old(self)@.spec_jmp(*opcode).unwrap(),
            final(self)@.wf(),
    {
        let mode = &opcode.mode;
        let address = self.get_operand_address(opcode, mode).unwrap();
        self.program_counter = address;
    }

    /// Jumps to a subroutine.
    pub fn instruction_jsr(&mut self, opcode: &Opcode)
        requires
            old(self)@.wf(),
            old(self)@.spec_jsr(*opcode) is Some,
        ensures
            final(self)@ == old(self)@.spec_jsr(*opcode).unwrap(),
            final(self)@.wf(),
    {
        let mode = &opcode.mode;
        let address = self.get_operand_address(opcode, mode).unwrap();
        self.tick();
        let return_address = self.program_counter.wrapping_add(1);
        self.push_u16(return_address);
        self.program_counter = address;
    }

    /// The software interrupt sequence.
    pub fn handle_break(&mut self)
        requires
            old(self)@.wf(),
            old(self)@.spec_handle_break() is Some,
        ensures
            final(self)@ == old(self)@.spec_handle_break().unwrap(),
            final(self)@.wf(),
    {
        self.tick();
        let pc = self.program_counter;
        self.push_u16(pc);
        let pushed = self.status | BREAK_FLAG | UNUSED_FLAG;
        self.push_u8(pushed);
        self.set_flag(INTERRUPT_DISABLE_FLAG, true);
        self.program_counter = self.read_u16(IRQ_VECTOR_ADDRESS);
    }

    /// Break: a two-byte software interrupt.
    pub fn instruction_brk(&mut self, _opcode: &Opcode)
        requires
            old(self)@.wf(),
            old(self)@.spec_brk() is Some,
        ensures
            final(self)@ == old(self)@.spec_brk().unwrap(),
            final(self)@.wf(),
    {
        self.increment_program_counter();
        self.handle_break();
    }

    /// No operation.
    pub fn instruction_nop(&mut self, opcode: &Opcode)
        requires
            old(self)@.wf(),
            old(self)@.spec_nop(*opcode) is Some,
        ensures
            final(self)@ == old(self)@.spec_nop(*opcode).unwrap(),
            final(self)@.wf(),
    {
        let mode = &opcode.mode;
        let code = opcode.code;
        if code == 0x04 || code == 0x44 || code == 0x64 || code == 0x14 || code == 0x34 || code
            == 0x54 || code == 0x74 || code == 0xD4 || code == 0xF4 || code == 0x0C || code == 0x1C
            || code == 0x3C || code == 0x5C || code == 0x7C || code == 0xDC || code == 0xFC {
            let _address = self.get_operand_address(opcode, mode).unwrap();
        } else if code == 0x80 || code == 0x82 || code == 0x89 || code == 0xC2 || code == 0xE2 {
            self.increment_program_counter();
        }
        self.tick();
    }
}

/// One push, seen from any address `b`: the byte goes to the top of the
/// stack and is read back wherever that address aliases; every other
/// address reads as before; the stack grows by one and nothing else of the
/// registers changes.
proof fn lemma_push_reads(q: CpuState, x: u8, b: u16)
    requires
        q.bus.ram_wf(),
        is_ram(q.bus, STACK_PAGE | (q.stack_pointer as u16)),
    ensures
        q.push_u8(x) is Some,
        ({
            let r = q.push_u8(x).unwrap();
            let top = STACK_PAGE | (q.stack_pointer as u16);
            &&& r.bus.ram_wf()
            &&& (r.bus is Flat) == (q.bus is Flat)
            &&& r.bus.can_read(b) == q.bus.can_read(b)
            &&& r.bus.read_value(b) == if aliases(q.bus, top, b) {
                x
            } else {
                q.bus.read_value(b)
            }
            &&& r.stack_pointer == vstd::wrapping::u8_specs::wrapping_sub(q.stack_pointer, 1)
            &&& r.status == q.status
            &&& r.program_counter == q.program_counter
        }),
{
    let top = STACK_PAGE | (q.stack_pointer as u16);
    lemma_tick_keeps_reads(q.bus, b);
    lemma_tick_keeps_reads(q.bus, top);
    lemma_ram_write_reads(q.bus.after_tick(), top, x, b);
}

/// BRK, from the padding byte after its opcode: the address after that
/// byte, high byte first, and then the status with the break and unused
/// bits (4 and 5) set go onto the stack, which grows by three; interrupts
/// are disabled, the other flags stay, and the program counter takes the
/// vector at $FFFE-$FFFF. It succeeds whenever the vector can be read.
pub proof fn lemma_brk_result(s: CpuState)
    requires
        s.bus.ram_wf(),
        s.bus.can_read(IRQ_VECTOR_ADDRESS),
        s.bus.can_read(0xFFFF),
    ensures
        s.spec_brk() is Some,
        ({
            let t = s.spec_brk().unwrap();
            let ret = vstd::wrapping::u16_specs::wrapping_add(s.program_counter, 1);
            let sp = s.stack_pointer;
            let sp1 = vstd::wrapping::u8_specs::wrapping_sub(sp, 1);
            let sp2 = vstd::wrapping::u8_specs::wrapping_sub(sp, 2);
            &&& t.program_counter == word(s.bus.read_value(IRQ_VECTOR_ADDRESS), s.bus.read_value(0xFFFF))
            &&& t.status == s.status | 0x04
            &&& t.stack_pointer == vstd::wrapping::u8_specs::wrapping_sub(sp, 3)
            &&& t.bus.read_value(STACK_PAGE | (sp as u16)) == (ret >> 8u16) as u8
            &&& t.bus.read_value(STACK_PAGE | (sp1 as u16)) == (ret & 0xFF) as u8
            &&& t.bus.read_value(STACK_PAGE | (sp2 as u16)) == s.status | 0x30
            &&& t.a == s.a
            &&& t.x == s.x
            &&& t.y == s.y
        }),
{
    let ret = vstd::wrapping::u16_specs::wrapping_add(s.program_counter, 1);
    let sp = s.stack_pointer;
    let sp1 = vstd::wrapping::u8_specs::wrapping_sub(sp, 1);
    let sp2 = vstd::wrapping::u8_specs::wrapping_sub(sp, 2);
    let a0 = STACK_PAGE | (sp as u16);
    let a1 = STACK_PAGE | (sp1 as u16);
    let a2 = STACK_PAGE | (sp2 as u16);
    let st = s.status;
    assert({
        &&& a0 <= 0x01FF && a1 <= 0x01FF && a2 <= 0x01FF
        &&& a0 != a1 && a0 != a2 && a1 != a2
        &&& a0 & 0x07FF != a1 & 0x07FF && a0 & 0x07FF != a2 & 0x07FF && a1 & 0x07FF != a2 & 0x07FF
        &&& (st | BREAK_FLAG | UNUSED_FLAG) == st | 0x30
        &&& (st | BREAK_FLAG | UNUSED_FLAG) | 0x04 == (st | 0x30) | 0x04
    }) by (bit_vector)
        requires
            a0 == 0x0100u16 | (sp as u16),
            a1 == 0x0100u16 | (sp1 as u16),
            a2 == 0x0100u16 | (sp2 as u16),
            (sp1 as u16) + 1 == (sp as u16) || (sp == 0 && sp1 == 255),
            (sp2 as u16) + 1 == (sp1 as u16) || (sp1 == 0 && sp2 == 255),
    ;
    let v = 0xFFFEu16;
    let w = 0xFFFFu16;
    let t = s.with_pc(ret).ticked();
    lemma_tick_keeps_reads(s.bus, a0);
    lemma_tick_keeps_reads(s.bus, v);
    lemma_tick_keeps_reads(s.bus, w);
    let hi = (ret >> 8u16) as u8;
    let lo = (ret & 0xFF) as u8;
    lemma_push_reads(t, hi, a0);
    lemma_push_reads(t, hi, a1);
    lemma_push_reads(t, hi, a2);
    lemma_push_reads(t, hi, v);
    lemma_push_reads(t, hi, w);
    let u1 = t.push_u8(hi).unwrap();
    lemma_push_reads(u1, lo, a0);
    lemma_push_reads(u1, lo, a1);
    lemma_push_reads(u1, lo, a2);
    lemma_push_reads(u1, lo, v);
    lemma_push_reads(u1, lo, w);
    let u2 = u1.push_u8(lo).unwrap();
    assert(t.push_u16(ret) == Some(u2));
    let x = u2.status | BREAK_FLAG | UNUSED_FLAG;
    lemma_push_reads(u2, x, a0);
    lemma_push_reads(u2, x, a1);
    lemma_push_reads(u2, x, a2);
    lemma_push_reads(u2, x, v);
    lemma_push_reads(u2, x, w);
    let u3 = u2.push_u8(x).unwrap();
    let m = u3.bus;
    lemma_tick_keeps_reads(m, v);
    lemma_tick_keeps_reads(m, w);
    lemma_tick_keeps_reads(m, a0);
    lemma_tick_keeps_reads(m, a1);
    lemma_tick_keeps_reads(m, a2);
    let m1 = m.after_tick().after_read(v);
    lemma_read_keeps_reads(m.after_tick(), v, w);
    lemma_read_keeps_reads(m.after_tick(), v, a0);
    lemma_tick_keeps_reads(m1, w);
    lemma_tick_keeps_reads(m1, a0);
    lemma_tick_keeps_reads(m1, a1);
    lemma_tick_keeps_reads(m1, a2);
    lemma_read_keeps_reads(m1.after_tick(), w, a0);
}

/// JSR, once its target address is found: after one more cycle the
/// program counter plus one goes onto the stack, high byte first, the
/// stack grows by two, and the program counter takes the target; the flags
/// and the other registers stay. It fails exactly when finding the target
/// fails.
pub proof fn lemma_jsr_result(s: CpuState, op: Opcode)
    ensures
        s.operand_address(op.mode, op.extra_cycle) matches Some((Some(target), u)) ==> {
            &&& u.bus.ram_wf() ==> s.spec_jsr(op) is Some
            &&& s.spec_jsr(op) matches Some(t) ==> {
                let ret = vstd::wrapping::u16_specs::wrapping_add(u.program_counter, 1);
                let sp = u.stack_pointer;
                let sp1 = vstd::wrapping::u8_specs::wrapping_sub(sp, 1);
                &&& t.program_counter == target
                &&& t.stack_pointer == vstd::wrapping::u8_specs::wrapping_sub(sp, 2)
                &&& u.bus.ram_wf() ==> t.bus.read_value(STACK_PAGE | (sp as u16)) == (ret >> 8u16) as u8
                &&& u.bus.ram_wf() ==> t.bus.read_value(STACK_PAGE | (sp1 as u16)) == (ret & 0xFF) as u8
                &&& t.status == u.status
                &&& t.a == u.a
                &&& t.x == u.x
                &&& t.y == u.y
            }
        },
        !(s.operand_address(op.mode, op.extra_cycle) matches Some((Some(_), _))) ==> s.spec_jsr(op)
            is None,
{
    if let Some((Some(target), u)) = s.operand_address(op.mode, op.extra_cycle) {
        let t = u.ticked();
        let ret = inc16(t.program_counter);
        let sp = u.stack_pointer;
        let sp1 = vstd::wrapping::u8_specs::wrapping_sub(sp, 1);
        let a0 = STACK_PAGE | (sp as u16);
        let a1 = STACK_PAGE | (sp1 as u16);
        assert(a0 <= 0x01FF && a1 <= 0x01FF && a0 != a1 && a0 & 0x07FF != a1 & 0x07FF)
            by (bit_vector)
            requires
                a0 == 0x0100u16 | (sp as u16),
                a1 == 0x0100u16 | (sp1 as u16),
                (sp1 as u16) + 1 == (sp as u16) || (sp == 0 && sp1 == 255),
        ;
        let hi = (ret >> 8u16) as u8;
        let lo = (ret & 0xFF) as u8;
        lemma_tick_keeps_reads(u.bus, a0);
        if u.bus.ram_wf() {
            lemma_push_reads(t, hi, a0);
            lemma_push_reads(t, hi, a1);
            let u1 = t.push_u8(hi).unwrap();
            lemma_push_reads(u1, lo, a0);
            lemma_push_reads(u1, lo, a1);
        }
    }
}

} // verus!
