//! PHP and PLP: push and pull the status register.
use vstd::prelude::*;

use crate::nes::cpu::opcode::Opcode;
use crate::nes::cpu::memory::{lemma_ram_read_back, lemma_tick_keeps_ram, lemma_tick_keeps_reads};
use crate::nes::cpu::state::{CpuState, BREAK_FLAG, STACK_PAGE, UNUSED_FLAG};
use crate::nes::cpu::CPU;

verus! {

impl CpuState {
    /// PHP: one cycle reading the next byte, then the status, with the
    /// break and unused bits set, is pushed.
    pub open spec fn spec_php(self) -> Option<CpuState> {
        let t = self.ticked();
        t.push_u8(t.status | UNUSED_FLAG | BREAK_FLAG)
    }

    /// PLP: two internal cycles, then the status is pulled, without the
    /// break and unused bits.
    pub open spec fn spec_plp(self) -> Option<CpuState> {
        match self.ticked().ticked().pop_u8() {
            Some((v, s)) => Some(s.with_status(v & !UNUSED_FLAG & !BREAK_FLAG)),
            None => None,
        }
    }
}

impl CPU {
    /// Pushes the status.
    pub fn instruction_php(&mut self, _opcode: &Opcode)
        requires
            old(self)@.wf(),
            old(self)@.spec_php() is Some,
        ensures
            final(self)@ == old(self)@.spec_php().unwrap(),
            final(self)@.wf(),
    {
        self.tick();
        let input = self.status | UNUSED_FLAG | BREAK_FLAG;
        self.push_u8(input);
    }

    /// Pulls the status.
    pub fn instruction_plp(&mut self, _opcode: &Opcode)
        requires
            old(self)@.wf(),
            old(self)@.spec_plp() is Some,
        ensures
            final(self)@ == old(self)@.spec_plp().unwrap(),
            final(self)@.wf(),
    {
        self.tick();
        self.tick();
        let output = self.pop_u8() & !UNUSED_FLAG & !BREAK_FLAG;
        self.status = output;
    }
}

/// PLP replaces the whole status register: when the byte at the new top of
/// the stack can be read, the pull succeeds, and the status afterwards is
/// that byte with the break and unused bits (4 and 5) cleared, whatever the
/// flags were before. The stack shrinks by one; A, X, Y and the program
/// counter are kept.
pub proof fn lemma_plp_replaces_status(s: CpuState)
    ensures
        ({
            let sp = vstd::wrapping::u8_specs::wrapping_add(s.stack_pointer, 1);
            let top = STACK_PAGE | (sp as u16);
            &&& s.spec_plp() is Some <==> s.bus.can_read(top)
            &&& s.spec_plp() matches Some(t) ==> {
                &&& t.status == s.bus.read_value(top) & 0xCF
                &&& t.stack_pointer == sp
                &&& t.a == s.a
                &&& t.x == s.x
                &&& t.y == s.y
                &&& t.program_counter == s.program_counter
            }
        }),
{
    let sp = vstd::wrapping::u8_specs::wrapping_add(s.stack_pointer, 1);
    let top = STACK_PAGE | (sp as u16);
    let m = s.bus;
    lemma_tick_keeps_reads(m, top);
    lemma_tick_keeps_reads(m.after_tick(), top);
    lemma_tick_keeps_reads(m.after_tick().after_tick(), top);
    let v = m.read_value(top);
    assert(v & !UNUSED_FLAG & !BREAK_FLAG == v & 0xCF) by (bit_vector);
}

/// PHP pushes the status with the break and unused bits (4 and 5) set: the
/// byte at the old top of the stack reads back as that, the stack grows by
/// one and the flags stay. A PLP right after it pulls that byte back: the
/// flags are those from before the PHP with bits 4 and 5 cleared, and the
/// stack pointer is as it was.
pub proof fn lemma_php_then_plp(s: CpuState)
    requires
        s.wf(),
    ensures
        s.spec_php() is Some,
        ({
            let p = s.spec_php().unwrap();
            let top = STACK_PAGE | (s.stack_pointer as u16);
            &&& p.bus.read_value(top) == s.status | 0x30
            &&& p.stack_pointer == vstd::wrapping::u8_specs::wrapping_sub(s.stack_pointer, 1)
            &&& p.status == s.status
            &&& p.spec_plp() is Some
            &&& p.spec_plp().unwrap().status == s.status & 0xCF
            &&& p.spec_plp().unwrap().stack_pointer == s.stack_pointer
        }),
{
    let sp = s.stack_pointer;
    let top = STACK_PAGE | (sp as u16);
    let st = s.status;
    let v = st | UNUSED_FLAG | BREAK_FLAG;
    assert(top <= 0x01FF && v == st | 0x30 && v & 0xCF == st & 0xCF) by (bit_vector)
        requires
            top == 0x0100u16 | (sp as u16),
            v == st | UNUSED_FLAG | BREAK_FLAG,
    ;
    lemma_tick_keeps_ram(s.bus, top);
    lemma_tick_keeps_ram(s.bus.after_tick(), top);
    let t = s.ticked().ticked();
    lemma_ram_read_back(t.bus, top, v);
    let p = s.spec_php().unwrap();
    assert(vstd::wrapping::u8_specs::wrapping_add(p.stack_pointer, 1) == sp);
    lemma_plp_replaces_status(p);
}

} // verus!
