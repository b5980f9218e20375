//! Effective addresses: how each addressing mode finds its operand, with
//! the bus cycles it spends doing so.
use vstd::prelude::*;

use super::opcode::{AddressingMode, Opcode};
use super::state::{inc16, word, CpuState};
use super::{make_word, CPU};

verus! {

pub open spec fn add8(a: u8, b: u8) -> u8 {
    vstd::wrapping::u8_specs::wrapping_add(a, b)
}

pub open spec fn add16(a: u16, b: u16) -> u16 {
    vstd::wrapping::u16_specs::wrapping_add(a, b)
}

/// Whether two addresses lie in different pages.
pub open spec fn page_crossed(a: u16, b: u16) -> bool {
    a & 0xFF00 != b & 0xFF00
}

impl CpuState {
    /// An indexed absolute address: the base word at the program counter
    /// plus `index`, with one more cycle when the instruction always takes
    /// it or the index crosses a page.
    pub open spec fn indexed_absolute(self, index: u8, extra_cycle: bool) -> Option<(Option<u16>, CpuState)> {
        match self.next_u16() {
            Some((base, s)) => {
                let address = add16(base, index as u16);
                Some(
                    (
                        Some(address),
                        if extra_cycle || page_crossed(address, base) {
                            s.ticked()
                        } else {
                            s
                        },
                    ),
                )
            },
            None => None,
        }
    }

    /// An indexed zero-page address: the byte at the program counter plus
    /// `index`, wrapping within the zero page, after one more cycle.
    pub open spec fn indexed_zero_page(self, index: u8) -> Option<(Option<u16>, CpuState)> {
        match self.next_u8() {
            Some((base, s)) => Some((Some(add8(base, index) as u16), s.ticked())),
            None => None,
        }
    }

    /// The effective address of an instruction in mode `mode` whose opcode
    /// has been fetched, and the state after the cycles spent finding it;
    /// no address in implied mode.
    pub open spec fn operand_address(self, mode: AddressingMode, extra_cycle: bool) -> Option<(Option<u16>, CpuState)> {
        match mode {
            AddressingMode::Implied => Some((None, self)),
            AddressingMode::Immediate => Some(
                (Some(self.program_counter), self.with_pc(inc16(self.program_counter))),
            ),
            AddressingMode::Relative => Some(
                (Some(self.program_counter), self.with_pc(inc16(self.program_counter))),
            ),
            AddressingMode::ZeroPage => match self.next_u8() {
                Some((b, s)) => Some((Some(b as u16), s)),
                None => None,
            },
            AddressingMode::ZeroPageX => self.indexed_zero_page(self.x),
            AddressingMode::ZeroPageY => self.indexed_zero_page(self.y),
            AddressingMode::Absolute => match self.next_u16() {
                Some((a, s)) => Some((Some(a), s)),
                None => None,
            },
            AddressingMode::AbsoluteX => self.indexed_absolute(self.x, extra_cycle),
            AddressingMode::AbsoluteY => self.indexed_absolute(self.y, extra_cycle),
            AddressingMode::Indirect => match self.next_u16() {
                Some((pointer, s)) => if pointer & 0x00FF == 0x00FF {
                    // The high byte comes from the start of the same page.
                    match s.read(pointer) {
                        Some((lo, t)) => match t.read(pointer & 0xFF00) {
                            Some((hi, u)) => Some((Some(word(lo, hi)), u)),
                            None => None,
                        },
                        None => None,
                    }
                } else {
                    match s.read_u16(pointer) {
                        Some((a, t)) => Some((Some(a), t)),
                        None => None,
                    }
                },
                None => None,
            },
            AddressingMode::IndirectX => match self.next_u8() {
                Some((base, s)) => {
                    let pointer = add8(base, s.x);
                    match s.ticked().read(pointer as u16) {
                        Some((lo, t)) => match t.read(add8(pointer, 1) as u16) {
                            Some((hi, u)) => Some((Some(word(lo, hi)), u)),
                            None => None,
                        },
                        None => None,
                    }
                },
                None => None,
            },
            AddressingMode::IndirectY => match self.next_u8() {
                Some((base, s)) => match s.read(base as u16) {
                    Some((lo, t)) => match t.read(add8(base, 1) as u16) {
                        Some((hi, u)) => {
                            let deref_base = word(lo, hi);
                            let address = add16(deref_base, u.y as u16);
                            Some(
                                (
                                    Some(address),
                                    if extra_cycle || page_crossed(address, deref_base) {
                                        u.ticked()
                                    } else {
                                        u
                                    },
                                ),
                            )
                        },
                        None => None,
                    },
                    None => None,
                },
                None => None,
            },
        }
    }

    /// The effective address of an operand found at `address`, read
    /// without cycles; no address in implied mode.
    pub open spec fn unclocked_operand_address(self, mode: AddressingMode, address: u16) -> Option<(Option<u16>, CpuState)> {
        match mode {
            AddressingMode::Implied => Some((None, self)),
            AddressingMode::Immediate => Some((Some(address), self)),
            AddressingMode::Relative => Some((Some(address), self)),
            AddressingMode::ZeroPage => match self.unclocked_read(address) {
                Some((b, s)) => Some((Some(b as u16), s)),
                None => None,
            },
            AddressingMode::ZeroPageX => match self.unclocked_read(address) {
                Some((b, s)) => Some((Some(add8(b, s.x) as u16), s)),
                None => None,
            },
            AddressingMode::ZeroPageY => match self.unclocked_read(address) {
                Some((b, s)) => Some((Some(add8(b, s.y) as u16), s)),
                None => None,
            },
            AddressingMode::Absolute => match self.unclocked_read_u16(address) {
                Some((a, s)) => Some((Some(a), s)),
                None => None,
            },
            AddressingMode::AbsoluteX => match self.unclocked_read_u16(address) {
                Some((a, s)) => Some((Some(add16(a, s.x as u16)), s)),
                None => None,
            },
            AddressingMode::AbsoluteY => match self.unclocked_read_u16(address) {
                Some((a, s)) => Some((Some(add16(a, s.y as u16)), s)),
                None => None,
            },
            AddressingMode::Indirect => match self.unclocked_read_u16(address) {
                Some((pointer, s)) => if pointer & 0x00FF == 0x00FF {
                    match s.unclocked_read(pointer) {
                        Some((lo, t)) => match t.unclocked_read(pointer & 0xFF00) {
                            Some((hi, u)) => Some((Some(word(lo, hi)), u)),
                            None => None,
                        },
                        None => None,
                    }
                } else {
                    match s.unclocked_read_u16(pointer) {
                        Some((a, t)) => Some((Some(a), t)),
                        None => None,
                    }
                },
                None => None,
            },
            AddressingMode::IndirectX => match self.unclocked_read(address) {
                Some((base, s)) => {
                    let pointer = add8(base, s.x);
                    match s.unclocked_read(pointer as u16) {
                        Some((lo, t)) => match t.unclocked_read(add8(pointer, 1) as u16) {
                            Some((hi, u)) => Some((Some(word(lo, hi)), u)),
                            None => None,
                        },
                        None => None,
                    }
                },
                None => None,
            },
            AddressingMode::IndirectY => match self.unclocked_read(address) {
                Some((base, s)) => match s.unclocked_read(base as u16) {
                    Some((lo, t)) => match t.unclocked_read(add8(base, 1) as u16) {
                        Some((hi, u)) => Some((Some(add16(word(lo, hi), u.y as u16)), u)),
                        None => None,
                    },
                    None => None,
                },
                None => None,
            },
        }
    }

    /// The operand at `address`, read without cycles; none in implied mode.
    pub open spec fn unclocked_operand_value(self, mode: AddressingMode, address: u16) -> Option<(Option<u8>, CpuState)> {
        match self.unclocked_operand_address(mode, address) {
            Some((Some(a), s)) => match s.unclocked_read(a) {
                Some((v, t)) => Some((Some(v), t)),
                None => None,
            },
            Some((None, s)) => Some((None, s)),
            None => None,
        }
    }
}

impl CPU {
    /// The operand of the instruction in mode `mode` whose operand bytes
    /// are at `address`, read without cycles; `None` in implied mode.
    pub fn unclocked_get_operand_value(&mut self, mode: &AddressingMode, address: u16) -> (r: Option<u8>)
        requires
            old(self)@.wf(),
            old(self)@.unclocked_operand_value(*mode, address) is Some,
        ensures
            (r, final(self)@) == old(self)@.unclocked_operand_value(*mode, address).unwrap(),
            final(self)@.wf(),
    {
        match mode {
            AddressingMode::Implied => None,
            _ => match self.unclocked_get_operand_address(mode, address) {
                Some(new_address) => Some(self.unclocked_read_u8(new_address)),
                None => None,
            },
        }
    }

    /// The effective address of the instruction in mode `mode` whose
    /// operand bytes are at `address`, read without cycles; `None` in
    /// implied mode.
    pub fn unclocked_get_operand_address(&mut self, mode: &AddressingMode, address: u16) -> (r: Option<u16>)
        requires
            old(self)@.wf(),
            old(self)@.unclocked_operand_address(*mode, address) is Some,
        ensures
            (r, final(self)@) == old(self)@.unclocked_operand_address(*mode, address).unwrap(),
            final(self)@.wf(),
    {
        match mode {
            AddressingMode::Implied => None,
            AddressingMode::Immediate => Some(address),
            AddressingMode::Relative => Some(address),
            AddressingMode::ZeroPage => Some(self.unclocked_read_u8(address) as u16),
            AddressingMode::ZeroPageX => {
                let b = self.unclocked_read_u8(address);
                Some(b.wrapping_add(self.x) as u16)
            },
            AddressingMode::ZeroPageY => {
                let b = self.unclocked_read_u8(address);
                Some(b.wrapping_add(self.y) as u16)
            },
            AddressingMode::Absolute => Some(self.unclocked_read_u16(address)),
            AddressingMode::AbsoluteX => {
                let a = self.unclocked_read_u16(address);
                Some(a.wrapping_add(self.x as u16))
            },
            AddressingMode::AbsoluteY => {
                let a = self.unclocked_read_u16(address);
                Some(a.wrapping_add(self.y as u16))
            },
            AddressingMode::Indirect => {
                let pointer = self.unclocked_read_u16(address);
                if pointer & 0x00FF == 0x00FF {
                    // The high byte comes from the start of the same page.
                    let lo = self.unclocked_read_u8(pointer);
                    let hi = self.unclocked_read_u8(pointer & 0xFF00);
                    Some(make_word(lo, hi))
                } else {
                    Some(self.unclocked_read_u16(pointer))
                }
            },
            AddressingMode::IndirectX => {
                let base = self.unclocked_read_u8(address);
                let pointer = base.wrapping_add(self.x);
                let lo = self.unclocked_read_u8(pointer as u16);
                let hi = self.unclocked_read_u8(pointer.wrapping_add(1) as u16);
                Some(make_word(lo, hi))
            },
            AddressingMode::IndirectY => {
                let base = self.unclocked_read_u8(address);
                let lo = self.unclocked_read_u8(base as u16);
                let hi = self.unclocked_read_u8(base.wrapping_add(1) as u16);
                let deref_base = make_word(lo, hi);
                Some(deref_base.wrapping_add(self.y as u16))
            },
        }
    }

    /// The effective address of the instruction `opcode` in mode `mode`,
    /// spending the cycles that finding it takes and moving the program
    /// counter past the operand bytes; `None` in implied mode.
    pub fn get_operand_address(&mut self, opcode: &Opcode, mode: &AddressingMode) -> (r: Option<u16>)
        requires
            old(self)@.wf(),
            old(self)@.operand_address(*mode, opcode.extra_cycle) is Some,
        ensures
            (r, final(self)@) == old(self)@.operand_address(*mode, opcode.extra_cycle).unwrap(),
            final(self)@.wf(),
    {
        match mode {
            AddressingMode::Implied => None,
            AddressingMode::Immediate => {
                let address = self.program_counter;
                self.increment_program_counter();
                Some(address)
            },
            AddressingMode::Relative => {
                let address = self.program_counter;
                self.increment_program_counter();
                Some(address)
            },
            AddressingMode::ZeroPage => Some(self.get_next_u8() as u16),
            AddressingMode::ZeroPageX => {
                let base = self.get_next_u8();
                let address = base.wrapping_add(self.x) as u16;
                self.tick();
                Some(address)
            },
            AddressingMode::ZeroPageY => {
                let base = self.get_next_u8();
                let address = base.wrapping_add(self.y) as u16;
                self.tick();
                Some(address)
            },
            AddressingMode::Absolute => Some(self.get_next_u16()),
            AddressingMode::AbsoluteX => {
                let base = self.get_next_u16();
                let address = base.wrapping_add(self.x as u16);
                if opcode.extra_cycle {
                    self.tick();
                } else if address & 0xFF00 != base & 0xFF00 {
                    self.tick();
                }
                Some(address)
            },
            AddressingMode::AbsoluteY => {
                let base = self.get_next_u16();
                let address = base.wrapping_add(self.y as u16);
                if opcode.extra_cycle {
                    self.tick();
                } else if address & 0xFF00 != base & 0xFF00 {
                    self.tick();
                }
                Some(address)
            },
            AddressingMode::Indirect => {
                let pointer = self.get_next_u16();
                if pointer & 0x00FF == 0x00FF {
                    // The high byte comes from the start of the same page.
                    let lo = self.read_u8(pointer);
                    let hi = self.read_u8(pointer & 0xFF00);
                    Some(make_word(lo, hi))
                } else {
                    Some(self.read_u16(pointer))
                }
            },
            AddressingMode::IndirectX => {
                let base = self.get_next_u8();
                let pointer: u8 = base.wrapping_add(self.x);
                self.tick();
                let lo = self.read_u8(pointer as u16);
                let hi = self.read_u8(pointer.wrapping_add(1) as u16);
                Some(make_word(lo, hi))
            },
            AddressingMode::IndirectY => {
                let base = self.get_next_u8();
                let lo = self.read_u8(base as u16);
                let hi = self.read_u8(base.wrapping_add(1) as u16);
                let deref_base = make_word(lo, hi);
                let address = deref_base.wrapping_add(self.y as u16);
                if opcode.extra_cycle {
                    self.tick();
                } else if address & 0xFF00 != deref_base & 0xFF00 {
                    self.tick();
                }
                Some(address)
            },
        }
    }
}

} // verus!
