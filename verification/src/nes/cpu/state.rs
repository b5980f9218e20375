//! The CPU's state as a value, and the bus cycles it performs: every clocked
//! read or write takes one cycle, and an access the bus refuses makes the
//! whole step undefined (`None`).
use vstd::prelude::*;

use super::memory::{lemma_ram_read_back, lemma_tick_keeps_ram, MemoryView};

verus! {

pub const CARRY_FLAG: u8 = 0b0000_0001;
pub const ZERO_FLAG: u8 = 0b0000_0010;
pub const INTERRUPT_DISABLE_FLAG: u8 = 0b0000_0100;
pub const DECIMAL_FLAG: u8 = 0b0000_1000;
pub const BREAK_FLAG: u8 = 0b0001_0000;
pub const UNUSED_FLAG: u8 = 0b0010_0000;
pub const OVERFLOW_FLAG: u8 = 0b0100_0000;
pub const NEGATIVE_FLAG: u8 = 0b1000_0000;

/// The address of the interrupt (BRK/IRQ) vector.
pub const IRQ_VECTOR_ADDRESS: u16 = 0xFFFE;
/// The address of the reset vector.
pub const RESET_VECTOR_ADDRESS: u16 = 0xFFFC;
/// The page that holds the stack.
pub const STACK_PAGE: u16 = 0x0100;

/// `status` with the flags of `mask` set when `on` holds, cleared otherwise.
pub open spec fn with_flag(status: u8, mask: u8, on: bool) -> u8 {
    if on {
        status | mask
    } else {
        status & !mask
    }
}

/// `status` with the zero and negative flags describing `value`.
pub open spec fn value_flags(status: u8, value: u8) -> u8 {
    with_flag(with_flag(status, ZERO_FLAG, value == 0), NEGATIVE_FLAG, value & 0x80 != 0)
}

/// The little-endian word of two bytes.
pub open spec fn word(lo: u8, hi: u8) -> u16 {
    ((hi as u16) << 8u16) | (lo as u16)
}

pub open spec fn inc16(v: u16) -> u16 {
    vstd::wrapping::u16_specs::wrapping_add(v, 1)
}

/// The registers, the cycle count and what the CPU is attached to.
pub struct CpuState {
    pub a: u8,
    pub x: u8,
    pub y: u8,
    pub status: u8,
    pub stack_pointer: u8,
    pub program_counter: u16,
    pub clock_counter: u64,
    pub bus: MemoryView,
}

impl CpuState {
    pub open spec fn wf(self) -> bool {
        self.bus.wf()
    }

    pub open spec fn flag(self, mask: u8) -> bool {
        self.status & mask != 0
    }

    pub open spec fn with_status(self, status: u8) -> CpuState {
        CpuState { status, ..self }
    }

    /// The state with the zero and negative flags describing `value`.
    pub open spec fn with_value_flags(self, value: u8) -> CpuState {
        CpuState { status: value_flags(self.status, value), ..self }
    }

    pub open spec fn with_pc(self, pc: u16) -> CpuState {
        CpuState { program_counter: pc, ..self }
    }

    /// One cycle passes.
    pub open spec fn ticked(self) -> CpuState {
        CpuState {
            clock_counter: vstd::wrapping::u64_specs::wrapping_add(self.clock_counter, 1),
            bus: self.bus.after_tick(),
            ..self
        }
    }

    /// A read that takes no cycle.
    pub open spec fn unclocked_read(self, address: u16) -> Option<(u8, CpuState)> {
        if self.bus.can_read(address) {
            Some((self.bus.read_value(address), CpuState { bus: self.bus.after_read(address), ..self }))
        } else {
            None
        }
    }

    /// A write that takes no cycle.
    pub open spec fn unclocked_write(self, address: u16, value: u8) -> Option<CpuState> {
        if self.bus.can_write(address, value) {
            Some(CpuState { bus: self.bus.after_write(address, value), ..self })
        } else {
            None
        }
    }

    /// A read cycle.
    pub open spec fn read(self, address: u16) -> Option<(u8, CpuState)> {
        self.ticked().unclocked_read(address)
    }

    /// A write cycle.
    pub open spec fn write(self, address: u16, value: u8) -> Option<CpuState> {
        self.ticked().unclocked_write(address, value)
    }

    /// Two unclocked reads: the word at `address` (its high byte at the next
    /// address, wrapping).
    pub open spec fn unclocked_read_u16(self, address: u16) -> Option<(u16, CpuState)> {
        match self.unclocked_read(address) {
            Some((lo, s)) => match s.unclocked_read(inc16(address)) {
                Some((hi, t)) => Some((word(lo, hi), t)),
                None => None,
            },
            None => None,
        }
    }

    /// Two read cycles: the word at `address`.
    pub open spec fn read_u16(self, address: u16) -> Option<(u16, CpuState)> {
        match self.read(address) {
            Some((lo, s)) => match s.read(inc16(address)) {
                Some((hi, t)) => Some((word(lo, hi), t)),
                None => None,
            },
            None => None,
        }
    }

    /// A read cycle at the program counter, which then advances.
    pub open spec fn next_u8(self) -> Option<(u8, CpuState)> {
        match self.read(self.program_counter) {
            Some((v, s)) => Some((v, s.with_pc(inc16(s.program_counter)))),
            None => None,
        }
    }

    /// Two read cycles at the program counter: a little-endian word.
    pub open spec fn next_u16(self) -> Option<(u16, CpuState)> {
        match self.next_u8() {
            Some((lo, s)) => match s.next_u8() {
                Some((hi, t)) => Some((word(lo, hi), t)),
                None => None,
            },
            None => None,
        }
    }

    /// A write cycle to the top of the stack, which then grows down.
    pub open spec fn push_u8(self, value: u8) -> Option<CpuState> {
        match self.write(STACK_PAGE | (self.stack_pointer as u16), value) {
            Some(s) => Some(
                CpuState {
                    stack_pointer: vstd::wrapping::u8_specs::wrapping_sub(s.stack_pointer, 1),
                    ..s
                },
            ),
            None => None,
        }
    }

    /// Pushes the high byte, then the low byte.
    pub open spec fn push_u16(self, value: u16) -> Option<CpuState> {
        match self.push_u8((value >> 8u16) as u8) {
            Some(s) => s.push_u8((value & 0xFF) as u8),
            None => None,
        }
    }

    /// The stack shrinks by one, then a read cycle at its top.
    pub open spec fn pop_u8(self) -> Option<(u8, CpuState)> {
        let s = CpuState {
            stack_pointer: vstd::wrapping::u8_specs::wrapping_add(self.stack_pointer, 1),
            ..self
        };
        s.read(STACK_PAGE | (s.stack_pointer as u16))
    }
}

/// What a push writes, a pop reads back: pushing a byte and then popping
/// gives that byte, with the stack pointer, the registers, the flags and
/// the program counter as they were.
pub proof fn lemma_push_then_pop(s: CpuState, value: u8)
    requires
        s.wf(),
    ensures
        s.push_u8(value) is Some,
        s.push_u8(value).unwrap().pop_u8() is Some,
        ({
            let (r, t) = s.push_u8(value).unwrap().pop_u8().unwrap();
            &&& r == value
            &&& t.stack_pointer == s.stack_pointer
            &&& t.a == s.a
            &&& t.x == s.x
            &&& t.y == s.y
            &&& t.status == s.status
            &&& t.program_counter == s.program_counter
        }),
{
    let address = STACK_PAGE | (s.stack_pointer as u16);
    let sp = s.stack_pointer;
    assert(address <= 0x01FF) by (bit_vector)
        requires
            address == 0x0100u16 | (sp as u16),
    ;
    lemma_tick_keeps_ram(s.bus, address);
    let t = s.ticked();
    lemma_ram_read_back(t.bus, address, value);
    let u = t.unclocked_write(address, value).unwrap();
    let p = CpuState {
        stack_pointer: vstd::wrapping::u8_specs::wrapping_sub(u.stack_pointer, 1),
        ..u
    };
    let q = CpuState {
        stack_pointer: vstd::wrapping::u8_specs::wrapping_add(p.stack_pointer, 1),
        ..p
    };
    assert(q.stack_pointer == sp);
    lemma_tick_keeps_ram(q.bus, address);
}

/// The bytes of a word and the two RAM slots of neighbouring addresses.
proof fn lemma_word_bytes(value: u16, address: u16)
    by (bit_vector)
    requires
        address < 0x1FFF,
    ensures
        word((value & 0xFF) as u8, (value >> 8u16) as u8) == value,
        address & 0x07FF != ((address + 1) as u16) & 0x07FF,
{
}

/// A word written to RAM (low byte first, little-endian) is the word read
/// back from the same address, and the reads change nothing.
pub proof fn lemma_word_round_trip(s: CpuState, address: u16, value: u16)
    requires
        s.bus.ram_wf(),
        address < 0x1FFF,
    ensures
        s.unclocked_write(address, (value & 0xFF) as u8) is Some,
        s.unclocked_write(address, (value & 0xFF) as u8).unwrap().unclocked_write(
            inc16(address),
            (value >> 8u16) as u8,
        ) is Some,
        ({
            let t = s.unclocked_write(address, (value & 0xFF) as u8).unwrap().unclocked_write(
                inc16(address),
                (value >> 8u16) as u8,
            ).unwrap();
            t.unclocked_read_u16(address) == Some((value, t))
        }),
{
    let lo = (value & 0xFF) as u8;
    let hi = (value >> 8u16) as u8;
    lemma_word_bytes(value, address);
    lemma_ram_read_back(s.bus, address, lo);
    let m1 = s.bus.after_write(address, lo);
    lemma_ram_read_back(m1, inc16(address), hi);
    let m2 = m1.after_write(inc16(address), hi);
    crate::nes::cpu::memory::lemma_ram_read_keeps_state(m2, address);
    crate::nes::cpu::memory::lemma_ram_read_keeps_state(m2, inc16(address));
    crate::nes::bus::lemma_ram_index(address);
    crate::nes::bus::lemma_ram_index(inc16(address));
}

} // verus!
