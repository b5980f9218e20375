//! The 6502 CPU core of the NES (the Ricoh 2A03, without decimal mode).
use vstd::prelude::*;

pub mod addressing_mode;
pub mod instructions;
pub mod memory;
pub mod opcode;
pub mod state;

use crate::nes::bus::{Bus, BusView};
use memory::{CpuBus, FlatMemory, MemoryView};
use state::{
    inc16, value_flags, with_flag, word, CpuState, RESET_VECTOR_ADDRESS, STACK_PAGE,
};

verus! {

/// The CPU: its registers, its cycle count and the bus it drives.
pub struct CPU {
    pub a: u8,
    pub x: u8,
    pub y: u8,
    pub status: u8,
    pub stack_pointer: u8,
    pub program_counter: u16,
    pub clock_counter: u64,
    pub bus: CpuBus,
}

impl View for CPU {
    type V = CpuState;

    open spec fn view(&self) -> CpuState {
        CpuState {
            a: self.a,
            x: self.x,
            y: self.y,
            status: self.status,
            stack_pointer: self.stack_pointer,
            program_counter: self.program_counter,
            clock_counter: self.clock_counter,
            bus: self.bus@,
        }
    }
}

/// A CPU in its power-on state attached to `bus`: registers and flags
/// clear, the stack pointer at the top of the stack page.
pub open spec fn power_on_state(bus: MemoryView) -> CpuState {
    CpuState {
        a: 0,
        x: 0,
        y: 0,
        status: 0,
        stack_pointer: 0xFF,
        program_counter: 0,
        clock_counter: 0,
        bus,
    }
}

impl CPU {
    /// A CPU attached to 64 KiB of zeroed flat memory.
    pub fn new() -> (r: CPU)
        ensures
            r@ == power_on_state(MemoryView::Flat(Seq::new(0x10000, |i: int| 0u8))),
            r@.wf(),
    {
        CPU {
            a: 0,
            x: 0,
            y: 0,
            status: 0,
            stack_pointer: 0xFF,
            program_counter: 0,
            clock_counter: 0,
            bus: CpuBus::Flat(FlatMemory::new()),
        }
    }

    /// A CPU attached to the NES bus.
    pub fn new_with_bus(bus: Bus) -> (r: CPU)
        requires
            bus@.wf(),
        ensures
            r@ == power_on_state(MemoryView::Nes(bus@)),
            r@.wf(),
    {
        CPU {
            a: 0,
            x: 0,
            y: 0,
            status: 0,
            stack_pointer: 0xFF,
            program_counter: 0,
            clock_counter: 0,
            bus: CpuBus::Nes(bus),
        }
    }

    /// One cycle passes.
    pub fn tick(&mut self)
        requires
            old(self)@.wf(),
        ensures
            final(self)@ == old(self)@.ticked(),
            final(self)@.wf(),
    {
        self.clock_counter = self.clock_counter.wrapping_add(1);
        self.bus.tick();
    }

    /// Reads a byte without taking a cycle.
    pub fn unclocked_read_u8(&mut self, address: u16) -> (r: u8)
        requires
            old(self)@.wf(),
            old(self)@.unclocked_read(address) is Some,
        ensures
            (r, final(self)@) == old(self)@.unclocked_read(address).unwrap(),
            final(self)@.wf(),
    {
        self.bus.unclocked_read_u8(address)
    }

    /// Writes a byte without taking a cycle.
    pub fn unclocked_write_u8(&mut self, address: u16, value: u8)
        requires
            old(self)@.wf(),
            old(self)@.unclocked_write(address, value) is Some,
        ensures
            final(self)@ == old(self)@.unclocked_write(address, value).unwrap(),
            final(self)@.wf(),
    {
        self.bus.unclocked_write_u8(address, value);
    }

    /// Reads a little-endian word without taking a cycle.
    pub fn unclocked_read_u16(&mut self, address: u16) -> (r: u16)
        requires
            old(self)@.wf(),
            old(self)@.unclocked_read_u16(address) is Some,
        ensures
            (r, final(self)@) == old(self)@.unclocked_read_u16(address).unwrap(),
            final(self)@.wf(),
    {
        let lo = self.unclocked_read_u8(address);
        let hi = self.unclocked_read_u8(address.wrapping_add(1));
        make_word(lo, hi)
    }

    /// Writes a little-endian word without taking a cycle.
    pub fn unclocked_write_u16(&mut self, address: u16, value: u16)
        requires
            old(self)@.wf(),
            old(self)@.unclocked_write(address, (value & 0xFF) as u8) is Some,
            old(self)@.unclocked_write(address, (value & 0xFF) as u8).unwrap().unclocked_write(
                inc16(address),
                (value >> 8u16) as u8,
            ) is Some,
        ensures
            final(self)@ == old(self)@.unclocked_write(address, (value & 0xFF) as u8).unwrap().unclocked_write(
                inc16(address),
                (value >> 8u16) as u8,
            ).unwrap(),
            final(self)@.wf(),
    {
        self.unclocked_write_u8(address, (value & 0xFF) as u8);
        self.unclocked_write_u8(address.wrapping_add(1), (value >> 8u16) as u8);
    }

    /// A read cycle.
    pub fn read_u8(&mut self, address: u16) -> (r: u8)
        requires
            old(self)@.wf(),
            old(self)@.read(address) is Some,
        ensures
            (r, final(self)@) == old(self)@.read(address).unwrap(),
            final(self)@.wf(),
    {
        self.tick();
        self.unclocked_read_u8(address)
    }

    /// A write cycle.
    pub fn write_u8(&mut self, address: u16, value: u8)
        requires
            old(self)@.wf(),
            old(self)@.write(address, value) is Some,
        ensures
            final(self)@ == old(self)@.write(address, value).unwrap(),
            final(self)@.wf(),
    {
        self.tick();
        self.unclocked_write_u8(address, value);
    }

    /// Two read cycles: the little-endian word at `address`.
    pub fn read_u16(&mut self, address: u16) -> (r: u16)
        requires
            old(self)@.wf(),
            old(self)@.read_u16(address) is Some,
        ensures
            (r, final(self)@) == old(self)@.read_u16(address).unwrap(),
            final(self)@.wf(),
    {
        let lo = self.read_u8(address);
        let hi = self.read_u8(address.wrapping_add(1));
        make_word(lo, hi)
    }

    /// Advances the program counter by one byte.
    pub fn increment_program_counter(&mut self)
        ensures
            final(self)@ == old(self)@.with_pc(inc16(old(self)@.program_counter)),
    {
        self.program_counter = self.program_counter.wrapping_add(1);
    }

    /// A read cycle at the program counter, which then advances.
    pub fn get_next_u8(&mut self) -> (r: u8)
        requires
            old(self)@.wf(),
            old(self)@.next_u8() is Some,
        ensures
            (r, final(self)@) == old(self)@.next_u8().unwrap(),
            final(self)@.wf(),
    {
        let pc = self.program_counter;
        let r = self.read_u8(pc);
        self.increment_program_counter();
        r
    }

    /// Two read cycles at the program counter: a little-endian word.
    pub fn get_next_u16(&mut self) -> (r: u16)
        requires
            old(self)@.wf(),
            old(self)@.next_u16() is Some,
        ensures
            (r, final(self)@) == old(self)@.next_u16().unwrap(),
            final(self)@.wf(),
    {
        let lo = self.get_next_u8();
        let hi = self.get_next_u8();
        make_word(lo, hi)
    }

    /// Pushes a byte onto the stack (one write cycle).
    pub fn push_u8(&mut self, value: u8)
        requires
            old(self)@.wf(),
            old(self)@.push_u8(value) is Some,
        ensures
            final(self)@ == old(self)@.push_u8(value).unwrap(),
            final(self)@.wf(),
    {
        let address = STACK_PAGE | (self.stack_pointer as u16);
        self.write_u8(address, value);
        self.stack_pointer = self.stack_pointer.wrapping_sub(1);
    }

    /// Pushes a word onto the stack, high byte first (two write cycles).
    pub fn push_u16(&mut self, value: u16)
        requires
            old(self)@.wf(),
            old(self)@.push_u16(value) is Some,
        ensures
            final(self)@ == old(self)@.push_u16(value).unwrap(),
            final(self)@.wf(),
    {
        self.push_u8((value >> 8u16) as u8);
        self.push_u8((value & 0xFF) as u8);
    }

    /// Pops a byte off the stack (one read cycle).
    pub fn pop_u8(&mut self) -> (r: u8)
        requires
            old(self)@.wf(),
            old(self)@.pop_u8() is Some,
        ensures
            (r, final(self)@) == old(self)@.pop_u8().unwrap(),
            final(self)@.wf(),
    {
        self.stack_pointer = self.stack_pointer.wrapping_add(1);
        let address = STACK_PAGE | (self.stack_pointer as u16);
        self.read_u8(address)
    }

    /// Sets or clears the status flags of `mask`.
    pub fn set_flag(&mut self, mask: u8, on: bool)
        ensures
            final(self)@ == old(self)@.with_status(with_flag(old(self)@.status, mask, on)),
    {
        if on {
            self.status = self.status | mask;
        } else {
            self.status = self.status & !mask;
        }
    }

    /// Sets the zero and negative flags to describe `value`.
    pub fn set_value_flags(&mut self, value: u8)
        ensures
            final(self)@ == old(self)@.with_value_flags(value),
    {
        self.set_flag(state::ZERO_FLAG, value == 0);
        self.set_flag(state::NEGATIVE_FLAG, (value & 0x80) != 0);
    }

    /// Clears the registers and flags, puts the stack pointer at the top of
    /// the stack page and jumps to the address in the reset vector; takes no
    /// cycles.
    pub fn reset(&mut self)
        requires
            old(self)@.wf(),
            old(self)@.unclocked_read_u16(RESET_VECTOR_ADDRESS) is Some,
        ensures
            ({
                let (pc, s) = old(self)@.unclocked_read_u16(RESET_VECTOR_ADDRESS).unwrap();
                final(self)@ == (CpuState {
                    a: 0,
                    x: 0,
                    y: 0,
                    status: 0,
                    stack_pointer: 0xFF,
                    program_counter: pc,
                    ..s
                })
            }),
            final(self)@.wf(),
    {
        let pc = self.unclocked_read_u16(RESET_VECTOR_ADDRESS);
        self.a = 0;
        self.x = 0;
        self.y = 0;
        self.status = 0;
        self.stack_pointer = 0xFF;
        self.program_counter = pc;
    }

    /// Copies `program` into memory at `start` and points the reset vector
    /// at it.
    pub fn load_at(&mut self, program: Vec<u8>, start: u16)
        requires
            old(self)@.wf(),
            old(self)@.bus.can_load(program@.len(), start),
        ensures
            final(self)@ == (CpuState { bus: old(self)@.bus.after_load(program@, start), ..old(self)@ }),
            final(self)@.wf(),
    {
        self.bus.load(program, start);
    }

    /// Copies `program` into memory at $0000 and points the reset vector at it.
    pub fn load(&mut self, program: Vec<u8>)
        requires
            old(self)@.wf(),
            old(self)@.bus.can_load(program@.len(), 0),
        ensures
            final(self)@ == (CpuState { bus: old(self)@.bus.after_load(program@, 0), ..old(self)@ }),
            final(self)@.wf(),
    {
        self.load_at(program, 0);
    }
}

/// The little-endian word of two bytes.
pub fn make_word(lo: u8, hi: u8) -> (r: u16)
    ensures
        r == word(lo, hi),
{
    ((hi as u16) << 8u16) | (lo as u16)
}

} // verus!
