//! What the CPU is attached to: either the NES bus, or a flat 64 KiB of
//! memory without devices for running 6502 programs in isolation.
use vstd::prelude::*;

use crate::nes::bus::{lemma_ram_index, Bus, BusView, PROGRAM_CONTROL_ADDRESS, RAM_RANGE_END_ADDRESS};

verus! {

/// 64 KiB of plain memory; every address reads what was last written there.
pub struct FlatMemory {
    bytes: Vec<u8>,
}

impl View for FlatMemory {
    type V = Seq<u8>;

    closed spec fn view(&self) -> Seq<u8> {
        self.bytes@
    }
}

impl FlatMemory {
    pub fn new() -> (r: FlatMemory)
        ensures
            r@ == Seq::new(0x10000, |i: int| 0u8),
    {
        let r = FlatMemory { bytes: vec![0u8; 0x10000] };
        assert(r@ =~= Seq::new(0x10000, |i: int| 0u8));
        r
    }

    pub fn read_u8(&self, address: u16) -> (r: u8)
        requires
            self@.len() == 0x10000,
        ensures
            r == self@[address as int],
    {
        self.bytes[address as usize]
    }

    pub fn write_u8(&mut self, address: u16, value: u8)
        requires
            old(self)@.len() == 0x10000,
        ensures
            final(self)@ == old(self)@.update(address as int, value),
    {
        self.bytes.set(address as usize, value);
    }
}

/// The state of what the CPU is attached to.
pub enum MemoryView {
    Flat(Seq<u8>),
    Nes(BusView),
}

/// `program` copied into `memory` from `start` on.
pub open spec fn copied_in(memory: Seq<u8>, program: Seq<u8>, start: int) -> Seq<u8> {
    Seq::new(
        memory.len(),
        |i: int|
            if start <= i < start + program.len() {
                program[i - start]
            } else {
                memory[i]
            },
    )
}

impl MemoryView {
    pub open spec fn wf(self) -> bool {
        match self {
            MemoryView::Flat(m) => m.len() == 0x10000,
            MemoryView::Nes(b) => b.wf(),
        }
    }

    /// The RAM has its size: 64 KiB of flat memory, 2 KiB on the NES bus.
    pub open spec fn ram_wf(self) -> bool {
        match self {
            MemoryView::Flat(m) => m.len() == 0x10000,
            MemoryView::Nes(b) => b.memory.len() == 0x800,
        }
    }

    pub open spec fn can_read(self, address: u16) -> bool {
        match self {
            MemoryView::Flat(_) => true,
            MemoryView::Nes(b) => b.can_read(address),
        }
    }

    pub open spec fn read_value(self, address: u16) -> u8 {
        match self {
            MemoryView::Flat(m) => m[address as int],
            MemoryView::Nes(b) => b.read_value(address),
        }
    }

    pub open spec fn after_read(self, address: u16) -> MemoryView {
        match self {
            MemoryView::Flat(m) => self,
            MemoryView::Nes(b) => MemoryView::Nes(b.after_read(address)),
        }
    }

    pub open spec fn can_write(self, address: u16, value: u8) -> bool {
        match self {
            MemoryView::Flat(_) => true,
            MemoryView::Nes(b) => b.can_write(address, value),
        }
    }

    pub open spec fn after_write(self, address: u16, value: u8) -> MemoryView {
        match self {
            MemoryView::Flat(m) => MemoryView::Flat(m.update(address as int, value)),
            MemoryView::Nes(b) => MemoryView::Nes(b.after_write(address, value)),
        }
    }

    /// A cycle passes: the bus's devices advance; flat memory stays as it is.
    #[verifier::opaque]
    pub open spec fn after_tick(self) -> MemoryView {
        match self {
            MemoryView::Flat(m) => self,
            MemoryView::Nes(b) => MemoryView::Nes(b.after_tick()),
        }
    }

    /// Whether `load` accepts a program of `len` bytes at `start`: it must
    /// fit in the memory that takes it (the 2 KiB of RAM on the NES bus) and
    /// the reset vector must be writable.
    pub open spec fn can_load(self, len: nat, start: u16) -> bool {
        match self {
            MemoryView::Flat(_) => start + len <= 0x10000,
            MemoryView::Nes(b) => {
                &&& start + len <= 0x800
                &&& b.can_write(PROGRAM_CONTROL_ADDRESS, (start & 0xFF) as u8)
                &&& b.can_write((PROGRAM_CONTROL_ADDRESS + 1) as u16, (start >> 8u16) as u8)
            },
        }
    }

    /// The program copied in at `start`, then the reset vector ($FFFC,
    /// little-endian) pointed at `start`.
    pub open spec fn after_load(self, program: Seq<u8>, start: u16) -> MemoryView {
        let copied = match self {
            MemoryView::Flat(m) => MemoryView::Flat(copied_in(m, program, start as int)),
            MemoryView::Nes(b) => MemoryView::Nes(
                BusView { memory: copied_in(b.memory, program, start as int), ..b },
            ),
        };
        copied.after_write(PROGRAM_CONTROL_ADDRESS, (start & 0xFF) as u8).after_write(
            (PROGRAM_CONTROL_ADDRESS + 1) as u16,
            (start >> 8u16) as u8,
        )
    }
}

/// What the CPU is attached to.
pub enum CpuBus {
    Flat(FlatMemory),
    Nes(Bus),
}

impl View for CpuBus {
    type V = MemoryView;

    open spec fn view(&self) -> MemoryView {
        match self {
            CpuBus::Flat(m) => MemoryView::Flat(m@),
            CpuBus::Nes(b) => MemoryView::Nes(b@),
        }
    }
}

impl CpuBus {
    pub fn unclocked_read_u8(&mut self, address: u16) -> (r: u8)
        requires
            old(self)@.wf(),
            old(self)@.can_read(address),
        ensures
            r == old(self)@.read_value(address),
            final(self)@ == old(self)@.after_read(address),
    {
        match self {
            CpuBus::Flat(m) => m.read_u8(address),
            CpuBus::Nes(b) => b.inner_read_u8(address),
        }
    }

    pub fn unclocked_write_u8(&mut self, address: u16, value: u8)
        requires
            old(self)@.wf(),
            old(self)@.can_write(address, value),
        ensures
            final(self)@ == old(self)@.after_write(address, value),
            final(self)@.wf(),
    {
        match self {
            CpuBus::Flat(m) => m.write_u8(address, value),
            CpuBus::Nes(b) => b.inner_write_u8(address, value),
        }
    }

    pub fn tick(&mut self)
        requires
            old(self)@.wf(),
        ensures
            final(self)@ == old(self)@.after_tick(),
            final(self)@.wf(),
    {
        proof {
            reveal(MemoryView::after_tick);
        }
        match self {
            CpuBus::Flat(_) => {},
            CpuBus::Nes(b) => b.tick(),
        }
    }

    /// Copies `program` into memory at `start` and points the reset vector
    /// at it.
    pub fn load(&mut self, program: Vec<u8>, start: u16)
        requires
            old(self)@.wf(),
            old(self)@.can_load(program@.len(), start),
        ensures
            final(self)@ == old(self)@.after_load(program@, start),
            final(self)@.wf(),
    {
        let ghost before = self@;
        proof {
            match before {
                MemoryView::Flat(m) => {
                    assert(copied_in(m, program@.subrange(0, 0), start as int) =~= m);
                },
                MemoryView::Nes(b) => {
                    assert(copied_in(b.memory, program@.subrange(0, 0), start as int) =~= b.memory);
                },
            }
        }
        let mut i: usize = 0;
        while i < program.len()
            invariant
                0 <= i <= program@.len(),
                before.wf(),
                before.can_load(program@.len(), start),
                self@.wf(),
                self@ == match before {
                    MemoryView::Flat(m) => MemoryView::Flat(
                        copied_in(m, program@.subrange(0, i as int), start as int),
                    ),
                    MemoryView::Nes(b) => MemoryView::Nes(
                        BusView {
                            memory: copied_in(b.memory, program@.subrange(0, i as int), start as int),
                            ..b
                        },
                    ),
                },
            decreases program@.len() - i,
        {
            let address = (start as usize + i) as u16;
            proof {
                if before is Nes {
                    assert(address & 0x07FF == address) by (bit_vector)
                        requires address < 0x800;
                }
            }
            match self {
                CpuBus::Flat(m) => m.write_u8(address, program[i]),
                CpuBus::Nes(b) => {
                    b.inner_write_u8(address, program[i]);
                },
            }
            i = i + 1;
            proof {
                assert(self@ == match before {
                    MemoryView::Flat(m) => MemoryView::Flat(
                        copied_in(m, program@.subrange(0, i as int), start as int),
                    ),
                    MemoryView::Nes(b) => MemoryView::Nes(
                        BusView {
                            memory: copied_in(b.memory, program@.subrange(0, i as int), start as int),
                            ..b
                        },
                    ),
                }) by {
                    match before {
                        MemoryView::Flat(m) => {
                            assert(copied_in(m, program@.subrange(0, i as int), start as int)
                                =~= copied_in(m, program@.subrange(0, i - 1), start as int).update(
                                start + i - 1,
                                program@[i - 1],
                            ));
                        },
                        MemoryView::Nes(b) => {
                            assert(copied_in(b.memory, program@.subrange(0, i as int), start as int)
                                =~= copied_in(b.memory, program@.subrange(0, i - 1), start as int).update(
                                start + i - 1,
                                program@[i - 1],
                            ));
                        },
                    }
                }
            }
        }
        assert(program@.subrange(0, program@.len() as int) =~= program@);
        self.unclocked_write_u8(PROGRAM_CONTROL_ADDRESS, (start & 0xFF) as u8);
        self.unclocked_write_u8(PROGRAM_CONTROL_ADDRESS + 1, (start >> 8u16) as u8);
    }
}

/// A cycle leaves the RAM ($0000-$1FFF on the NES bus, all of flat
/// memory) as it was.
pub proof fn lemma_tick_keeps_ram(m: MemoryView, address: u16)
    requires
        m.ram_wf(),
        address <= RAM_RANGE_END_ADDRESS,
    ensures
        m.after_tick().ram_wf(),
        m.after_tick().can_read(address),
        m.after_tick().read_value(address) == m.read_value(address),
{
    reveal(MemoryView::after_tick);
}

/// A RAM address reads back what was last written to it.
pub proof fn lemma_ram_read_back(m: MemoryView, address: u16, value: u8)
    requires
        m.ram_wf(),
        address <= RAM_RANGE_END_ADDRESS,
    ensures
        m.can_write(address, value),
        m.after_write(address, value).ram_wf(),
        m.after_write(address, value).can_read(address),
        m.after_write(address, value).read_value(address) == value,
{
    lemma_ram_index(address);
}

/// Reading RAM changes nothing.
pub proof fn lemma_ram_read_keeps_state(m: MemoryView, address: u16)
    requires
        address <= RAM_RANGE_END_ADDRESS,
    ensures
        m.can_read(address),
        m.after_read(address) == m,
{
}

/// Whether `address` is a controller port, the one place where a read
/// changes what later reads give.
pub open spec fn is_port(address: u16) -> bool {
    address == 0x4016 || address == 0x4017
}

/// Every address reads in `after` as in `before`, but the controller
/// ports, and every address is accepted for reading in both alike.
pub open spec fn reads_kept(before: MemoryView, after: MemoryView) -> bool {
    forall|b: u16|
        #![trigger after.read_value(b)]
        #![trigger after.can_read(b)]
        after.can_read(b) == before.can_read(b) && (!is_port(b) ==> after.read_value(b)
            == before.read_value(b))
}

/// A cycle changes what no address reads.
pub proof fn lemma_tick_keeps_reads(m: MemoryView, b: u16)
    ensures
        m.after_tick().can_read(b) == m.can_read(b),
        m.after_tick().read_value(b) == m.read_value(b),
        (m.after_tick() is Flat) == (m is Flat),
        m.ram_wf() ==> m.after_tick().ram_wf(),
{
    reveal(MemoryView::after_tick);
}

/// A read changes what only its own address reads, and nothing at all
/// unless it reads a controller port.
pub proof fn lemma_read_keeps_reads(m: MemoryView, a: u16, b: u16)
    ensures
        m.after_read(a).can_read(b) == m.can_read(b),
        a != b ==> m.after_read(a).read_value(b) == m.read_value(b),
        !is_port(a) ==> m.after_read(a) == m,
{
}

/// The cycles and reads of a step keep `reads_kept`.
pub proof fn lemma_reads_kept_steps(m: MemoryView, a: u16)
    ensures
        reads_kept(m, m),
        reads_kept(m, m.after_tick()),
        reads_kept(m, m.after_read(a)),
{
    assert forall|b: u16| #[trigger] m.after_tick().read_value(b) == m.read_value(b) by {
        lemma_tick_keeps_reads(m, b);
    }
    assert forall|b: u16| #[trigger] m.after_tick().can_read(b) == m.can_read(b) by {
        lemma_tick_keeps_reads(m, b);
    }
    assert forall|b: u16| !is_port(b) implies #[trigger] m.after_read(a).read_value(b)
        == m.read_value(b) by {
        lemma_read_keeps_reads(m, a, b);
    }
}

pub proof fn lemma_reads_kept_trans(m1: MemoryView, m2: MemoryView, m3: MemoryView)
    requires
        reads_kept(m1, m2),
        reads_kept(m2, m3),
    ensures
        reads_kept(m1, m3),
{
    assert forall|b: u16| #[trigger] m3.can_read(b) == m1.can_read(b) by {
        assert(m3.can_read(b) == m2.can_read(b));
        assert(m2.can_read(b) == m1.can_read(b));
    }
    assert forall|b: u16| !is_port(b) implies #[trigger] m3.read_value(b) == m1.read_value(b) by {
        assert(m3.read_value(b) == m2.read_value(b));
        assert(m2.read_value(b) == m1.read_value(b));
    }
}

/// Whether `address` is RAM: all of flat memory; $0000-$1FFF on the NES
/// bus.
pub open spec fn is_ram(m: MemoryView, address: u16) -> bool {
    match m {
        MemoryView::Flat(_) => true,
        MemoryView::Nes(_) => address <= RAM_RANGE_END_ADDRESS,
    }
}

/// Whether a write of RAM address `a` is read at `b`: the same address in
/// flat memory, the same one of the 2 KiB on the NES bus.
pub open spec fn aliases(m: MemoryView, a: u16, b: u16) -> bool {
    match m {
        MemoryView::Flat(_) => a == b,
        MemoryView::Nes(_) => b <= RAM_RANGE_END_ADDRESS && a & 0x07FF == b & 0x07FF,
    }
}

/// A write of RAM is read back wherever it aliases and changes what no
/// other address reads.
pub proof fn lemma_ram_write_reads(m: MemoryView, a: u16, v: u8, b: u16)
    requires
        m.ram_wf(),
        is_ram(m, a),
    ensures
        m.can_write(a, v),
        m.after_write(a, v).ram_wf(),
        (m.after_write(a, v) is Flat) == (m is Flat),
        m.after_write(a, v).can_read(b) == m.can_read(b),
        aliases(m, a, b) ==> m.after_write(a, v).read_value(b) == v,
        !aliases(m, a, b) ==> m.after_write(a, v).read_value(b) == m.read_value(b),
{
    lemma_ram_index(a);
    lemma_ram_index(b);
}

} // verus!
