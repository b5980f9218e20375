//! The NES's CPU bus: 2 KiB of RAM mirrored through $0000-$1FFF, the PPU's
//! register window mirrored through $2000-$3FFF, the APU and I/O registers
//! at $4000-$4017 (with the two controller ports), and the cartridge from
//! $4018 up.
use vstd::prelude::*;

use crate::nes::apu::{ChannelLevels, APU};
use crate::nes::cartridge::{loadable, spec_cartridge, Cartridge, CartridgeView};

verus! {

pub const PROGRAM_CONTROL_ADDRESS: u16 = 0xFFFC;
pub const RAM_ACTUAL_END_ADDRESS: u16 = 0x07FF;
pub const RAM_RANGE_END_ADDRESS: u16 = 0x1FFF;
pub const PPU_REGISTER_START_ADDRESS: u16 = 0x2000;
pub const PPU_REGISTER_ACTUAL_END_ADDRESS: u16 = 0x2007;
pub const PPU_REGISTER_RANGE_END_ADDRESS: u16 = 0x3FFF;
pub const APU_IO_START_ADDRESS: u16 = 0x4000;
pub const APU_IO_END_ADDRESS: u16 = 0x4017;
pub const OAM_DMA_ADDRESS: u16 = 0x4014;
pub const CARTRIDGE_START_ADDRESS: u16 = 0x4018;

/// Controller button bits (set while pressed).
pub const BUTTON_A: u8 = 0b0000_0001;
pub const BUTTON_B: u8 = 0b0000_0010;
pub const BUTTON_SELECT: u8 = 0b0000_0100;
pub const BUTTON_START: u8 = 0b0000_1000;
pub const BUTTON_UP: u8 = 0b0001_0000;
pub const BUTTON_DOWN: u8 = 0b0010_0000;
pub const BUTTON_LEFT: u8 = 0b0100_0000;
pub const BUTTON_RIGHT: u8 = 0b1000_0000;

/// The state of the bus and of what hangs on it.
pub struct BusView {
    /// The 2 KiB of internal RAM.
    pub memory: Seq<u8>,
    pub cartridge: Option<CartridgeView>,
    pub clock_counter: u64,
    /// The eight registers of the PPU's window, as last written.
    pub ppu_registers: Seq<u8>,
    /// The 256 bytes of sprite memory that the last OAM DMA delivered.
    pub oam: Seq<u8>,
    pub apu: APU,
    /// The audio samples that fell due and have not been taken.
    pub audio: Seq<ChannelLevels>,
    pub controller1_state: u8,
    pub controller2_state: u8,
    pub controller1_shift: u8,
    pub controller2_shift: u8,
    pub controller_strobe: bool,
    /// The last value written to each register of $4000-$4017.
    pub apu_registers: Seq<u8>,
}

impl BusView {
    pub open spec fn wf(self) -> bool {
        &&& self.memory.len() == 0x800
        &&& self.ppu_registers.len() == 8
        &&& self.oam.len() == 256
        &&& self.apu_registers.len() == 24
        &&& self.apu.wf()
        &&& self.cartridge matches Some(c) ==> c.wf()
    }

    /// Reads are refused only where the cartridge refuses them.
    pub open spec fn can_read(self, address: u16) -> bool {
        address >= CARTRIDGE_START_ADDRESS ==> (self.cartridge matches Some(c) ==> c.can_read_prg(
            address,
        ))
    }

    /// The value a read of `address` gives.
    pub open spec fn read_value(self, address: u16) -> u8 {
        if address <= RAM_RANGE_END_ADDRESS {
            self.memory[(address & RAM_ACTUAL_END_ADDRESS) as int]
        } else if address <= PPU_REGISTER_RANGE_END_ADDRESS {
            self.ppu_registers[((address & PPU_REGISTER_ACTUAL_END_ADDRESS) % 8) as int]
        } else if address <= APU_IO_END_ADDRESS {
            if address == 0x4016 {
                (self.controller1_shift & 1) | 0x40
            } else if address == 0x4017 {
                (self.controller2_shift & 1) | 0x40
            } else {
                self.apu_registers[address - APU_IO_START_ADDRESS]
            }
        } else {
            match self.cartridge {
                Some(c) => c.prg_value(address),
                None => (address >> 8u16) as u8,
            }
        }
    }

    /// A read of a controller port shifts that controller's register right,
    /// filling with 1s; no other read changes anything.
    pub open spec fn after_read(self, address: u16) -> BusView {
        if address == 0x4016 {
            BusView { controller1_shift: (self.controller1_shift >> 1u8) | 0x80, ..self }
        } else if address == 0x4017 {
            BusView { controller2_shift: (self.controller2_shift >> 1u8) | 0x80, ..self }
        } else {
            self
        }
    }

    /// The state after the first `n` reads of an OAM DMA from page
    /// `source_page`, and the bytes read.
    pub open spec fn dma_reads(self, source_page: u16, n: nat) -> (BusView, Seq<u8>)
        decreases n,
    {
        if n == 0 {
            (self, Seq::empty())
        } else {
            let (before, bytes) = self.dma_reads(source_page, (n - 1) as nat);
            let address = source_page | ((n - 1) as u16);
            (before.after_read(address), bytes.push(before.read_value(address)))
        }
    }

    /// Writes are refused where the cartridge refuses them, and an OAM DMA
    /// is refused when a read of its source page would be.
    pub open spec fn can_write(self, address: u16, value: u8) -> bool {
        &&& address == OAM_DMA_ADDRESS ==> forall|i: u16|
            i < 256 ==> #[trigger] self.can_read(((value as u16) << 8u16) | i)
        &&& address >= CARTRIDGE_START_ADDRESS ==> (self.cartridge matches Some(c)
            ==> c.can_write_prg(address))
    }

    /// The controller strobe after a write of `value` to $4016: both shift
    /// registers reload from the button states while the strobe is high and
    /// when it falls.
    pub open spec fn after_strobe(self, value: u8) -> BusView {
        let new_strobe = value & 1 != 0;
        if self.controller_strobe || new_strobe {
            BusView {
                controller_strobe: new_strobe,
                controller1_shift: self.controller1_state,
                controller2_shift: self.controller2_state,
                ..self
            }
        } else {
            BusView { controller_strobe: new_strobe, ..self }
        }
    }

    /// The state after a write of `value` to `address`.
    pub open spec fn after_write(self, address: u16, value: u8) -> BusView {
        if address <= RAM_RANGE_END_ADDRESS {
            BusView {
                memory: self.memory.update((address & RAM_ACTUAL_END_ADDRESS) as int, value),
                ..self
            }
        } else if address <= PPU_REGISTER_RANGE_END_ADDRESS {
            BusView {
                ppu_registers: self.ppu_registers.update(
                    ((address & PPU_REGISTER_ACTUAL_END_ADDRESS) % 8) as int,
                    value,
                ),
                ..self
            }
        } else if address <= APU_IO_END_ADDRESS {
            let stored = BusView {
                apu_registers: self.apu_registers.update(address - APU_IO_START_ADDRESS, value),
                ..self
            };
            if address == OAM_DMA_ADDRESS {
                let (after, bytes) = stored.dma_reads((value as u16) << 8u16, 256);
                BusView { oam: bytes, ..after }
            } else if address == 0x4016 {
                stored.after_strobe(value)
            } else {
                stored
            }
        } else {
            match self.cartridge {
                Some(c) => BusView { cartridge: Some(c.after_write_prg(address, value)), ..self },
                None => self,
            }
        }
    }

    /// The state after one CPU cycle: the clock counter advances and the APU
    /// ticks, its samples joining the audio queue.
    pub open spec fn after_tick(self) -> BusView {
        let due = self.apu.spec_count_down_reset().spec_tick_timers().spec_frame_sequencer().spec_samples_due();
        let apu = self.apu.spec_tick();
        BusView {
            clock_counter: vstd::wrapping::u64_specs::wrapping_add(self.clock_counter, 1),
            apu,
            audio: self.audio + Seq::new(due, |i: int| apu.spec_levels()),
            ..self
        }
    }
}

/// The NES bus.
pub struct Bus {
    memory: Vec<u8>,
    cartridge: Option<Cartridge>,
    clock_counter: u64,
    ppu_registers: Vec<u8>,
    oam: Vec<u8>,
    apu: APU,
    audio: Vec<ChannelLevels>,
    controller1_state: u8,
    controller2_state: u8,
    controller1_shift: u8,
    controller2_shift: u8,
    controller_strobe: bool,
    apu_registers: Vec<u8>,
}

impl View for Bus {
    type V = BusView;

    closed spec fn view(&self) -> BusView {
        BusView {
            memory: self.memory@,
            cartridge: match self.cartridge {
                Some(c) => Some(c@),
                None => None,
            },
            clock_counter: self.clock_counter,
            ppu_registers: self.ppu_registers@,
            oam: self.oam@,
            apu: self.apu,
            audio: self.audio@,
            controller1_state: self.controller1_state,
            controller2_state: self.controller2_state,
            controller1_shift: self.controller1_shift,
            controller2_shift: self.controller2_shift,
            controller_strobe: self.controller_strobe,
            apu_registers: self.apu_registers@,
        }
    }
}

/// A bus with zeroed RAM, no cartridge, and $FF in every APU register.
pub open spec fn initial_bus() -> BusView {
    BusView {
        memory: Seq::new(0x800, |i: int| 0u8),
        cartridge: None,
        clock_counter: 0,
        ppu_registers: Seq::new(8, |i: int| 0u8),
        oam: Seq::new(256, |i: int| 0u8),
        apu: APU::initial(),
        audio: Seq::empty(),
        controller1_state: 0,
        controller2_state: 0,
        controller1_shift: 0,
        controller2_shift: 0,
        controller_strobe: false,
        apu_registers: Seq::new(24, |i: int| 0xFFu8),
    }
}

impl Bus {
    pub fn new() -> (r: Bus)
        ensures
            r@ == initial_bus(),
            r@.wf(),
    {
        let r = Bus {
            memory: vec![0u8; 0x800],
            cartridge: None,
            clock_counter: 0,
            ppu_registers: vec![0u8; 8],
            oam: vec![0u8; 256],
            apu: APU::new(),
            audio: Vec::new(),
            controller1_state: 0,
            controller2_state: 0,
            controller1_shift: 0,
            controller2_shift: 0,
            controller_strobe: false,
            apu_registers: vec![0xFFu8; 24],
        };
        assert(r@.memory =~= initial_bus().memory);
        assert(r@.ppu_registers =~= initial_bus().ppu_registers);
        assert(r@.oam =~= initial_bus().oam);
        assert(r@.apu_registers =~= initial_bus().apu_registers);
        r
    }

    /// Sets controller 1's buttons (see the BUTTON_* bits); while the strobe
    /// is high the shift register follows.
    pub fn set_controller1(&mut self, state: u8)
        ensures
            final(self)@ == (BusView {
                controller1_state: state,
                controller1_shift: if old(self)@.controller_strobe {
                    state
                } else {
                    old(self)@.controller1_shift
                },
                ..old(self)@
            }),
    {
        self.controller1_state = state;
        if self.controller_strobe {
            self.controller1_shift = state;
        }
    }

    /// Sets controller 2's buttons.
    pub fn set_controller2(&mut self, state: u8)
        ensures
            final(self)@ == (BusView {
                controller2_state: state,
                controller2_shift: if old(self)@.controller_strobe {
                    state
                } else {
                    old(self)@.controller2_shift
                },
                ..old(self)@
            }),
    {
        self.controller2_state = state;
        if self.controller_strobe {
            self.controller2_shift = state;
        }
    }

    /// Presses the buttons `button` on controller 1.
    pub fn press_button1(&mut self, button: u8)
        ensures
            final(self)@ == (BusView {
                controller1_state: old(self)@.controller1_state | button,
                controller1_shift: if old(self)@.controller_strobe {
                    old(self)@.controller1_state | button
                } else {
                    old(self)@.controller1_shift
                },
                ..old(self)@
            }),
    {
        self.controller1_state = self.controller1_state | button;
        if self.controller_strobe {
            self.controller1_shift = self.controller1_state;
        }
    }

    /// Releases the buttons `button` on controller 1.
    pub fn release_button1(&mut self, button: u8)
        ensures
            final(self)@ == (BusView {
                controller1_state: old(self)@.controller1_state & !button,
                controller1_shift: if old(self)@.controller_strobe {
                    old(self)@.controller1_state & !button
                } else {
                    old(self)@.controller1_shift
                },
                ..old(self)@
            }),
    {
        self.controller1_state = self.controller1_state & !button;
        if self.controller_strobe {
            self.controller1_shift = self.controller1_state;
        }
    }

    /// Presses the buttons `button` on controller 2.
    pub fn press_button2(&mut self, button: u8)
        ensures
            final(self)@ == (BusView {
                controller2_state: old(self)@.controller2_state | button,
                controller2_shift: if old(self)@.controller_strobe {
                    old(self)@.controller2_state | button
                } else {
                    old(self)@.controller2_shift
                },
                ..old(self)@
            }),
    {
        self.controller2_state = self.controller2_state | button;
        if self.controller_strobe {
            self.controller2_shift = self.controller2_state;
        }
    }

    /// Releases the buttons `button` on controller 2.
    pub fn release_button2(&mut self, button: u8)
        ensures
            final(self)@ == (BusView {
                controller2_state: old(self)@.controller2_state & !button,
                controller2_shift: if old(self)@.controller_strobe {
                    old(self)@.controller2_state & !button
                } else {
                    old(self)@.controller2_shift
                },
                ..old(self)@
            }),
    {
        self.controller2_state = self.controller2_state & !button;
        if self.controller_strobe {
            self.controller2_shift = self.controller2_state;
        }
    }

    /// Reads a byte from the bus without advancing the clock.
    pub fn inner_read_u8(&mut self, address: u16) -> (r: u8)
        requires
            old(self)@.wf(),
            old(self)@.can_read(address),
        ensures
            r == old(self)@.read_value(address),
            final(self)@ == old(self)@.after_read(address),
    {
        if address <= RAM_RANGE_END_ADDRESS {
            let actual_address = address & RAM_ACTUAL_END_ADDRESS;
            assert(actual_address < 0x800) by (bit_vector)
                requires actual_address == address & 0x07FF;
            self.memory[actual_address as usize]
        } else if address <= PPU_REGISTER_RANGE_END_ADDRESS {
            let actual_address = address & PPU_REGISTER_ACTUAL_END_ADDRESS;
            let index = actual_address % 8;
            self.ppu_registers[index as usize]
        } else if address <= APU_IO_END_ADDRESS {
            if address == 0x4016 {
                let result = (self.controller1_shift & 1) | 0x40;
                self.controller1_shift = (self.controller1_shift >> 1u8) | 0x80;
                result
            } else if address == 0x4017 {
                let result = (self.controller2_shift & 1) | 0x40;
                self.controller2_shift = (self.controller2_shift >> 1u8) | 0x80;
                result
            } else {
                self.apu_registers[(address - APU_IO_START_ADDRESS) as usize]
            }
        } else {
            match &self.cartridge {
                Some(cartridge) => cartridge.read_prg_u8(address),
                None => (address >> 8u16) as u8,
            }
        }
    }

    /// Writes a byte to the bus without advancing the clock. A write to
    /// $4014 copies the 256 bytes of the page it names into sprite memory.
    pub fn inner_write_u8(&mut self, address: u16, value: u8)
        requires
            old(self)@.wf(),
            old(self)@.can_write(address, value),
        ensures
            final(self)@ == old(self)@.after_write(address, value),
            final(self)@.wf(),
    {
        if address <= RAM_RANGE_END_ADDRESS {
            let actual_address = address & RAM_ACTUAL_END_ADDRESS;
            assert(actual_address < 0x800) by (bit_vector)
                requires actual_address == address & 0x07FF;
            self.memory.set(actual_address as usize, value);
        } else if address <= PPU_REGISTER_RANGE_END_ADDRESS {
            let actual_address = address & PPU_REGISTER_ACTUAL_END_ADDRESS;
            let index = actual_address % 8;
            self.ppu_registers.set(index as usize, value);
        } else if address <= APU_IO_END_ADDRESS {
            self.apu_registers.set((address - APU_IO_START_ADDRESS) as usize, value);
            if address == OAM_DMA_ADDRESS {
                let source_page = (value as u16) << 8u16;
                let ghost start = self@;
                assert forall|j: u16| j < 256 implies #[trigger] start.can_read(source_page | j) by {
                    assert(old(self)@.can_read(((value as u16) << 8u16) | j));
                }
                let mut oam_data: Vec<u8> = Vec::new();
                let mut i: u16 = 0;
                while i < 256
                    invariant
                        0 <= i <= 256,
                        self@.wf(),
                        self@.cartridge == start.cartridge,
                        start.wf(),
                        forall|j: u16| j < 256 ==> #[trigger] start.can_read(source_page | j),
                        (self@, oam_data@) == start.dma_reads(source_page, i as nat),
                    decreases 256 - i,
                {
                    assert(start.can_read(source_page | i));
                    let byte = self.inner_read_u8(source_page | i);
                    oam_data.push(byte);
                    i = i + 1;
                }
                proof {
                    lemma_dma_reads_len(start, source_page, 256);
                }
                self.oam = oam_data;
            } else if address == 0x4016 {
                let new_strobe = (value & 1) != 0;
                if self.controller_strobe && !new_strobe {
                    self.controller1_shift = self.controller1_state;
                    self.controller2_shift = self.controller2_state;
                }
                self.controller_strobe = new_strobe;
                if self.controller_strobe {
                    self.controller1_shift = self.controller1_state;
                    self.controller2_shift = self.controller2_state;
                }
            }
        } else {
            match &mut self.cartridge {
                Some(cartridge) => cartridge.write_prg_u8(address, value),
                None => {},
            }
        }
    }

    /// Plugs in the cartridge of an iNES image.
    pub fn load_cartridge_data(&mut self, data: &[u8])
        requires
            loadable(data@),
        ensures
            final(self)@ == (BusView { cartridge: Some(spec_cartridge(data@)), ..old(self)@ }),
    {
        let cartridge = Cartridge::new(data);
        self.cartridge = Some(cartridge);
    }

    /// One CPU cycle: advances the clock counter and the APU; samples that
    /// fall due join the audio queue.
    pub fn tick(&mut self)
        requires
            old(self)@.wf(),
        ensures
            final(self)@ == old(self)@.after_tick(),
            final(self)@.wf(),
    {
        self.clock_counter = self.clock_counter.wrapping_add(1);
        let due = self.apu.tick();
        let levels = self.apu.levels();
        let ghost mid = self@;
        let ghost audio_before = self.audio@;
        let mut i: u32 = 0;
        while i < due
            invariant
                0 <= i <= due,
                self.audio@ == audio_before + Seq::new(i as nat, |k: int| levels),
                self@ == (BusView { audio: self.audio@, ..mid }),
            decreases due - i,
        {
            self.audio.push(levels);
            i = i + 1;
            assert(self.audio@ =~= audio_before + Seq::new(i as nat, |k: int| levels));
        }
    }

    /// Whether a device requests an interrupt: none on this bus does.
    pub fn is_irq_ready(&self) -> (r: bool)
        ensures
            !r,
    {
        false
    }

    /// Takes the queued audio samples, leaving the queue empty.
    pub fn take_audio_samples(&mut self) -> (r: Vec<ChannelLevels>)
        ensures
            r@ == old(self)@.audio,
            final(self)@ == (BusView { audio: Seq::empty(), ..old(self)@ }),
    {
        let mut taken: Vec<ChannelLevels> = Vec::new();
        std::mem::swap(&mut taken, &mut self.audio);
        taken
    }
}

/// An OAM DMA reads as many bytes as it makes reads.
pub proof fn lemma_dma_reads_len(v: BusView, source_page: u16, n: nat)
    ensures
        v.dma_reads(source_page, n).1.len() == n,
    decreases n,
{
    if n > 0 {
        lemma_dma_reads_len(v, source_page, (n - 1) as nat);
    }
}

/// The values that `n` reads of `address` give, one after another.
pub open spec fn port_reads(v: BusView, address: u16, n: nat) -> Seq<u8>
    decreases n,
{
    if n == 0 {
        Seq::empty()
    } else {
        seq![v.read_value(address)] + port_reads(v.after_read(address), address, (n - 1) as nat)
    }
}

/// RAM is 2 KiB seen four times in $0000-$1FFF: a write to one address is
/// read back at each address that agrees with it in its low eleven bits,
/// and leaves every other RAM address reading as before.
pub proof fn lemma_ram_mirroring(v: BusView, address: u16, value: u8, other: u16)
    requires
        v.wf(),
        address <= RAM_RANGE_END_ADDRESS,
        other <= RAM_RANGE_END_ADDRESS,
    ensures
        v.can_write(address, value),
        v.after_write(address, value).wf(),
        v.after_write(address, value).read_value(other) == if other & 0x07FF == address & 0x07FF {
            value
        } else {
            v.read_value(other)
        },
{
    lemma_ram_index(address);
    lemma_ram_index(other);
}

/// A RAM address's low eleven bits index the 2 KiB of RAM.
pub proof fn lemma_ram_index(address: u16)
    by (bit_vector)
    ensures
        address & 0x07FF < 0x800,
{
}

/// The value read number `k` (from 0) of a controller port gives, when its
/// shift register held `state` before the first: the buttons in bit 0, A
/// first, with bit 6 set; from the ninth read on, 1 in bit 0.
pub open spec fn controller_read(state: u8, k: int) -> u8 {
    if k < 8 {
        ((state >> (k as u8)) & 1) | 0x40
    } else {
        0x41
    }
}

/// The shift register of the controller behind a port.
pub open spec fn port_shift(v: BusView, address: u16) -> u8 {
    if address == 0x4016 {
        v.controller1_shift
    } else {
        v.controller2_shift
    }
}

/// One read shifts the register right and fills it with a one: its bits
/// move down by one, and bit 7 is then set.
proof fn lemma_shift_step(s: u8, k: u8)
    by (bit_vector)
    requires
        k < 7,
    ensures
        ((((s >> 1u8) | 0x80u8) >> k) & 1) | 0x40 == ((s >> ((k + 1) as u8)) & 1) | 0x40,
        ((((s >> 1u8) | 0x80u8) >> 7u8) & 1) | 0x40 == 0x41,
        ((s >> 0u8) & 1) | 0x40 == (s & 1) | 0x40,
{
}

/// Any run of reads of a controller port gives `controller_read` of the
/// shift register's value before the run.
proof fn lemma_port_reads(v: BusView, address: u16, n: nat)
    requires
        address == 0x4016 || address == 0x4017,
    ensures
        port_reads(v, address, n).len() == n,
        forall|k: int|
            0 <= k < n ==> #[trigger] port_reads(v, address, n)[k] == controller_read(
                port_shift(v, address),
                k,
            ),
    decreases n,
{
    if n > 0 {
        let s = port_shift(v, address);
        let w = v.after_read(address);
        lemma_port_reads(w, address, (n - 1) as nat);
        assert(port_shift(w, address) == (s >> 1u8) | 0x80u8);
        lemma_shift_step(s, 0);
        let reads = port_reads(v, address, n);
        assert(reads == seq![v.read_value(address)] + port_reads(w, address, (n - 1) as nat));
        assert forall|k: int| 0 <= k < n implies #[trigger] reads[k] == controller_read(s, k) by {
            if k == 0 {
                assert(reads[0] == v.read_value(address));
            } else {
                assert(reads[k] == port_reads(w, address, (n - 1) as nat)[k - 1]);
                if k - 1 < 7 {
                    let j = (k - 1) as u8;
                    lemma_shift_step(s, j);
                    assert(((j + 1) as u8) == (k as u8));
                } else if k - 1 == 7 {
                    lemma_shift_step(s, 0);
                }
            }
        }
    }
}

/// Reading a controller: after the strobe goes high and low again (a write
/// of 1, then of 0, to $4016), any run of reads of a port ($4016 for
/// controller 1, $4017 for controller 2) gives its controller's buttons in
/// bit 0, one per read in the order A, B, Select, Start, Up, Down, Left,
/// Right, with bit 6 set; every read after the eighth gives 1 in bit 0.
pub proof fn lemma_controller_serial_read(v: BusView, n: nat)
    requires
        v.wf(),
    ensures
        ({
            let w = v.after_write(0x4016, 1).after_write(0x4016, 0);
            &&& forall|k: int|
                0 <= k < n ==> #[trigger] port_reads(w, 0x4016, n)[k] == controller_read(
                    v.controller1_state,
                    k,
                )
            &&& forall|k: int|
                0 <= k < n ==> #[trigger] port_reads(w, 0x4017, n)[k] == controller_read(
                    v.controller2_state,
                    k,
                )
        }),
{
    let w = v.after_write(0x4016, 1).after_write(0x4016, 0);
    assert(1u8 & 1 != 0 && 0u8 & 1 == 0) by (bit_vector);
    assert(w.controller1_shift == v.controller1_state);
    assert(w.controller2_shift == v.controller2_state);
    lemma_port_reads(w, 0x4016, n);
    lemma_port_reads(w, 0x4017, n);
}

/// The addresses of one page: the page number in the high byte, the
/// offset in the low byte; only page $40 holds $4000-$40FF.
proof fn lemma_page_address(page: u8, offset: u16)
    by (bit_vector)
    requires
        offset < 256,
    ensures
        (((page as u16) << 8u16) | offset) >> 8u16 == page as u16,
        page != 0x40 ==> !(0x4000 <= (((page as u16) << 8u16) | offset) && (((page as u16)
            << 8u16) | offset) <= 0x40FF),
{
}

/// The first `n` reads of a DMA from a page other than $40 change nothing
/// and give the bytes that `v` reads there.
proof fn lemma_dma_reads_plain(v: BusView, stored: BusView, page: u8, n: nat)
    requires
        n <= 256,
        page != 0x40,
        stored == (BusView { apu_registers: stored.apu_registers, ..v }),
    ensures
        stored.dma_reads((page as u16) << 8u16, n) == (
            stored,
            Seq::new(n, |i: int| v.read_value((((page as u16) << 8u16) | (i as u16)))),
        ),
    decreases n,
{
    let source = (page as u16) << 8u16;
    if n > 0 {
        lemma_dma_reads_plain(v, stored, page, (n - 1) as nat);
        let address = source | ((n - 1) as u16);
        lemma_page_address(page, (n - 1) as u16);
        assert(stored.after_read(address) == stored);
        assert(stored.read_value(address) == v.read_value(address));
        assert(Seq::new((n - 1) as nat, |i: int| v.read_value(source | (i as u16))).push(
            v.read_value(address),
        ) =~= Seq::new(n, |i: int| v.read_value(source | (i as u16))));
    }
}

/// OAM DMA: a write of a page number other than $40 to $4014 copies the
/// 256 bytes that the page reads into sprite memory and changes nothing
/// else but the stored register value.
pub proof fn lemma_oam_dma(v: BusView, page: u8)
    requires
        v.wf(),
        page != 0x40,
    ensures
        v.after_write(OAM_DMA_ADDRESS, page) == (BusView {
            oam: Seq::new(256, |i: int| v.read_value((((page as u16) << 8u16) | (i as u16)))),
            apu_registers: v.apu_registers.update(0x14, page),
            ..v
        }),
{
    let stored = BusView { apu_registers: v.apu_registers.update(0x14, page), ..v };
    lemma_dma_reads_plain(v, stored, page, 256);
}

} // verus!
