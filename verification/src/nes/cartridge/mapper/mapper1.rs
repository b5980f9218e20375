//! Mapper 1 (MMC1), used by Tetris, The Legend of Zelda, Metroid and many
//! others: PRG ROM switched in 16 KiB or 32 KiB units, CHR switched in
//! 4 KiB or 8 KiB units, mirroring under program control, and PRG RAM
//! that can be disabled. Its registers are loaded serially, one bit per
//! write, five writes per register.
use vstd::prelude::*;

use super::super::data::{Data, DataView};
use crate::nes::bits::lemma_byte_fields;
use super::super::pager::{lemma_page_count, Page, PageSize};
use crate::nes::mirroring::MirroringMode;

verus! {

/// The MMC1's registers.
#[derive(Clone, Copy, Debug, PartialEq, Eq, Structural)]
pub struct Mmc1Registers {
    /// The bits shifted in so far, the first one in bit 0.
    pub shift_register: u8,
    /// How many bits have been shifted in (0-4).
    pub shift_count: u8,
    /// Mirroring (bits 0-1), PRG bank mode (bits 2-3), CHR bank mode (bit 4).
    pub control: u8,
    /// CHR bank for $0000 (or the 8 KiB bank in 8 KiB mode).
    pub chr_bank_0: u8,
    /// CHR bank for $1000 in 4 KiB mode.
    pub chr_bank_1: u8,
    /// PRG bank (bits 0-3) and PRG RAM disable (bit 4).
    pub prg_bank: u8,
}

/// The registers after one write of `value` to `address` ($8000-$FFFF).
/// A value with bit 7 set clears the shift register and selects PRG mode 3.
/// Otherwise bit 0 of the value is shifted in; at the fifth bit the five
/// bits go to the register that the address selects ($8000-$9FFF control,
/// $A000-$BFFF CHR bank 0, $C000-$DFFF CHR bank 1, $E000-$FFFF PRG bank)
/// and the shift register starts over.
pub open spec fn spec_registers_after_write(r: Mmc1Registers, address: u16, value: u8) -> Mmc1Registers {
    if value & 0x80 != 0 {
        Mmc1Registers { shift_register: 0, shift_count: 0, control: r.control | 0x0C, ..r }
    } else {
        let shifted = r.shift_register | ((value & 1) << r.shift_count);
        if r.shift_count + 1 == 5 {
            let cleared = Mmc1Registers { shift_register: 0, shift_count: 0, ..r };
            if 0x8000 <= address <= 0x9FFF {
                Mmc1Registers { control: shifted, ..cleared }
            } else if 0xA000 <= address <= 0xBFFF {
                Mmc1Registers { chr_bank_0: shifted, ..cleared }
            } else if 0xC000 <= address <= 0xDFFF {
                Mmc1Registers { chr_bank_1: shifted, ..cleared }
            } else if 0xE000 <= address {
                Mmc1Registers { prg_bank: shifted, ..cleared }
            } else {
                cleared
            }
        } else {
            Mmc1Registers { shift_register: shifted, shift_count: (r.shift_count + 1) as u8, ..r }
        }
    }
}

impl Mmc1Registers {
    /// At most four bits are pending, and only those bits are set.
    pub open spec fn wf(self) -> bool {
        &&& self.shift_count < 5
        &&& self.shift_register < (1u8 << self.shift_count)
    }

    /// PRG bank mode: 0 and 1 switch 32 KiB, 2 fixes the first bank at
    /// $8000, 3 fixes the last bank at $C000.
    pub open spec fn prg_mode(self) -> u8 {
        (self.control >> 2u8) & 0x03
    }

    /// Whether CHR is switched in 4 KiB units.
    pub open spec fn chr_mode_4kb(self) -> bool {
        self.control & 0x10 != 0
    }

    /// PRG RAM is enabled while bit 4 of the PRG bank register is clear.
    pub open spec fn prg_ram_enabled(self) -> bool {
        self.prg_bank & 0x10 == 0
    }

    /// The 16 KiB PRG ROM bank that serves `address`, in a ROM of
    /// `bank_count` banks.
    pub open spec fn prg_bank_for(self, address: u16, bank_count: nat) -> nat {
        let bank = (self.prg_bank & 0x0F) as nat;
        let mode = self.prg_mode();
        if mode == 0 || mode == 1 {
            let bank_32k = (bank / 2) * 2;
            if address < 0xC000 {
                bank_32k % bank_count
            } else {
                (bank_32k + 1) % bank_count
            }
        } else if mode == 2 {
            if address < 0xC000 {
                0
            } else {
                bank % bank_count
            }
        } else {
            if address < 0xC000 {
                bank % bank_count
            } else {
                (bank_count - 1) as nat
            }
        }
    }

    /// The 4 KiB CHR bank that serves `address`.
    pub open spec fn chr_bank_for(self, address: u16) -> nat {
        if self.chr_mode_4kb() {
            if address < 0x1000 {
                self.chr_bank_0 as nat
            } else {
                self.chr_bank_1 as nat
            }
        } else {
            let bank_8k = (self.chr_bank_0 & 0x1E) as nat;
            if address < 0x1000 {
                bank_8k
            } else {
                bank_8k + 1
            }
        }
    }

    /// The mirroring that control bits 0-1 select.
    pub open spec fn mirroring(self) -> MirroringMode {
        let m = self.control & 0x03;
        if m == 0 {
            MirroringMode::SingleScreenLower
        } else if m == 1 {
            MirroringMode::SingleScreenUpper
        } else if m == 2 {
            MirroringMode::Vertical
        } else {
            MirroringMode::Horizontal
        }
    }
}

/// The MMC1 and the cartridge memory behind it.
pub struct Mapper1 {
    data: Data,
    registers: Mmc1Registers,
}

/// The contents of an MMC1 cartridge: its memory and the mapper's registers.
pub struct Mmc1View {
    pub data: DataView,
    pub registers: Mmc1Registers,
}

impl Mmc1View {
    pub open spec fn wf(self) -> bool {
        self.data.wf() && self.registers.wf()
    }

    /// Reads are served from $4020 up; PRG ROM reads need a PRG ROM bank.
    pub open spec fn can_read_prg(self, address: u16) -> bool {
        &&& address >= 0x4020
        &&& address >= 0x8000 ==> self.data.header.prg_rom_pages >= 1
    }

    /// $4020-$5FFF read 0, $6000-$7FFF PRG RAM (0 while it is disabled),
    /// $8000-$FFFF the selected PRG ROM bank.
    pub open spec fn prg_value(self, address: u16) -> u8 {
        let d = self.data;
        let r = self.registers;
        if address <= 0x5FFF {
            0
        } else if address <= 0x7FFF {
            if r.prg_ram_enabled() {
                d.prg_ram[address - 0x6000]
            } else {
                0
            }
        } else {
            let bank = r.prg_bank_for(address, d.header.prg_rom_pages as nat);
            let offset = if address < 0xC000 {
                address - 0x8000
            } else {
                address - 0xC000
            };
            d.prg_rom[bank * 0x4000 + offset]
        }
    }

    pub open spec fn can_write_prg(self, address: u16) -> bool {
        address >= 0x4020
    }

    /// $4020-$5FFF ignore writes, $6000-$7FFF write PRG RAM while it is
    /// enabled, $8000-$FFFF go to the serial register interface.
    pub open spec fn after_write_prg(self, address: u16, value: u8) -> Mmc1View {
        if address <= 0x5FFF {
            self
        } else if address <= 0x7FFF {
            if self.registers.prg_ram_enabled() {
                Mmc1View {
                    data: DataView { prg_ram: self.data.prg_ram.update(address - 0x6000, value), ..self.data },
                    ..self
                }
            } else {
                self
            }
        } else {
            Mmc1View { registers: spec_registers_after_write(self.registers, address, value), ..self }
        }
    }

    /// Reads of CHR RAM need an address in its 8 KiB.
    pub open spec fn can_read_chr(self, address: u16) -> bool {
        self.data.header.chr_rom_pages == 0 ==> address < 0x2000
    }

    /// CHR RAM when the image has no CHR ROM; otherwise the selected 4 KiB
    /// bank of CHR ROM, taken modulo the number of banks.
    pub open spec fn chr_value(self, address: u16) -> u8 {
        let d = self.data;
        if d.header.chr_rom_pages == 0 {
            d.chr_ram[address as int]
        } else {
            let bank = self.registers.chr_bank_for(address) % (d.header.chr_rom_pages * 2) as nat;
            d.chr_rom[bank * 0x1000 + (address & 0x0FFF)]
        }
    }

    pub open spec fn can_write_chr(self, address: u16) -> bool {
        self.data.header.chr_rom_pages != 0 || address < 0x2000
    }

    /// CHR RAM takes writes; CHR ROM ignores them.
    pub open spec fn after_write_chr(self, address: u16, value: u8) -> Mmc1View {
        if self.data.header.chr_rom_pages == 0 {
            Mmc1View {
                data: DataView { chr_ram: self.data.chr_ram.update(address as int, value), ..self.data },
                ..self
            }
        } else {
            self
        }
    }
}

impl View for Mapper1 {
    type V = Mmc1View;

    closed spec fn view(&self) -> Mmc1View {
        Mmc1View { data: self.data@, registers: self.registers }
    }
}

impl Mapper1 {
    /// A fresh MMC1: nothing shifted in, PRG mode 3 (last bank fixed).
    pub fn new(data: Data) -> (r: Mapper1)
        ensures
            r@.data == data@,
            r@.registers == (Mmc1Registers {
                shift_register: 0,
                shift_count: 0,
                control: 0x0C,
                chr_bank_0: 0,
                chr_bank_1: 0,
                prg_bank: 0,
            }),
            r@.registers.wf(),
    {
        let r = Mapper1 {
            data,
            registers: Mmc1Registers {
                shift_register: 0,
                shift_count: 0,
                control: 0x0C,
                chr_bank_0: 0,
                chr_bank_1: 0,
                prg_bank: 0,
            },
        };
        proof {
            lemma_byte_fields(0);
        }
        r
    }

    fn get_mirroring(&self) -> (r: MirroringMode)
        ensures
            r == self@.registers.mirroring(),
    {
        let m = self.registers.control & 0x03;
        if m == 0 {
            MirroringMode::SingleScreenLower
        } else if m == 1 {
            MirroringMode::SingleScreenUpper
        } else if m == 2 {
            MirroringMode::Vertical
        } else {
            MirroringMode::Horizontal
        }
    }

    fn prg_mode(&self) -> (r: u8)
        ensures
            r == self@.registers.prg_mode(),
            r < 4,
    {
        let c = self.registers.control;
        proof {
            lemma_byte_fields(c);
        }
        (c >> 2u8) & 0x03
    }

    fn chr_mode_4kb(&self) -> (r: bool)
        ensures
            r == self@.registers.chr_mode_4kb(),
    {
        (self.registers.control & 0x10) != 0
    }

    fn prg_ram_enabled(&self) -> (r: bool)
        ensures
            r == self@.registers.prg_ram_enabled(),
    {
        (self.registers.prg_bank & 0x10) == 0
    }

    /// One serial write to the registers ($8000-$FFFF).
    fn write_register(&mut self, address: u16, value: u8)
        requires
            old(self)@.registers.wf(),
        ensures
            final(self)@.registers == spec_registers_after_write(old(self)@.registers, address, value),
            final(self)@.registers.wf(),
            final(self)@.data == old(self)@.data,
    {
        if (value & 0x80) != 0 {
            self.registers.shift_register = 0;
            self.registers.shift_count = 0;
            self.registers.control = self.registers.control | 0x0C;
            proof {
                lemma_byte_fields(0);
            }
            return;
        }
        let count = self.registers.shift_count;
        let pending = self.registers.shift_register;
        let bit = value & 0x01;
        let shifted = pending | (bit << count);
        assert(shifted < (1u8 << ((count + 1) as u8))) by (bit_vector)
            requires
                count < 5,
                pending < (1u8 << count),
                bit == value & 0x01,
                shifted == pending | (bit << count),
        ;
        self.registers.shift_register = shifted;
        self.registers.shift_count = count + 1;
        if self.registers.shift_count == 5 {
            let reg_value = self.registers.shift_register;
            if 0x8000 <= address && address <= 0x9FFF {
                self.registers.control = reg_value;
            } else if 0xA000 <= address && address <= 0xBFFF {
                self.registers.chr_bank_0 = reg_value;
            } else if 0xC000 <= address && address <= 0xDFFF {
                self.registers.chr_bank_1 = reg_value;
            } else if 0xE000 <= address {
                self.registers.prg_bank = reg_value;
            }
            self.registers.shift_register = 0;
            self.registers.shift_count = 0;
            proof {
                lemma_byte_fields(0);
            }
        }
    }

    /// The 16 KiB PRG ROM bank that serves `address`; it lies in the ROM.
    fn get_prg_bank(&self, address: u16) -> (r: usize)
        requires
            self@.data.wf(),
            self@.data.header.prg_rom_pages >= 1,
        ensures
            r == self@.registers.prg_bank_for(address, self@.data.header.prg_rom_pages as nat),
            r < self@.data.header.prg_rom_pages,
    {
        let prg_bank = (self.registers.prg_bank & 0x0F) as usize;
        proof {
            lemma_page_count(self.data.prg_rom.data@.len(), self.data.header.prg_rom_pages as nat, 0x4000);
        }
        let bank_count = self.data.prg_rom.get_page_count(PageSize::SixteenKb);
        let mode = self.prg_mode();
        if mode == 0 || mode == 1 {
            let bank_32k = (prg_bank / 2) * 2;
            if address < 0xC000 {
                bank_32k % bank_count
            } else {
                (bank_32k + 1) % bank_count
            }
        } else if mode == 2 {
            if address < 0xC000 {
                0
            } else {
                prg_bank % bank_count
            }
        } else {
            if address < 0xC000 {
                prg_bank % bank_count
            } else {
                bank_count - 1
            }
        }
    }

    /// The 4 KiB CHR bank that serves `address`.
    fn get_chr_bank(&self, address: u16) -> (r: usize)
        ensures
            r == self@.registers.chr_bank_for(address),
    {
        if self.chr_mode_4kb() {
            if address < 0x1000 {
                self.registers.chr_bank_0 as usize
            } else {
                self.registers.chr_bank_1 as usize
            }
        } else {
            let bank_8k = (self.registers.chr_bank_0 & 0x1E) as usize;
            if address < 0x1000 {
                bank_8k
            } else {
                bank_8k + 1
            }
        }
    }

    pub fn read_prg_u8(&self, address: u16) -> (r: u8)
        requires
            self@.wf(),
            self@.can_read_prg(address),
        ensures
            r == self@.prg_value(address),
    {
        let d = &self.data;
        if address <= 0x5FFF {
            0x00
        } else if address <= 0x7FFF {
            if self.prg_ram_enabled() {
                proof {
                    lemma_page_count(d.prg_ram.data@.len(), d.header.prg_ram_pages as nat, 0x2000);
                }
                d.prg_ram.read_u8(Page::First(PageSize::EightKb), address - 0x6000)
            } else {
                0x00
            }
        } else {
            let bank = self.get_prg_bank(address);
            let offset = if address < 0xC000 {
                address - 0x8000
            } else {
                address - 0xC000
            };
            proof {
                let n = d.header.prg_rom_pages as int;
                lemma_page_count(d.prg_rom.data@.len(), n as nat, 0x4000);
                assert(bank * 0x4000 + offset < n * 0x4000) by (nonlinear_arith)
                    requires bank < n, offset < 0x4000;
            }
            d.prg_rom.read_u8(Page::Number(bank, PageSize::SixteenKb), offset)
        }
    }

    pub fn write_prg_u8(&mut self, address: u16, value: u8)
        requires
            old(self)@.wf(),
            old(self)@.can_write_prg(address),
        ensures
            final(self)@ == old(self)@.after_write_prg(address, value),
            final(self)@.wf(),
    {
        if address <= 0x5FFF {
        } else if address <= 0x7FFF {
            if self.prg_ram_enabled() {
                proof {
                    lemma_page_count(self.data.prg_ram.data@.len(), self.data.header.prg_ram_pages as nat, 0x2000);
                }
                self.data.prg_ram.write_u8(Page::First(PageSize::EightKb), address - 0x6000, value);
            }
        } else {
            self.write_register(address, value);
        }
    }

    pub fn read_chr_u8(&self, address: u16) -> (r: u8)
        requires
            self@.wf(),
            self@.can_read_chr(address),
        ensures
            r == self@.chr_value(address),
    {
        let d = &self.data;
        if d.header.chr_rom_pages == 0 {
            proof {
                lemma_page_count(d.chr_ram.data@.len(), 1, 0x2000);
            }
            d.chr_ram.read_u8(Page::First(PageSize::EightKb), address)
        } else {
            let bank = self.get_chr_bank(address);
            let offset = address & 0x0FFF;
            assert(offset < 0x1000) by (bit_vector)
                requires offset == address & 0x0FFF;
            let n = d.header.chr_rom_pages;
            proof {
                assert(d.chr_rom.data@.len() == (n * 2) * 0x1000);
                lemma_page_count(d.chr_rom.data@.len(), (n * 2) as nat, 0x1000);
            }
            let bank_count = d.chr_rom.get_page_count(PageSize::FourKb);
            let actual_bank = bank % bank_count;
            proof {
                assert(actual_bank * 0x1000 + offset < bank_count * 0x1000) by (nonlinear_arith)
                    requires actual_bank < bank_count, offset < 0x1000;
            }
            d.chr_rom.read_u8(Page::Number(actual_bank, PageSize::FourKb), offset)
        }
    }

    pub fn write_chr_u8(&mut self, address: u16, value: u8)
        requires
            old(self)@.wf(),
            old(self)@.can_write_chr(address),
        ensures
            final(self)@ == old(self)@.after_write_chr(address, value),
            final(self)@.wf(),
    {
        if self.data.header.chr_rom_pages == 0 {
            proof {
                lemma_page_count(self.data.chr_ram.data@.len(), 1, 0x2000);
            }
            self.data.chr_ram.write_u8(Page::First(PageSize::EightKb), address, value);
        }
    }

    /// The mirroring that the control register selects.
    pub fn get_mirroring_mode(&self) -> (r: MirroringMode)
        ensures
            r == self@.registers.mirroring(),
    {
        self.get_mirroring()
    }
}

/// Five writes with bit 7 clear, starting from an empty shift register,
/// load the register that the last write's address selects with the five
/// bits 0 of the written values, the first value's bit in bit 0.
pub proof fn lemma_serial_load(
    r: Mmc1Registers,
    a0: u16, a1: u16, a2: u16, a3: u16, a4: u16,
    v0: u8, v1: u8, v2: u8, v3: u8, v4: u8,
)
    requires
        r.shift_register == 0,
        r.shift_count == 0,
        v0 & 0x80 == 0,
        v1 & 0x80 == 0,
        v2 & 0x80 == 0,
        v3 & 0x80 == 0,
        v4 & 0x80 == 0,
    ensures
        ({
            let r5 = spec_registers_after_write(
                spec_registers_after_write(
                    spec_registers_after_write(
                        spec_registers_after_write(spec_registers_after_write(r, a0, v0), a1, v1),
                        a2,
                        v2,
                    ),
                    a3,
                    v3,
                ),
                a4,
                v4,
            );
            let loaded = ((v0 & 1) + 2 * (v1 & 1) + 4 * (v2 & 1) + 8 * (v3 & 1) + 16 * (v4 & 1)) as u8;
            &&& r5.shift_register == 0
            &&& r5.shift_count == 0
            &&& 0x8000 <= a4 <= 0x9FFF ==> r5.control == loaded
            &&& 0xA000 <= a4 <= 0xBFFF ==> r5.chr_bank_0 == loaded
            &&& 0xC000 <= a4 <= 0xDFFF ==> r5.chr_bank_1 == loaded
            &&& 0xE000 <= a4 ==> r5.prg_bank == loaded
        }),
{
    let s1 = (0u8 | ((v0 & 1) << 0u8));
    let s2 = (s1 | ((v1 & 1) << 1u8));
    let s3 = (s2 | ((v2 & 1) << 2u8));
    let s4 = (s3 | ((v3 & 1) << 3u8));
    let s5 = (s4 | ((v4 & 1) << 4u8));
    assert(s5 == ((v0 & 1) + 2 * (v1 & 1) + 4 * (v2 & 1) + 8 * (v3 & 1) + 16 * (v4 & 1)) as u8)
        by (bit_vector)
        requires
            s1 == (0u8 | ((v0 & 1) << 0u8)),
            s2 == (s1 | ((v1 & 1) << 1u8)),
            s3 == (s2 | ((v2 & 1) << 2u8)),
            s4 == (s3 | ((v3 & 1) << 3u8)),
            s5 == (s4 | ((v4 & 1) << 4u8)),
    ;
}

/// Through the cartridge's write interface: five writes to $8000-$FFFF
/// with bit 7 clear, from an empty shift register, load the register that
/// the last address selects with the five bits 0 of the values (the first
/// in bit 0), empty the shift register, and leave the memory alone.
pub proof fn lemma_five_writes_load(
    m: Mmc1View,
    a0: u16, a1: u16, a2: u16, a3: u16, a4: u16,
    v0: u8, v1: u8, v2: u8, v3: u8, v4: u8,
)
    requires
        m.registers.shift_register == 0,
        m.registers.shift_count == 0,
        a0 >= 0x8000,
        a1 >= 0x8000,
        a2 >= 0x8000,
        a3 >= 0x8000,
        a4 >= 0x8000,
        v0 & 0x80 == 0,
        v1 & 0x80 == 0,
        v2 & 0x80 == 0,
        v3 & 0x80 == 0,
        v4 & 0x80 == 0,
    ensures
        ({
            let m5 = m.after_write_prg(a0, v0).after_write_prg(a1, v1).after_write_prg(
                a2,
                v2,
            ).after_write_prg(a3, v3).after_write_prg(a4, v4);
            let loaded = ((v0 & 1) + 2 * (v1 & 1) + 4 * (v2 & 1) + 8 * (v3 & 1) + 16 * (v4 & 1)) as u8;
            &&& m5.data == m.data
            &&& m5.registers.shift_register == 0
            &&& m5.registers.shift_count == 0
            &&& 0x8000 <= a4 <= 0x9FFF ==> m5.registers.control == loaded
            &&& 0xA000 <= a4 <= 0xBFFF ==> m5.registers.chr_bank_0 == loaded
            &&& 0xC000 <= a4 <= 0xDFFF ==> m5.registers.chr_bank_1 == loaded
            &&& 0xE000 <= a4 ==> m5.registers.prg_bank == loaded
        }),
{
    lemma_serial_load(m.registers, a0, a1, a2, a3, a4, v0, v1, v2, v3, v4);
}

/// Through the cartridge's write interface: a write to $8000-$FFFF with
/// bit 7 set empties the shift register and selects PRG mode 3, and
/// changes nothing else.
pub proof fn lemma_reset_write(m: Mmc1View, address: u16, value: u8)
    requires
        address >= 0x8000,
        value & 0x80 != 0,
    ensures
        m.after_write_prg(address, value) == (Mmc1View {
            registers: Mmc1Registers {
                shift_register: 0,
                shift_count: 0,
                control: m.registers.control | 0x0C,
                ..m.registers
            },
            ..m
        }),
{
}

/// Where each PRG ROM window reads from, for every offset `o` into a
/// window, with `n` the number of 16 KiB banks and `b` the PRG bank
/// register:
/// - with bit 3 of the control register clear (32 KiB mode), $8000 and
///   $C000 show the two halves of one 32 KiB bank: 16 KiB banks `b & 0x0E`
///   and `(b & 0x0E) + 1`, each taken modulo `n`;
/// - with bits 2-3 equal to 2, $8000 shows the first bank and $C000 bank
///   `b & 0x0F` (modulo `n`);
/// - with bits 2-3 equal to 3, $8000 shows bank `b & 0x0F` (modulo `n`)
///   and $C000 the last bank.
pub proof fn lemma_prg_windows(m: Mmc1View, o: u16)
    requires
        m.wf(),
        m.data.header.prg_rom_pages >= 1,
        o < 0x4000,
    ensures
        ({
            let n = m.data.header.prg_rom_pages as int;
            let c = m.registers.control;
            let b = m.registers.prg_bank;
            let low = m.prg_value((0x8000 + o) as u16);
            let high = m.prg_value((0xC000 + o) as u16);
            let rom = m.data.prg_rom;
            &&& c & 0x08 == 0 ==> {
                &&& low == rom[((b & 0x0E) as int % n) * 0x4000 + o]
                &&& high == rom[(((b & 0x0E) as int + 1) % n) * 0x4000 + o]
            }
            &&& c & 0x0C == 0x08 ==> {
                &&& low == rom[o as int]
                &&& high == rom[((b & 0x0F) as int % n) * 0x4000 + o]
            }
            &&& c & 0x0C == 0x0C ==> {
                &&& low == rom[((b & 0x0F) as int % n) * 0x4000 + o]
                &&& high == rom[(n - 1) * 0x4000 + o]
            }
        }),
{
    let c = m.registers.control;
    let b = m.registers.prg_bank;
    assert({
        &&& ((c >> 2u8) & 0x03 == 0 || (c >> 2u8) & 0x03 == 1) <==> c & 0x08 == 0
        &&& (c >> 2u8) & 0x03 == 2 <==> c & 0x0C == 0x08
        &&& (c >> 2u8) & 0x03 == 3 <==> c & 0x0C == 0x0C
        &&& ((b & 0x0F) / 2) * 2 == b & 0x0E
        &&& (b & 0x0F) < 16
    }) by (bit_vector);
}

/// Where each CHR window reads from, for every offset `o` into a 4 KiB
/// window: with CHR RAM (no CHR ROM) every address reads its own byte of
/// CHR RAM. With CHR ROM of `n` 4 KiB banks, in 4 KiB mode (bit 4 of the
/// control register set) $0000 shows bank `chr_bank_0` and $1000 bank
/// `chr_bank_1`; in 8 KiB mode they show the two halves of one 8 KiB bank,
/// 4 KiB banks `chr_bank_0 & 0x1E` and the one after it; each bank number
/// is taken modulo `n`.
pub proof fn lemma_chr_windows(m: Mmc1View, o: u16)
    requires
        o < 0x1000,
    ensures
        ({
            let pages = m.data.header.chr_rom_pages;
            let n = pages * 2;
            let c = m.registers.control;
            let b0 = m.registers.chr_bank_0;
            let b1 = m.registers.chr_bank_1;
            let low = m.chr_value(o);
            let high = m.chr_value((0x1000 + o) as u16);
            let rom = m.data.chr_rom;
            &&& pages == 0 ==> low == m.data.chr_ram[o as int] && high == m.data.chr_ram[0x1000
                + o]
            &&& pages != 0 && c & 0x10 != 0 ==> {
                &&& low == rom[(b0 as int % n) * 0x1000 + o]
                &&& high == rom[(b1 as int % n) * 0x1000 + o]
            }
            &&& pages != 0 && c & 0x10 == 0 ==> {
                &&& low == rom[((b0 & 0x1E) as int % n) * 0x1000 + o]
                &&& high == rom[(((b0 & 0x1E) as int + 1) % n) * 0x1000 + o]
            }
        }),
{
    let h = (0x1000 + o) as u16;
    assert(o & 0x0FFF == o && h & 0x0FFF == o && h >= 0x1000) by (bit_vector)
        requires
            o < 0x1000,
            h == (0x1000 + o) as u16,
    ;
}

} // verus!
